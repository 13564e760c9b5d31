//! Work-descriptor geometry: effective dimensionality, trimming to it, the
//! work-item product, and the choice of a local work-group shape.
use vstd::prelude::*;

use crate::opencl_version::{version_rank, OpenCLVersion};
use vstd::arithmetic::mul::lemma_mul_upper_bound;

verus! {

/// A three-axis extent or offset.
#[derive(Debug, Clone, Copy, PartialEq, Eq, Structural)]
pub struct Dim3 {
    pub x: usize,
    pub y: usize,
    pub z: usize,
}

impl Dim3 {
    /// Packs three axis values.
    pub fn new(x: usize, y: usize, z: usize) -> (r: Dim3)
        ensures
            r == (Dim3 { x, y, z }),
    {
        Dim3 { x, y, z }
    }
}

/// The three axes as a sequence, first axis first.
pub open spec fn dim_seq(d: Dim3) -> Seq<usize> {
    seq![d.x, d.y, d.z]
}

/// The effective dimensionality of a work descriptor: the highest axis that
/// carries more than one item or a nonzero offset, and at least one.
pub open spec fn spec_work_dim(dims: Dim3, offset: Dim3) -> int {
    if dims.z > 1 || offset.z > 0 {
        3
    } else if dims.y > 1 || offset.y > 0 {
        2
    } else {
        1
    }
}

/// Computes the effective dimensionality, as `spec_work_dim` says.
pub fn effective_work_dim(dims: Dim3, offset: Dim3) -> (r: usize)
    ensures
        r == spec_work_dim(dims, offset),
        1 <= r <= 3,
{
    if dims.z > 1 || offset.z > 0 {
        3
    } else if dims.y > 1 || offset.y > 0 {
        2
    } else {
        1
    }
}

/// The first `wd` axes of a three-axis value.
pub open spec fn spec_trim(d: Dim3, wd: int) -> Seq<usize> {
    dim_seq(d).take(wd)
}

/// Keeps the first `wd` axes, as `spec_trim` says.
pub fn trim_dims(d: Dim3, wd: usize) -> (r: Vec<usize>)
    requires
        1 <= wd <= 3,
    ensures
        r@ == spec_trim(d, wd as int),
{
    let mut r: Vec<usize> = Vec::new();
    r.push(d.x);
    if wd >= 2 {
        r.push(d.y);
    }
    if wd >= 3 {
        r.push(d.z);
    }
    proof {
        assert(r@ =~= spec_trim(d, wd as int));
    }
    r
}

/// The number of work items a shape spans: the product of its axes. An
/// empty shape spans one item.
pub open spec fn spec_product(s: Seq<usize>) -> nat
    decreases s.len(),
{
    if s.len() == 0 {
        1
    } else {
        (spec_product(s.drop_last()) * s.last()) as nat
    }
}

/// The divisibility requirement on a local work shape: it is nonempty in
/// every axis, and its work-item count divides the global one.
pub open spec fn local_fits(local: Seq<usize>, global: Seq<usize>) -> bool {
    spec_product(local) > 0 && spec_product(global) % spec_product(local) == 0
}

/// Multiplies the axes of a trimmed shape, as `spec_product` says. The
/// product is required to fit a machine word, as a work-item count must.
pub fn product_dims(v: &Vec<usize>) -> (r: u128)
    requires
        v@.len() <= 3,
        spec_product(v@) <= usize::MAX,
    ensures
        r == spec_product(v@),
{
    let mut p: u128 = 1;
    let mut i: usize = 0;
    while i < v.len()
        invariant
            i <= v.len() <= 3,
            spec_product(v@) <= usize::MAX,
            p == spec_product(v@.take(i as int)),
            i == 0 ==> p == 1,
            i == 1 ==> p <= u64::MAX,
            i == 2 ==> p <= (u64::MAX as int) * (u64::MAX as int),
        decreases v.len() - i,
    {
        proof {
            assert(v@.take(i + 1).drop_last() =~= v@.take(i as int));
            assert(v@.take(i + 1).last() == v@[i as int]);
            if i == 1 {
                lemma_mul_upper_bound(p as int, u64::MAX as int, v@[i as int] as int, u64::MAX as int);
            }
            if i == 2 {
                assert(v@.take(3) =~= v@);
                assert(p * v@[i as int] == spec_product(v@));
            }
        }
        p = p * (v[i] as u128);
        i = i + 1;
    }
    proof {
        assert(v@.take(v@.len() as int) =~= v@);
    }
    p
}

/// Decides whether a local shape may be handed to a device that lacks
/// non-uniform work-group support, as `local_fits` says.
pub fn local_divides(local: &Vec<usize>, global: &Vec<usize>) -> (r: bool)
    requires
        local@.len() <= 3,
        global@.len() <= 3,
        spec_product(local@) <= usize::MAX,
        spec_product(global@) <= usize::MAX,
    ensures
        r == local_fits(local@, global@),
{
    let pl = product_dims(local);
    let pg = product_dims(global);
    pl > 0 && pg % pl == 0
}

/// The local work shape a submission is given. A caller-supplied shape is
/// trimmed and used verbatim. Otherwise a device with non-uniform
/// work-group support is left to choose its own; one-dimensional work falls
/// back to the kernel's preferred size where that query succeeded; anything
/// else is left to the runtime.
pub open spec fn spec_local_dims(
    user: Option<Dim3>,
    wd: int,
    version: OpenCLVersion,
    non_uniform: bool,
    preferred: Option<usize>,
) -> Seq<usize> {
    match user {
        Option::Some(l) => spec_trim(l, wd),
        Option::None => {
            if version_rank(version) >= version_rank(OpenCLVersion::V2_0) && non_uniform {
                Seq::empty()
            } else if wd == 1 && preferred is Some {
                seq![preferred->0]
            } else {
                Seq::empty()
            }
        },
    }
}

/// Chooses the local work shape of one submission, as `spec_local_dims`
/// says; an empty result leaves the choice to the runtime.
pub fn choose_local_dims(
    user: &Option<Dim3>,
    wd: usize,
    version: OpenCLVersion,
    non_uniform: bool,
    preferred: &Option<usize>,
) -> (r: Vec<usize>)
    requires
        1 <= wd <= 3,
    ensures
        r@ == spec_local_dims(*user, wd as int, version, non_uniform, *preferred),
{
    match user {
        Option::Some(l) => trim_dims(*l, wd),
        Option::None => {
            let recent = version >= OpenCLVersion::V2_0;
            if recent && non_uniform {
                Vec::new()
            } else {
                match preferred {
                    Option::Some(p) => {
                        if wd == 1 {
                            let mut r: Vec<usize> = Vec::new();
                            r.push(*p);
                            proof {
                                assert(r@ =~= seq![*p]);
                            }
                            r
                        } else {
                            Vec::new()
                        }
                    },
                    Option::None => Vec::new(),
                }
            }
        },
    }
}

} // verus!
