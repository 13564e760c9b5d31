//! The info decoder: converts the raw byte buffers that info queries
//! return into typed values. Integers decode little-endian at their exact
//! width, booleans as a 32-bit integer tested against zero, sequences
//! chunk by chunk left to right, and strings as UTF-8. A buffer of the
//! wrong length decodes to nothing, which callers surface as a recoverable
//! decoder failure.
use vstd::prelude::*;

use vstd::arithmetic::div_mod::{lemma_fundamental_div_mod, lemma_mod_bound};

verus! {

/// 256 to the power `k`: how many values `k` bytes can carry.
pub open spec fn pow256(k: nat) -> nat
    decreases k,
{
    if k == 0 {
        1
    } else {
        256 * pow256((k - 1) as nat)
    }
}

/// The number a little-endian byte sequence denotes, least significant
/// byte first.
pub open spec fn le_value(bytes: Seq<u8>) -> nat
    decreases bytes.len(),
{
    if bytes.len() == 0 {
        0
    } else {
        (bytes[0] + 256 * le_value(bytes.drop_first())) as nat
    }
}

/// The little-endian bytes of a number at a given width, least significant
/// byte first.
pub open spec fn le_bytes(v: nat, width: nat) -> Seq<u8>
    decreases width,
{
    if width == 0 {
        Seq::empty()
    } else {
        seq![(v % 256) as u8] + le_bytes(v / 256, (width - 1) as nat)
    }
}

/// A byte sequence denotes fewer than `256^len` values.
pub proof fn lemma_le_value_bound(bytes: Seq<u8>)
    ensures
        le_value(bytes) < pow256(bytes.len()),
    decreases bytes.len(),
{
    if bytes.len() > 0 {
        lemma_le_value_bound(bytes.drop_first());
    }
}

/// Longer byte widths carry at least as many values.
proof fn lemma_pow256_mono(a: nat, b: nat)
    requires
        a <= b,
    ensures
        pow256(a) <= pow256(b),
    decreases b,
{
    if a < b {
        lemma_pow256_mono(a, (b - 1) as nat);
    }
}

/// The concrete byte-width capacities the decoders use.
proof fn lemma_pow256_values()
    ensures
        pow256(4) == 0x1_0000_0000,
        pow256(8) == 0x1_0000_0000_0000_0000,
{
    assert(pow256(0) == 1);
    assert(pow256(1) == 256);
    assert(pow256(2) == 0x1_0000);
    assert(pow256(3) == 0x100_0000);
    assert(pow256(4) == 0x1_0000_0000);
    assert(pow256(5) == 0x100_0000_0000);
    assert(pow256(6) == 0x1_0000_0000_0000);
    assert(pow256(7) == 0x100_0000_0000_0000);
    assert(pow256(8) == 0x1_0000_0000_0000_0000);
}

/// Writing a number and reading it back round-trips, provided it fits the
/// width.
pub proof fn lemma_le_round_trip(v: nat, width: nat)
    requires
        v < pow256(width),
    ensures
        le_bytes(v, width).len() == width,
        le_value(le_bytes(v, width)) == v,
    decreases width,
{
    if width == 0 {
    } else {
        lemma_mod_bound(v as int, 256);
        lemma_fundamental_div_mod(v as int, 256);
        assert(v / 256 < pow256((width - 1) as nat)) by {
            if v / 256 >= pow256((width - 1) as nat) {
                assert(v >= 256 * (v / 256));
            }
        }
        lemma_le_round_trip(v / 256, (width - 1) as nat);
        let whole = le_bytes(v, width);
        assert(whole.drop_first() =~= le_bytes(v / 256, (width - 1) as nat));
        assert(whole[0] == (v % 256) as u8);
    }
}

/// Reads the little-endian chunk `b[from..to]` as a number, as `le_value`
/// says.
fn le_chunk(b: &[u8], from: usize, to: usize) -> (r: u64)
    requires
        from <= to <= b@.len(),
        to - from <= 8,
    ensures
        r == le_value(b@.subrange(from as int, to as int)),
{
    proof {
        lemma_pow256_values();
    }
    let mut acc: u64 = 0;
    let mut i: usize = to;
    while i > from
        invariant
            from <= i <= to <= b@.len(),
            to - from <= 8,
            acc == le_value(b@.subrange(i as int, to as int)),
            acc < pow256((to - i) as nat),
        decreases i,
    {
        proof {
            lemma_le_value_bound(b@.subrange(i - 1, to as int));
            lemma_pow256_mono((to - i + 1) as nat, 8);
            lemma_pow256_values();
            assert(b@.subrange(i - 1, to as int).drop_first() =~= b@.subrange(
                i as int,
                to as int,
            ));
            assert(b@.subrange(i - 1, to as int)[0] == b@[i - 1]);
        }
        let byte = b[i - 1];
        acc = (byte as u64) + 256 * acc;
        i = i - 1;
    }
    acc
}

/// What an unsigned 32-bit little-endian buffer decodes to: a value for
/// exactly four bytes, nothing otherwise.
pub open spec fn spec_decode_u32(b: Seq<u8>) -> Option<u32> {
    if b.len() == 4 {
        Some(le_value(b) as u32)
    } else {
        None
    }
}

/// What an unsigned 64-bit little-endian buffer decodes to.
pub open spec fn spec_decode_u64(b: Seq<u8>) -> Option<u64> {
    if b.len() == 8 {
        Some(le_value(b) as u64)
    } else {
        None
    }
}

/// What a machine-word buffer decodes to: a word is stored as eight
/// bytes; the value is taken into the machine word.
pub open spec fn spec_decode_usize(b: Seq<u8>) -> Option<usize> {
    match spec_decode_u64(b) {
        Option::Some(v) => Some(v as usize),
        Option::None => None,
    }
}

/// The signed reading of an unsigned 32-bit value, two's complement.
pub open spec fn as_signed_32(v: nat) -> int {
    if v < 0x8000_0000 {
        v as int
    } else {
        v - 0x1_0000_0000
    }
}

/// The signed reading of an unsigned 64-bit value, two's complement.
pub open spec fn as_signed_64(v: nat) -> int {
    if v < 0x8000_0000_0000_0000 {
        v as int
    } else {
        v - 0x1_0000_0000_0000_0000
    }
}

/// What a signed 32-bit little-endian buffer decodes to.
pub open spec fn spec_decode_i32(b: Seq<u8>) -> Option<i32> {
    if b.len() == 4 {
        Some(as_signed_32(le_value(b)) as i32)
    } else {
        None
    }
}

/// What a signed 64-bit little-endian buffer decodes to.
pub open spec fn spec_decode_i64(b: Seq<u8>) -> Option<i64> {
    if b.len() == 8 {
        Some(as_signed_64(le_value(b)) as i64)
    } else {
        None
    }
}

/// What a signed machine-word buffer decodes to.
pub open spec fn spec_decode_isize(b: Seq<u8>) -> Option<isize> {
    match spec_decode_i64(b) {
        Option::Some(v) => Some(v as isize),
        Option::None => None,
    }
}

/// What a boolean buffer decodes to: a 32-bit integer, nonzero meaning
/// true.
pub open spec fn spec_decode_bool(b: Seq<u8>) -> Option<bool> {
    if b.len() == 4 {
        Some(le_value(b) != 0)
    } else {
        None
    }
}

/// The word sequence a chunked buffer denotes, one word per eight bytes,
/// left to right.
pub open spec fn chunk_values(b: Seq<u8>) -> Seq<nat> {
    Seq::new((b.len() / 8) as nat, |i: int| le_value(b.subrange(8 * i, 8 * i + 8)))
}

/// One eight-byte chunk of a buffer, as the machine reads it.
pub open spec fn chunk_word(b: Seq<u8>, k: int) -> u64 {
    le_value(b.subrange(8 * k, 8 * k + 8)) as u64
}

/// What the result of `String::from_utf8` holds, as a function of the
/// bytes alone.
pub uninterp spec fn utf8_decode(bytes: Seq<u8>) -> Option<Seq<char>>;

/// All bytes are plain ASCII.
pub open spec fn all_ascii(bytes: Seq<u8>) -> bool {
    forall|i: int| 0 <= i < bytes.len() ==> #[trigger] bytes[i] < 128
}

/// Relies on String::from_utf8: the result depends on the bytes alone; a
/// returned string holds exactly the bytes handed in; and bytes that are
/// all ASCII always decode, each byte to the character of the same code.
#[verifier::external_body]
fn utf8_to_string(bytes: Vec<u8>) -> (r: Option<String>)
    ensures
        (match r {
            Option::Some(s) => Option::Some(s@),
            Option::None => Option::None,
        }) == utf8_decode(bytes@),
        r matches Some(s) ==> vstd::utf8::encode_utf8(s@) == bytes@,
        all_ascii(bytes@) ==> r is Some,
        all_ascii(bytes@) && r is Some ==> r->0@ == bytes@.map_values(|b: u8| b as char),
{
    String::from_utf8(bytes).ok()
}

/// Decoding a byte buffer into a typed value: each implementation says in
/// `decode_ok` exactly what `from_buffer` returns for every buffer.
pub trait Formatter: Sized {
    /// What decoding yields on a given buffer.
    spec fn decode_ok(buffer: Seq<u8>, r: Option<Self>) -> bool;

    /// Decodes the buffer; a buffer of the wrong shape yields nothing.
    fn from_buffer(buffer: &[u8]) -> (r: Option<Self>)
        ensures
            Self::decode_ok(buffer@, r),
    ;
}

impl Formatter for u32 {
    open spec fn decode_ok(buffer: Seq<u8>, r: Option<u32>) -> bool {
        r == spec_decode_u32(buffer)
    }

    fn from_buffer(buffer: &[u8]) -> (r: Option<u32>)
        ensures
            Self::decode_ok(buffer@, r),
    {
        if buffer.len() != 4 {
            return None;
        }
        proof {
            lemma_le_value_bound(buffer@);
            lemma_pow256_values();
            assert(buffer@.subrange(0, 4) =~= buffer@);
        }
        Some(le_chunk(buffer, 0, 4) as u32)
    }
}

impl Formatter for u64 {
    open spec fn decode_ok(buffer: Seq<u8>, r: Option<u64>) -> bool {
        r == spec_decode_u64(buffer)
    }

    fn from_buffer(buffer: &[u8]) -> (r: Option<u64>)
        ensures
            Self::decode_ok(buffer@, r),
    {
        if buffer.len() != 8 {
            return None;
        }
        proof {
            assert(buffer@.subrange(0, 8) =~= buffer@);
        }
        Some(le_chunk(buffer, 0, 8))
    }
}

impl Formatter for usize {
    open spec fn decode_ok(buffer: Seq<u8>, r: Option<usize>) -> bool {
        r == spec_decode_usize(buffer)
    }

    fn from_buffer(buffer: &[u8]) -> (r: Option<usize>)
        ensures
            Self::decode_ok(buffer@, r),
    {
        match <u64 as Formatter>::from_buffer(buffer) {
            Option::Some(v) => Some(v as usize),
            Option::None => None,
        }
    }
}

impl Formatter for i32 {
    open spec fn decode_ok(buffer: Seq<u8>, r: Option<i32>) -> bool {
        r == spec_decode_i32(buffer)
    }

    fn from_buffer(buffer: &[u8]) -> (r: Option<i32>)
        ensures
            Self::decode_ok(buffer@, r),
    {
        if buffer.len() != 4 {
            return None;
        }
        proof {
            lemma_le_value_bound(buffer@);
            lemma_pow256_values();
            assert(buffer@.subrange(0, 4) =~= buffer@);
        }
        let v = le_chunk(buffer, 0, 4);
        if v >= 0x8000_0000 {
            Some(((v as i64) - 0x1_0000_0000i64) as i32)
        } else {
            Some(v as i32)
        }
    }
}

impl Formatter for i64 {
    open spec fn decode_ok(buffer: Seq<u8>, r: Option<i64>) -> bool {
        r == spec_decode_i64(buffer)
    }

    fn from_buffer(buffer: &[u8]) -> (r: Option<i64>)
        ensures
            Self::decode_ok(buffer@, r),
    {
        if buffer.len() != 8 {
            return None;
        }
        proof {
            lemma_le_value_bound(buffer@);
            lemma_pow256_values();
            assert(buffer@.subrange(0, 8) =~= buffer@);
        }
        let v = le_chunk(buffer, 0, 8);
        if v >= 0x8000_0000_0000_0000 {
            Some(((v as i128) - 0x1_0000_0000_0000_0000i128) as i64)
        } else {
            Some(v as i64)
        }
    }
}

impl Formatter for isize {
    open spec fn decode_ok(buffer: Seq<u8>, r: Option<isize>) -> bool {
        r == spec_decode_isize(buffer)
    }

    fn from_buffer(buffer: &[u8]) -> (r: Option<isize>)
        ensures
            Self::decode_ok(buffer@, r),
    {
        match <i64 as Formatter>::from_buffer(buffer) {
            Option::Some(v) => Some(v as isize),
            Option::None => None,
        }
    }
}

impl Formatter for bool {
    open spec fn decode_ok(buffer: Seq<u8>, r: Option<bool>) -> bool {
        r == spec_decode_bool(buffer)
    }

    fn from_buffer(buffer: &[u8]) -> (r: Option<bool>)
        ensures
            Self::decode_ok(buffer@, r),
    {
        proof {
            if buffer@.len() == 4 {
                lemma_le_value_bound(buffer@);
                lemma_pow256_values();
            }
        }
        match <u32 as Formatter>::from_buffer(buffer) {
            Option::Some(x) => Some(x != 0),
            Option::None => None,
        }
    }
}

impl Formatter for String {
    open spec fn decode_ok(buffer: Seq<u8>, r: Option<String>) -> bool {
        &&& (match r {
            Option::Some(s) => Option::Some(s@),
            Option::None => Option::None,
        }) == utf8_decode(buffer)
        &&& (r matches Some(s) ==> vstd::utf8::encode_utf8(s@) == buffer)
        &&& (all_ascii(buffer) ==> r is Some && r->0@ == buffer.map_values(|b: u8| b as char))
    }

    fn from_buffer(buffer: &[u8]) -> (r: Option<String>)
        ensures
            Self::decode_ok(buffer@, r),
    {
        let v = vstd::slice::slice_to_vec(buffer);
        utf8_to_string(v)
    }
}

impl Formatter for Vec<u64> {
    open spec fn decode_ok(buffer: Seq<u8>, r: Option<Vec<u64>>) -> bool {
        if buffer.len() % 8 == 0 {
            r matches Some(v) && v@.map_values(|x: u64| x as nat) == chunk_values(buffer)
        } else {
            r is None
        }
    }

    fn from_buffer(buffer: &[u8]) -> (r: Option<Vec<u64>>)
        ensures
            Self::decode_ok(buffer@, r),
    {
        if buffer.len() % 8 != 0 {
            return None;
        }
        let count: usize = buffer.len() / 8;
        let mut out: Vec<u64> = Vec::new();
        let mut i: usize = 0;
        while i < count
            invariant
                buffer@.len() <= usize::MAX,
                count == buffer@.len() / 8,
                buffer@.len() % 8 == 0,
                i <= count,
                out@.len() == i,
                forall|k: int|
                    0 <= k < i ==> #[trigger] out@[k] == le_value(
                        buffer@.subrange(8 * k, 8 * k + 8),
                    ),
            decreases count - i,
        {
            proof {
                lemma_fundamental_div_mod(buffer@.len() as int, 8);
                lemma_le_value_bound(buffer@.subrange(8 * i as int, 8 * i as int + 8));
                lemma_pow256_values();
            }
            let w = le_chunk(buffer, 8 * i, 8 * i + 8);
            out.push(w);
            i = i + 1;
        }
        proof {
            assert(out@.map_values(|x: u64| x as nat) =~= chunk_values(buffer@));
        }
        Some(out)
    }
}

impl Formatter for Vec<usize> {
    open spec fn decode_ok(buffer: Seq<u8>, r: Option<Vec<usize>>) -> bool {
        if buffer.len() % 8 == 0 {
            r matches Some(v) && v@.len() == buffer.len() / 8 && (forall|k: int|
                0 <= k < v@.len() ==> #[trigger] v@[k] == chunk_word(buffer, k) as usize)
        } else {
            r is None
        }
    }

    fn from_buffer(buffer: &[u8]) -> (r: Option<Vec<usize>>)
        ensures
            Self::decode_ok(buffer@, r),
    {
        if buffer.len() % 8 != 0 {
            return None;
        }
        let count: usize = buffer.len() / 8;
        let mut out: Vec<usize> = Vec::new();
        let mut i: usize = 0;
        while i < count
            invariant
                buffer@.len() <= usize::MAX,
                count == buffer@.len() / 8,
                buffer@.len() % 8 == 0,
                i <= count,
                out@.len() == i,
                forall|k: int|
                    0 <= k < i ==> #[trigger] out@[k] == chunk_word(buffer@, k) as usize,
            decreases count - i,
        {
            proof {
                lemma_fundamental_div_mod(buffer@.len() as int, 8);
                lemma_le_value_bound(buffer@.subrange(8 * i as int, 8 * i as int + 8));
                lemma_pow256_values();
            }
            let w = le_chunk(buffer, 8 * i, 8 * i + 8);
            out.push(w as usize);
            i = i + 1;
        }
        Some(out)
    }
}

/// The words of a sequence written back as little-endian chunks, in order.
pub open spec fn le_bytes_seq(vs: Seq<nat>) -> Seq<u8>
    decreases vs.len(),
{
    if vs.len() == 0 {
        Seq::empty()
    } else {
        le_bytes(vs[0], 8) + le_bytes_seq(vs.drop_first())
    }
}

/// The round-trip law of the scalar decoders: writing any value at its
/// width and decoding the buffer yields the value back. Booleans write as
/// a 32-bit zero or one.
pub proof fn lemma_scalar_round_trip(x32: u32, x64: u64, xs: usize, b: bool)
    ensures
        spec_decode_u32(le_bytes(x32 as nat, 4)) == Some(x32),
        spec_decode_u64(le_bytes(x64 as nat, 8)) == Some(x64),
        spec_decode_usize(le_bytes(xs as nat, 8)) == Some(xs),
        spec_decode_bool(
            le_bytes(
                if b {
                    1
                } else {
                    0
                },
                4,
            ),
        ) == Some(b),
{
    lemma_pow256_values();
    lemma_le_round_trip(x32 as nat, 4);
    lemma_le_round_trip(x64 as nat, 8);
    lemma_le_round_trip(xs as nat, 8);
    lemma_le_round_trip(
        if b {
            1
        } else {
            0
        },
        4,
    );
}

/// The unsigned form a signed 32-bit value is stored as, two's
/// complement.
pub open spec fn to_unsigned_32(x: int) -> nat {
    if x >= 0 {
        x as nat
    } else {
        (x + 0x1_0000_0000) as nat
    }
}

/// The unsigned form a signed 64-bit value is stored as, two's
/// complement.
pub open spec fn to_unsigned_64(x: int) -> nat {
    if x >= 0 {
        x as nat
    } else {
        (x + 0x1_0000_0000_0000_0000) as nat
    }
}

/// The round-trip law of the signed decoders: storing a signed value in
/// two's complement at its width and decoding the buffer yields the value
/// back.
pub proof fn lemma_signed_round_trip(x32: i32, x64: i64)
    ensures
        spec_decode_i32(le_bytes(to_unsigned_32(x32 as int), 4)) == Some(x32),
        spec_decode_i64(le_bytes(to_unsigned_64(x64 as int), 8)) == Some(x64),
{
    lemma_pow256_values();
    lemma_le_round_trip(to_unsigned_32(x32 as int), 4);
    lemma_le_round_trip(to_unsigned_64(x64 as int), 8);
}

/// Chunk buffers concatenate: the byte run of a word list is its head's
/// bytes followed by the rest's.
proof fn lemma_le_bytes_seq_len(vs: Seq<nat>)
    ensures
        le_bytes_seq(vs).len() == 8 * vs.len(),
    decreases vs.len(),
{
    if vs.len() > 0 {
        lemma_le_round_trip_len(vs[0]);
        lemma_le_bytes_seq_len(vs.drop_first());
    }
}

/// A word's chunk is always eight bytes.
proof fn lemma_le_round_trip_len(v: nat)
    ensures
        le_bytes(v, 8).len() == 8,
{
    lemma_le_bytes_len(v, 8);
}

/// A chunk is as long as its width.
proof fn lemma_le_bytes_len(v: nat, width: nat)
    ensures
        le_bytes(v, width).len() == width,
    decreases width,
{
    if width > 0 {
        lemma_le_bytes_len(v / 256, (width - 1) as nat);
    }
}

/// The round-trip law of the word-sequence decoder: writing any word list
/// chunk by chunk and decoding the buffer yields the same words back.
pub proof fn lemma_seq_round_trip(vs: Seq<nat>)
    requires
        forall|i: int| 0 <= i < vs.len() ==> #[trigger] vs[i] < pow256(8),
    ensures
        le_bytes_seq(vs).len() % 8 == 0,
        chunk_values(le_bytes_seq(vs)) == vs,
    decreases vs.len(),
{
    lemma_le_bytes_seq_len(vs);
    let whole = le_bytes_seq(vs);
    if vs.len() == 0 {
        assert(chunk_values(whole) =~= vs);
    } else {
        let rest = vs.drop_first();
        lemma_le_round_trip(vs[0], 8);
        lemma_le_bytes_seq_len(rest);
        lemma_seq_round_trip(rest);
        assert(whole.subrange(0, 8) =~= le_bytes(vs[0], 8));
        assert(whole.len() == 8 + 8 * rest.len());
        assert(whole.len() / 8 == 1 + rest.len()) by (nonlinear_arith)
            requires
                whole.len() == 8 + 8 * rest.len(),
        ;
        assert(chunk_values(whole)[0] == vs[0]);
        assert(le_bytes_seq(rest).len() / 8 == rest.len()) by (nonlinear_arith)
            requires
                le_bytes_seq(rest).len() == 8 * rest.len(),
        ;
        assert forall|j: int| 1 <= j < vs.len() implies #[trigger] chunk_values(whole)[j]
            == vs[j] by {
            let i = j - 1;
            assert(whole.subrange(8 * j, 8 * j + 8) =~= le_bytes_seq(rest).subrange(
                8 * i,
                8 * i + 8,
            ));
            assert(chunk_values(le_bytes_seq(rest))[i] == le_value(
                le_bytes_seq(rest).subrange(8 * i, 8 * i + 8),
            ));
            assert(chunk_values(whole)[j] == le_value(whole.subrange(8 * j, 8 * j + 8)));
            assert(rest[i] == vs[j]);
        }
        assert(chunk_values(whole) =~= vs);
    }
}

} // verus!
