//! The program cache's bookkeeping: artifact file names, the source-path
//! stem, and the choice between reloading device binaries and compiling
//! from source. One shared name scheme serves both saving and lookup, so a
//! build that was saved is looked up under exactly the names it wrote.
use vstd::prelude::*;

use vstd::string::StrSliceExecFns;
use vstd::string::StringExecFns;

verus! {

/// The character of one decimal digit.
pub open spec fn digit_char(d: int) -> char {
    if d == 0 {
        '0'
    } else if d == 1 {
        '1'
    } else if d == 2 {
        '2'
    } else if d == 3 {
        '3'
    } else if d == 4 {
        '4'
    } else if d == 5 {
        '5'
    } else if d == 6 {
        '6'
    } else if d == 7 {
        '7'
    } else if d == 8 {
        '8'
    } else {
        '9'
    }
}

/// The decimal digits of a number, most significant first.
pub open spec fn dec_digits(n: nat) -> Seq<char>
    decreases n,
{
    if n < 10 {
        seq![digit_char(n as int)]
    } else {
        dec_digits(n / 10) + seq![digit_char((n % 10) as int)]
    }
}

/// The device name as it appears in a file name: spaces become
/// underscores.
pub open spec fn underscored(s: Seq<char>) -> Seq<char> {
    Seq::new(
        s.len(),
        |i: int|
            if s[i] == ' ' {
                '_'
            } else {
                s[i]
            },
    )
}

/// The artifact file name of one device's binary:
/// `<stem>_<device-name-underscored>_<index>.bin`.
pub open spec fn spec_binary_file_name(stem: Seq<char>, device: Seq<char>, index: nat) -> Seq<
    char,
> {
    stem + seq!['_'] + underscored(device) + seq!['_'] + dec_digits(index) + ".bin"@
}

fn digit_str(d: u64) -> (r: &'static str)
    requires
        d < 10,
    ensures
        r@ == seq![digit_char(d as int)],
{
    if d == 0 {
        proof {
            reveal_strlit("0");
            assert("0"@ =~= seq![digit_char(0)]);
        }
        "0"
    } else if d == 1 {
        proof {
            reveal_strlit("1");
            assert("1"@ =~= seq![digit_char(1)]);
        }
        "1"
    } else if d == 2 {
        proof {
            reveal_strlit("2");
            assert("2"@ =~= seq![digit_char(2)]);
        }
        "2"
    } else if d == 3 {
        proof {
            reveal_strlit("3");
            assert("3"@ =~= seq![digit_char(3)]);
        }
        "3"
    } else if d == 4 {
        proof {
            reveal_strlit("4");
            assert("4"@ =~= seq![digit_char(4)]);
        }
        "4"
    } else if d == 5 {
        proof {
            reveal_strlit("5");
            assert("5"@ =~= seq![digit_char(5)]);
        }
        "5"
    } else if d == 6 {
        proof {
            reveal_strlit("6");
            assert("6"@ =~= seq![digit_char(6)]);
        }
        "6"
    } else if d == 7 {
        proof {
            reveal_strlit("7");
            assert("7"@ =~= seq![digit_char(7)]);
        }
        "7"
    } else if d == 8 {
        proof {
            reveal_strlit("8");
            assert("8"@ =~= seq![digit_char(8)]);
        }
        "8"
    } else {
        proof {
            reveal_strlit("9");
            assert("9"@ =~= seq![digit_char(9)]);
        }
        "9"
    }
}

/// Writes a number in decimal, as `dec_digits` says.
pub fn dec_string(n: u64) -> (r: String)
    ensures
        r@ == dec_digits(n as nat),
    decreases n,
{
    if n < 10 {
        String::from_str(digit_str(n))
    } else {
        let mut s = dec_string(n / 10);
        s.append(digit_str(n % 10));
        s
    }
}

/// Replaces the spaces of a device name with underscores, as `underscored`
/// says.
pub fn underscore_name(s: &str) -> (r: String)
    ensures
        r@ == underscored(s@),
{
    proof {
        reveal_strlit("_");
    }
    let n: usize = s.unicode_len();
    let mut out = String::new();
    let mut i: usize = 0;
    while i < n
        invariant
            n == s@.len(),
            i <= n,
            out@.len() == i,
            forall|k: int|
                0 <= k < i ==> out@[k] == (if s@[k] == ' ' {
                    '_'
                } else {
                    s@[k]
                }),
        decreases n - i,
    {
        let c = s.get_char(i);
        if c == ' ' {
            proof {
                reveal_strlit("_");
            }
            out.append("_");
            proof {
                assert("_"@.len() == 1 && "_"@[0] == '_');
            }
        } else {
            let piece = s.substring_char(i, i + 1);
            proof {
                assert(piece@.len() == 1 && piece@[0] == s@[i as int]);
            }
            out.append(piece);
        }
        i = i + 1;
    }
    proof {
        assert(out@ =~= underscored(s@));
    }
    out
}

/// Builds the artifact file name of one device's binary, as
/// `spec_binary_file_name` says.
pub fn binary_file_name(stem: &str, device_name: &str, index: usize) -> (r: String)
    ensures
        r@ == spec_binary_file_name(stem@, device_name@, index as nat),
{
    proof {
        reveal_strlit("_");
        reveal_strlit(".bin");
    }
    let mut out = String::from_str(stem);
    out.append("_");
    let device = underscore_name(device_name);
    out.append(device.as_str());
    out.append("_");
    let digits = dec_string(index as u64);
    out.append(digits.as_str());
    out.append(".bin");
    proof {
        assert("_"@ =~= seq!['_']);
        assert(out@ =~= spec_binary_file_name(stem@, device_name@, index as nat));
    }
    out
}

/// The last position of a character in a sequence, or none.
pub open spec fn last_index_of(s: Seq<char>, c: char) -> int
    decreases s.len(),
{
    if s.len() == 0 {
        -1
    } else if s.last() == c {
        s.len() - 1
    } else {
        last_index_of(s.drop_last(), c)
    }
}

/// Finds the last position of a character, as `last_index_of` says.
fn find_last(s: &str, target: char) -> (r: Option<usize>)
    ensures
        r is None <==> last_index_of(s@, target) == -1,
        r matches Some(i) ==> i == last_index_of(s@, target),
{
    let n: usize = s.unicode_len();
    let mut found: Option<usize> = None;
    let mut i: usize = 0;
    while i < n
        invariant
            n == s@.len(),
            i <= n,
            found is None <==> last_index_of(s@.take(i as int), target) == -1,
            found matches Some(f) ==> f == last_index_of(s@.take(i as int), target),
        decreases n - i,
    {
        proof {
            assert(s@.take(i + 1).drop_last() =~= s@.take(i as int));
            assert(s@.take(i + 1).last() == s@[i as int]);
        }
        if s.get_char(i) == target {
            found = Some(i);
        }
        i = i + 1;
    }
    proof {
        assert(s@.take(n as int) =~= s@);
    }
    found
}

/// The file-name part of a path: everything after the last separator.
pub open spec fn path_file_name(s: Seq<char>) -> Seq<char> {
    s.subrange(last_index_of(s, '/') + 1, s.len() as int)
}

/// The stem a source path contributes to artifact names: its file name
/// without the extension after the last dot. An empty name, a lone dot or
/// a double dot has no stem; a name whose only dot leads keeps it.
pub open spec fn spec_file_stem(s: Seq<char>) -> Option<Seq<char>> {
    let name = path_file_name(s);
    if name.len() == 0 {
        Option::None
    } else if name == seq!['.'] || name == seq!['.', '.'] {
        Option::None
    } else {
        let d = last_index_of(name, '.');
        if d > 0 {
            Option::Some(name.take(d))
        } else {
            Option::Some(name)
        }
    }
}

/// Bounds of `last_index_of`.
proof fn lemma_last_index_bounds(s: Seq<char>, c: char)
    ensures
        -1 <= last_index_of(s, c) < s.len(),
        last_index_of(s, c) >= 0 ==> s[last_index_of(s, c)] == c,
    decreases s.len(),
{
    if s.len() > 0 && s.last() != c {
        lemma_last_index_bounds(s.drop_last(), c);
    }
}

/// Derives the stem of a source path, as `spec_file_stem` says.
pub fn file_stem(path: &str) -> (r: Option<String>)
    ensures
        r is Some <==> spec_file_stem(path@) is Some,
        r matches Some(stem) ==> Some(stem@) == spec_file_stem(path@),
{
    proof {
        lemma_last_index_bounds(path@, '/');
        reveal_strlit(".");
        reveal_strlit("..");
    }
    let n: usize = path.unicode_len();
    let start: usize = match find_last(path, '/') {
        Option::Some(i) => i + 1,
        Option::None => 0,
    };
    let name = path.substring_char(start, n);
    proof {
        assert(name@ =~= path_file_name(path@));
    }
    if name.unicode_len() == 0 {
        return None;
    }
    let name_len: usize = name.unicode_len();
    if name_len == 1 && name.get_char(0) == '.' {
        proof {
            assert(name@ =~= seq!['.']);
        }
        return None;
    }
    if name_len == 2 && name.get_char(0) == '.' && name.get_char(1) == '.' {
        proof {
            assert(name@ =~= seq!['.', '.']);
        }
        return None;
    }
    proof {
        if name@ == seq!['.'] {
            assert(name@.len() == 1 && name@[0] == '.');
        }
        if name@ == seq!['.', '.'] {
            assert(name@.len() == 2 && name@[0] == '.' && name@[1] == '.');
        }
    }
    proof {
        lemma_last_index_bounds(name@, '.');
    }
    match find_last(name, '.') {
        Option::Some(d) => {
            if d > 0 {
                let stem = name.substring_char(0, d);
                proof {
                    assert(stem@ =~= path_file_name(path@).take(d as int));
                }
                Some(String::from_str(stem))
            } else {
                Some(String::from_str(name))
            }
        },
        Option::None => Some(String::from_str(name)),
    }
}

/// Where a program build starts from: the saved per-device binaries, or
/// the source text.
#[derive(Debug, Clone, PartialEq, Eq)]
pub enum ProgramSource {
    FromBinaries(Vec<Vec<u8>>),
    FromSource,
}

/// The reload rule of the cache: the binary path is taken exactly when
/// every device's artifact was read; one missing or unreadable file
/// abandons the binary path entirely, and the build falls back to source.
pub fn select_program_source(reads: Vec<Option<Vec<u8>>>) -> (r: ProgramSource)
    ensures
        (forall|i: int| 0 <= i < reads@.len() ==> #[trigger] reads@[i] is Some) <==> r
            is FromBinaries,
        r matches ProgramSource::FromBinaries(b) ==> b@.len() == reads@.len() && forall|i: int|
            0 <= i < reads@.len() ==> #[trigger] b@[i] == reads@[i]->0,
{
    let ghost orig = reads@;
    let mut remaining = reads;
    let mut binaries: Vec<Vec<u8>> = Vec::new();
    let mut k: usize = 0;
    let total: usize = remaining.len();
    while k < total
        invariant
            orig == reads@,
            total == orig.len(),
            k <= total,
            remaining@ =~= orig.skip(k as int),
            binaries@.len() == k,
            forall|i: int| 0 <= i < k ==> #[trigger] orig[i] is Some,
            forall|i: int| 0 <= i < k ==> #[trigger] binaries@[i] == orig[i]->0,
        decreases total - k,
    {
        let x = remaining.remove(0);
        proof {
            assert(x == orig[k as int]);
            assert(remaining@ =~= orig.skip(k + 1));
        }
        match x {
            Option::Some(bin) => {
                binaries.push(bin);
            },
            Option::None => {
                return ProgramSource::FromSource;
            },
        }
        k = k + 1;
    }
    ProgramSource::FromBinaries(binaries)
}

} // verus!
