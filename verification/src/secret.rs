//! The shared verification secret: the outcome of reading its backing
//! resource, and the trimming that turns the raw contents into the value
//! a handshake token is compared against.

use vstd::prelude::*;
use vstd::string::{StrSliceExecFns, StringExecFns};

verus! {

/// The outcome of reading the operator-provisioned secret resource:
/// its raw contents, or its absence (missing or unreadable). The resource
/// is re-read for every handshake, so a rotated secret takes effect
/// without a restart.
pub enum SecretLoad {
    Loaded(String),
    Unavailable,
}

impl View for SecretLoad {
    type V = Option<Seq<char>>;

    open spec fn view(&self) -> Option<Seq<char>> {
        match self {
            SecretLoad::Loaded(raw) => Some(raw@),
            SecretLoad::Unavailable => None,
        }
    }
}

/// The characters that trimming removes from either end: the Unicode
/// white-space code points.
pub open spec fn is_space(c: char) -> bool {
    let u = c as u32;
    ||| u == 0x20
    ||| 0x9 <= u <= 0xD
    ||| u == 0x85
    ||| u == 0xA0
    ||| u == 0x1680
    ||| 0x2000 <= u <= 0x200A
    ||| u == 0x2028
    ||| u == 0x2029
    ||| u == 0x202F
    ||| u == 0x205F
    ||| u == 0x3000
}

/// Executable test for [`is_space`].
pub fn is_space_char(c: char) -> (r: bool)
    ensures
        r == is_space(c),
{
    let u = c as u32;
    u == 0x20 || (0x9 <= u && u <= 0xD) || u == 0x85 || u == 0xA0 || u == 0x1680 || (0x2000 <= u
        && u <= 0x200A) || u == 0x2028 || u == 0x2029 || u == 0x202F || u == 0x205F || u == 0x3000
}

/// The sequence with its leading white space removed.
pub open spec fn trim_front(s: Seq<char>) -> Seq<char>
    decreases s.len(),
{
    if s.len() == 0 {
        s
    } else if is_space(s[0]) {
        trim_front(s.drop_first())
    } else {
        s
    }
}

/// The sequence with its trailing white space removed.
pub open spec fn trim_back(s: Seq<char>) -> Seq<char>
    decreases s.len(),
{
    if s.len() == 0 {
        s
    } else if is_space(s.last()) {
        trim_back(s.drop_last())
    } else {
        s
    }
}

/// The sequence with white space removed from both ends: the value of a
/// secret, given the raw contents of its resource.
pub open spec fn spec_trim(s: Seq<char>) -> Seq<char> {
    trim_back(trim_front(s))
}

/// The trimmed contents of the secret resource.
pub fn trim_secret(raw: &str) -> (t: String)
    ensures
        t@ == spec_trim(raw@),
{
    let n = raw.unicode_len();
    proof {
        assert(raw@.subrange(0, n as int) =~= raw@);
    }
    let mut i: usize = 0;
    while i < n && is_space_char(raw.get_char(i))
        invariant
            i <= n,
            n == raw@.len(),
            trim_front(raw@) == trim_front(raw@.subrange(i as int, n as int)),
        decreases n - i,
    {
        proof {
            let s = raw@.subrange(i as int, n as int);
            assert(s.drop_first() =~= raw@.subrange(i as int + 1, n as int));
        }
        i += 1;
    }
    proof {
        assert(trim_front(raw@) == raw@.subrange(i as int, n as int));
    }
    let mut j: usize = n;
    while j > i && is_space_char(raw.get_char(j - 1))
        invariant
            i <= j <= n,
            n == raw@.len(),
            trim_front(raw@) == raw@.subrange(i as int, n as int),
            trim_back(raw@.subrange(i as int, n as int)) == trim_back(
                raw@.subrange(i as int, j as int),
            ),
        decreases j,
    {
        proof {
            let s = raw@.subrange(i as int, j as int);
            assert(s.drop_last() =~= raw@.subrange(i as int, j as int - 1));
        }
        j -= 1;
    }
    let picked = raw.substring_char(i, j);
    let t = String::from_str(picked);
    proof {
        assert(trim_back(raw@.subrange(i as int, j as int)) == raw@.subrange(i as int, j as int));
    }
    t
}

} // verus!
