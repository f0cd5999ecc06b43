//! Plain-text building blocks: decimal rendering of status codes and window
//! ids, path joining for the library search, and the check that a string can
//! cross the C boundary as a nul-terminated byte sequence.

use vstd::prelude::*;
use vstd::string::{StrSliceExecFns, StringExecFns};

verus! {

/// The decimal digit character for `d` in `0..10`.
pub open spec fn digit_char(d: int) -> char {
    if d == 0 {
        '0'
    } else if d == 1 {
        '1'
    } else if d == 2 {
        '2'
    } else if d == 3 {
        '3'
    } else if d == 4 {
        '4'
    } else if d == 5 {
        '5'
    } else if d == 6 {
        '6'
    } else if d == 7 {
        '7'
    } else if d == 8 {
        '8'
    } else {
        '9'
    }
}

/// The usual decimal rendering of `n`, most significant digit first, with no
/// leading zeros (a single `'0'` for zero itself).
pub open spec fn dec_str(n: nat) -> Seq<char>
    decreases n,
{
    if n < 10 {
        seq![digit_char(n as int)]
    } else {
        dec_str(n / 10).push(digit_char((n % 10) as int))
    }
}

/// The decimal rendering of a signed status code: a leading `'-'` for a
/// negative value, the plain digits otherwise.
pub open spec fn status_str(c: int) -> Seq<char> {
    if c < 0 {
        seq!['-'] + dec_str((-c) as nat)
    } else {
        dec_str(c as nat)
    }
}

fn digit_str(d: u32) -> (r: &'static str)
    requires
        d < 10,
    ensures
        r@ == seq![digit_char(d as int)],
{
    let r: &'static str = if d == 0 {
        "0"
    } else if d == 1 {
        "1"
    } else if d == 2 {
        "2"
    } else if d == 3 {
        "3"
    } else if d == 4 {
        "4"
    } else if d == 5 {
        "5"
    } else if d == 6 {
        "6"
    } else if d == 7 {
        "7"
    } else if d == 8 {
        "8"
    } else {
        "9"
    };
    proof {
        reveal_strlit("0");
        reveal_strlit("1");
        reveal_strlit("2");
        reveal_strlit("3");
        reveal_strlit("4");
        reveal_strlit("5");
        reveal_strlit("6");
        reveal_strlit("7");
        reveal_strlit("8");
        reveal_strlit("9");
    }
    assert(r@ =~= seq![digit_char(d as int)]);
    r
}

/// Renders `n` in decimal.
pub fn dec_of_u32(n: u32) -> (r: String)
    ensures
        r@ == dec_str(n as nat),
    decreases n,
{
    if n < 10 {
        String::from_str(digit_str(n))
    } else {
        assert(n / 10 < n) by (nonlinear_arith)
            requires
                n >= 10,
        ;
        let mut s = dec_of_u32(n / 10);
        s.append(digit_str(n % 10));
        assert(s@ =~= dec_str(n as nat));
        s
    }
}

/// Renders a signed status code in decimal, with a leading minus sign when
/// it is negative.
pub fn dec_of_status(code: i32) -> (r: String)
    ensures
        r@ == status_str(code as int),
{
    if code < 0 {
        let wide: i64 = code as i64;
        let mag: u32 = (-wide) as u32;
        assert(mag == -(code as int));
        let mut s = String::from_str("-");
        proof {
            reveal_strlit("-");
        }
        assert(s@ =~= seq!['-']);
        let digits = dec_of_u32(mag);
        s.append(digits.as_str());
        s
    } else {
        dec_of_u32(code as u32)
    }
}

/// A path below `base`, joined with a `/` separator.
pub open spec fn joined_path(base: Seq<char>, name: Seq<char>) -> Seq<char> {
    base + "/"@ + name
}

/// Joins a directory and a file name with a `/` separator.
pub fn join_under(base: &str, name: &str) -> (r: String)
    ensures
        r@ == joined_path(base@, name@),
{
    String::from_str(base).concat("/").concat(name)
}

/// A string can be handed to the engine as a nul-terminated C string exactly
/// when it has no embedded nul character.
pub open spec fn encodable(s: Seq<char>) -> bool {
    forall|i: int| 0 <= i < s.len() ==> s[i] != '\0'
}

/// Decides whether `s` can be encoded as a nul-terminated C string.
pub fn check_encodable(s: &str) -> (b: bool)
    ensures
        b == encodable(s@),
{
    let n = s.unicode_len();
    let mut i: usize = 0;
    while i < n
        invariant
            n == s@.len(),
            i <= n,
            forall|j: int| 0 <= j < i ==> s@[j] != '\0',
        decreases n - i,
    {
        if s.get_char(i) == '\0' {
            return false;
        }
        i = i + 1;
    }
    true
}

} // verus!
