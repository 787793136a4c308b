//! Helpers over character sequences: equality, case-insensitive equality,
//! whitespace trimming, and decimal rendering, all verified; plus one trusted
//! wrapper around `str::to_uppercase`, whose result carries the name
//! `upper_of`.
use vstd::prelude::*;
use vstd::string::StrSliceExecFns;
use vstd::string::StringExecFns;

use crate::hexcode::hex_digit;

verus! {

/// The Unicode `White_Space` characters, the set `str::trim` removes; trimmed
/// from header keys and values.
pub open spec fn is_ws(c: char) -> bool {
    let u = c as u32;
    ||| (9 <= u && u <= 13)
    ||| u == 32
    ||| u == 0x85
    ||| u == 0xA0
    ||| u == 0x1680
    ||| (0x2000 <= u && u <= 0x200A)
    ||| u == 0x2028
    ||| u == 0x2029
    ||| u == 0x202F
    ||| u == 0x205F
    ||| u == 0x3000
}

/// Drops leading whitespace.
pub open spec fn trim_start_spec(s: Seq<char>) -> Seq<char>
    decreases s.len(),
{
    if s.len() > 0 && is_ws(s[0]) {
        trim_start_spec(s.drop_first())
    } else {
        s
    }
}

/// Drops trailing whitespace.
pub open spec fn trim_end_spec(s: Seq<char>) -> Seq<char>
    decreases s.len(),
{
    if s.len() > 0 && is_ws(s.last()) {
        trim_end_spec(s.drop_last())
    } else {
        s
    }
}

/// Drops leading and trailing whitespace.
pub open spec fn trim_spec(s: Seq<char>) -> Seq<char> {
    trim_end_spec(trim_start_spec(s))
}

/// Whether a character is Unicode whitespace.
pub fn is_ws_char(c: char) -> (r: bool)
    ensures
        r == is_ws(c),
{
    let u = c as u32;
    (9 <= u && u <= 13) || u == 32 || u == 0x85 || u == 0xA0 || u == 0x1680 || (0x2000 <= u && u
        <= 0x200A) || u == 0x2028 || u == 0x2029 || u == 0x202F || u == 0x205F || u == 0x3000
}

/// Returns the slice with leading and trailing whitespace removed.
pub fn trim_str<'a>(s: &'a str) -> (r: &'a str)
    ensures
        r@ == trim_spec(s@),
{
    let n = s.unicode_len();
    let mut a: usize = 0;
    proof {
        assert(s@.skip(0) =~= s@);
    }
    while a < n && is_ws_char(s.get_char(a))
        invariant
            n == s@.len(),
            a <= n,
            trim_start_spec(s@) == trim_start_spec(s@.skip(a as int)),
        decreases n - a,
    {
        proof {
            assert(s@.skip(a as int).drop_first() =~= s@.skip(a as int + 1));
        }
        a = a + 1;
    }
    proof {
        assert(trim_start_spec(s@) =~= s@.skip(a as int));
    }
    let mut b: usize = n;
    while b > a && is_ws_char(s.get_char(b - 1))
        invariant
            n == s@.len(),
            a <= b <= n,
            trim_start_spec(s@) == s@.skip(a as int),
            trim_end_spec(s@.subrange(a as int, n as int)) == trim_end_spec(
                s@.subrange(a as int, b as int),
            ),
        decreases b,
    {
        proof {
            assert(s@.subrange(a as int, b as int).drop_last() =~= s@.subrange(
                a as int,
                b as int - 1,
            ));
        }
        b = b - 1;
    }
    proof {
        assert(s@.skip(a as int) =~= s@.subrange(a as int, n as int));
        assert(trim_spec(s@) =~= s@.subrange(a as int, b as int));
    }
    s.substring_char(a, b)
}

/// Character-sequence equality of two string slices.
pub fn str_eq_str(a: &str, b: &str) -> (r: bool)
    ensures
        r == (a@ == b@),
{
    let na = a.unicode_len();
    let nb = b.unicode_len();
    if na != nb {
        return false;
    }
    let mut i: usize = 0;
    while i < na
        invariant
            na == a@.len(),
            na == b@.len(),
            i <= na,
            forall|j: int| 0 <= j < i ==> a@[j] == b@[j],
        decreases na - i,
    {
        if a.get_char(i) != b.get_char(i) {
            return false;
        }
        i = i + 1;
    }
    proof {
        assert(a@ =~= b@);
    }
    true
}

/// Two characters are equal up to ASCII case.
pub open spec fn char_eq_nocase(x: char, y: char) -> bool {
    ||| x == y
    ||| (97 <= x as u32 && x as u32 <= 122 && x as u32 == y as u32 + 32)
    ||| (97 <= y as u32 && y as u32 <= 122 && y as u32 == x as u32 + 32)
}

/// Two character sequences are equal up to ASCII case.
pub open spec fn seq_eq_nocase(a: Seq<char>, b: Seq<char>) -> bool {
    &&& a.len() == b.len()
    &&& forall|i: int| 0 <= i < a.len() ==> #[trigger] char_eq_nocase(a[i], b[i])
}

/// ASCII-case-insensitive character equality.
pub fn char_eq_nocase_exec(x: char, y: char) -> (r: bool)
    ensures
        r == char_eq_nocase(x, y),
{
    let xi = x as u32;
    let yi = y as u32;
    if x == y {
        true
    } else if 97 <= xi && xi <= 122 && xi >= 32 && xi - 32 == yi {
        true
    } else {
        97 <= yi && yi <= 122 && yi >= 32 && yi - 32 == xi
    }
}

/// ASCII-case-insensitive equality of two string slices.
pub fn str_eq_nocase(a: &str, b: &str) -> (r: bool)
    ensures
        r == seq_eq_nocase(a@, b@),
{
    let na = a.unicode_len();
    let nb = b.unicode_len();
    if na != nb {
        return false;
    }
    let mut i: usize = 0;
    while i < na
        invariant
            na == a@.len(),
            na == b@.len(),
            i <= na,
            forall|j: int| 0 <= j < i ==> #[trigger] char_eq_nocase(a@[j], b@[j]),
        decreases na - i,
    {
        if !char_eq_nocase_exec(a.get_char(i), b.get_char(i)) {
            return false;
        }
        i = i + 1;
    }
    true
}

/// Drops leading slashes.
pub open spec fn trim_slash_start(s: Seq<char>) -> Seq<char>
    decreases s.len(),
{
    if s.len() > 0 && s[0] == '/' {
        trim_slash_start(s.drop_first())
    } else {
        s
    }
}

/// Drops trailing slashes.
pub open spec fn trim_slash_end(s: Seq<char>) -> Seq<char>
    decreases s.len(),
{
    if s.len() > 0 && s.last() == '/' {
        trim_slash_end(s.drop_last())
    } else {
        s
    }
}

/// Drops leading and trailing slashes.
pub open spec fn trim_slash(s: Seq<char>) -> Seq<char> {
    trim_slash_end(trim_slash_start(s))
}

/// Returns the slice with leading and trailing slashes removed.
pub fn trim_slash_str<'a>(s: &'a str) -> (r: &'a str)
    ensures
        r@ == trim_slash(s@),
{
    let n = s.unicode_len();
    let mut a: usize = 0;
    proof {
        assert(s@.skip(0) =~= s@);
    }
    while a < n && s.get_char(a) == '/'
        invariant
            n == s@.len(),
            a <= n,
            trim_slash_start(s@) == trim_slash_start(s@.skip(a as int)),
        decreases n - a,
    {
        proof {
            assert(s@.skip(a as int).drop_first() =~= s@.skip(a as int + 1));
        }
        a = a + 1;
    }
    proof {
        assert(trim_slash_start(s@) =~= s@.skip(a as int));
    }
    let mut b: usize = n;
    while b > a && s.get_char(b - 1) == '/'
        invariant
            n == s@.len(),
            a <= b <= n,
            trim_slash_start(s@) == s@.skip(a as int),
            trim_slash_end(s@.subrange(a as int, n as int)) == trim_slash_end(
                s@.subrange(a as int, b as int),
            ),
        decreases b,
    {
        proof {
            assert(s@.subrange(a as int, b as int).drop_last() =~= s@.subrange(
                a as int,
                b as int - 1,
            ));
        }
        b = b - 1;
    }
    proof {
        assert(s@.skip(a as int) =~= s@.subrange(a as int, n as int));
        assert(trim_slash(s@) =~= s@.subrange(a as int, b as int));
    }
    s.substring_char(a, b)
}

/// Index of the first colon in a character sequence, if any.
pub open spec fn first_colon(s: Seq<char>) -> Option<int>
    decreases s.len(),
{
    if s.len() == 0 {
        None
    } else if s[0] == ':' {
        Some(0int)
    } else {
        match first_colon(s.drop_first()) {
            None => None,
            Some(i) => Some(i + 1),
        }
    }
}

/// `first_colon` finds a colon that nothing precedes.
pub proof fn lemma_first_colon_at(s: Seq<char>, i: int)
    requires
        0 <= i < s.len(),
        s[i] == ':',
        forall|j: int| 0 <= j < i ==> s[j] != ':',
    ensures
        first_colon(s) == Some(i),
    decreases i,
{
    if i > 0 {
        assert(s[0] != ':');
        assert(s.drop_first()[i - 1] == s[i]);
        assert forall|j: int| 0 <= j < i - 1 implies s.drop_first()[j] != ':' by {
            assert(s[j + 1] != ':');
        }
        lemma_first_colon_at(s.drop_first(), i - 1);
    }
}

/// `first_colon` finds nothing in a sequence without colons.
pub proof fn lemma_first_colon_none(s: Seq<char>)
    requires
        forall|j: int| 0 <= j < s.len() ==> s[j] != ':',
    ensures
        first_colon(s) is None,
    decreases s.len(),
{
    if s.len() > 0 {
        assert forall|j: int| 0 <= j < s.drop_first().len() implies s.drop_first()[j] != ':' by {
            assert(s[j + 1] != ':');
        }
        lemma_first_colon_none(s.drop_first());
    }
}

/// What `str::to_uppercase` returns: the Unicode uppercase mapping of the
/// characters, a function of them alone.
pub uninterp spec fn upper_of(s: Seq<char>) -> Seq<char>;

/// Relies on `str::to_uppercase`: the Unicode uppercase mapping, which
/// depends on the characters alone, here named `upper_of`.
#[verifier::external_body]
pub fn to_uppercase_str(s: &str) -> (r: String)
    ensures
        r@ == upper_of(s@),
{
    s.to_uppercase()
}

/// Decimal rendering of a natural number, most significant digit first.
pub open spec fn dec_str(n: nat) -> Seq<char>
    decreases n,
{
    if n < 10 {
        seq![hex_digit(n as u8)]
    } else {
        dec_str(n / 10).push(hex_digit((n % 10) as u8))
    }
}

/// Appends the decimal rendering of a port number to a string.
pub fn push_u16(s: &mut String, n: u16)
    ensures
        final(s)@ == old(s)@ + dec_str(n as nat),
    decreases n,
{
    if n >= 10 {
        push_u16(s, n / 10);
        crate::hexcode::push_hex_digit(s, (n % 10) as u8);
        proof {
            assert(s@ =~= old(s)@ + dec_str(n as nat));
        }
    } else {
        crate::hexcode::push_hex_digit(s, (n % 10) as u8);
        proof {
            assert(s@ =~= old(s)@ + dec_str(n as nat));
        }
    }
}

} // verus!
