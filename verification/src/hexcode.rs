//! Lowercase hex encoding and decoding of byte strings, with a proof that
//! decoding inverts encoding.
use vstd::prelude::*;

verus! {

/// Lowercase hex digit character for a nibble value.
pub open spec fn hex_digit(d: u8) -> char
    recommends
        d < 16,
{
    if d < 10 {
        ((d + 48) as u8) as char
    } else {
        ((d + 87) as u8) as char
    }
}

/// Nibble value of a hex digit character; upper and lower case both count.
pub open spec fn hex_val(c: char) -> Option<u8> {
    if 48 <= c as u32 && c as u32 <= 57 {
        Some((c as u32 - 48) as u8)
    } else if 97 <= c as u32 && c as u32 <= 102 {
        Some((c as u32 - 87) as u8)
    } else if 65 <= c as u32 && c as u32 <= 70 {
        Some((c as u32 - 55) as u8)
    } else {
        None
    }
}

/// The hex encoding of a byte string: two lowercase digits per byte.
pub open spec fn hex_encode_spec(bytes: Seq<u8>) -> Seq<char> {
    Seq::new(
        bytes.len() * 2,
        |i: int|
            if i % 2 == 0 {
                hex_digit((bytes[i / 2] / 16) as u8)
            } else {
                hex_digit((bytes[i / 2] % 16) as u8)
            },
    )
}

/// A string is decodable when its length is even and every character is a
/// hex digit.
pub open spec fn is_hex_str(s: Seq<char>) -> bool {
    &&& s.len() % 2 == 0
    &&& forall|i: int| 0 <= i < s.len() ==> (#[trigger] hex_val(s[i])) is Some
}

/// The bytes a hex string decodes to, or `None` when it is not one.
pub open spec fn hex_decode_spec(s: Seq<char>) -> Option<Seq<u8>> {
    if is_hex_str(s) {
        Some(
            Seq::new(
                (s.len() / 2) as nat,
                |i: int|
                    (hex_val(s[2 * i]).unwrap() * 16 + hex_val(s[2 * i + 1]).unwrap()) as u8,
            ),
        )
    } else {
        None
    }
}

/// Appends the hex digit character for a nibble to a string.
pub fn push_hex_digit(s: &mut String, d: u8)
    requires
        d < 16,
    ensures
        final(s)@ == old(s)@.push(hex_digit(d)),
{
    proof {
        reveal_strlit("0");
        reveal_strlit("1");
        reveal_strlit("2");
        reveal_strlit("3");
        reveal_strlit("4");
        reveal_strlit("5");
        reveal_strlit("6");
        reveal_strlit("7");
        reveal_strlit("8");
        reveal_strlit("9");
        reveal_strlit("a");
        reveal_strlit("b");
        reveal_strlit("c");
        reveal_strlit("d");
        reveal_strlit("e");
        reveal_strlit("f");
    }
    if d == 0 {
        s.append("0");
    } else if d == 1 {
        s.append("1");
    } else if d == 2 {
        s.append("2");
    } else if d == 3 {
        s.append("3");
    } else if d == 4 {
        s.append("4");
    } else if d == 5 {
        s.append("5");
    } else if d == 6 {
        s.append("6");
    } else if d == 7 {
        s.append("7");
    } else if d == 8 {
        s.append("8");
    } else if d == 9 {
        s.append("9");
    } else if d == 10 {
        s.append("a");
    } else if d == 11 {
        s.append("b");
    } else if d == 12 {
        s.append("c");
    } else if d == 13 {
        s.append("d");
    } else if d == 14 {
        s.append("e");
    } else {
        s.append("f");
    }
    proof {
        assert(s@ =~= old(s)@.push(hex_digit(d)));
    }
}

/// Hex-encodes a byte string, two lowercase digits per byte.
pub fn hex_encode(bytes: &Vec<u8>) -> (r: String)
    ensures
        r@ == hex_encode_spec(bytes@),
{
    let mut r = String::new();
    let mut i: usize = 0;
    while i < bytes.len()
        invariant
            i <= bytes@.len(),
            r@ =~= hex_encode_spec(bytes@.take(i as int)),
        decreases bytes@.len() - i,
    {
        let b = bytes[i];
        push_hex_digit(&mut r, b / 16);
        push_hex_digit(&mut r, b % 16);
        i = i + 1;
        proof {
            assert(r@ =~= hex_encode_spec(bytes@.take(i as int)));
        }
    }
    proof {
        assert(bytes@.take(bytes@.len() as int) =~= bytes@);
    }
    r
}

/// Nibble value of a hex digit character.
pub fn hex_val_char(c: char) -> (r: Option<u8>)
    ensures
        r == hex_val(c),
{
    let u = c as u32;
    if 48 <= u && u <= 57 {
        Some((u - 48) as u8)
    } else if 97 <= u && u <= 102 {
        Some((u - 87) as u8)
    } else if 65 <= u && u <= 70 {
        Some((u - 55) as u8)
    } else {
        None
    }
}

/// Decodes a hex string back to bytes; `None` on odd length or a character
/// that is no hex digit.
pub fn hex_decode(s: &str) -> (r: Option<Vec<u8>>)
    ensures
        match r {
            Some(v) => hex_decode_spec(s@) == Some(v@),
            None => hex_decode_spec(s@) is None,
        },
{
    let n = s.unicode_len();
    if n % 2 != 0 {
        return None;
    }
    let mut v: Vec<u8> = Vec::new();
    let mut i: usize = 0;
    while i < n
        invariant
            n == s@.len(),
            n % 2 == 0,
            i % 2 == 0,
            i <= n,
            v@.len() == i / 2,
            forall|j: int| 0 <= j < i ==> (#[trigger] hex_val(s@[j])) is Some,
            forall|k: int|
                0 <= k < i / 2 ==> v@[k] == (hex_val(s@[2 * k]).unwrap() * 16 + hex_val(
                    s@[2 * k + 1],
                ).unwrap()) as u8,
        decreases n - i,
    {
        let c1 = s.get_char(i);
        let c2 = s.get_char(i + 1);
        let h1 = match hex_val_char(c1) {
            Some(h) => h,
            None => {
                return None;
            },
        };
        let h2 = match hex_val_char(c2) {
            Some(h) => h,
            None => {
                return None;
            },
        };
        v.push(h1 * 16 + h2);
        i = i + 2;
    }
    proof {
        let d = hex_decode_spec(s@).unwrap();
        assert(v@ =~= d);
    }
    Some(v)
}

/// A hex digit character decodes back to the nibble it encodes.
pub proof fn lemma_hex_digit_val(d: u8)
    requires
        d < 16,
    ensures
        hex_val(hex_digit(d)) == Some(d),
{
}

/// Law: decoding inverts encoding, for every byte string.
pub proof fn lemma_hex_round_trip(bytes: Seq<u8>)
    ensures
        hex_decode_spec(hex_encode_spec(bytes)) == Some(bytes),
{
    let s = hex_encode_spec(bytes);
    assert forall|i: int| 0 <= i < s.len() implies (#[trigger] hex_val(s[i])) is Some by {
        if i % 2 == 0 {
            lemma_hex_digit_val((bytes[i / 2] / 16) as u8);
        } else {
            lemma_hex_digit_val((bytes[i / 2] % 16) as u8);
        }
    }
    assert(is_hex_str(s));
    let d = hex_decode_spec(s).unwrap();
    assert forall|k: int| 0 <= k < d.len() implies d[k] == bytes[k] by {
        let b = bytes[k];
        lemma_hex_digit_val((b / 16) as u8);
        lemma_hex_digit_val((b % 16) as u8);
        assert(s[2 * k] == hex_digit((b / 16) as u8));
        assert(s[2 * k + 1] == hex_digit((b % 16) as u8));
        assert(b / 16 * 16 + b % 16 == b) by (nonlinear_arith);
    }
    assert(d =~= bytes);
}

} // verus!
