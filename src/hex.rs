use vstd::prelude::*;

verus! {

/// The lowercase hexadecimal digit of a nibble (`n` in `0..16`).
pub open spec fn hex_char(n: int) -> char {
    if n == 0 { '0' } else if n == 1 { '1' } else if n == 2 { '2' } else if n == 3 { '3' }
    else if n == 4 { '4' } else if n == 5 { '5' } else if n == 6 { '6' } else if n == 7 { '7' }
    else if n == 8 { '8' } else if n == 9 { '9' } else if n == 10 { 'a' } else if n == 11 { 'b' }
    else if n == 12 { 'c' } else if n == 13 { 'd' } else if n == 14 { 'e' } else { 'f' }
}

/// The value of a hexadecimal digit, in either case; `None` for any other character.
pub open spec fn hex_value(c: char) -> Option<int> {
    let u = c as u32;
    if 48 <= u <= 57 {
        Some(u - 48)
    } else if 97 <= u <= 102 {
        Some(u - 87)
    } else if 65 <= u <= 70 {
        Some(u - 55)
    } else {
        None
    }
}

/// Two lowercase digits per byte, high nibble first, no prefix.
pub open spec fn hex_encode(b: Seq<u8>) -> Seq<char> {
    Seq::new(
        2 * b.len(),
        |i: int|
            if i % 2 == 0 {
                hex_char(b[i / 2] as int / 16)
            } else {
                hex_char(b[i / 2] as int % 16)
            },
    )
}

/// An even number of characters, each a hexadecimal digit.
pub open spec fn is_hex(s: Seq<char>) -> bool {
    &&& s.len() % 2 == 0
    &&& forall|i: int| 0 <= i < s.len() ==> (#[trigger] hex_value(s[i])) is Some
}

/// The bytes that a hexadecimal string stands for, or `None` if it is not one.
pub open spec fn hex_decode(s: Seq<char>) -> Option<Seq<u8>> {
    if is_hex(s) {
        Some(
            Seq::new(
                s.len() / 2,
                |i: int| (16 * hex_value(s[2 * i]).unwrap() + hex_value(s[2 * i + 1]).unwrap()) as u8,
            ),
        )
    } else {
        None
    }
}

/// Decoding what was encoded gives back the bytes.
pub proof fn lemma_hex_round_trip(b: Seq<u8>)
    ensures
        is_hex(hex_encode(b)),
        hex_decode(hex_encode(b)) == Some(b),
{
    let e = hex_encode(b);
    assert forall|i: int| 0 <= i < e.len() implies (#[trigger] hex_value(e[i])) is Some by {
        if i % 2 == 0 {
            assert(0 <= b[i / 2] as int / 16 < 16);
        } else {
            assert(0 <= b[i / 2] as int % 16 < 16);
        }
    }
    let d = hex_decode(e).unwrap();
    assert forall|j: int| 0 <= j < b.len() implies d[j] == b[j] by {
        assert((2 * j) % 2 == 0 && (2 * j) / 2 == j);
        assert((2 * j + 1) % 2 == 1 && (2 * j + 1) / 2 == j);
        let x = b[j] as int;
        assert(x == 16 * (x / 16) + x % 16);
    }
    assert(d =~= b);
}

/// Digit of a nibble.
pub(crate) fn nibble_char(n: u8) -> (c: char)
    requires
        n < 16,
    ensures
        c == hex_char(n as int),
{
    if n < 10 {
        if n == 0 { '0' } else if n == 1 { '1' } else if n == 2 { '2' } else if n == 3 { '3' }
        else if n == 4 { '4' } else if n == 5 { '5' } else if n == 6 { '6' } else if n == 7 { '7' }
        else if n == 8 { '8' } else { '9' }
    } else {
        if n == 10 { 'a' } else if n == 11 { 'b' } else if n == 12 { 'c' } else if n == 13 { 'd' }
        else if n == 14 { 'e' } else { 'f' }
    }
}

/// Value of a digit.
fn digit_value(c: char) -> (r: Option<u8>)
    ensures
        r matches Some(v) ==> hex_value(c) == Some(v as int),
        r is None ==> hex_value(c) is None,
{
    let u = c as u32;
    if 48 <= u && u <= 57 {
        Some((u - 48) as u8)
    } else if 97 <= u && u <= 102 {
        Some((u - 87) as u8)
    } else if 65 <= u && u <= 70 {
        Some((u - 55) as u8)
    } else {
        None
    }
}

/// Relies on `String::push`: the character is appended at the end.
#[verifier::external_body]
pub(crate) fn push_char(s: &mut String, c: char)
    ensures
        final(s)@ == old(s)@.push(c),
{
    s.push(c)
}

/// Encodes bytes slice into hex string
pub fn encode_hex(bytes: &[u8]) -> (s: String)
    requires
        bytes@.len() * 2 <= usize::MAX,
    ensures
        s@ == hex_encode(bytes@),
{
    let mut s = String::new();
    let mut i: usize = 0;
    while i < bytes.len()
        invariant
            i <= bytes@.len(),
            s@.len() == 2 * i,
            forall|j: int| 0 <= j < 2 * i ==> s@[j] == #[trigger] hex_encode(bytes@)[j],
        decreases bytes@.len() - i,
    {
        let b = bytes[i];
        push_char(&mut s, nibble_char(b / 16));
        push_char(&mut s, nibble_char(b % 16));
        proof {
            let e = hex_encode(bytes@);
            assert((2 * i as int) / 2 == i as int && (2 * i as int) % 2 == 0);
            assert((2 * i as int + 1) / 2 == i as int && (2 * i as int + 1) % 2 == 1);
            assert(s@[2 * i as int] == e[2 * i as int]);
            assert(s@[2 * i as int + 1] == e[2 * i as int + 1]);
        }
        i = i + 1;
    }
    assert(s@ =~= hex_encode(bytes@));
    s
}

/// Decodes hex string into bytes vec
pub fn decode_hex(s: &str) -> (r: Option<Vec<u8>>)
    ensures
        r matches Some(v) ==> hex_decode(s@) == Some(v@),
        r is None ==> hex_decode(s@) is None,
{
    let n = s.unicode_len();
    if n % 2 != 0 {
        return None;
    }
    let mut out: Vec<u8> = Vec::new();
    let mut i: usize = 0;
    while i < n / 2
        invariant
            n == s@.len(),
            n % 2 == 0,
            i <= n / 2,
            out@.len() == i,
            forall|j: int| 0 <= j < 2 * i ==> (#[trigger] hex_value(s@[j])) is Some,
            forall|j: int|
                0 <= j < i ==> #[trigger] out@[j] == (16 * hex_value(s@[2 * j]).unwrap()
                    + hex_value(s@[2 * j + 1]).unwrap()) as u8,
        decreases n / 2 - i,
    {
        let hi = digit_value(s.get_char(2 * i));
        let lo = digit_value(s.get_char(2 * i + 1));
        match (hi, lo) {
            (Some(h), Some(l)) => {
                out.push(16 * h + l);
            },
            _ => {
                proof {
                    if hi is None {
                        assert(hex_value(s@[2 * i as int]) is None);
                    } else {
                        assert(hex_value(s@[2 * i as int + 1]) is None);
                    }
                }
                return None;
            },
        }
        i = i + 1;
    }
    proof {
        assert(is_hex(s@));
        assert(out@ =~= hex_decode(s@).unwrap());
    }
    Some(out)
}

} // verus!
