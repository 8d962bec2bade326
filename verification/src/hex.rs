//! Lowercase hexadecimal framing of blobs.
//!
//! A blob is submitted over the wire as a lowercase hexadecimal string, two
//! digits per byte and no prefix. Both directions are specified here: the
//! encoding that the adapter emits, and the decoding that recovers the blob,
//! together with the round-trip law.

use vstd::prelude::*;

verus! {

/// The lowercase hexadecimal digit for a nibble value in `0..16`.
pub open spec fn hex_char(n: int) -> char {
    if n == 0 {
        '0'
    } else if n == 1 {
        '1'
    } else if n == 2 {
        '2'
    } else if n == 3 {
        '3'
    } else if n == 4 {
        '4'
    } else if n == 5 {
        '5'
    } else if n == 6 {
        '6'
    } else if n == 7 {
        '7'
    } else if n == 8 {
        '8'
    } else if n == 9 {
        '9'
    } else if n == 10 {
        'a'
    } else if n == 11 {
        'b'
    } else if n == 12 {
        'c'
    } else if n == 13 {
        'd'
    } else if n == 14 {
        'e'
    } else {
        'f'
    }
}

/// The value of a lowercase hexadecimal digit, or `-1` for any other character.
pub open spec fn hex_val(c: char) -> int {
    if c == '0' {
        0
    } else if c == '1' {
        1
    } else if c == '2' {
        2
    } else if c == '3' {
        3
    } else if c == '4' {
        4
    } else if c == '5' {
        5
    } else if c == '6' {
        6
    } else if c == '7' {
        7
    } else if c == '8' {
        8
    } else if c == '9' {
        9
    } else if c == 'a' {
        10
    } else if c == 'b' {
        11
    } else if c == 'c' {
        12
    } else if c == 'd' {
        13
    } else if c == 'e' {
        14
    } else if c == 'f' {
        15
    } else {
        -1
    }
}

/// The lowercase hexadecimal rendering of a byte sequence: two digits per
/// byte, high nibble first.
pub open spec fn hex_of(bytes: Seq<u8>) -> Seq<char> {
    Seq::new(
        bytes.len() * 2,
        |i: int|
            if i % 2 == 0 {
                hex_char(bytes[i / 2] as int / 16)
            } else {
                hex_char(bytes[i / 2] as int % 16)
            },
    )
}

/// Whether a character sequence is a well-formed lowercase hexadecimal
/// rendering: even length, every character a lowercase hexadecimal digit.
pub open spec fn is_hex_seq(s: Seq<char>) -> bool {
    &&& s.len() % 2 == 0
    &&& forall|i: int| 0 <= i < s.len() ==> hex_val(s[i]) >= 0
}

/// The byte sequence that a well-formed hexadecimal rendering denotes.
pub open spec fn bytes_of_hex(s: Seq<char>) -> Seq<u8> {
    Seq::new(s.len() / 2, |i: int| (hex_val(s[2 * i]) * 16 + hex_val(s[2 * i + 1])) as u8)
}

/// The one-character string for a nibble value.
fn hex_char_str(n: u8) -> (r: &'static str)
    requires
        n < 16,
    ensures
        r@.len() == 1,
        r@[0] == hex_char(n as int),
{
    proof {
        reveal_strlit("0");
        reveal_strlit("1");
        reveal_strlit("2");
        reveal_strlit("3");
        reveal_strlit("4");
        reveal_strlit("5");
        reveal_strlit("6");
        reveal_strlit("7");
        reveal_strlit("8");
        reveal_strlit("9");
        reveal_strlit("a");
        reveal_strlit("b");
        reveal_strlit("c");
        reveal_strlit("d");
        reveal_strlit("e");
        reveal_strlit("f");
    }
    match n {
        0 => "0",
        1 => "1",
        2 => "2",
        3 => "3",
        4 => "4",
        5 => "5",
        6 => "6",
        7 => "7",
        8 => "8",
        9 => "9",
        10 => "a",
        11 => "b",
        12 => "c",
        13 => "d",
        14 => "e",
        _ => "f",
    }
}

/// Encodes a blob as its lowercase hexadecimal rendering.
pub fn encode_hex(data: &Vec<u8>) -> (r: String)
    ensures
        r@ == hex_of(data@),
{
    let mut out = String::new();
    let mut i: usize = 0;
    while i < data.len()
        invariant
            i <= data.len(),
            out@.len() == 2 * i,
            forall|j: int| 0 <= j < out@.len() ==> out@[j] == hex_of(data@)[j],
        decreases data.len() - i,
    {
        let b = data[i];
        out.append(hex_char_str(b / 16));
        out.append(hex_char_str(b % 16));
        i = i + 1;
    }
    proof {
        assert(out@ =~= hex_of(data@));
    }
    out
}

/// The value of a lowercase hexadecimal digit, or `None` for any other
/// character.
fn hex_val_of(c: char) -> (r: Option<u8>)
    ensures
        match r {
            Some(v) => v < 16 && hex_val(c) == v as int,
            None => hex_val(c) == -1,
        },
{
    match c {
        '0' => Some(0),
        '1' => Some(1),
        '2' => Some(2),
        '3' => Some(3),
        '4' => Some(4),
        '5' => Some(5),
        '6' => Some(6),
        '7' => Some(7),
        '8' => Some(8),
        '9' => Some(9),
        'a' => Some(10),
        'b' => Some(11),
        'c' => Some(12),
        'd' => Some(13),
        'e' => Some(14),
        'f' => Some(15),
        _ => None,
    }
}

/// Decodes a lowercase hexadecimal rendering back into the blob it denotes.
/// Returns `None` exactly when the input is not such a rendering: odd length,
/// or any character outside `0-9a-f`.
pub fn decode_hex(s: &str) -> (r: Option<Vec<u8>>)
    ensures
        match r {
            Some(v) => is_hex_seq(s@) && v@ == bytes_of_hex(s@),
            None => !is_hex_seq(s@),
        },
{
    let n = s.unicode_len();
    if n % 2 != 0 {
        return None;
    }
    let mut out: Vec<u8> = Vec::new();
    let mut i: usize = 0;
    while i < n
        invariant
            n == s@.len(),
            n % 2 == 0,
            i % 2 == 0,
            i <= n,
            out@.len() == i / 2,
            forall|j: int| 0 <= j < i ==> hex_val(s@[j]) >= 0,
            forall|k: int| 0 <= k < out@.len() ==> out@[k] == bytes_of_hex(s@)[k],
        decreases n - i,
    {
        let hi = match hex_val_of(s.get_char(i)) {
            Some(v) => v,
            None => {
                return None;
            },
        };
        let lo = match hex_val_of(s.get_char(i + 1)) {
            Some(v) => v,
            None => {
                return None;
            },
        };
        out.push(hi * 16 + lo);
        i = i + 2;
    }
    proof {
        assert(out@ =~= bytes_of_hex(s@));
    }
    Some(out)
}

/// Round-trip law: decoding the hexadecimal rendering of any blob, including
/// the empty blob, recovers the blob exactly.
pub proof fn lemma_hex_round_trip(bytes: Seq<u8>)
    ensures
        is_hex_seq(hex_of(bytes)),
        bytes_of_hex(hex_of(bytes)) == bytes,
{
    let h = hex_of(bytes);
    assert forall|i: int| 0 <= i < h.len() implies hex_val(h[i]) >= 0 by {
        let b = bytes[i / 2] as int;
        assert(0 <= b / 16 < 16);
        assert(0 <= b % 16 < 16);
    }
    assert forall|k: int| 0 <= k < bytes.len() implies bytes_of_hex(h)[k] == bytes[k] by {
        let b = bytes[k] as int;
        assert(h[2 * k] == hex_char(b / 16));
        assert(h[2 * k + 1] == hex_char(b % 16));
        assert(hex_val(hex_char(b / 16)) == b / 16);
        assert(hex_val(hex_char(b % 16)) == b % 16);
        assert(b / 16 * 16 + b % 16 == b);
    }
    assert(bytes_of_hex(h) =~= bytes);
}

} // verus!
