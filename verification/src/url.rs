//! Texts inside addresses.

use vstd::prelude::*;

use crate::numeral;
use crate::numeral::hex;
use crate::text::cat2;

verus! {

/// The bytes that stand for themselves in a path.
pub open spec fn path_safe(b: u8) -> bool {
    ||| 65 <= b <= 90
    ||| 97 <= b <= 122
    ||| 48 <= b <= 57
    ||| b == 45
    ||| b == 95
    ||| b == 46
    ||| b == 126
    ||| b == 58
    ||| b == 47
}

/// A byte in a path: itself, or a percent sign and two hexadecimal digits.
pub open spec fn path_byte(b: u8) -> Seq<char> {
    if path_safe(b) {
        seq![b as char]
    } else {
        "%"@ + numeral::hex_byte(b)
    }
}

/// The bytes of a text in a path.
pub open spec fn path_bytes(s: Seq<u8>) -> Seq<char>
    decreases s.len(),
{
    if s.len() == 0 {
        Seq::empty()
    } else {
        path_bytes(s.drop_last()) + path_byte(s.last())
    }
}

/// A text in a path.
pub open spec fn encoded_path(s: Seq<char>) -> Seq<char> {
    path_bytes(vstd::utf8::encode_utf8(s))
}

/// Writes a text so that it can stand in a path.
pub fn urlencode_path(s: &str) -> (r: String)
    ensures
        r@ == encoded_path(s@),
{
    let bytes = s.as_bytes();
    let mut out = String::new();
    let mut i: usize = 0;
    assert(bytes@.take(0) =~= Seq::empty());
    while i < bytes.len()
        invariant
            i <= bytes.len(),
            out@ == path_bytes(bytes@.take(i as int)),
        decreases bytes.len() - i,
    {
        let b: u8 = bytes[i];
        assert(bytes@.take(i + 1).drop_last() =~= bytes@.take(i as int));
        if (65 <= b && b <= 90) || (97 <= b && b <= 122) || (48 <= b && b <= 57) || b == 45 || b == 95 || b == 46
            || b == 126 || b == 58 || b == 47 {
            let ghost before = out@;
            out.push(b as char);
            assert(out@ =~= before + path_byte(b));
        } else {
            let h = hex(b);
            let e = cat2("%", h.as_str());
            out = cat2(out.as_str(), e.as_str());
        }
        i = i + 1;
    }
    assert(bytes@.take(bytes@.len() as int) =~= bytes@);
    out
}

/// The value of a hexadecimal digit.
pub open spec fn hex_value(c: char) -> int {
    if '0' <= c <= '9' {
        c as int - '0' as int
    } else {
        c as int - 'A' as int + 10
    }
}

/// Letters, digits and a few signs stand for themselves in a path; every other byte
/// stands as a percent sign with its two hexadecimal digits.
pub proof fn law_bytes_of_a_path(b: u8)
    ensures
        ({
            let plain = 'a' as int <= b <= 'z' as int || 'A' as int <= b <= 'Z' as int || '0' as int <= b <= '9' as int || b
                == '-' as int || b == '_' as int || b == '.' as int || b == '~' as int || b == ':' as int || b == '/' as int;
            let e = path_byte(b);
            &&& plain ==> e.len() == 1 && e[0] as int == b
            &&& !plain ==> e.len() == 3 && e[0] == '%' && hex_value(e[1]) * 16 + hex_value(e[2]) == b
            &&& b == 32 ==> e[1] == '2' && e[2] == '0'
        }),
{
    reveal_strlit("%");
}

/// The parts of a path are written one behind the other.
pub proof fn law_path_byte_by_byte(s: Seq<u8>, b: u8)
    ensures
        path_bytes(s.push(b)) == path_bytes(s) + path_byte(b),
        path_bytes(Seq::empty()).len() == 0,
{
    assert(s.push(b).drop_last() =~= s);
}

} // verus!
