use vstd::prelude::*;

verus! {

/// Unicode `Decimal_Number` (general category Nd), the class that `\d`
/// denotes in a Unicode-aware regular expression.
pub open spec fn spec_is_decimal_digit(c: char) -> bool {
    let n = c as u32;
    (0x30 <= n <= 0x39) || (0x660 <= n <= 0x669) || (0x6f0 <= n <= 0x6f9)
    || (0x7c0 <= n <= 0x7c9) || (0x966 <= n <= 0x96f) || (0x9e6 <= n <= 0x9ef)
    || (0xa66 <= n <= 0xa6f) || (0xae6 <= n <= 0xaef) || (0xb66 <= n <= 0xb6f)
    || (0xbe6 <= n <= 0xbef) || (0xc66 <= n <= 0xc6f) || (0xce6 <= n <= 0xcef)
    || (0xd66 <= n <= 0xd6f) || (0xde6 <= n <= 0xdef) || (0xe50 <= n <= 0xe59)
    || (0xed0 <= n <= 0xed9) || (0xf20 <= n <= 0xf29) || (0x1040 <= n <= 0x1049)
    || (0x1090 <= n <= 0x1099) || (0x17e0 <= n <= 0x17e9) || (0x1810 <= n <= 0x1819)
    || (0x1946 <= n <= 0x194f) || (0x19d0 <= n <= 0x19d9) || (0x1a80 <= n <= 0x1a89)
    || (0x1a90 <= n <= 0x1a99) || (0x1b50 <= n <= 0x1b59) || (0x1bb0 <= n <= 0x1bb9)
    || (0x1c40 <= n <= 0x1c49) || (0x1c50 <= n <= 0x1c59) || (0xa620 <= n <= 0xa629)
    || (0xa8d0 <= n <= 0xa8d9) || (0xa900 <= n <= 0xa909) || (0xa9d0 <= n <= 0xa9d9)
    || (0xa9f0 <= n <= 0xa9f9) || (0xaa50 <= n <= 0xaa59) || (0xabf0 <= n <= 0xabf9)
    || (0xff10 <= n <= 0xff19) || (0x104a0 <= n <= 0x104a9) || (0x10d30 <= n <= 0x10d39)
    || (0x10d40 <= n <= 0x10d49) || (0x11066 <= n <= 0x1106f) || (0x110f0 <= n <= 0x110f9)
    || (0x11136 <= n <= 0x1113f) || (0x111d0 <= n <= 0x111d9) || (0x112f0 <= n <= 0x112f9)
    || (0x11450 <= n <= 0x11459) || (0x114d0 <= n <= 0x114d9) || (0x11650 <= n <= 0x11659)
    || (0x116c0 <= n <= 0x116c9) || (0x116d0 <= n <= 0x116e3) || (0x11730 <= n <= 0x11739)
    || (0x118e0 <= n <= 0x118e9) || (0x11950 <= n <= 0x11959) || (0x11bf0 <= n <= 0x11bf9)
    || (0x11c50 <= n <= 0x11c59) || (0x11d50 <= n <= 0x11d59) || (0x11da0 <= n <= 0x11da9)
    || (0x11f50 <= n <= 0x11f59) || (0x16130 <= n <= 0x16139) || (0x16a60 <= n <= 0x16a69)
    || (0x16ac0 <= n <= 0x16ac9) || (0x16b50 <= n <= 0x16b59) || (0x16d70 <= n <= 0x16d79)
    || (0x1ccf0 <= n <= 0x1ccf9) || (0x1d7ce <= n <= 0x1d7ff) || (0x1e140 <= n <= 0x1e149)
    || (0x1e2f0 <= n <= 0x1e2f9) || (0x1e4f0 <= n <= 0x1e4f9) || (0x1e5f1 <= n <= 0x1e5fa)
    || (0x1e950 <= n <= 0x1e959) || (0x1fbf0 <= n <= 0x1fbf9)
}

/// Whether `c` is a Unicode decimal digit.
pub fn is_decimal_digit(c: char) -> (b: bool)
    ensures
        b == spec_is_decimal_digit(c),
{
    let n = c as u32;
    (0x30 <= n && n <= 0x39) || (0x660 <= n && n <= 0x669) || (0x6f0 <= n && n <= 0x6f9)
    || (0x7c0 <= n && n <= 0x7c9) || (0x966 <= n && n <= 0x96f) || (0x9e6 <= n && n <= 0x9ef)
    || (0xa66 <= n && n <= 0xa6f) || (0xae6 <= n && n <= 0xaef) || (0xb66 <= n && n <= 0xb6f)
    || (0xbe6 <= n && n <= 0xbef) || (0xc66 <= n && n <= 0xc6f) || (0xce6 <= n && n <= 0xcef)
    || (0xd66 <= n && n <= 0xd6f) || (0xde6 <= n && n <= 0xdef) || (0xe50 <= n && n <= 0xe59)
    || (0xed0 <= n && n <= 0xed9) || (0xf20 <= n && n <= 0xf29) || (0x1040 <= n && n <= 0x1049)
    || (0x1090 <= n && n <= 0x1099) || (0x17e0 <= n && n <= 0x17e9)
    || (0x1810 <= n && n <= 0x1819) || (0x1946 <= n && n <= 0x194f)
    || (0x19d0 <= n && n <= 0x19d9) || (0x1a80 <= n && n <= 0x1a89)
    || (0x1a90 <= n && n <= 0x1a99) || (0x1b50 <= n && n <= 0x1b59)
    || (0x1bb0 <= n && n <= 0x1bb9) || (0x1c40 <= n && n <= 0x1c49)
    || (0x1c50 <= n && n <= 0x1c59) || (0xa620 <= n && n <= 0xa629)
    || (0xa8d0 <= n && n <= 0xa8d9) || (0xa900 <= n && n <= 0xa909)
    || (0xa9d0 <= n && n <= 0xa9d9) || (0xa9f0 <= n && n <= 0xa9f9)
    || (0xaa50 <= n && n <= 0xaa59) || (0xabf0 <= n && n <= 0xabf9)
    || (0xff10 <= n && n <= 0xff19) || (0x104a0 <= n && n <= 0x104a9)
    || (0x10d30 <= n && n <= 0x10d39) || (0x10d40 <= n && n <= 0x10d49)
    || (0x11066 <= n && n <= 0x1106f) || (0x110f0 <= n && n <= 0x110f9)
    || (0x11136 <= n && n <= 0x1113f) || (0x111d0 <= n && n <= 0x111d9)
    || (0x112f0 <= n && n <= 0x112f9) || (0x11450 <= n && n <= 0x11459)
    || (0x114d0 <= n && n <= 0x114d9) || (0x11650 <= n && n <= 0x11659)
    || (0x116c0 <= n && n <= 0x116c9) || (0x116d0 <= n && n <= 0x116e3)
    || (0x11730 <= n && n <= 0x11739) || (0x118e0 <= n && n <= 0x118e9)
    || (0x11950 <= n && n <= 0x11959) || (0x11bf0 <= n && n <= 0x11bf9)
    || (0x11c50 <= n && n <= 0x11c59) || (0x11d50 <= n && n <= 0x11d59)
    || (0x11da0 <= n && n <= 0x11da9) || (0x11f50 <= n && n <= 0x11f59)
    || (0x16130 <= n && n <= 0x16139) || (0x16a60 <= n && n <= 0x16a69)
    || (0x16ac0 <= n && n <= 0x16ac9) || (0x16b50 <= n && n <= 0x16b59)
    || (0x16d70 <= n && n <= 0x16d79) || (0x1ccf0 <= n && n <= 0x1ccf9)
    || (0x1d7ce <= n && n <= 0x1d7ff) || (0x1e140 <= n && n <= 0x1e149)
    || (0x1e2f0 <= n && n <= 0x1e2f9) || (0x1e4f0 <= n && n <= 0x1e4f9)
    || (0x1e5f1 <= n && n <= 0x1e5fa) || (0x1e950 <= n && n <= 0x1e959)
    || (0x1fbf0 <= n && n <= 0x1fbf9)
}

} // verus!
