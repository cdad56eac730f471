//! Addresses, amounts and hashes of EVM chains, as `alloy` reads and writes
//! them.

use vstd::prelude::*;

use crate::text;

verus! {

/// An unsigned integer of a fixed number of bits. It is carried through, never
/// looked into.
#[verifier::external_type_specification]
#[verifier::external_body]
pub struct ExUint<const BITS: usize, const LIMBS: usize>(alloy::primitives::Uint<BITS, LIMBS>);

// ---------------------------------------------------------------------------
// Hexadecimal
// ---------------------------------------------------------------------------

/// The value of a hexadecimal digit of either case.
pub open spec fn hex_value(c: char) -> Option<nat> {
    if '0' <= c <= '9' {
        Some((c as u32 - 48) as nat)
    } else if 'a' <= c <= 'f' {
        Some((c as u32 - 87) as nat)
    } else if 'A' <= c <= 'F' {
        Some((c as u32 - 55) as nat)
    } else {
        None
    }
}

/// A hexadecimal digit in lower case.
pub open spec fn hex_digit(d: nat) -> char {
    if d < 10 {
        text::digit(d)
    } else {
        (87 + d) as char
    }
}

/// Bytes in lower-case hexadecimal, two digits each.
pub open spec fn lower_hex(bytes: Seq<u8>) -> Seq<char> {
    Seq::new(
        2 * bytes.len(),
        |i: int|
            hex_digit(
                if i % 2 == 0 {
                    (bytes[i / 2] / 16) as nat
                } else {
                    (bytes[i / 2] % 16) as nat
                },
            ),
    )
}

/// The digits of a hexadecimal text, without its prefix if it has one.
pub open spec fn hex_digits(s: Seq<char>) -> Seq<char> {
    if s.len() >= 2 && s[0] == '0' && (s[1] == 'x' || s[1] == 'X') {
        s.skip(2)
    } else {
        s
    }
}

/// The address that a text spells: forty hexadecimal digits of either case,
/// prefixed or not.
pub open spec fn address_of(s: Seq<char>) -> Option<Seq<u8>> {
    let digits = hex_digits(s);
    if digits.len() == 40 && forall|i: int| 0 <= i < 40 ==> hex_value(#[trigger] digits[i]) is Some {
        Some(
            Seq::new(
                20,
                |i: int|
                    (16 * hex_value(digits[2 * i])->0 + hex_value(digits[2 * i + 1])->0) as u8,
            ),
        )
    } else {
        None
    }
}

// ---------------------------------------------------------------------------
// Outside calls
// ---------------------------------------------------------------------------

/// What `alloy::primitives::Address::from_str` says of a text that is no
/// address.
pub uninterp spec fn address_error(text: Seq<char>) -> Seq<char>;

/// Calls `alloy::primitives::Address::from_str`. A text is an address where it
/// is forty hexadecimal digits, with or without a prefix; its bytes are what
/// the digits spell, and no checksum is looked at. What is said of another
/// text depends on the text alone.
#[verifier::external_body]
pub(crate) fn parse_address(text: &str) -> (address: Result<[u8; 20], String>)
    ensures
        address is Ok <==> address_of(text@) is Some,
        address matches Ok(bytes) ==> Some(bytes@) == address_of(text@),
        address matches Err(why) ==> why@ == address_error(text@),
{
    match text.parse::<alloy::primitives::Address>() {
        Ok(address) => Ok(address.into_array()),
        Err(why) => Err(why.to_string()),
    }
}

/// What `alloy::primitives::U256::from_str` makes of a text: the number, or
/// what it says where the text is none or does not fit.
pub uninterp spec fn parsed_amount(text: Seq<char>) -> Result<
    alloy::primitives::U256,
    Seq<char>,
>;

/// Calls `alloy::primitives::U256::from_str`. The number, or what is said where
/// there is none, depends on the text alone.
#[verifier::external_body]
pub(crate) fn parse_amount(text: &str) -> (amount: Result<alloy::primitives::U256, String>)
    ensures
        amount is Ok <==> parsed_amount(text@) is Ok,
        amount matches Ok(number) ==> number == parsed_amount(text@)->Ok_0,
        amount matches Err(why) ==> why@ == parsed_amount(text@)->Err_0,
{
    match text.parse::<alloy::primitives::U256>() {
        Ok(number) => Ok(number),
        Err(why) => Err(why.to_string()),
    }
}

/// The address of the account that a private key signs for, as
/// `alloy::signers::local::PrivateKeySigner` derives it, or what it says where
/// the text is no private key.
pub uninterp spec fn key_address(key: Seq<char>) -> Result<Seq<u8>, Seq<char>>;

/// Calls `alloy::signers::local::PrivateKeySigner::from_str`, and reads the
/// address of the signer that it gives. The address, or what is said where
/// there is none, depends on the text alone.
#[verifier::external_body]
pub(crate) fn address_of_key(key: &str) -> (address: Result<[u8; 20], String>)
    ensures
        address is Ok <==> key_address(key@) is Ok,
        address matches Ok(bytes) ==> bytes@ == key_address(key@)->Ok_0,
        address matches Err(why) ==> why@ == key_address(key@)->Err_0,
{
    match key.parse::<alloy::signers::local::PrivateKeySigner>() {
        Ok(signer) => Ok(signer.address().into_array()),
        Err(why) => Err(why.to_string()),
    }
}

/// Formats a hash with the alternate lower-hexadecimal format of
/// `alloy::primitives::B256`: a prefix, then two lower-case digits a byte.
#[verifier::external_body]
pub(crate) fn hash_text(hash: &[u8; 32]) -> (shown: String)
    ensures
        shown@ == "0x"@ + lower_hex(hash@),
{
    format!("{:#x}", alloy::primitives::B256::from(*hash))
}

/// Bytes are written two digits each, in lower case, and each byte is what its
/// two digits spell.
pub proof fn law_hexadecimal_is_read_back(bytes: Seq<u8>, i: int)
    requires
        0 <= i < bytes.len(),
    ensures
        lower_hex(bytes).len() == 2 * bytes.len(),
        ({
            let high = lower_hex(bytes)[2 * i];
            let low = lower_hex(bytes)[2 * i + 1];
            let value = |c: char|
                if c <= '9' {
                    c as int - '0' as int
                } else {
                    c as int - 'a' as int + 10
                };
            &&& '0' <= high <= '9' || 'a' <= high <= 'f'
            &&& '0' <= low <= '9' || 'a' <= low <= 'f'
            &&& 16 * value(high) + value(low) == bytes[i]
        }),
{
    let high = lower_hex(bytes)[2 * i];
    let low = lower_hex(bytes)[2 * i + 1];
    assert((2 * i) / 2 == i && (2 * i) % 2 == 0);
    assert((2 * i + 1) / 2 == i && (2 * i + 1) % 2 == 1);
    assert(high == hex_digit((bytes[i] / 16) as nat));
    assert(low == hex_digit((bytes[i] % 16) as nat));
}

/// A text is an address exactly where it is forty hexadecimal digits, after a
/// prefix or without one.
pub proof fn law_an_address_is_forty_digits(s: Seq<char>)
    ensures
        address_of(s) is Some <==> {
            let prefixed = s.len() == 42 && s[0] == '0' && (s[1] == 'x' || s[1] == 'X');
            let skipped: int = if prefixed {
                2
            } else {
                0
            };
            &&& prefixed || s.len() == 40
            &&& forall|i: int|
                skipped <= i < s.len() ==> ('0' <= (#[trigger] s[i]) <= '9' || 'a' <= s[i] <= 'f'
                    || 'A' <= s[i] <= 'F')
        },
        address_of(s) matches Some(bytes) ==> bytes.len() == 20,
{
    let prefixed = s.len() == 42 && s[0] == '0' && (s[1] == 'x' || s[1] == 'X');
    let skipped: int = if prefixed {
        2
    } else {
        0
    };
    let digits = hex_digits(s);
    if address_of(s) is Some {
        assert forall|i: int| skipped <= i < s.len() implies ('0' <= (#[trigger] s[i]) <= '9'
            || 'a' <= s[i] <= 'f' || 'A' <= s[i] <= 'F') by {
            assert(digits[i - skipped] == s[i]);
            assert(hex_value(digits[i - skipped]) is Some);
        }
    }
    if (prefixed || s.len() == 40) && forall|i: int|
        skipped <= i < s.len() ==> ('0' <= (#[trigger] s[i]) <= '9' || 'a' <= s[i] <= 'f' || 'A'
            <= s[i] <= 'F') {
        if s.len() == 40 && s[0] == '0' && (s[1] == 'x' || s[1] == 'X') {
            assert(s[1] == 'x' || s[1] == 'X');
            assert(false);
        }
        assert forall|i: int| 0 <= i < 40 implies hex_value(#[trigger] digits[i]) is Some by {
            assert(digits[i] == s[i + skipped]);
        }
    }
}

/// An address that is written is read back, with a prefix or without one.
pub proof fn law_an_address_is_read_back(bytes: Seq<u8>)
    requires
        bytes.len() == 20,
    ensures
        address_of(lower_hex(bytes)) == Some(bytes),
        address_of("0x"@ + lower_hex(bytes)) == Some(bytes),
{
    reveal_strlit("0x");
    let plain = lower_hex(bytes);
    let prefixed = "0x"@ + plain;
    assert forall|i: int| 0 <= i < 40 implies hex_value(#[trigger] plain[i]) is Some by {
        law_hexadecimal_is_read_back(bytes, i / 2);
        assert(i == 2 * (i / 2) || i == 2 * (i / 2) + 1);
    }
    law_hexadecimal_is_read_back(bytes, 0);
    assert(hex_digits(plain) == plain);
    assert(prefixed[0] == '0' && prefixed[1] == 'x');
    assert(hex_digits(prefixed) =~= plain);
    let read = address_of(plain)->0;
    assert forall|i: int| 0 <= i < 20 implies read[i] == #[trigger] bytes[i] by {
        law_hexadecimal_is_read_back(bytes, i);
    }
    assert(read =~= bytes);
}

/// The case of its digits does not matter to what an address spells.
pub proof fn law_the_case_of_an_address_does_not_matter(a: Seq<char>, b: Seq<char>)
    requires
        a.len() == b.len(),
        forall|i: int|
            #![trigger a[i], b[i]]
            0 <= i < a.len() ==> a[i] == b[i] || ('a' <= a[i] <= 'f' && b[i] as int == a[i] as int
                - 32),
    ensures
        address_of(a) == address_of(b),
{
    assert forall|i: int|
        #![trigger hex_value(a[i]), hex_value(b[i])]
        0 <= i < a.len() implies hex_value(a[i]) == hex_value(b[i]) by {
        assert(a[i] == b[i] || ('a' <= a[i] <= 'f' && b[i] as int == a[i] as int - 32));
    }
    let x = hex_digits(a);
    let y = hex_digits(b);
    if a.len() >= 2 {
        assert(a[0] == b[0] || ('a' <= a[0] <= 'f' && b[0] as int == a[0] as int - 32));
        assert(a[1] == b[1] || ('a' <= a[1] <= 'f' && b[1] as int == a[1] as int - 32));
    }
    let k = a.len() - x.len();
    assert(y.len() == x.len());
    assert forall|i: int|
        #![trigger hex_value(x[i])]
        #![trigger hex_value(y[i])]
        0 <= i < x.len() implies hex_value(x[i]) == hex_value(y[i]) by {
        assert(x[i] == a[i + k]);
        assert(y[i] == b[i + k]);
        assert(hex_value(a[i + k]) == hex_value(b[i + k]));
    }
    if address_of(a) is Some {
        assert forall|i: int| 0 <= i < 40 implies hex_value(#[trigger] y[i]) is Some by {
            assert(hex_value(x[i]) is Some);
        }
    }
    if address_of(b) is Some {
        assert forall|i: int| 0 <= i < 40 implies hex_value(#[trigger] x[i]) is Some by {
            assert(hex_value(y[i]) is Some);
        }
    }
    if address_of(a) is Some {
        assert forall|i: int| 0 <= i < 20 implies (#[trigger] address_of(a)->0[i])
            == address_of(b)->0[i] by {
            assert(hex_value(x[2 * i]) == hex_value(y[2 * i]));
            assert(hex_value(x[2 * i + 1]) == hex_value(y[2 * i + 1]));
        }
        assert(address_of(a)->0 =~= address_of(b)->0);
    }
}

} // verus!
