//! The identifier of a transaction.

use vstd::prelude::*;
use vstd::string::*;

verus! {

/// The character of a hexadecimal digit, in lower case.
pub open spec fn hex_digit_char(digit: nat) -> char {
    if digit < 10 {
        ('0' as nat + digit) as char
    } else {
        ('a' as nat + digit - 10) as char
    }
}

/// `bytes` in hexadecimal: `0x`, then two lower-case digits for each byte,
/// the high one first.
pub open spec fn prefixed_hex_text(bytes: Seq<u8>) -> Seq<char> {
    seq!['0', 'x'] + Seq::new(
        2 * bytes.len(),
        |i: int|
            if i % 2 == 0 {
                hex_digit_char((bytes[i / 2] / 16) as nat)
            } else {
                hex_digit_char((bytes[i / 2] % 16) as nat)
            },
    )
}

/// The 32-byte hash that identifies a transaction.
#[derive(Clone, Copy, Debug, PartialEq, Eq)]
pub struct TxHash {
    pub bytes: [u8; 32],
}

impl View for TxHash {
    type V = Seq<u8>;

    open spec fn view(&self) -> Seq<u8> {
        self.bytes@
    }
}

/// Formats the hash with `alloy::primitives::B256`'s `Display`. The
/// contract claims what that impl writes where no flag is set: `0x` and the
/// 32 bytes in lower-case hexadecimal.
#[verifier::external_body]
fn format_hash_bytes(bytes: &[u8; 32]) -> (text: String)
    ensures
        text@ == prefixed_hex_text(bytes@),
{
    alloy::primitives::B256::from(*bytes).to_string()
}

/// The line that names the transaction once it is confirmed.
pub open spec fn sent_notice_text(hash: Seq<u8>) -> Seq<char> {
    "Sent transaction: "@ + prefixed_hex_text(hash)
}

impl TxHash {
    /// The hash made of `bytes`.
    pub fn from_bytes(bytes: [u8; 32]) -> (hash: TxHash)
        ensures
            hash.bytes == bytes,
            hash@ == bytes@,
    {
        TxHash { bytes }
    }

    /// The hash in hexadecimal, as it is printed.
    pub fn to_string(&self) -> (text: String)
        ensures
            text@ == prefixed_hex_text(self@),
            text@.len() == 66,
    {
        format_hash_bytes(&self.bytes)
    }

    /// The line that names the transaction once it is confirmed.
    pub fn sent_notice(&self) -> (line: String)
        ensures
            line@ == sent_notice_text(self@),
    {
        let text = self.to_string();
        let mut line = "Sent transaction: ".to_owned();
        line.append(text.as_str());
        line
    }
}

} // verus!
