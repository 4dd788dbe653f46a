//! Marshalling for the tally decryption-share command.
//!
//! The command reads a hex-encoded encrypted tally and a hex-encoded
//! decryption key, hands the decoded bytes to the external vote cryptography
//! for the actual share computation, and prints the resulting state and
//! share re-encoded as hex in a small JSON object. The byte marshalling on
//! both sides of the cryptographic step is verified here; file reading and
//! the cryptographic call itself are the shell's part.

use vstd::prelude::*;
use vstd::string::*;
use crate::hex::{HexError, bytes_of_hex, hex_of, is_hex_digit, hex_decode, hex_encode};
use crate::vote::OutputFormat;

verus! {

/// The decryption-share command: where its two hex-encoded inputs come
/// from, and how the output is printed. A missing tally path means the
/// encrypted tally is read from standard input.
#[derive(Debug, Clone)]
pub struct TallyDecryptionShare {
    /// The path to the hex-encoded encrypted tally state, if not standard input.
    pub encrypted_tally: Option<String>,
    /// The path to the hex-encoded decryption key.
    pub decryption_key: String,
    pub output_format: OutputFormat,
}

/// What the command's input marshalling can fail with.
#[derive(Debug, Clone, Copy, PartialEq, Eq, Structural)]
pub enum TallyError {
    /// An input is not valid hexadecimal text.
    Hex(HexError),
    /// The decryption key decodes to the wrong number of bytes.
    KeyLength,
    /// The tally bytes were rejected by the vote cryptography.
    EncryptedTallyRead,
    /// The key bytes were rejected by the vote cryptography.
    DecryptionKeyRead,
}

/// A decryption key is thirty-two bytes, sixty-four hex digits.
pub const KEY_HEX_LEN: usize = 64;

/// Valid hexadecimal text: even length, hex digits throughout.
pub open spec fn valid_hex(s: Seq<char>) -> bool {
    s.len() % 2 == 0 && (forall|j: int| 0 <= j < s.len() ==> is_hex_digit(#[trigger] s[j]))
}

/// Decodes the two hex-encoded inputs of the command: the encrypted tally
/// state and the thirty-two-byte decryption key. Succeeds exactly when the
/// tally text is valid hexadecimal and the key text is sixty-four
/// hexadecimal digits; a malformed input is reported as its hex error, a
/// well-formed key of the wrong size as [`TallyError::KeyLength`].
pub fn decode_inputs(encrypted_tally_hex: &str, decryption_key_hex: &str) -> (r: Result<
    (Vec<u8>, Vec<u8>),
    TallyError,
>)
    ensures
        r is Ok <==> valid_hex(encrypted_tally_hex@) && valid_hex(decryption_key_hex@)
            && decryption_key_hex@.len() == KEY_HEX_LEN,
        r matches Ok(v) ==> v.0@ == bytes_of_hex(encrypted_tally_hex@) && v.1@ == bytes_of_hex(
            decryption_key_hex@,
        ) && v.1@.len() == 32,
        r matches Err(TallyError::Hex(_)) ==> !valid_hex(encrypted_tally_hex@) || !valid_hex(
            decryption_key_hex@,
        ),
        r == Result::<(Vec<u8>, Vec<u8>), TallyError>::Err(TallyError::KeyLength) <==> valid_hex(
            encrypted_tally_hex@,
        ) && valid_hex(decryption_key_hex@) && decryption_key_hex@.len() != KEY_HEX_LEN,
{
    let tally = match hex_decode(encrypted_tally_hex) {
        Ok(v) => v,
        Err(e) => {
            return Err(TallyError::Hex(e));
        },
    };
    let key = match hex_decode(decryption_key_hex) {
        Ok(v) => v,
        Err(e) => {
            return Err(TallyError::Hex(e));
        },
    };
    if key.len() != 32 {
        return Err(TallyError::KeyLength);
    }
    Ok((tally, key))
}

/// The JSON object the command prints: the tally state and the share, both
/// re-encoded as lowercase hexadecimal.
pub open spec fn tally_output_json(state: Seq<u8>, share: Seq<u8>) -> Seq<char> {
    "{\"state\":\""@ + hex_of(state) + "\",\"share\":\""@ + hex_of(share) + "\"}"@
}

/// Renders the command's output object for the state and share bytes the
/// vote cryptography produced.
pub fn format_output(state: &Vec<u8>, share: &Vec<u8>) -> (r: String)
    ensures
        r@ == tally_output_json(state@, share@),
{
    let mut out: String = "{\"state\":\"".to_owned();
    let state_hex = hex_encode(state);
    out.append(state_hex.as_str());
    out.append("\",\"share\":\"");
    let share_hex = hex_encode(share);
    out.append(share_hex.as_str());
    out.append("\"}");
    proof {
        assert(out@ =~= tally_output_json(state@, share@));
    }
    out
}

} // verus!
