//! Fleet-wide settings received over the network.

use vstd::prelude::*;

verus! {

/// Longest OTA server address, in bytes.
pub const OTA_SERVER_MAX_LEN: usize = 96;

/// The bytes of an OTA server address.
pub uninterp spec fn server_bytes(server: &heapless::String<96>) -> Seq<u8>;

/// `heapless::String::as_bytes`, by way of `str`: the contents as UTF-8 bytes.
#[verifier::external_body]
fn address_bytes(server: &heapless::String<96>) -> (bytes: &[u8])
    ensures
        bytes@ == server_bytes(server),
{
    server.as_bytes()
}

/// Fleet-wide OTA endpoint.
///
/// `server` is the authority portion used in an HTTP URL, for example `192.168.8.1` or
/// `ota.local:8787`.
#[derive(Debug)]
pub struct OtaConfiguration {
    pub server: heapless::String<96>,
}

/// Whether a byte cannot stand in an HTTP authority: ASCII white space, or one of `/`, `#` and `?`.
pub open spec fn is_forbidden(byte: u8) -> bool {
    byte == 0x20 || byte == 0x09 || byte == 0x0A || byte == 0x0C || byte == 0x0D || byte == 0x2F
        || byte == 0x23 || byte == 0x3F
}

impl OtaConfiguration {
    /// Rejects values that cannot be an HTTP authority.
    #[must_use]
    pub fn is_valid(&self) -> (valid: bool)
        ensures
            valid == (server_bytes(&self.server).len() > 0 && forall|i: int|
                0 <= i < server_bytes(&self.server).len() ==> !is_forbidden(
                    #[trigger] server_bytes(&self.server)[i],
                )),
    {
        is_authority(address_bytes(&self.server))
    }
}

/// Whether there is something, and none of its bytes is one that cannot stand in an HTTP authority.
pub fn is_authority(bytes: &[u8]) -> (valid: bool)
    ensures
        valid == (bytes@.len() > 0 && forall|i: int|
            0 <= i < bytes@.len() ==> !is_forbidden(#[trigger] bytes@[i])),
{
    if bytes.len() == 0 {
        return false;
    }
    let mut i: usize = 0;
    while i < bytes.len()
        invariant
            i <= bytes@.len(),
            forall|k: int| 0 <= k < i ==> !is_forbidden(#[trigger] bytes@[k]),
        decreases bytes@.len() - i,
    {
        let byte: u8 = bytes[i];
        if byte == 0x20 || byte == 0x09 || byte == 0x0A || byte == 0x0C || byte == 0x0D || byte
            == 0x2F || byte == 0x23 || byte == 0x3F {
            assert(is_forbidden(bytes@[i as int]));
            return false;
        }
        i = i + 1;
    }
    true
}

/// Of the visible ASCII characters only those that end an authority are forbidden, of the others
/// only the five that separate words; bytes of other characters never are.
pub proof fn only_separators_are_forbidden(byte: u8)
    ensures
        0x21 <= byte <= 0x7E ==> (is_forbidden(byte) <==> byte as char == '/' || byte as char == '#'
            || byte as char == '?'),
        byte <= 0x20 ==> (is_forbidden(byte) <==> byte as char == ' ' || byte as char == '\t'
            || byte as char == '\n' || byte as char == '\r' || byte == 12),
        byte >= 0x7F ==> !is_forbidden(byte),
{
}

} // verus!
