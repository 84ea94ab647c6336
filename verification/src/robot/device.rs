//! A robot's identity.

use vstd::prelude::*;

use crate::storage::record::DEVICE_ID_LEN;

verus! {

/// The uppercase hexadecimal digit of a number below sixteen, in ASCII.
pub open spec fn hex_digit(n: int) -> u8 {
    if n < 10 {
        (0x30 + n) as u8
    } else {
        (0x41 + n - 10) as u8
    }
}

/// The uppercase hexadecimal digit of a number below sixteen, in ASCII.
fn hex(n: u8) -> (digit: u8)
    requires
        n < 16,
    ensures
        digit == hex_digit(n as int),
{
    if n < 10 {
        0x30 + n
    } else {
        0x41 + (n - 10)
    }
}

/// The two uppercase hexadecimal characters of a byte.
pub open spec fn hex_pair(byte: u8) -> Seq<u8> {
    seq![hex_digit(byte as int / 16), hex_digit(byte as int % 16)]
}

/// The device ID of a base MAC address: its three low-order bytes.
pub open spec fn id_of(mac: Seq<u8>) -> Seq<u8> {
    hex_pair(mac[3]) + hex_pair(mac[4]) + hex_pair(mac[5])
}

/// Derives the device ID from a base MAC address: its three low-order bytes as six uppercase
/// hexadecimal characters.
///
/// The three high-order bytes are the manufacturer's, shared by every device in the fleet.
pub fn init(mac: [u8; 6]) -> (id: [u8; DEVICE_ID_LEN])
    ensures
        id@ == id_of(mac@),
{
    let id: [u8; 6] = [
        hex(mac[3] / 16),
        hex(mac[3] % 16),
        hex(mac[4] / 16),
        hex(mac[4] % 16),
        hex(mac[5] / 16),
        hex(mac[5] % 16),
    ];
    assert(id@ =~= id_of(mac@));
    id
}

/// Two devices have the same ID only if the three low-order bytes of their addresses are the same.
pub proof fn ids_tell_devices_apart(a: Seq<u8>, b: Seq<u8>)
    requires
        a.len() == 6,
        b.len() == 6,
        id_of(a) == id_of(b),
    ensures
        a[3] == b[3],
        a[4] == b[4],
        a[5] == b[5],
{
    assert(hex_pair(a[3]) =~= id_of(a).subrange(0, 2));
    assert(hex_pair(b[3]) =~= id_of(b).subrange(0, 2));
    assert(hex_pair(a[4]) =~= id_of(a).subrange(2, 4));
    assert(hex_pair(b[4]) =~= id_of(b).subrange(2, 4));
    assert(hex_pair(a[5]) =~= id_of(a).subrange(4, 6));
    assert(hex_pair(b[5]) =~= id_of(b).subrange(4, 6));
    pairs_tell_bytes_apart(a[3], b[3]);
    pairs_tell_bytes_apart(a[4], b[4]);
    pairs_tell_bytes_apart(a[5], b[5]);
}

/// Different bytes look different.
proof fn pairs_tell_bytes_apart(a: u8, b: u8)
    requires
        hex_pair(a) == hex_pair(b),
    ensures
        a == b,
{
    assert(hex_pair(a)[0] == hex_pair(b)[0] && hex_pair(a)[1] == hex_pair(b)[1]);
}

/// The number an uppercase hexadecimal digit stands for.
pub open spec fn digit_value(digit: u8) -> int {
    if digit < 0x41 {
        digit - 0x30
    } else {
        digit - 0x41 + 10
    }
}

/// An ID is the address's last three bytes in order, each as two digits that read back as the byte,
/// the high one first, and every digit is one of `0` to `9` and `A` to `F`.
pub proof fn ids_read_back(mac: Seq<u8>, i: int)
    requires
        0 <= i < 3,
    ensures
        id_of(mac).len() == 6,
        16 * digit_value(id_of(mac)[2 * i]) + digit_value(id_of(mac)[2 * i + 1]) == mac[3 + i],
        forall|k: int|
            0 <= k < 6 ==> 0x30 <= #[trigger] id_of(mac)[k] <= 0x39 || 0x41 <= id_of(mac)[k]
                <= 0x46,
{
    assert(id_of(mac) =~= seq![
        hex_digit(mac[3] as int / 16),
        hex_digit(mac[3] as int % 16),
        hex_digit(mac[4] as int / 16),
        hex_digit(mac[4] as int % 16),
        hex_digit(mac[5] as int / 16),
        hex_digit(mac[5] as int % 16),
    ]);
}

} // verus!
