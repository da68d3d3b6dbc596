//! Constants of the wire format and the little-endian encoding of words.

use vstd::prelude::*;
use vstd::arithmetic::div_mod::lemma_fundamental_div_mod_converse;

verus! {

/// Length of every packet, in both directions.
pub const PACKET_LEN: usize = 64;

/// Bytes of a packet that are left for sub-commands after the two header
/// bytes.
pub const PAYLOAD_LEN: usize = 62;

/// Command id of an information query.
pub const ID_INFO: u8 = 0x00;

/// Command id of a connect request.
pub const ID_CONNECT: u8 = 0x02;

/// Command id of a register transfer.
pub const ID_TRANSFER: u8 = 0x05;

/// Command id that sets the clock of the debug wires.
pub const ID_SWJ_CLOCK: u8 = 0x11;

/// Command id that sends a raw bit sequence on the debug wires.
pub const ID_SWJ_SEQUENCE: u8 = 0x12;

/// Command id that queues a batch of sub-commands.
pub const ID_QUEUE_COMMANDS: u8 = 0x7E;

/// Command id that executes a batch of sub-commands.
pub const ID_EXECUTE_COMMANDS: u8 = 0x7F;

/// Status byte with which the probe acknowledges a command.
pub const STATUS_OK: u8 = 0x00;

/// Status byte of a register transfer in which every operation was
/// acknowledged.
pub const TRANSFER_OK: u8 = 0x01;

/// The four bytes of a word, least significant first.
pub open spec fn le_bytes(v: u32) -> Seq<u8> {
    seq![
        (v % 256) as u8,
        (v / 256 % 256) as u8,
        (v / 65536 % 256) as u8,
        (v / 16777216) as u8,
    ]
}

/// The word that four bytes spell, least significant first.
pub open spec fn le_value(b: Seq<u8>) -> u32
    recommends
        b.len() == 4,
{
    (b[0] + 256 * b[1] + 65536 * b[2] + 16777216 * b[3]) as u32
}

/// Decoding the bytes of a word gives the word back.
pub proof fn lemma_le_value_of_bytes(v: u32)
    ensures
        le_bytes(v).len() == 4,
        le_value(le_bytes(v)) == v,
{
}

/// Encoding the word that four bytes spell gives the four bytes back.
pub proof fn lemma_le_bytes_of_value(b: Seq<u8>)
    requires
        b.len() == 4,
    ensures
        le_bytes(le_value(b)) == b,
{
    let b0 = b[0] as int;
    let b1 = b[1] as int;
    let b2 = b[2] as int;
    let b3 = b[3] as int;
    let x = b0 + 256 * b1 + 65536 * b2 + 16777216 * b3;
    assert(le_value(b) == x);
    lemma_fundamental_div_mod_converse(x, 256, b1 + 256 * b2 + 65536 * b3, b0);
    lemma_fundamental_div_mod_converse(x / 256, 256, b2 + 256 * b3, b1);
    lemma_fundamental_div_mod_converse(x, 65536, b2 + 256 * b3, b0 + 256 * b1);
    lemma_fundamental_div_mod_converse(x / 65536, 256, b3, b2);
    lemma_fundamental_div_mod_converse(x, 16777216, b3, b0 + 256 * b1 + 65536 * b2);
    assert(le_bytes(le_value(b)) =~= b);
}

/// Appends the four bytes of `v` to `out`, least significant first.
pub fn push_le(out: &mut Vec<u8>, v: u32)
    ensures
        final(out)@ == old(out)@ + le_bytes(v),
{
    out.push((v % 256) as u8);
    out.push((v / 256 % 256) as u8);
    out.push((v / 65536 % 256) as u8);
    out.push((v / 16777216) as u8);
}

/// Reads the word that starts at index `at`, or nothing where fewer than
/// four bytes follow.
pub fn le_u32(bytes: &[u8], at: usize) -> (r: Option<u32>)
    ensures
        match r {
            Some(v) => at + 4 <= bytes@.len() && v == le_value(
                bytes@.subrange(at as int, at + 4),
            ),
            None => at + 4 > bytes@.len(),
        },
{
    if bytes.len() < 4 || at > bytes.len() - 4 {
        return None;
    }
    let b0: u32 = bytes[at] as u32;
    let b1: u32 = bytes[at + 1] as u32;
    let b2: u32 = bytes[at + 2] as u32;
    let b3: u32 = bytes[at + 3] as u32;
    Some(b0 + 256 * b1 + 65536 * b2 + 16777216 * b3)
}

} // verus!
