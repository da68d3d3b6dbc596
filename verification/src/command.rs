//! The sub-commands of a batch: what each one sends and how the probe's
//! answer to it is read.

use vstd::prelude::*;
use crate::error::ProbeCreationError;
use crate::transfer::{
    decode_transfer, encode_transfer, lemma_ops_wire_len, transfer_reply, transfer_request,
    RegisterOp, TransferReply, TransferValue,
};
use crate::wire::{
    le_bytes, push_le, ID_CONNECT, ID_INFO, ID_SWJ_CLOCK, ID_SWJ_SEQUENCE, PAYLOAD_LEN,
    STATUS_OK,
};

verus! {

/// Information query: the vendor's name.
pub const INFO_VENDOR: u8 = 0x01;

/// Information query: the product's name.
pub const INFO_PRODUCT: u8 = 0x02;

/// Information query: the serial number.
pub const INFO_SERIAL_NUMBER: u8 = 0x03;

/// Information query: the version of the protocol firmware.
pub const INFO_FIRMWARE_VERSION: u8 = 0x04;

/// Information query: the vendor of the target device.
pub const INFO_DEVICE_VENDOR: u8 = 0x05;

/// Information query: the name of the target device.
pub const INFO_DEVICE_NAME: u8 = 0x06;

/// Information query: the vendor of the board.
pub const INFO_BOARD_VENDOR: u8 = 0x07;

/// Information query: the name of the board.
pub const INFO_BOARD_NAME: u8 = 0x08;

/// Information query: the version of the product firmware.
pub const INFO_PRODUCT_FIRMWARE_VERSION: u8 = 0x09;

/// Connect request: serial wire debug.
pub const WIRE_MODE_SWD: u8 = 0x01;

/// Connect request: JTAG.
pub const WIRE_MODE_JTAG: u8 = 0x02;

/// One sub-command of a batch.
#[derive(Debug, Clone, PartialEq, Eq)]
pub enum SubCommandSpec {
    /// Asks for the piece of information with the given id.
    Info(u8),
    /// Connects the probe to the target in the given wire mode.
    Connect(u8),
    /// Sets the clock of the debug wires to the given frequency in hertz.
    SetClock(u32),
    /// Sends the given number of bits, taken from the pattern bytes, least
    /// significant bit of the first byte first.
    RawSequence(u8, Vec<u8>),
    /// Carries out the register operations in order.
    Transfer(Vec<RegisterOp>),
}

/// The mathematical content of a [`SubCommandSpec`].
pub enum SubCommandValue {
    Info(u8),
    Connect(u8),
    SetClock(u32),
    RawSequence(u8, Seq<u8>),
    Transfer(Seq<RegisterOp>),
}

impl View for SubCommandSpec {
    type V = SubCommandValue;

    open spec fn view(&self) -> SubCommandValue {
        match self {
            SubCommandSpec::Info(id) => SubCommandValue::Info(*id),
            SubCommandSpec::Connect(mode) => SubCommandValue::Connect(*mode),
            SubCommandSpec::SetClock(hz) => SubCommandValue::SetClock(*hz),
            SubCommandSpec::RawSequence(bits, pattern) => SubCommandValue::RawSequence(
                *bits,
                pattern@,
            ),
            SubCommandSpec::Transfer(ops) => SubCommandValue::Transfer(ops@),
        }
    }
}

/// What the probe answered to one sub-command.
#[derive(Debug, Clone, PartialEq, Eq)]
pub enum Decoded {
    /// The text of an information query, without its terminating zero.
    Info(Vec<u8>),
    /// The wire mode in which the probe connected.
    Connect(u8),
    /// The clock was set.
    SetClock,
    /// The bit sequence was sent.
    RawSequence,
    /// The outcome of a register transfer.
    Transfer(TransferReply),
}

/// The mathematical content of a [`Decoded`].
pub enum DecodedValue {
    Info(Seq<u8>),
    Connect(u8),
    SetClock,
    RawSequence,
    Transfer(TransferValue),
}

impl View for Decoded {
    type V = DecodedValue;

    open spec fn view(&self) -> DecodedValue {
        match self {
            Decoded::Info(text) => DecodedValue::Info(text@),
            Decoded::Connect(mode) => DecodedValue::Connect(*mode),
            Decoded::SetClock => DecodedValue::SetClock,
            Decoded::RawSequence => DecodedValue::RawSequence,
            Decoded::Transfer(reply) => DecodedValue::Transfer(reply@),
        }
    }
}

/// The answer to an information query: the command id, the length of the
/// text, and the text, whose last byte is zero unless the text is empty.
pub open spec fn info_reply(bytes: Seq<u8>) -> Result<(DecodedValue, nat), ProbeCreationError> {
    if bytes.len() == 0 {
        Err(ProbeCreationError::TruncatedResponse)
    } else if bytes[0] != ID_INFO {
        Err(ProbeCreationError::ProtocolMismatch)
    } else if bytes.len() < 2 || bytes.len() < 2 + bytes[1] {
        Err(ProbeCreationError::TruncatedResponse)
    } else if bytes[1] == 0 {
        Ok((DecodedValue::Info(Seq::empty()), 2))
    } else if bytes[1 + bytes[1]] != 0 {
        Err(ProbeCreationError::ProtocolMismatch)
    } else {
        Ok((DecodedValue::Info(bytes.subrange(2, 1 + bytes[1])), (2 + bytes[1]) as nat))
    }
}

/// The answer to a command that is acknowledged with one byte: the command
/// id, then the byte, which must be `expected`.
pub open spec fn echo_reply(id: u8, expected: u8, bytes: Seq<u8>) -> Result<
    nat,
    ProbeCreationError,
> {
    if bytes.len() == 0 {
        Err(ProbeCreationError::TruncatedResponse)
    } else if bytes[0] != id {
        Err(ProbeCreationError::ProtocolMismatch)
    } else if bytes.len() < 2 {
        Err(ProbeCreationError::TruncatedResponse)
    } else if bytes[1] != expected {
        Err(ProbeCreationError::ProtocolMismatch)
    } else {
        Ok(2)
    }
}

/// Carries the value of a decoded acknowledgement.
pub open spec fn acknowledged(r: Result<nat, ProbeCreationError>, value: DecodedValue) -> Result<
    (DecodedValue, nat),
    ProbeCreationError,
> {
    match r {
        Ok(used) => Ok((value, used)),
        Err(e) => Err(e),
    }
}

/// Carries the value of a decoded transfer.
pub open spec fn transferred(r: Result<(TransferValue, nat), ProbeCreationError>) -> Result<
    (DecodedValue, nat),
    ProbeCreationError,
> {
    match r {
        Ok((value, used)) => Ok((DecodedValue::Transfer(value), used)),
        Err(e) => Err(e),
    }
}

impl SubCommandValue {
    /// The bytes that the sub-command contributes to the request packet.
    pub open spec fn wire(self) -> Seq<u8> {
        match self {
            SubCommandValue::Info(id) => seq![ID_INFO, id],
            SubCommandValue::Connect(mode) => seq![ID_CONNECT, mode],
            SubCommandValue::SetClock(hz) => seq![ID_SWJ_CLOCK] + le_bytes(hz),
            SubCommandValue::RawSequence(bits, pattern) => seq![ID_SWJ_SEQUENCE, bits] + pattern,
            SubCommandValue::Transfer(ops) => transfer_request(ops),
        }
    }

    /// What the sub-command makes of the response bytes that start at its
    /// slot: the decoded value and the number of bytes consumed, or the
    /// reason for which the bytes cannot be its answer.
    pub open spec fn reply(self, bytes: Seq<u8>) -> Result<(DecodedValue, nat), ProbeCreationError> {
        match self {
            SubCommandValue::Info(_) => info_reply(bytes),
            SubCommandValue::Connect(mode) => acknowledged(
                echo_reply(ID_CONNECT, mode, bytes),
                DecodedValue::Connect(mode),
            ),
            SubCommandValue::SetClock(_) => acknowledged(
                echo_reply(ID_SWJ_CLOCK, STATUS_OK, bytes),
                DecodedValue::SetClock,
            ),
            SubCommandValue::RawSequence(_, _) => acknowledged(
                echo_reply(ID_SWJ_SEQUENCE, STATUS_OK, bytes),
                DecodedValue::RawSequence,
            ),
            SubCommandValue::Transfer(ops) => transferred(transfer_reply(ops, bytes)),
        }
    }
}

/// The bits that switch the target's debug port from JTAG to serial wire
/// debug: 56 ones, then the 16-bit switch code 0xE79E, low byte first.
pub open spec fn jtag_to_swd_pattern() -> Seq<u8> {
    seq![0xFFu8, 0xFFu8, 0xFFu8, 0xFFu8, 0xFFu8, 0xFFu8, 0xFFu8, 0x9Eu8, 0xE7u8]
}

/// The bits of a line reset: 56 ones.
pub open spec fn line_reset_pattern() -> Seq<u8> {
    seq![0xFFu8, 0xFFu8, 0xFFu8, 0xFFu8, 0xFFu8, 0xFFu8, 0xFFu8]
}

/// Every answer that a sub-command accepts takes at least two bytes and no
/// more than the bytes it was given.
pub proof fn lemma_reply_within(command: SubCommandValue, bytes: Seq<u8>)
    ensures
        command.reply(bytes) matches Ok((_, used)) ==> 2 <= used <= bytes.len(),
{
}

impl SubCommandSpec {
    /// The sequence of 72 bits that switches the target from JTAG to serial
    /// wire debug.
    pub fn jtag_to_swd() -> (spec: SubCommandSpec)
        ensures
            spec@ == SubCommandValue::RawSequence(72, jtag_to_swd_pattern()),
    {
        SubCommandSpec::RawSequence(72, vec![0xFF, 0xFF, 0xFF, 0xFF, 0xFF, 0xFF, 0xFF, 0x9E, 0xE7])
    }

    /// The sequence of 56 one-bits that resets the serial wire line.
    pub fn line_reset() -> (spec: SubCommandSpec)
        ensures
            spec@ == SubCommandValue::RawSequence(56, line_reset_pattern()),
    {
        SubCommandSpec::RawSequence(56, vec![0xFF, 0xFF, 0xFF, 0xFF, 0xFF, 0xFF, 0xFF])
    }

    /// The request bytes of the sub-command, or `BatchTooLarge` where they
    /// are more than the payload of a packet can hold.
    pub fn encode(&self) -> (r: Result<Vec<u8>, ProbeCreationError>)
        ensures
            match r {
                Ok(bytes) => bytes@ == self@.wire() && self@.wire().len() <= PAYLOAD_LEN,
                Err(e) => e == ProbeCreationError::BatchTooLarge && self@.wire().len()
                    > PAYLOAD_LEN,
            },
    {
        let mut out: Vec<u8> = Vec::new();
        match self {
            SubCommandSpec::Info(id) => {
                out.push(ID_INFO);
                out.push(*id);
            },
            SubCommandSpec::Connect(mode) => {
                out.push(ID_CONNECT);
                out.push(*mode);
            },
            SubCommandSpec::SetClock(hz) => {
                out.push(ID_SWJ_CLOCK);
                push_le(&mut out, *hz);
            },
            SubCommandSpec::RawSequence(bits, pattern) => {
                if pattern.len() > PAYLOAD_LEN - 2 {
                    return Err(ProbeCreationError::BatchTooLarge);
                }
                out.push(ID_SWJ_SEQUENCE);
                out.push(*bits);
                out.extend_from_slice(pattern.as_slice());
            },
            SubCommandSpec::Transfer(ops) => {
                proof {
                    lemma_ops_wire_len(ops@);
                }
                if ops.len() > PAYLOAD_LEN - 3 {
                    return Err(ProbeCreationError::BatchTooLarge);
                }
                encode_transfer(ops, &mut out);
                if out.len() > PAYLOAD_LEN {
                    return Err(ProbeCreationError::BatchTooLarge);
                }
            },
        }
        Ok(out)
    }

    /// Reads the probe's answer to the sub-command from the response bytes
    /// that start at its slot. Returns the decoded value and the number of
    /// bytes consumed, which never exceeds the bytes given.
    pub fn decode(&self, bytes: &[u8]) -> (r: Result<(Decoded, usize), ProbeCreationError>)
        ensures
            match r {
                Ok((value, used)) => self@.reply(bytes@) == Ok::<
                    (DecodedValue, nat),
                    ProbeCreationError,
                >((value@, used as nat)) && used <= bytes@.len(),
                Err(e) => self@.reply(bytes@) == Err::<(DecodedValue, nat), ProbeCreationError>(
                    e,
                ),
            },
    {
        match self {
            SubCommandSpec::Info(_) => decode_info(bytes),
            SubCommandSpec::Connect(mode) => match decode_echo(ID_CONNECT, *mode, bytes) {
                Ok(used) => Ok((Decoded::Connect(*mode), used)),
                Err(e) => Err(e),
            },
            SubCommandSpec::SetClock(_) => match decode_echo(ID_SWJ_CLOCK, STATUS_OK, bytes) {
                Ok(used) => Ok((Decoded::SetClock, used)),
                Err(e) => Err(e),
            },
            SubCommandSpec::RawSequence(_, _) => match decode_echo(
                ID_SWJ_SEQUENCE,
                STATUS_OK,
                bytes,
            ) {
                Ok(used) => Ok((Decoded::RawSequence, used)),
                Err(e) => Err(e),
            },
            SubCommandSpec::Transfer(ops) => match decode_transfer(ops, bytes) {
                Ok((reply, used)) => Ok((Decoded::Transfer(reply), used)),
                Err(e) => Err(e),
            },
        }
    }
}

/// Reads the answer to an information query.
pub fn decode_info(bytes: &[u8]) -> (r: Result<(Decoded, usize), ProbeCreationError>)
    ensures
        match r {
            Ok((value, used)) => info_reply(bytes@) == Ok::<
                (DecodedValue, nat),
                ProbeCreationError,
            >((value@, used as nat)) && used <= bytes@.len(),
            Err(e) => info_reply(bytes@) == Err::<(DecodedValue, nat), ProbeCreationError>(e),
        },
{
    if bytes.len() == 0 {
        return Err(ProbeCreationError::TruncatedResponse);
    }
    if bytes[0] != ID_INFO {
        return Err(ProbeCreationError::ProtocolMismatch);
    }
    if bytes.len() < 2 {
        return Err(ProbeCreationError::TruncatedResponse);
    }
    let len: usize = bytes[1] as usize;
    if bytes.len() < 2 + len {
        return Err(ProbeCreationError::TruncatedResponse);
    }
    let mut text: Vec<u8> = Vec::new();
    if len == 0 {
        return Ok((Decoded::Info(text), 2));
    }
    if bytes[1 + len] != 0 {
        return Err(ProbeCreationError::ProtocolMismatch);
    }
    let mut i: usize = 2;
    while i < 1 + len
        invariant
            len <= 255,
            2 <= i <= 1 + len,
            2 + len <= bytes@.len(),
            text@ == bytes@.subrange(2, i as int),
        decreases 1 + len - i,
    {
        text.push(bytes[i]);
        i = i + 1;
    }
    Ok((Decoded::Info(text), 2 + len))
}

/// Reads an acknowledgement of one byte.
pub fn decode_echo(id: u8, expected: u8, bytes: &[u8]) -> (r: Result<usize, ProbeCreationError>)
    ensures
        match r {
            Ok(used) => echo_reply(id, expected, bytes@) == Ok::<nat, ProbeCreationError>(
                used as nat,
            ) && used <= bytes@.len(),
            Err(e) => echo_reply(id, expected, bytes@) == Err::<nat, ProbeCreationError>(e),
        },
{
    if bytes.len() == 0 {
        return Err(ProbeCreationError::TruncatedResponse);
    }
    if bytes[0] != id {
        return Err(ProbeCreationError::ProtocolMismatch);
    }
    if bytes.len() < 2 {
        return Err(ProbeCreationError::TruncatedResponse);
    }
    if bytes[1] != expected {
        return Err(ProbeCreationError::ProtocolMismatch);
    }
    Ok(2)
}

} // verus!
