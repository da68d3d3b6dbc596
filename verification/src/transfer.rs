//! Register operations and the transfer sub-command that carries them.

use vstd::prelude::*;
use crate::error::ProbeCreationError;
use crate::wire::{le_bytes, le_u32, le_value, push_le, ID_TRANSFER, TRANSFER_OK};

verus! {

/// The register space that an operation addresses.
#[derive(Debug, Clone, Copy, PartialEq, Eq, Structural)]
pub enum Target {
    /// The debug port itself.
    DebugPort,
    /// The access port that the debug port's select register names.
    AccessPort,
}

/// The two address bits of a register: its byte offset within the bank.
#[derive(Debug, Clone, Copy, PartialEq, Eq, Structural)]
pub enum RegisterAddress {
    /// Offset 0x0: `IDCODE` (read) and `ABORT` (write) of the debug port,
    /// the control/status word of a memory access port.
    A0,
    /// Offset 0x4: `CTRL/STAT` of the debug port, the transfer address of a
    /// memory access port.
    A4,
    /// Offset 0x8: `SELECT` of the debug port.
    A8,
    /// Offset 0xC: the read buffer of the debug port, the data register of a
    /// memory access port and, in bank 0xF, its identification register.
    AC,
}

/// What an operation does to its register.
#[derive(Debug, Clone, Copy, PartialEq, Eq, Structural)]
pub enum Access {
    /// Read the register; the probe answers with its value.
    Read,
    /// Write the given value to the register.
    Write(u32),
}

/// One register access inside a transfer.
#[derive(Debug, Clone, Copy, PartialEq, Eq, Structural)]
pub struct RegisterOp {
    pub target: Target,
    pub address: RegisterAddress,
    pub access: Access,
}

/// What the probe answered to a transfer.
#[derive(Debug, Clone, PartialEq, Eq)]
pub struct TransferReply {
    /// Number of operations that were asked for.
    pub requested: usize,
    /// Number of operations that the probe carried out.
    pub completed: u8,
    /// Status of the last operation that the probe attempted.
    pub status: u8,
    /// Values of the reads among the completed operations, in request order.
    pub values: Vec<u32>,
}

/// The mathematical content of a [`TransferReply`].
pub struct TransferValue {
    pub requested: nat,
    pub completed: u8,
    pub status: u8,
    pub values: Seq<u32>,
}

impl RegisterAddress {
    /// The value of the two address bits.
    pub open spec fn field(self) -> nat {
        match self {
            RegisterAddress::A0 => 0,
            RegisterAddress::A4 => 1,
            RegisterAddress::A8 => 2,
            RegisterAddress::AC => 3,
        }
    }
}

impl RegisterOp {
    /// The read of the given register.
    pub open spec fn reading(target: Target, address: RegisterAddress) -> RegisterOp {
        RegisterOp { target, address, access: Access::Read }
    }

    /// The write of `value` to the given register.
    pub open spec fn writing(target: Target, address: RegisterAddress, value: u32) -> RegisterOp {
        RegisterOp { target, address, access: Access::Write(value) }
    }

    /// A read of the given register.
    pub fn read(target: Target, address: RegisterAddress) -> (op: RegisterOp)
        ensures
            op == Self::reading(target, address),
    {
        RegisterOp { target, address, access: Access::Read }
    }

    /// A write of `value` to the given register.
    pub fn write(target: Target, address: RegisterAddress, value: u32) -> (op: RegisterOp)
        ensures
            op == Self::writing(target, address, value),
    {
        RegisterOp { target, address, access: Access::Write(value) }
    }

    /// Whether the operation reads.
    pub open spec fn is_read(self) -> bool {
        self.access is Read
    }

    /// The selector byte: bit 0 tells an access port from the debug port,
    /// bit 1 a read from a write, bits 2 and 3 hold the register address.
    pub open spec fn selector(self) -> u8 {
        ((if self.target is AccessPort { 1int } else { 0int })
            + (if self.is_read() { 2int } else { 0int })
            + 4 * self.address.field()) as u8
    }

    /// The operation as the request carries it: the selector byte and, for a
    /// write, the value in little-endian order.
    pub open spec fn wire(self) -> Seq<u8> {
        match self.access {
            Access::Read => seq![self.selector()],
            Access::Write(value) => seq![self.selector()] + le_bytes(value),
        }
    }

    /// Computes the selector byte.
    pub fn to_selector(&self) -> (b: u8)
        ensures
            b == self.selector(),
    {
        let port: u8 = match self.target {
            Target::DebugPort => 0,
            Target::AccessPort => 1,
        };
        let direction: u8 = match self.access {
            Access::Read => 2,
            Access::Write(_) => 0,
        };
        let address: u8 = match self.address {
            RegisterAddress::A0 => 0,
            RegisterAddress::A4 => 4,
            RegisterAddress::A8 => 8,
            RegisterAddress::AC => 12,
        };
        port + direction + address
    }

    /// Appends the operation's request bytes to `out`.
    pub fn encode_into(&self, out: &mut Vec<u8>)
        ensures
            final(out)@ == old(out)@ + self.wire(),
    {
        out.push(self.to_selector());
        match self.access {
            Access::Read => {},
            Access::Write(value) => {
                push_le(out, value);
            },
        }
    }
}

/// The request bytes of a list of operations, one after the other.
pub open spec fn ops_wire(ops: Seq<RegisterOp>) -> Seq<u8>
    decreases ops.len(),
{
    if ops.len() == 0 {
        Seq::empty()
    } else {
        ops_wire(ops.drop_last()) + ops.last().wire()
    }
}

/// The number of reads in a list of operations.
pub open spec fn reads_in(ops: Seq<RegisterOp>) -> nat
    decreases ops.len(),
{
    if ops.len() == 0 {
        0
    } else {
        reads_in(ops.drop_last()) + (if ops.last().is_read() { 1nat } else { 0nat })
    }
}

/// The request of a transfer: command id, index of the debug access port
/// (always 0), number of operations, then the operations.
pub open spec fn transfer_request(ops: Seq<RegisterOp>) -> Seq<u8> {
    seq![ID_TRANSFER, 0u8, ops.len() as u8] + ops_wire(ops)
}

/// The first `count` words that follow the three header bytes of a transfer
/// response.
pub open spec fn read_values(bytes: Seq<u8>, count: nat) -> Seq<u32> {
    Seq::new(count, |j: int| le_value(bytes.subrange(3 + 4 * j, 7 + 4 * j)))
}

/// The operations that a reported count of completed operations covers:
/// the first `count` of them, and all of them where the count is larger.
pub open spec fn completed_ops(ops: Seq<RegisterOp>, count: u8) -> Seq<RegisterOp> {
    if count <= ops.len() {
        ops.take(count as int)
    } else {
        ops
    }
}

/// What a transfer of `ops` makes of the response bytes that start at its
/// slot, and how many of them it consumes. The response holds the command
/// id, the number of completed operations, the status, and one word for
/// each read among the completed operations. A count or status that shows
/// the transfer unfinished does not fail the decoding.
pub open spec fn transfer_reply(ops: Seq<RegisterOp>, bytes: Seq<u8>) -> Result<
    (TransferValue, nat),
    ProbeCreationError,
> {
    if bytes.len() == 0 {
        Err(ProbeCreationError::TruncatedResponse)
    } else if bytes[0] != ID_TRANSFER {
        Err(ProbeCreationError::ProtocolMismatch)
    } else if bytes.len() < 3 {
        Err(ProbeCreationError::TruncatedResponse)
    } else {
        let reads = reads_in(completed_ops(ops, bytes[1]));
        if bytes.len() < 3 + 4 * reads {
            Err(ProbeCreationError::TruncatedResponse)
        } else {
            Ok(
                (
                    TransferValue {
                        requested: ops.len(),
                        completed: bytes[1],
                        status: bytes[2],
                        values: read_values(bytes, reads),
                    },
                    3 + 4 * reads,
                ),
            )
        }
    }
}

/// A transfer whose count or status shows it unfinished is still decoded:
/// the reply is marked incomplete and holds the value of every read among
/// the operations that were completed, in request order.
pub proof fn lemma_incomplete_transfer_keeps_values(ops: Seq<RegisterOp>, bytes: Seq<u8>)
    requires
        bytes.len() >= 3,
        bytes[0] == ID_TRANSFER,
        bytes[1] != ops.len() || bytes[2] != TRANSFER_OK,
        bytes.len() >= 3 + 4 * reads_in(completed_ops(ops, bytes[1])),
    ensures
        transfer_reply(ops, bytes) matches Ok((reply, used)) && {
            &&& !reply.is_complete()
            &&& reply.values.len() == reads_in(completed_ops(ops, bytes[1]))
            &&& forall|j: int|
                0 <= j < reply.values.len() ==> #[trigger] reply.values[j] == le_value(
                    bytes.subrange(3 + 4 * j, 7 + 4 * j),
                )
            &&& used == 3 + 4 * reply.values.len()
        },
{
}

/// Every operation takes at least its selector byte and at most five bytes.
pub proof fn lemma_ops_wire_len(ops: Seq<RegisterOp>)
    ensures
        ops.len() <= ops_wire(ops).len() <= 5 * ops.len(),
    decreases ops.len(),
{
    if ops.len() > 0 {
        lemma_ops_wire_len(ops.drop_last());
    }
}

/// The selector byte tells the operations apart: two operations with the
/// same selector address the same register in the same direction.
pub proof fn lemma_selector_distinct(a: RegisterOp, b: RegisterOp)
    requires
        a.selector() == b.selector(),
    ensures
        a.target == b.target,
        a.address == b.address,
        a.is_read() == b.is_read(),
{
}

impl View for TransferReply {
    type V = TransferValue;

    open spec fn view(&self) -> TransferValue {
        TransferValue {
            requested: self.requested as nat,
            completed: self.completed,
            status: self.status,
            values: self.values@,
        }
    }
}

impl TransferValue {
    /// Whether every requested operation was carried out and acknowledged.
    pub open spec fn is_complete(self) -> bool {
        self.completed == self.requested && self.status == TRANSFER_OK
    }
}

impl TransferReply {
    /// Whether every requested operation was carried out and acknowledged.
    pub fn is_complete(&self) -> (b: bool)
        ensures
            b == self@.is_complete(),
    {
        self.completed as usize == self.requested && self.status == TRANSFER_OK
    }

    /// The condition to report with the reply: `TransferIncomplete` unless
    /// the transfer is complete. The values that were read stay in the
    /// reply either way.
    pub fn condition(&self) -> (c: Option<ProbeCreationError>)
        ensures
            c == if self@.is_complete() {
                None
            } else {
                Some(ProbeCreationError::TransferIncomplete)
            },
    {
        if self.is_complete() {
            None
        } else {
            Some(ProbeCreationError::TransferIncomplete)
        }
    }
}

/// Appends the request of a transfer of `ops` to `out`.
pub fn encode_transfer(ops: &Vec<RegisterOp>, out: &mut Vec<u8>)
    requires
        ops.len() <= 255,
    ensures
        final(out)@ == old(out)@ + transfer_request(ops@),
{
    out.push(ID_TRANSFER);
    out.push(0);
    out.push(ops.len() as u8);
    let mut i: usize = 0;
    while i < ops.len()
        invariant
            i <= ops.len(),
            ops.len() <= 255,
            out@ == old(out)@ + seq![ID_TRANSFER, 0u8, ops.len() as u8] + ops_wire(ops@.take(i as int)),
        decreases ops.len() - i,
    {
        ops[i].encode_into(out);
        proof {
            assert(ops@.take(i + 1).drop_last() == ops@.take(i as int));
        }
        i = i + 1;
    }
    proof {
        assert(ops@.take(ops.len() as int) == ops@);
    }
}

/// Decodes the response to a transfer of `ops` from the bytes that start at
/// its slot.
pub fn decode_transfer(ops: &Vec<RegisterOp>, bytes: &[u8]) -> (r: Result<
    (TransferReply, usize),
    ProbeCreationError,
>)
    ensures
        match r {
            Ok((reply, used)) => transfer_reply(ops@, bytes@) == Ok::<
                (TransferValue, nat),
                ProbeCreationError,
            >((reply@, used as nat)) && used <= bytes@.len(),
            Err(e) => transfer_reply(ops@, bytes@) == Err::<
                (TransferValue, nat),
                ProbeCreationError,
            >(e),
        },
{
    if bytes.len() == 0 {
        return Err(ProbeCreationError::TruncatedResponse);
    }
    if bytes[0] != ID_TRANSFER {
        return Err(ProbeCreationError::ProtocolMismatch);
    }
    if bytes.len() < 3 {
        return Err(ProbeCreationError::TruncatedResponse);
    }
    let completed: u8 = bytes[1];
    let status: u8 = bytes[2];
    let done: usize = if completed as usize > ops.len() {
        ops.len()
    } else {
        completed as usize
    };
    let mut reads: usize = 0;
    let mut i: usize = 0;
    while i < done
        invariant
            i <= done <= ops.len(),
            done <= 255,
            reads == reads_in(ops@.take(i as int)),
            reads <= i,
        decreases done - i,
    {
        proof {
            assert(ops@.take(i + 1).drop_last() == ops@.take(i as int));
        }
        match ops[i].access {
            Access::Read => {
                reads = reads + 1;
            },
            Access::Write(_) => {},
        }
        i = i + 1;
    }
    proof {
        assert(ops@.take(ops.len() as int) == ops@);
        assert(ops@.take(done as int) == completed_ops(ops@, completed));
    }
    if bytes.len() < 3 + 4 * reads {
        return Err(ProbeCreationError::TruncatedResponse);
    }
    let mut values: Vec<u32> = Vec::new();
    let mut j: usize = 0;
    while j < reads
        invariant
            j <= reads <= 255,
            3 + 4 * reads <= bytes@.len(),
            values@ == read_values(bytes@, j as nat),
        decreases reads - j,
    {
        match le_u32(bytes, 3 + 4 * j) {
            Some(v) => {
                values.push(v);
            },
            None => {
                return Err(ProbeCreationError::TruncatedResponse);
            },
        }
        j = j + 1;
    }
    Ok((TransferReply { requested: ops.len(), completed, status, values }, 3 + 4 * reads))
}

} // verus!
