//! The command batch: sub-commands gathered into one request packet, and
//! the probe's one response packet read back in the same order.

use vstd::prelude::*;
use vstd::slice::slice_subrange;
use crate::command::{
    lemma_reply_within, Decoded, DecodedValue, SubCommandSpec, SubCommandValue,
};
use crate::error::ProbeCreationError;
use crate::wire::{ID_EXECUTE_COMMANDS, PACKET_LEN, PAYLOAD_LEN};

verus! {

/// The request bytes of a list of sub-commands, one after the other.
pub open spec fn payload_of(specs: Seq<SubCommandValue>) -> Seq<u8>
    decreases specs.len(),
{
    if specs.len() == 0 {
        Seq::empty()
    } else {
        payload_of(specs.drop_last()) + specs.last().wire()
    }
}

/// The request packet of a list of sub-commands: the execute id, the number
/// of sub-commands, their request bytes, and zeros up to the packet length.
pub open spec fn packet_of(specs: Seq<SubCommandValue>) -> Seq<u8> {
    seq![ID_EXECUTE_COMMANDS, specs.len() as u8] + payload_of(specs) + Seq::new(
        (PAYLOAD_LEN - payload_of(specs).len()) as nat,
        |i: int| 0u8,
    )
}

/// The values that the sub-commands read from a response, in order, each
/// from the bytes that follow what the one before it consumed, and the
/// offset behind the last byte consumed. The first sub-command reads from
/// offset 2. The first sub-command that cannot read its answer decides the
/// error.
pub open spec fn replies(specs: Seq<SubCommandValue>, response: Seq<u8>) -> Result<
    (Seq<DecodedValue>, int),
    ProbeCreationError,
>
    decreases specs.len(),
{
    if specs.len() == 0 {
        Ok((Seq::empty(), 2))
    } else {
        match replies(specs.drop_last(), response) {
            Err(e) => Err(e),
            Ok((values, at)) => match specs.last().reply(
                response.subrange(at, response.len() as int),
            ) {
                Err(e) => Err(e),
                Ok((value, used)) => Ok((values.push(value), at + used)),
            },
        }
    }
}

/// What a batch of the given sub-commands makes of a response: the response
/// must start with the execute id and the number of sub-commands, and every
/// sub-command must find its answer in the bytes received.
pub open spec fn decode_outcome(specs: Seq<SubCommandValue>, response: Seq<u8>) -> Result<
    Seq<DecodedValue>,
    ProbeCreationError,
> {
    if response.len() == 0 {
        Err(ProbeCreationError::TruncatedResponse)
    } else if response[0] != ID_EXECUTE_COMMANDS {
        Err(ProbeCreationError::ProtocolMismatch)
    } else if response.len() < 2 {
        Err(ProbeCreationError::TruncatedResponse)
    } else if response[1] != specs.len() {
        Err(ProbeCreationError::ProtocolMismatch)
    } else {
        match replies(specs, response) {
            Err(e) => Err(e),
            Ok((values, _)) => Ok(values),
        }
    }
}

/// The mathematical contents of a list of decoded values.
pub open spec fn values_of(decoded: Seq<Decoded>) -> Seq<DecodedValue> {
    decoded.map_values(|d: Decoded| d@)
}

/// The mathematical contents of a list of sub-commands.
pub open spec fn commands_of(specs: Seq<SubCommandSpec>) -> Seq<SubCommandValue> {
    specs.map_values(|s: SubCommandSpec| s@)
}

/// An ordered list of sub-commands whose request bytes fit into one packet.
#[derive(Debug, Clone)]
pub struct Batch {
    specs: Vec<SubCommandSpec>,
    payload: Vec<u8>,
}

impl View for Batch {
    type V = Seq<SubCommandValue>;

    closed spec fn view(&self) -> Seq<SubCommandValue> {
        commands_of(self.specs@)
    }
}

impl Batch {
    /// The stored request bytes are those of the sub-commands.
    pub closed spec fn payload_kept(&self) -> bool {
        self.payload@ == payload_of(commands_of(self.specs@))
    }

    /// The batch's invariant: its request bytes fit into the payload of one
    /// packet.
    pub open spec fn wf(&self) -> bool {
        &&& self.payload_kept()
        &&& payload_of(self@).len() <= PAYLOAD_LEN
    }

    /// The empty batch.
    pub fn new() -> (batch: Batch)
        ensures
            batch.wf(),
            batch@ == Seq::<SubCommandValue>::empty(),
    {
        let batch = Batch { specs: Vec::new(), payload: Vec::new() };
        proof {
            assert(batch@ =~= Seq::<SubCommandValue>::empty());
        }
        batch
    }

    /// The number of sub-commands in the batch.
    pub fn len(&self) -> (n: usize)
        ensures
            n == self@.len(),
    {
        self.specs.len()
    }

    /// The handle that `append` would hand out next is the number of
    /// sub-commands; it never exceeds 31.
    pub proof fn lemma_count_fits(&self)
        requires
            self.wf(),
        ensures
            self@.len() <= 31,
    {
        lemma_payload_len(self@);
    }

    /// The number of payload bytes that the batch has used.
    pub fn used(&self) -> (n: usize)
        requires
            self.wf(),
        ensures
            n == payload_of(self@).len(),
    {
        self.payload.len()
    }

    /// Adds a sub-command at the end of the batch and returns its handle:
    /// the index of its value in the list that `decode` returns. Fails with
    /// `BatchTooLarge`, and leaves the batch as it was, where the request
    /// bytes would no longer fit into the payload of one packet.
    pub fn append(&mut self, spec: SubCommandSpec) -> (r: Result<usize, ProbeCreationError>)
        requires
            old(self).wf(),
        ensures
            final(self).wf(),
            match r {
                Ok(handle) => {
                    &&& payload_of(old(self)@).len() + spec@.wire().len() <= PAYLOAD_LEN
                    &&& final(self)@ == old(self)@.push(spec@)
                    &&& handle == old(self)@.len()
                },
                Err(e) => {
                    &&& e == ProbeCreationError::BatchTooLarge
                    &&& payload_of(old(self)@).len() + spec@.wire().len() > PAYLOAD_LEN
                    &&& final(self)@ == old(self)@
                },
            },
    {
        let bytes = match spec.encode() {
            Ok(bytes) => bytes,
            Err(e) => {
                return Err(e);
            },
        };
        if bytes.len() > PAYLOAD_LEN - self.payload.len() {
            return Err(ProbeCreationError::BatchTooLarge);
        }
        let handle: usize = self.specs.len();
        self.payload.extend_from_slice(bytes.as_slice());
        self.specs.push(spec);
        proof {
            assert(self@ == old(self)@.push(spec@));
            assert(self@.drop_last() == old(self)@);
            assert(self.payload@ == old(self).payload@ + bytes@);
            assert(payload_of(self@) == payload_of(old(self)@) + spec@.wire());
        }
        Ok(handle)
    }

    /// Builds the request packet.
    pub fn packet(&self) -> (p: Vec<u8>)
        requires
            self.wf(),
        ensures
            p@ == packet_of(self@),
            p@.len() == PACKET_LEN,
    {
        proof {
            lemma_payload_len(self@);
        }
        let mut p: Vec<u8> = Vec::new();
        p.push(ID_EXECUTE_COMMANDS);
        p.push(self.specs.len() as u8);
        p.extend_from_slice(self.payload.as_slice());
        let ghost head = p@;
        while p.len() < PACKET_LEN
            invariant
                head.len() <= p@.len() <= PACKET_LEN,
                p@ == head + Seq::new((p@.len() - head.len()) as nat, |i: int| 0u8),
            decreases PACKET_LEN - p@.len(),
        {
            p.push(0);
        }
        p
    }

    /// Reads the response packet: checks that it echoes the execute id and
    /// the number of sub-commands, then lets every sub-command read its
    /// answer, in submission order, from the bytes that were received.
    pub fn decode(&self, response: &[u8]) -> (r: Result<Vec<Decoded>, ProbeCreationError>)
        requires
            self.wf(),
        ensures
            match r {
                Ok(decoded) => decode_outcome(self@, response@) == Ok::<
                    Seq<DecodedValue>,
                    ProbeCreationError,
                >(values_of(decoded@)) && decoded@.len() == self@.len(),
                Err(e) => decode_outcome(self@, response@) == Err::<
                    Seq<DecodedValue>,
                    ProbeCreationError,
                >(e),
            },
            response@.len() >= 1 && response@[0] != ID_EXECUTE_COMMANDS ==> r == Err::<
                Vec<Decoded>,
                ProbeCreationError,
            >(ProbeCreationError::ProtocolMismatch),
    {
        if response.len() == 0 {
            return Err(ProbeCreationError::TruncatedResponse);
        }
        if response[0] != ID_EXECUTE_COMMANDS {
            return Err(ProbeCreationError::ProtocolMismatch);
        }
        if response.len() < 2 {
            return Err(ProbeCreationError::TruncatedResponse);
        }
        if response[1] as usize != self.specs.len() {
            return Err(ProbeCreationError::ProtocolMismatch);
        }
        let mut decoded: Vec<Decoded> = Vec::new();
        let mut at: usize = 2;
        let mut i: usize = 0;
        proof {
            assert(values_of(decoded@) == Seq::<DecodedValue>::empty());
            assert(self@.take(0).len() == 0);
        }
        while i < self.specs.len()
            invariant
                i <= self.specs.len(),
                2 <= at <= response@.len(),
                decoded@.len() == i,
                response@[0] == ID_EXECUTE_COMMANDS,
                response@[1] == self@.len(),
                self@.len() == self.specs@.len(),
                replies(self@.take(i as int), response@) == Ok::<
                    (Seq<DecodedValue>, int),
                    ProbeCreationError,
                >((values_of(decoded@), at as int)),
            decreases self.specs.len() - i,
        {
            proof {
                assert(self@.take(i + 1).drop_last() == self@.take(i as int));
                assert(self@.take(i + 1).last() == self.specs@[i as int]@);
            }
            let rest = slice_subrange(response, at, response.len());
            match self.specs[i].decode(rest) {
                Ok((value, used)) => {
                    proof {
                        assert(values_of(decoded@.push(value)) == values_of(decoded@).push(
                            value@,
                        ));
                    }
                    decoded.push(value);
                    at = at + used;
                },
                Err(e) => {
                    proof {
                        assert(replies(self@.take(i + 1), response@) is Err);
                        lemma_replies_fail_on(self@, response@, i as int + 1);
                    }
                    return Err(e);
                },
            }
            i = i + 1;
        }
        proof {
            assert(self@.take(self.specs.len() as int) == self@);
        }
        Ok(decoded)
    }
}

/// The layout of a request packet: where the request bytes of the
/// sub-commands fit into the payload, the packet has the full packet length
/// and holds the execute id, the number of sub-commands, the request bytes,
/// and nothing but zeros behind them.
pub proof fn lemma_packet_layout(specs: Seq<SubCommandValue>)
    requires
        payload_of(specs).len() <= PAYLOAD_LEN,
    ensures
        packet_of(specs).len() == PACKET_LEN,
        packet_of(specs)[0] == ID_EXECUTE_COMMANDS,
        packet_of(specs)[1] == specs.len(),
        packet_of(specs).subrange(2, 2 + payload_of(specs).len() as int) == payload_of(specs),
        forall|i: int|
            2 + payload_of(specs).len() <= i < PACKET_LEN ==> #[trigger] packet_of(specs)[i] == 0,
{
    lemma_payload_len(specs);
    assert(packet_of(specs).subrange(2, 2 + payload_of(specs).len() as int) =~= payload_of(specs));
}

/// A response that does not start with the execute id is a protocol
/// mismatch, whatever the batch and whatever follows; so is one whose second
/// byte is not the number of sub-commands.
pub proof fn lemma_header_mismatch(specs: Seq<SubCommandValue>, response: Seq<u8>)
    ensures
        response.len() >= 1 && response[0] != ID_EXECUTE_COMMANDS ==> decode_outcome(
            specs,
            response,
        ) == Err::<Seq<DecodedValue>, ProbeCreationError>(ProbeCreationError::ProtocolMismatch),
        response.len() >= 2 && response[1] != specs.len() ==> decode_outcome(specs, response)
            == Err::<Seq<DecodedValue>, ProbeCreationError>(ProbeCreationError::ProtocolMismatch),
{
}

/// Appending a sub-command appends its request bytes to the payload.
pub proof fn lemma_payload_push(specs: Seq<SubCommandValue>, command: SubCommandValue)
    ensures
        payload_of(specs.push(command)) == payload_of(specs) + command.wire(),
{
    assert(specs.push(command).drop_last() == specs);
}

/// Every sub-command takes at least two bytes of the payload.
pub proof fn lemma_payload_len(specs: Seq<SubCommandValue>)
    ensures
        2 * specs.len() <= payload_of(specs).len(),
    decreases specs.len(),
{
    if specs.len() > 0 {
        lemma_payload_len(specs.drop_last());
    }
}

/// Where every sub-command finds its answer, there is one value for each
/// sub-command, and what was consumed lies within the bytes received.
pub proof fn lemma_replies_within(specs: Seq<SubCommandValue>, response: Seq<u8>)
    requires
        2 <= response.len(),
    ensures
        replies(specs, response) matches Ok((values, end)) ==> values.len() == specs.len() && 2
            + 2 * specs.len() <= end <= response.len(),
    decreases specs.len(),
{
    if specs.len() > 0 {
        lemma_replies_within(specs.drop_last(), response);
        if let Ok((_, at)) = replies(specs.drop_last(), response) {
            lemma_reply_within(specs.last(), response.subrange(at, response.len() as int));
        }
    }
}

/// A decoded batch holds one value for each of its sub-commands.
pub proof fn lemma_decode_outcome_len(specs: Seq<SubCommandValue>, response: Seq<u8>)
    ensures
        decode_outcome(specs, response) matches Ok(values) ==> values.len() == specs.len(),
{
    if response.len() >= 2 {
        lemma_replies_within(specs, response);
    }
}

/// Once a prefix of the sub-commands fails on a response, the whole list
/// fails with the same error.
pub proof fn lemma_replies_fail_on(specs: Seq<SubCommandValue>, response: Seq<u8>, n: int)
    requires
        0 <= n <= specs.len(),
        replies(specs.take(n), response) is Err,
    ensures
        replies(specs, response) == replies(specs.take(n), response),
    decreases specs.len(),
{
    if n < specs.len() {
        assert(specs.drop_last().take(n) == specs.take(n));
        lemma_replies_fail_on(specs.drop_last(), response, n);
    } else {
        assert(specs.take(n) == specs);
    }
}

} // verus!
