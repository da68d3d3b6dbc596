//! Bringing up the serial wire debug link, one stage after the other.

use vstd::prelude::*;
use crate::batch::{decode_outcome, lemma_decode_outcome_len, values_of, Batch};
use crate::command::{
    jtag_to_swd_pattern, line_reset_pattern, Decoded, DecodedValue, SubCommandSpec,
    SubCommandValue, WIRE_MODE_SWD,
};
use crate::error::ProbeCreationError;
use crate::transfer::{
    lemma_ops_wire_len, reads_in, Access, RegisterAddress, RegisterOp, Target,
};

verus! {

/// Value for the debug port's `ABORT` register that clears its sticky error
/// flags.
pub const ABORT_CLEAR_ERRORS: u32 = 0x0000_001D;

/// Value for the debug port's `SELECT` register: access port 0, the bank
/// that holds the identification register.
pub const SELECT_IDENTIFICATION_BANK: u32 = 0x0000_00F0;

/// Value for the debug port's `SELECT` register: access port 0, bank 0.
pub const SELECT_FIRST_BANK: u32 = 0x0000_0000;

/// Value for the debug port's `CTRL/STAT` register that asks for power in
/// the system and the debug domain.
pub const POWER_UP_REQUEST: u32 = 0x5000_0000;

/// The bits of `CTRL/STAT` with which the target acknowledges both requests.
pub const POWER_UP_ACKNOWLEDGED: u32 = 0xA000_0000;

/// Value for the access port's control/status word: 32-bit accesses.
pub const CSW_WORD_ACCESS: u32 = 0x0300_0042;

/// Address of the register that identifies the target's core.
pub const CPUID_ADDRESS: u32 = 0xE000_ED00;

/// Identification value of an access port to an AHB bus.
pub const AHB_AP_IDR: u32 = 0x0477_0021;

/// How far the link has come.
#[derive(Debug, Clone, Copy, PartialEq, Eq, Structural)]
pub enum LinkState {
    Disconnected,
    PortSelected,
    ClockSet,
    SwitchedToSwd,
    LineReset,
    ErrorsCleared,
    ApBankSelected,
    PoweredUp,
    Ready,
}

/// A stage that failed, and why. The stage is named by the state that it
/// would have reached.
#[derive(Debug, Clone, Copy, PartialEq, Eq, Structural)]
pub struct StageError {
    pub stage: LinkState,
    pub error: ProbeCreationError,
}

/// What the target has told of itself so far.
#[derive(Debug, Clone, Copy, PartialEq, Eq)]
pub struct LinkReport {
    /// The debug port's identification code.
    pub idcode: Option<u32>,
    /// The debug port's `CTRL/STAT`, read once after power was asked for.
    pub ctrl_stat: Option<u32>,
    /// The access port's identification register.
    pub ap_idr: Option<u32>,
    /// The identification word of the target's core.
    pub cpuid: Option<u32>,
}

/// The mathematical content of a [`Sequencer`].
pub struct SequencerView {
    pub state: LinkState,
    pub clock_hz: u32,
    pub report: LinkReport,
}

/// Drives the bring-up: says what to send next and takes the answer.
#[derive(Debug, Clone)]
pub struct Sequencer {
    state: LinkState,
    clock_hz: u32,
    report: LinkReport,
}

impl LinkState {
    /// The position of the state in the bring-up.
    pub open spec fn rank(self) -> nat {
        match self {
            LinkState::Disconnected => 0,
            LinkState::PortSelected => 1,
            LinkState::ClockSet => 2,
            LinkState::SwitchedToSwd => 3,
            LinkState::LineReset => 4,
            LinkState::ErrorsCleared => 5,
            LinkState::ApBankSelected => 6,
            LinkState::PoweredUp => 7,
            LinkState::Ready => 8,
        }
    }

    /// The state that the next stage reaches; `Ready` is the last.
    pub open spec fn successor(self) -> LinkState {
        match self {
            LinkState::Disconnected => LinkState::PortSelected,
            LinkState::PortSelected => LinkState::ClockSet,
            LinkState::ClockSet => LinkState::SwitchedToSwd,
            LinkState::SwitchedToSwd => LinkState::LineReset,
            LinkState::LineReset => LinkState::ErrorsCleared,
            LinkState::ErrorsCleared => LinkState::ApBankSelected,
            LinkState::ApBankSelected => LinkState::PoweredUp,
            LinkState::PoweredUp => LinkState::Ready,
            LinkState::Ready => LinkState::Ready,
        }
    }

    /// Computes the state that the next stage reaches.
    pub fn next(self) -> (s: LinkState)
        ensures
            s == self.successor(),
    {
        match self {
            LinkState::Disconnected => LinkState::PortSelected,
            LinkState::PortSelected => LinkState::ClockSet,
            LinkState::ClockSet => LinkState::SwitchedToSwd,
            LinkState::SwitchedToSwd => LinkState::LineReset,
            LinkState::LineReset => LinkState::ErrorsCleared,
            LinkState::ErrorsCleared => LinkState::ApBankSelected,
            LinkState::ApBankSelected => LinkState::PoweredUp,
            LinkState::PoweredUp => LinkState::Ready,
            LinkState::Ready => LinkState::Ready,
        }
    }
}

impl LinkReport {
    /// The report of a link on which nothing was read yet.
    pub open spec fn blank() -> LinkReport {
        LinkReport { idcode: None, ctrl_stat: None, ap_idr: None, cpuid: None }
    }

    /// Whether the one observation of `CTRL/STAT` showed both power-up
    /// requests acknowledged.
    pub fn power_up_acknowledged(&self) -> (b: bool)
        ensures
            b == (self.ctrl_stat matches Some(v) && v & POWER_UP_ACKNOWLEDGED
                == POWER_UP_ACKNOWLEDGED),
    {
        match self.ctrl_stat {
            Some(v) => v & POWER_UP_ACKNOWLEDGED == POWER_UP_ACKNOWLEDGED,
            None => false,
        }
    }

    /// Whether the access port identified itself as a port to an AHB bus.
    pub fn confirms_ahb_ap(&self) -> (b: bool)
        ensures
            b == (self.ap_idr == Some(AHB_AP_IDR)),
    {
        match self.ap_idr {
            Some(v) => v == AHB_AP_IDR,
            None => false,
        }
    }
}

/// The register operations of the stage that leaves `state`; empty for a
/// stage that sends no transfer.
pub open spec fn stage_ops(state: LinkState) -> Seq<RegisterOp> {
    match state {
        LinkState::LineReset => seq![
            RegisterOp::reading(Target::DebugPort, RegisterAddress::A0),
            RegisterOp::writing(Target::DebugPort, RegisterAddress::A0, ABORT_CLEAR_ERRORS),
        ],
        LinkState::ErrorsCleared => seq![
            RegisterOp::writing(Target::DebugPort, RegisterAddress::A8, SELECT_IDENTIFICATION_BANK),
        ],
        LinkState::ApBankSelected => seq![
            RegisterOp::writing(Target::DebugPort, RegisterAddress::A4, POWER_UP_REQUEST),
            RegisterOp::reading(Target::DebugPort, RegisterAddress::A4),
        ],
        LinkState::PoweredUp => seq![
            RegisterOp::reading(Target::AccessPort, RegisterAddress::AC),
            RegisterOp::writing(Target::DebugPort, RegisterAddress::A8, SELECT_FIRST_BANK),
            RegisterOp::writing(Target::AccessPort, RegisterAddress::A0, CSW_WORD_ACCESS),
            RegisterOp::writing(Target::AccessPort, RegisterAddress::A4, CPUID_ADDRESS),
            RegisterOp::reading(Target::AccessPort, RegisterAddress::AC),
        ],
        _ => Seq::empty(),
    }
}

/// The sub-command that the stage leaving `state` sends; none once the link
/// is ready.
pub open spec fn next_command(state: LinkState, clock_hz: u32) -> Option<SubCommandValue> {
    match state {
        LinkState::Disconnected => Some(SubCommandValue::Connect(WIRE_MODE_SWD)),
        LinkState::PortSelected => Some(SubCommandValue::SetClock(clock_hz)),
        LinkState::ClockSet => Some(SubCommandValue::RawSequence(72, jtag_to_swd_pattern())),
        LinkState::SwitchedToSwd => Some(SubCommandValue::RawSequence(56, line_reset_pattern())),
        LinkState::Ready => None,
        _ => Some(SubCommandValue::Transfer(stage_ops(state))),
    }
}

/// The report after the stage leaving `state` has read `values`.
pub open spec fn report_after(state: LinkState, report: LinkReport, values: Seq<u32>) -> LinkReport {
    match state {
        LinkState::LineReset => LinkReport {
            idcode: Some(values[0]),
            ctrl_stat: report.ctrl_stat,
            ap_idr: report.ap_idr,
            cpuid: report.cpuid,
        },
        LinkState::ApBankSelected => LinkReport {
            idcode: report.idcode,
            ctrl_stat: Some(values[0]),
            ap_idr: report.ap_idr,
            cpuid: report.cpuid,
        },
        LinkState::PoweredUp => LinkReport {
            idcode: report.idcode,
            ctrl_stat: report.ctrl_stat,
            ap_idr: Some(values[0]),
            cpuid: Some(values[1]),
        },
        _ => report,
    }
}

/// What the stage leaving `state` makes of a response: the new report, or
/// the error that stops the bring-up. The response is read as that of a
/// batch of the stage's one sub-command; a transfer must be complete.
pub open spec fn stage_outcome(
    state: LinkState,
    clock_hz: u32,
    report: LinkReport,
    response: Seq<u8>,
) -> Result<LinkReport, ProbeCreationError>
    recommends
        state !is Ready,
{
    match decode_outcome(seq![next_command(state, clock_hz)->0], response) {
        Err(e) => Err(e),
        Ok(values) => match values[0] {
            DecodedValue::Transfer(reply) => if reply.is_complete() {
                Ok(report_after(state, report, reply.values))
            } else {
                Err(ProbeCreationError::TransferIncomplete)
            },
            _ => Ok(report),
        },
    }
}

/// Every stage but the last moves one step forward, and the last state is
/// never left.
pub proof fn lemma_successor_moves_forward(state: LinkState)
    ensures
        state !is Ready ==> state.successor().rank() == state.rank() + 1,
        state is Ready ==> state.successor() == state,
        state.rank() <= 8,
{
}

/// The number of values that each transfer stage reads.
pub proof fn lemma_stage_reads(state: LinkState)
    ensures
        reads_in(stage_ops(state)) == match state {
            LinkState::LineReset => 1nat,
            LinkState::ApBankSelected => 1nat,
            LinkState::PoweredUp => 2nat,
            _ => 0nat,
        },
        stage_ops(state).len() <= 5,
{
    reveal_with_fuel(reads_in, 6);
    let ops = stage_ops(state);
    if ops.len() > 0 {
        let a = ops.drop_last();
        if a.len() > 0 {
            let b = a.drop_last();
            if b.len() > 0 {
                let c = b.drop_last();
                if c.len() > 0 {
                    let d = c.drop_last();
                    assert(d.len() <= 1);
                }
            }
        }
    }
}

impl View for Sequencer {
    type V = SequencerView;

    closed spec fn view(&self) -> SequencerView {
        SequencerView { state: self.state, clock_hz: self.clock_hz, report: self.report }
    }
}

impl Sequencer {
    /// A sequencer for a link that is not connected yet.
    pub fn new(clock_hz: u32) -> (s: Sequencer)
        ensures
            s@ == (SequencerView {
                state: LinkState::Disconnected,
                clock_hz,
                report: LinkReport::blank(),
            }),
    {
        Sequencer {
            state: LinkState::Disconnected,
            clock_hz,
            report: LinkReport { idcode: None, ctrl_stat: None, ap_idr: None, cpuid: None },
        }
    }

    /// The state that the link has reached.
    pub fn state(&self) -> (s: LinkState)
        ensures
            s == self@.state,
    {
        self.state
    }

    /// The clock frequency that the bring-up sets.
    pub fn clock_hz(&self) -> (hz: u32)
        ensures
            hz == self@.clock_hz,
    {
        self.clock_hz
    }

    /// What the target has told of itself so far.
    pub fn report(&self) -> (r: LinkReport)
        ensures
            r == self@.report,
    {
        self.report
    }

    /// The sub-command of the next stage; none once the link is ready.
    pub fn next_spec(&self) -> (r: Option<SubCommandSpec>)
        ensures
            match next_command(self@.state, self@.clock_hz) {
                Some(command) => r matches Some(spec) && spec@ == command,
                None => r is None,
            },
    {
        let spec = match self.state {
            LinkState::Disconnected => SubCommandSpec::Connect(WIRE_MODE_SWD),
            LinkState::PortSelected => SubCommandSpec::SetClock(self.clock_hz),
            LinkState::ClockSet => SubCommandSpec::jtag_to_swd(),
            LinkState::SwitchedToSwd => SubCommandSpec::line_reset(),
            LinkState::LineReset => SubCommandSpec::Transfer(
                vec![
                    RegisterOp::read(Target::DebugPort, RegisterAddress::A0),
                    RegisterOp::write(Target::DebugPort, RegisterAddress::A0, ABORT_CLEAR_ERRORS),
                ],
            ),
            LinkState::ErrorsCleared => SubCommandSpec::Transfer(
                vec![
                    RegisterOp::write(
                        Target::DebugPort,
                        RegisterAddress::A8,
                        SELECT_IDENTIFICATION_BANK,
                    ),
                ],
            ),
            LinkState::ApBankSelected => SubCommandSpec::Transfer(
                vec![
                    RegisterOp::write(Target::DebugPort, RegisterAddress::A4, POWER_UP_REQUEST),
                    RegisterOp::read(Target::DebugPort, RegisterAddress::A4),
                ],
            ),
            LinkState::PoweredUp => SubCommandSpec::Transfer(
                vec![
                    RegisterOp::read(Target::AccessPort, RegisterAddress::AC),
                    RegisterOp::write(Target::DebugPort, RegisterAddress::A8, SELECT_FIRST_BANK),
                    RegisterOp::write(Target::AccessPort, RegisterAddress::A0, CSW_WORD_ACCESS),
                    RegisterOp::write(Target::AccessPort, RegisterAddress::A4, CPUID_ADDRESS),
                    RegisterOp::read(Target::AccessPort, RegisterAddress::AC),
                ],
            ),
            LinkState::Ready => {
                return None;
            },
        };
        proof {
            if let SubCommandValue::Transfer(ops) = spec@ {
                assert(ops =~= stage_ops(self.state));
            }
        }
        Some(spec)
    }

    /// The batch of the next stage; none once the link is ready.
    pub fn next_batch(&self) -> (r: Option<Batch>)
        ensures
            match next_command(self@.state, self@.clock_hz) {
                Some(command) => r matches Some(batch) && batch.wf() && batch@ == seq![command],
                None => r is None,
            },
    {
        match self.next_spec() {
            None => None,
            Some(spec) => {
                let mut batch = Batch::new();
                proof {
                    lemma_stage_reads(self.state);
                    lemma_ops_wire_len(stage_ops(self.state));
                }
                match batch.append(spec) {
                    Ok(_) => Some(batch),
                    Err(_) => None,
                }
            },
        }
    }

    /// The error of a stage that failed before any answer came: the given
    /// error, with the stage that was under way.
    pub fn fail(&self, error: ProbeCreationError) -> (e: StageError)
        ensures
            e == (StageError { stage: self@.state.successor(), error }),
    {
        StageError { stage: self.state.next(), error }
    }

    /// Takes the probe's response to the batch of the next stage. Where the
    /// response decodes and shows the stage done, the link moves to the next
    /// state, which is returned, and the values read enter the report. Else
    /// the link stays where it is and the error names the stage. A link
    /// that is ready stays ready.
    pub fn advance(&mut self, response: &[u8]) -> (r: Result<LinkState, StageError>)
        ensures
            final(self)@.clock_hz == old(self)@.clock_hz,
            old(self)@.state.rank() <= final(self)@.state.rank() <= old(self)@.state.rank() + 1,
            old(self)@.state is Ready ==> r == Ok::<LinkState, StageError>(LinkState::Ready)
                && final(self)@ == old(self)@,
            old(self)@.state !is Ready ==> match stage_outcome(
                old(self)@.state,
                old(self)@.clock_hz,
                old(self)@.report,
                response@,
            ) {
                Ok(report) => {
                    &&& r == Ok::<LinkState, StageError>(old(self)@.state.successor())
                    &&& final(self)@.state == old(self)@.state.successor()
                    &&& final(self)@.report == report
                },
                Err(error) => {
                    &&& r == Err::<LinkState, StageError>(
                        StageError { stage: old(self)@.state.successor(), error },
                    )
                    &&& final(self)@ == old(self)@
                },
            },
    {
        let batch = match self.next_batch() {
            Some(batch) => batch,
            None => {
                return Ok(LinkState::Ready);
            },
        };
        let target = self.state.next();
        let decoded = match batch.decode(response) {
            Ok(decoded) => decoded,
            Err(error) => {
                return Err(StageError { stage: target, error });
            },
        };
        proof {
            lemma_decode_outcome_len(batch@, response@);
            lemma_stage_reads(self.state);
            assert(values_of(decoded@)[0] == decoded@[0]@);
        }
        match &decoded[0] {
            Decoded::Transfer(reply) => {
                if !reply.is_complete() {
                    return Err(
                        StageError { stage: target, error: ProbeCreationError::TransferIncomplete },
                    );
                }
                proof {
                    let ops = stage_ops(self.state);
                    assert(ops.take(ops.len() as int) == ops);
                }
                match self.state {
                    LinkState::LineReset => {
                        self.report.idcode = Some(reply.values[0]);
                    },
                    LinkState::ApBankSelected => {
                        self.report.ctrl_stat = Some(reply.values[0]);
                    },
                    LinkState::PoweredUp => {
                        self.report.ap_idr = Some(reply.values[0]);
                        self.report.cpuid = Some(reply.values[1]);
                    },
                    _ => {},
                }
            },
            _ => {},
        }
        self.state = target;
        Ok(target)
    }
}

} // verus!
