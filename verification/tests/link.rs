use cmsis_dap::error::ProbeCreationError;
use cmsis_dap::link::{LinkReport, LinkState, Sequencer, StageError};

/// Stands in for a probe: records what is sent and answers from a list.
struct StubTransport {
    sent: Vec<Vec<u8>>,
    answers: Vec<Vec<u8>>,
}

impl StubTransport {
    fn exchange(&mut self, packet: Vec<u8>) -> Vec<u8> {
        let mut answer = self.answers[self.sent.len()].clone();
        answer.resize(64, 0);
        self.sent.push(packet);
        answer
    }
}

fn good_answers() -> Vec<Vec<u8>> {
    vec![
        vec![0x7F, 1, 0x02, 0x01],
        vec![0x7F, 1, 0x11, 0x00],
        vec![0x7F, 1, 0x12, 0x00],
        vec![0x7F, 1, 0x12, 0x00],
        vec![0x7F, 1, 0x05, 2, 1, 0x77, 0x14, 0xA0, 0x2B],
        vec![0x7F, 1, 0x05, 1, 1],
        vec![0x7F, 1, 0x05, 2, 1, 0x00, 0x00, 0x00, 0xF0],
        vec![0x7F, 1, 0x05, 5, 1, 0x77, 0x04, 0xA0, 0x4B, 0x41, 0xC2, 0x0F, 0x41],
    ]
}

fn padded(head: &[u8]) -> Vec<u8> {
    let mut packet = head.to_vec();
    packet.resize(64, 0);
    packet
}

fn run(sequencer: &mut Sequencer, probe: &mut StubTransport) -> Result<(), StageError> {
    while let Some(batch) = sequencer.next_batch() {
        let answer = probe.exchange(batch.packet());
        sequencer.advance(&answer)?;
    }
    Ok(())
}

#[test]
fn bring_up_reaches_ready_and_reports_the_identification() {
    let mut probe = StubTransport { sent: Vec::new(), answers: good_answers() };
    let mut sequencer = Sequencer::new(0x0100_0000);
    assert_eq!(sequencer.state(), LinkState::Disconnected);
    assert_eq!(run(&mut sequencer, &mut probe), Ok(()));
    assert_eq!(sequencer.state(), LinkState::Ready);
    assert_eq!(
        sequencer.report(),
        LinkReport {
            idcode: Some(0x2BA0_1477),
            ctrl_stat: Some(0xF000_0000),
            ap_idr: Some(0x4BA0_0477),
            cpuid: Some(0x410F_C241),
        }
    );
    assert_eq!(sequencer.report().ap_idr, Some(0x4BA0_0477));
    assert!(sequencer.report().power_up_acknowledged());
    assert!(!sequencer.report().confirms_ahb_ap());
    assert_eq!(probe.sent.len(), 8);
}

#[test]
fn stages_send_their_sub_commands_in_order() {
    let mut probe = StubTransport { sent: Vec::new(), answers: good_answers() };
    let mut sequencer = Sequencer::new(0x0100_0000);
    run(&mut sequencer, &mut probe).unwrap();
    let expected: Vec<Vec<u8>> = vec![
        padded(&[0x7F, 1, 0x02, 0x01]),
        padded(&[0x7F, 1, 0x11, 0x00, 0x00, 0x00, 0x01]),
        padded(&[0x7F, 1, 0x12, 72, 0xFF, 0xFF, 0xFF, 0xFF, 0xFF, 0xFF, 0xFF, 0x9E, 0xE7]),
        padded(&[0x7F, 1, 0x12, 56, 0xFF, 0xFF, 0xFF, 0xFF, 0xFF, 0xFF, 0xFF]),
        padded(&[0x7F, 1, 0x05, 0x00, 2, 0x02, 0x00, 0x1D, 0x00, 0x00, 0x00]),
        padded(&[0x7F, 1, 0x05, 0x00, 1, 0x08, 0xF0, 0x00, 0x00, 0x00]),
        padded(&[0x7F, 1, 0x05, 0x00, 2, 0x04, 0x00, 0x00, 0x00, 0x50, 0x06]),
        padded(&[
            0x7F, 1, 0x05, 0x00, 5, 0x0F, 0x08, 0x00, 0x00, 0x00, 0x00, 0x01, 0x42, 0x00, 0x00,
            0x03, 0x05, 0x00, 0xED, 0x00, 0xE0, 0x0F,
        ]),
    ];
    assert_eq!(probe.sent, expected);
}

#[test]
fn each_stage_moves_one_state_forward() {
    let order = [
        LinkState::Disconnected,
        LinkState::PortSelected,
        LinkState::ClockSet,
        LinkState::SwitchedToSwd,
        LinkState::LineReset,
        LinkState::ErrorsCleared,
        LinkState::ApBankSelected,
        LinkState::PoweredUp,
        LinkState::Ready,
    ];
    let mut sequencer = Sequencer::new(1_000_000);
    for (i, answer) in good_answers().iter().enumerate() {
        assert_eq!(sequencer.state(), order[i]);
        assert_eq!(sequencer.state().next(), order[i + 1]);
        assert_eq!(sequencer.advance(&padded(answer)), Ok(order[i + 1]));
    }
    assert_eq!(sequencer.state(), LinkState::Ready);
    assert_eq!(LinkState::Ready.next(), LinkState::Ready);
}

#[test]
fn ready_link_stays_ready() {
    let mut sequencer = Sequencer::new(1_000_000);
    for answer in good_answers() {
        sequencer.advance(&padded(&answer)).unwrap();
    }
    let report = sequencer.report();
    assert!(sequencer.next_batch().is_none());
    assert!(sequencer.next_spec().is_none());
    assert_eq!(sequencer.advance(&[]), Ok(LinkState::Ready));
    assert_eq!(sequencer.advance(&padded(&[0x7F, 1, 0x02, 0x01])), Ok(LinkState::Ready));
    assert_eq!(sequencer.state(), LinkState::Ready);
    assert_eq!(sequencer.report(), report);
}

#[test]
fn failed_stage_is_named_and_not_passed() {
    let mut sequencer = Sequencer::new(1_000_000);
    sequencer.advance(&padded(&[0x7F, 1, 0x02, 0x01])).unwrap();
    // the probe refuses the clock
    assert_eq!(
        sequencer.advance(&padded(&[0x7F, 1, 0x11, 0xFF])),
        Err(StageError { stage: LinkState::ClockSet, error: ProbeCreationError::ProtocolMismatch })
    );
    assert_eq!(sequencer.state(), LinkState::PortSelected);
    // the answer is cut behind the header
    assert_eq!(
        sequencer.advance(&[0x7F, 1, 0x11]),
        Err(StageError {
            stage: LinkState::ClockSet,
            error: ProbeCreationError::TruncatedResponse
        })
    );
    assert_eq!(sequencer.state(), LinkState::PortSelected);
    // the stage can be tried again
    assert_eq!(sequencer.advance(&padded(&[0x7F, 1, 0x11, 0x00])), Ok(LinkState::ClockSet));
}

#[test]
fn connect_in_another_wire_mode_fails_the_first_stage() {
    let mut sequencer = Sequencer::new(1_000_000);
    assert_eq!(
        sequencer.advance(&padded(&[0x7F, 1, 0x02, 0x02])),
        Err(StageError {
            stage: LinkState::PortSelected,
            error: ProbeCreationError::ProtocolMismatch
        })
    );
    assert_eq!(sequencer.state(), LinkState::Disconnected);
}

#[test]
fn incomplete_transfer_fails_its_stage() {
    let mut sequencer = Sequencer::new(1_000_000);
    for answer in good_answers().iter().take(4) {
        sequencer.advance(&padded(answer)).unwrap();
    }
    assert_eq!(sequencer.state(), LinkState::LineReset);
    // the identification code was read, the write was not acknowledged
    assert_eq!(
        sequencer.advance(&padded(&[0x7F, 1, 0x05, 1, 7, 0x77, 0x14, 0xA0, 0x2B])),
        Err(StageError {
            stage: LinkState::ErrorsCleared,
            error: ProbeCreationError::TransferIncomplete
        })
    );
    assert_eq!(sequencer.state(), LinkState::LineReset);
    assert_eq!(sequencer.report().idcode, None);
}

#[test]
fn transport_failure_is_attached_to_the_stage_under_way() {
    let mut sequencer = Sequencer::new(1_000_000);
    assert_eq!(
        sequencer.fail(ProbeCreationError::Timeout),
        StageError { stage: LinkState::PortSelected, error: ProbeCreationError::Timeout }
    );
    sequencer.advance(&padded(&[0x7F, 1, 0x02, 0x01])).unwrap();
    assert_eq!(
        sequencer.fail(ProbeCreationError::TransportError),
        StageError { stage: LinkState::ClockSet, error: ProbeCreationError::TransportError }
    );
    assert_eq!(sequencer.state(), LinkState::PortSelected);
}

#[test]
fn clock_of_the_bring_up_is_the_one_configured() {
    let mut sequencer = Sequencer::new(0x0010_0000);
    assert_eq!(sequencer.clock_hz(), 0x0010_0000);
    sequencer.advance(&padded(&[0x7F, 1, 0x02, 0x01])).unwrap();
    assert_eq!(
        sequencer.next_batch().unwrap().packet(),
        padded(&[0x7F, 1, 0x11, 0x00, 0x00, 0x10, 0x00])
    );
}

#[test]
fn power_up_is_acknowledged_by_both_bits() {
    let blank = LinkReport { idcode: None, ctrl_stat: None, ap_idr: None, cpuid: None };
    assert!(!blank.power_up_acknowledged());
    assert!(!blank.confirms_ahb_ap());
    let mut report = blank;
    report.ctrl_stat = Some(0xA000_0000);
    assert!(report.power_up_acknowledged());
    report.ctrl_stat = Some(0x8000_0000);
    assert!(!report.power_up_acknowledged());
    report.ctrl_stat = Some(0x5000_0000);
    assert!(!report.power_up_acknowledged());
    report.ap_idr = Some(0x0477_0021);
    assert!(report.confirms_ahb_ap());
}

#[test]
fn transfer_that_reports_too_many_operations_fails_its_stage() {
    let mut sequencer = Sequencer::new(1_000_000);
    for answer in good_answers().iter().take(5) {
        sequencer.advance(&padded(answer)).unwrap();
    }
    assert_eq!(sequencer.state(), LinkState::ErrorsCleared);
    assert_eq!(
        sequencer.advance(&padded(&[0x7F, 1, 0x05, 2, 1])),
        Err(StageError {
            stage: LinkState::ApBankSelected,
            error: ProbeCreationError::TransferIncomplete
        })
    );
    assert_eq!(sequencer.state(), LinkState::ErrorsCleared);
}
