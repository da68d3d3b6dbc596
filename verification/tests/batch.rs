use cmsis_dap::batch::Batch;
use cmsis_dap::command::{
    Decoded, SubCommandSpec, INFO_FIRMWARE_VERSION, INFO_PRODUCT, INFO_SERIAL_NUMBER,
    WIRE_MODE_SWD,
};
use cmsis_dap::error::ProbeCreationError;
use cmsis_dap::transfer::{RegisterAddress, RegisterOp, Target};

fn padded(head: &[u8]) -> Vec<u8> {
    let mut packet = head.to_vec();
    packet.resize(64, 0);
    packet
}

#[test]
fn empty_batch_is_a_header_and_zeros() {
    let batch = Batch::new();
    assert_eq!(batch.len(), 0);
    assert_eq!(batch.used(), 0);
    assert_eq!(batch.packet(), padded(&[0x7F, 0]));
}

#[test]
fn packet_is_header_encodings_and_zero_padding() {
    let mut batch = Batch::new();
    assert_eq!(batch.append(SubCommandSpec::Info(INFO_SERIAL_NUMBER)), Ok(0));
    assert_eq!(batch.append(SubCommandSpec::Connect(WIRE_MODE_SWD)), Ok(1));
    assert_eq!(batch.append(SubCommandSpec::SetClock(0x0100_0000)), Ok(2));
    assert_eq!(batch.append(SubCommandSpec::jtag_to_swd()), Ok(3));
    assert_eq!(batch.append(SubCommandSpec::line_reset()), Ok(4));
    assert_eq!(batch.len(), 5);
    assert_eq!(batch.used(), 29);
    let packet = batch.packet();
    assert_eq!(packet.len(), 64);
    assert_eq!(
        packet,
        padded(&[
            0x7F, 5, 0x00, 0x03, 0x02, 0x01, 0x11, 0x00, 0x00, 0x00, 0x01, 0x12, 72, 0xFF, 0xFF,
            0xFF, 0xFF, 0xFF, 0xFF, 0xFF, 0x9E, 0xE7, 0x12, 56, 0xFF, 0xFF, 0xFF, 0xFF, 0xFF,
            0xFF, 0xFF,
        ])
    );
}

#[test]
fn batch_that_fills_the_payload_has_no_padding() {
    let mut batch = Batch::new();
    assert_eq!(batch.append(SubCommandSpec::RawSequence(0, vec![0x55; 58])), Ok(0));
    assert_eq!(batch.append(SubCommandSpec::Info(INFO_PRODUCT)), Ok(1));
    assert_eq!(batch.used(), 62);
    let mut expected = vec![0x7F, 2, 0x12, 0];
    expected.extend(vec![0x55; 58]);
    expected.extend([0x00, 0x02]);
    assert_eq!(batch.packet(), expected);
}

#[test]
fn append_beyond_the_payload_fails_and_changes_nothing() {
    let mut batch = Batch::new();
    assert_eq!(batch.append(SubCommandSpec::RawSequence(0, vec![0x55; 58])), Ok(0));
    let before = batch.packet();
    assert_eq!(
        batch.append(SubCommandSpec::SetClock(1_000_000)),
        Err(ProbeCreationError::BatchTooLarge)
    );
    assert_eq!(batch.len(), 1);
    assert_eq!(batch.used(), 60);
    assert_eq!(batch.packet(), before);
    assert_eq!(batch.append(SubCommandSpec::Connect(WIRE_MODE_SWD)), Ok(1));
    assert_eq!(
        batch.append(SubCommandSpec::Connect(WIRE_MODE_SWD)),
        Err(ProbeCreationError::BatchTooLarge)
    );
}

#[test]
fn sub_command_larger_than_any_packet_is_refused() {
    let mut batch = Batch::new();
    assert_eq!(
        batch.append(SubCommandSpec::RawSequence(0, vec![0; 61])),
        Err(ProbeCreationError::BatchTooLarge)
    );
    assert_eq!(batch.len(), 0);
}

#[test]
fn thirty_one_sub_commands_fit_and_no_more() {
    let mut batch = Batch::new();
    for i in 0..31 {
        assert_eq!(batch.append(SubCommandSpec::Info(1)), Ok(i));
    }
    assert_eq!(batch.append(SubCommandSpec::Info(1)), Err(ProbeCreationError::BatchTooLarge));
    assert_eq!(batch.packet()[1], 31);
}

fn info_batch() -> Batch {
    let mut batch = Batch::new();
    batch.append(SubCommandSpec::Info(INFO_PRODUCT)).unwrap();
    batch.append(SubCommandSpec::Info(INFO_FIRMWARE_VERSION)).unwrap();
    batch
}

#[test]
fn values_come_back_in_submission_order() {
    let batch = info_batch();
    let response = padded(&[0x7F, 2, 0x00, 4, b'D', b'A', b'P', 0, 0x00, 6, b'1', b'.', b'1', b'.', b'0', 0]);
    assert_eq!(
        batch.decode(&response),
        Ok(vec![Decoded::Info(b"DAP".to_vec()), Decoded::Info(b"1.1.0".to_vec())])
    );
}

#[test]
fn handle_names_the_value_of_its_sub_command() {
    let mut batch = Batch::new();
    let connect = batch.append(SubCommandSpec::Connect(WIRE_MODE_SWD)).unwrap();
    let transfer = batch
        .append(SubCommandSpec::Transfer(vec![RegisterOp::read(
            Target::DebugPort,
            RegisterAddress::A0,
        )]))
        .unwrap();
    let clock = batch.append(SubCommandSpec::SetClock(1_000_000)).unwrap();
    let response = [0x7F, 3, 0x02, 0x01, 0x05, 1, 1, 0x77, 0x04, 0xA0, 0x4B, 0x11, 0x00];
    let values = batch.decode(&response).unwrap();
    assert_eq!(values.len(), 3);
    assert_eq!(values[connect], Decoded::Connect(WIRE_MODE_SWD));
    assert_eq!(values[clock], Decoded::SetClock);
    match &values[transfer] {
        Decoded::Transfer(reply) => assert_eq!(reply.values, vec![0x4BA0_0477]),
        other => panic!("unexpected value {:?}", other),
    }
}

#[test]
fn response_with_another_header_is_a_mismatch() {
    let batch = info_batch();
    let mut response = padded(&[0x7F, 2, 0x00, 1, 0, 0x00, 1, 0]);
    assert!(batch.decode(&response).is_ok());
    response[0] = 0x7E;
    assert_eq!(batch.decode(&response), Err(ProbeCreationError::ProtocolMismatch));
    response[0] = 0xFF;
    assert_eq!(batch.decode(&response), Err(ProbeCreationError::ProtocolMismatch));
    assert_eq!(batch.decode(&[0x00]), Err(ProbeCreationError::ProtocolMismatch));
    assert_eq!(Batch::new().decode(&[0x05, 0]), Err(ProbeCreationError::ProtocolMismatch));
}

#[test]
fn response_with_another_count_is_a_mismatch() {
    let batch = info_batch();
    assert_eq!(
        batch.decode(&padded(&[0x7F, 1, 0x00, 1, 0, 0x00, 1, 0])),
        Err(ProbeCreationError::ProtocolMismatch)
    );
    assert_eq!(
        batch.decode(&padded(&[0x7F, 3, 0x00, 1, 0, 0x00, 1, 0])),
        Err(ProbeCreationError::ProtocolMismatch)
    );
}

#[test]
fn response_shorter_than_its_header_is_truncated() {
    let batch = info_batch();
    assert_eq!(batch.decode(&[]), Err(ProbeCreationError::TruncatedResponse));
    assert_eq!(batch.decode(&[0x7F]), Err(ProbeCreationError::TruncatedResponse));
}

#[test]
fn decoder_does_not_read_past_the_bytes_received() {
    let batch = info_batch();
    // the second answer announces four bytes of text, two were received
    let response = [0x7F, 2, 0x00, 2, b'A', 0, 0x00, 4, b'1', b'.'];
    assert_eq!(batch.decode(&response), Err(ProbeCreationError::TruncatedResponse));
    // the first answer fills the response, nothing is left for the second
    let response = [0x7F, 2, 0x00, 2, b'A', 0];
    assert_eq!(batch.decode(&response), Err(ProbeCreationError::TruncatedResponse));
}

#[test]
fn first_failing_decoder_decides_the_error() {
    let batch = info_batch();
    // the first answer carries the id of another command, the second is cut
    let response = [0x7F, 2, 0x02, 1, 0, 0x00];
    assert_eq!(batch.decode(&response), Err(ProbeCreationError::ProtocolMismatch));
}

#[test]
fn empty_batch_decodes_an_empty_answer() {
    assert_eq!(Batch::new().decode(&padded(&[0x7F, 0])), Ok(Vec::new()));
    assert_eq!(Batch::new().decode(&[0x7F, 0]), Ok(Vec::new()));
}

#[test]
fn incomplete_transfer_does_not_fail_the_batch() {
    let mut batch = Batch::new();
    batch
        .append(SubCommandSpec::Transfer(vec![
            RegisterOp::read(Target::DebugPort, RegisterAddress::A0),
            RegisterOp::read(Target::AccessPort, RegisterAddress::AC),
        ]))
        .unwrap();
    batch.append(SubCommandSpec::Info(INFO_PRODUCT)).unwrap();
    let response = [0x7F, 2, 0x05, 1, 2, 0x77, 0x04, 0xA0, 0x4B, 0x00, 2, b'A', 0];
    let values = batch.decode(&response).unwrap();
    match &values[0] {
        Decoded::Transfer(reply) => {
            assert_eq!(reply.condition(), Some(ProbeCreationError::TransferIncomplete));
            assert_eq!(reply.values, vec![0x4BA0_0477]);
        }
        other => panic!("unexpected value {:?}", other),
    }
    assert_eq!(values[1], Decoded::Info(b"A".to_vec()));
}

#[test]
fn transfer_that_reports_too_many_operations_does_not_fail_the_batch() {
    let mut batch = Batch::new();
    batch
        .append(SubCommandSpec::Transfer(vec![RegisterOp::read(
            Target::DebugPort,
            RegisterAddress::A0,
        )]))
        .unwrap();
    let values = batch.decode(&[0x7F, 1, 0x05, 2, 1, 0x77, 0x04, 0xA0, 0x4B]).unwrap();
    match &values[0] {
        Decoded::Transfer(reply) => {
            assert_eq!(reply.condition(), Some(ProbeCreationError::TransferIncomplete));
            assert_eq!(reply.completed, 2);
            assert_eq!(reply.values, vec![0x4BA0_0477]);
        }
        other => panic!("unexpected value {:?}", other),
    }
}

#[test]
fn decoders_behind_an_unfinished_transfer_still_run() {
    let mut batch = Batch::new();
    batch
        .append(SubCommandSpec::Transfer(vec![
            RegisterOp::write(Target::DebugPort, RegisterAddress::A8, 0xF0),
            RegisterOp::read(Target::AccessPort, RegisterAddress::AC),
        ]))
        .unwrap();
    batch.append(SubCommandSpec::Connect(WIRE_MODE_SWD)).unwrap();
    batch.append(SubCommandSpec::SetClock(1_000_000)).unwrap();
    // the write was done, the read was answered with a fault
    let response = [0x7F, 3, 0x05, 1, 4, 0x02, 0x01, 0x11, 0x00];
    let values = batch.decode(&response).unwrap();
    assert_eq!(values.len(), 3);
    match &values[0] {
        Decoded::Transfer(reply) => {
            assert_eq!(reply.condition(), Some(ProbeCreationError::TransferIncomplete));
            assert_eq!(reply.values, Vec::<u32>::new());
        }
        other => panic!("unexpected value {:?}", other),
    }
    assert_eq!(values[1], Decoded::Connect(WIRE_MODE_SWD));
    assert_eq!(values[2], Decoded::SetClock);
}
