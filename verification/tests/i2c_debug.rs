use ec_platform::i2c_debug::{
    read_filler, received_bytes, received_len, respond, I2cEvent, Response, WriteOutcome,
    EC_I2C_ADDR, RECEIVE_BUF_LEN,
};

#[test]
fn target_address_and_buffer() {
    assert_eq!(EC_I2C_ADDR, 0x2C);
    assert_eq!(RECEIVE_BUF_LEN, 64);
}

#[test]
fn responses_to_bus_events() {
    assert_eq!(respond(I2cEvent::Write(0x2C)), Response::ReceiveWrite);
    assert_eq!(respond(I2cEvent::Read(0x2C)), Response::SendFiller);
    assert_eq!(respond(I2cEvent::RepeatedStart(0x2C)), Response::RecordOnly);
    assert_eq!(respond(I2cEvent::Stop(0x2C)), Response::RecordOnly);
    assert_eq!(respond(I2cEvent::Other), Response::RecordOnly);
}

#[test]
fn received_length_per_outcome() {
    assert_eq!(received_len(WriteOutcome::Stopped(3)), 3);
    assert_eq!(received_len(WriteOutcome::Restarted(5)), 5);
    assert_eq!(received_len(WriteOutcome::BufferFull(64)), 64);
    assert_eq!(received_len(WriteOutcome::Other), 0);
}

#[test]
fn received_bytes_are_the_filled_prefix() {
    let mut buf = [0u8; RECEIVE_BUF_LEN];
    buf[0] = 0xA5;
    buf[1] = 0x01;
    buf[2] = 0x7F;
    assert_eq!(received_bytes(&buf, WriteOutcome::Stopped(3)), vec![0xA5, 0x01, 0x7F]);
    assert_eq!(received_bytes(&buf, WriteOutcome::Other), Vec::<u8>::new());
    assert_eq!(received_bytes(&buf, WriteOutcome::BufferFull(64)).len(), 64);
}

#[test]
fn read_is_answered_with_filler() {
    assert_eq!(read_filler(), [0xFF; 4]);
}
