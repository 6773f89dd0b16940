use crack_core::receiver::{Receiver, VoiceEvent, DEFAULT_BUFFER_SIZE};

#[test]
fn test_receiver() {
    let mut receiver = Receiver::new(Vec::new());
    let want: u64 = 0xAA;
    receiver.act(&VoiceEvent::SpeakingStateUpdate { user_id: Some(want) });
    let got = u64::from_be_bytes(receiver.data.as_slice().try_into().unwrap());
    assert_eq!(want, got);
}

#[test]
fn an_audio_packet_is_read_as_samples_up_to_its_end() {
    let mut receiver = Receiver::new(vec![9]);
    receiver.act(&VoiceEvent::RtpPacket {
        packet: vec![1, 2, 3, 0, 0],
        payload_end_pad: 2,
    });
    assert_eq!(receiver.data, vec![9, 1, 2, 3, 0, 0]);
    receiver.act(&VoiceEvent::Other);
    assert_eq!(receiver.data, vec![9, 1, 2, 3, 0, 0]);
    assert_eq!(receiver.buf_size(), DEFAULT_BUFFER_SIZE);
}

#[test]
fn a_mostly_padded_packet_gives_two_bytes_per_payload_byte() {
    let mut receiver = Receiver::new(Vec::new());
    receiver.act(&VoiceEvent::RtpPacket {
        packet: vec![1, 2, 3, 4, 5, 6],
        payload_end_pad: 4,
    });
    assert_eq!(receiver.data, vec![1, 2, 3, 4]);
    receiver.act(&VoiceEvent::RtpPacket {
        packet: vec![7, 8],
        payload_end_pad: 0,
    });
    assert_eq!(receiver.data, vec![1, 2, 3, 4, 7, 8]);
}

#[test]
fn a_buffer_past_its_limit_is_cleared_before_the_next_insert() {
    let mut receiver = Receiver::new(vec![0; DEFAULT_BUFFER_SIZE + 1]);
    receiver.insert(&[7, 8]);
    assert_eq!(receiver.data, vec![7, 8]);
}
