use artnet_decode::op_poll::{OpPoll, OpPollReply};
use artnet_decode::op_timecode::{validate_version, OpTimeCode};

const PACKET: [u8; 19] = [
    65, 114, 116, 45, 78, 101, 116, 0, // art-net
    0x00, 0x97, // op-code lo, hi
    0, 14, // protocol. ver lo, hi
    0, 0, // filler 1, 2
    1, 2, 3, 4, 5, // frames, seconds, minutes, hours, type
];

#[test]
fn test_valid_version() {
    assert_eq!(validate_version(&PACKET), Some(()));
}

#[test]
fn op_timecode_test_from_raw() {
    let packet = OpTimeCode::from_raw(&PACKET).expect("Unable to parse packet");
    assert_eq!(packet.frames, 1);
    assert_eq!(packet.seconds, 2);
    assert_eq!(packet.minutes, 3);
    assert_eq!(packet.hours, 4);
    assert_eq!(packet.typee, 5);
}

#[test]
fn version_check_rejects_other_versions_and_short_buffers() {
    let mut b = PACKET;
    b[10] = 14;
    b[11] = 0;
    assert_eq!(validate_version(&b), None);
    assert_eq!(validate_version(&PACKET[..11]), None);
    assert_eq!(validate_version(&PACKET[..12]), Some(()));
    assert_eq!(OpTimeCode::from_raw(&b), None);
}

#[test]
fn timecode_needs_nineteen_bytes() {
    assert_eq!(OpTimeCode::from_raw(&PACKET[..18]), None);
    assert!(OpTimeCode::from_raw(&PACKET[..19]).is_some());
}

#[test]
fn poll_payload_markers() {
    assert_eq!(OpPoll::from_raw(&PACKET[..14]), Some(OpPoll {}));
    assert_eq!(OpPoll::from_raw(&PACKET[..13]), None);
    assert_eq!(OpPollReply::from_raw(&[]), Some(OpPollReply {}));
}
