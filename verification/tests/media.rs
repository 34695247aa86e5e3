use bytes::Bytes;
use nezumi::media::{MediaPacket, MediaTrack, Profile, TrackKind};

#[test]
fn hevc_track_is_video_track_zero() {
    let expected = MediaTrack { id: 0, kind: TrackKind::Video, codec: 0x01 };
    assert_eq!(Profile::Hevc.video_track(), expected);
}

#[test]
fn timestamp_track_has_the_dummy_codec() {
    let expected = MediaTrack { id: 0, kind: TrackKind::Video, codec: 0 };
    assert_eq!(Profile::Timestamps.video_track(), expected);
}

#[test]
fn payload_bytes_are_those_of_the_packet() {
    let packet = MediaPacket {
        track_id: 3,
        pts: 9,
        is_keyframe: true,
        payload: Bytes::from_static(&[0, 0, 0, 1, 0x40]),
    };
    assert_eq!(packet.payload_bytes(), &[0u8, 0, 0, 1, 0x40][..]);
}
