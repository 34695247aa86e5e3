//! Tracks and packets.

use bytes::Bytes;
use vstd::prelude::*;

use crate::payload::bytes_as_slice;
use crate::payload::bytes_content;

verus! {

/// What a track carries.
#[derive(Debug, Clone, Copy, PartialEq, Eq, Structural)]
pub enum TrackKind {
    Video,
    Audio,
}

/// How much of each frame is captured.
#[derive(Debug, Clone, Copy, PartialEq, Eq, Structural)]
pub enum Profile {
    /// The frames themselves, encoded as HEVC.
    Hevc,
    /// Only the times at which frames arrive, each with an empty payload.
    Timestamps,
}

/// The id of the one track that a camera has.
pub const VIDEO_TRACK_ID: u32 = 0;

/// The codec's number of HEVC.
pub const HEVC_CODEC_ID: u8 = 0x01;

/// The codec's number of packets that carry no frame.
pub const DUMMY_CODEC_ID: u8 = 0;

/// One stream of a producer.
#[derive(Debug, Clone, Copy, PartialEq, Eq, Structural)]
pub struct MediaTrack {
    pub id: u32,
    pub kind: TrackKind,
    /// The codec's number, `0x01` for HEVC.
    pub codec: u8,
}

impl Profile {
    /// The track that a camera is offered as.
    pub open spec fn spec_video_track(self) -> MediaTrack {
        MediaTrack {
            id: VIDEO_TRACK_ID,
            kind: TrackKind::Video,
            codec: match self {
                Profile::Hevc => HEVC_CODEC_ID,
                Profile::Timestamps => DUMMY_CODEC_ID,
            },
        }
    }

    /// The track that a camera is offered as.
    #[verifier::when_used_as_spec(spec_video_track)]
    pub fn video_track(self) -> (res: MediaTrack)
        ensures
            res == self.spec_video_track(),
    {
        MediaTrack {
            id: VIDEO_TRACK_ID,
            kind: TrackKind::Video,
            codec: match self {
                Profile::Hevc => HEVC_CODEC_ID,
                Profile::Timestamps => DUMMY_CODEC_ID,
            },
        }
    }
}

/// One encoded frame.
#[derive(Debug)]
pub struct MediaPacket {
    pub track_id: u32,
    /// The presentation time, in units of 100 ns.
    pub pts: u64,
    pub is_keyframe: bool,
    pub payload: Bytes,
}

/// What a packet says, with its payload as a sequence of bytes.
#[verifier::ext_equal]
pub struct PacketView {
    pub track_id: u32,
    pub pts: u64,
    pub is_keyframe: bool,
    pub payload: Seq<u8>,
}

impl View for MediaPacket {
    type V = PacketView;

    open spec fn view(&self) -> PacketView {
        PacketView {
            track_id: self.track_id,
            pts: self.pts,
            is_keyframe: self.is_keyframe,
            payload: bytes_content(self.payload),
        }
    }
}

impl MediaPacket {
    /// The bytes that a consumer writes for this packet.
    pub fn payload_bytes(&self) -> (res: &[u8])
        ensures
            res@ == self@.payload,
            res@ == bytes_content(self.payload),
    {
        bytes_as_slice(&self.payload)
    }
}

/// A camera is offered as video track zero. Its codec is HEVC where frames are captured, and none
/// where only times are.
pub proof fn camera_is_video_track_zero(profile: Profile)
    ensures
        profile.video_track().id == 0,
        profile.video_track().kind == TrackKind::Video,
        profile.video_track().codec == 1 <==> profile == Profile::Hevc,
        profile.video_track().codec == 0 <==> profile == Profile::Timestamps,
{
}

/// What is said of a packet is said of its own fields, and of all the bytes that it holds.
pub proof fn packets_say_what_they_hold(packet: MediaPacket)
    ensures
        packet@.track_id == packet.track_id,
        packet@.pts == packet.pts,
        packet@.is_keyframe == packet.is_keyframe,
        packet@.payload == bytes_content(packet.payload),
{
}

} // verus!
