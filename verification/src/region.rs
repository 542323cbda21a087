//! The region of a source that a file player is scheduled to render, and the
//! time stamps that say when.

use crate::format::StreamFormat;
use vstd::prelude::*;

verus! {

/// Time stamp flag: the sample time of the stamp is valid.
pub const SAMPLE_TIME_VALID: u32 = 1;

/// The sample time, as the bits of the 64-bit float -1, that asks a unit to
/// begin on its next render cycle.
pub const NEXT_RENDER_CYCLE: u64 = 0xBFF0_0000_0000_0000;

/// The number of frames to pre-roll that asks for no priming.
pub const NO_PRIMING: u32 = 0;

/// A point in a unit's render time. Only the sample time is ever set; every
/// other part of the native stamp stays zero.
#[derive(Clone, Copy, Debug, PartialEq, Eq, Structural)]
pub struct TimeStamp {
    /// The sample time, as the bits of a 64-bit float.
    pub sample_time_bits: u64,
    /// Which parts of the stamp are valid.
    pub flags: u32,
}

/// A slice of the source for the file player to render.
#[derive(Clone, Copy, Debug, PartialEq, Eq, Structural)]
pub struct ScheduledRegion {
    pub time_stamp: TimeStamp,
    pub loop_count: u32,
    pub start_frame: i64,
    pub frames_to_play: u32,
}

/// The stamp whose only valid part is the given sample time.
pub open spec fn stamp_at(sample_time_bits: u64) -> TimeStamp {
    TimeStamp { sample_time_bits, flags: SAMPLE_TIME_VALID }
}

/// The number of frames in `packet_count` packets of the format.
pub open spec fn frames_in(packet_count: u64, format: StreamFormat) -> int {
    packet_count * format.frames_per_packet
}

/// Whether a region can hold the frames of the source: its frame count is a
/// 32-bit field.
pub open spec fn region_fits(packet_count: u64, format: StreamFormat) -> bool {
    frames_in(packet_count, format) <= u32::MAX
}

/// The region that plays a whole source once from its first frame, stamped
/// with sample time zero. It is meant for a source that `region_fits` holds of.
pub open spec fn whole_source(packet_count: u64, format: StreamFormat) -> ScheduledRegion {
    ScheduledRegion {
        time_stamp: stamp_at(0),
        loop_count: 1,
        start_frame: 0,
        frames_to_play: frames_in(packet_count, format) as u32,
    }
}

/// The time stamp to write to a unit so that it starts at `sample_time_bits`.
pub fn start_time_stamp(sample_time_bits: u64) -> (stamp: TimeStamp)
    ensures
        stamp == stamp_at(sample_time_bits),
{
    TimeStamp { sample_time_bits, flags: SAMPLE_TIME_VALID }
}

/// The number of frames in the source, where 64 bits hold it.
pub fn total_frames(packet_count: u64, format: &StreamFormat) -> (frames: Option<u64>)
    ensures
        frames is Some <==> frames_in(packet_count, *format) <= u64::MAX,
        frames is Some ==> frames->Some_0 == frames_in(packet_count, *format),
{
    let per_packet: u64 = format.frames_per_packet as u64;
    packet_count.checked_mul(per_packet)
}

/// The region to schedule so that the whole source is played once, or
/// `None` for a source with more frames than a region can hold: no region
/// is ever made with a part of the count.
pub fn scheduled_file_region(packet_count: u64, file_format: &StreamFormat) -> (region: Option<
    ScheduledRegion,
>)
    ensures
        region is Some <==> region_fits(packet_count, *file_format),
        region is Some ==> region->Some_0 == whole_source(packet_count, *file_format),
        region is Some ==> region->Some_0.frames_to_play == frames_in(packet_count, *file_format),
{
    match total_frames(packet_count, file_format) {
        Some(frames) => {
            if frames <= 0xFFFF_FFFF {
                Some(
                    ScheduledRegion {
                        time_stamp: start_time_stamp(0),
                        loop_count: 1,
                        start_frame: 0,
                        frames_to_play: frames as u32,
                    },
                )
            } else {
                None
            }
        },
        None => None,
    }
}

} // verus!
