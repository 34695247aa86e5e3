//! What holds of the sequences of calls taken together.

use vstd::prelude::*;

use crate::com::Platform;
use crate::devices::are_cameras_enumerated;
use crate::devices::first_camera_is_the_lowest_present_entry;
use crate::devices::returned_cameras_were_enumerated;
use crate::devices::DeviceList;
use crate::devices::DevicesReply;
use crate::devices::DevicesStep;
use crate::error::CaptureError;
use crate::graphics::binds_to;
use crate::graphics::returned_manager_is_bound;
use crate::graphics::ManagerReply;
use crate::graphics::ManagerStep;
use crate::machine::run;
use crate::machine::times;
use crate::machine::Machine;
use crate::media::MediaPacket;
use crate::media::MediaTrack;
use crate::media::Profile;
use crate::payload::bytes_content;
use crate::reader::attributes_hold_what_the_reader_needs;
use crate::reader::first_device_is_read_with_the_attributes;
use crate::reader::output_is_set_to_video_of_hevc;
use crate::reader::AttributesReply;
use crate::reader::AttributesStep;
use crate::reader::CameraReply;
use crate::reader::CameraStep;
use crate::reader::HevcReply;
use crate::reader::HevcStep;
use crate::reading::answers;
use crate::reading::asks_for_sample;
use crate::reading::check_of_a_set_stop_flag_ends_well;
use crate::reading::hands_over_packet;
use crate::reading::packets_are_sent_once_and_in_order;
use crate::reading::packets_read;
use crate::reading::packets_sent;
use crate::reading::steps_to_the_end;
use crate::reading::stop_flag_bounds_reading;
use crate::reading::stop_flag_ends_reading;
use crate::reading::ReadReply;
use crate::reading::ReadStep;
use crate::sample::gives_sample;
use crate::sample::is_copy_of_locked_bytes;
use crate::sample::lemma_given_stays_given;
use crate::sample::packets_bear_the_track_id;
use crate::sample::reader_is_asked_once_for_a_packet;
use crate::sample::returned_bytes_were_locked;
use crate::sample::BufferReply;
use crate::sample::BufferStep;
use crate::sample::PacketReply;
use crate::sample::PacketStep;
use crate::windows_mf::first_track_is_read_as_it_is;
use crate::windows_mf::track_outcome;
use crate::windows_mf::ProducerView;
use crate::windows_mf::SetupReply;
use crate::windows_mf::SetupStep;
use crate::worker::thread_is_started_for_the_track_found;
use crate::worker::BeginReply;
use crate::worker::BeginStep;

verus! {

/// Whether `reply` says that the pending call has made the manager of `producer` for its device.
pub open spec fn makes_manager_of<P: Platform>(producer: ProducerView<P>) -> spec_fn(
    SetupStep<P, ProducerView<P>>,
    SetupReply<P>,
) -> bool {
    |step: SetupStep<P, ProducerView<P>>, reply: SetupReply<P>|
        {
            &&& step matches SetupStep::CreateManager { device, context }
            &&& device == producer.d3d_device
            &&& context == producer.d3d_context
            &&& reply == SetupReply::<P>::ManagerCreated(Ok(producer.dxgi_manager))
        }
}

/// Whether `reply` says that the pending call has filled `attributes` with the manager of
/// `producer`.
pub open spec fn fills_attributes_for<P: Platform>(
    producer: ProducerView<P>,
    attributes: P::Attributes,
) -> spec_fn(SetupStep<P, ProducerView<P>>, SetupReply<P>) -> bool {
    |step: SetupStep<P, ProducerView<P>>, reply: SetupReply<P>|
        {
            &&& step matches SetupStep::CreateAttributes { device, context, manager }
            &&& device == producer.d3d_device
            &&& context == producer.d3d_context
            &&& manager == producer.dxgi_manager
            &&& reply == SetupReply::<P>::AttributesCreated(Ok(attributes))
        }
}

/// Whether `reply` says that the pending call has made the reader of `producer` with `attributes`.
pub open spec fn makes_reader_of<P: Platform>(
    producer: ProducerView<P>,
    attributes: P::Attributes,
) -> spec_fn(SetupStep<P, ProducerView<P>>, SetupReply<P>) -> bool {
    |step: SetupStep<P, ProducerView<P>>, reply: SetupReply<P>|
        {
            &&& step matches SetupStep::CreateReader { device, context, manager, attributes: held }
            &&& device == producer.d3d_device
            &&& context == producer.d3d_context
            &&& manager == producer.dxgi_manager
            &&& held == attributes
            &&& reply == SetupReply::<P>::ReaderCreated(Ok(producer.source_reader))
        }
}

/// Whether `reply` says that the pending call has made the reader of `producer` give out HEVC.
pub open spec fn forces_hevc_on<P: Platform>(producer: ProducerView<P>) -> spec_fn(
    SetupStep<P, ProducerView<P>>,
    SetupReply<P>,
) -> bool {
    |step: SetupStep<P, ProducerView<P>>, reply: SetupReply<P>|
        {
            &&& step matches SetupStep::ForceHevc { device, context, manager, reader }
            &&& device == producer.d3d_device
            &&& context == producer.d3d_context
            &&& manager == producer.dxgi_manager
            &&& reader == producer.source_reader
            &&& reply matches SetupReply::HevcForced(Ok(_))
        }
}

/// Whether a run has made the parts of `producer` for each other, each of them once.
pub open spec fn parts_belong_together<P: Platform>(
    profile: Profile,
    replies: Seq<SetupReply<P>>,
    producer: ProducerView<P>,
    attributes: P::Attributes,
) -> bool {
    let start = SetupStep::<P, ProducerView<P>>::start();
    &&& times(start, profile, replies, makes_manager_of(producer)) == 1
    &&& times(start, profile, replies, fills_attributes_for(producer, attributes)) == 1
    &&& times(start, profile, replies, makes_reader_of(producer, attributes)) == 1
    &&& times(start, profile, replies, forces_hevc_on(producer)) == match profile {
        Profile::Hevc => 1nat,
        Profile::Timestamps => 0nat,
    }
}

/// Whatever arrives and in whatever order, the parts of a producer that is set up were made for
/// each other: its manager for its device, attributes with that manager, its reader with those
/// attributes; and where frames are captured, HEVC was forced on that reader.
pub proof fn producer_is_made_of_its_own_parts<P: Platform>(
    profile: Profile,
    replies: Seq<SetupReply<P>>,
    producer: ProducerView<P>,
)
    requires
        run(SetupStep::<P, ProducerView<P>>::start(), profile, replies) == SetupStep::<
            P,
            ProducerView<P>,
        >::Finished(Ok(producer)),
    ensures
        exists|attributes: P::Attributes| #[trigger]
            parts_belong_together(profile, replies, producer, attributes),
    decreases replies.len(),
{
    let start = SetupStep::<P, ProducerView<P>>::start();
    let before = replies.drop_last();
    if run(start, profile, before) is Finished {
        producer_is_made_of_its_own_parts(profile, before, producer);
        let attributes = choose|attributes: P::Attributes|
            parts_belong_together(profile, before, producer, attributes);
        assert(parts_belong_together(profile, replies, producer, attributes));
    } else {
        let attributes = attributes_taken(profile, before);
        parts_so_far(profile, before, producer, attributes);
        assert(parts_belong_together(profile, replies, producer, attributes));
    }
}

/// The attributes that the reader was last made with.
spec fn attributes_taken<P: Platform>(
    profile: Profile,
    replies: Seq<SetupReply<P>>,
) -> P::Attributes
    decreases replies.len(),
{
    match run(SetupStep::<P, ProducerView<P>>::start(), profile, replies) {
        SetupStep::CreateReader { attributes, .. } => attributes,
        _ => if replies.len() == 0 {
            arbitrary()
        } else {
            attributes_taken(profile, replies.drop_last())
        },
    }
}

/// How often the parts of `producer` have been made so far.
proof fn parts_so_far<P: Platform>(
    profile: Profile,
    replies: Seq<SetupReply<P>>,
    producer: ProducerView<P>,
    attributes: P::Attributes,
)
    ensures
        ({
            let start = SetupStep::<P, ProducerView<P>>::start();
            let reached = run(start, profile, replies);
            let managers = times(start, profile, replies, makes_manager_of(producer));
            let filled = times(start, profile, replies, fills_attributes_for(producer, attributes));
            let readers = times(start, profile, replies, makes_reader_of(producer, attributes));
            let forced = times(start, profile, replies, forces_hevc_on(producer));
            match reached {
                SetupStep::CreateAttributes { device, context, manager } => {
                    &&& device == producer.d3d_device && context == producer.d3d_context && manager
                        == producer.dxgi_manager ==> managers == 1
                    &&& filled == 0 && readers == 0 && forced == 0
                },
                SetupStep::CreateReader { device, context, manager, attributes: held } => {
                    &&& device == producer.d3d_device && context == producer.d3d_context && manager
                        == producer.dxgi_manager ==> {
                        &&& managers == 1
                        &&& held == attributes ==> filled == 1
                    }
                    &&& readers == 0 && forced == 0
                },
                SetupStep::ForceHevc { device, context, manager, reader } => {
                    &&& device == producer.d3d_device && context == producer.d3d_context && manager
                        == producer.dxgi_manager && reader == producer.source_reader ==> {
                        &&& managers == 1
                        &&& attributes == attributes_taken(profile, replies) ==> {
                            &&& filled == 1
                            &&& readers == 1
                        }
                    }
                    &&& forced == 0
                    &&& profile == Profile::Hevc
                },
                SetupStep::Finished(_) => true,
                _ => managers == 0 && filled == 0 && readers == 0 && forced == 0,
            }
        }),
    decreases replies.len(),
{
    reveal_with_fuel(attributes_taken, 2);
    if replies.len() > 0 {
        parts_so_far(profile, replies.drop_last(), producer, attributes);
    }
}

/// What came back from the single calls of which the larger calls of setup consist.
pub struct SingleCalls<P: Platform> {
    pub manager: Seq<ManagerReply<P>>,
    pub attributes: Seq<AttributesReply<P>>,
    pub camera: Seq<CameraReply<P>>,
    pub hevc: Seq<HevcReply<P>>,
}

/// Whether the larger call that is pending, carried out by single calls on the handles in `step`,
/// ends with `reply`.
pub open spec fn is_outcome_of_calls<P: Platform>(
    profile: Profile,
    step: SetupStep<P, ProducerView<P>>,
    reply: SetupReply<P>,
    calls: SingleCalls<P>,
) -> bool {
    match (step, reply) {
        (SetupStep::CreateManager { device, .. }, SetupReply::ManagerCreated(result)) => run(
            ManagerStep::<P>::start(&device),
            (),
            calls.manager,
        ) == ManagerStep::<P>::Finished(result),
        (SetupStep::CreateAttributes { manager, .. }, SetupReply::AttributesCreated(result)) => run(
            AttributesStep::<P>::start(profile, &manager),
            profile,
            calls.attributes,
        ) == AttributesStep::<P>::Finished(result),
        (SetupStep::CreateReader { attributes, .. }, SetupReply::ReaderCreated(result)) => run(
            CameraStep::<P>::start(&attributes),
            profile,
            calls.camera,
        ) == CameraStep::<P>::Finished(result),
        (SetupStep::ForceHevc { reader, .. }, SetupReply::HevcForced(result)) => run(
            HevcStep::<P>::start(&reader),
            (),
            calls.hevc,
        ) == HevcStep::<P>::Finished(result),
        _ => true,
    }
}

/// Whether each of `replies` to a larger call is what `calls` come to.
pub open spec fn calls_are_carried_out<P: Platform>(
    profile: Profile,
    replies: Seq<SetupReply<P>>,
    calls: SingleCalls<P>,
) -> bool {
    forall|i: int|
        0 <= i < replies.len() ==> is_outcome_of_calls(
            profile,
            run(SetupStep::<P, ProducerView<P>>::start(), profile, replies.take(i)),
            #[trigger] replies[i],
            calls,
        )
}

/// Whether `calls`, begun on `device`, made `manager` and bound the device to it once.
pub open spec fn manager_is_for<P: Platform>(
    calls: SingleCalls<P>,
    device: P::Device,
    manager: P::Manager,
) -> bool {
    let start = ManagerStep::<P>::start(&device);
    &&& run(start, (), calls.manager) == ManagerStep::<P>::Finished(Ok(manager))
    &&& times(start, (), calls.manager, binds_to(manager)) == 1
}

/// Whether `calls`, begun on `manager`, made `attributes` and set what the reader needs.
pub open spec fn attributes_are_for<P: Platform>(
    profile: Profile,
    calls: SingleCalls<P>,
    manager: P::Manager,
    attributes: P::Attributes,
) -> bool {
    &&& run(AttributesStep::<P>::start(profile, &manager), profile, calls.attributes)
        == AttributesStep::<P>::Finished(Ok(attributes))
    &&& calls.attributes.contains(AttributesReply::Created(Ok(Some(attributes))))
    &&& calls.attributes.contains(AttributesReply::ManagerSet(Ok(())))
    &&& calls.attributes.contains(AttributesReply::TransformsEnabled(Ok(())))
}

/// Whether `calls`, begun on attributes that hold `manager`, made `reader`.
pub open spec fn reader_is_for<P: Platform>(
    profile: Profile,
    calls: SingleCalls<P>,
    manager: P::Manager,
    reader: P::Reader,
) -> bool {
    &&& exists|attributes: P::Attributes|
        {
            &&& #[trigger] attributes_are_for(profile, calls, manager, attributes)
            &&& run(CameraStep::<P>::start(&attributes), profile, calls.camera) == CameraStep::<
                P,
            >::Finished(Ok(reader))
        }
    &&& calls.camera.contains(CameraReply::Created(Ok(reader)))
}

/// Whether `calls`, begun on `reader`, made it give out HEVC.
pub open spec fn reader_gives_hevc<P: Platform>(
    calls: SingleCalls<P>,
    reader: P::Reader,
) -> bool {
    &&& run(HevcStep::<P>::start(&reader), (), calls.hevc) == HevcStep::<P>::Finished(Ok(()))
    &&& calls.hevc.contains(HevcReply::OutputSet(Ok(())))
}

/// Whether `calls` made the handles of `producer` for each other.
pub open spec fn is_made_by_single_calls<P: Platform>(
    profile: Profile,
    calls: SingleCalls<P>,
    producer: ProducerView<P>,
) -> bool {
    &&& manager_is_for(calls, producer.d3d_device, producer.dxgi_manager)
    &&& reader_is_for(profile, calls, producer.dxgi_manager, producer.source_reader)
    &&& profile == Profile::Hevc ==> reader_gives_hevc(calls, producer.source_reader)
}

/// From the single calls to the producer: where each larger call was carried out on the handles
/// that setup asked it for, the device of the producer was bound to its manager once, and its
/// reader was made with attributes that hold that manager; and where frames are captured, that
/// reader was made to give out HEVC.
pub proof fn producer_is_made_by_single_calls<P: Platform>(
    profile: Profile,
    replies: Seq<SetupReply<P>>,
    calls: SingleCalls<P>,
)
    requires
        calls_are_carried_out(profile, replies, calls),
    ensures
        run(SetupStep::<P, ProducerView<P>>::start(), profile, replies) matches SetupStep::Finished(
            Ok(producer),
        ) ==> is_made_by_single_calls(profile, calls, producer),
{
    handles_are_made_by_single_calls(profile, replies, calls);
}

/// Whether `calls` made the handles in `step` for each other.
spec fn holds_made_handles<P: Platform>(
    profile: Profile,
    calls: SingleCalls<P>,
    step: SetupStep<P, ProducerView<P>>,
) -> bool {
    match step {
        SetupStep::CreateAttributes { device, manager, .. } => manager_is_for(
            calls,
            device,
            manager,
        ),
        SetupStep::CreateReader { device, manager, attributes, .. } => {
            &&& manager_is_for(calls, device, manager)
            &&& attributes_are_for(profile, calls, manager, attributes)
        },
        SetupStep::ForceHevc { device, manager, reader, .. } => {
            &&& manager_is_for(calls, device, manager)
            &&& reader_is_for(profile, calls, manager, reader)
        },
        SetupStep::Finished(Ok(producer)) => is_made_by_single_calls(profile, calls, producer),
        _ => true,
    }
}

/// On the way, the pending call holds handles that `calls` made for each other.
proof fn handles_are_made_by_single_calls<P: Platform>(
    profile: Profile,
    replies: Seq<SetupReply<P>>,
    calls: SingleCalls<P>,
)
    requires
        calls_are_carried_out(profile, replies, calls),
    ensures
        holds_made_handles(
            profile,
            calls,
            run(SetupStep::<P, ProducerView<P>>::start(), profile, replies),
        ),
    decreases replies.len(),
{
    if replies.len() > 0 {
        let start = SetupStep::<P, ProducerView<P>>::start();
        let before = replies.drop_last();
        assert forall|i: int| 0 <= i < before.len() implies is_outcome_of_calls(
            profile,
            run(start, profile, before.take(i)),
            #[trigger] before[i],
            calls,
        ) by {
            assert(before.take(i) =~= replies.take(i));
            assert(before[i] == replies[i]);
        }
        handles_are_made_by_single_calls(profile, before, calls);
        assert(replies.take(replies.len() - 1) =~= before);
        assert(replies[replies.len() - 1] == replies.last());
        one_more_handle_is_made(profile, calls, run(start, profile, before), replies.last());
    }
}

/// One call more keeps it so.
proof fn one_more_handle_is_made<P: Platform>(
    profile: Profile,
    calls: SingleCalls<P>,
    step: SetupStep<P, ProducerView<P>>,
    reply: SetupReply<P>,
)
    requires
        holds_made_handles(profile, calls, step),
        is_outcome_of_calls(profile, step, reply, calls),
    ensures
        holds_made_handles(profile, calls, step.after(profile, reply)),
{
    match (step, reply) {
        (SetupStep::CreateManager { device, .. }, SetupReply::ManagerCreated(Ok(manager))) => {
            returned_manager_is_bound::<P>(&device, calls.manager, manager);
        },
        (
            SetupStep::CreateAttributes { manager, .. },
            SetupReply::AttributesCreated(Ok(attributes)),
        ) => {
            attributes_hold_what_the_reader_needs::<P>(profile, &manager, calls.attributes);
            assert(attributes_are_for(profile, calls, manager, attributes));
        },
        (
            SetupStep::CreateReader { manager, attributes, .. },
            SetupReply::ReaderCreated(Ok(reader)),
        ) => {
            first_device_is_read_with_the_attributes::<P>(profile, &attributes, calls.camera);
            assert(attributes_are_for(profile, calls, manager, attributes));
            assert(reader_is_for(profile, calls, manager, reader));
        },
        (SetupStep::ForceHevc { reader, .. }, SetupReply::HevcForced(Ok(done))) => {
            assert(done == ());
            output_is_set_to_video_of_hevc::<P>(&reader, calls.hevc);
            assert(reader_gives_hevc(calls, reader));
        },
        _ => {},
    }
}

/// Whether each list of cameras in `replies` is what `calls` come to.
pub open spec fn cameras_are_listed_by<P: Platform>(
    profile: Profile,
    replies: Seq<CameraReply<P>>,
    calls: Seq<DevicesReply<P, Seq<Option<P::Activate>>>>,
) -> bool {
    forall|i: int|
        0 <= i < replies.len() ==> (#[trigger] replies[i] matches CameraReply::Listed(Ok(listed))
            ==> run(DevicesStep::<P, Seq<P::Activate>>::start(), profile, calls) == DevicesStep::<
            P,
            Seq<P::Activate>,
        >::Finished(Ok(listed@)))
}

/// From the list that the platform owns to the camera: where the cameras were listed by `calls`,
/// the one that is activated is the first in the list that was enumerated, the vacant entries left
/// out.
pub proof fn first_camera_enumerated_is_activated<P: Platform>(
    profile: Profile,
    attributes: P::Attributes,
    replies: Seq<CameraReply<P>>,
    calls: Seq<DevicesReply<P, Seq<Option<P::Activate>>>>,
)
    requires
        cameras_are_listed_by(profile, replies, calls),
    ensures
        run(CameraStep::<P>::start(&attributes), profile, replies) matches CameraStep::Activate {
            device,
            ..
        } ==> exists|cameras: Seq<P::Activate>|
            {
                &&& #[trigger] are_cameras_enumerated::<P>(calls, cameras)
                &&& cameras.len() > 0
                &&& cameras.first() == device
            },
{
    first_device_is_read_with_the_attributes::<P>(profile, &attributes, replies);
    if let CameraStep::Activate { device, .. } = run(
        CameraStep::<P>::start(&attributes),
        profile,
        replies,
    ) {
        let i = choose|i: int|
            0 <= i < replies.len() && (#[trigger] replies[i] matches CameraReply::Listed(
                Ok(devices),
            ) && devices@.len() > 0 && devices@.first() == device);
        if let CameraReply::Listed(Ok(devices)) = replies[i] {
            returned_cameras_were_enumerated::<P>(profile, calls);
            assert(are_cameras_enumerated::<P>(calls, devices@));
        }
    }
}

/// Once a producer has been dropped, its read thread, whatever it is at, asks for at most one more
/// sample and hands over at most one more packet. It ends within a few replies.
pub proof fn dropped_producer_ends_its_read_thread<P: Platform>(
    producer: ProducerView<P>,
    pending: ReadStep<P::Error>,
    replies: Seq<ReadReply<P::Error>>,
)
    requires
        forall|i: int|
            0 <= i < replies.len() ==> (#[trigger] replies[i] matches ReadReply::StopFlag(seen)
                ==> seen == producer.dropped().stop_flag),
    ensures
        times(pending, (), replies, asks_for_sample()) <= 1,
        times(pending, (), replies, hands_over_packet()) <= 1,
        (forall|i: int|
            0 <= i < replies.len() ==> answers(
                #[trigger] run(pending, (), replies.take(i)),
                replies[i],
            )) ==> replies.len() + steps_to_the_end(run(pending, (), replies)) <= steps_to_the_end(
            pending,
        ),
{
    assert(!replies.contains(ReadReply::StopFlag(false)));
    stop_flag_bounds_reading(pending, replies);
    if forall|i: int|
        0 <= i < replies.len() ==> answers(
            #[trigger] run(pending, (), replies.take(i)),
            replies[i],
        ) {
        stop_flag_ends_reading(pending, replies);
    }
}

/// The first check after a producer has been dropped ends reading well: nothing is read or handed
/// over after it, and the flag stays set.
pub proof fn check_of_a_dropped_producer_ends_well<P: Platform>(
    producer: ProducerView<P>,
    more: Seq<ReadReply<P::Error>>,
)
    ensures
        ({
            let pending = ReadStep::<P::Error>::CheckStopFlag;
            let replies = seq![
                ReadReply::<P::Error>::StopFlag(producer.dropped().stop_flag),
            ] + more;
            &&& run(pending, (), replies) == ReadStep::<P::Error>::Finished(Ok(()))
            &&& times(pending, (), replies, asks_for_sample()) == 0
            &&& times(pending, (), replies, hands_over_packet()) == 0
        }),
        producer.dropped().dropped() == producer.dropped(),
{
    check_of_a_set_stop_flag_ends_well::<P::Error>(more);
}

/// Whether calls that were begun on `reader`, for `track`, ended with `result`.
pub open spec fn packet_is_from<P: Platform>(
    reader: P::Reader,
    track: MediaTrack,
    result: Result<Option<MediaPacket>, CaptureError<P::Error>>,
) -> bool {
    exists|replies: Seq<PacketReply<P>>| #[trigger]
        run(PacketStep::<P>::start(&reader), track, replies) == PacketStep::<P>::Finished(result)
}

/// Whether each packet in `replies` was made by the calls that begin on `reader`, for `track`.
pub open spec fn packets_are_from<P: Platform>(
    reader: P::Reader,
    track: MediaTrack,
    replies: Seq<ReadReply<P::Error>>,
) -> bool {
    forall|i: int|
        0 <= i < replies.len() ==> (#[trigger] replies[i] matches ReadReply::Packet(result)
            ==> packet_is_from::<P>(reader, track, result))
}

/// From a producer's reader to the receiver: where each packet was made by the single calls on
/// `reader` for `track`, every packet that goes out bears the id of that track.
pub proof fn packets_sent_bear_the_track_id<P: Platform>(
    reader: P::Reader,
    track: MediaTrack,
    replies: Seq<ReadReply<P::Error>>,
)
    requires
        packets_are_from::<P>(reader, track, replies),
    ensures
        forall|k: int|
            0 <= k < packets_sent(replies).len() ==> (#[trigger] packets_sent(replies)[k]).track_id
                == track.id,
{
    packets_are_sent_once_and_in_order::<P::Error>(replies);
    assert forall|k: int| 0 <= k < packets_sent(replies).len() implies (#[trigger] packets_sent(
        replies,
    )[k]).track_id == track.id by {
        packet_read_bears_the_track_id::<P>(reader, track, replies, k);
        assert(packets_sent(replies)[k] == packets_read(replies)[k]);
    }
}

/// A packet that has been read bears the id of the track.
proof fn packet_read_bears_the_track_id<P: Platform>(
    reader: P::Reader,
    track: MediaTrack,
    replies: Seq<ReadReply<P::Error>>,
    k: int,
)
    requires
        packets_are_from::<P>(reader, track, replies),
        0 <= k < packets_read(replies).len(),
    ensures
        packets_read(replies)[k].track_id == track.id,
    decreases replies.len(),
{
    let before = replies.drop_last();
    assert forall|i: int| 0 <= i < before.len() implies (#[trigger] before[i] matches
        ReadReply::Packet(result) ==> packet_is_from::<P>(reader, track, result)) by {
        assert(before[i] == replies[i]);
    }
    if k < packets_read(before).len() {
        packet_read_bears_the_track_id::<P>(reader, track, before, k);
    } else {
        assert(replies[replies.len() - 1] == replies.last());
        match replies.last() {
            ReadReply::Packet(result) => {
                let calls = choose|calls: Seq<PacketReply<P>>| #[trigger]
                    run(PacketStep::<P>::start(&reader), track, calls) == PacketStep::<P>::Finished(
                        result,
                    );
                packets_bear_the_track_id::<P>(&reader, track, calls);
            },
            _ => {},
        }
    }
}

/// Whether the bytes of the sample that `step` is at, copied by `calls`, come to `reply`.
pub open spec fn payload_is_copied_by<'a, P: Platform>(
    step: PacketStep<'a, P>,
    reply: PacketReply<P>,
    calls: Seq<BufferReply<P, Seq<u8>>>,
) -> bool {
    match (step, reply) {
        (PacketStep::CopyPayload { sample, .. }, PacketReply::Payload(Ok(payload))) => run(
            BufferStep::<P, Seq<u8>>::start(&sample),
            (),
            calls,
        ) == BufferStep::<P, Seq<u8>>::Finished(Ok(bytes_content(payload))),
        _ => true,
    }
}

/// Whether each payload in `replies` was copied by `calls` from the sample that was pending.
pub open spec fn payloads_are_copied_by<P: Platform>(
    reader: P::Reader,
    track: MediaTrack,
    replies: Seq<PacketReply<P>>,
    calls: Seq<BufferReply<P, Seq<u8>>>,
) -> bool {
    forall|i: int|
        0 <= i < replies.len() ==> payload_is_copied_by(
            run(PacketStep::<P>::start(&reader), track, replies.take(i)),
            #[trigger] replies[i],
            calls,
        )
}

/// Whether `data` are the bytes of a sample that the reader gave, as `calls` copied them.
pub open spec fn are_bytes_of_the_sample<P: Platform>(
    replies: Seq<PacketReply<P>>,
    calls: Seq<BufferReply<P, Seq<u8>>>,
    data: Seq<u8>,
) -> bool {
    exists|sample: P::Sample|
        {
            &&& #[trigger] gives_sample(replies, sample)
            &&& run(BufferStep::<P, Seq<u8>>::start(&sample), (), calls) == BufferStep::<
                P,
                Seq<u8>,
            >::Finished(Ok(data))
        }
}

/// From the locked buffer to the packet: whatever arrives and in whatever order, where the payload
/// was copied by `calls`, a packet carries the bytes of the sample that the reader gave, as many as
/// its locked buffer held.
pub proof fn packet_carries_the_bytes_of_its_sample<P: Platform>(
    reader: P::Reader,
    track: MediaTrack,
    replies: Seq<PacketReply<P>>,
    calls: Seq<BufferReply<P, Seq<u8>>>,
)
    requires
        payloads_are_copied_by(reader, track, replies, calls),
    ensures
        run(PacketStep::<P>::start(&reader), track, replies) matches PacketStep::Finished(
            Ok(Some(packet)),
        ) ==> {
            &&& are_bytes_of_the_sample(replies, calls, packet@.payload)
            &&& is_copy_of_locked_bytes(calls, packet@.payload)
        },
{
    payload_so_far(reader, track, replies, calls);
    if let PacketStep::Finished(Ok(Some(packet))) = run(
        PacketStep::<P>::start(&reader),
        track,
        replies,
    ) {
        let sample = choose|sample: P::Sample|
            {
                &&& #[trigger] gives_sample(replies, sample)
                &&& run(BufferStep::<P, Seq<u8>>::start(&sample), (), calls) == BufferStep::<
                    P,
                    Seq<u8>,
                >::Finished(Ok(packet@.payload))
            };
        returned_bytes_were_locked::<P>(&sample, calls);
    }
}

/// What is known of the payload on the way.
proof fn payload_so_far<P: Platform>(
    reader: P::Reader,
    track: MediaTrack,
    replies: Seq<PacketReply<P>>,
    calls: Seq<BufferReply<P, Seq<u8>>>,
)
    requires
        payloads_are_copied_by(reader, track, replies, calls),
    ensures
        match run(PacketStep::<P>::start(&reader), track, replies) {
            PacketStep::GetCleanPoint { payload, .. } => are_bytes_of_the_sample(
                replies,
                calls,
                bytes_content(payload),
            ),
            PacketStep::Finished(Ok(Some(packet))) => are_bytes_of_the_sample(
                replies,
                calls,
                packet@.payload,
            ),
            _ => true,
        },
    decreases replies.len(),
{
    if replies.len() > 0 {
        let start = PacketStep::<P>::start(&reader);
        let before = replies.drop_last();
        assert forall|i: int| 0 <= i < before.len() implies payload_is_copied_by(
            run(start, track, before.take(i)),
            #[trigger] before[i],
            calls,
        ) by {
            assert(before.take(i) =~= replies.take(i));
            assert(before[i] == replies[i]);
        }
        payload_so_far(reader, track, before, calls);
        assert(replies.take(replies.len() - 1) =~= before);
        assert(replies[replies.len() - 1] == replies.last());
        lemma_given_stays_given(replies);
        match (run(start, track, before), replies.last()) {
            (PacketStep::CopyPayload { sample, .. }, PacketReply::Payload(Ok(payload))) => {
                reader_is_asked_once_for_a_packet::<P>(&reader, track, before);
                assert(gives_sample(replies, sample));
            },
            (PacketStep::GetCleanPoint { payload, .. }, _) => {
                bytes_stay_those_of_the_sample(replies, calls, bytes_content(payload));
            },
            (PacketStep::Finished(Ok(Some(packet))), _) => {
                bytes_stay_those_of_the_sample(replies, calls, packet@.payload);
            },
            _ => {},
        }
    }
}

/// One more reply takes nothing back.
proof fn bytes_stay_those_of_the_sample<P: Platform>(
    replies: Seq<PacketReply<P>>,
    calls: Seq<BufferReply<P, Seq<u8>>>,
    data: Seq<u8>,
)
    requires
        replies.len() > 0,
        are_bytes_of_the_sample(replies.drop_last(), calls, data),
    ensures
        are_bytes_of_the_sample(replies, calls, data),
{
    lemma_given_stays_given(replies);
    let sample = choose|sample: P::Sample|
        {
            &&& #[trigger] gives_sample(replies.drop_last(), sample)
            &&& run(BufferStep::<P, Seq<u8>>::start(&sample), (), calls) == BufferStep::<
                P,
                Seq<u8>,
            >::Finished(Ok(data))
        };
    assert(gives_sample(replies, sample));
}

/// From the list that the platform owns to the camera: where a list of `count` entries is
/// enumerated and its cameras are handed on, the one that is activated is the present entry with
/// the lowest index.
pub proof fn lowest_present_entry_is_activated<P: Platform>(
    profile: Profile,
    attributes: P::Attributes,
    query: P::Attributes,
    count: u32,
    slots: Seq<Option<P::Activate>>,
    listed: Vec<P::Activate>,
    i: int,
    device: P::Activate,
)
    requires
        run(
            DevicesStep::<P, Seq<P::Activate>>::start(),
            profile,
            seq![
                DevicesReply::QueryCreated(Ok(Some(query))),
                DevicesReply::QueryTypeSet(Ok(())),
                DevicesReply::Enumerated(Ok(DeviceList { count, is_null: false })),
                DevicesReply::Copied(slots),
                DevicesReply::Freed,
            ],
        ) == DevicesStep::<P, Seq<P::Activate>>::Finished(Ok(listed@)),
        0 <= i < slots.len(),
        i < count,
        slots[i] == Some(device),
        forall|j: int| 0 <= j < i ==> #[trigger] slots[j] is None,
    ensures
        run(
            CameraStep::<P>::start(&attributes),
            profile,
            seq![CameraReply::Listed(Ok(listed))],
        ) matches CameraStep::Activate { attributes: held, device: taken } && held == attributes
            && taken == device,
{
    first_camera_is_the_lowest_present_entry::<P>(profile, query, count, slots, i, device);
    reveal_with_fuel(run, 2);
}

/// From the tracks on offer to the read thread: where what is found is the track that the producer
/// says is read, a read thread is only started for the first track that the producer offers, as it
/// is offered. Its packets bear the id of that track: see [`packets_sent_bear_the_track_id`].
pub proof fn thread_reads_the_first_track_on_offer<P: Platform>(
    producer: ProducerView<P>,
    replies: Seq<BeginReply<P::Error>>,
)
    requires
        forall|i: int|
            0 <= i < replies.len() ==> (#[trigger] replies[i] matches BeginReply::Track(found)
                ==> found == track_outcome::<P::Error>(producer.profile, producer.tracks)),
    ensures
        run(BeginStep::<P::Error>::Idle, (), replies) matches BeginStep::StartWorker { track } ==> {
            &&& producer.tracks.len() > 0
            &&& track == producer.tracks[0]
        },
{
    thread_is_started_for_the_track_found::<P::Error>(replies);
    if let BeginStep::StartWorker { track } = run(BeginStep::<P::Error>::Idle, (), replies) {
        let i = replies.index_of(BeginReply::Track(Ok(track)));
        assert(replies[i] == BeginReply::<P::Error>::Track(Ok(track)));
        first_track_is_read_as_it_is::<P::Error>(producer.profile, producer.tracks);
    }
}

} // verus!
