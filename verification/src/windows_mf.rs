//! The camera as a producer of packets.

use vstd::prelude::*;

use crate::com::Apartment;
use crate::com::Platform;
use crate::com::SendCom;
use crate::com::FULL_STARTUP;
use crate::com::MEDIA_FOUNDATION_VERSION;
use crate::error::CaptureError;
use crate::error::Failure;
use crate::graphics::create_d3d11_device;
use crate::graphics::device_outcome;
use crate::graphics::device_request;
use crate::graphics::CreatedDevice;
use crate::graphics::DeviceRequest;
use crate::graphics::DriverKind;
use crate::graphics::FeatureLevel;
use crate::machine::lemma_arrived;
use crate::machine::run;
use crate::machine::Machine;
use crate::media::MediaTrack;
use crate::media::Profile;
use crate::media::TrackKind;
use crate::reading::ReadStep;

verus! {

/// A camera that is ready to be read.
pub struct WindowsMfProducer<P: Platform> {
    source_reader: SendCom<P::Reader>,
    _d3d_device: SendCom<P::Device>,
    _d3d_context: SendCom<P::Context>,
    _dxgi_manager: SendCom<P::Manager>,
    profile: Profile,
    stop_flag: bool,
    tracks: Vec<MediaTrack>,
}

/// What a producer holds.
pub struct ProducerView<P: Platform> {
    pub source_reader: P::Reader,
    pub d3d_device: P::Device,
    pub d3d_context: P::Context,
    pub dxgi_manager: P::Manager,
    pub profile: Profile,
    /// What the read thread is told when it looks whether the producer has been dropped.
    pub stop_flag: bool,
    pub tracks: Seq<MediaTrack>,
}

impl<P: Platform> ProducerView<P> {
    /// The producer once it has been dropped.
    pub open spec fn dropped(self) -> Self {
        ProducerView { stop_flag: true, ..self }
    }
}

impl<P: Platform> View for WindowsMfProducer<P> {
    type V = ProducerView<P>;

    closed spec fn view(&self) -> ProducerView<P> {
        ProducerView {
            source_reader: self.source_reader.0,
            d3d_device: self._d3d_device.0,
            d3d_context: self._d3d_context.0,
            dxgi_manager: self._dxgi_manager.0,
            profile: self.profile,
            stop_flag: self.stop_flag,
            tracks: self.tracks@,
        }
    }
}

/// The next call that sets a camera up, with what it needs and what is kept from the calls before.
/// `W` is what holds the finished producer.
pub enum SetupStep<P: Platform, W> {
    /// Initialize COM on the calling thread.
    InitializeCom { apartment: Apartment },
    /// Start Media Foundation of this version, with these flags.
    StartMediaFoundation { version: u32, flags: u32 },
    /// Create a Direct3D device and its context.
    CreateDevice { request: DeviceRequest },
    /// Make a device manager for `device`.
    CreateManager { device: P::Device, context: P::Context },
    /// Fill a source reader's attributes with `manager`.
    CreateAttributes { device: P::Device, context: P::Context, manager: P::Manager },
    /// Make a source reader of the first camera with `attributes`.
    CreateReader {
        device: P::Device,
        context: P::Context,
        manager: P::Manager,
        attributes: P::Attributes,
    },
    /// Make `reader` give out HEVC.
    ForceHevc {
        device: P::Device,
        context: P::Context,
        manager: P::Manager,
        reader: P::Reader,
    },
    /// There is nothing left to do.
    Finished(Result<W, CaptureError<P::Error>>),
}

/// What a call that sets a camera up came back with.
pub enum SetupReply<P: Platform> {
    ComInitialized(Result<(), P::Error>),
    MediaFoundationStarted(Result<(), P::Error>),
    DeviceCreated(Result<CreatedDevice<P>, P::Error>),
    ManagerCreated(Result<P::Manager, CaptureError<P::Error>>),
    AttributesCreated(Result<P::Attributes, CaptureError<P::Error>>),
    ReaderCreated(Result<P::Reader, CaptureError<P::Error>>),
    HevcForced(Result<(), CaptureError<P::Error>>),
}

impl<P: Platform, W> SetupStep<P, W> {
    /// The first call.
    #[verifier::allow_in_spec]
    pub fn start() -> Self
        returns
            (SetupStep::<P, W>::InitializeCom { apartment: Apartment::Multithreaded }),
    {
        SetupStep::InitializeCom { apartment: Apartment::Multithreaded }
    }
}

impl<P: Platform> View for SetupStep<P, WindowsMfProducer<P>> {
    type V = SetupStep<P, ProducerView<P>>;

    open spec fn view(&self) -> SetupStep<P, ProducerView<P>> {
        match *self {
            SetupStep::InitializeCom { apartment } => SetupStep::InitializeCom { apartment },
            SetupStep::StartMediaFoundation { version, flags } =>
                SetupStep::StartMediaFoundation { version, flags },
            SetupStep::CreateDevice { request } => SetupStep::CreateDevice { request },
            SetupStep::CreateManager { device, context } => SetupStep::CreateManager {
                device,
                context,
            },
            SetupStep::CreateAttributes { device, context, manager } =>
                SetupStep::CreateAttributes { device, context, manager },
            SetupStep::CreateReader { device, context, manager, attributes } =>
                SetupStep::CreateReader { device, context, manager, attributes },
            SetupStep::ForceHevc { device, context, manager, reader } => SetupStep::ForceHevc {
                device,
                context,
                manager,
                reader,
            },
            SetupStep::Finished(Ok(producer)) => SetupStep::Finished(Ok(producer@)),
            SetupStep::Finished(Err(error)) => SetupStep::Finished(Err(error)),
        }
    }
}

/// The producer that holds these handles. It has one video track and has not been dropped.
pub open spec fn producer_of<P: Platform>(
    profile: Profile,
    device: P::Device,
    context: P::Context,
    manager: P::Manager,
    reader: P::Reader,
) -> ProducerView<P> {
    ProducerView {
        source_reader: reader,
        d3d_device: device,
        d3d_context: context,
        dxgi_manager: manager,
        profile,
        stop_flag: false,
        tracks: seq![profile.video_track()],
    }
}

impl<P: Platform> Machine for SetupStep<P, ProducerView<P>> {
    type Setting = Profile;

    type Reply = SetupReply<P>;

    /// A reply to another call than the pending one changes nothing.
    open spec fn after(self, profile: Profile, reply: SetupReply<P>) -> Self {
        match (self, reply) {
            (SetupStep::InitializeCom { .. }, SetupReply::ComInitialized(Ok(()))) =>
                SetupStep::StartMediaFoundation {
                    version: MEDIA_FOUNDATION_VERSION,
                    flags: FULL_STARTUP,
                },
            (SetupStep::InitializeCom { .. }, SetupReply::ComInitialized(Err(cause))) =>
                SetupStep::Finished(Err(CaptureError::caused(Failure::InitializeCom, cause))),
            (SetupStep::StartMediaFoundation { .. }, SetupReply::MediaFoundationStarted(Ok(()))) =>
                SetupStep::CreateDevice { request: device_request() },
            (SetupStep::StartMediaFoundation { .. }, SetupReply::MediaFoundationStarted(Err(cause))) =>
                SetupStep::Finished(
                Err(CaptureError::caused(Failure::StartMediaFoundation, cause)),
            ),
            (SetupStep::CreateDevice { .. }, SetupReply::DeviceCreated(outcome)) =>
                match device_outcome::<P>(outcome) {
                    Ok((device, context)) => SetupStep::CreateManager { device, context },
                    Err(error) => SetupStep::Finished(Err(error)),
                },
            (
                SetupStep::CreateManager { device, context },
                SetupReply::ManagerCreated(Ok(manager)),
            ) => SetupStep::CreateAttributes { device, context, manager },
            (SetupStep::CreateManager { .. }, SetupReply::ManagerCreated(Err(error))) =>
                SetupStep::Finished(Err(error)),
            (
                SetupStep::CreateAttributes { device, context, manager },
                SetupReply::AttributesCreated(Ok(attributes)),
            ) => SetupStep::CreateReader { device, context, manager, attributes },
            (SetupStep::CreateAttributes { .. }, SetupReply::AttributesCreated(Err(error))) =>
                SetupStep::Finished(Err(error)),
            (
                SetupStep::CreateReader { device, context, manager, .. },
                SetupReply::ReaderCreated(Ok(reader)),
            ) => match profile {
                Profile::Hevc => SetupStep::ForceHevc { device, context, manager, reader },
                Profile::Timestamps => SetupStep::Finished(
                    Ok(producer_of(profile, device, context, manager, reader)),
                ),
            },
            (SetupStep::CreateReader { .. }, SetupReply::ReaderCreated(Err(error))) =>
                SetupStep::Finished(Err(error)),
            (
                SetupStep::ForceHevc { device, context, manager, reader },
                SetupReply::HevcForced(Ok(())),
            ) => SetupStep::Finished(Ok(producer_of(profile, device, context, manager, reader))),
            (SetupStep::ForceHevc { .. }, SetupReply::HevcForced(Err(error))) =>
                SetupStep::Finished(Err(error)),
            _ => self,
        }
    }

    open spec fn is_finished(self) -> bool {
        self is Finished
    }

    proof fn result_stands(self, profile: Profile, reply: SetupReply<P>) {
    }
}

/// The first of `tracks`.
pub open spec fn track_outcome<E>(profile: Profile, tracks: Seq<MediaTrack>) -> Result<
    MediaTrack,
    CaptureError<E>,
> {
    if tracks.len() == 0 {
        Err(CaptureError::plain(Failure::NoTrack(profile)))
    } else {
        Ok(tracks.first())
    }
}

/// Finds the track to read.
pub fn first_track<E>(profile: Profile, tracks: &Vec<MediaTrack>) -> (res: Result<
    MediaTrack,
    CaptureError<E>,
>)
    ensures
        res == track_outcome::<E>(profile, tracks@),
{
    if tracks.len() == 0 {
        Err(CaptureError::plain(Failure::NoTrack(profile)))
    } else {
        Ok(tracks[0])
    }
}

impl<P: Platform> WindowsMfProducer<P> {
    /// Puts a producer together.
    fn assemble(
        profile: Profile,
        device: P::Device,
        context: P::Context,
        manager: P::Manager,
        reader: P::Reader,
    ) -> (res: Self)
        ensures
            res@ == producer_of::<P>(profile, device, context, manager, reader),
    {
        let tracks = vec![profile.video_track()];
        assert(tracks@ =~= seq![profile.video_track()]);
        WindowsMfProducer {
            source_reader: SendCom(reader),
            _d3d_device: SendCom(device),
            _d3d_context: SendCom(context),
            _dxgi_manager: SendCom(manager),
            profile,
            stop_flag: false,
            tracks,
        }
    }

    /// Takes the reply to the pending call and gives the next one.
    pub fn new(profile: Profile, step: SetupStep<P, Self>, reply: SetupReply<P>) -> (next:
        SetupStep<P, Self>)
        ensures
            next@ == step@.after(profile, reply),
    {
        match (step, reply) {
            (SetupStep::InitializeCom { .. }, SetupReply::ComInitialized(outcome)) =>
                match outcome {
                    Ok(()) => SetupStep::StartMediaFoundation {
                        version: MEDIA_FOUNDATION_VERSION,
                        flags: FULL_STARTUP,
                    },
                    Err(cause) => SetupStep::Finished(
                        Err(CaptureError::caused(Failure::InitializeCom, cause)),
                    ),
                },
            (SetupStep::StartMediaFoundation { .. }, SetupReply::MediaFoundationStarted(outcome)) =>
                match outcome {
                    Ok(()) => SetupStep::CreateDevice { request: device_request() },
                    Err(cause) => SetupStep::Finished(
                        Err(CaptureError::caused(Failure::StartMediaFoundation, cause)),
                    ),
                },
            (SetupStep::CreateDevice { .. }, SetupReply::DeviceCreated(outcome)) =>
                match create_d3d11_device::<P>(outcome) {
                    Ok((device, context)) => SetupStep::CreateManager { device, context },
                    Err(error) => SetupStep::Finished(Err(error)),
                },
            (
                SetupStep::CreateManager { device, context },
                SetupReply::ManagerCreated(outcome),
            ) => match outcome {
                Ok(manager) => SetupStep::CreateAttributes { device, context, manager },
                Err(error) => SetupStep::Finished(Err(error)),
            },
            (
                SetupStep::CreateAttributes { device, context, manager },
                SetupReply::AttributesCreated(outcome),
            ) => match outcome {
                Ok(attributes) => SetupStep::CreateReader { device, context, manager, attributes },
                Err(error) => SetupStep::Finished(Err(error)),
            },
            (
                SetupStep::CreateReader { device, context, manager, .. },
                SetupReply::ReaderCreated(outcome),
            ) => match outcome {
                Ok(reader) => match profile {
                    Profile::Hevc => SetupStep::ForceHevc { device, context, manager, reader },
                    Profile::Timestamps => SetupStep::Finished(
                        Ok(Self::assemble(profile, device, context, manager, reader)),
                    ),
                },
                Err(error) => SetupStep::Finished(Err(error)),
            },
            (
                SetupStep::ForceHevc { device, context, manager, reader },
                SetupReply::HevcForced(outcome),
            ) => match outcome {
                Ok(()) => SetupStep::Finished(
                    Ok(Self::assemble(profile, device, context, manager, reader)),
                ),
                Err(error) => SetupStep::Finished(Err(error)),
            },
            (step, _) => step,
        }
    }

    /// What the producer has to offer.
    pub fn tracks(&self) -> (res: Vec<MediaTrack>)
        ensures
            res@ == self@.tracks,
    {
        let tracks = self.tracks.clone();
        assert(tracks@ =~= self.tracks@);
        tracks
    }

    /// What the read thread is told when it looks whether the producer has been dropped.
    pub fn stop_flag(&self) -> (res: bool)
        ensures
            res == self@.stop_flag,
    {
        self.stop_flag
    }

    /// Sets the stop flag, so that the read thread ends. Nothing takes it back.
    pub fn drop(&mut self)
        ensures
            final(self)@ == old(self)@.dropped(),
            final(self)@.stop_flag,
    {
        self.stop_flag = true;
    }

    /// The reader that the read thread gets a copy of.
    pub fn source_reader(&self) -> (res: &SendCom<P::Reader>)
        ensures
            res.0 == self@.source_reader,
    {
        &self.source_reader
    }

    /// The track that is read, before the first sample is asked for.
    pub fn start_reading(&self) -> (res: Result<MediaTrack, CaptureError<P::Error>>)
        ensures
            res == track_outcome::<P::Error>(self@.profile, self@.tracks),
    {
        first_track(self.profile, &self.tracks)
    }
}

/// A producer, if each call succeeds; else the first failure. Whether HEVC could be forced only
/// counts where it is asked for.
pub open spec fn setup_outcome<P: Platform>(
    profile: Profile,
    com: Result<(), P::Error>,
    started: Result<(), P::Error>,
    created: Result<CreatedDevice<P>, P::Error>,
    manager: Result<P::Manager, CaptureError<P::Error>>,
    attributes: Result<P::Attributes, CaptureError<P::Error>>,
    reader: Result<P::Reader, CaptureError<P::Error>>,
    forced: Result<(), CaptureError<P::Error>>,
) -> Result<ProducerView<P>, CaptureError<P::Error>> {
    match (com, started, device_outcome::<P>(created), manager, attributes, reader) {
        (Err(cause), _, _, _, _, _) => Err(CaptureError::caused(Failure::InitializeCom, cause)),
        (_, Err(cause), _, _, _, _) => Err(
            CaptureError::caused(Failure::StartMediaFoundation, cause),
        ),
        (_, _, Err(error), _, _, _) => Err(error),
        (_, _, _, Err(error), _, _) => Err(error),
        (_, _, _, _, Err(error), _) => Err(error),
        (_, _, _, _, _, Err(error)) => Err(error),
        (Ok(()), Ok(()), Ok((device, context)), Ok(manager), Ok(_), Ok(reader)) =>
            match forced {
                Err(error) if profile == Profile::Hevc => Err(error),
                _ => Ok(producer_of(profile, device, context, manager, reader)),
            },
    }
}

/// Whatever the calls come back with, a producer that holds what they gave or the first failure is
/// returned.
pub proof fn producer_is_set_up_or_first_failure_returned<P: Platform>(
    profile: Profile,
    com: Result<(), P::Error>,
    started: Result<(), P::Error>,
    created: Result<CreatedDevice<P>, P::Error>,
    manager: Result<P::Manager, CaptureError<P::Error>>,
    attributes: Result<P::Attributes, CaptureError<P::Error>>,
    reader: Result<P::Reader, CaptureError<P::Error>>,
    forced: Result<(), CaptureError<P::Error>>,
)
    ensures
        run(
            SetupStep::<P, ProducerView<P>>::start(),
            profile,
            seq![
                SetupReply::ComInitialized(com),
                SetupReply::MediaFoundationStarted(started),
                SetupReply::DeviceCreated(created),
                SetupReply::ManagerCreated(manager),
                SetupReply::AttributesCreated(attributes),
                SetupReply::ReaderCreated(reader),
                SetupReply::HevcForced(forced),
            ],
        ) == SetupStep::<P, ProducerView<P>>::Finished(
            setup_outcome::<P>(
                profile,
                com,
                started,
                created,
                manager,
                attributes,
                reader,
                forced,
            ),
        ),
{
    reveal_with_fuel(run, 8);
}

/// Whatever arrives and in whatever order, a producer that is set up offers one video track, that
/// track is the one that is read, and the stop flag is not set.
pub proof fn producers_offer_one_video_track<P: Platform>(
    profile: Profile,
    replies: Seq<SetupReply<P>>,
)
    ensures
        run(SetupStep::<P, ProducerView<P>>::start(), profile, replies) matches SetupStep::Finished(
            Ok(producer),
        ) ==> {
            &&& producer.profile == profile
            &&& !producer.stop_flag
            &&& producer.tracks == seq![profile.video_track()]
            &&& track_outcome::<P::Error>(producer.profile, producer.tracks) == Ok::<
                _,
                CaptureError<P::Error>,
            >(profile.video_track())
        },
    decreases replies.len(),
{
    if replies.len() > 0 {
        producers_offer_one_video_track::<P>(profile, replies.drop_last());
    }
}

/// COM is initialized before Media Foundation is started, and both have been done before any object
/// is made.
pub proof fn platform_is_started_before_objects_are_made<P: Platform>(
    profile: Profile,
    replies: Seq<SetupReply<P>>,
)
    ensures
        ({
            let reached = run(SetupStep::<P, ProducerView<P>>::start(), profile, replies);
            match reached {
                SetupStep::InitializeCom { .. } | SetupStep::Finished(Err(_)) => true,
                SetupStep::StartMediaFoundation { version, flags } => {
                    &&& version == MEDIA_FOUNDATION_VERSION
                    &&& flags == FULL_STARTUP
                    &&& replies.contains(SetupReply::ComInitialized(Ok(())))
                },
                _ => {
                    &&& replies.contains(SetupReply::ComInitialized(Ok(())))
                    &&& replies.contains(SetupReply::MediaFoundationStarted(Ok(())))
                },
            }
        }),
    decreases replies.len(),
{
    if replies.len() > 0 {
        platform_is_started_before_objects_are_made::<P>(profile, replies.drop_last());
        lemma_arrived(replies);
        match replies.last() {
            SetupReply::ComInitialized(Ok(done)) | SetupReply::MediaFoundationStarted(Ok(done)) => {
                assert(done == ());
            },
            _ => {},
        }
    }
}

/// The read thread initializes COM in the same way as the thread that sets the camera up.
pub proof fn threads_share_the_apartment<P: Platform>()
    ensures
        SetupStep::<P, ProducerView<P>>::start() matches SetupStep::InitializeCom { apartment } && (
        ReadStep::<P::Error>::start() == ReadStep::<P::Error>::InitializeCom { apartment }),
{
}

/// HEVC is forced on the reader exactly where frames are captured.
pub proof fn hevc_is_forced_for_frames_only<P: Platform>(
    profile: Profile,
    replies: Seq<SetupReply<P>>,
    reply: SetupReply<P>,
)
    ensures
        ({
            let start = SetupStep::<P, ProducerView<P>>::start();
            let before = run(start, profile, replies);
            let reached = run(start, profile, replies.push(reply));
            &&& reached is ForceHevc ==> profile == Profile::Hevc
            &&& before !is Finished && (reached matches SetupStep::Finished(Ok(_))) ==> (before
                is ForceHevc <==> profile == Profile::Hevc)
        }),
    decreases replies.len(),
{
    assert(replies.push(reply).drop_last() =~= replies);
    if replies.len() > 0 {
        hevc_is_forced_for_frames_only::<P>(profile, replies.drop_last(), replies.last());
        assert(replies.drop_last().push(replies.last()) =~= replies);
    }
}

/// The track that is read is the first, as it is, however many there are. Without one there is a
/// failure that has no cause.
pub proof fn first_track_is_read_as_it_is<E>(profile: Profile, tracks: Seq<MediaTrack>)
    ensures
        tracks.len() > 0 ==> track_outcome::<E>(profile, tracks) == Ok::<_, CaptureError<E>>(
            tracks[0],
        ),
        tracks.len() == 0 ==> (track_outcome::<E>(profile, tracks) matches Err(error)
            && error.failure == Failure::NoTrack(profile) && error.cause is None),
{
}

/// A producer is set up exactly if all the calls are good and the device comes with its context;
/// forcing HEVC counts where frames are captured. It holds the handles that the calls gave, offers
/// video track zero and has not been dropped. Else the first failure is returned: that of a larger
/// call as it is, and that of a single one with its cause.
pub proof fn producer_takes_good_calls<P: Platform>(
    profile: Profile,
    com: Result<(), P::Error>,
    started: Result<(), P::Error>,
    created: Result<CreatedDevice<P>, P::Error>,
    manager: Result<P::Manager, CaptureError<P::Error>>,
    attributes: Result<P::Attributes, CaptureError<P::Error>>,
    reader: Result<P::Reader, CaptureError<P::Error>>,
    forced: Result<(), CaptureError<P::Error>>,
    error: CaptureError<P::Error>,
)
    ensures
        ({
            let reached = run(
                SetupStep::<P, ProducerView<P>>::start(),
                profile,
                seq![
                    SetupReply::ComInitialized(com),
                    SetupReply::MediaFoundationStarted(started),
                    SetupReply::DeviceCreated(created),
                    SetupReply::ManagerCreated(manager),
                    SetupReply::AttributesCreated(attributes),
                    SetupReply::ReaderCreated(reader),
                    SetupReply::HevcForced(forced),
                ],
            );
            &&& (reached matches SetupStep::Finished(Ok(_))) <==> {
                &&& com is Ok
                &&& started is Ok
                &&& created matches Ok(both)
                &&& both.device is Some
                &&& both.context is Some
                &&& manager is Ok
                &&& attributes is Ok
                &&& reader is Ok
                &&& forced is Ok || profile == Profile::Timestamps
            }
            &&& reached matches SetupStep::Finished(Ok(producer)) ==> {
                &&& created matches Ok(both)
                &&& both.device == Some(producer.d3d_device)
                &&& both.context == Some(producer.d3d_context)
                &&& manager == Ok::<_, CaptureError<P::Error>>(producer.dxgi_manager)
                &&& reader == Ok::<_, CaptureError<P::Error>>(producer.source_reader)
                &&& producer.profile == profile
                &&& !producer.stop_flag
                &&& producer.tracks.len() == 1
                &&& producer.tracks[0].id == 0
                &&& producer.tracks[0].kind == TrackKind::Video
                &&& producer.tracks[0].codec == 1 <==> profile == Profile::Hevc
                &&& producer.tracks[0].codec == 0 <==> profile == Profile::Timestamps
            }
            &&& reached == SetupStep::<P, ProducerView<P>>::Finished(Err(error)) <==> match (
                com,
                started,
                created,
            ) {
                (Err(cause), _, _) => error.failure == Failure::InitializeCom && error.cause == Some(
                    cause,
                ),
                (Ok(_), Err(cause), _) => error.failure == Failure::StartMediaFoundation
                    && error.cause == Some(cause),
                (Ok(_), Ok(_), Err(cause)) => error.failure == Failure::CreateDevice && error.cause
                    == Some(cause),
                (Ok(_), Ok(_), Ok(both)) => if both.device is None {
                    error.failure == Failure::CreateDevice && error.cause is None
                } else if both.context is None {
                    error.failure == Failure::CreateDeviceContext && error.cause is None
                } else {
                    match (manager, attributes, reader, forced) {
                        (Err(met), _, _, _) => error == met,
                        (Ok(_), Err(met), _, _) => error == met,
                        (Ok(_), Ok(_), Err(met), _) => error == met,
                        (Ok(_), Ok(_), Ok(_), Err(met)) => profile == Profile::Hevc && error == met,
                        (Ok(_), Ok(_), Ok(_), Ok(_)) => false,
                    }
                },
            }
        }),
{
    reveal_with_fuel(run, 8);
}

/// Every handle that a call of setup needs is the one that an earlier call gave. COM is initialized
/// for free threading, and what is started and asked for is always the same. A reply to another call
/// than the pending one leads nowhere.
pub proof fn setup_calls_hand_on_what_they_got<P: Platform>(
    profile: Profile,
    step: SetupStep<P, ProducerView<P>>,
    reply: SetupReply<P>,
)
    ensures
        SetupStep::<P, ProducerView<P>>::start() matches SetupStep::InitializeCom { apartment }
            && apartment == Apartment::Multithreaded,
        step is InitializeCom ==> {
            &&& reply matches SetupReply::ComInitialized(Ok(_)) ==> (step.after(profile, reply)
                matches SetupStep::StartMediaFoundation { version, flags } && version == 0x0002_0070
                && flags == 0)
            &&& reply !is ComInitialized ==> step.after(profile, reply) == step
        },
        step is StartMediaFoundation ==> {
            &&& reply matches SetupReply::MediaFoundationStarted(Ok(_)) ==> (step.after(
                profile,
                reply,
            ) matches SetupStep::CreateDevice { request } && request.default_adapter
                && request.driver == DriverKind::Hardware && request.bgra_support
                && request.feature_level == FeatureLevel::Level11_0)
            &&& reply !is MediaFoundationStarted ==> step.after(profile, reply) == step
        },
        step is CreateDevice ==> {
            &&& reply matches SetupReply::DeviceCreated(Ok(both)) ==> (both.device matches Some(
                device,
            ) ==> (both.context matches Some(context) ==> step.after(profile, reply) == (
            SetupStep::CreateManager::<P, ProducerView<P>> { device, context })))
            &&& reply !is DeviceCreated ==> step.after(profile, reply) == step
        },
        step matches SetupStep::CreateManager { device, context } ==> {
            &&& reply matches SetupReply::ManagerCreated(Ok(manager)) ==> step.after(profile, reply)
                == (SetupStep::CreateAttributes::<P, ProducerView<P>> { device, context, manager })
            &&& reply !is ManagerCreated ==> step.after(profile, reply) == step
        },
        step matches SetupStep::CreateAttributes { device, context, manager } ==> {
            &&& reply matches SetupReply::AttributesCreated(Ok(attributes)) ==> step.after(
                profile,
                reply,
            ) == (SetupStep::CreateReader::<P, ProducerView<P>> {
                device,
                context,
                manager,
                attributes,
            })
            &&& reply !is AttributesCreated ==> step.after(profile, reply) == step
        },
        step matches SetupStep::CreateReader { device, context, manager, .. } ==> {
            &&& profile == Profile::Hevc ==> (reply matches SetupReply::ReaderCreated(Ok(reader))
                ==> step.after(profile, reply) == (SetupStep::ForceHevc::<P, ProducerView<P>> {
                device,
                context,
                manager,
                reader,
            }))
            &&& reply !is ReaderCreated ==> step.after(profile, reply) == step
        },
        step is ForceHevc && reply !is HevcForced ==> step.after(profile, reply) == step,
        step is Finished ==> step.after(profile, reply) == step,
{
}

/// What is said of setup is said of the handles in the pending call, and of the producer that is
/// held once there is one.
pub proof fn setup_says_what_it_holds<P: Platform>(step: SetupStep<P, WindowsMfProducer<P>>)
    ensures
        step matches SetupStep::InitializeCom { apartment } ==> step@ == (
        SetupStep::InitializeCom::<P, ProducerView<P>> { apartment }),
        step matches SetupStep::StartMediaFoundation { version, flags } ==> step@ == (
        SetupStep::StartMediaFoundation::<P, ProducerView<P>> { version, flags }),
        step matches SetupStep::CreateDevice { request } ==> step@ == (SetupStep::CreateDevice::<
            P,
            ProducerView<P>,
        > { request }),
        step matches SetupStep::CreateManager { device, context } ==> step@ == (
        SetupStep::CreateManager::<P, ProducerView<P>> { device, context }),
        step matches SetupStep::CreateAttributes { device, context, manager } ==> step@ == (
        SetupStep::CreateAttributes::<P, ProducerView<P>> { device, context, manager }),
        step matches SetupStep::CreateReader { device, context, manager, attributes } ==> step@ == (
        SetupStep::CreateReader::<P, ProducerView<P>> { device, context, manager, attributes }),
        step matches SetupStep::ForceHevc { device, context, manager, reader } ==> step@ == (
        SetupStep::ForceHevc::<P, ProducerView<P>> { device, context, manager, reader }),
        step matches SetupStep::Finished(Ok(producer)) ==> step@ == SetupStep::<
            P,
            ProducerView<P>,
        >::Finished(Ok(producer@)),
        step matches SetupStep::Finished(Err(error)) ==> step@ == SetupStep::<
            P,
            ProducerView<P>,
        >::Finished(Err(error)),
{
}

/// Dropping a producer sets its stop flag and leaves all else as it is.
pub proof fn drop_sets_the_stop_flag_only<P: Platform>(producer: ProducerView<P>)
    ensures
        producer.dropped().stop_flag,
        producer.dropped().source_reader == producer.source_reader,
        producer.dropped().d3d_device == producer.d3d_device,
        producer.dropped().d3d_context == producer.d3d_context,
        producer.dropped().dxgi_manager == producer.dxgi_manager,
        producer.dropped().profile == producer.profile,
        producer.dropped().tracks == producer.tracks,
{
}

} // verus!
