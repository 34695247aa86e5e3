//! The source reader of a camera and what it is set to.

use vstd::prelude::*;

use crate::com::Platform;
use crate::com::FIRST_VIDEO_STREAM;
use crate::error::CaptureError;
use crate::error::Failure;
use crate::machine::lemma_arrived;
use crate::machine::run;
use crate::machine::Machine;
use crate::media::Profile;

verus! {

/// What the attribute for hardware transforms is set to.
pub const TRANSFORMS_ENABLED: u32 = 1;

/// How many attributes a source reader's store has room for.
pub open spec fn spec_attribute_capacity(profile: Profile) -> u32 {
    match profile {
        Profile::Hevc => 4,
        Profile::Timestamps => 2,
    }
}

/// How many attributes a source reader's store has room for.
#[verifier::when_used_as_spec(spec_attribute_capacity)]
pub fn attribute_capacity(profile: Profile) -> (res: u32)
    ensures
        res == spec_attribute_capacity(profile),
{
    match profile {
        Profile::Hevc => 4,
        Profile::Timestamps => 2,
    }
}

/// The next call that fills a source reader's attributes, with what it needs.
pub enum AttributesStep<'a, P: Platform> {
    /// Create an attribute store for `manager`, with room for `capacity` attributes.
    CreateAttributes { manager: &'a P::Manager, capacity: u32 },
    /// View `manager` through its base interface.
    CastManager { manager: &'a P::Manager, attributes: P::Attributes },
    /// Make the device manager, seen as `unknown`, the Direct3D manager in `attributes`.
    SetManager { attributes: P::Attributes, unknown: P::Unknown },
    /// Set the attribute for hardware transforms in `attributes` to `value`.
    EnableTransforms { attributes: P::Attributes, value: u32 },
    /// There is nothing left to do.
    Finished(Result<P::Attributes, CaptureError<P::Error>>),
}

/// What a call that fills a source reader's attributes came back with.
pub enum AttributesReply<P: Platform> {
    /// The attribute store, which can be left out.
    Created(Result<Option<P::Attributes>, P::Error>),
    Cast(Result<P::Unknown, P::Error>),
    ManagerSet(Result<(), P::Error>),
    TransformsEnabled(Result<(), P::Error>),
}

impl<'a, P: Platform> AttributesStep<'a, P> {
    /// The first call.
    #[verifier::allow_in_spec]
    pub fn start(profile: Profile, manager: &'a P::Manager) -> Self
        returns
            (Self::CreateAttributes { manager, capacity: attribute_capacity(profile) }),
    {
        AttributesStep::CreateAttributes { manager, capacity: attribute_capacity(profile) }
    }
}

impl<'a, P: Platform> Machine for AttributesStep<'a, P> {
    type Setting = Profile;

    type Reply = AttributesReply<P>;

    /// A reply to another call than the pending one changes nothing.
    open spec fn after(self, profile: Profile, reply: AttributesReply<P>) -> Self {
        match (self, reply) {
            (
                AttributesStep::CreateAttributes { manager, .. },
                AttributesReply::Created(Ok(Some(attributes))),
            ) => AttributesStep::CastManager { manager, attributes },
            (AttributesStep::CreateAttributes { .. }, AttributesReply::Created(Ok(None))) =>
                AttributesStep::Finished(
                Err(CaptureError::plain(Failure::CreateReaderAttributes)),
            ),
            (AttributesStep::CreateAttributes { .. }, AttributesReply::Created(Err(cause))) =>
                AttributesStep::Finished(
                Err(CaptureError::caused(Failure::CreateReaderAttributes, cause)),
            ),
            (AttributesStep::CastManager { attributes, .. }, AttributesReply::Cast(Ok(unknown))) =>
                AttributesStep::SetManager { attributes, unknown },
            (AttributesStep::CastManager { .. }, AttributesReply::Cast(Err(cause))) =>
                AttributesStep::Finished(Err(CaptureError::caused(Failure::CastManager, cause))),
            (
                AttributesStep::SetManager { attributes, .. },
                AttributesReply::ManagerSet(Ok(())),
            ) => AttributesStep::EnableTransforms { attributes, value: TRANSFORMS_ENABLED },
            (AttributesStep::SetManager { .. }, AttributesReply::ManagerSet(Err(cause))) =>
                AttributesStep::Finished(
                Err(CaptureError::caused(Failure::SetReaderManager, cause)),
            ),
            (
                AttributesStep::EnableTransforms { attributes, .. },
                AttributesReply::TransformsEnabled(Ok(())),
            ) => AttributesStep::Finished(Ok(attributes)),
            (
                AttributesStep::EnableTransforms { .. },
                AttributesReply::TransformsEnabled(Err(cause)),
            ) => AttributesStep::Finished(
                Err(CaptureError::caused(Failure::EnableHardwareTransforms(profile), cause)),
            ),
            _ => self,
        }
    }

    open spec fn is_finished(self) -> bool {
        self is Finished
    }

    proof fn result_stands(self, profile: Profile, reply: AttributesReply<P>) {
    }
}

/// Takes the reply to the pending call and gives the next one.
pub fn create_source_reader_attributes<'a, P: Platform>(
    profile: Profile,
    step: AttributesStep<'a, P>,
    reply: AttributesReply<P>,
) -> (next: AttributesStep<'a, P>)
    ensures
        next == step.after(profile, reply),
{
    match (step, reply) {
        (AttributesStep::CreateAttributes { manager, .. }, AttributesReply::Created(outcome)) =>
            match outcome {
                Ok(Some(attributes)) => AttributesStep::CastManager { manager, attributes },
                Ok(None) => AttributesStep::Finished(
                    Err(CaptureError::plain(Failure::CreateReaderAttributes)),
                ),
                Err(cause) => AttributesStep::Finished(
                    Err(CaptureError::caused(Failure::CreateReaderAttributes, cause)),
                ),
            },
        (AttributesStep::CastManager { attributes, .. }, AttributesReply::Cast(outcome)) =>
            match outcome {
                Ok(unknown) => AttributesStep::SetManager { attributes, unknown },
                Err(cause) => AttributesStep::Finished(
                    Err(CaptureError::caused(Failure::CastManager, cause)),
                ),
            },
        (AttributesStep::SetManager { attributes, .. }, AttributesReply::ManagerSet(outcome)) =>
            match outcome {
                Ok(()) => AttributesStep::EnableTransforms {
                    attributes,
                    value: TRANSFORMS_ENABLED,
                },
                Err(cause) => AttributesStep::Finished(
                    Err(CaptureError::caused(Failure::SetReaderManager, cause)),
                ),
            },
        (
            AttributesStep::EnableTransforms { attributes, .. },
            AttributesReply::TransformsEnabled(outcome),
        ) => match outcome {
            Ok(()) => AttributesStep::Finished(Ok(attributes)),
            Err(cause) => AttributesStep::Finished(
                Err(CaptureError::caused(Failure::EnableHardwareTransforms(profile), cause)),
            ),
        },
        (step, _) => step,
    }
}

/// The attributes, if each of the four calls succeeds; else the first failure.
pub open spec fn attributes_outcome<P: Platform>(
    profile: Profile,
    created: Result<Option<P::Attributes>, P::Error>,
    cast: Result<P::Unknown, P::Error>,
    manager_set: Result<(), P::Error>,
    enabled: Result<(), P::Error>,
) -> Result<P::Attributes, CaptureError<P::Error>> {
    match (created, cast, manager_set, enabled) {
        (Err(cause), _, _, _) => Err(CaptureError::caused(Failure::CreateReaderAttributes, cause)),
        (Ok(None), _, _, _) => Err(CaptureError::plain(Failure::CreateReaderAttributes)),
        (_, Err(cause), _, _) => Err(CaptureError::caused(Failure::CastManager, cause)),
        (_, _, Err(cause), _) => Err(CaptureError::caused(Failure::SetReaderManager, cause)),
        (_, _, _, Err(cause)) => Err(
            CaptureError::caused(Failure::EnableHardwareTransforms(profile), cause),
        ),
        (Ok(Some(attributes)), Ok(_), Ok(()), Ok(())) => Ok(attributes),
    }
}

/// Whatever the four calls come back with, the attributes or the first failure is returned.
pub proof fn attributes_are_filled_or_first_failure_returned<'a, P: Platform>(
    profile: Profile,
    manager: &'a P::Manager,
    created: Result<Option<P::Attributes>, P::Error>,
    cast: Result<P::Unknown, P::Error>,
    manager_set: Result<(), P::Error>,
    enabled: Result<(), P::Error>,
)
    ensures
        run(
            AttributesStep::<P>::start(profile, manager),
            profile,
            seq![
                AttributesReply::Created(created),
                AttributesReply::Cast(cast),
                AttributesReply::ManagerSet(manager_set),
                AttributesReply::TransformsEnabled(enabled),
            ],
        ) == AttributesStep::<P>::Finished(
            attributes_outcome::<P>(profile, created, cast, manager_set, enabled),
        ),
{
    reveal_with_fuel(run, 5);
}

/// What is cast is the given manager. Attributes are only handed out once it and the hardware
/// transforms are in them.
pub proof fn attributes_hold_what_the_reader_needs<'a, P: Platform>(
    profile: Profile,
    manager: &'a P::Manager,
    replies: Seq<AttributesReply<P>>,
)
    ensures
        ({
            let reached = run(AttributesStep::<P>::start(profile, manager), profile, replies);
            let held = match reached {
                AttributesStep::CastManager { attributes, .. } => Some(attributes),
                AttributesStep::SetManager { attributes, .. } => Some(attributes),
                AttributesStep::EnableTransforms { attributes, .. } => Some(attributes),
                AttributesStep::Finished(Ok(attributes)) => Some(attributes),
                _ => None,
            };
            &&& held matches Some(attributes) ==> replies.contains(
                AttributesReply::Created(Ok(Some(attributes))),
            )
            &&& reached matches AttributesStep::CreateAttributes { manager: given, .. } ==> given
                == manager
            &&& reached matches AttributesStep::CastManager { manager: given, .. } ==> given
                == manager
            &&& reached matches AttributesStep::SetManager { unknown, .. } ==> replies.contains(
                AttributesReply::Cast(Ok(unknown)),
            )
            &&& reached matches AttributesStep::EnableTransforms { value, .. } ==> value
                == TRANSFORMS_ENABLED
            &&& reached is EnableTransforms ==> replies.contains(AttributesReply::ManagerSet(Ok(())))
            &&& reached matches AttributesStep::Finished(Ok(_)) ==> {
                &&& replies.contains(AttributesReply::ManagerSet(Ok(())))
                &&& replies.contains(AttributesReply::TransformsEnabled(Ok(())))
            }
        }),
    decreases replies.len(),
{
    if replies.len() > 0 {
        attributes_hold_what_the_reader_needs::<P>(profile, manager, replies.drop_last());
        lemma_arrived(replies);
        match replies.last() {
            AttributesReply::ManagerSet(Ok(done)) | AttributesReply::TransformsEnabled(Ok(done)) => {
                assert(done == ());
            },
            _ => {},
        }
    }
}

/// The next call that makes a source reader, with what it needs.
pub enum CameraStep<'a, P: Platform> {
    /// List the cameras.
    ListDevices { attributes: &'a P::Attributes },
    /// Activate `device`.
    Activate { attributes: &'a P::Attributes, device: P::Activate },
    /// Create a source reader of `source` with `attributes`.
    CreateReader { attributes: &'a P::Attributes, source: P::Source },
    /// There is nothing left to do.
    Finished(Result<P::Reader, CaptureError<P::Error>>),
}

/// What a call that makes a source reader came back with.
pub enum CameraReply<P: Platform> {
    Listed(Result<Vec<P::Activate>, CaptureError<P::Error>>),
    Activated(Result<P::Source, P::Error>),
    Created(Result<P::Reader, P::Error>),
}

impl<'a, P: Platform> CameraStep<'a, P> {
    /// The first call.
    #[verifier::allow_in_spec]
    pub fn start(attributes: &'a P::Attributes) -> Self
        returns
            (Self::ListDevices { attributes }),
    {
        CameraStep::ListDevices { attributes }
    }
}

impl<'a, P: Platform> Machine for CameraStep<'a, P> {
    type Setting = Profile;

    type Reply = CameraReply<P>;

    /// A reply to another call than the pending one changes nothing.
    open spec fn after(self, profile: Profile, reply: CameraReply<P>) -> Self {
        match (self, reply) {
            (CameraStep::ListDevices { attributes }, CameraReply::Listed(Ok(devices))) =>
                if devices@.len() == 0 {
                    CameraStep::Finished(Err(CaptureError::plain(Failure::NoCaptureDevice)))
                } else {
                    CameraStep::Activate { attributes, device: devices@.first() }
                },
            (CameraStep::ListDevices { .. }, CameraReply::Listed(Err(error))) =>
                CameraStep::Finished(Err(error)),
            (CameraStep::Activate { attributes, .. }, CameraReply::Activated(Ok(source))) =>
                CameraStep::CreateReader { attributes, source },
            (CameraStep::Activate { .. }, CameraReply::Activated(Err(cause))) =>
                CameraStep::Finished(
                Err(CaptureError::caused(Failure::ActivateDevice(profile), cause)),
            ),
            (CameraStep::CreateReader { .. }, CameraReply::Created(Ok(reader))) =>
                CameraStep::Finished(Ok(reader)),
            (CameraStep::CreateReader { .. }, CameraReply::Created(Err(cause))) =>
                CameraStep::Finished(
                Err(CaptureError::caused(Failure::CreateSourceReader(profile), cause)),
            ),
            _ => self,
        }
    }

    open spec fn is_finished(self) -> bool {
        self is Finished
    }

    proof fn result_stands(self, profile: Profile, reply: CameraReply<P>) {
    }
}

/// Takes the reply to the pending call and gives the next one. Of several cameras the first is
/// taken.
pub fn create_camera_source_reader<'a, P: Platform>(
    profile: Profile,
    step: CameraStep<'a, P>,
    reply: CameraReply<P>,
) -> (next: CameraStep<'a, P>)
    ensures
        next == step.after(profile, reply),
{
    match (step, reply) {
        (CameraStep::ListDevices { attributes }, CameraReply::Listed(outcome)) => match outcome {
            Ok(devices) => {
                let mut devices = devices;
                if devices.len() == 0 {
                    CameraStep::Finished(Err(CaptureError::plain(Failure::NoCaptureDevice)))
                } else {
                    CameraStep::Activate { attributes, device: devices.remove(0) }
                }
            },
            Err(error) => CameraStep::Finished(Err(error)),
        },
        (CameraStep::Activate { attributes, .. }, CameraReply::Activated(outcome)) => match outcome {
            Ok(source) => CameraStep::CreateReader { attributes, source },
            Err(cause) => CameraStep::Finished(
                Err(CaptureError::caused(Failure::ActivateDevice(profile), cause)),
            ),
        },
        (CameraStep::CreateReader { .. }, CameraReply::Created(outcome)) => match outcome {
            Ok(reader) => CameraStep::Finished(Ok(reader)),
            Err(cause) => CameraStep::Finished(
                Err(CaptureError::caused(Failure::CreateSourceReader(profile), cause)),
            ),
        },
        (step, _) => step,
    }
}

/// The source reader, if there is a camera and each call succeeds; else the first failure.
pub open spec fn camera_outcome<P: Platform>(
    profile: Profile,
    listed: Result<Vec<P::Activate>, CaptureError<P::Error>>,
    activated: Result<P::Source, P::Error>,
    created: Result<P::Reader, P::Error>,
) -> Result<P::Reader, CaptureError<P::Error>> {
    match (listed, activated, created) {
        (Err(error), _, _) => Err(error),
        (Ok(devices), activated, created) => if devices@.len() == 0 {
            Err(CaptureError::plain(Failure::NoCaptureDevice))
        } else {
            match (activated, created) {
                (Err(cause), _) => Err(
                    CaptureError::caused(Failure::ActivateDevice(profile), cause),
                ),
                (Ok(_), Err(cause)) => Err(
                    CaptureError::caused(Failure::CreateSourceReader(profile), cause),
                ),
                (Ok(_), Ok(reader)) => Ok(reader),
            }
        },
    }
}

/// Whatever the calls come back with, the source reader or the first failure is returned.
pub proof fn reader_is_made_or_first_failure_returned<'a, P: Platform>(
    profile: Profile,
    attributes: &'a P::Attributes,
    listed: Result<Vec<P::Activate>, CaptureError<P::Error>>,
    activated: Result<P::Source, P::Error>,
    created: Result<P::Reader, P::Error>,
)
    ensures
        run(
            CameraStep::<P>::start(attributes),
            profile,
            seq![
                CameraReply::Listed(listed),
                CameraReply::Activated(activated),
                CameraReply::Created(created),
            ],
        ) == CameraStep::<P>::Finished(camera_outcome::<P>(profile, listed, activated, created)),
{
    reveal_with_fuel(run, 4);
}

/// Only the first of the listed cameras is ever activated, and a reader is only made of a source
/// that was activated, with the given attributes.
pub proof fn first_device_is_read_with_the_attributes<'a, P: Platform>(
    profile: Profile,
    attributes: &'a P::Attributes,
    replies: Seq<CameraReply<P>>,
)
    ensures
        run(CameraStep::<P>::start(attributes), profile, replies) matches CameraStep::ListDevices {
            attributes: given,
        } ==> given == attributes,
        run(CameraStep::<P>::start(attributes), profile, replies) matches CameraStep::Activate {
            attributes: given,
            device,
        } ==> {
            &&& given == attributes
            &&& exists|i: int|
                0 <= i < replies.len() && (#[trigger] replies[i] matches CameraReply::Listed(
                    Ok(devices),
                ) && devices@.len() > 0 && devices@.first() == device)
        },
        run(CameraStep::<P>::start(attributes), profile, replies) matches CameraStep::CreateReader {
            attributes: given,
            source,
        } ==> {
            &&& given == attributes
            &&& replies.contains(CameraReply::Activated(Ok(source)))
        },
        run(CameraStep::<P>::start(attributes), profile, replies) matches CameraStep::Finished(
            Ok(reader),
        ) ==> replies.contains(CameraReply::Created(Ok(reader))),
    decreases replies.len(),
{
    if replies.len() > 0 {
        let before = replies.drop_last();
        first_device_is_read_with_the_attributes::<P>(profile, attributes, before);
        lemma_arrived(replies);
        match run(CameraStep::<P>::start(attributes), profile, before) {
            CameraStep::Activate { device, .. } => {
                let i = choose|i: int|
                    0 <= i < before.len() && (#[trigger] before[i] matches CameraReply::Listed(
                        Ok(devices),
                    ) && devices@.len() > 0 && devices@.first() == device);
                assert(replies[i] == before[i]);
            },
            CameraStep::ListDevices { .. } => {
                assert(replies[replies.len() - 1] == replies.last());
            },
            _ => {},
        }
    }
}

/// The next call that makes a source reader give out HEVC, with what it needs.
pub enum HevcStep<'a, P: Platform> {
    /// Create a media type for `reader`.
    CreateType { reader: &'a P::Reader },
    /// Set the major type of `media_type` to video.
    SetMajorType { reader: &'a P::Reader, media_type: P::MediaType },
    /// Set the subtype of `media_type` to HEVC.
    SetSubtype { reader: &'a P::Reader, media_type: P::MediaType },
    /// Make `media_type` what the stream `stream_index` of `reader` gives out.
    SetOutput { reader: &'a P::Reader, stream_index: u32, media_type: P::MediaType },
    /// There is nothing left to do.
    Finished(Result<(), CaptureError<P::Error>>),
}

/// What a call that makes a source reader give out HEVC came back with.
pub enum HevcReply<P: Platform> {
    Created(Result<P::MediaType, P::Error>),
    MajorTypeSet(Result<(), P::Error>),
    SubtypeSet(Result<(), P::Error>),
    OutputSet(Result<(), P::Error>),
}

impl<'a, P: Platform> HevcStep<'a, P> {
    /// The first call.
    #[verifier::allow_in_spec]
    pub fn start(reader: &'a P::Reader) -> Self
        returns
            (Self::CreateType { reader }),
    {
        HevcStep::CreateType { reader }
    }
}

impl<'a, P: Platform> Machine for HevcStep<'a, P> {
    type Setting = ();

    type Reply = HevcReply<P>;

    /// A reply to another call than the pending one changes nothing.
    open spec fn after(self, setting: (), reply: HevcReply<P>) -> Self {
        match (self, reply) {
            (HevcStep::CreateType { reader }, HevcReply::Created(Ok(media_type))) =>
                HevcStep::SetMajorType { reader, media_type },
            (HevcStep::CreateType { .. }, HevcReply::Created(Err(cause))) => HevcStep::Finished(
                Err(CaptureError::caused(Failure::CreateMediaType, cause)),
            ),
            (HevcStep::SetMajorType { reader, media_type }, HevcReply::MajorTypeSet(Ok(()))) =>
                HevcStep::SetSubtype { reader, media_type },
            (HevcStep::SetMajorType { .. }, HevcReply::MajorTypeSet(Err(cause))) =>
                HevcStep::Finished(Err(CaptureError::caused(Failure::SetMajorType, cause))),
            (HevcStep::SetSubtype { reader, media_type }, HevcReply::SubtypeSet(Ok(()))) =>
                HevcStep::SetOutput { reader, stream_index: FIRST_VIDEO_STREAM, media_type },
            (HevcStep::SetSubtype { .. }, HevcReply::SubtypeSet(Err(cause))) => HevcStep::Finished(
                Err(CaptureError::caused(Failure::SetSubtype, cause)),
            ),
            (HevcStep::SetOutput { .. }, HevcReply::OutputSet(Ok(()))) => HevcStep::Finished(
                Ok(()),
            ),
            (HevcStep::SetOutput { .. }, HevcReply::OutputSet(Err(cause))) => HevcStep::Finished(
                Err(CaptureError::caused(Failure::SetOutputType, cause)),
            ),
            _ => self,
        }
    }

    open spec fn is_finished(self) -> bool {
        self is Finished
    }

    proof fn result_stands(self, setting: (), reply: HevcReply<P>) {
    }
}

/// Takes the reply to the pending call and gives the next one.
pub fn force_hevc_output_on_reader<'a, P: Platform>(
    step: HevcStep<'a, P>,
    reply: HevcReply<P>,
) -> (next: HevcStep<'a, P>)
    ensures
        next == step.after((), reply),
{
    match (step, reply) {
        (HevcStep::CreateType { reader }, HevcReply::Created(outcome)) => match outcome {
            Ok(media_type) => HevcStep::SetMajorType { reader, media_type },
            Err(cause) => HevcStep::Finished(
                Err(CaptureError::caused(Failure::CreateMediaType, cause)),
            ),
        },
        (HevcStep::SetMajorType { reader, media_type }, HevcReply::MajorTypeSet(outcome)) =>
            match outcome {
                Ok(()) => HevcStep::SetSubtype { reader, media_type },
                Err(cause) => HevcStep::Finished(
                    Err(CaptureError::caused(Failure::SetMajorType, cause)),
                ),
            },
        (HevcStep::SetSubtype { reader, media_type }, HevcReply::SubtypeSet(outcome)) =>
            match outcome {
                Ok(()) => HevcStep::SetOutput {
                    reader,
                    stream_index: FIRST_VIDEO_STREAM,
                    media_type,
                },
                Err(cause) => HevcStep::Finished(
                    Err(CaptureError::caused(Failure::SetSubtype, cause)),
                ),
            },
        (HevcStep::SetOutput { .. }, HevcReply::OutputSet(outcome)) => match outcome {
            Ok(()) => HevcStep::Finished(Ok(())),
            Err(cause) => HevcStep::Finished(
                Err(CaptureError::caused(Failure::SetOutputType, cause)),
            ),
        },
        (step, _) => step,
    }
}

/// Success, if each of the four calls succeeds; else the first failure.
pub open spec fn hevc_outcome<P: Platform>(
    created: Result<P::MediaType, P::Error>,
    major_type_set: Result<(), P::Error>,
    subtype_set: Result<(), P::Error>,
    output_set: Result<(), P::Error>,
) -> Result<(), CaptureError<P::Error>> {
    match (created, major_type_set, subtype_set, output_set) {
        (Err(cause), _, _, _) => Err(CaptureError::caused(Failure::CreateMediaType, cause)),
        (_, Err(cause), _, _) => Err(CaptureError::caused(Failure::SetMajorType, cause)),
        (_, _, Err(cause), _) => Err(CaptureError::caused(Failure::SetSubtype, cause)),
        (_, _, _, Err(cause)) => Err(CaptureError::caused(Failure::SetOutputType, cause)),
        (Ok(_), Ok(()), Ok(()), Ok(())) => Ok(()),
    }
}

/// Whatever the four calls come back with, success or the first failure is returned.
pub proof fn hevc_is_forced_or_first_failure_returned<'a, P: Platform>(
    reader: &'a P::Reader,
    created: Result<P::MediaType, P::Error>,
    major_type_set: Result<(), P::Error>,
    subtype_set: Result<(), P::Error>,
    output_set: Result<(), P::Error>,
)
    ensures
        run(
            HevcStep::<P>::start(reader),
            (),
            seq![
                HevcReply::Created(created),
                HevcReply::MajorTypeSet(major_type_set),
                HevcReply::SubtypeSet(subtype_set),
                HevcReply::OutputSet(output_set),
            ],
        ) == HevcStep::<P>::Finished(
            hevc_outcome::<P>(created, major_type_set, subtype_set, output_set),
        ),
{
    reveal_with_fuel(run, 5);
}

/// What is set as the output of the given reader's first video stream is the media type that was
/// created, after its major type was set to video and its subtype to HEVC.
pub proof fn output_is_set_to_video_of_hevc<'a, P: Platform>(
    reader: &'a P::Reader,
    replies: Seq<HevcReply<P>>,
)
    ensures
        ({
            let reached = run(HevcStep::<P>::start(reader), (), replies);
            &&& reached matches HevcStep::CreateType { reader: given } ==> given == reader
            &&& reached matches HevcStep::SetMajorType { reader: given, media_type } ==> {
                &&& given == reader
                &&& replies.contains(HevcReply::Created(Ok(media_type)))
            }
            &&& reached matches HevcStep::SetSubtype { reader: given, media_type } ==> {
                &&& given == reader
                &&& replies.contains(HevcReply::Created(Ok(media_type)))
                &&& replies.contains(HevcReply::MajorTypeSet(Ok(())))
            }
            &&& reached matches HevcStep::SetOutput {
                reader: given,
                stream_index,
                media_type,
            } ==> {
                &&& given == reader
                &&& stream_index == FIRST_VIDEO_STREAM
                &&& replies.contains(HevcReply::Created(Ok(media_type)))
                &&& replies.contains(HevcReply::MajorTypeSet(Ok(())))
                &&& replies.contains(HevcReply::SubtypeSet(Ok(())))
            }
            &&& reached matches HevcStep::Finished(Ok(_)) ==> replies.contains(
                HevcReply::OutputSet(Ok(())),
            )
        }),
    decreases replies.len(),
{
    if replies.len() > 0 {
        output_is_set_to_video_of_hevc::<P>(reader, replies.drop_last());
        lemma_arrived(replies);
        match replies.last() {
            HevcReply::MajorTypeSet(Ok(done))
            | HevcReply::SubtypeSet(Ok(done))
            | HevcReply::OutputSet(Ok(done)) => {
                assert(done == ());
            },
            _ => {},
        }
    }
}

/// Attributes are returned exactly if all four calls are good, and they are the ones that were
/// created. An error is returned exactly if one of them is not: it names the first such call and
/// holds its cause.
pub proof fn attributes_take_four_good_calls<'a, P: Platform>(
    profile: Profile,
    manager: &'a P::Manager,
    created: Result<Option<P::Attributes>, P::Error>,
    cast: Result<P::Unknown, P::Error>,
    manager_set: Result<(), P::Error>,
    enabled: Result<(), P::Error>,
    attributes: P::Attributes,
    error: CaptureError<P::Error>,
)
    ensures
        ({
            let reached = run(
                AttributesStep::<P>::start(profile, manager),
                profile,
                seq![
                    AttributesReply::Created(created),
                    AttributesReply::Cast(cast),
                    AttributesReply::ManagerSet(manager_set),
                    AttributesReply::TransformsEnabled(enabled),
                ],
            );
            &&& reached == AttributesStep::<P>::Finished(Ok(attributes)) <==> {
                &&& created matches Ok(Some(given))
                &&& given == attributes
                &&& cast is Ok
                &&& manager_set is Ok
                &&& enabled is Ok
            }
            &&& reached == AttributesStep::<P>::Finished(Err(error)) <==> match created {
                Err(cause) => error.failure == Failure::CreateReaderAttributes && error.cause
                    == Some(cause),
                Ok(None) => error.failure == Failure::CreateReaderAttributes && error.cause is None,
                Ok(Some(_)) => match (cast, manager_set, enabled) {
                    (Err(cause), _, _) => error.failure == Failure::CastManager && error.cause
                        == Some(cause),
                    (Ok(_), Err(cause), _) => error.failure == Failure::SetReaderManager
                        && error.cause == Some(cause),
                    (Ok(_), Ok(_), Err(cause)) => error.failure
                        == Failure::EnableHardwareTransforms(profile) && error.cause == Some(cause),
                    (Ok(_), Ok(_), Ok(_)) => false,
                },
            }
        }),
{
    reveal_with_fuel(run, 5);
}

/// The store has room for four attributes where frames are captured and for two where only times
/// are. Every handle that a call needs is the one that an earlier call gave, or the manager, and
/// hardware transforms are switched on with a one. A reply to another call than the pending one
/// leads nowhere.
pub proof fn attribute_calls_hand_on_what_they_got<'a, P: Platform>(
    profile: Profile,
    given: &'a P::Manager,
    step: AttributesStep<'a, P>,
    reply: AttributesReply<P>,
)
    ensures
        AttributesStep::<P>::start(Profile::Hevc, given) matches AttributesStep::CreateAttributes {
            manager,
            capacity,
        } && manager == given && capacity == 4,
        AttributesStep::<P>::start(
            Profile::Timestamps,
            given,
        ) matches AttributesStep::CreateAttributes { manager, capacity } && manager == given
            && capacity == 2,
        step matches AttributesStep::CreateAttributes { manager, .. } ==> {
            &&& reply matches AttributesReply::Created(Ok(Some(attributes))) ==> step.after(
                profile,
                reply,
            ) == (AttributesStep::CastManager::<P> { manager, attributes })
            &&& reply !is Created ==> step.after(profile, reply) == step
        },
        step matches AttributesStep::CastManager { attributes, .. } ==> {
            &&& reply matches AttributesReply::Cast(Ok(unknown)) ==> step.after(profile, reply) == (
            AttributesStep::SetManager::<P> { attributes, unknown })
            &&& reply !is Cast ==> step.after(profile, reply) == step
        },
        step matches AttributesStep::SetManager { attributes, .. } ==> {
            &&& reply matches AttributesReply::ManagerSet(Ok(_)) ==> step.after(profile, reply) == (
            AttributesStep::EnableTransforms::<P> { attributes, value: 1 })
            &&& reply !is ManagerSet ==> step.after(profile, reply) == step
        },
        step matches AttributesStep::EnableTransforms { attributes, .. } ==> {
            &&& reply matches AttributesReply::TransformsEnabled(Ok(_)) ==> step.after(
                profile,
                reply,
            ) == AttributesStep::<P>::Finished(Ok(attributes))
            &&& reply !is TransformsEnabled ==> step.after(profile, reply) == step
        },
        step is Finished ==> step.after(profile, reply) == step,
{
}

/// A reader is returned exactly if there is a camera and both calls are good, and it is the one that
/// was created. An error is returned exactly if not: that of listing the cameras as it is, else one
/// that names what is missing or the first call that is not good, with its cause.
pub proof fn reader_takes_a_camera_and_two_good_calls<'a, P: Platform>(
    profile: Profile,
    attributes: &'a P::Attributes,
    listed: Result<Vec<P::Activate>, CaptureError<P::Error>>,
    activated: Result<P::Source, P::Error>,
    created: Result<P::Reader, P::Error>,
    reader: P::Reader,
    error: CaptureError<P::Error>,
)
    ensures
        ({
            let reached = run(
                CameraStep::<P>::start(attributes),
                profile,
                seq![
                    CameraReply::Listed(listed),
                    CameraReply::Activated(activated),
                    CameraReply::Created(created),
                ],
            );
            &&& reached == CameraStep::<P>::Finished(Ok(reader)) <==> {
                &&& listed matches Ok(devices)
                &&& devices@.len() > 0
                &&& activated is Ok
                &&& created == Ok::<_, P::Error>(reader)
            }
            &&& reached == CameraStep::<P>::Finished(Err(error)) <==> match listed {
                Err(met) => error == met,
                Ok(devices) => if devices@.len() == 0 {
                    error.failure == Failure::NoCaptureDevice && error.cause is None
                } else {
                    match (activated, created) {
                        (Err(cause), _) => error.failure == Failure::ActivateDevice(profile)
                            && error.cause == Some(cause),
                        (Ok(_), Err(cause)) => error.failure == Failure::CreateSourceReader(profile)
                            && error.cause == Some(cause),
                        (Ok(_), Ok(_)) => false,
                    }
                },
            }
        }),
{
    reveal_with_fuel(run, 4);
}

/// Of the cameras that are listed, however many, the one at index zero is activated. Every handle
/// that a call needs is the one that an earlier call gave, or the attributes. A reply to another call
/// than the pending one leads nowhere.
pub proof fn camera_calls_hand_on_what_they_got<'a, P: Platform>(
    profile: Profile,
    step: CameraStep<'a, P>,
    reply: CameraReply<P>,
)
    ensures
        step matches CameraStep::ListDevices { attributes } ==> {
            &&& reply matches CameraReply::Listed(Ok(devices)) ==> (devices@.len() > 0
                ==> step.after(profile, reply) == (CameraStep::Activate::<P> {
                attributes,
                device: devices@[0],
            }))
            &&& reply !is Listed ==> step.after(profile, reply) == step
        },
        step matches CameraStep::Activate { attributes, .. } ==> {
            &&& reply matches CameraReply::Activated(Ok(source)) ==> step.after(profile, reply) == (
            CameraStep::CreateReader::<P> { attributes, source })
            &&& reply !is Activated ==> step.after(profile, reply) == step
        },
        step is CreateReader ==> {
            &&& reply matches CameraReply::Created(Ok(reader)) ==> step.after(profile, reply)
                == CameraStep::<P>::Finished(Ok(reader))
            &&& reply !is Created ==> step.after(profile, reply) == step
        },
        step is Finished ==> step.after(profile, reply) == step,
{
}

/// HEVC is forced exactly if all four calls are good. An error is returned exactly if one of them is
/// not: it names the first such call and holds its cause.
pub proof fn hevc_takes_four_good_calls<'a, P: Platform>(
    reader: &'a P::Reader,
    created: Result<P::MediaType, P::Error>,
    major_type_set: Result<(), P::Error>,
    subtype_set: Result<(), P::Error>,
    output_set: Result<(), P::Error>,
    error: CaptureError<P::Error>,
)
    ensures
        ({
            let reached = run(
                HevcStep::<P>::start(reader),
                (),
                seq![
                    HevcReply::Created(created),
                    HevcReply::MajorTypeSet(major_type_set),
                    HevcReply::SubtypeSet(subtype_set),
                    HevcReply::OutputSet(output_set),
                ],
            );
            &&& reached == HevcStep::<P>::Finished(Ok(())) <==> {
                &&& created is Ok
                &&& major_type_set is Ok
                &&& subtype_set is Ok
                &&& output_set is Ok
            }
            &&& reached == HevcStep::<P>::Finished(Err(error)) <==> match (
                created,
                major_type_set,
                subtype_set,
                output_set,
            ) {
                (Err(cause), _, _, _) => error.failure == Failure::CreateMediaType && error.cause
                    == Some(cause),
                (Ok(_), Err(cause), _, _) => error.failure == Failure::SetMajorType && error.cause
                    == Some(cause),
                (Ok(_), Ok(_), Err(cause), _) => error.failure == Failure::SetSubtype && error.cause
                    == Some(cause),
                (Ok(_), Ok(_), Ok(_), Err(cause)) => error.failure == Failure::SetOutputType
                    && error.cause == Some(cause),
                (Ok(_), Ok(_), Ok(_), Ok(_)) => false,
            }
        }),
{
    reveal_with_fuel(run, 5);
}

/// One and the same media type goes through all the calls, and it is set on the first video stream
/// of the reader. A reply to another call than the pending one leads nowhere.
pub proof fn hevc_calls_hand_on_what_they_got<'a, P: Platform>(
    step: HevcStep<'a, P>,
    reply: HevcReply<P>,
)
    ensures
        step matches HevcStep::CreateType { reader } ==> {
            &&& reply matches HevcReply::Created(Ok(media_type)) ==> step.after((), reply) == (
            HevcStep::SetMajorType::<P> { reader, media_type })
            &&& reply !is Created ==> step.after((), reply) == step
        },
        step matches HevcStep::SetMajorType { reader, media_type } ==> {
            &&& reply matches HevcReply::MajorTypeSet(Ok(_)) ==> step.after((), reply) == (
            HevcStep::SetSubtype::<P> { reader, media_type })
            &&& reply !is MajorTypeSet ==> step.after((), reply) == step
        },
        step matches HevcStep::SetSubtype { reader, media_type } ==> {
            &&& reply matches HevcReply::SubtypeSet(Ok(_)) ==> step.after((), reply) == (
            HevcStep::SetOutput::<P> { reader, stream_index: 0xFFFF_FFFC, media_type })
            &&& reply !is SubtypeSet ==> step.after((), reply) == step
        },
        step is SetOutput ==> {
            &&& reply matches HevcReply::OutputSet(Ok(_)) ==> step.after((), reply) == HevcStep::<
                P,
            >::Finished(Ok(()))
            &&& reply !is OutputSet ==> step.after((), reply) == step
        },
        step is Finished ==> step.after((), reply) == step,
{
    match reply {
        HevcReply::OutputSet(Ok(done)) => {
            assert(done == ());
        },
        _ => {},
    }
}

} // verus!
