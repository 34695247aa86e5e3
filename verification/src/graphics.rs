//! The graphics device, and the manager that shares it with Media Foundation.

use vstd::prelude::*;

use crate::com::Platform;
use crate::error::CaptureError;
use crate::error::Failure;
use crate::machine::lemma_arrived;
use crate::machine::run;
use crate::machine::times;
use crate::machine::Machine;

verus! {

/// What kind of driver a Direct3D device is asked of.
#[derive(Clone, Copy, Debug, PartialEq, Eq, Structural)]
pub enum DriverKind {
    /// A graphics adapter.
    Hardware,
    /// A reference or software rasterizer.
    Software,
}

/// A Direct3D feature level.
#[derive(Clone, Copy, Debug, PartialEq, Eq, Structural)]
pub enum FeatureLevel {
    Level10_0,
    Level11_0,
}

/// What a Direct3D device is asked to be.
#[derive(Clone, Copy, Debug, PartialEq, Eq, Structural)]
pub struct DeviceRequest {
    /// Whether no adapter is named, so that the system takes its default one.
    pub default_adapter: bool,
    pub driver: DriverKind,
    /// Whether surfaces in BGRA order have to be supported, as video needs them.
    pub bgra_support: bool,
    /// The only feature level that will do.
    pub feature_level: FeatureLevel,
}

/// The device that capture asks for: a hardware device of the default adapter.
#[verifier::allow_in_spec]
pub fn device_request() -> DeviceRequest
    returns
        (DeviceRequest {
            default_adapter: true,
            driver: DriverKind::Hardware,
            bgra_support: true,
            feature_level: FeatureLevel::Level11_0,
        }),
{
    DeviceRequest {
        default_adapter: true,
        driver: DriverKind::Hardware,
        bgra_support: true,
        feature_level: FeatureLevel::Level11_0,
    }
}

/// What the call that creates a device came back with: the call can succeed and still leave
/// the device or its context out.
pub struct CreatedDevice<P: Platform> {
    pub device: Option<P::Device>,
    pub context: Option<P::Context>,
}

/// The device and its context, if the call that creates them gave both.
pub open spec fn device_outcome<P: Platform>(outcome: Result<CreatedDevice<P>, P::Error>) -> Result<
    (P::Device, P::Context),
    CaptureError<P::Error>,
> {
    match outcome {
        Ok(CreatedDevice { device: Some(device), context: Some(context) }) => Ok((device, context)),
        Ok(CreatedDevice { device: Some(_), context: None }) => Err(
            CaptureError::plain(Failure::CreateDeviceContext),
        ),
        Ok(CreatedDevice { device: None, .. }) => Err(CaptureError::plain(Failure::CreateDevice)),
        Err(cause) => Err(CaptureError::caused(Failure::CreateDevice, cause)),
    }
}

/// Takes what the call that creates a device came back with.
pub fn create_d3d11_device<P: Platform>(outcome: Result<CreatedDevice<P>, P::Error>) -> (res:
    Result<(P::Device, P::Context), CaptureError<P::Error>>)
    ensures
        res == device_outcome::<P>(outcome),
{
    let created = match outcome {
        Ok(created) => created,
        Err(cause) => return Err(CaptureError::caused(Failure::CreateDevice, cause)),
    };
    match created.device {
        None => Err(CaptureError::plain(Failure::CreateDevice)),
        Some(device) => match created.context {
            None => Err(CaptureError::plain(Failure::CreateDeviceContext)),
            Some(context) => Ok((device, context)),
        },
    }
}

/// The next call that makes a device manager, with what it needs.
pub enum ManagerStep<'a, P: Platform> {
    /// Create a manager for `device`.
    CreateManager { device: &'a P::Device },
    /// View `device` through its base interface.
    CastDevice { device: &'a P::Device, manager: P::Manager, reset_token: u32 },
    /// Bind the device, seen as `unknown`, to `manager` under `reset_token`.
    ResetDevice { manager: P::Manager, reset_token: u32, unknown: P::Unknown },
    /// There is nothing left to do.
    Finished(Result<P::Manager, CaptureError<P::Error>>),
}

/// What a call that makes a device manager came back with.
pub enum ManagerReply<P: Platform> {
    /// The manager, which can be left out, and the token that binding a device to it takes.
    Created(Result<(Option<P::Manager>, u32), P::Error>),
    Cast(Result<P::Unknown, P::Error>),
    Reset(Result<(), P::Error>),
}

impl<'a, P: Platform> ManagerStep<'a, P> {
    /// The first call.
    #[verifier::allow_in_spec]
    pub fn start(device: &'a P::Device) -> Self
        returns
            (Self::CreateManager { device }),
    {
        ManagerStep::CreateManager { device }
    }
}

impl<'a, P: Platform> Machine for ManagerStep<'a, P> {
    type Setting = ();

    type Reply = ManagerReply<P>;

    /// A reply to another call than the pending one changes nothing.
    open spec fn after(self, setting: (), reply: ManagerReply<P>) -> Self {
        match (self, reply) {
            (
                ManagerStep::CreateManager { device },
                ManagerReply::Created(Ok((Some(manager), reset_token))),
            ) => ManagerStep::CastDevice { device, manager, reset_token },
            (ManagerStep::CreateManager { .. }, ManagerReply::Created(Ok((None, _)))) =>
                ManagerStep::Finished(Err(CaptureError::plain(Failure::CreateDeviceManager))),
            (ManagerStep::CreateManager { .. }, ManagerReply::Created(Err(cause))) =>
                ManagerStep::Finished(Err(CaptureError::caused(Failure::CreateDeviceManager, cause))),
            (
                ManagerStep::CastDevice { manager, reset_token, .. },
                ManagerReply::Cast(Ok(unknown)),
            ) => ManagerStep::ResetDevice { manager, reset_token, unknown },
            (ManagerStep::CastDevice { .. }, ManagerReply::Cast(Err(cause))) =>
                ManagerStep::Finished(Err(CaptureError::caused(Failure::CastDevice, cause))),
            (ManagerStep::ResetDevice { manager, .. }, ManagerReply::Reset(Ok(()))) =>
                ManagerStep::Finished(Ok(manager)),
            (ManagerStep::ResetDevice { .. }, ManagerReply::Reset(Err(cause))) =>
                ManagerStep::Finished(Err(CaptureError::caused(Failure::BindManager, cause))),
            _ => self,
        }
    }

    open spec fn is_finished(self) -> bool {
        self is Finished
    }

    proof fn result_stands(self, setting: (), reply: ManagerReply<P>) {
    }
}

/// The manager, if each of the three calls succeeds; else the first failure.
pub open spec fn manager_outcome<P: Platform>(
    created: Result<(Option<P::Manager>, u32), P::Error>,
    cast: Result<P::Unknown, P::Error>,
    reset: Result<(), P::Error>,
) -> Result<P::Manager, CaptureError<P::Error>> {
    match (created, cast, reset) {
        (Err(cause), _, _) => Err(CaptureError::caused(Failure::CreateDeviceManager, cause)),
        (Ok((None, _)), _, _) => Err(CaptureError::plain(Failure::CreateDeviceManager)),
        (_, Err(cause), _) => Err(CaptureError::caused(Failure::CastDevice, cause)),
        (_, _, Err(cause)) => Err(CaptureError::caused(Failure::BindManager, cause)),
        (Ok((Some(manager), _)), Ok(_), Ok(())) => Ok(manager),
    }
}

/// Whatever the three calls come back with, the manager or the first failure is returned.
pub proof fn manager_is_made_or_first_failure_returned<'a, P: Platform>(
    device: &'a P::Device,
    created: Result<(Option<P::Manager>, u32), P::Error>,
    cast: Result<P::Unknown, P::Error>,
    reset: Result<(), P::Error>,
)
    ensures
        run(
            ManagerStep::<P>::start(device),
            (),
            seq![
                ManagerReply::Created(created),
                ManagerReply::Cast(cast),
                ManagerReply::Reset(reset),
            ],
        ) == ManagerStep::<P>::Finished(manager_outcome::<P>(created, cast, reset)),
{
    reveal_with_fuel(run, 4);
}

/// What is cast is the device that the manager is made for. It is only ever bound under the token
/// that came with the manager it is bound to.
pub proof fn device_is_bound_under_its_token<'a, P: Platform>(
    device: &'a P::Device,
    replies: Seq<ManagerReply<P>>,
)
    ensures
        run(ManagerStep::<P>::start(device), (), replies) matches ManagerStep::CreateManager {
            device: held,
        } ==> held == device,
        run(ManagerStep::<P>::start(device), (), replies) matches ManagerStep::CastDevice {
            device: held,
            manager,
            reset_token,
        } ==> {
            &&& held == device
            &&& replies.contains(ManagerReply::Created(Ok((Some(manager), reset_token))))
        },
        run(ManagerStep::<P>::start(device), (), replies) matches ManagerStep::ResetDevice {
            manager,
            reset_token,
            unknown,
        } ==> {
            &&& replies.contains(ManagerReply::Created(Ok((Some(manager), reset_token))))
            &&& replies.contains(ManagerReply::Cast(Ok(unknown)))
        },
    decreases replies.len(),
{
    if replies.len() > 0 {
        device_is_bound_under_its_token::<P>(device, replies.drop_last());
        lemma_arrived(replies);
    }
}

/// Whether `reply` says that the pending call has bound the device to `manager`.
pub open spec fn binds_to<'a, P: Platform>(manager: P::Manager) -> spec_fn(
    ManagerStep<'a, P>,
    ManagerReply<P>,
) -> bool {
    |step: ManagerStep<'a, P>, reply: ManagerReply<P>|
        {
            &&& step matches ManagerStep::ResetDevice { manager: held, .. }
            &&& held == manager
            &&& reply matches ManagerReply::Reset(Ok(_))
        }
}

/// A manager that is returned has had the device bound to it, once.
pub proof fn returned_manager_is_bound<'a, P: Platform>(
    device: &'a P::Device,
    replies: Seq<ManagerReply<P>>,
    manager: P::Manager,
)
    requires
        run(ManagerStep::<P>::start(device), (), replies) == ManagerStep::<P>::Finished(Ok(manager)),
    ensures
        times(ManagerStep::<P>::start(device), (), replies, binds_to(manager)) == 1,
{
    bindings_so_far::<P>(device, replies, manager);
}

/// How often the device has been bound to `manager` so far.
proof fn bindings_so_far<'a, P: Platform>(
    device: &'a P::Device,
    replies: Seq<ManagerReply<P>>,
    manager: P::Manager,
)
    ensures
        ({
            let reached = run(ManagerStep::<P>::start(device), (), replies);
            let bound = times(ManagerStep::<P>::start(device), (), replies, binds_to(manager));
            &&& reached !is Finished ==> bound == 0
            &&& reached == ManagerStep::<P>::Finished(Ok(manager)) ==> bound == 1
        }),
    decreases replies.len(),
{
    if replies.len() > 0 {
        bindings_so_far::<P>(device, replies.drop_last(), manager);
    }
}

/// Takes the reply to the pending call and gives the next one.
pub fn create_dxgi_device_manager<'a, P: Platform>(
    step: ManagerStep<'a, P>,
    reply: ManagerReply<P>,
) -> (next: ManagerStep<'a, P>)
    ensures
        next == step.after((), reply),
{
    match (step, reply) {
        (ManagerStep::CreateManager { device }, ManagerReply::Created(outcome)) => match outcome {
            Ok((Some(manager), reset_token)) => ManagerStep::CastDevice {
                device,
                manager,
                reset_token,
            },
            Ok((None, _)) => ManagerStep::Finished(
                Err(CaptureError::plain(Failure::CreateDeviceManager)),
            ),
            Err(cause) => ManagerStep::Finished(
                Err(CaptureError::caused(Failure::CreateDeviceManager, cause)),
            ),
        },
        (ManagerStep::CastDevice { manager, reset_token, .. }, ManagerReply::Cast(outcome)) =>
            match outcome {
                Ok(unknown) => ManagerStep::ResetDevice { manager, reset_token, unknown },
                Err(cause) => ManagerStep::Finished(
                    Err(CaptureError::caused(Failure::CastDevice, cause)),
                ),
            },
        (ManagerStep::ResetDevice { manager, .. }, ManagerReply::Reset(outcome)) => match outcome {
            Ok(()) => ManagerStep::Finished(Ok(manager)),
            Err(cause) => ManagerStep::Finished(
                Err(CaptureError::caused(Failure::BindManager, cause)),
            ),
        },
        (step, _) => step,
    }
}

/// A device counts only together with its context. What is missing decides which failure it is, the
/// device before its context, and the error of a refused call is kept.
pub proof fn device_needs_its_context<P: Platform>(
    device: P::Device,
    context: P::Context,
    without: Option<P::Context>,
    cause: P::Error,
)
    ensures
        device_outcome::<P>(
            Ok(CreatedDevice { device: Some(device), context: Some(context) }),
        ) == Ok::<_, CaptureError<P::Error>>((device, context)),
        device_outcome::<P>(Ok(CreatedDevice { device: Some(device), context: None })) == Err::<
            (P::Device, P::Context),
            _,
        >((CaptureError::<P::Error> { failure: Failure::CreateDeviceContext, cause: None })),
        device_outcome::<P>(Ok(CreatedDevice { device: None, context: without })) == Err::<
            (P::Device, P::Context),
            _,
        >((CaptureError::<P::Error> { failure: Failure::CreateDevice, cause: None })),
        device_outcome::<P>(Err(cause)) == Err::<(P::Device, P::Context), _>(
            (CaptureError::<P::Error> { failure: Failure::CreateDevice, cause: Some(cause) }),
        ),
{
}

/// A manager is returned exactly if all three calls are good, and it is the one that was created. An
/// error is returned exactly if one of them is not: it names the first such call and holds its
/// cause.
pub proof fn manager_takes_three_good_calls<'a, P: Platform>(
    device: &'a P::Device,
    created: Result<(Option<P::Manager>, u32), P::Error>,
    cast: Result<P::Unknown, P::Error>,
    reset: Result<(), P::Error>,
    manager: P::Manager,
    error: CaptureError<P::Error>,
)
    ensures
        ({
            let reached = run(
                ManagerStep::<P>::start(device),
                (),
                seq![
                    ManagerReply::Created(created),
                    ManagerReply::Cast(cast),
                    ManagerReply::Reset(reset),
                ],
            );
            &&& reached == ManagerStep::<P>::Finished(Ok(manager)) <==> {
                &&& created matches Ok((Some(given), _))
                &&& given == manager
                &&& cast is Ok
                &&& reset is Ok
            }
            &&& reached == ManagerStep::<P>::Finished(Err(error)) <==> match created {
                Err(cause) => error.failure == Failure::CreateDeviceManager && error.cause == Some(
                    cause,
                ),
                Ok((None, _)) => error.failure == Failure::CreateDeviceManager && error.cause
                    is None,
                Ok((Some(_), _)) => match (cast, reset) {
                    (Err(cause), _) => error.failure == Failure::CastDevice && error.cause == Some(
                        cause,
                    ),
                    (Ok(_), Err(cause)) => error.failure == Failure::BindManager && error.cause
                        == Some(cause),
                    (Ok(_), Ok(_)) => false,
                },
            }
        }),
{
    reveal_with_fuel(run, 4);
}

/// Every handle that a call needs is the one that an earlier call gave, or the device. A reply to
/// another call than the pending one leads nowhere.
pub proof fn manager_calls_hand_on_what_they_got<'a, P: Platform>(
    step: ManagerStep<'a, P>,
    reply: ManagerReply<P>,
)
    ensures
        step matches ManagerStep::CreateManager { device } ==> {
            &&& reply matches ManagerReply::Created(Ok((Some(manager), reset_token)))
                ==> step.after((), reply) == (ManagerStep::CastDevice::<P> {
                device,
                manager,
                reset_token,
            })
            &&& reply !is Created ==> step.after((), reply) == step
        },
        step matches ManagerStep::CastDevice { manager, reset_token, .. } ==> {
            &&& reply matches ManagerReply::Cast(Ok(unknown)) ==> step.after((), reply) == (
            ManagerStep::ResetDevice::<P> { manager, reset_token, unknown })
            &&& reply !is Cast ==> step.after((), reply) == step
        },
        step matches ManagerStep::ResetDevice { manager, .. } ==> {
            &&& reply matches ManagerReply::Reset(Ok(_)) ==> step.after((), reply)
                == ManagerStep::<P>::Finished(Ok(manager))
            &&& reply !is Reset ==> step.after((), reply) == step
        },
        step is Finished ==> step.after((), reply) == step,
{
}

} // verus!
