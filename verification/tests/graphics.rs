use nezumi::com::Platform;
use nezumi::error::{CaptureError, Failure};
use nezumi::graphics::{
    create_d3d11_device, create_dxgi_device_manager, device_request, CreatedDevice, DriverKind,
    FeatureLevel, ManagerReply, ManagerStep,
};

struct Fake;

impl Platform for Fake {
    type Device = u32;
    type Context = u32;
    type Manager = u32;
    type Unknown = u32;
    type Attributes = u32;
    type Activate = u32;
    type Source = u32;
    type Reader = u32;
    type MediaType = u32;
    type Sample = u32;
    type Buffer = u32;
    type Error = &'static str;
}

fn device(
    outcome: Result<(Option<u32>, Option<u32>), &'static str>,
) -> Result<(u32, u32), (Failure, Option<&'static str>)> {
    let outcome = outcome.map(|(device, context)| CreatedDevice { device, context });
    create_d3d11_device::<Fake>(outcome).map_err(|e| (e.failure, e.cause))
}

const DEVICE: u32 = 4;

fn feed(replies: Vec<ManagerReply<Fake>>) -> ManagerStep<'static, Fake> {
    let mut step = ManagerStep::start(&DEVICE);
    for reply in replies {
        step = create_dxgi_device_manager(step, reply);
    }
    step
}

fn manager(replies: Vec<ManagerReply<Fake>>) -> Result<u32, (Failure, Option<&'static str>)> {
    match feed(replies) {
        ManagerStep::Finished(Ok(manager)) => Ok(manager),
        ManagerStep::Finished(Err(CaptureError { failure, cause })) => Err((failure, cause)),
        _ => panic!("a call is pending"),
    }
}

#[test]
fn hardware_device_of_level_eleven_is_requested() {
    let request = device_request();
    assert!(request.default_adapter);
    assert_eq!(request.driver, DriverKind::Hardware);
    assert_eq!(request.feature_level, FeatureLevel::Level11_0);
    assert!(request.bgra_support);
}

#[test]
fn device_comes_with_its_context() {
    assert_eq!(device(Ok((Some(1), Some(2)))), Ok((1, 2)));
}

#[test]
fn device_can_be_missing() {
    assert_eq!(device(Err("no adapter")), Err((Failure::CreateDevice, Some("no adapter"))));
    assert_eq!(device(Ok((None, Some(2)))), Err((Failure::CreateDevice, None)));
    assert_eq!(device(Ok((None, None))), Err((Failure::CreateDevice, None)));
    assert_eq!(device(Ok((Some(1), None))), Err((Failure::CreateDeviceContext, None)));
}

#[test]
fn manager_is_bound_under_its_own_token() {
    let step = feed(vec![
        ManagerReply::Created(Ok((Some(5), 77))),
        ManagerReply::Cast(Ok(6)),
    ]);
    assert!(matches!(
        step,
        ManagerStep::ResetDevice { manager: 5, reset_token: 77, unknown: 6 }
    ));
}

#[test]
fn given_device_is_the_one_that_is_cast() {
    assert!(matches!(feed(vec![]), ManagerStep::CreateManager { device: &DEVICE }));
    assert!(matches!(
        feed(vec![ManagerReply::Created(Ok((Some(5), 77)))]),
        ManagerStep::CastDevice { device: &DEVICE, manager: 5, reset_token: 77 }
    ));
}

#[test]
fn manager_is_returned_once_bound() {
    let made = manager(vec![
        ManagerReply::Created(Ok((Some(5), 77))),
        ManagerReply::Cast(Ok(6)),
        ManagerReply::Reset(Ok(())),
    ]);
    assert_eq!(made, Ok(5));
}

#[test]
fn manager_failures_are_told_apart() {
    assert_eq!(
        manager(vec![ManagerReply::Created(Err("a"))]),
        Err((Failure::CreateDeviceManager, Some("a")))
    );
    assert_eq!(
        manager(vec![ManagerReply::Created(Ok((None, 1)))]),
        Err((Failure::CreateDeviceManager, None))
    );
    assert_eq!(
        manager(vec![ManagerReply::Created(Ok((Some(5), 1))), ManagerReply::Cast(Err("b"))]),
        Err((Failure::CastDevice, Some("b")))
    );
    assert_eq!(
        manager(vec![
            ManagerReply::Created(Ok((Some(5), 1))),
            ManagerReply::Cast(Ok(6)),
            ManagerReply::Reset(Err("c")),
        ]),
        Err((Failure::BindManager, Some("c")))
    );
}

#[test]
fn first_manager_failure_stands() {
    let made = manager(vec![
        ManagerReply::Created(Err("a")),
        ManagerReply::Cast(Ok(6)),
        ManagerReply::Reset(Ok(())),
    ]);
    assert_eq!(made, Err((Failure::CreateDeviceManager, Some("a"))));
}

#[test]
fn reply_to_another_call_is_passed_over() {
    assert!(matches!(
        feed(vec![ManagerReply::Reset(Ok(()))]),
        ManagerStep::CreateManager { device: &DEVICE }
    ));
}
