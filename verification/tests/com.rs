use nezumi::com::{
    succeeded, SendCom, FIRST_VIDEO_STREAM, FULL_STARTUP, MEDIA_FOUNDATION_VERSION,
};

#[test]
fn wrapped_pointer_is_lent_out() {
    let wrapped = SendCom(7u32);
    assert_eq!(*wrapped.as_ref(), 7);
}

#[test]
fn clone_wraps_a_clone() {
    let wrapped = SendCom(vec![1u8, 2]);
    assert_eq!(wrapped.clone().0, vec![1u8, 2]);
    assert_eq!(wrapped.0, vec![1u8, 2]);
}

#[test]
fn every_code_of_success_counts() {
    assert!(succeeded(0));
    assert!(succeeded(1));
    assert!(succeeded(i32::MAX));
    assert!(!succeeded(-1));
    assert!(!succeeded(-2_147_417_850));
    assert!(!succeeded(i32::MIN));
}

#[test]
fn platform_constants_have_their_values() {
    assert_eq!(FIRST_VIDEO_STREAM, 4_294_967_292);
    assert_eq!(MEDIA_FOUNDATION_VERSION, 131_184);
    assert_eq!(FULL_STARTUP, 0);
}
