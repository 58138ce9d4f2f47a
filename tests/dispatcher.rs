use yam_lib::dispatcher::{delivery_of, dispatch, Delivery, DispatchAction, DispatchEvent};

#[test]
fn message_is_posted_as_is() {
    match dispatch(DispatchEvent::Received("db:1".to_string())) {
        DispatchAction::Post(m) => assert_eq!(m, "db:1"),
        DispatchAction::Exit(_) => panic!("should post"),
    }
}

#[test]
fn closed_channel_is_fatal() {
    match dispatch(DispatchEvent::ChannelClosed) {
        DispatchAction::Exit(e) => assert_eq!(e, "slack thread is exiting. This should never happen"),
        DispatchAction::Post(_) => panic!("should exit"),
    }
}

#[test]
fn delivery_classes() {
    assert!(matches!(delivery_of(Some(200)), Delivery::Delivered));
    assert!(matches!(delivery_of(Some(500)), Delivery::Rejected(500)));
    assert!(matches!(delivery_of(Some(201)), Delivery::Rejected(201)));
    assert!(matches!(delivery_of(None), Delivery::Unreachable));
}
