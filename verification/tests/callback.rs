use mqi::callback::{event_dispatch, event_registration};

#[test]
fn event_handler_registration() {
    let r = event_registration(16384);
    assert_eq!(r.options, 16384 | 512);
    assert_eq!(r.callback_type, 2);
    assert_eq!(r.operation, 256);
}

#[test]
fn event_handler_dispatch() {
    let d = event_dispatch(4, 0);
    assert!(!d.invoke && d.release);
    let d = event_dispatch(4, 512);
    assert!(d.invoke && d.release);
    let d = event_dispatch(5, 0);
    assert!(d.invoke && !d.release);
}
