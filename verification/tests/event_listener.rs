use web_extensions::ListenerLifecycle;

#[test]
fn drop_deregisters_exactly_once() {
    let mut lifecycle = ListenerLifecycle::new();
    assert!(lifecycle.take_for_removal());
    assert!(!lifecycle.take_for_removal());
}

#[test]
fn forgetting_keeps_the_listener_alive() {
    let mut lifecycle = ListenerLifecycle::new();
    lifecycle.forget();
    assert!(!lifecycle.take_for_removal());
}
