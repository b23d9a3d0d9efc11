use wginit::{
    custom_send_result, effective_size, Availability, Context, EventLoopClosed, UserEvent, Wgpu,
    MIN_DIMENSION,
};

#[test]
fn size_is_kept_when_not_zero() {
    assert_eq!(effective_size(800, 600), (800, 600));
    assert_eq!(effective_size(1, 1), (1, 1));
    assert_eq!(effective_size(u32::MAX, u32::MAX), (u32::MAX, u32::MAX));
}

#[test]
fn zero_dimensions_become_one() {
    assert_eq!(MIN_DIMENSION, 1);
    assert_eq!(effective_size(0, 0), (1, 1));
    assert_eq!(effective_size(0, 600), (1, 600));
    assert_eq!(effective_size(800, 0), (800, 1));
}

#[test]
fn bundle_holds_its_parts_and_its_counter() {
    let wgpu = Wgpu::new("device", "queue", "adapter", "surface", 3);
    assert_eq!(wgpu.device, "device");
    assert_eq!(wgpu.queue, "queue");
    assert_eq!(wgpu.adapter, "adapter");
    assert_eq!(wgpu.surface, "surface");
    assert_eq!(wgpu.suspend_count, 3);
}

#[test]
fn context_is_a_view_of_its_arguments() {
    let event_loop = 1u8;
    let window = 2u16;
    let wgpu = 3u32;
    let ctxt = Context::new(&event_loop, Some(&window), Some(&wgpu));
    assert_eq!(ctxt.event_loop, &1);
    assert_eq!(ctxt.window, Some(&2));
    assert_eq!(ctxt.wgpu, Some(&3));
    assert_eq!(ctxt.availability(), Availability { window: true, wgpu: true });

    let ctxt = Context::<u8, u16, u32>::new(&event_loop, Some(&window), None);
    assert_eq!(ctxt.wgpu, None);
    assert_eq!(ctxt.availability(), Availability { window: true, wgpu: false });

    let ctxt = Context::<u8, u16, u32>::new(&event_loop, None, None);
    assert_eq!(ctxt.window, None);
    assert_eq!(ctxt.availability(), Availability { window: false, wgpu: false });
}

#[test]
fn custom_events_are_told_apart_from_ready_bundles() {
    let custom: UserEvent<&str, u8> = UserEvent::custom("hello");
    assert_eq!(custom, UserEvent::Custom("hello"));
    assert!(custom.is_custom());
    let ready: UserEvent<&str, u8> = UserEvent::WgpuReady(1);
    assert!(!ready.is_custom());
}

#[test]
fn accepted_send_is_ok() {
    let outcome: Result<(), UserEvent<&str, u8>> = Ok(());
    assert_eq!(custom_send_result(outcome), Ok(()));
}

#[test]
fn send_into_a_closed_loop_returns_the_event() {
    let outcome: Result<(), UserEvent<&str, u8>> = Err(UserEvent::custom("late"));
    assert_eq!(custom_send_result(outcome), Err(EventLoopClosed("late")));
    let EventLoopClosed(event) = custom_send_result(Err(UserEvent::<String, u8>::custom(
        "again".to_string(),
    )))
    .unwrap_err();
    assert_eq!(event, "again");
}
