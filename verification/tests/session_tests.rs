use rustvncserver_android::callbacks::{BridgeEvent, Callback};
use rustvncserver_android::params::{CopyRect, CropRegion, FramebufferSize, RequestError, StartConfig};
use rustvncserver_android::session::{FramebufferStep, Session, StartPlan};

fn registered() -> Session {
    let mut s = Session::new();
    s.java_vm_ready = true;
    s.main_class_ready = true;
    s.input_class_ready = true;
    s
}

fn running() -> Session {
    let mut s = registered();
    s.init(true);
    s.start_server(800, 600, 5900, Some("d".to_string()), None).unwrap();
    s
}

#[test]
fn nothing_is_active_at_first() {
    let s = Session::new();
    assert!(!s.is_active());
    assert!(!s.container_ready);
    assert!(!s.event_handler_running);
}

#[test]
fn init_keeps_the_first_vm_only() {
    let mut s = Session::new();
    assert!(!s.init(false));
    assert!(s.container_ready && s.shutdown_channel_ready && !s.java_vm_ready);
    assert!(s.init(true));
    assert!(s.java_vm_ready);
    assert!(!s.init(true));
}

#[test]
fn start_needs_init() {
    let mut s = Session::new();
    let r = s.start_server(800, 600, 5900, Some("d".to_string()), None);
    assert_eq!(r, Err(RequestError::NotInitialized));
    assert_eq!(s, Session::new());
}

#[test]
fn refused_start_changes_nothing() {
    let mut s = Session::new();
    s.init(false);
    let before = s;
    assert_eq!(
        s.start_server(0, 600, 5900, Some("d".to_string()), None),
        Err(RequestError::InvalidWidth(0))
    );
    assert_eq!(s, before);
}

#[test]
fn start_then_stop() {
    let mut s = Session::new();
    s.init(true);
    let plan = s
        .start_server(1080, 2400, -1, Some("phone".to_string()), Some("pw".to_string()))
        .unwrap();
    assert_eq!(
        plan,
        StartPlan {
            config: StartConfig {
                width: 1080,
                height: 2400,
                port: None,
                desktop_name: "phone".to_string(),
                password: Some("pw".to_string()),
            },
            spawn_event_handler: true,
        }
    );
    assert!(s.is_active());
    assert!(s.event_handler_running);
    let stop = s.stop_server(vec![3, 4]);
    assert!(stop.disconnect_all);
    assert!(stop.send_shutdown);
    assert!(stop.notify.is_empty());
    assert!(!s.is_active());
    assert!(!s.event_handler_running);
}

#[test]
fn event_task_started_once_until_stop() {
    let mut s = Session::new();
    s.init(false);
    let first = s.start_server(10, 10, -1, Some("a".to_string()), None).unwrap();
    let second = s.start_server(20, 20, -1, Some("b".to_string()), None).unwrap();
    assert!(first.spawn_event_handler);
    assert!(!second.spawn_event_handler);
    s.stop_server(vec![]);
    let third = s.start_server(30, 30, 5900, Some("c".to_string()), None).unwrap();
    assert!(third.spawn_event_handler);
}

#[test]
fn stop_notifies_each_client_once_registered() {
    let mut s = running();
    let stop = s.stop_server(vec![5, 6]);
    assert_eq!(
        stop.notify,
        vec![
            Callback::ClientDisconnected { client: 5 },
            Callback::ClientDisconnected { client: 6 }
        ]
    );
    assert!(stop.disconnect_all);
}

#[test]
fn stop_without_server_only_signals_shutdown() {
    let mut s = registered();
    s.init(true);
    let stop = s.stop_server(vec![1]);
    assert!(stop.notify.is_empty());
    assert!(!stop.disconnect_all);
    assert!(stop.send_shutdown);
    let mut fresh = Session::new();
    assert!(!fresh.stop_server(vec![]).send_shutdown);
}

#[test]
fn one_framebuffer_update_at_a_time() {
    let mut s = running();
    let first = s.begin_framebuffer_update();
    assert_eq!(first, FramebufferStep::Dispatch);
    assert!(first.reply());
    let second = s.begin_framebuffer_update();
    assert_eq!(second, FramebufferStep::AlreadyInProgress);
    assert!(second.reply());
    s.finish_framebuffer_update();
    assert_eq!(s.begin_framebuffer_update(), FramebufferStep::Dispatch);
}

#[test]
fn framebuffer_update_without_server() {
    let mut s = Session::new();
    let step = s.begin_framebuffer_update();
    assert_eq!(step, FramebufferStep::NoServer);
    assert!(!step.reply());
    assert!(!s.framebuffer_update_in_progress);
}

#[test]
fn cropped_update_checks_region_first() {
    let mut s = running();
    assert_eq!(s.begin_cropped_update(15, 0, 0, 2, 2), Err(RequestError::BufferSizeMismatch {
        expected: 16,
        actual: 15
    }));
    assert!(!s.framebuffer_update_in_progress);
    assert_eq!(
        s.begin_cropped_update(16, 3, 4, 2, 2),
        Ok((CropRegion { x: 3, y: 4, width: 2, height: 2 }, FramebufferStep::Dispatch))
    );
    assert_eq!(
        s.begin_cropped_update(16, 3, 4, 2, 2),
        Ok((CropRegion { x: 3, y: 4, width: 2, height: 2 }, FramebufferStep::AlreadyInProgress))
    );
}

#[test]
fn resize_needs_server() {
    let s = running();
    assert_eq!(s.resize_request(1024, 768), Ok(FramebufferSize { width: 1024, height: 768 }));
    assert_eq!(s.resize_request(1024, 0), Err(RequestError::InvalidHeight(0)));
    let idle = Session::new();
    assert_eq!(idle.resize_request(1024, 768), Err(RequestError::ServerNotRunning));
    assert_eq!(idle.resize_request(-4, 768), Err(RequestError::InvalidWidth(-4)));
}

#[test]
fn copy_rect_needs_server() {
    let s = running();
    assert_eq!(
        s.copy_rect_request(1, 2, 3, 4, -5, 6),
        Ok(CopyRect { x: 1, y: 2, width: 3, height: 4, dx: -5, dy: 6 })
    );
    assert_eq!(s.copy_rect_request(1, 2, 0, 4, 0, 0), Err(RequestError::InvalidCopyRect));
    assert_eq!(
        Session::new().copy_rect_request(1, 2, 3, 4, 0, 0),
        Err(RequestError::ServerNotRunning)
    );
}

#[test]
fn outbound_connections_need_server() {
    assert_eq!(Session::new().outbound_request(5500), Err(RequestError::NotInitialized));
    let mut s = Session::new();
    s.init(false);
    assert_eq!(s.outbound_request(5500), Err(RequestError::ServerNotRunning));
    assert_eq!(running().outbound_request(5500), Ok(5500));
    assert_eq!(running().outbound_request(-1), Ok(65535));
}

#[test]
fn events_reach_java_only_when_registered() {
    let s = Session::new();
    assert_eq!(s.route_event(BridgeEvent::ClientConnected { client_id: 1 }), None);
    let mut only_main = Session::new();
    only_main.java_vm_ready = true;
    only_main.main_class_ready = true;
    assert_eq!(
        only_main.route_event(BridgeEvent::ClientConnected { client_id: 1 }),
        Some(Callback::ClientConnected { client: 1 })
    );
    assert_eq!(
        only_main.route_event(BridgeEvent::KeyPress { client_id: 1, down: true, key: 65 }),
        None
    );
    assert_eq!(
        registered().route_event(BridgeEvent::KeyPress { client_id: 1, down: true, key: 65 }),
        Some(Callback::KeyEvent { down: 1, keysym: 65, client: 1 })
    );
}

#[test]
fn event_handler_stops_on_shutdown() {
    let mut s = running();
    assert!(s.event_handler_running);
    s.event_handler_stopped();
    assert!(!s.event_handler_running);
    assert!(s.is_active());
}

#[test]
fn second_init_keeps_running_server() {
    let mut s = running();
    let before = s;
    assert!(!s.init(true));
    assert_eq!(s, before);
    assert!(s.is_active());
    let mut fresh = Session::new();
    fresh.init(false);
    let once = fresh;
    fresh.init(false);
    assert_eq!(fresh, once);
}
