use servo_ui::handle::{HostEvent, ServoEvent};
use servo_ui::notices::{Notice, NoticeQueue};
use servo_ui::startup::{advance, startup_result, StartupError, StartupStep, StepOutcome};
use servo_ui::system::{FrameEvent, ServoUiSystem};
use servo_ui::window::{
    framebuffer_size, window_rect, DeviceRect, FramebufferRequest, SlotKind, TextureResource,
    DEFAULT_FRAMEBUFFER, FRAMEBUFFER_COMPLETE,
};
use servo_ui::{ServoHandle, ServoUiBundle, ServoWindow};

const INCOMPLETE_ATTACHMENT: u32 = 0x8CD6;

#[test]
fn resize_key_resize_translates_and_keeps_last_size() {
    let mut handle = ServoHandle::start_servo(1920, 1080);
    let out = handle.forward_events(vec![
        HostEvent::Resized(800, 600),
        HostEvent::Other,
        HostEvent::Resized(1024, 768),
    ]);
    assert_eq!(out, vec![ServoEvent::Resize, ServoEvent::Idle, ServoEvent::Resize]);
    assert_eq!(handle.window.get_dimensions(), (1024, 768));
}

#[test]
fn last_resize_wins_over_many() {
    let mut handle = ServoHandle::start_servo(640, 480);
    let mut events = Vec::new();
    for i in 1..200u32 {
        events.push(HostEvent::Resized(i, 2 * i));
        events.push(HostEvent::Other);
    }
    handle.forward_events(events);
    assert_eq!(handle.window.get_dimensions(), (199, 398));
    assert_eq!(handle.window.screen_size(), (199, 398));
    assert_eq!(handle.window.screen_avail_size(), (199, 398));
}

#[test]
fn no_resize_keeps_screen_size() {
    let mut handle = ServoHandle::start_servo(1920, 1080);
    let out = handle.forward_events(vec![HostEvent::Other, HostEvent::Other]);
    assert_eq!(out, vec![ServoEvent::Idle, ServoEvent::Idle]);
    assert_eq!(handle.window.get_dimensions(), (1920, 1080));
    assert_eq!(handle.forward_events(vec![]), vec![]);
}

#[test]
fn update_sends_no_events() {
    let handle = ServoHandle::start_servo(1, 1);
    assert!(handle.update().is_empty());
}

#[test]
fn stale_dimensions_keep_last_value() {
    let mut window = ServoWindow::new(300, 200);
    window.set_dimensions(400, 250);
    window.mark_stale(SlotKind::Dimensions);
    window.set_dimensions(500, 500);
    assert_eq!(window.get_dimensions(), (400, 250));
}

#[test]
fn target_is_taken_once() {
    let mut window = ServoWindow::new(800, 600);
    assert_eq!(window.has_target(), Ok(false));
    assert_eq!(window.get_target(), None);
    window.set_target(TextureResource::Surface(4));
    assert_eq!(window.get_target(), None);
    window.set_target(TextureResource::Texture(9));
    assert_eq!(window.get_target(), Some(9));
    window.set_target(TextureResource::Texture(11));
    assert_eq!(window.get_target(), Some(9));
    assert_eq!(window.has_target(), Ok(true));
}

#[test]
fn stale_target_reports_poisoned_lock() {
    let mut window = ServoWindow::new(800, 600);
    window.set_target(TextureResource::Texture(5));
    window.mark_stale(SlotKind::Target);
    assert_eq!(window.has_target(), Err("Lock poisoned".to_string()));
    assert_eq!(window.get_target(), Some(5));
}

#[test]
fn framebuffer_request_follows_target_and_size() {
    let mut window = ServoWindow::new(800, 600);
    assert_eq!(window.framebuffer_request(), None);
    window.set_target(TextureResource::Texture(3));
    window.set_dimensions(1280, 720);
    assert_eq!(
        window.framebuffer_request(),
        Some(FramebufferRequest { texture: 3, width: 1280, height: 720 })
    );
    assert_eq!(window.setup_framebuffer(12, FRAMEBUFFER_COMPLETE), Ok(()));
    assert_eq!(window.framebuffer_request(), None);
}

#[test]
fn setup_without_target_fails() {
    let mut window = ServoWindow::new(800, 600);
    assert_eq!(window.setup_framebuffer(12, FRAMEBUFFER_COMPLETE), Err(0));
    assert!(!window.prepare_for_composite(800, 600));
}

#[test]
fn incomplete_framebuffer_is_not_stored() {
    let mut window = ServoWindow::new(800, 600);
    window.set_target(TextureResource::Texture(3));
    assert_eq!(window.setup_framebuffer(12, INCOMPLETE_ATTACHMENT), Err(INCOMPLETE_ATTACHMENT));
    assert!(!window.prepare_for_composite(800, 600));
    assert_eq!(window.setup_framebuffer(13, FRAMEBUFFER_COMPLETE), Ok(()));
    assert!(window.prepare_for_composite(800, 600));
    assert_eq!(window.bound_framebuffer(), 13);
}

#[test]
fn second_setup_is_refused() {
    let mut window = ServoWindow::new(800, 600);
    window.set_target(TextureResource::Texture(3));
    assert_eq!(window.setup_framebuffer(12, FRAMEBUFFER_COMPLETE), Ok(()));
    assert_eq!(window.setup_framebuffer(14, FRAMEBUFFER_COMPLETE), Err(0));
    assert!(window.prepare_for_composite(1, 1));
    assert_eq!(window.bound_framebuffer(), 12);
}

#[test]
fn stale_framebuffer_slot_refuses_setup_and_binding() {
    let mut window = ServoWindow::new(800, 600);
    window.set_target(TextureResource::Texture(3));
    window.mark_stale(SlotKind::Framebuffer);
    assert_eq!(window.setup_framebuffer(12, FRAMEBUFFER_COMPLETE), Err(0));
    assert_eq!(window.enable_fb(), Err(()));
}

#[test]
fn composite_round_trip_restores_default_target() {
    let mut window = ServoWindow::new(800, 600);
    window.set_target(TextureResource::Texture(3));
    window.setup_framebuffer(21, FRAMEBUFFER_COMPLETE).unwrap();
    assert_eq!(window.bound_framebuffer(), DEFAULT_FRAMEBUFFER);
    assert!(window.prepare_for_composite(800, 600));
    assert_eq!(window.bound_framebuffer(), 21);
    window.present();
    assert_eq!(window.bound_framebuffer(), DEFAULT_FRAMEBUFFER);
    assert_eq!(window.get_dimensions(), (800, 600));
    assert_eq!(window.get_target(), Some(3));
}

#[test]
fn enable_and_disable_fb() {
    let mut window = ServoWindow::new(800, 600);
    assert_eq!(window.enable_fb(), Err(()));
    window.set_target(TextureResource::Texture(3));
    window.setup_framebuffer(8, FRAMEBUFFER_COMPLETE).unwrap();
    assert_eq!(window.enable_fb(), Ok(()));
    assert_eq!(window.bound_framebuffer(), 8);
    window.disable_fb();
    assert_eq!(window.bound_framebuffer(), DEFAULT_FRAMEBUFFER);
}

#[test]
fn geometry_scales_inner_size() {
    assert_eq!(framebuffer_size((800, 600), 2), (1600, 1200));
    assert_eq!(framebuffer_size((800, 600), 1), (800, 600));
    assert_eq!(
        window_rect((640, 480), 3),
        DeviceRect { x: 0, y: 0, width: 1920, height: 1440 }
    );
    assert!(ServoWindow::new(1, 1).supports_clipboard());
}

#[test]
fn driver_sets_up_once_and_then_forwards() {
    let mut sys = ServoUiSystem::new(ServoHandle::start_servo(1024, 768));
    let tick = sys.run(None, vec![FrameEvent::Awakened]);
    assert_eq!(tick.setup, None);
    assert!(tick.forwarded.is_empty());

    let tick = sys.run(Some(TextureResource::Texture(6)), vec![]);
    assert_eq!(tick.setup, Some(FramebufferRequest { texture: 6, width: 1024, height: 768 }));
    assert!(sys.setup_pending);

    let tick = sys.run(Some(TextureResource::Texture(6)), vec![]);
    assert_eq!(tick.setup, None);

    assert_eq!(sys.complete_setup(40, FRAMEBUFFER_COMPLETE), Ok(()));
    assert!(!sys.setup_pending);
    assert_eq!(sys.servo.window.has_target(), Ok(true));

    for _ in 0..5 {
        let tick = sys.run(Some(TextureResource::Texture(6)), vec![]);
        assert_eq!(tick.setup, None);
    }
    let tick = sys.run(
        Some(TextureResource::Texture(6)),
        vec![
            FrameEvent::Window(HostEvent::Resized(800, 600)),
            FrameEvent::Device,
            FrameEvent::Window(HostEvent::Other),
            FrameEvent::Awakened,
        ],
    );
    assert_eq!(tick.forwarded, vec![ServoEvent::Resize, ServoEvent::Idle]);
    assert_eq!(sys.servo.window.get_dimensions(), (800, 600));
}

#[test]
fn driver_retries_failed_setup() {
    let mut sys = ServoUiSystem::new(ServoHandle::start_servo(640, 480));
    let tick = sys.run(Some(TextureResource::Texture(2)), vec![]);
    assert!(tick.setup.is_some());
    assert_eq!(sys.complete_setup(30, INCOMPLETE_ATTACHMENT), Err(INCOMPLETE_ATTACHMENT));
    let tick = sys.run(None, vec![]);
    assert_eq!(tick.setup, Some(FramebufferRequest { texture: 2, width: 640, height: 480 }));
    assert_eq!(sys.complete_setup(31, FRAMEBUFFER_COMPLETE), Ok(()));
    assert!(sys.servo.window.prepare_for_composite(640, 480));
    assert_eq!(sys.servo.window.bound_framebuffer(), 31);
}

#[test]
fn startup_happy_path() {
    let mut step = StartupStep::MakeContextCurrent;
    let mut reports = 0;
    while startup_result(step).is_none() {
        step = advance(step, StepOutcome::Succeeded);
        reports += 1;
    }
    assert_eq!(reports, 7);
    assert_eq!(step, StartupStep::Ready);
    assert_eq!(startup_result(step), Some(Ok(())));
}

#[test]
fn missing_tab_reply_fails_handshake() {
    let step = advance(StartupStep::AwaitTabId, StepOutcome::TimedOut);
    assert_eq!(step, StartupStep::Failed(StartupError::HandshakeFailed));
    assert_eq!(startup_result(step), Some(Err(StartupError::HandshakeFailed)));
    assert_eq!(advance(step, StepOutcome::Succeeded), step);
}

#[test]
fn startup_errors_by_step() {
    assert_eq!(
        advance(StartupStep::MakeContextCurrent, StepOutcome::Failed),
        StartupStep::Failed(StartupError::ContextActivationFailed)
    );
    assert_eq!(
        advance(StartupStep::SetResourcesPath, StepOutcome::Failed),
        StartupStep::Failed(StartupError::EngineSetupFailed)
    );
    assert_eq!(
        advance(StartupStep::RequestTab, StepOutcome::Failed),
        StartupStep::Failed(StartupError::HandshakeFailed)
    );
    assert_eq!(
        advance(StartupStep::SelectTab, StepOutcome::Failed),
        StartupStep::Failed(StartupError::HandshakeFailed)
    );
    assert_eq!(advance(StartupStep::Ready, StepOutcome::Failed), StartupStep::Ready);
}

#[test]
fn bundle_is_a_plain_marker() {
    let bundle = ServoUiBundle;
    assert_eq!(bundle, ServoUiBundle);
}

#[test]
fn notices_are_kept_in_order_and_taken_once() {
    let mut queue = NoticeQueue::new();
    assert_eq!(queue.len(), 0);
    queue.notify(Notice::LoadStart);
    queue.notify(Notice::PageTitle(Some("Menu".to_string())));
    queue.notify(Notice::HistoryChanged(2));
    queue.notify(Notice::LoadEnd);
    assert_eq!(queue.len(), 4);
    assert_eq!(
        queue.take_all(),
        vec![
            Notice::LoadStart,
            Notice::PageTitle(Some("Menu".to_string())),
            Notice::HistoryChanged(2),
            Notice::LoadEnd,
        ]
    );
    assert_eq!(queue.len(), 0);
    assert!(queue.take_all().is_empty());
}
