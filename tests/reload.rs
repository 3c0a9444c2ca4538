use hotreload::protocol::{
    DrawLineCommand, GameColor, ImageCommand, Position, RenderCommand, TextCommand,
};
use hotreload::reload::{ReloadError, ReloadLoop, RuntimeTrap, TickPlan};
use hotreload::watcher::{ChangeDetector, Signature};

fn sig(secs: u64) -> Signature {
    Signature { secs, nanos: 0 }
}

fn line_a() -> RenderCommand {
    RenderCommand::Line(DrawLineCommand {
        first: Position { x: 1, y: 2 },
        second: Position { x: 3, y: 4 },
        thickness: 2,
        color: GameColor { r: 1, g: 2, b: 3, a: 4 },
    })
}

fn text_b() -> RenderCommand {
    RenderCommand::Text(TextCommand {
        text: String::from("B"),
        position: Position { x: 0, y: 0 },
        size: 12,
        color: GameColor { r: 0, g: 0, b: 0, a: 255 },
    })
}

fn image_c() -> RenderCommand {
    RenderCommand::Image(ImageCommand {
        filename: String::from("c.png"),
        position: Position { x: 9, y: 9 },
        size: None,
    })
}

#[test]
fn change_reported_then_quiet() {
    let mut d = ChangeDetector::new(Some(sig(10)));
    assert!(!d.changed(Some(sig(10))));
    assert!(d.changed(Some(sig(11))));
    assert!(!d.changed(Some(sig(11))));
    assert_eq!(d.last_signature(), Some(sig(11)));
}

#[test]
fn nanosecond_change_is_a_change() {
    let mut d = ChangeDetector::new(Some(sig(10)));
    assert!(d.changed(Some(Signature { secs: 10, nanos: 1 })));
}

#[test]
fn unreadable_artifact_is_unchanged() {
    let mut d = ChangeDetector::new(Some(sig(5)));
    assert!(!d.changed(None));
    assert_eq!(d.last_signature(), Some(sig(5)));
    let mut e = ChangeDetector::new(None);
    assert!(!e.changed(None));
    assert!(e.changed(Some(sig(1))));
    assert!(!e.changed(Some(sig(1))));
}

#[test]
fn quiet_ticks_never_reload() {
    let mut d = ChangeDetector::new(Some(sig(3)));
    let mut host = ReloadLoop::new(41u32);
    for _ in 0..100 {
        let changed = d.changed(Some(sig(3)));
        let plan = host.plan_tick(changed);
        assert_eq!(plan, TickPlan::Run);
        host.accept_frame(Ok(vec![text_b()]));
        assert_eq!(*host.current(), 41);
    }
}

#[test]
fn failed_reload_keeps_old_handle() {
    let mut host = ReloadLoop::new(String::from("first"));
    assert_eq!(host.plan_tick(true), TickPlan::Reload { migrate: true });
    assert!(host.finish_reload(Err(ReloadError::Load)).is_none());
    assert_eq!(host.current(), "first");
    assert!(host.finish_reload(Err(ReloadError::Instantiate)).is_none());
    assert_eq!(host.current(), "first");
}

#[test]
fn successful_reload_swaps_and_returns_old() {
    let mut host = ReloadLoop::new(1u8);
    assert_eq!(host.finish_reload(Ok(2)), Some(1));
    assert_eq!(*host.current(), 2);
}

#[test]
fn commands_rendered_in_produced_order() {
    let mut host = ReloadLoop::new(());
    host.accept_frame(Ok(vec![line_a(), text_b(), image_c()]));
    let shown = host.frame();
    assert_eq!(shown.len(), 3);
    assert!(matches!(shown[0], RenderCommand::Line(_)));
    assert!(matches!(shown[1], RenderCommand::Text(_)));
    assert!(matches!(shown[2], RenderCommand::Image(_)));
    assert_eq!(format!("{:?}", shown), format!("{:?}", vec![line_a(), text_b(), image_c()]));
}

#[test]
fn trap_freezes_on_last_good_frame() {
    let mut host = ReloadLoop::new(0u32);
    assert!(host.frame().is_empty());
    host.accept_frame(Ok(vec![line_a()]));
    host.accept_frame(Err(RuntimeTrap));
    assert!(host.is_frozen());
    assert_eq!(host.plan_tick(false), TickPlan::Replay);
    assert_eq!(host.frame().len(), 1);
    assert!(matches!(host.frame()[0], RenderCommand::Line(_)));
    assert_eq!(host.plan_tick(true), TickPlan::Reload { migrate: false });
    assert!(host.finish_reload(Err(ReloadError::Load)).is_none());
    assert!(host.is_frozen());
    assert_eq!(host.finish_reload(Ok(9)), Some(0));
    assert!(!host.is_frozen());
    assert_eq!(host.plan_tick(false), TickPlan::Run);
}
