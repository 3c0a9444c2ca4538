use hotreload::game::{GameGuest, Guest, Instance, RunnableGameInstance};
use hotreload::game::{RestoreError, SaveError};
use hotreload::migrate::{migrate, outcome_of_restore, step_after_save, MigrationOutcome, MigrationStep};
use hotreload::protocol::{
    ClickInfo, DrawLineCommand, GameColor, Key, KeyboardInfo, MouseInfo, Position, RenderCommand,
    Size,
};
use hotreload::text::{append_decimal, append_key_list, append_signed_decimal};

fn idle() -> ClickInfo {
    ClickInfo { pressed: false, released: false, down: false }
}

fn mouse_at(x: i32, y: i32, left_pressed: bool) -> MouseInfo {
    MouseInfo {
        position: Position { x, y },
        left: ClickInfo { pressed: left_pressed, released: false, down: left_pressed },
        right: idle(),
        middle: idle(),
    }
}

fn keys(down: Vec<Key>) -> KeyboardInfo {
    KeyboardInfo { pressed: Vec::new(), released: Vec::new(), down }
}

fn text_of(c: &RenderCommand) -> String {
    match c {
        RenderCommand::Text(t) => t.text.clone(),
        other => panic!("expected a text command, got {:?}", other),
    }
}

fn render_all(frames: &[Vec<RenderCommand>]) -> Vec<String> {
    frames.iter().map(|f| format!("{:?}", f)).collect()
}

#[test]
fn new_instance_starts_at_zero() {
    assert_eq!(Instance::new().count(), 0);
    let g: <GameGuest as Guest>::GameInstance = Instance::new();
    assert_eq!(g.count(), 0);
}

#[test]
fn left_press_counts_once_per_tick() {
    let mut g = Instance::new();
    g.run_frame(mouse_at(0, 0, true), keys(vec![]));
    g.run_frame(mouse_at(0, 0, false), keys(vec![]));
    g.run_frame(mouse_at(0, 0, true), keys(vec![]));
    assert_eq!(g.count(), 2);
}

#[test]
fn frame_commands_in_order() {
    let mut g = Instance::new();
    let cs = g.run_frame(mouse_at(-3, 42, true), keys(vec![Key::A, Key::Space]));
    assert_eq!(cs.len(), 7);
    match &cs[0] {
        RenderCommand::Text(t) => {
            assert_eq!(t.text, "Hot Reloading with Rust!");
            assert_eq!(t.position, Position { x: 40, y: 80 });
            assert_eq!(t.size, 40);
            assert_eq!(t.color, GameColor { r: 0, g: 255, b: 255, a: 255 });
        }
        other => panic!("unexpected {:?}", other),
    }
    match &cs[1] {
        RenderCommand::Image(i) => {
            assert_eq!(i.filename, "resources/rustacean-flat-happy.png");
            assert_eq!(i.position, Position { x: 500, y: 25 });
            assert_eq!(i.size, Some(Size { width: 150, height: 90 }));
        }
        other => panic!("unexpected {:?}", other),
    }
    assert_eq!(text_of(&cs[2]), "Count: 1");
    assert_eq!(text_of(&cs[3]), "Key Down: ([A, Space])");
    assert_eq!(text_of(&cs[4]), "Mouse: (-3, 42)");
    match &cs[5] {
        RenderCommand::Line(l) => assert_eq!(
            *l,
            DrawLineCommand {
                first: Position { x: 625, y: 125 },
                second: Position { x: 675, y: 200 },
                thickness: 4,
                color: GameColor { r: 255, g: 0, b: 0, a: 255 },
            }
        ),
        other => panic!("unexpected {:?}", other),
    }
    match &cs[6] {
        RenderCommand::Line(l) => {
            assert_eq!(l.first, Position { x: 700, y: 125 });
            assert_eq!(l.color, GameColor { r: 0, g: 0, b: 255, a: 255 });
        }
        other => panic!("unexpected {:?}", other),
    }
}

#[test]
fn no_keys_down_shows_empty_list() {
    let mut g = Instance::new();
    let cs = g.run_frame(mouse_at(0, 0, false), keys(vec![]));
    assert_eq!(text_of(&cs[2]), "Count: 0");
    assert_eq!(text_of(&cs[3]), "Key Down: ([])");
    assert_eq!(text_of(&cs[4]), "Mouse: (0, 0)");
}

#[test]
fn trait_run_frame_matches_inherent() {
    let mut a = Instance::new();
    let mut b = Instance::new();
    let x = RunnableGameInstance::run_frame(&mut a, mouse_at(5, 6, true), keys(vec![Key::F12]));
    let y = b.run_frame(mouse_at(5, 6, true), keys(vec![Key::F12]));
    assert_eq!(format!("{:?}", x), format!("{:?}", y));
    assert_eq!(text_of(&x[3]), "Key Down: ([F12])");
}

#[test]
fn save_writes_little_endian_count() {
    let mut g = Instance::new();
    assert_eq!(g.save().unwrap(), vec![0, 0, 0, 0]);
    assert!(g.restore(vec![2, 1, 0, 0]).is_ok());
    assert_eq!(g.count(), 258);
    assert_eq!(g.save().unwrap(), vec![2, 1, 0, 0]);
}

#[test]
fn restore_ignores_trailing_bytes() {
    let mut g = Instance::new();
    assert!(g.restore(vec![7, 0, 0, 0, 99, 98]).is_ok());
    assert_eq!(g.count(), 7);
}

#[test]
fn restore_of_short_blob_resets_to_default() {
    let mut g = Instance::new();
    g.run_frame(mouse_at(0, 0, true), keys(vec![]));
    assert_eq!(g.count(), 1);
    assert!(g.restore(vec![1, 2, 3]).is_err());
    assert_eq!(g.count(), 0);
    assert!(g.restore(Vec::new()).is_err());
    assert_eq!(g.count(), 0);
}

#[test]
fn count_wraps_past_largest() {
    let mut g = Instance::new();
    assert!(g.restore(vec![255, 255, 255, 255]).is_ok());
    assert_eq!(g.count(), u32::MAX);
    let cs = g.run_frame(mouse_at(0, 0, true), keys(vec![]));
    assert_eq!(g.count(), 0);
    assert_eq!(text_of(&cs[2]), "Count: 0");
}

fn inputs() -> Vec<(MouseInfo, KeyboardInfo)> {
    vec![
        (mouse_at(1, 2, true), keys(vec![Key::W])),
        (mouse_at(3, 4, false), keys(vec![])),
        (mouse_at(-5, 6, true), keys(vec![Key::LeftShift, Key::KeyZero])),
    ]
}

#[test]
fn restore_of_save_replays_identically() {
    let mut outgoing = Instance::new();
    for _ in 0..3 {
        outgoing.run_frame(mouse_at(0, 0, true), keys(vec![]));
    }
    let blob = outgoing.save().unwrap();
    let mut copy = Instance::new();
    assert!(copy.restore(blob).is_ok());
    let a: Vec<_> = inputs().into_iter().map(|(m, k)| outgoing.run_frame(m, k)).collect();
    let b: Vec<_> = inputs().into_iter().map(|(m, k)| copy.run_frame(m, k)).collect();
    assert_eq!(render_all(&a), render_all(&b));
    assert_eq!(text_of(&a[0][2]), "Count: 4");
}

#[test]
fn failed_restore_replays_like_fresh() {
    let mut restored = Instance::new();
    assert!(restored.restore(vec![0xde, 0xad]).is_err());
    let mut fresh = Instance::new();
    let a: Vec<_> = inputs().into_iter().map(|(m, k)| restored.run_frame(m, k)).collect();
    let b: Vec<_> = inputs().into_iter().map(|(m, k)| fresh.run_frame(m, k)).collect();
    assert_eq!(render_all(&a), render_all(&b));
}

#[test]
fn migrate_carries_state() {
    let mut outgoing = Instance::new();
    outgoing.run_frame(mouse_at(0, 0, true), keys(vec![]));
    outgoing.run_frame(mouse_at(0, 0, true), keys(vec![]));
    let mut incoming = Instance::new();
    assert_eq!(migrate(&outgoing, &mut incoming), MigrationOutcome::Migrated);
    assert_eq!(incoming.count(), 2);
}

#[test]
fn migration_steps() {
    match step_after_save(Ok(vec![9, 8, 7])) {
        MigrationStep::Restore(blob) => assert_eq!(blob, vec![9, 8, 7]),
        MigrationStep::Done(o) => panic!("unexpected {:?}", o),
    }
    match step_after_save(Err(SaveError)) {
        MigrationStep::Done(o) => assert_eq!(o, MigrationOutcome::SaveFailed),
        MigrationStep::Restore(_) => panic!("nothing was saved"),
    }
    assert_eq!(outcome_of_restore(Ok(())), MigrationOutcome::Migrated);
    assert_eq!(outcome_of_restore(Err(RestoreError)), MigrationOutcome::RestoreFailed);
}

#[test]
fn fresh_save_after_press_restores_count() {
    let mut g = Instance::new();
    assert_eq!(g.save(), Ok(vec![0, 0, 0, 0]));
    g.run_frame(mouse_at(0, 0, true), keys(vec![]));
    let blob = g.save().unwrap();
    assert_eq!(blob, vec![1, 0, 0, 0]);
    let mut h = Instance::new();
    assert!(h.restore(blob).is_ok());
    let cs = h.run_frame(mouse_at(0, 0, false), keys(vec![]));
    assert_eq!(text_of(&cs[2]), "Count: 1");
}

#[test]
fn interface_key_names() {
    assert_eq!(Key::KeyZero.interface_name(), "key-zero");
    assert_eq!(Key::Kp0.interface_name(), "kp0");
    assert_eq!(Key::F12.interface_name(), "f12");
    assert_eq!(Key::LeftShift.interface_name(), "left-shift");
    assert_eq!(Key::A.interface_name(), "a");
}

#[test]
fn decimal_text() {
    let mut s = String::from("n=");
    append_decimal(&mut s, 0);
    assert_eq!(s, "n=0");
    let mut s = String::new();
    append_decimal(&mut s, 18446744073709551615);
    assert_eq!(s, "18446744073709551615");
    let mut s = String::new();
    append_signed_decimal(&mut s, i32::MIN);
    assert_eq!(s, "-2147483648");
    let mut s = String::new();
    append_signed_decimal(&mut s, 905);
    assert_eq!(s, "905");
}

#[test]
fn key_list_text() {
    let mut s = String::new();
    append_key_list(&mut s, &vec![Key::Kp0, Key::Unknown, Key::GraveAccent]);
    assert_eq!(s, "[Kp0, Unknown, GraveAccent]");
    assert_eq!(Key::WorldOne.name(), "WorldOne");
}
