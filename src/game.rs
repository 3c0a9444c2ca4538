use vstd::prelude::*;

use crate::codec::{
    bincode_decode_u32, bincode_encode_u32, decode_u32_spec, le_bytes_u32,
    lemma_decode_encode_u32,
};
use crate::protocol::{
    commands_view, CommandView, DrawLineCommand, GameColor, ImageCommand, Key, KeyboardInfo,
    MouseInfo, Position, RenderCommand, Size, TextCommand,
};
use crate::text::{
    append_decimal, append_key_list, append_signed_decimal, decimal, key_list_text,
    signed_decimal,
};

verus! {

/// The guest's internal state: how many times the left button was pressed.
#[derive(Clone, Copy, Debug, PartialEq, Eq, Structural)]
pub struct GameState {
    pub count: u32,
}

/// The state of a freshly constructed guest.
pub open spec fn default_state() -> GameState {
    GameState { count: 0 }
}

/// The bytes that `save` produces for a state.
pub open spec fn state_bytes(s: GameState) -> Seq<u8> {
    le_bytes_u32(s.count)
}

/// The state a blob describes, if it describes one.
pub open spec fn state_from_bytes(b: Seq<u8>) -> Option<GameState> {
    match decode_u32_spec(b) {
        Some(c) => Some(GameState { count: c }),
        None => None,
    }
}

/// The state a guest holds after `restore` of a blob: the state the blob
/// describes, or the default state when it describes none.
pub open spec fn state_after_restore(b: Seq<u8>) -> GameState {
    match state_from_bytes(b) {
        Some(s) => s,
        None => default_state(),
    }
}

/// The state after one tick: a press of the left button counts once,
/// wrapping around past the largest count.
pub open spec fn next_state(s: GameState, mouse: MouseInfo) -> GameState {
    if mouse.left.pressed {
        GameState { count: if s.count == u32::MAX { 0 } else { (s.count + 1) as u32 } }
    } else {
        s
    }
}

pub open spec fn text_color() -> GameColor {
    GameColor { r: 0, g: 255, b: 255, a: 255 }
}

pub open spec fn spec_pos(x: i32, y: i32) -> Position {
    Position { x, y }
}

/// The commands a guest in state `s` (already advanced for this tick) draws.
pub open spec fn frame_view(s: GameState, mouse: MouseInfo, down: Seq<Key>) -> Seq<CommandView> {
    seq![
        CommandView::Text {
            text: "Hot Reloading with Rust!"@,
            position: spec_pos(40, 80),
            size: 40,
            color: text_color(),
        },
        CommandView::Image {
            filename: "resources/rustacean-flat-happy.png"@,
            position: spec_pos(500, 25),
            size: Some(Size { width: 150, height: 90 }),
        },
        CommandView::Text {
            text: "Count: "@ + decimal(s.count as nat),
            position: spec_pos(40, 120),
            size: 20,
            color: text_color(),
        },
        CommandView::Text {
            text: "Key Down: ("@ + key_list_text(down) + ")"@,
            position: spec_pos(40, 160),
            size: 20,
            color: text_color(),
        },
        CommandView::Text {
            text: "Mouse: ("@ + signed_decimal(mouse.position.x as int) + ", "@ + signed_decimal(
                mouse.position.y as int,
            ) + ")"@,
            position: spec_pos(40, 185),
            size: 20,
            color: text_color(),
        },
        CommandView::Line(
            DrawLineCommand {
                first: spec_pos(625, 125),
                second: spec_pos(675, 200),
                thickness: 4,
                color: GameColor { r: 255, g: 0, b: 0, a: 255 },
            },
        ),
        CommandView::Line(
            DrawLineCommand {
                first: spec_pos(700, 125),
                second: spec_pos(700, 200),
                thickness: 4,
                color: GameColor { r: 0, g: 0, b: 255, a: 255 },
            },
        ),
    ]
}

/// One tick's input, as the guest reads it.
pub struct FrameInput {
    pub mouse: MouseInfo,
    pub down: Seq<Key>,
}

/// The commands of successive ticks, starting from state `s`.
pub open spec fn run_frames(s: GameState, inputs: Seq<FrameInput>) -> Seq<Seq<CommandView>>
    decreases inputs.len(),
{
    if inputs.len() == 0 {
        Seq::empty()
    } else {
        let s1 = next_state(s, inputs[0].mouse);
        seq![frame_view(s1, inputs[0].mouse, inputs[0].down)] + run_frames(s1, inputs.drop_first())
    }
}

/// `save` could not serialize the guest's state.
#[derive(Clone, Copy, Debug, PartialEq, Eq, Structural)]
pub struct SaveError;

/// The blob handed to `restore` does not describe a state of this guest.
#[derive(Clone, Copy, Debug, PartialEq, Eq, Structural)]
pub struct RestoreError;

/// One instantiated guest object.
pub struct Instance {
    state: GameState,
}

impl View for Instance {
    type V = GameState;

    closed spec fn view(&self) -> GameState {
        self.state
    }
}

impl Instance {
    /// A guest at its default state.
    pub fn new() -> (r: Instance)
        ensures
            r@ == default_state(),
    {
        Instance { state: GameState { count: 0 } }
    }

    /// How many presses the guest has counted.
    pub fn count(&self) -> (r: u32)
        ensures
            r == self@.count,
    {
        self.state.count
    }

    /// Serializes the guest's state to an opaque blob. This guest's state
    /// always serializes.
    pub fn save(&self) -> (r: Result<Vec<u8>, SaveError>)
        ensures
            r is Ok,
            r is Ok ==> r->Ok_0@ == state_bytes(self@),
    {
        match bincode_encode_u32(self.state.count) {
            Ok(bytes) => Ok(bytes),
            Err(_) => Err(SaveError),
        }
    }

    /// Replaces the guest's state by the one `data` describes; when `data`
    /// describes none, the guest is left at its default state.
    pub fn restore(&mut self, data: Vec<u8>) -> (r: Result<(), RestoreError>)
        ensures
            r is Ok <==> state_from_bytes(data@) is Some,
            final(self)@ == state_after_restore(data@),
    {
        match bincode_decode_u32(data.as_slice()) {
            Ok(count) => {
                self.state = GameState { count };
                Ok(())
            },
            Err(_) => {
                self.state = GameState { count: 0 };
                Err(RestoreError)
            },
        }
    }

    /// Advances the guest by one tick and returns the commands to draw, in order.
    pub fn run_frame(&mut self, mouse: MouseInfo, key: KeyboardInfo) -> (r: Vec<RenderCommand>)
        ensures
            final(self)@ == next_state(old(self)@, mouse),
            commands_view(r@) == frame_view(final(self)@, mouse, key.down@),
    {
        if mouse.left.pressed {
            self.state.count = self.state.count.wrapping_add(1);
        }
        let cyan = GameColor { r: 0, g: 255, b: 255, a: 255 };
        let mut commands: Vec<RenderCommand> = Vec::new();

        commands.push(
            RenderCommand::Text(
                TextCommand {
                    text: String::from_str("Hot Reloading with Rust!"),
                    position: Position { x: 40, y: 80 },
                    size: 40,
                    color: cyan,
                },
            ),
        );
        commands.push(
            RenderCommand::Image(
                ImageCommand {
                    filename: String::from_str("resources/rustacean-flat-happy.png"),
                    position: Position { x: 500, y: 25 },
                    size: Some(Size { width: 150, height: 90 }),
                },
            ),
        );

        let mut count_text = String::from_str("Count: ");
        append_decimal(&mut count_text, self.state.count as u64);
        commands.push(
            RenderCommand::Text(
                TextCommand {
                    text: count_text,
                    position: Position { x: 40, y: 120 },
                    size: 20,
                    color: cyan,
                },
            ),
        );

        let mut key_text = String::from_str("Key Down: (");
        append_key_list(&mut key_text, &key.down);
        key_text.append(")");
        commands.push(
            RenderCommand::Text(
                TextCommand {
                    text: key_text,
                    position: Position { x: 40, y: 160 },
                    size: 20,
                    color: cyan,
                },
            ),
        );

        let mut mouse_text = String::from_str("Mouse: (");
        append_signed_decimal(&mut mouse_text, mouse.position.x);
        mouse_text.append(", ");
        append_signed_decimal(&mut mouse_text, mouse.position.y);
        mouse_text.append(")");
        commands.push(
            RenderCommand::Text(
                TextCommand {
                    text: mouse_text,
                    position: Position { x: 40, y: 185 },
                    size: 20,
                    color: cyan,
                },
            ),
        );

        commands.push(
            RenderCommand::Line(
                DrawLineCommand {
                    first: Position { x: 625, y: 125 },
                    second: Position { x: 675, y: 200 },
                    thickness: 4,
                    color: GameColor { r: 255, g: 0, b: 0, a: 255 },
                },
            ),
        );
        commands.push(
            RenderCommand::Line(
                DrawLineCommand {
                    first: Position { x: 700, y: 125 },
                    second: Position { x: 700, y: 200 },
                    thickness: 4,
                    color: GameColor { r: 0, g: 0, b: 255, a: 255 },
                },
            ),
        );
        assert(commands_view(commands@) =~= frame_view(self@, mouse, key.down@));
        commands
    }
}

/// A guest that the host can drive one tick at a time.
pub trait RunnableGameInstance: View<V = GameState> {
    fn run_frame(&mut self, mouse: MouseInfo, key: KeyboardInfo) -> (r: Vec<RenderCommand>)
        ensures
            final(self)@ == next_state(old(self)@, mouse),
            commands_view(r@) == frame_view(final(self)@, mouse, key.down@),
    ;
}

impl RunnableGameInstance for Instance {
    fn run_frame(&mut self, mouse: MouseInfo, key: KeyboardInfo) -> Vec<RenderCommand> {
        Instance::run_frame(self, mouse, key)
    }
}

/// A guest component: names the type of the objects it constructs.
pub trait Guest {
    type GameInstance;
}

/// The guest's export root: the type through which the host reaches `Instance`.
pub struct GameGuest;

impl Guest for GameGuest {
    type GameInstance = Instance;
}

/// Restoring what `save` produced reproduces the saved state exactly, so a
/// freshly constructed guest restored from a save of `s` draws the same
/// commands as `s` itself on every sequence of inputs.
pub proof fn lemma_save_restore_round_trip(s: GameState, inputs: Seq<FrameInput>)
    ensures
        state_from_bytes(state_bytes(s)) == Some(s),
        state_after_restore(state_bytes(s)) == s,
        run_frames(state_after_restore(state_bytes(s)), inputs) == run_frames(s, inputs),
{
    lemma_decode_encode_u32(s.count);
}

/// A blob that describes no state leaves the guest exactly as a fresh one:
/// it draws what a freshly constructed guest draws on every sequence of inputs.
pub proof fn lemma_failed_restore_is_fresh(blob: Seq<u8>, inputs: Seq<FrameInput>)
    requires
        state_from_bytes(blob) is None,
    ensures
        state_after_restore(blob) == default_state(),
        run_frames(state_after_restore(blob), inputs) == run_frames(default_state(), inputs),
{
}

} // verus!
