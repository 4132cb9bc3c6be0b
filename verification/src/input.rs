//! Decoding of the keyboard: the axes along which the viewer is asked to
//! move, and the commands that switch the camera's mode.

use vstd::prelude::*;

verus! {

/// What the windowing system reports of a key.
#[derive(Clone, Copy, Debug, PartialEq, Eq, Structural)]
pub enum Action {
    /// The key is up.
    Release,
    /// The key has just gone down.
    Press,
    /// The key is held down and repeats.
    Repeat,
}

impl Action {
    /// Whether the key is down, freshly or held.
    pub open spec fn down(self) -> bool {
        self != Action::Release
    }

    /// Whether the key has just gone down.
    pub open spec fn pressed(self) -> bool {
        self == Action::Press
    }

    /// Whether the key is down, freshly or held.
    pub fn key_down(self) -> (down: bool)
        ensures
            down == self.down(),
    {
        match self {
            Action::Press | Action::Repeat => true,
            Action::Release => false,
        }
    }

    /// Whether the key has just gone down.
    pub fn key_pressed(self) -> (pressed: bool)
        ensures
            pressed == self.pressed(),
    {
        match self {
            Action::Press => true,
            Action::Release | Action::Repeat => false,
        }
    }
}

/// The state of every key that the viewer listens to.
#[derive(Clone, Copy, Debug, PartialEq, Eq, Structural)]
pub struct Keys {
    /// Move forward.
    pub w: Action,
    /// Move backward.
    pub s: Action,
    /// Move to the left.
    pub a: Action,
    /// Move to the right.
    pub d: Action,
    /// Switch to the flying camera.
    pub f8: Action,
    /// Switch to the first-person camera.
    pub f9: Action,
}

/// A command to the camera.
#[derive(Clone, Copy, Debug, PartialEq, Eq, Structural)]
pub enum Command {
    /// Let the camera move along its line of sight.
    FlyingCamera,
    /// Keep the camera's movement level.
    FpsCamera,
}

/// The bit that stands for `Command::FlyingCamera` in a set of commands.
pub const FLYING_CAMERA: u8 = 1 << 0;

/// The bit that stands for `Command::FpsCamera` in a set of commands.
pub const FPS_CAMERA: u8 = 1 << 1;

impl Command {
    /// The bit that stands for the command in a set of commands.
    pub open spec fn mask(self) -> u8 {
        match self {
            Command::FlyingCamera => FLYING_CAMERA,
            Command::FpsCamera => FPS_CAMERA,
        }
    }

    /// The bit that stands for the command in a set of commands.
    pub fn bit(self) -> (bit: u8)
        ensures
            bit == self.mask(),
    {
        match self {
            Command::FlyingCamera => FLYING_CAMERA,
            Command::FpsCamera => FPS_CAMERA,
        }
    }
}

/// A set of commands, one bit each.
#[derive(Clone, Copy, Debug, PartialEq, Eq, Structural)]
pub struct Commands {
    bits: u8,
}

impl View for Commands {
    type V = Set<Command>;

    /// The commands whose bits are set.
    closed spec fn view(&self) -> Set<Command> {
        Set::new(|command: Command| self.bits & command.mask() != 0)
    }
}

impl Commands {
    /// The set without commands.
    pub fn empty() -> (commands: Commands)
        ensures
            commands@ == Set::<Command>::empty(),
    {
        assert(forall|mask: u8| 0u8 & mask == 0) by (bit_vector);
        Commands { bits: 0 }
    }

    /// Whether `command` is in the set.
    pub fn contains(&self, command: Command) -> (found: bool)
        ensures
            found == self@.contains(command),
    {
        self.bits & command.bit() != 0
    }

    /// Puts `command` into the set.
    pub fn insert(&mut self, command: Command)
        ensures
            final(self)@ == old(self)@.insert(command),
    {
        let bits = self.bits;
        assert(forall|other: Command|
            ((bits | command.mask()) & #[trigger] other.mask() != 0) == (other == command || bits
                & other.mask() != 0)) by {
            lemma_masks(bits);
        }
        self.bits = self.bits | command.bit();
    }
}

/// How the two command bits behave when one of them is set in `bits`.
proof fn lemma_masks(bits: u8)
    ensures
        (bits | FLYING_CAMERA) & FLYING_CAMERA != 0,
        (bits | FPS_CAMERA) & FPS_CAMERA != 0,
        ((bits | FLYING_CAMERA) & FPS_CAMERA != 0) == (bits & FPS_CAMERA != 0),
        ((bits | FPS_CAMERA) & FLYING_CAMERA != 0) == (bits & FLYING_CAMERA != 0),
{
    assert((bits | (1u8 << 0)) & (1u8 << 0) != 0) by (bit_vector);
    assert((bits | (1u8 << 1)) & (1u8 << 1) != 0) by (bit_vector);
    assert(((bits | (1u8 << 0)) & (1u8 << 1) != 0) == (bits & (1u8 << 1) != 0)) by (bit_vector);
    assert(((bits | (1u8 << 1)) & (1u8 << 0) != 0) == (bits & (1u8 << 0) != 0)) by (bit_vector);
}

/// The step that `keys` ask for along one axis: one forward if only the key
/// for the positive direction is down, one back if only the other is.
pub open spec fn axis(positive: Action, negative: Action) -> int {
    (if positive.down() { 1int } else { 0int }) - (if negative.down() { 1int } else { 0int })
}

/// The commands that `keys` give: those whose key has just gone down.
pub open spec fn commanded(keys: Keys) -> Set<Command> {
    Set::new(
        |command: Command|
            match command {
                Command::FlyingCamera => keys.f8.pressed(),
                Command::FpsCamera => keys.f9.pressed(),
            },
    )
}

/// What the keyboard asks of the viewer at one tick.
#[derive(Clone, Copy, Debug, PartialEq, Eq, Structural)]
pub struct Input {
    commands: Commands,
    move_x: i8,
    move_z: i8,
}

impl Input {
    /// The commands given at the last update.
    pub closed spec fn commands(&self) -> Set<Command> {
        self.commands@
    }

    /// The step asked for to the right (`1`) or to the left (`-1`).
    pub closed spec fn sideways(&self) -> int {
        self.move_x as int
    }

    /// The step asked for forward (`1`) or backward (`-1`).
    pub closed spec fn forward(&self) -> int {
        self.move_z as int
    }

    /// No command and no movement.
    pub fn new() -> (input: Input)
        ensures
            input.commands() == Set::<Command>::empty(),
            input.sideways() == 0,
            input.forward() == 0,
    {
        Input { commands: Commands::empty(), move_x: 0, move_z: 0 }
    }

    /// Whether the flying camera was asked for at the last update.
    pub fn flying_camera(&self) -> (asked: bool)
        ensures
            asked == self.commands().contains(Command::FlyingCamera),
    {
        self.commands.contains(Command::FlyingCamera)
    }

    /// Whether the first-person camera was asked for at the last update.
    pub fn fps_camera(&self) -> (asked: bool)
        ensures
            asked == self.commands().contains(Command::FpsCamera),
    {
        self.commands.contains(Command::FpsCamera)
    }

    /// The steps asked for at the last update: to the right, then forward.
    pub fn movement_axes(&self) -> (axes: (i8, i8))
        ensures
            axes.0 == self.sideways(),
            axes.1 == self.forward(),
    {
        (self.move_x, self.move_z)
    }

    /// Takes in the state of the keyboard. `D` against `A` gives the step
    /// sideways and `W` against `S` the step forward; `F8` and `F9` give
    /// their commands at the moment they go down, not while they are held.
    pub fn update(&mut self, keys: &Keys)
        ensures
            final(self).sideways() == axis(keys.d, keys.a),
            final(self).forward() == axis(keys.w, keys.s),
            final(self).commands() == commanded(*keys),
    {
        self.move_z = step(keys.w.key_down()) - step(keys.s.key_down());
        self.move_x = step(keys.d.key_down()) - step(keys.a.key_down());
        let mut commands = Commands::empty();
        if keys.f8.key_pressed() {
            commands.insert(Command::FlyingCamera);
        }
        if keys.f9.key_pressed() {
            commands.insert(Command::FpsCamera);
        }
        self.commands = commands;
    }
}

/// One for a key that is down, nothing for one that is up.
fn step(down: bool) -> (step: i8)
    ensures
        step == if down { 1int } else { 0int },
{
    if down {
        1
    } else {
        0
    }
}

} // verus!
