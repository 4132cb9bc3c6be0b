//! The camera's mode of movement.

use crate::input::Command;
use crate::input::Input;
use vstd::prelude::*;

verus! {

/// How the camera moves when it is told to go forward.
#[derive(Clone, Copy, Debug, PartialEq, Eq, Structural)]
pub enum Type {
    /// Along its line of sight, up and down included.
    Flying,
    /// Along its line of sight projected onto the ground.
    Fps,
}

impl Type {
    /// The mode after the commands in `input` are obeyed: the one asked
    /// for, the first-person camera if both are, and the present one if
    /// none is.
    pub fn switched(self, input: &Input) -> (next: Type)
        ensures
            next == if input.commands().contains(Command::FpsCamera) {
                Type::Fps
            } else if input.commands().contains(Command::FlyingCamera) {
                Type::Flying
            } else {
                self
            },
    {
        let mut next = self;
        if input.flying_camera() {
            next = Type::Flying;
        }
        if input.fps_camera() {
            next = Type::Fps;
        }
        next
    }

    /// The direction in which the camera moves when it looks along `dir`,
    /// given as its `x`, `y` and `z`: `dir` itself for the flying camera,
    /// and for the first-person camera `dir` with `level` in place of its
    /// `y`. The caller passes the zero of `T` for `level`.
    pub fn transform_dir_for_movement<T: Copy>(self, dir: [T; 3], level: T) -> (moved: [T; 3])
        ensures
            self == Type::Flying ==> moved == dir,
            self == Type::Fps ==> moved@ == seq![dir[0], level, dir[2]],
    {
        match self {
            Type::Flying => dir,
            Type::Fps => [dir[0], level, dir[2]],
        }
    }
}

} // verus!
