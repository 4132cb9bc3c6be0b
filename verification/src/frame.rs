//! Per-frame decisions of the render loop: when the surface has to be
//! resized, and what follows from the outcome of presenting a frame.

use vstd::prelude::*;

verus! {

/// Size of the framebuffer, in pixels.
#[derive(Clone, Copy, Debug, PartialEq, Eq, Structural)]
pub struct FramebufferSize {
    pub width: u32,
    pub height: u32,
}

/// The `u32` that has the same 32 bits as `value`.
pub open spec fn reinterpreted(value: i32) -> u32 {
    if value >= 0 {
        value as u32
    } else {
        (value + 0x1_0000_0000) as u32
    }
}

impl FramebufferSize {
    /// The size as the windowing system reports it, in signed integers,
    /// taken bit for bit.
    pub fn from_signed(width: i32, height: i32) -> (size: FramebufferSize)
        ensures
            size.width == reinterpreted(width),
            size.height == reinterpreted(height),
    {
        assert(width as u32 == reinterpreted(width)) by (bit_vector);
        assert(height as u32 == reinterpreted(height)) by (bit_vector);
        FramebufferSize { width: width as u32, height: height as u32 }
    }
}

/// The framebuffer size that the surface and the projection were last set
/// up for.
pub struct Viewport {
    size: FramebufferSize,
}

impl Viewport {
    /// The size last seen.
    pub closed spec fn size(&self) -> FramebufferSize {
        self.size
    }

    /// A viewport that was set up for `size`.
    pub fn new(size: FramebufferSize) -> (viewport: Viewport)
        ensures
            viewport.size() == size,
    {
        Viewport { size }
    }

    /// The size last seen.
    pub fn current(&self) -> (size: FramebufferSize)
        ensures
            size == self.size(),
    {
        self.size
    }

    /// Takes note of the size polled at the start of a frame. The result
    /// tells whether it differs from the size last seen, in which case the
    /// surface and the projection have to be rebuilt for it.
    pub fn observe(&mut self, size: FramebufferSize) -> (resized: bool)
        ensures
            resized == (size != old(self).size()),
            final(self).size() == size,
    {
        let resized = self.size != size;
        self.size = size;
        resized
    }
}

/// Why a frame could not be presented.
#[derive(Clone, Copy, Debug, PartialEq, Eq, Structural)]
pub enum SurfaceError {
    /// Acquiring the next frame took too long.
    Timeout,
    /// The surface no longer matches the window.
    Outdated,
    /// The surface was lost and has to be set up again.
    Lost,
    /// The device has no memory left.
    OutOfMemory,
}

/// What the render loop does after an attempt to present a frame.
#[derive(Clone, Copy, Debug, PartialEq, Eq, Structural)]
pub enum Response {
    /// The frame was presented: go on with the next.
    Proceed,
    /// Rebuild the surface for the present framebuffer size, then go on.
    Resize,
    /// Leave the loop.
    Exit,
    /// Report the failure and go on.
    Ignore,
}

/// The response to the outcome of presenting a frame. A lost or outdated
/// surface is recoverable by resizing; running out of memory is fatal; a
/// timeout is passed over.
pub fn respond(outcome: Result<(), SurfaceError>) -> (response: Response)
    ensures
        response == Response::Proceed <==> outcome is Ok,
        response == Response::Resize <==> (outcome matches Err(error) && (error
            == SurfaceError::Lost || error == SurfaceError::Outdated)),
        response == Response::Exit <==> (outcome matches Err(error) && error
            == SurfaceError::OutOfMemory),
        response == Response::Ignore <==> (outcome matches Err(error) && error
            == SurfaceError::Timeout),
{
    match outcome {
        Ok(_) => Response::Proceed,
        Err(SurfaceError::Lost) | Err(SurfaceError::Outdated) => Response::Resize,
        Err(SurfaceError::OutOfMemory) => Response::Exit,
        Err(SurfaceError::Timeout) => Response::Ignore,
    }
}

} // verus!
