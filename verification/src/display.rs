//! The display: the backend of one GL context, and the framebuffer size seen
//! at the last frame.

use vstd::prelude::*;
use crate::backend::GlutinBackend;
use crate::surface::SurfaceTextureContext;

verus! {

/// What the GL context does with the debug messages of the driver.
#[derive(Clone, Copy, Debug, PartialEq, Eq, Structural)]
pub enum DebugCallbackBehavior {
    /// Messages are dropped.
    Ignore,
    /// Errors are printed, with a backtrace.
    DebugMessageOnError,
    /// Every message is printed.
    PrintAll,
}

/// The platform offers no OpenGL implementation that the GL context library
/// can work with; the text says what was missing.
#[derive(Debug)]
pub struct IncompatibleOpenGl {
    pub message: String,
}

/// A frame to render into.
#[derive(Clone, Copy, Debug, PartialEq, Eq)]
pub struct Frame {
    /// Width and height of the frame, in pixels.
    pub dimensions: (u32, u32),
    /// Whether the framebuffer had another size at the frame before: the
    /// caller then reports that a resize is due.
    pub resize_noticed: bool,
}

/// The display of one GL context.
#[derive(Debug)]
pub struct Display {
    backend: GlutinBackend,
    debug: DebugCallbackBehavior,
    checked: bool,
    last_framebuffer_dimensions: (u32, u32),
}

impl Display {
    /// The size seen last is the size of the framebuffer: the backend never
    /// changes its dimensions, so no display ever has a resize due.
    #[verifier::type_invariant]
    spec fn settled(self) -> bool {
        self.last_framebuffer_dimensions == self.backend.framebuffer_dimensions()
    }

    /// The backend that the GL context was created on.
    pub closed spec fn backend(&self) -> GlutinBackend {
        self.backend
    }

    /// The debug behaviour that the GL context was created with.
    pub closed spec fn debug(&self) -> DebugCallbackBehavior {
        self.debug
    }

    /// Whether the GL context checks its state on creation.
    pub closed spec fn checked(&self) -> bool {
        self.checked
    }

    /// The framebuffer dimensions seen when the last frame was handed out,
    /// or at creation if none was.
    pub closed spec fn last_dimensions(&self) -> (u32, u32) {
        self.last_framebuffer_dimensions
    }

    /// Whether the framebuffer has another size than at the last frame.
    pub open spec fn resize_due(&self) -> bool {
        self.last_dimensions() != self.backend().framebuffer_dimensions()
    }

    /// Whether this is the display that `new` makes of the given values: on a
    /// backend around the surface context, with the framebuffer size of that
    /// context as the size seen last.
    pub open spec fn is_display_of(
        &self,
        surface_texture_context: SurfaceTextureContext,
        debug: DebugCallbackBehavior,
        checked: bool,
    ) -> bool {
        &&& self.backend().inner() == surface_texture_context
        &&& self.debug() == debug
        &&& self.checked() == checked
        &&& self.last_dimensions() == surface_texture_context.dimensions()
    }

    /// Makes the display of a GL context that was created on a backend around
    /// `surface_texture_context`. `context` is what that creation gave: where
    /// it failed, so does this, with the same error.
    pub fn new(
        surface_texture_context: SurfaceTextureContext,
        debug: DebugCallbackBehavior,
        checked: bool,
        context: Result<(), IncompatibleOpenGl>,
    ) -> (r: Result<Display, IncompatibleOpenGl>)
        ensures
            context is Ok ==> r is Ok,
            context is Ok ==> r->Ok_0.is_display_of(surface_texture_context, debug, checked),
            context is Ok ==> !r->Ok_0.resize_due(),
            context is Err ==> r is Err,
            context is Err ==> r->Err_0 == context->Err_0,
    {
        let backend = GlutinBackend::new(surface_texture_context);
        let framebuffer_dimensions = backend.get_framebuffer_dimensions();
        match context {
            Ok(()) => Ok(
                Display {
                    backend,
                    debug,
                    checked,
                    last_framebuffer_dimensions: framebuffer_dimensions,
                },
            ),
            Err(e) => Err(e),
        }
    }

    /// The backend to create the GL context on.
    pub fn get_backend(&self) -> (backend: GlutinBackend)
        ensures
            backend == self.backend(),
    {
        self.backend
    }

    /// The debug behaviour that the GL context was created with.
    pub fn debug_behavior(&self) -> (debug: DebugCallbackBehavior)
        ensures
            debug == self.debug(),
    {
        self.debug
    }

    /// Whether the GL context checks its state on creation.
    pub fn is_checked(&self) -> (checked: bool)
        ensures
            checked == self.checked(),
    {
        self.checked
    }

    /// The framebuffer dimensions, as the backend reports them.
    pub fn get_framebuffer_dimensions(&self) -> (r: (u32, u32))
        ensures
            r == self.backend().framebuffer_dimensions(),
    {
        self.backend.get_framebuffer_dimensions()
    }

    /// Hands out a frame of the framebuffer's present size, and remembers
    /// that size. Where it differs from the size remembered before, the frame
    /// says so and nothing is resized; as the framebuffer keeps its size, it
    /// never does differ.
    pub fn draw(&mut self) -> (frame: Frame)
        ensures
            frame.dimensions == old(self).backend().framebuffer_dimensions(),
            frame.resize_noticed == old(self).resize_due(),
            !frame.resize_noticed,
            final(self).last_dimensions() == frame.dimensions,
            final(self).backend() == old(self).backend(),
            final(self).debug() == old(self).debug(),
            final(self).checked() == old(self).checked(),
            !final(self).resize_due(),
    {
        proof {
            use_type_invariant(&*self);
        }
        let (w, h) = self.get_framebuffer_dimensions();
        let last = self.last_framebuffer_dimensions;
        let resize_noticed = last.0 != w || last.1 != h;
        if resize_noticed {
            self.last_framebuffer_dimensions = (w, h);
        }
        Frame { dimensions: (w, h), resize_noticed }
    }
}

} // verus!
