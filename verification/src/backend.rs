//! The backend adapter: a surface context behind the five operations that a
//! GL context library asks of its render target.

use vstd::prelude::*;
use crate::surface::SurfaceTextureContext;

verus! {

/// Why a buffer swap failed.
#[derive(Clone, Copy, Debug, PartialEq, Eq, Structural)]
pub enum SwapBuffersError {
    /// The GL context was lost and has to be made again.
    ContextLost,
    /// The buffers were already swapped for this frame.
    AlreadySwapped,
}

/// A surface context that can be handed to the GL context library by value.
/// Every operation is that of the context inside; a failed swap is not passed
/// on but ends the program.
#[derive(Clone, Copy, Debug, PartialEq, Eq)]
pub struct GlutinBackend(SurfaceTextureContext);

impl GlutinBackend {
    /// The surface context that the backend forwards to.
    pub closed spec fn inner(&self) -> SurfaceTextureContext {
        self.0
    }

    /// What the backend reports as framebuffer dimensions.
    pub open spec fn framebuffer_dimensions(&self) -> (u32, u32) {
        self.inner().dimensions()
    }

    /// What the backend reports as being current.
    pub open spec fn current(&self) -> bool {
        self.inner().current()
    }

    /// Puts a surface context behind the backend operations.
    pub fn new(surface_texture_context: SurfaceTextureContext) -> (backend: GlutinBackend)
        ensures
            backend.inner() == surface_texture_context,
    {
        GlutinBackend(surface_texture_context)
    }

    /// The surface context inside.
    pub fn surface_texture_context(&self) -> (ctx: SurfaceTextureContext)
        ensures
            ctx == self.inner(),
    {
        self.0
    }

    /// Swaps the buffers of the context inside. That swap cannot fail, so
    /// neither does this one, and the fatal branch is never taken.
    pub fn swap_buffers(&self) -> (r: Result<(), SwapBuffersError>)
        ensures
            r is Ok,
    {
        match self.0.swap_buffers() {
            Ok(()) => Ok(()),
            Err(_) => vstd::pervasive::unreached(),
        }
    }

    /// The dimensions of the context inside.
    pub fn get_framebuffer_dimensions(&self) -> (r: (u32, u32))
        ensures
            r == self.framebuffer_dimensions(),
    {
        self.0.get_framebuffer_dimensions()
    }

    /// The currency flag of the context inside.
    pub fn is_current(&self) -> (r: bool)
        ensures
            r == self.current(),
    {
        self.0.is_current()
    }

    /// Forwards to the context inside, which does nothing.
    pub fn make_current(&self) {
        self.0.make_current()
    }

    /// Forwarding adds no state: two backends around contexts with the same
    /// dimensions and the same currency flag report the same dimensions and
    /// the same currency.
    pub proof fn lemma_forwarding_agrees(a: GlutinBackend, b: GlutinBackend)
        requires
            a.inner().dimensions() == b.inner().dimensions(),
            a.inner().current() == b.inner().current(),
        ensures
            a.framebuffer_dimensions() == b.framebuffer_dimensions(),
            a.current() == b.current(),
    {
    }

    /// A backend reports exactly what the context inside it reports.
    pub proof fn lemma_forwarding_is_delegation(ctx: SurfaceTextureContext, backend: GlutinBackend)
        requires
            backend.inner() == ctx,
        ensures
            backend.framebuffer_dimensions() == ctx.dimensions(),
            backend.current() == ctx.current(),
    {
    }
}

} // verus!
