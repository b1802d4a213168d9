//! Registration: the slot that holds the surface context registered last, and
//! what a registration hands back to the caller.

use vstd::prelude::*;
use crate::backend::GlutinBackend;
use crate::session::{DrawSession, Progress};
use crate::surface::{reinterpret_u32, same_bits, SurfaceTexture, SurfaceTextureContext};

verus! {

/// The status that every registration reports to the caller.
pub const REGISTRATION_STATUS: u8 = 0;

/// The texture name of a context that comes from a registration.
pub const REGISTERED_TEXTURE_NAME: i32 = 0;

/// Whether `ctx` is the context that registering `surface_texture` with the
/// given width and height makes: it holds the surface, has the width and the
/// height read as unsigned, is not current, and has texture name zero.
pub open spec fn is_registration_of(
    ctx: SurfaceTextureContext,
    surface_texture: SurfaceTexture,
    width: i32,
    height: i32,
) -> bool {
    &&& ctx.surface() == Some(surface_texture)
    &&& ctx.dimensions() == (same_bits(width), same_bits(height))
    &&& !ctx.current()
    &&& ctx.texture_name() == REGISTERED_TEXTURE_NAME
}

/// What a registration gives: the context made, the draw to perform on it,
/// and the status to report.
#[derive(Clone, Copy, Debug, PartialEq, Eq)]
pub struct Registration {
    pub context: SurfaceTextureContext,
    pub session: DrawSession,
    pub status: u8,
}

/// The slot for the surface context registered last. It starts empty, each
/// registration overwrites it, and nothing empties it again.
#[derive(Debug)]
pub struct Registry {
    current: Option<SurfaceTextureContext>,
}

impl Registry {
    /// The context registered last, if any was.
    pub closed spec fn current(&self) -> Option<SurfaceTextureContext> {
        self.current
    }

    /// An empty slot: nothing is registered.
    pub fn new() -> (registry: Registry)
        ensures
            registry.current() is None,
    {
        Registry { current: None }
    }

    /// Whether a surface was registered.
    pub fn is_registered(&self) -> (registered: bool)
        ensures
            registered == (self.current() is Some),
    {
        self.current.is_some()
    }

    /// The context registered last, if any was.
    pub fn get_current(&self) -> (ctx: Option<SurfaceTextureContext>)
        ensures
            ctx == self.current(),
    {
        self.current
    }

    /// Registers a surface texture with its width and height: makes its
    /// context, puts it in the slot in place of what was there, and starts
    /// one draw on it.
    pub fn register(
        &mut self,
        surface_texture: SurfaceTexture,
        width: i32,
        height: i32,
    ) -> (r: Registration)
        ensures
            is_registration_of(r.context, surface_texture, width, height),
            final(self).current() == Some(r.context),
            r.session@ == (Progress { completed: 0, failed: false }),
            r.status == REGISTRATION_STATUS,
    {
        let context = SurfaceTextureContext::new(
            Some(surface_texture),
            (reinterpret_u32(width), reinterpret_u32(height)),
            false,
            REGISTERED_TEXTURE_NAME,
        );
        self.current = Some(context);
        Registration { context, session: DrawSession::new(), status: REGISTRATION_STATUS }
    }
}

/// A registered context reports the width and height it was registered with,
/// whatever a backend is put around it: for a width and a height from zero up
/// these are the very numbers given.
pub proof fn lemma_registered_dimensions(
    ctx: SurfaceTextureContext,
    backend: GlutinBackend,
    surface_texture: SurfaceTexture,
    width: i32,
    height: i32,
)
    requires
        is_registration_of(ctx, surface_texture, width, height),
        backend.inner() == ctx,
    ensures
        ctx.dimensions() == (same_bits(width), same_bits(height)),
        backend.framebuffer_dimensions() == ctx.dimensions(),
        width >= 0 && height >= 0 ==> ctx.dimensions().0 == width && ctx.dimensions().1 == height,
{
}

/// A registered context is not current, and neither is a backend around it.
pub proof fn lemma_registered_not_current(
    ctx: SurfaceTextureContext,
    backend: GlutinBackend,
    surface_texture: SurfaceTexture,
    width: i32,
    height: i32,
)
    requires
        is_registration_of(ctx, surface_texture, width, height),
        backend.inner() == ctx,
    ensures
        !ctx.current(),
        !backend.current(),
{
}

/// A registered context holds its surface, so it can be attached and
/// detached.
pub proof fn lemma_registered_has_surface(
    ctx: SurfaceTextureContext,
    surface_texture: SurfaceTexture,
    width: i32,
    height: i32,
)
    requires
        is_registration_of(ctx, surface_texture, width, height),
    ensures
        ctx.surface() is Some,
{
}

} // verus!
