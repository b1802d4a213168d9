//! The surface context: a platform surface texture together with the
//! dimensions, the currency flag and the texture name it was created with.

use vstd::prelude::*;
use crate::backend::SwapBuffersError;

verus! {

/// A platform surface texture, known here by the value of its native handle.
/// The object itself stays with the platform; this value finds it again.
#[derive(Clone, Copy, Debug, PartialEq, Eq, Structural)]
pub struct SurfaceTexture {
    pub handle: u64,
}

/// What a surface context asks the platform to do with its surface texture.
#[derive(Clone, Copy, Debug, PartialEq, Eq, Structural)]
pub enum SurfaceCommand {
    /// Bind the surface to the texture `tex_name` of the current GL context.
    AttachToGlContext { surface: SurfaceTexture, tex_name: u32 },
    /// Release the surface from the GL context it is bound to.
    DetachFromGlContext { surface: SurfaceTexture },
}

/// The unsigned value with the same 32 bits as `value`.
pub open spec fn same_bits(value: i32) -> u32 {
    if value >= 0 {
        value as u32
    } else {
        (value + 0x1_0000_0000) as u32
    }
}

/// Reads a signed 32-bit value as unsigned, bit for bit: values from zero up
/// stay as they are, negative ones land in the upper half of the range.
pub fn reinterpret_u32(value: i32) -> (r: u32)
    ensures
        r == same_bits(value),
        value >= 0 ==> r == value,
        value < 0 ==> r == value + 0x1_0000_0000,
{
    if value >= 0 {
        value as u32
    } else {
        let wide: i64 = value as i64;
        (wide + 0x1_0000_0000) as u32
    }
}

/// A surface texture seen as a render target. The four values are fixed when
/// the context is made: nothing here changes them afterwards.
#[derive(Clone, Copy, Debug, PartialEq, Eq)]
pub struct SurfaceTextureContext {
    surface_texture: Option<SurfaceTexture>,
    dimensions: (u32, u32),
    is_current: bool,
    tex_name: i32,
}

impl SurfaceTextureContext {
    /// The surface texture held, if one is attached to this context.
    pub closed spec fn surface(&self) -> Option<SurfaceTexture> {
        self.surface_texture
    }

    /// Width and height of the framebuffer, in pixels.
    pub closed spec fn dimensions(&self) -> (u32, u32) {
        self.dimensions
    }

    /// The currency flag the context was made with.
    pub closed spec fn current(&self) -> bool {
        self.is_current
    }

    /// The GL texture name the surface is to be bound to.
    pub closed spec fn texture_name(&self) -> i32 {
        self.tex_name
    }

    /// Two contexts with the same four values are the same context.
    pub proof fn lemma_determined_by_fields(a: Self, b: Self)
        requires
            a.surface() == b.surface(),
            a.dimensions() == b.dimensions(),
            a.current() == b.current(),
            a.texture_name() == b.texture_name(),
        ensures
            a == b,
    {
    }

    /// Makes a context from its four values.
    pub fn new(
        surface_texture: Option<SurfaceTexture>,
        dimensions: (u32, u32),
        is_current: bool,
        tex_name: i32,
    ) -> (ctx: SurfaceTextureContext)
        ensures
            ctx.surface() == surface_texture,
            ctx.dimensions() == dimensions,
            ctx.current() == is_current,
            ctx.texture_name() == tex_name,
    {
        SurfaceTextureContext { surface_texture, dimensions, is_current, tex_name }
    }

    /// Whether a surface texture is present, so that `attach` and `detach`
    /// may be called.
    pub fn has_surface(&self) -> (present: bool)
        ensures
            present == (self.surface() is Some),
    {
        self.surface_texture.is_some()
    }

    /// The command that binds the surface to this context's texture name,
    /// the name read as unsigned. Needs a surface to be present.
    pub fn attach(&self) -> (command: SurfaceCommand)
        requires
            self.surface() is Some,
        ensures
            command == (SurfaceCommand::AttachToGlContext {
                surface: self.surface().unwrap(),
                tex_name: same_bits(self.texture_name()),
            }),
    {
        let surface = self.surface_texture.unwrap();
        SurfaceCommand::AttachToGlContext { surface, tex_name: reinterpret_u32(self.tex_name) }
    }

    /// The command that releases the surface from the GL context. Needs a
    /// surface to be present.
    pub fn detach(&self) -> (command: SurfaceCommand)
        requires
            self.surface() is Some,
        ensures
            command == (SurfaceCommand::DetachFromGlContext { surface: self.surface().unwrap() }),
    {
        let surface = self.surface_texture.unwrap();
        SurfaceCommand::DetachFromGlContext { surface }
    }

    /// Presents nothing and reports success.
    pub fn swap_buffers(&self) -> (r: Result<(), SwapBuffersError>)
        ensures
            r is Ok,
    {
        Ok(())
    }

    /// The dimensions the context was made with.
    pub fn get_framebuffer_dimensions(&self) -> (r: (u32, u32))
        ensures
            r == self.dimensions(),
    {
        self.dimensions
    }

    /// The currency flag the context was made with; the GL state is not asked.
    pub fn is_current(&self) -> (r: bool)
        ensures
            r == self.current(),
    {
        self.is_current
    }

    /// Does nothing: the context is made current where the GL context is created.
    pub fn make_current(&self) {
    }
}

} // verus!
