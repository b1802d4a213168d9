//! A bridge that lets an OpenGL context library draw into a platform surface
//! texture: the surface context, the backend adapter around it, the display
//! that hands out frames, and the registration that starts one fixed draw.

pub mod backend;
pub mod display;
pub mod registry;
pub mod session;
pub mod surface;
