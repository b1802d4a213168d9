use surface_texture_glium::backend::GlutinBackend;
use surface_texture_glium::display::{DebugCallbackBehavior, Display, Frame, IncompatibleOpenGl};
use surface_texture_glium::surface::{SurfaceTexture, SurfaceTextureContext};

fn context() -> SurfaceTextureContext {
    SurfaceTextureContext::new(Some(SurfaceTexture { handle: 42 }), (320, 240), false, 0)
}

#[test]
fn display_is_made_where_the_context_was() {
    let made = Display::new(context(), DebugCallbackBehavior::PrintAll, true, Ok(()));
    let display = match made {
        Ok(display) => display,
        Err(e) => panic!("no display: {}", e.message),
    };
    assert_eq!(display.get_framebuffer_dimensions(), (320, 240));
    assert_eq!(display.get_backend(), GlutinBackend::new(context()));
    assert_eq!(display.debug_behavior(), DebugCallbackBehavior::PrintAll);
    assert!(display.is_checked());
}

#[test]
fn display_fails_with_the_error_of_the_context() {
    let made = Display::new(
        context(),
        DebugCallbackBehavior::Ignore,
        false,
        Err(IncompatibleOpenGl { message: String::from("OpenGL ES 1.1 only") }),
    );
    match made {
        Ok(_) => panic!("a display without a GL context"),
        Err(e) => assert_eq!(e.message, "OpenGL ES 1.1 only"),
    }
}

#[test]
fn draw_hands_out_a_frame_of_the_fixed_size() {
    let made = Display::new(context(), DebugCallbackBehavior::DebugMessageOnError, true, Ok(()));
    let mut display = match made {
        Ok(display) => display,
        Err(e) => panic!("no display: {}", e.message),
    };
    let first = display.draw();
    assert_eq!(first, Frame { dimensions: (320, 240), resize_noticed: false });
    let second = display.draw();
    assert_eq!(second, Frame { dimensions: (320, 240), resize_noticed: false });
    assert_eq!(display.get_framebuffer_dimensions(), (320, 240));
}

#[test]
fn draw_on_an_empty_framebuffer() {
    let ctx = SurfaceTextureContext::new(None, (0, 0), false, 0);
    let made = Display::new(ctx, DebugCallbackBehavior::PrintAll, true, Ok(()));
    let mut display = match made {
        Ok(display) => display,
        Err(e) => panic!("no display: {}", e.message),
    };
    assert_eq!(display.draw(), Frame { dimensions: (0, 0), resize_noticed: false });
}
