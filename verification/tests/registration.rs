use surface_texture_glium::backend::GlutinBackend;
use surface_texture_glium::registry::{Registry, REGISTERED_TEXTURE_NAME, REGISTRATION_STATUS};
use surface_texture_glium::session::{
    step_at, triangle_indices, Directive, DrawSession, DrawStep, SCRIPT_LEN,
};
use surface_texture_glium::surface::{SurfaceCommand, SurfaceTexture, SurfaceTextureContext};

const SCRIPT: [DrawStep; 8] = [
    DrawStep::CreateDisplay,
    DrawStep::BuildVertexBuffer,
    DrawStep::BuildIndexBuffer,
    DrawStep::CompileProgram,
    DrawStep::BeginFrame,
    DrawStep::ClearColor,
    DrawStep::DrawTriangle,
    DrawStep::FinishFrame,
];

#[test]
fn registry_starts_empty() {
    let registry = Registry::new();
    assert!(!registry.is_registered());
    assert_eq!(registry.get_current(), None);
}

#[test]
fn registered_context_reports_the_given_dimensions() {
    let mut registry = Registry::new();
    let registration = registry.register(SurfaceTexture { handle: 1 }, 1280, 720);
    assert_eq!(registration.context.get_framebuffer_dimensions(), (1280, 720));
    assert_eq!(GlutinBackend::new(registration.context).get_framebuffer_dimensions(), (1280, 720));
    let _ = registration.context.swap_buffers();
    registration.context.make_current();
    assert_eq!(registration.context.get_framebuffer_dimensions(), (1280, 720));
}

#[test]
fn registered_context_is_not_current() {
    let mut registry = Registry::new();
    let registration = registry.register(SurfaceTexture { handle: 1 }, 1280, 720);
    assert!(!registration.context.is_current());
    assert!(!GlutinBackend::new(registration.context).is_current());
}

#[test]
fn registered_context_is_the_one_described() {
    let mut registry = Registry::new();
    let registration = registry.register(SurfaceTexture { handle: 77 }, 64, 48);
    assert_eq!(
        registration.context,
        SurfaceTextureContext::new(Some(SurfaceTexture { handle: 77 }), (64, 48), false, 0)
    );
    assert_eq!(REGISTERED_TEXTURE_NAME, 0);
    assert_eq!(registration.status, 0);
    assert_eq!(REGISTRATION_STATUS, 0);
    assert!(registration.context.has_surface());
    assert_eq!(
        registration.context.attach(),
        SurfaceCommand::AttachToGlContext { surface: SurfaceTexture { handle: 77 }, tex_name: 0 }
    );
}

#[test]
fn registration_fills_and_overwrites_the_slot() {
    let mut registry = Registry::new();
    let first = registry.register(SurfaceTexture { handle: 1 }, 100, 200);
    assert!(registry.is_registered());
    assert_eq!(registry.get_current(), Some(first.context));
    let second = registry.register(SurfaceTexture { handle: 2 }, 300, 400);
    assert!(registry.is_registered());
    assert_eq!(registry.get_current(), Some(second.context));
    assert_eq!(second.context.get_framebuffer_dimensions(), (300, 400));
    assert_eq!(first.context.get_framebuffer_dimensions(), (100, 200));
}

#[test]
fn negative_sizes_are_read_as_unsigned() {
    let mut registry = Registry::new();
    let registration = registry.register(SurfaceTexture { handle: 1 }, -1, i32::MIN);
    assert_eq!(
        registration.context.get_framebuffer_dimensions(),
        (4_294_967_295, 2_147_483_648)
    );
}

#[test]
fn zero_sizes_are_kept() {
    let mut registry = Registry::new();
    let registration = registry.register(SurfaceTexture { handle: 1 }, 0, 0);
    assert_eq!(registration.context.get_framebuffer_dimensions(), (0, 0));
}

#[test]
fn registration_runs_one_draw() {
    let mut registry = Registry::new();
    let mut session = registry.register(SurfaceTexture { handle: 1 }, 640, 480).session;
    let mut performed: Vec<DrawStep> = Vec::new();
    for _ in 0..20 {
        match session.next() {
            Directive::Perform(step) => {
                performed.push(step);
                session.report(true);
            }
            Directive::Finished => session.report(true),
            Directive::Abort(step) => panic!("aborted at {:?}", step),
        }
    }
    assert_eq!(performed, SCRIPT.to_vec());
    assert_eq!(performed.iter().filter(|s| **s == DrawStep::ClearColor).count(), 1);
    assert_eq!(performed.iter().filter(|s| **s == DrawStep::DrawTriangle).count(), 1);
    assert_eq!(performed.iter().filter(|s| **s == DrawStep::FinishFrame).count(), 1);
    assert_eq!(&performed[5..], &[DrawStep::ClearColor, DrawStep::DrawTriangle, DrawStep::FinishFrame]);
    assert!(session.is_finished());
    assert_eq!(session.next(), Directive::Finished);
}

#[test]
fn finished_session_ignores_reports() {
    let mut session = DrawSession::new();
    for _ in 0..8 {
        assert!(!session.is_finished());
        session.report(true);
    }
    assert!(session.is_finished());
    let finished = session;
    session.report(false);
    assert_eq!(session, finished);
    session.report(true);
    assert_eq!(session, finished);
    assert_eq!(session.next(), Directive::Finished);
}

#[test]
fn new_session_starts_with_the_display() {
    let session = DrawSession::new();
    assert_eq!(session.next(), Directive::Perform(DrawStep::CreateDisplay));
    assert!(!session.is_finished());
}

#[test]
fn failed_step_aborts_the_draw() {
    for failing in 0..8usize {
        let mut session = DrawSession::new();
        for _ in 0..failing {
            session.report(true);
        }
        assert_eq!(session.next(), Directive::Perform(SCRIPT[failing]));
        session.report(false);
        assert_eq!(session.next(), Directive::Abort(SCRIPT[failing]));
        session.report(true);
        assert_eq!(session.next(), Directive::Abort(SCRIPT[failing]));
        assert!(!session.is_finished());
    }
}

#[test]
fn step_at_follows_the_script() {
    for (index, step) in SCRIPT.iter().enumerate() {
        assert_eq!(step_at(index), Some(*step));
    }
    assert_eq!(SCRIPT_LEN, 8);
    assert_eq!(step_at(SCRIPT_LEN), None);
    assert_eq!(step_at(usize::MAX), None);
}

#[test]
fn triangle_has_three_indices() {
    assert_eq!(triangle_indices(), vec![0u16, 1, 2]);
}
