use glfw::hint::{
    CONTEXT_VERSION_MAJOR, CONTEXT_VERSION_MINOR, OPENGL_ANY_PROFILE, OPENGL_COMPAT_PROFILE,
    OPENGL_CORE_PROFILE, OPENGL_FORWARD_COMPAT, OPENGL_PROFILE,
};
use glfw::{init, ErrorKind, ErrorState, Glfw, Profile, WindowHint};

fn session() -> Glfw {
    let mut errors = ErrorState::new();
    init(1, &mut errors).unwrap()
}

#[test]
fn hint_settings_match_native_keys() {
    assert_eq!(
        WindowHint::ContextVersion(4, 1).settings(),
        vec![(0x00022002, 4), (0x00022003, 1)]
    );
    assert_eq!(WindowHint::ForwardCompat(true).settings(), vec![(0x00022006, 1)]);
    assert_eq!(WindowHint::ForwardCompat(false).settings(), vec![(0x00022006, 0)]);
    assert_eq!(WindowHint::OpenGlProfile(Profile::Any).settings(), vec![(0x00022008, 0)]);
    assert_eq!(WindowHint::OpenGlProfile(Profile::Core).settings(), vec![(0x00022008, 0x00032001)]);
    assert_eq!(WindowHint::OpenGlProfile(Profile::Compat).settings(), vec![(0x00022008, 0x00032002)]);
}

#[test]
fn core_profile_hints_are_pending_in_order() {
    let mut glfw = session();
    glfw.window_hint(WindowHint::ContextVersion(4, 1));
    glfw.window_hint(WindowHint::ForwardCompat(true));
    glfw.window_hint(WindowHint::OpenGlProfile(Profile::Core));
    assert_eq!(
        glfw.pending_hints().clone(),
        vec![
            (CONTEXT_VERSION_MAJOR, 4),
            (CONTEXT_VERSION_MINOR, 1),
            (OPENGL_FORWARD_COMPAT, 1),
            (OPENGL_PROFILE, OPENGL_CORE_PROFILE),
        ]
    );
}

#[test]
fn default_window_hints_drops_pending_hints() {
    let mut glfw = session();
    glfw.window_hint(WindowHint::OpenGlProfile(Profile::Compat));
    glfw.default_window_hints();
    assert!(glfw.pending_hints().is_empty());
    glfw.window_hint(WindowHint::OpenGlProfile(Profile::Any));
    assert_eq!(glfw.pending_hints().clone(), vec![(OPENGL_PROFILE, OPENGL_ANY_PROFILE)]);
    assert_ne!(OPENGL_ANY_PROFILE, OPENGL_COMPAT_PROFILE);
}

#[test]
fn create_window_consumes_pending_hints() {
    let mut glfw = session();
    glfw.window_hint(WindowHint::ContextVersion(3, 3));
    let request = glfw.create_window(800, 600).ok().unwrap();
    assert_eq!(request.width, 800);
    assert_eq!(request.height, 600);
    assert_eq!(request.hints, vec![(CONTEXT_VERSION_MAJOR, 3), (CONTEXT_VERSION_MINOR, 3)]);
    assert!(glfw.pending_hints().is_empty());
    let next = glfw.create_window(640, 480).ok().unwrap();
    assert!(next.hints.is_empty());
}

#[test]
fn create_window_refuses_a_size_that_is_not_positive() {
    let mut glfw = session();
    glfw.window_hint(WindowHint::ForwardCompat(true));
    for (w, h) in [(0, 600), (800, 0), (-1, 600), (800, -5)] {
        let e = glfw.create_window(w, h).err().unwrap();
        assert_eq!(e.kind, ErrorKind::InvalidValue);
    }
    assert_eq!(glfw.pending_hints().clone(), vec![(OPENGL_FORWARD_COMPAT, 1)]);
}
