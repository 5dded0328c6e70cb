use glfw::version::{VERSION_MAJOR, VERSION_MINOR, VERSION_REVISION};
use glfw::{format_version, is_bound_version, version_agrees};

#[test]
fn version_text_is_dotted_decimal() {
    assert_eq!(format_version((3, 2, 1)), b"3.2.1".to_vec());
    assert_eq!(format_version((10, 0, 250)), b"10.0.250".to_vec());
    assert_eq!(format_version((0, 0, 0)), b"0.0.0".to_vec());
}

#[test]
fn version_string_agrees_with_triple() {
    assert!(version_agrees((3, 2, 1), b"3.2.1 X11 GLX EGL clock_gettime /dev/js Xf86vm shared"));
    assert!(version_agrees((3, 2, 1), b"3.2.1"));
}

#[test]
fn version_string_disagreement_is_detected() {
    assert!(!version_agrees((3, 2, 1), b"3.2.10 X11"));
    assert!(!version_agrees((3, 2, 1), b"3.3.1 X11"));
    assert!(!version_agrees((3, 2, 1), b"3.2."));
    assert!(!version_agrees((3, 2, 1), b""));
    assert!(!version_agrees((-3, 2, 1), b"-3.2.1"));
}

#[test]
fn bound_version_is_three_two_one() {
    assert_eq!((VERSION_MAJOR, VERSION_MINOR, VERSION_REVISION), (3, 2, 1));
    assert!(is_bound_version((3, 2, 1)));
    assert!(!is_bound_version((3, 3, 0)));
}
