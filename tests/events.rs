use glfw::{Callback, Event, EventQueue};

#[test]
fn callbacks_translate_to_events() {
    assert_eq!(Callback::WindowPos(10, -20).to_event(), Event::WindowPos { x: 10, y: -20 });
    assert_eq!(
        Callback::WindowSize(800, 600).to_event(),
        Event::WindowSize { width: 800, height: 600 }
    );
    assert_eq!(Callback::WindowClose.to_event(), Event::WindowClose);
    assert_eq!(Callback::WindowRefresh.to_event(), Event::WindowRefresh);
    assert_eq!(
        Callback::FramebufferSize(1600, 1200).to_event(),
        Event::FramebufferSize { width: 1600, height: 1200 }
    );
    let (x, y) = (12.5f64.to_bits(), 40.0f64.to_bits());
    assert_eq!(Callback::CursorPos(x, y).to_event(), Event::CursorPos { x_bits: x, y_bits: y });
}

#[test]
fn native_booleans_become_booleans() {
    assert_eq!(Callback::WindowFocus(1).to_event(), Event::WindowFocus(true));
    assert_eq!(Callback::WindowFocus(0).to_event(), Event::WindowFocus(false));
    assert_eq!(Callback::WindowFocus(2).to_event(), Event::WindowFocus(false));
    assert_eq!(Callback::WindowIconify(1).to_event(), Event::WindowIconify(true));
    assert_eq!(Callback::WindowIconify(0).to_event(), Event::WindowIconify(false));
}

#[test]
fn queue_drains_in_push_order() {
    let mut q = EventQueue::new();
    assert!(q.is_empty());
    q.push(Event::WindowClose);
    q.push(Event::WindowFocus(true));
    q.push(Event::WindowPos { x: 1, y: 2 });
    assert_eq!(q.len(), 3);
    assert_eq!(
        q.drain(),
        vec![Event::WindowClose, Event::WindowFocus(true), Event::WindowPos { x: 1, y: 2 }]
    );
    assert!(q.is_empty());
}

#[test]
fn queue_second_drain_is_empty() {
    let mut q = EventQueue::new();
    q.push(Event::WindowRefresh);
    assert_eq!(q.drain(), vec![Event::WindowRefresh]);
    assert!(q.drain().is_empty());
}
