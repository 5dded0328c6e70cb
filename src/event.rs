use vstd::prelude::*;
use std::collections::VecDeque;
use crate::hint::TRUE;

verus! {

/// A window event, as the caller receives it.
///
/// Cursor coordinates are carried as the bit patterns of the native
/// double-precision values (`f64::to_bits`), unchanged.
#[derive(Clone, Copy, Debug, PartialEq, Eq, Structural)]
pub enum Event {
    WindowPos { x: i32, y: i32 },
    WindowSize { width: i32, height: i32 },
    WindowClose,
    WindowRefresh,
    WindowFocus(bool),
    WindowIconify(bool),
    FramebufferSize { width: i32, height: i32 },
    CursorPos { x_bits: u64, y_bits: u64 },
}

/// One invocation of a native window callback, with its raw arguments:
/// native integers, native booleans, and the bit patterns of native doubles.
#[derive(Clone, Copy, Debug, PartialEq, Eq, Structural)]
pub enum Callback {
    WindowPos(i32, i32),
    WindowSize(i32, i32),
    WindowClose,
    WindowRefresh,
    WindowFocus(i32),
    WindowIconify(i32),
    FramebufferSize(i32, i32),
    CursorPos(u64, u64),
}

/// The event a callback invocation stands for. A native boolean is true
/// exactly when it equals the native true value.
pub open spec fn event_of(cb: Callback) -> Event {
    match cb {
        Callback::WindowPos(x, y) => Event::WindowPos { x, y },
        Callback::WindowSize(width, height) => Event::WindowSize { width, height },
        Callback::WindowClose => Event::WindowClose,
        Callback::WindowRefresh => Event::WindowRefresh,
        Callback::WindowFocus(f) => Event::WindowFocus(f == TRUE),
        Callback::WindowIconify(i) => Event::WindowIconify(i == TRUE),
        Callback::FramebufferSize(width, height) => Event::FramebufferSize { width, height },
        Callback::CursorPos(x, y) => Event::CursorPos { x_bits: x, y_bits: y },
    }
}

impl Callback {
    /// Builds the event this invocation stands for.
    pub fn to_event(self) -> (r: Event)
        ensures
            r == event_of(self),
    {
        match self {
            Callback::WindowPos(x, y) => Event::WindowPos { x, y },
            Callback::WindowSize(width, height) => Event::WindowSize { width, height },
            Callback::WindowClose => Event::WindowClose,
            Callback::WindowRefresh => Event::WindowRefresh,
            Callback::WindowFocus(focused) => Event::WindowFocus(focused == TRUE),
            Callback::WindowIconify(iconified) => Event::WindowIconify(iconified == TRUE),
            Callback::FramebufferSize(width, height) => Event::FramebufferSize { width, height },
            Callback::CursorPos(x, y) => Event::CursorPos { x_bits: x, y_bits: y },
        }
    }
}

/// A window's events in the order they arrived, oldest first.
pub struct EventQueue {
    events: VecDeque<Event>,
}

impl View for EventQueue {
    type V = Seq<Event>;

    closed spec fn view(&self) -> Seq<Event> {
        self.events@
    }
}

/// What draining a queue holding `q` gives: the events handed out, and the
/// events left behind.
pub open spec fn drained(q: Seq<Event>) -> (Seq<Event>, Seq<Event>) {
    (q, Seq::empty())
}

/// Draining is destructive: a second drain with nothing pushed in between
/// hands out no events, and the first one handed out everything in order.
pub proof fn drain_twice_gives_nothing(q: Seq<Event>)
    ensures
        drained(q).0 == q,
        drained(drained(q).1).0.len() == 0,
        drained(drained(q).1).1.len() == 0,
{
}

impl EventQueue {
    /// An empty queue.
    pub fn new() -> (r: EventQueue)
        ensures
            r@ == Seq::<Event>::empty(),
    {
        EventQueue { events: VecDeque::new() }
    }

    /// The number of events waiting.
    pub fn len(&self) -> (r: usize)
        ensures
            r == self@.len(),
    {
        self.events.len()
    }

    /// Whether no event is waiting.
    pub fn is_empty(&self) -> (r: bool)
        ensures
            r == (self@.len() == 0),
    {
        self.events.len() == 0
    }

    /// Appends an event behind those already waiting.
    pub fn push(&mut self, event: Event)
        ensures
            final(self)@ == old(self)@.push(event),
    {
        self.events.push_back(event);
    }

    /// Removes and returns every waiting event, oldest first.
    pub fn drain(&mut self) -> (r: Vec<Event>)
        ensures
            (r@, final(self)@) == drained(old(self)@),
    {
        let mut out: Vec<Event> = Vec::new();
        while self.events.len() > 0
            invariant
                out@ + self@ == old(self)@,
            decreases self@.len(),
        {
            let ghost before = self@;
            let e = self.events.pop_front().unwrap();
            out.push(e);
            assert(out@ + self@ =~= old(self)@) by {
                assert(before =~= seq![e] + self@);
            }
        }
        assert(out@ =~= old(self)@);
        out
    }
}

} // verus!
