use vstd::prelude::*;
use crate::error::{Error, ErrorKind, ErrorState, is_failure};
use crate::event::{Callback, Event, EventQueue, event_of};
use crate::hint::{WindowHint, settings_of, TRUE};

verus! {

/// A live window as the session sees it: the identity stored in its native
/// user-data slot, the native handle (an address, as an integer), and the
/// events waiting in its queue.
pub struct WindowView {
    pub id: u64,
    pub native: u64,
    pub events: Seq<Event>,
}

/// The state of a session.
pub struct SessionView {
    /// Native hint settings pending for the next window, in the order set.
    pub hints: Seq<(i32, i32)>,
    /// The live windows, in the order they were created.
    pub windows: Seq<WindowView>,
    /// The identity the next window will get; identities are never reused.
    pub next_id: u64,
    /// The identity of the window whose context is current, if any.
    pub current: Option<u64>,
}

/// Whether a window with identity `id` is live.
pub open spec fn live(ws: Seq<WindowView>, id: u64) -> bool {
    exists|k: int| 0 <= k < ws.len() && ws[k].id == id
}

/// The events waiting for window `id`; none for a window that is not live.
pub open spec fn queue_of(ws: Seq<WindowView>, id: u64) -> Seq<Event> {
    if live(ws, id) {
        ws[choose|k: int| 0 <= k < ws.len() && ws[k].id == id].events
    } else {
        Seq::empty()
    }
}

/// Well-formed session state: every identity was issued (non-zero, below the
/// next one) and no two live windows share one.
pub open spec fn session_wf(v: SessionView) -> bool {
    &&& v.next_id > 0
    &&& forall|k: int| 0 <= k < v.windows.len() ==> 0 < #[trigger] v.windows[k].id < v.next_id
    &&& forall|k: int, l: int|
        0 <= k < l < v.windows.len() ==> #[trigger] v.windows[k].id != #[trigger] v.windows[l].id
}

/// The state of a freshly initialised session.
pub open spec fn initial_session() -> SessionView {
    SessionView { hints: Seq::empty(), windows: Seq::empty(), next_id: 1, current: None }
}

/// A callback invocation addressed to the window whose native user-data
/// slot held `window`.
#[derive(Clone, Copy, Debug, PartialEq, Eq, Structural)]
pub struct Delivery {
    pub window: u64,
    pub callback: Callback,
}

/// The live windows after one delivery: the addressed window's queue gains
/// the event; every other window is left as it was.
pub open spec fn deliver_one(ws: Seq<WindowView>, d: Delivery) -> Seq<WindowView> {
    ws.map_values(
        |w: WindowView|
            if w.id == d.window {
                WindowView { id: w.id, native: w.native, events: w.events.push(event_of(d.callback)) }
            } else {
                w
            },
    )
}

/// The live windows after a batch of deliveries, taken in the order they fired.
pub open spec fn deliver(ws: Seq<WindowView>, fired: Seq<Delivery>) -> Seq<WindowView>
    decreases fired.len(),
{
    if fired.len() == 0 {
        ws
    } else {
        deliver_one(deliver(ws, fired.drop_last()), fired.last())
    }
}

/// The events a batch of deliveries holds for window `id`, in order.
pub open spec fn events_for(fired: Seq<Delivery>, id: u64) -> Seq<Event>
    decreases fired.len(),
{
    if fired.len() == 0 {
        Seq::empty()
    } else if fired.last().window == id {
        events_for(fired.drop_last(), id).push(event_of(fired.last().callback))
    } else {
        events_for(fired.drop_last(), id)
    }
}

/// The live windows with the queue of window `id` emptied.
pub open spec fn cleared(ws: Seq<WindowView>, id: u64) -> Seq<WindowView> {
    ws.map_values(
        |w: WindowView|
            if w.id == id {
                WindowView { id: w.id, native: w.native, events: Seq::empty() }
            } else {
                w
            },
    )
}

struct Slot {
    id: u64,
    native: u64,
    events: EventQueue,
}

impl Slot {
    closed spec fn view(&self) -> WindowView {
        WindowView { id: self.id, native: self.native, events: self.events@ }
    }
}

/// An initialised native subsystem: the pending hints, and the state block of
/// every live window it created. Windows are created and destroyed through
/// it, so none can outlive it; `terminate` hands back the native windows
/// still to destroy before the subsystem is shut down.
pub struct Glfw {
    hints: Vec<(i32, i32)>,
    slots: Vec<Slot>,
    next_id: u64,
    current: Option<u64>,
}

/// A handle to one live window: its identity and its native handle.
pub struct Window {
    id: u64,
    native: u64,
}

impl Window {
    /// The identity stored in this window's native user-data slot.
    pub closed spec fn key(&self) -> u64 {
        self.id
    }

    /// The native handle of this window, as an integer.
    pub closed spec fn handle(&self) -> u64 {
        self.native
    }

    /// The identity stored in this window's native user-data slot.
    pub fn id(&self) -> (r: u64)
        ensures
            r == self.key(),
    {
        self.id
    }

    /// The native handle of this window, as an integer.
    pub fn native(&self) -> (r: u64)
        ensures
            r == self.handle(),
    {
        self.native
    }
}

impl View for Glfw {
    type V = SessionView;

    closed spec fn view(&self) -> SessionView {
        SessionView {
            hints: self.hints@,
            windows: self.slots@.map_values(|s: Slot| s.view()),
            next_id: self.next_id,
            current: self.current,
        }
    }
}

/// Completes initialisation once the native call has returned `status`.
/// The native layer signals success with its true value; on failure the
/// error is the one the native layer reported, or `Unknown` if it reported
/// none. The error slot is cleared either way: an error captured while the
/// native call succeeded is stale.
pub fn init(status: i32, errors: &mut ErrorState) -> (r: Result<Glfw, Error>)
    ensures
        final(errors)@ is None,
        status == TRUE ==> (r matches Ok(g) && g@ == initial_session() && g.wf()),
        status != TRUE ==> (r matches Err(e) && is_failure(e, old(errors)@)),
{
    if status == TRUE {
        let _ = errors.check_and_clear();
        let g = Glfw { hints: Vec::new(), slots: Vec::new(), next_id: 1, current: None };
        assert(g@.windows =~= Seq::<WindowView>::empty());
        Ok(g)
    } else {
        Err(errors.take_failure())
    }
}

impl Glfw {
    /// Well-formedness of this session's state.
    pub open spec fn wf(&self) -> bool {
        session_wf(self@)
    }

    /// Sets one option for the windows created after it: its native
    /// settings are added behind those already pending.
    pub fn window_hint(&mut self, hint: WindowHint)
        requires
            old(self).wf(),
        ensures
            final(self).wf(),
            final(self)@ == (SessionView { hints: old(self)@.hints + settings_of(hint), ..old(self)@ }),
    {
        let settings = hint.settings();
        let mut i: usize = 0;
        while i < settings.len()
            invariant
                i <= settings@.len(),
                settings@ == settings_of(hint),
                old(self).wf(),
                self@ == (SessionView { hints: old(self)@.hints + settings@.take(i as int), ..old(self)@ }),
            decreases settings@.len() - i,
        {
            self.hints.push(settings[i]);
            assert(old(self)@.hints + settings@.take(i + 1) =~= (old(self)@.hints + settings@.take(i as int)).push(settings@[i as int]));
            i += 1;
        }
        assert(settings@.take(i as int) =~= settings@);
    }

    /// Drops every pending hint, so the next window gets the native defaults.
    pub fn default_window_hints(&mut self)
        requires
            old(self).wf(),
        ensures
            final(self).wf(),
            final(self)@ == (SessionView { hints: Seq::empty(), ..old(self)@ }),
    {
        self.hints = Vec::new();
        assert(self@.hints =~= Seq::<(i32, i32)>::empty());
    }

    /// The native hint settings pending for the next window, in the order set.
    pub fn pending_hints(&self) -> (r: &Vec<(i32, i32)>)
        ensures
            r@ == self@.hints,
    {
        &self.hints
    }
}

/// What the native window-creation call is to be made with: the size, and
/// the hint settings to apply first, in order, over the native defaults.
pub struct WindowRequest {
    pub width: i32,
    pub height: i32,
    pub hints: Vec<(i32, i32)>,
}

/// The description of the error for a window size that is not positive.
pub const INVALID_SIZE_DESCRIPTION: &'static str = "window width and height must be positive";

/// The description of the error for a session that has issued every identity.
pub const EXHAUSTED_DESCRIPTION: &'static str = "no window identity is left to issue";

impl Glfw {
    /// Prepares the native creation of a window of the given size. The
    /// pending hints are consumed: they go into the request, and the next
    /// window starts from the native defaults again. A size that is not
    /// positive is refused with `InvalidValue`, and nothing changes.
    pub fn create_window(&mut self, width: i32, height: i32) -> (r: Result<WindowRequest, Error>)
        requires
            old(self).wf(),
        ensures
            final(self).wf(),
            (width > 0 && height > 0) ==> (r matches Ok(req) && req.width == width
                && req.height == height && req.hints@ == old(self)@.hints
                && final(self)@ == (SessionView { hints: Seq::empty(), ..old(self)@ })),
            !(width > 0 && height > 0) ==> (r matches Err(e) && e.kind == ErrorKind::InvalidValue
                && e.description@ == INVALID_SIZE_DESCRIPTION@ && final(self)@ == old(self)@),
    {
        if width > 0 && height > 0 {
            let mut hints: Vec<(i32, i32)> = Vec::new();
            std::mem::swap(&mut hints, &mut self.hints);
            assert(self@.hints =~= Seq::<(i32, i32)>::empty());
            Ok(WindowRequest { width, height, hints })
        } else {
            Err(Error { kind: ErrorKind::InvalidValue, description: INVALID_SIZE_DESCRIPTION.to_owned() })
        }
    }

    /// Completes window creation once the native call has returned `native`
    /// (zero for a null window). On a null window the error is the one the
    /// native layer reported, or `Unknown` if it reported none. Otherwise the
    /// window gets a fresh identity and an empty queue, unless every identity
    /// has been issued (`OutOfMemory`; the caller then destroys the native
    /// window). The error slot is cleared either way.
    pub fn window_created(&mut self, native: u64, errors: &mut ErrorState) -> (r: Result<Window, Error>)
        requires
            old(self).wf(),
        ensures
            final(self).wf(),
            final(errors)@ is None,
            native == 0 ==> (r matches Err(e) && is_failure(e, old(errors)@) && final(self)@ == old(self)@),
            (native != 0 && old(self)@.next_id == u64::MAX) ==> (r matches Err(e)
                && e.kind == ErrorKind::OutOfMemory && e.description@ == EXHAUSTED_DESCRIPTION@
                && final(self)@ == old(self)@),
            (native != 0 && old(self)@.next_id < u64::MAX) ==> (r matches Ok(w)
                && w.key() == old(self)@.next_id && w.handle() == native
                && !live(old(self)@.windows, w.key())
                && final(self)@ == (SessionView {
                    windows: old(self)@.windows.push(
                        WindowView { id: old(self)@.next_id, native, events: Seq::empty() },
                    ),
                    next_id: (old(self)@.next_id + 1) as u64,
                    ..old(self)@
                })),
    {
        if native == 0 {
            return Err(errors.take_failure());
        }
        let _ = errors.check_and_clear();
        if self.next_id == u64::MAX {
            return Err(Error { kind: ErrorKind::OutOfMemory, description: EXHAUSTED_DESCRIPTION.to_owned() });
        }
        let id = self.next_id;
        let ghost ws = self@.windows;
        self.slots.push(Slot { id, native, events: EventQueue::new() });
        self.next_id = id + 1;
        assert(self@.windows =~= ws.push(WindowView { id, native, events: Seq::empty() }));
        assert forall|k: int, l: int| 0 <= k < l < self@.windows.len() implies
            #[trigger] self@.windows[k].id != #[trigger] self@.windows[l].id by {
            if l == ws.len() {
                assert(ws[k].id < id);
            }
        }
        assert forall|k: int| 0 <= k < self@.windows.len() implies
            0 < #[trigger] self@.windows[k].id < self@.next_id by {
            if k < ws.len() {
                assert(ws[k].id < id);
            }
        }
        Ok(Window { id, native })
    }

    /// Whether `window` is live in this session.
    pub fn is_live(&self, window: &Window) -> (r: bool)
        ensures
            r == live(self@.windows, window.key()),
    {
        self.position(window.id).is_some()
    }

    /// The index of the live window with identity `id`.
    fn position(&self, id: u64) -> (r: Option<usize>)
        ensures
            r matches Some(k) ==> k < self@.windows.len() && self@.windows[k as int].id == id,
            r is None ==> !live(self@.windows, id),
    {
        let mut k: usize = 0;
        while k < self.slots.len()
            invariant
                k <= self.slots@.len(),
                forall|j: int| 0 <= j < k ==> self@.windows[j].id != id,
            decreases self.slots@.len() - k,
        {
            if self.slots[k].id == id {
                return Some(k);
            }
            k += 1;
        }
        None
    }

    /// Removes and returns every event waiting for `window`, oldest first;
    /// nothing for a window that is not live.
    pub fn drain_events(&mut self, window: &Window) -> (r: Vec<Event>)
        requires
            old(self).wf(),
        ensures
            final(self).wf(),
            r@ == queue_of(old(self)@.windows, window.key()),
            final(self)@ == (SessionView { windows: cleared(old(self)@.windows, window.key()), ..old(self)@ }),
    {
        let ghost ws = self@.windows;
        match self.position(window.id) {
            Some(k) => {
                let r = self.slots[k].events.drain();
                proof {
                    let c = choose|j: int| 0 <= j < ws.len() && ws[j].id == window.key();
                    assert(c == k as int);
                    assert(self@.windows =~= cleared(ws, window.key()));
                }
                r
            },
            None => {
                assert(cleared(ws, window.key()) =~= ws);
                Vec::new()
            },
        }
    }
}

impl Glfw {
    /// Forgets a window whose native window the caller destroys: its state
    /// block and any events still waiting go, and if its context was the
    /// current one, no context is current any more. Returns the native
    /// handle to destroy.
    pub fn destroy_window(&mut self, window: Window) -> (r: u64)
        requires
            old(self).wf(),
        ensures
            final(self).wf(),
            r == window.handle(),
            !live(final(self)@.windows, window.key()),
            live(old(self)@.windows, window.key()) ==> exists|k: int|
                0 <= k < old(self)@.windows.len() && old(self)@.windows[k].id == window.key()
                && final(self)@.windows == old(self)@.windows.remove(k),
            !live(old(self)@.windows, window.key()) ==> final(self)@.windows == old(self)@.windows,
            final(self)@.current == (if old(self)@.current == Some(window.key()) {
                None
            } else {
                old(self)@.current
            }),
            final(self)@.hints == old(self)@.hints,
            final(self)@.next_id == old(self)@.next_id,
    {
        let ghost ws = self@.windows;
        if let Some(k) = self.position(window.id) {
            let _ = self.slots.remove(k);
            assert(self@.windows =~= ws.remove(k as int));
            assert forall|j: int| 0 <= j < self@.windows.len() implies #[trigger] self@.windows[j].id != window.id by {
                if j < k {
                    assert(self@.windows[j] == ws[j]);
                } else {
                    assert(self@.windows[j] == ws[j + 1]);
                }
            }
            assert forall|a: int, b: int| 0 <= a < b < self@.windows.len() implies
                #[trigger] self@.windows[a].id != #[trigger] self@.windows[b].id by {
                let a2 = if a < k { a } else { a + 1 };
                let b2 = if b < k { b } else { b + 1 };
                assert(ws[a2].id != ws[b2].id);
            }
            assert forall|j: int| 0 <= j < self@.windows.len() implies
                0 < #[trigger] self@.windows[j].id < self@.next_id by {
                let j2 = if j < k { j } else { j + 1 };
                assert(ws[j2].id < self@.next_id);
            }
        }
        if self.current == Some(window.id) {
            self.current = None;
        }
        window.native
    }

    /// Makes the context of `window` the current one; a window that is not
    /// live changes nothing.
    pub fn make_context_current(&mut self, window: &Window)
        requires
            old(self).wf(),
        ensures
            final(self).wf(),
            final(self)@ == (SessionView {
                current: if live(old(self)@.windows, window.key()) {
                    Some(window.key())
                } else {
                    old(self)@.current
                },
                ..old(self)@
            }),
    {
        if self.position(window.id).is_some() {
            self.current = Some(window.id);
        }
    }

    /// The identity of the window whose context is current, if any.
    pub fn current_context(&self) -> (r: Option<u64>)
        ensures
            r == self@.current,
    {
        self.current
    }

    /// Shuts the session down. Returns the native handles of the windows
    /// still live, in the order they were created: the caller destroys each
    /// before it terminates the native subsystem.
    pub fn terminate(self) -> (r: Vec<u64>)
        ensures
            r@ == self@.windows.map_values(|w: WindowView| w.native),
    {
        let mut r: Vec<u64> = Vec::new();
        let mut k: usize = 0;
        while k < self.slots.len()
            invariant
                k <= self.slots@.len(),
                r@ == self@.windows.take(k as int).map_values(|w: WindowView| w.native),
            decreases self.slots@.len() - k,
        {
            r.push(self.slots[k].native);
            assert(self@.windows.take(k + 1) =~= self@.windows.take(k as int).push(self@.windows[k as int]));
            k += 1;
        }
        assert(self@.windows.take(k as int) =~= self@.windows);
        r
    }
}

impl Glfw {
    /// Routes one callback invocation to the queue of the window it is
    /// addressed to; one addressed to no live window is dropped.
    fn dispatch_one(&mut self, d: Delivery)
        requires
            old(self).wf(),
        ensures
            final(self).wf(),
            final(self)@ == (SessionView { windows: deliver_one(old(self)@.windows, d), ..old(self)@ }),
    {
        let event = d.callback.to_event();
        let ghost ws = self@.windows;
        let ghost target = deliver_one(ws, d);
        let mut k: usize = 0;
        while k < self.slots.len()
            invariant
                k <= self.slots@.len(),
                self.slots@.len() == ws.len(),
                event == event_of(d.callback),
                forall|j: int| 0 <= j < k ==> #[trigger] self@.windows[j] == target[j],
                forall|j: int| k <= j < ws.len() ==> #[trigger] self@.windows[j] == ws[j],
                self@.hints == old(self)@.hints,
                self@.next_id == old(self)@.next_id,
                self@.current == old(self)@.current,
                ws == old(self)@.windows,
                target == deliver_one(ws, d),
            decreases self.slots@.len() - k,
        {
            let ghost before = self.slots@;
            let ghost wb = self@.windows;
            assert(self@.windows[k as int] == ws[k as int]);
            assert(self@.windows[k as int] == before[k as int].view());
            if self.slots[k].id == d.window {
                self.slots[k].events.push(event);
                assert(self.slots@ =~= before.update(k as int, self.slots@[k as int]));
            }
            assert(self@.windows[k as int] == self.slots@[k as int].view());
            assert(self@.windows[k as int] == target[k as int]);
            assert(self@.windows =~= wb.update(k as int, target[k as int]));
            k += 1;
        }
        assert(self@.windows =~= target);
    }

    /// Routes a batch of callback invocations, in the order they fired.
    fn dispatch(&mut self, fired: &Vec<Delivery>)
        requires
            old(self).wf(),
        ensures
            final(self).wf(),
            final(self)@ == (SessionView { windows: deliver(old(self)@.windows, fired@), ..old(self)@ }),
    {
        let mut i: usize = 0;
        while i < fired.len()
            invariant
                i <= fired@.len(),
                self.wf(),
                self@ == (SessionView { windows: deliver(old(self)@.windows, fired@.take(i as int)), ..old(self)@ }),
            decreases fired@.len() - i,
        {
            self.dispatch_one(fired[i]);
            assert(fired@.take(i + 1).drop_last() =~= fired@.take(i as int));
            i += 1;
        }
        assert(fired@.take(i as int) =~= fired@);
    }

    /// Completes a non-blocking pump call: `fired` holds the callback
    /// invocations the native layer made during it, in order, each
    /// addressed by the identity in its window's user-data slot. Each
    /// becomes an event at the back of its window's queue; those addressed
    /// to no live window are dropped.
    pub fn poll_events(&mut self, fired: &Vec<Delivery>)
        requires
            old(self).wf(),
        ensures
            final(self).wf(),
            final(self)@ == (SessionView { windows: deliver(old(self)@.windows, fired@), ..old(self)@ }),
    {
        self.dispatch(fired);
    }

    /// Completes a blocking pump call, which returned once the native layer
    /// had events; routes what fired as `poll_events` does.
    pub fn wait_events(&mut self, fired: &Vec<Delivery>)
        requires
            old(self).wf(),
        ensures
            final(self).wf(),
            final(self)@ == (SessionView { windows: deliver(old(self)@.windows, fired@), ..old(self)@ }),
    {
        self.dispatch(fired);
    }
}

/// Routing keeps the number of live windows.
pub proof fn deliver_len(ws: Seq<WindowView>, fired: Seq<Delivery>)
    ensures
        deliver(ws, fired).len() == ws.len(),
    decreases fired.len(),
{
    if fired.len() > 0 {
        deliver_len(ws, fired.drop_last());
    }
}

/// Routing keeps every window's identity and handle, and each window's
/// queue gains exactly the events addressed to it, in the order they fired.
pub proof fn deliver_appends(ws: Seq<WindowView>, fired: Seq<Delivery>, k: int)
    requires
        0 <= k < ws.len(),
    ensures
        deliver(ws, fired).len() == ws.len(),
        deliver(ws, fired)[k].id == ws[k].id,
        deliver(ws, fired)[k].native == ws[k].native,
        deliver(ws, fired)[k].events == ws[k].events + events_for(fired, ws[k].id),
    decreases fired.len(),
{
    deliver_len(ws, fired);
    if fired.len() > 0 {
        let rest = fired.drop_last();
        deliver_appends(ws, rest, k);
        let id = ws[k].id;
        if fired.last().window == id {
            assert(ws[k].events + events_for(fired, id) =~= (ws[k].events + events_for(rest, id)).push(
                event_of(fired.last().callback),
            ));
        }
    }
}

/// Invocations that are all addressed to one window stand for exactly as
/// many events for it, each the translation of its invocation, in order.
pub proof fn events_for_one_window(fired: Seq<Delivery>, id: u64)
    requires
        forall|i: int| 0 <= i < fired.len() ==> #[trigger] fired[i].window == id,
    ensures
        events_for(fired, id) == fired.map_values(|d: Delivery| event_of(d.callback)),
    decreases fired.len(),
{
    if fired.len() > 0 {
        let rest = fired.drop_last();
        assert forall|i: int| 0 <= i < rest.len() implies #[trigger] rest[i].window == id by {
            assert(rest[i] == fired[i]);
        }
        events_for_one_window(rest, id);
        assert(fired.map_values(|d: Delivery| event_of(d.callback)) =~= rest.map_values(
            |d: Delivery| event_of(d.callback),
        ).push(event_of(fired.last().callback)));
    }
}

/// Pumping keeps the session well formed: no window appears, disappears or
/// changes identity.
pub proof fn deliver_keeps_windows(v: SessionView, fired: Seq<Delivery>)
    requires
        session_wf(v),
    ensures
        session_wf(SessionView { windows: deliver(v.windows, fired), ..v }),
        forall|id: u64| live(deliver(v.windows, fired), id) == live(v.windows, id),
{
    let ws = v.windows;
    let out = deliver(ws, fired);
    assert forall|k: int| 0 <= k < ws.len() implies #[trigger] out[k].id == ws[k].id by {
        deliver_appends(ws, fired, k);
    }
    deliver_len(ws, fired);
    assert forall|id: u64| live(out, id) == live(ws, id) by {
        if live(out, id) {
            let k = choose|k: int| 0 <= k < out.len() && out[k].id == id;
            assert(out[k].id == ws[k].id);
        }
        if live(ws, id) {
            let k = choose|k: int| 0 <= k < ws.len() && ws[k].id == id;
            assert(out[k].id == ws[k].id);
        }
    }
}

/// The ordering law of the event bridge: if every callback invocation
/// during one pump call is addressed to one live window, its queue ends
/// with exactly those events, one per invocation, in the order they fired,
/// behind the events that were already waiting.
pub proof fn pump_keeps_firing_order(v: SessionView, fired: Seq<Delivery>, id: u64)
    requires
        session_wf(v),
        live(v.windows, id),
        forall|i: int| 0 <= i < fired.len() ==> #[trigger] fired[i].window == id,
    ensures
        queue_of(deliver(v.windows, fired), id) == queue_of(v.windows, id) + fired.map_values(
            |d: Delivery| event_of(d.callback),
        ),
        queue_of(deliver(v.windows, fired), id).len() == queue_of(v.windows, id).len() + fired.len(),
{
    let ws = v.windows;
    let out = deliver(ws, fired);
    let k = choose|k: int| 0 <= k < ws.len() && ws[k].id == id;
    deliver_appends(ws, fired, k);
    events_for_one_window(fired, id);
    deliver_keeps_windows(v, fired);
    assert(out[k].id == id);
    assert(live(out, id));
    let c = choose|c: int| 0 <= c < out.len() && out[c].id == id;
    let vo = SessionView { windows: out, ..v };
    assert(session_wf(vo));
    if c < k {
        assert(vo.windows[c].id != vo.windows[k].id);
    } else if k < c {
        assert(vo.windows[k].id != vo.windows[c].id);
    }
}

/// Routing a batch that is split in two is routing its first part, then
/// its second.
pub proof fn deliver_split(ws: Seq<WindowView>, a: Seq<Delivery>, b: Seq<Delivery>)
    ensures
        deliver(ws, a + b) == deliver(deliver(ws, a), b),
    decreases b.len(),
{
    if b.len() == 0 {
        assert(a + b =~= a);
    } else {
        deliver_split(ws, a, b.drop_last());
        assert((a + b).drop_last() =~= a + b.drop_last());
        assert((a + b).last() == b.last());
    }
}

/// No dangling dispatch: an invocation addressed to a window that is not
/// live (one destroyed earlier, since identities are never reused) changes
/// no queue, wherever it stands in the batch.
pub proof fn stale_delivery_is_dropped(v: SessionView, a: Seq<Delivery>, d: Delivery, b: Seq<Delivery>)
    requires
        session_wf(v),
        !live(v.windows, d.window),
    ensures
        deliver(v.windows, a + seq![d] + b) == deliver(v.windows, a + b),
{
    let ws = v.windows;
    deliver_split(ws, a + seq![d], b);
    deliver_split(ws, a, b);
    deliver_split(ws, a, seq![d]);
    let mid = deliver(ws, a);
    deliver_keeps_windows(v, a);
    assert(seq![d].drop_last() =~= Seq::<Delivery>::empty());
    assert(deliver(mid, seq![d]) == deliver_one(deliver(mid, Seq::empty()), d));
    assert(deliver(mid, Seq::<Delivery>::empty()) == mid);
    assert(deliver_one(mid, d) =~= mid) by {
        assert forall|k: int| 0 <= k < mid.len() implies #[trigger] mid[k].id != d.window by {
            if mid[k].id == d.window {
                assert(live(mid, d.window));
            }
        }
    }
}

/// Draining is destructive: once a window's queue has been drained, a
/// second drain with no pump call in between hands out no events.
pub proof fn drain_again_gives_nothing(v: SessionView, id: u64)
    requires
        session_wf(v),
    ensures
        queue_of(cleared(v.windows, id), id) == Seq::<Event>::empty(),
{
    let cw = cleared(v.windows, id);
    if live(cw, id) {
        let c = choose|c: int| 0 <= c < cw.len() && cw[c].id == id;
        assert(cw[c].events =~= Seq::<Event>::empty());
    }
}

} // verus!
