//! The decisions of the X11 window-context tracker. The caller feeds it
//! X events, the property values it asks for, and the time; the tracker
//! keeps the two records and says what to fetch and what to publish.
use vstd::prelude::*;
use crate::debouncer::Debouncer;
use crate::display::{affinity_name, calc_window_display, XDisplay};
use crate::service::{touches_active, touches_pointer, update_result, Signals};
use crate::types::{
    lemma_key_round_trip, lemma_state_round_trip, prop_key, InvalidArgs, WindowContext, WindowDict,
    WindowProp, WindowRecord,
};
use crate::xwindow::{
    bytes_view, display_of, empty_window, prop_text, record_of, update_key, update_text,
    window_display, window_state_of, property_text, Atoms, Rect, TypeAtoms, WindowMatch,
    XUpdateProp, XUpdateView, XWindow, XWindowView,
};

verus! {

/// How long, in milliseconds, geometry changes must stop before a
/// window's display is computed again.
pub const MOVE_DELAY_MS: u64 = 15;

/// The mode of a focus event.
#[derive(Clone, Copy, Debug, PartialEq, Eq, Structural)]
pub enum NotifyMode {
    Normal,
    Grab,
    Ungrab,
    WhileGrabbed,
}

/// The detail of a focus event.
#[derive(Clone, Copy, Debug, PartialEq, Eq, Structural)]
pub enum NotifyDetail {
    Ancestor,
    Virtual,
    Inferior,
    Nonlinear,
    NonlinearVirtual,
    Pointer,
    PointerRoot,
    NoDetail,
}

/// A window's new geometry.
#[derive(Clone, Copy, Debug, PartialEq, Eq, Structural)]
pub struct ConfigureEvent {
    pub window: u32,
    pub x: i16,
    pub y: i16,
    pub width: u16,
    pub height: u16,
    pub override_redirect: bool,
}

/// One of the two tracked records.
#[derive(Clone, Copy, Debug, PartialEq, Eq, Structural)]
pub enum Slot {
    Active,
    Pointer,
}

pub open spec fn context_of(w: Slot) -> WindowContext {
    match w {
        Slot::Active => WindowContext::Active,
        Slot::Pointer => WindowContext::Pointer,
    }
}

/// What the tracker asks to be sent to the service.
#[derive(Clone, Debug)]
pub enum Publication {
    /// Replace the record(s) of a context.
    Replace(WindowContext, WindowDict),
    /// Set one field of the record(s) of a context, given as text.
    Update(WindowContext, WindowProp, String),
}

/// What a focus event leads to.
#[derive(Clone, Debug)]
pub enum FocusStep {
    Ignore,
    Publish(Publication),
    /// Find the app window under this window, then fetch its attributes.
    Resolve(u32),
}

/// What a pointer-enter event leads to.
#[derive(Clone, Copy, Debug, PartialEq, Eq, Structural)]
pub enum EnterStep {
    Ignore,
    /// Fetch the geometry of this window (the active one) and pass it to
    /// `on_active_measured`.
    MeasureActive(u32),
    /// Find the app window under this window, then fetch its attributes.
    Resolve(u32),
}

/// A property to fetch again for a tracked window.
#[derive(Clone, Copy, Debug, PartialEq, Eq, Structural)]
pub enum Refetch {
    Title(u32),
    State(u32),
    Role(u32),
}

/// The value fetched for a `Refetch`.
#[derive(Clone, Debug)]
pub enum Refetched {
    Title(Option<Vec<u8>>),
    State(Option<Vec<u32>>),
    Role(Option<Vec<u8>>),
}

pub open spec fn is_replace(r: Publication, c: WindowContext, w: XWindowView) -> bool {
    r matches Publication::Replace(c2, d) && c2 == c && d@ == record_of(w)
}

pub open spec fn is_update(r: Publication, c: WindowContext, p: XUpdateView) -> bool {
    r matches Publication::Update(c2, k, v) && c2 == c && k == update_key(p) && v@ == update_text(p)
}

pub struct Tracker {
    pub atoms: Atoms,
    pub types: TypeAtoms,
    /// The monitors, in enumeration order.
    pub displays: Vec<XDisplay>,
    pub active_window: XWindow,
    pub pointer_window: XWindow,
    /// Geometry changes of the active window's top-level window.
    pub active_moves: Debouncer<ConfigureEvent>,
    /// Geometry changes of the pointer window's top-level window.
    pub pointer_moves: Debouncer<ConfigureEvent>,
}

impl Tracker {
    pub open spec fn records(self) -> (XWindowView, XWindowView) {
        (self.active_window@, self.pointer_window@)
    }

    pub open spec fn window_of(self, w: Slot) -> XWindow {
        match w {
            Slot::Active => self.active_window,
            Slot::Pointer => self.pointer_window,
        }
    }

    pub open spec fn moves_of(self, w: Slot) -> Debouncer<ConfigureEvent> {
        match w {
            Slot::Active => self.active_moves,
            Slot::Pointer => self.pointer_moves,
        }
    }

    /// Same atoms and monitors.
    pub open spec fn same_setup(self, o: Tracker) -> bool {
        &&& self.atoms == o.atoms
        &&& self.types == o.types
        &&& self.displays@ == o.displays@
    }

    /// Same setup and the same pending geometry changes.
    pub open spec fn keeps(self, o: Tracker) -> bool {
        &&& self.same_setup(o)
        &&& self.active_moves == o.active_moves
        &&& self.pointer_moves == o.pointer_moves
    }

    /// Where the two contexts hold the same window, a change for either is
    /// published for both.
    pub open spec fn promoted(self, c: WindowContext) -> WindowContext {
        if self.active_window.id == self.pointer_window.id {
            WindowContext::Both
        } else {
            c
        }
    }

    /// The records after `w` is set for `c`.
    pub open spec fn set_records(self, c: WindowContext, w: XWindowView) -> (XWindowView, XWindowView) {
        (
            if touches_active(c) {
                w
            } else {
                self.active_window@
            },
            if touches_pointer(c) {
                w
            } else {
                self.pointer_window@
            },
        )
    }

    /// The records after the change `p` is made for `c`.
    pub open spec fn update_records(self, c: WindowContext, p: XUpdateView) -> (XWindowView, XWindowView) {
        (
            if touches_active(c) {
                self.active_window@.applied(p)
            } else {
                self.active_window@
            },
            if touches_pointer(c) {
                self.pointer_window@.applied(p)
            } else {
                self.pointer_window@
            },
        )
    }

    /// The display a geometry change puts a window on.
    pub open spec fn moved_display(self, e: ConfigureEvent) -> Seq<char> {
        affinity_name(self.displays@, e.x as int, e.y as int, e.width as int, e.height as int)
    }

    /// Nothing tracked yet; geometry changes wait `delay` before they count.
    pub fn new(atoms: Atoms, types: TypeAtoms, displays: Vec<XDisplay>, delay: u64) -> (r: Tracker)
        ensures
            r.atoms == atoms,
            r.types == types,
            r.displays == displays,
            r.records() == (empty_window(), empty_window()),
            r.active_moves.delay == delay && r.active_moves.pending is None,
            r.pointer_moves.delay == delay && r.pointer_moves.pending is None,
    {
        Tracker {
            atoms,
            types,
            displays,
            active_window: XWindow::empty(),
            pointer_window: XWindow::empty(),
            active_moves: Debouncer::new(delay),
            pointer_moves: Debouncer::new(delay),
        }
    }

    /// Replaces the record(s) of `context` and says to publish it whole.
    pub fn set_window(&mut self, context: WindowContext, window: XWindow) -> (r: Publication)
        ensures
            final(self).keeps(*old(self)),
            final(self).records() == old(self).set_records(context, window@),
            is_replace(r, context, window@),
    {
        let dict = window.as_dict();
        match context {
            WindowContext::Active => {
                self.active_window = window;
            },
            WindowContext::Pointer => {
                self.pointer_window = window;
            },
            WindowContext::Both => {
                self.active_window = window.duplicate();
                self.pointer_window = window;
            },
        }
        Publication::Replace(context, dict)
    }

    /// Makes one field change for `context`, for both contexts where they
    /// hold the same window, and says to publish it.
    pub fn update_window(&mut self, context: WindowContext, prop: XUpdateProp) -> (r: Publication)
        ensures
            final(self).keeps(*old(self)),
            final(self).records() == old(self).update_records(old(self).promoted(context), prop@),
            is_update(r, old(self).promoted(context), prop@),
    {
        let context = if self.active_window.id == self.pointer_window.id {
            WindowContext::Both
        } else {
            context
        };
        let (key, value) = match context {
            WindowContext::Active => self.active_window.update(prop),
            WindowContext::Pointer => self.pointer_window.update(prop),
            WindowContext::Both => {
                let _ = self.active_window.update(prop.duplicate());
                self.pointer_window.update(prop)
            },
        };
        Publication::Update(context, key, value)
    }

    /// A new window: its events are wanted unless it is override-redirect.
    /// Gives the window whose event mask to install.
    pub fn on_create(&self, window: u32, override_redirect: bool) -> (r: Option<u32>)
        ensures
            override_redirect ==> r is None,
            !override_redirect ==> r == Some(window),
    {
        if override_redirect {
            None
        } else {
            Some(window)
        }
    }

    /// Keyboard focus moved. Only a normal, nonlinear-virtual focus-in is a
    /// handoff between top-level clients; the pointer window is adopted
    /// whole when it is the one focused.
    pub fn on_focus_in(&mut self, event: u32, mode: NotifyMode, detail: NotifyDetail) -> (r: FocusStep)
        ensures
            (mode != NotifyMode::Normal || detail != NotifyDetail::NonlinearVirtual || event
                == old(self).active_window.id || event == old(self).active_window.top_id) ==> (r is Ignore
                && *final(self) == *old(self)),
            !(mode != NotifyMode::Normal || detail != NotifyDetail::NonlinearVirtual || event
                == old(self).active_window.id || event == old(self).active_window.top_id) ==> (if event
                == old(self).pointer_window.id || event == old(self).pointer_window.top_id {
                &&& r matches FocusStep::Publish(u) && is_replace(
                    u,
                    WindowContext::Active,
                    old(self).pointer_window@,
                )
                &&& final(self).keeps(*old(self))
                &&& final(self).records() == old(self).set_records(
                    WindowContext::Active,
                    old(self).pointer_window@,
                )
            } else {
                r matches FocusStep::Resolve(w) && w == event && *final(self) == *old(self)
            }),
    {
        if mode != NotifyMode::Normal || detail != NotifyDetail::NonlinearVirtual {
            return FocusStep::Ignore;
        }
        if event == self.active_window.id || event == self.active_window.top_id {
            return FocusStep::Ignore;
        }
        if event == self.pointer_window.id || event == self.pointer_window.top_id {
            let window = self.pointer_window.duplicate();
            return FocusStep::Publish(self.set_window(WindowContext::Active, window));
        }
        FocusStep::Resolve(event)
    }

    /// The pointer entered a window.
    pub fn on_enter(&self, event: u32, child: u32) -> (r: EnterStep)
        ensures
            (event == self.pointer_window.id || event == self.pointer_window.top_id || child
                == self.pointer_window.id) ==> r == EnterStep::Ignore,
            !(event == self.pointer_window.id || event == self.pointer_window.top_id || child
                == self.pointer_window.id) ==> (if event == self.active_window.id || event
                == self.active_window.top_id {
                r == EnterStep::MeasureActive(self.active_window.id)
            } else {
                r == EnterStep::Resolve(event)
            }),
    {
        if event == self.pointer_window.id || event == self.pointer_window.top_id || child
            == self.pointer_window.id {
            EnterStep::Ignore
        } else if event == self.active_window.id || event == self.active_window.top_id {
            EnterStep::MeasureActive(self.active_window.id)
        } else {
            EnterStep::Resolve(event)
        }
    }

    /// The pointer entered the active window: the pointer record becomes a
    /// copy of it, with the display taken from its current geometry.
    pub fn on_active_measured(&mut self, geometry: Option<Rect>) -> (r: Publication)
        ensures
            final(self).keeps(*old(self)),
            final(self).records() == old(self).set_records(
                WindowContext::Pointer,
                (XWindowView { display: display_of(old(self).displays@, geometry), ..old(self).active_window@ }),
            ),
            is_replace(
                r,
                WindowContext::Pointer,
                (XWindowView { display: display_of(old(self).displays@, geometry), ..old(self).active_window@ }),
            ),
    {
        let mut window = self.active_window.duplicate();
        window.display = window_display(&self.displays, geometry);
        self.set_window(WindowContext::Pointer, window)
    }

    /// Whether a resolved app window is new to `which`, so that its
    /// attributes are fetched and it is published.
    pub fn wants_attributes(&self, which: Slot, found: &Option<WindowMatch>) -> (r: bool)
        ensures
            r == (found matches Some(m) && m.id != self.window_of(which).id),
    {
        match found {
            Some(m) => match which {
                Slot::Active => m.id != self.active_window.id,
                Slot::Pointer => m.id != self.pointer_window.id,
            },
            None => false,
        }
    }

    /// A property of `window` changed: the title, state and role of the
    /// tracked windows are fetched again.
    pub fn on_property(&self, window: u32, atom: u32) -> (r: Option<Refetch>)
        ensures
            (window != self.active_window.id && window != self.pointer_window.id) ==> r is None,
            !(window != self.active_window.id && window != self.pointer_window.id) ==> r == (if atom
                == self.atoms.wm_name {
                Some(Refetch::Title(window))
            } else if atom == self.atoms.wm_state {
                Some(Refetch::State(window))
            } else if atom == self.atoms.wm_window_role {
                Some(Refetch::Role(window))
            } else {
                None
            }),
    {
        if window != self.active_window.id && window != self.pointer_window.id {
            None
        } else if atom == self.atoms.wm_name {
            Some(Refetch::Title(window))
        } else if atom == self.atoms.wm_state {
            Some(Refetch::State(window))
        } else if atom == self.atoms.wm_window_role {
            Some(Refetch::Role(window))
        } else {
            None
        }
    }

    /// The field change that a fetched value stands for; an absent title or
    /// role reads as empty, an absent state as `Normal`.
    pub fn refetched_prop(&self, value: &Refetched) -> (r: XUpdateProp)
        ensures
            value matches Refetched::Title(b) ==> r@ == XUpdateView::Title(prop_text(bytes_view(*b))),
            value matches Refetched::Role(b) ==> r@ == XUpdateView::Role(prop_text(bytes_view(*b))),
            value matches Refetched::State(s) ==> r@ == XUpdateView::State(
                window_state_of(
                    self.atoms,
                    match s {
                        Some(v) => Some(v@),
                        None => None,
                    },
                ),
            ),
    {
        match value {
            Refetched::Title(b) => XUpdateProp::Title(property_text(b)),
            Refetched::State(s) => XUpdateProp::State(self.atoms.window_state(s)),
            Refetched::Role(b) => XUpdateProp::Role(property_text(b)),
        }
    }

    /// A fetched field value of `window`: published where it differs from
    /// the record of the active window, else of the pointer window.
    pub fn on_changed(&mut self, window: u32, prop: XUpdateProp) -> (r: Option<Publication>)
        ensures
            (window == old(self).active_window.id && old(self).active_window@.changes(prop@)) ==> {
                &&& r matches Some(u) && is_update(
                    u,
                    old(self).promoted(WindowContext::Active),
                    prop@,
                )
                &&& final(self).keeps(*old(self))
                &&& final(self).records() == old(self).update_records(
                    old(self).promoted(WindowContext::Active),
                    prop@,
                )
            },
            !(window == old(self).active_window.id && old(self).active_window@.changes(prop@)) && (window
                == old(self).pointer_window.id && old(self).pointer_window@.changes(prop@)) ==> {
                &&& r matches Some(u) && is_update(
                    u,
                    old(self).promoted(WindowContext::Pointer),
                    prop@,
                )
                &&& final(self).keeps(*old(self))
                &&& final(self).records() == old(self).update_records(
                    old(self).promoted(WindowContext::Pointer),
                    prop@,
                )
            },
            !(window == old(self).active_window.id && old(self).active_window@.changes(prop@)) && !(
            window == old(self).pointer_window.id && old(self).pointer_window@.changes(prop@)) ==> (r is None
                && *final(self) == *old(self)),
    {
        if window == self.active_window.id && changes(&self.active_window, &prop) {
            Some(self.update_window(WindowContext::Active, prop))
        } else if window == self.pointer_window.id && changes(&self.pointer_window, &prop) {
            Some(self.update_window(WindowContext::Pointer, prop))
        } else {
            None
        }
    }

    /// A window's geometry changed at time `now`: the change is held back
    /// for the tracked window whose top-level window it is.
    pub fn on_configure(&mut self, e: ConfigureEvent, now: u64)
        ensures
            e.override_redirect ==> *final(self) == *old(self),
            !e.override_redirect && e.window == old(self).active_window.top_id ==> *final(self) == (
            Tracker { active_moves: old(self).active_moves.pushed(e, now), ..*old(self) }),
            !e.override_redirect && e.window != old(self).active_window.top_id && e.window == old(
                self,
            ).pointer_window.top_id ==> *final(self) == (Tracker {
                pointer_moves: old(self).pointer_moves.pushed(e, now),
                ..*old(self)
            }),
            !e.override_redirect && e.window != old(self).active_window.top_id && e.window != old(
                self,
            ).pointer_window.top_id ==> *final(self) == *old(self),
    {
        if e.override_redirect {
            return ;
        }
        if e.window == self.active_window.top_id {
            self.active_moves.push(e, now);
        } else if e.window == self.pointer_window.top_id {
            self.pointer_moves.push(e, now);
        }
    }

    /// At time `now`, takes the settled geometry change of `which`, if any:
    /// when it is still about that window's top-level window and puts it on
    /// another display, the new display is published.
    pub fn settle(&mut self, which: Slot, now: u64) -> (r: Option<Publication>)
        ensures
            old(self).moves_of(which).polled(now).1 is None ==> (r is None && *final(self) == *old(
                self,
            )),
            old(self).moves_of(which).polled(now).1 matches Some(e) ==> {
                &&& final(self).same_setup(*old(self))
                &&& final(self).moves_of(which) == old(self).moves_of(which).polled(now).0
                &&& (which == Slot::Active ==> final(self).pointer_moves == old(self).pointer_moves)
                &&& (which == Slot::Pointer ==> final(self).active_moves == old(self).active_moves)
                &&& if e.window == old(self).window_of(which).top_id && old(self).moved_display(e) != old(
                    self,
                ).window_of(which)@.display {
                    &&& r matches Some(u) && is_update(
                        u,
                        old(self).promoted(context_of(which)),
                        XUpdateView::Display(old(self).moved_display(e)),
                    )
                    &&& final(self).records() == old(self).update_records(
                        old(self).promoted(context_of(which)),
                        XUpdateView::Display(old(self).moved_display(e)),
                    )
                } else {
                    r is None && final(self).records() == old(self).records()
                }
            },
    {
        let settled = match which {
            Slot::Active => self.active_moves.next(now),
            Slot::Pointer => self.pointer_moves.next(now),
        };
        let e = match settled {
            Some(e) => e,
            None => {
                return None;
            },
        };
        let (top_id, display) = match which {
            Slot::Active => (self.active_window.top_id, &self.active_window.display),
            Slot::Pointer => (self.pointer_window.top_id, &self.pointer_window.display),
        };
        if e.window != top_id {
            return None;
        }
        let name = calc_window_display(&self.displays, e.x, e.y, e.width, e.height);
        if name == *display {
            return None;
        }
        let context = match which {
            Slot::Active => WindowContext::Active,
            Slot::Pointer => WindowContext::Pointer,
        };
        Some(self.update_window(context, XUpdateProp::Display(name)))
    }

    /// The monitors were enumerated again.
    pub fn set_displays(&mut self, displays: Vec<XDisplay>)
        ensures
            *final(self) == (Tracker { displays, ..*old(self) }),
    {
        self.displays = displays;
    }

    /// The earliest time a held-back geometry change falls due.
    pub fn next_deadline(&self) -> (r: Option<u64>)
        ensures
            r == (match (self.active_moves.due(), self.pointer_moves.due()) {
                (Some(a), Some(p)) => Some(
                    if a <= p {
                        a
                    } else {
                        p
                    },
                ),
                (Some(a), None) => Some(a),
                (None, Some(p)) => Some(p),
                (None, None) => None,
            }),
    {
        match (self.active_moves.deadline(), self.pointer_moves.deadline()) {
            (Some(a), Some(p)) => Some(
                if a <= p {
                    a
                } else {
                    p
                },
            ),
            (Some(a), None) => Some(a),
            (None, Some(p)) => Some(p),
            (None, None) => None,
        }
    }
}

/// Whether the change would give the window's field another value.
fn changes(w: &XWindow, p: &XUpdateProp) -> (r: bool)
    ensures
        r == w@.changes(p@),
{
    match p {
        XUpdateProp::Title(s) => !(w.title == *s),
        XUpdateProp::State(s) => w.state != *s,
        XUpdateProp::Role(s) => !(w.role == *s),
        XUpdateProp::Display(s) => !(w.display == *s),
    }
}

/// Where the two contexts hold the same window, every field change is
/// published for both records; the service accepts it and emits both change
/// signals from that one call.
pub proof fn lemma_coincident_update_reaches_both(
    t: Tracker,
    c: WindowContext,
    p: XUpdateView,
    cache: (WindowRecord, WindowRecord),
)
    requires
        t.active_window.id == t.pointer_window.id,
    ensures
        t.promoted(c) == WindowContext::Both,
        t.update_records(t.promoted(c), p) == (t.active_window@.applied(p), t.pointer_window@.applied(p)),
        update_result(cache, t.promoted(c), prop_key(update_key(p)), update_text(p)).1 == Ok::<
            Signals,
            InvalidArgs,
        >(Signals { active: true, pointer: true }),
{
    lemma_key_round_trip(update_key(p));
    if let XUpdateView::State(st) = p {
        lemma_state_round_trip(st);
    }
}

} // verus!
