//! What the X11 tracker knows of one window, and how it is read from the
//! raw property values that the X server hands back.
use vstd::prelude::*;
use vstd::utf8::{decode_utf8, valid_utf8};
use crate::display::{affinity_name, calc_window_display, XDisplay};
use crate::text::{contains_u32, decimal, decimal_text, push_char, utf8_text};
use crate::types::{state_text, WindowDict, WindowProp, WindowRecord, WindowState, WindowType};

verus! {

/// The atoms the tracker compares property names and values against.
#[derive(Clone, Copy, Debug)]
pub struct Atoms {
    pub utf8_string: u32,
    pub active_window: u32,
    pub wm_name: u32,
    pub wm_pid: u32,
    pub wm_state: u32,
    pub wm_state_maximized_horz: u32,
    pub wm_state_maximized_vert: u32,
    pub wm_state_fullscreen: u32,
    pub wm_window_role: u32,
    pub wm_window_type: u32,
}

/// The atoms of the window types, one per type.
#[derive(Clone, Copy, Debug)]
pub struct TypeAtoms {
    pub combo: u32,
    pub desktop: u32,
    pub dialog: u32,
    pub dnd: u32,
    pub dock: u32,
    pub dropdown_menu: u32,
    pub menu: u32,
    pub normal: u32,
    pub notification: u32,
    pub popup_menu: u32,
    pub splash: u32,
    pub toolbar: u32,
    pub tooltip: u32,
    pub utility: u32,
}

/// The type an atom names; `Unset` for an atom of no known type.
pub open spec fn type_of_atom(t: TypeAtoms, a: u32) -> WindowType {
    if a == t.combo {
        WindowType::Combo
    } else if a == t.desktop {
        WindowType::Desktop
    } else if a == t.dialog {
        WindowType::Dialog
    } else if a == t.dnd {
        WindowType::DND
    } else if a == t.dock {
        WindowType::Dock
    } else if a == t.dropdown_menu {
        WindowType::DropdownMenu
    } else if a == t.menu {
        WindowType::Menu
    } else if a == t.normal {
        WindowType::Normal
    } else if a == t.notification {
        WindowType::Notification
    } else if a == t.popup_menu {
        WindowType::PopupMenu
    } else if a == t.splash {
        WindowType::Splash
    } else if a == t.toolbar {
        WindowType::Toolbar
    } else if a == t.tooltip {
        WindowType::Tooltip
    } else if a == t.utility {
        WindowType::Utility
    } else {
        WindowType::Unset
    }
}

impl TypeAtoms {
    pub fn type_of(&self, a: u32) -> (r: WindowType)
        ensures
            r == type_of_atom(*self, a),
    {
        if a == self.combo {
            WindowType::Combo
        } else if a == self.desktop {
            WindowType::Desktop
        } else if a == self.dialog {
            WindowType::Dialog
        } else if a == self.dnd {
            WindowType::DND
        } else if a == self.dock {
            WindowType::Dock
        } else if a == self.dropdown_menu {
            WindowType::DropdownMenu
        } else if a == self.menu {
            WindowType::Menu
        } else if a == self.normal {
            WindowType::Normal
        } else if a == self.notification {
            WindowType::Notification
        } else if a == self.popup_menu {
            WindowType::PopupMenu
        } else if a == self.splash {
            WindowType::Splash
        } else if a == self.toolbar {
            WindowType::Toolbar
        } else if a == self.tooltip {
            WindowType::Tooltip
        } else if a == self.utility {
            WindowType::Utility
        } else {
            WindowType::Unset
        }
    }
}

/// The type published for a window: `Normal` where it has no type
/// property, otherwise what its first atom names.
pub open spec fn window_type_of(t: TypeAtoms, first_atom: Option<u32>) -> WindowType {
    match first_atom {
        None => WindowType::Normal,
        Some(a) => type_of_atom(t, a),
    }
}

/// The state that a `_NET_WM_STATE` atom list describes.
pub open spec fn state_of_atoms(a: Atoms, states: Seq<u32>) -> WindowState {
    if states.contains(a.wm_state_fullscreen) {
        WindowState::Fullscreen
    } else if states.contains(a.wm_state_maximized_horz) && states.contains(a.wm_state_maximized_vert) {
        WindowState::Maximized
    } else {
        WindowState::Normal
    }
}

/// The state published for a window; a missing property reads as `Normal`.
pub open spec fn window_state_of(a: Atoms, states: Option<Seq<u32>>) -> WindowState {
    match states {
        None => WindowState::Normal,
        Some(s) => state_of_atoms(a, s),
    }
}

impl Atoms {
    /// Fullscreen if the fullscreen atom is listed; maximized if it is not
    /// and both maximized atoms are; normal otherwise.
    pub fn state_of(&self, states: &Vec<u32>) -> (r: WindowState)
        ensures
            r == state_of_atoms(*self, states@),
    {
        if contains_u32(states, self.wm_state_fullscreen) {
            WindowState::Fullscreen
        } else if contains_u32(states, self.wm_state_maximized_horz) && contains_u32(
            states,
            self.wm_state_maximized_vert,
        ) {
            WindowState::Maximized
        } else {
            WindowState::Normal
        }
    }

    pub fn window_state(&self, states: &Option<Vec<u32>>) -> (r: WindowState)
        ensures
            r == window_state_of(
                *self,
                match states {
                    Some(v) => Some(v@),
                    None => None,
                },
            ),
    {
        match states {
            Some(v) => self.state_of(v),
            None => WindowState::Normal,
        }
    }
}

/// The text of a string property: empty where it is absent or not UTF-8.
pub open spec fn prop_text(b: Option<Seq<u8>>) -> Seq<char> {
    match b {
        Some(bytes) => if valid_utf8(bytes) {
            decode_utf8(bytes)
        } else {
            Seq::empty()
        },
        None => Seq::empty(),
    }
}

pub open spec fn bytes_view(b: Option<Vec<u8>>) -> Option<Seq<u8>> {
    match b {
        Some(v) => Some(v@),
        None => None,
    }
}

pub fn property_text(b: &Option<Vec<u8>>) -> (r: String)
    ensures
        r@ == prop_text(bytes_view(*b)),
{
    match b {
        Some(v) => match utf8_text(v.as_slice()) {
            Some(s) => s,
            None => String::new(),
        },
        None => String::new(),
    }
}

/// Lower-case ASCII letters, spaces turned into dashes.
pub open spec fn token_char(c: char) -> char {
    if 'A' <= c <= 'Z' {
        ((c as int) + 32) as char
    } else if c == ' ' {
        '-'
    } else {
        c
    }
}

pub open spec fn token_of(s: Seq<char>) -> Seq<char> {
    s.map_values(|c: char| token_char(c))
}

/// No upper-case ASCII letter and no space.
pub open spec fn is_token(s: Seq<char>) -> bool {
    forall|i: int| 0 <= i < s.len() ==> !('A' <= #[trigger] s[i] <= 'Z') && s[i] != ' '
}

proof fn lemma_token_of_is_token(s: Seq<char>)
    ensures
        is_token(token_of(s)),
{
    assert forall|i: int| 0 <= i < token_of(s).len() implies !('A' <= #[trigger] token_of(s)[i] <= 'Z')
        && token_of(s)[i] != ' ' by {
        let c = s[i];
        if 'A' <= c <= 'Z' {
            assert((((c as int) + 32) as char) as int == (c as int) + 32);
        }
    }
}

fn token(s: &String) -> (r: String)
    ensures
        r@ == token_of(s@),
        is_token(r@),
{
    let n = s.as_str().unicode_len();
    let mut out = String::new();
    let mut i: usize = 0;
    while i < n
        invariant
            n == s@.len(),
            i <= n,
            out@ == token_of(s@.subrange(0, i as int)),
        decreases n - i,
    {
        let c = s.as_str().get_char(i);
        let t = if 'A' <= c && c <= 'Z' {
            ((c as u32 + 32) as u8) as char
        } else if c == ' ' {
            '-'
        } else {
            c
        };
        assert(t == token_char(c));
        push_char(&mut out, t);
        assert(token_of(s@.subrange(0, i + 1)) =~= token_of(s@.subrange(0, i as int)).push(t));
        i = i + 1;
    }
    assert(s@.subrange(0, n as int) =~= s@);
    proof {
        lemma_token_of_is_token(s@);
    }
    out
}

/// The first index at or after `start` that holds a zero byte, or the length.
pub open spec fn next_zero(b: Seq<u8>, start: int) -> int
    decreases b.len() - start,
{
    if start >= b.len() {
        b.len() as int
    } else if b[start] == 0 {
        start
    } else {
        next_zero(b, start + 1)
    }
}

/// The window's instance and class names, read from its `WM_CLASS` value:
/// two strings, each ending at a zero byte (the second may also end with
/// the value). `None` where there is no zero byte or either is not UTF-8.
pub open spec fn wm_class_of(b: Seq<u8>) -> Option<(Seq<char>, Seq<char>)> {
    let sep = next_zero(b, 0);
    let end = next_zero(b, sep + 1);
    if sep >= b.len() {
        None
    } else if !valid_utf8(b.subrange(0, sep)) || !valid_utf8(b.subrange(sep + 1, end)) {
        None
    } else {
        Some((token_of(decode_utf8(b.subrange(0, sep))), token_of(decode_utf8(b.subrange(sep + 1, end)))))
    }
}

/// A window that carries a class: the "app window" an event is about.
#[derive(Clone, Debug)]
pub struct WindowMatch {
    pub id: u32,
    pub name: String,
    pub class: String,
}

fn find_zero(b: &[u8], start: usize) -> (r: usize)
    requires
        start <= b@.len(),
    ensures
        r == next_zero(b@, start as int),
        start <= r <= b@.len(),
    decreases b@.len() - start,
{
    if start >= b.len() {
        b.len()
    } else if b[start] == 0 {
        start
    } else {
        find_zero(b, start + 1)
    }
}

fn slice_vec(b: &[u8], from: usize, to: usize) -> (r: Vec<u8>)
    requires
        from <= to <= b@.len(),
    ensures
        r@ == b@.subrange(from as int, to as int),
{
    let mut v: Vec<u8> = Vec::new();
    let mut i: usize = from;
    while i < to
        invariant
            from <= i <= to,
            to <= b@.len(),
            v@ == b@.subrange(from as int, i as int),
        decreases to - i,
    {
        v.push(b[i]);
        assert(b@.subrange(from as int, i + 1) =~= b@.subrange(from as int, i as int).push(b[i as int]));
        i = i + 1;
    }
    v
}

/// Reads the `WM_CLASS` value of window `id`; see `wm_class_of`. Both
/// names come out lower-case with dashes for spaces.
pub fn parse_wm_class(id: u32, value: &[u8]) -> (r: Option<WindowMatch>)
    ensures
        match wm_class_of(value@) {
            Some((name, class)) => r matches Some(m) && m.id == id && m.name@ == name && m.class@ == class,
            None => r is None,
        },
        r matches Some(m) ==> is_token(m.name@) && is_token(m.class@),
{
    let sep = find_zero(value, 0);
    if sep >= value.len() {
        return None;
    }
    let end = find_zero(value, sep + 1);
    let name_bytes = slice_vec(value, 0, sep);
    let class_bytes = slice_vec(value, sep + 1, end);
    let name = match utf8_text(name_bytes.as_slice()) {
        Some(s) => s,
        None => {
            return None;
        },
    };
    let class = match utf8_text(class_bytes.as_slice()) {
        Some(s) => s,
        None => {
            return None;
        },
    };
    Some(WindowMatch { id, name: token(&name), class: token(&class) })
}

/// A non-empty `WM_CLASS` value marks an app window: the window-tree walk
/// that installs event masks goes no deeper.
pub fn is_app_window(class_value: &[u8]) -> (r: bool)
    ensures
        r == (class_value@.len() > 0),
{
    class_value.len() > 0
}

/// The cascade of event masks goes below a window only when its mask was
/// installed and it carries no class.
pub fn cascade_descends(mask_installed: bool, class_value: &Option<Vec<u8>>) -> (r: bool)
    ensures
        r == (mask_installed && !(class_value matches Some(b) && b@.len() > 0)),
{
    if !mask_installed {
        return false;
    }
    match class_value {
        Some(b) => !is_app_window(b.as_slice()),
        None => true,
    }
}

/// What a visit of the walk that looks for an app window finds.
#[derive(Clone, Debug)]
pub enum ResolveStep {
    /// The window carries a class: the walk is over.
    Found(WindowMatch),
    /// Look below the window.
    Descend,
}

/// A visit of `node` with its `WM_CLASS` value, when looking for the app
/// window under an event's window.
pub fn resolve_step(node: u32, class_value: &Option<Vec<u8>>) -> (r: ResolveStep)
    ensures
        match bytes_view(*class_value) {
            Some(b) => match wm_class_of(b) {
                Some((name, class)) => r matches ResolveStep::Found(m) && m.id == node && m.name@ == name
                    && m.class@ == class,
                None => r is Descend,
            },
            None => r is Descend,
        },
{
    match class_value {
        Some(b) => match parse_wm_class(node, b.as_slice()) {
            Some(m) => ResolveStep::Found(m),
            None => ResolveStep::Descend,
        },
        None => ResolveStep::Descend,
    }
}

/// A window rectangle in root coordinates.
#[derive(Clone, Copy, Debug, PartialEq, Eq, Structural)]
pub struct Rect {
    pub x: i16,
    pub y: i16,
    pub w: u16,
    pub h: u16,
}

/// The property values fetched for a window, as the server gave them;
/// `None` where a property is absent or could not be read.
#[derive(Clone, Debug)]
pub struct RawAttributes {
    /// First value of `_NET_WM_PID`.
    pub pid: Option<u32>,
    /// `_NET_WM_NAME` bytes.
    pub title: Option<Vec<u8>>,
    /// First atom of `_NET_WM_WINDOW_TYPE`.
    pub type_atom: Option<u32>,
    /// `WM_WINDOW_ROLE` bytes.
    pub role: Option<Vec<u8>>,
    /// The atoms of `_NET_WM_STATE`.
    pub states: Option<Vec<u32>>,
    /// The window's geometry, translated to root coordinates.
    pub geometry: Option<Rect>,
}

/// The tracker's record of a window.
#[derive(Clone, Debug)]
pub struct XWindow {
    pub id: u32,
    /// The top-level ancestor that geometry changes are reported for.
    pub top_id: u32,
    pub name: String,
    pub class: String,
    pub pid: u32,
    pub title: String,
    pub window_type: WindowType,
    pub role: String,
    pub state: WindowState,
    pub display: String,
}

/// A field change of a tracked window.
#[derive(Clone, Debug)]
pub enum XUpdateProp {
    Title(String),
    State(WindowState),
    Role(String),
    Display(String),
}

pub enum XUpdateView {
    Title(Seq<char>),
    State(WindowState),
    Role(Seq<char>),
    Display(Seq<char>),
}

impl View for XUpdateProp {
    type V = XUpdateView;

    open spec fn view(&self) -> XUpdateView {
        match self {
            XUpdateProp::Title(s) => XUpdateView::Title(s@),
            XUpdateProp::State(s) => XUpdateView::State(*s),
            XUpdateProp::Role(s) => XUpdateView::Role(s@),
            XUpdateProp::Display(s) => XUpdateView::Display(s@),
        }
    }
}

pub open spec fn update_key(p: XUpdateView) -> WindowProp {
    match p {
        XUpdateView::Title(_) => WindowProp::Title,
        XUpdateView::State(_) => WindowProp::State,
        XUpdateView::Role(_) => WindowProp::Role,
        XUpdateView::Display(_) => WindowProp::Display,
    }
}

/// The published text of a field change.
pub open spec fn update_text(p: XUpdateView) -> Seq<char> {
    match p {
        XUpdateView::Title(s) => s,
        XUpdateView::State(s) => state_text(s),
        XUpdateView::Role(s) => s,
        XUpdateView::Display(s) => s,
    }
}

/// The abstract content of a tracked window.
pub struct XWindowView {
    pub id: u32,
    pub top_id: u32,
    pub name: Seq<char>,
    pub class: Seq<char>,
    pub pid: u32,
    pub title: Seq<char>,
    pub window_type: WindowType,
    pub role: Seq<char>,
    pub state: WindowState,
    pub display: Seq<char>,
}

impl View for XWindow {
    type V = XWindowView;

    open spec fn view(&self) -> XWindowView {
        XWindowView {
            id: self.id,
            top_id: self.top_id,
            name: self.name@,
            class: self.class@,
            pid: self.pid,
            title: self.title@,
            window_type: self.window_type,
            role: self.role@,
            state: self.state,
            display: self.display@,
        }
    }
}

/// No tracked window.
pub open spec fn empty_window() -> XWindowView {
    XWindowView {
        id: 0,
        top_id: 0,
        name: Seq::empty(),
        class: Seq::empty(),
        pid: 0,
        title: Seq::empty(),
        window_type: WindowType::Unset,
        role: Seq::empty(),
        state: WindowState::Unset,
        display: Seq::empty(),
    }
}

impl XWindowView {
    /// The window after a field change.
    pub open spec fn applied(self, p: XUpdateView) -> XWindowView {
        match p {
            XUpdateView::Title(s) => XWindowView { title: s, ..self },
            XUpdateView::State(s) => XWindowView { state: s, ..self },
            XUpdateView::Role(s) => XWindowView { role: s, ..self },
            XUpdateView::Display(s) => XWindowView { display: s, ..self },
        }
    }

    /// The change would give the field another value.
    pub open spec fn changes(self, p: XUpdateView) -> bool {
        self.applied(p) != self
    }
}

/// The display of a window at `geometry`; empty where it is unknown.
pub open spec fn display_of(ds: Seq<XDisplay>, geometry: Option<Rect>) -> Seq<char> {
    match geometry {
        Some(g) => affinity_name(ds, g.x as int, g.y as int, g.w as int, g.h as int),
        None => Seq::empty(),
    }
}

pub fn window_display(displays: &Vec<XDisplay>, geometry: Option<Rect>) -> (r: String)
    ensures
        r@ == display_of(displays@, geometry),
{
    match geometry {
        Some(g) => calc_window_display(displays, g.x, g.y, g.w, g.h),
        None => String::new(),
    }
}

impl XUpdateProp {
    pub fn duplicate(&self) -> (r: XUpdateProp)
        ensures
            r == *self,
    {
        match self {
            XUpdateProp::Title(s) => XUpdateProp::Title(s.clone()),
            XUpdateProp::State(s) => XUpdateProp::State(*s),
            XUpdateProp::Role(s) => XUpdateProp::Role(s.clone()),
            XUpdateProp::Display(s) => XUpdateProp::Display(s.clone()),
        }
    }
}

/// The record published for a tracked window.
pub open spec fn record_of(w: XWindowView) -> WindowRecord {
    WindowRecord {
        id: decimal_text(w.id as nat),
        name: w.name,
        class: w.class,
        pid: w.pid,
        title: w.title,
        window_type: w.window_type,
        role: w.role,
        state: w.state,
        display: w.display,
    }
}

impl XWindow {
    pub fn empty() -> (r: XWindow)
        ensures
            r@ == empty_window(),
    {
        XWindow {
            id: 0,
            top_id: 0,
            name: String::new(),
            class: String::new(),
            pid: 0,
            title: String::new(),
            window_type: WindowType::Unset,
            role: String::new(),
            state: WindowState::Unset,
            display: String::new(),
        }
    }

    pub fn duplicate(&self) -> (r: XWindow)
        ensures
            r == *self,
    {
        XWindow {
            id: self.id,
            top_id: self.top_id,
            name: self.name.clone(),
            class: self.class.clone(),
            pid: self.pid,
            title: self.title.clone(),
            window_type: self.window_type,
            role: self.role.clone(),
            state: self.state,
            display: self.display.clone(),
        }
    }

    /// The window that `found` names, under top-level window `top_id`, with
    /// the attributes fetched for it. A match of id 0 gives the empty record.
    pub fn new(
        found: WindowMatch,
        top_id: u32,
        raw: &RawAttributes,
        atoms: &Atoms,
        types: &TypeAtoms,
        displays: &Vec<XDisplay>,
    ) -> (r: XWindow)
        ensures
            found.id == 0 ==> r@ == empty_window(),
            found.id != 0 ==> {
                &&& r.id == found.id
                &&& r.top_id == top_id
                &&& r.name@ == found.name@
                &&& r.class@ == found.class@
                &&& r.pid == (match raw.pid {
                    Some(p) => p,
                    None => 0,
                })
                &&& r.title@ == prop_text(bytes_view(raw.title))
                &&& r.window_type == window_type_of(*types, raw.type_atom)
                &&& r.role@ == prop_text(bytes_view(raw.role))
                &&& r.state == window_state_of(
                    *atoms,
                    match raw.states {
                        Some(v) => Some(v@),
                        None => None,
                    },
                )
                &&& r.display@ == display_of(displays@, raw.geometry)
            },
    {
        if found.id == 0 {
            return XWindow::empty();
        }
        let window_type = match raw.type_atom {
            Some(a) => types.type_of(a),
            None => WindowType::Normal,
        };
        XWindow {
            id: found.id,
            top_id,
            name: found.name,
            class: found.class,
            pid: match raw.pid {
                Some(p) => p,
                None => 0,
            },
            title: property_text(&raw.title),
            window_type,
            role: property_text(&raw.role),
            state: atoms.window_state(&raw.states),
            display: window_display(displays, raw.geometry),
        }
    }

    /// The record as published; the id is written in decimal.
    pub fn as_dict(&self) -> (r: WindowDict)
        ensures
            r@ == record_of(self@),
    {
        WindowDict {
            id: decimal(self.id),
            name: self.name.clone(),
            class: self.class.clone(),
            pid: self.pid,
            title: self.title.clone(),
            window_type: self.window_type,
            role: self.role.clone(),
            state: self.state,
            display: self.display.clone(),
        }
    }

    /// Applies a field change; gives back the field and its published text.
    pub fn update(&mut self, p: XUpdateProp) -> (r: (WindowProp, String))
        ensures
            final(self)@ == old(self)@.applied(p@),
            r.0 == update_key(p@),
            r.1@ == update_text(p@),
    {
        match p {
            XUpdateProp::Title(s) => {
                let v = s.clone();
                self.title = s;
                (WindowProp::Title, v)
            },
            XUpdateProp::State(s) => {
                self.state = s;
                (WindowProp::State, crate::text::owned(s.as_str()))
            },
            XUpdateProp::Role(s) => {
                let v = s.clone();
                self.role = s;
                (WindowProp::Role, v)
            },
            XUpdateProp::Display(s) => {
                let v = s.clone();
                self.display = s;
                (WindowProp::Display, v)
            },
        }
    }
}

/// Every published name and class is a token: no upper-case ASCII letter
/// and no space.
pub proof fn lemma_wm_class_tokens(b: Seq<u8>)
    ensures
        wm_class_of(b) matches Some((name, class)) ==> is_token(name) && is_token(class),
{
    if let Some((name, class)) = wm_class_of(b) {
        let sep = next_zero(b, 0);
        let end = next_zero(b, sep + 1);
        lemma_token_of_is_token(decode_utf8(b.subrange(0, sep)));
        lemma_token_of_is_token(decode_utf8(b.subrange(sep + 1, end)));
    }
}

} // verus!
