//! The window record, its enumerations, and the property bag it travels in.
use vstd::prelude::*;
use crate::text::{owned, parse_u32, text_eq, u32_of_text};

verus! {

/// Which of the two published records a change is meant for.
#[derive(Clone, Copy, Debug, PartialEq, Eq, Structural)]
pub enum WindowContext {
    Both,
    Active,
    Pointer,
}

/// The nine fields of a window record.
#[derive(Clone, Copy, Debug, PartialEq, Eq, Structural)]
pub enum WindowProp {
    ID,
    Name,
    Class,
    PID,
    Title,
    Type,
    Role,
    State,
    Display,
}

#[derive(Clone, Copy, Debug, PartialEq, Eq, Structural)]
pub enum WindowType {
    /// No type: published as empty text.
    Unset,
    Normal,
    Combo,
    Desktop,
    Dialog,
    DND,
    Dock,
    DropdownMenu,
    Menu,
    Notification,
    PopupMenu,
    Splash,
    Toolbar,
    Tooltip,
    Utility,
    Override,
}

#[derive(Clone, Copy, Debug, PartialEq, Eq, Structural)]
pub enum WindowState {
    /// No state: published as empty text.
    Unset,
    Normal,
    Maximized,
    Fullscreen,
}

pub open spec fn context_text(c: WindowContext) -> Seq<char> {
    match c {
        WindowContext::Both => "both"@,
        WindowContext::Active => "active"@,
        WindowContext::Pointer => "pointer"@,
    }
}

pub open spec fn context_of_text(s: Seq<char>) -> Option<WindowContext> {
    if s == "both"@ {
        Some(WindowContext::Both)
    } else if s == "active"@ {
        Some(WindowContext::Active)
    } else if s == "pointer"@ {
        Some(WindowContext::Pointer)
    } else {
        None
    }
}

impl WindowContext {
    pub fn as_str(&self) -> (r: &'static str)
        ensures
            r@ == context_text(*self),
    {
        match self {
            WindowContext::Both => "both",
            WindowContext::Active => "active",
            WindowContext::Pointer => "pointer",
        }
    }

    pub fn from_text(s: &str) -> (r: Option<WindowContext>)
        ensures
            r == context_of_text(s@),
    {
        if text_eq(s, "both") {
            Some(WindowContext::Both)
        } else if text_eq(s, "active") {
            Some(WindowContext::Active)
        } else if text_eq(s, "pointer") {
            Some(WindowContext::Pointer)
        } else {
            None
        }
    }
}

/// The key under which a field is published.
pub open spec fn prop_key(p: WindowProp) -> Seq<char> {
    match p {
        WindowProp::ID => "id"@,
        WindowProp::Name => "name"@,
        WindowProp::Class => "class"@,
        WindowProp::PID => "pid"@,
        WindowProp::Title => "title"@,
        WindowProp::Type => "type"@,
        WindowProp::Role => "role"@,
        WindowProp::State => "state"@,
        WindowProp::Display => "display"@,
    }
}

pub open spec fn prop_of_key(s: Seq<char>) -> Option<WindowProp> {
    if s == "id"@ {
        Some(WindowProp::ID)
    } else if s == "name"@ {
        Some(WindowProp::Name)
    } else if s == "class"@ {
        Some(WindowProp::Class)
    } else if s == "pid"@ {
        Some(WindowProp::PID)
    } else if s == "title"@ {
        Some(WindowProp::Title)
    } else if s == "type"@ {
        Some(WindowProp::Type)
    } else if s == "role"@ {
        Some(WindowProp::Role)
    } else if s == "state"@ {
        Some(WindowProp::State)
    } else if s == "display"@ {
        Some(WindowProp::Display)
    } else {
        None
    }
}

impl WindowProp {
    pub fn as_str(&self) -> (r: &'static str)
        ensures
            r@ == prop_key(*self),
    {
        match self {
            WindowProp::ID => "id",
            WindowProp::Name => "name",
            WindowProp::Class => "class",
            WindowProp::PID => "pid",
            WindowProp::Title => "title",
            WindowProp::Type => "type",
            WindowProp::Role => "role",
            WindowProp::State => "state",
            WindowProp::Display => "display",
        }
    }

    pub fn from_key(s: &str) -> (r: Option<WindowProp>)
        ensures
            r == prop_of_key(s@),
    {
        if text_eq(s, "id") {
            Some(WindowProp::ID)
        } else if text_eq(s, "name") {
            Some(WindowProp::Name)
        } else if text_eq(s, "class") {
            Some(WindowProp::Class)
        } else if text_eq(s, "pid") {
            Some(WindowProp::PID)
        } else if text_eq(s, "title") {
            Some(WindowProp::Title)
        } else if text_eq(s, "type") {
            Some(WindowProp::Type)
        } else if text_eq(s, "role") {
            Some(WindowProp::Role)
        } else if text_eq(s, "state") {
            Some(WindowProp::State)
        } else if text_eq(s, "display") {
            Some(WindowProp::Display)
        } else {
            None
        }
    }
}

pub open spec fn type_text(t: WindowType) -> Seq<char> {
    match t {
        WindowType::Unset => ""@,
        WindowType::Normal => "NORMAL"@,
        WindowType::Combo => "COMBO"@,
        WindowType::Desktop => "DESKTOP"@,
        WindowType::Dialog => "DIALOG"@,
        WindowType::DND => "DND"@,
        WindowType::Dock => "DOCK"@,
        WindowType::DropdownMenu => "DROPDOWN_MENU"@,
        WindowType::Menu => "MENU"@,
        WindowType::Notification => "NOTIFICATION"@,
        WindowType::PopupMenu => "POPUP_MENU"@,
        WindowType::Splash => "SPLASH"@,
        WindowType::Toolbar => "TOOLBAR"@,
        WindowType::Tooltip => "TOOLTIP"@,
        WindowType::Utility => "UTILITY"@,
        WindowType::Override => "OVERRIDE"@,
    }
}

pub open spec fn type_of_text(s: Seq<char>) -> Option<WindowType> {
    if s == ""@ {
        Some(WindowType::Unset)
    } else if s == "NORMAL"@ {
        Some(WindowType::Normal)
    } else if s == "COMBO"@ {
        Some(WindowType::Combo)
    } else if s == "DESKTOP"@ {
        Some(WindowType::Desktop)
    } else if s == "DIALOG"@ {
        Some(WindowType::Dialog)
    } else if s == "DND"@ {
        Some(WindowType::DND)
    } else if s == "DOCK"@ {
        Some(WindowType::Dock)
    } else if s == "DROPDOWN_MENU"@ {
        Some(WindowType::DropdownMenu)
    } else if s == "MENU"@ {
        Some(WindowType::Menu)
    } else if s == "NOTIFICATION"@ {
        Some(WindowType::Notification)
    } else if s == "POPUP_MENU"@ {
        Some(WindowType::PopupMenu)
    } else if s == "SPLASH"@ {
        Some(WindowType::Splash)
    } else if s == "TOOLBAR"@ {
        Some(WindowType::Toolbar)
    } else if s == "TOOLTIP"@ {
        Some(WindowType::Tooltip)
    } else if s == "UTILITY"@ {
        Some(WindowType::Utility)
    } else if s == "OVERRIDE"@ {
        Some(WindowType::Override)
    } else {
        None
    }
}

impl WindowType {
    pub fn as_str(&self) -> (r: &'static str)
        ensures
            r@ == type_text(*self),
    {
        match self {
            WindowType::Unset => "",
            WindowType::Normal => "NORMAL",
            WindowType::Combo => "COMBO",
            WindowType::Desktop => "DESKTOP",
            WindowType::Dialog => "DIALOG",
            WindowType::DND => "DND",
            WindowType::Dock => "DOCK",
            WindowType::DropdownMenu => "DROPDOWN_MENU",
            WindowType::Menu => "MENU",
            WindowType::Notification => "NOTIFICATION",
            WindowType::PopupMenu => "POPUP_MENU",
            WindowType::Splash => "SPLASH",
            WindowType::Toolbar => "TOOLBAR",
            WindowType::Tooltip => "TOOLTIP",
            WindowType::Utility => "UTILITY",
            WindowType::Override => "OVERRIDE",
        }
    }

    pub fn from_text(s: &str) -> (r: Option<WindowType>)
        ensures
            r == type_of_text(s@),
    {
        if text_eq(s, "") {
            Some(WindowType::Unset)
        } else if text_eq(s, "NORMAL") {
            Some(WindowType::Normal)
        } else if text_eq(s, "COMBO") {
            Some(WindowType::Combo)
        } else if text_eq(s, "DESKTOP") {
            Some(WindowType::Desktop)
        } else if text_eq(s, "DIALOG") {
            Some(WindowType::Dialog)
        } else if text_eq(s, "DND") {
            Some(WindowType::DND)
        } else if text_eq(s, "DOCK") {
            Some(WindowType::Dock)
        } else if text_eq(s, "DROPDOWN_MENU") {
            Some(WindowType::DropdownMenu)
        } else if text_eq(s, "MENU") {
            Some(WindowType::Menu)
        } else if text_eq(s, "NOTIFICATION") {
            Some(WindowType::Notification)
        } else if text_eq(s, "POPUP_MENU") {
            Some(WindowType::PopupMenu)
        } else if text_eq(s, "SPLASH") {
            Some(WindowType::Splash)
        } else if text_eq(s, "TOOLBAR") {
            Some(WindowType::Toolbar)
        } else if text_eq(s, "TOOLTIP") {
            Some(WindowType::Tooltip)
        } else if text_eq(s, "UTILITY") {
            Some(WindowType::Utility)
        } else if text_eq(s, "OVERRIDE") {
            Some(WindowType::Override)
        } else {
            None
        }
    }
}

pub open spec fn state_text(s: WindowState) -> Seq<char> {
    match s {
        WindowState::Unset => ""@,
        WindowState::Normal => "NORMAL"@,
        WindowState::Maximized => "MAXIMIZED"@,
        WindowState::Fullscreen => "FULLSCREEN"@,
    }
}

pub open spec fn state_of_text(s: Seq<char>) -> Option<WindowState> {
    if s == ""@ {
        Some(WindowState::Unset)
    } else if s == "NORMAL"@ {
        Some(WindowState::Normal)
    } else if s == "MAXIMIZED"@ {
        Some(WindowState::Maximized)
    } else if s == "FULLSCREEN"@ {
        Some(WindowState::Fullscreen)
    } else {
        None
    }
}

impl WindowState {
    pub fn as_str(&self) -> (r: &'static str)
        ensures
            r@ == state_text(*self),
    {
        match self {
            WindowState::Unset => "",
            WindowState::Normal => "NORMAL",
            WindowState::Maximized => "MAXIMIZED",
            WindowState::Fullscreen => "FULLSCREEN",
        }
    }

    pub fn from_text(s: &str) -> (r: Option<WindowState>)
        ensures
            r == state_of_text(s@),
    {
        if text_eq(s, "") {
            Some(WindowState::Unset)
        } else if text_eq(s, "NORMAL") {
            Some(WindowState::Normal)
        } else if text_eq(s, "MAXIMIZED") {
            Some(WindowState::Maximized)
        } else if text_eq(s, "FULLSCREEN") {
            Some(WindowState::Fullscreen)
        } else {
            None
        }
    }
}

/// What a process-id field holds when it is given as text: empty text
/// stands for zero.
pub open spec fn pid_of_text(s: Seq<char>) -> Option<u32> {
    if s.len() == 0 {
        Some(0)
    } else {
        u32_of_text(s)
    }
}

/// The reason a parse of a process id failed.
#[derive(Clone, Copy, Debug, PartialEq, Eq, Structural)]
pub struct IntegerError;

pub fn parse_int_string(value: &str) -> (r: Result<u32, IntegerError>)
    ensures
        r is Ok <==> pid_of_text(value@) is Some,
        r is Ok ==> r->Ok_0 == pid_of_text(value@)->0,
{
    if value.is_empty() {
        Ok(0)
    } else {
        match parse_u32(value) {
            Some(n) => Ok(n),
            None => Err(IntegerError),
        }
    }
}

/// The abstract content of a window record.
pub struct WindowRecord {
    pub id: Seq<char>,
    pub name: Seq<char>,
    pub class: Seq<char>,
    pub pid: u32,
    pub title: Seq<char>,
    pub window_type: WindowType,
    pub role: Seq<char>,
    pub state: WindowState,
    pub display: Seq<char>,
}

/// The record of "no tracked window".
pub open spec fn empty_record() -> WindowRecord {
    WindowRecord {
        id: Seq::empty(),
        name: Seq::empty(),
        class: Seq::empty(),
        pid: 0,
        title: Seq::empty(),
        window_type: WindowType::Unset,
        role: Seq::empty(),
        state: WindowState::Unset,
        display: Seq::empty(),
    }
}

/// Why a set of arguments was refused.
#[derive(Clone, Copy, Debug, PartialEq, Eq, Structural)]
pub enum InvalidArgs {
    /// The field's value was not a string.
    NotText(WindowProp),
    /// The field's value was not an integer.
    NotInteger(WindowProp),
    /// The field's value names no variant of its enumeration.
    NotVariant(WindowProp),
    /// The key names no field.
    UnknownKey,
    /// A record to set lacks this field.
    MissingKey(WindowProp),
}

/// The error that a text value for `p` gets when it cannot be read.
pub open spec fn text_value_error(p: WindowProp) -> InvalidArgs {
    match p {
        WindowProp::PID => InvalidArgs::NotInteger(p),
        _ => InvalidArgs::NotVariant(p),
    }
}

impl WindowRecord {
    /// The record with field `key` set from the text `value`, or `None` where
    /// the text is no valid value of that field.
    pub open spec fn updated(self, key: WindowProp, value: Seq<char>) -> Option<WindowRecord> {
        match key {
            WindowProp::ID => Some(WindowRecord { id: value, ..self }),
            WindowProp::Name => Some(WindowRecord { name: value, ..self }),
            WindowProp::Class => Some(WindowRecord { class: value, ..self }),
            WindowProp::PID => match pid_of_text(value) {
                Some(n) => Some(WindowRecord { pid: n, ..self }),
                None => None,
            },
            WindowProp::Title => Some(WindowRecord { title: value, ..self }),
            WindowProp::Type => match type_of_text(value) {
                Some(t) => Some(WindowRecord { window_type: t, ..self }),
                None => None,
            },
            WindowProp::Role => Some(WindowRecord { role: value, ..self }),
            WindowProp::State => match state_of_text(value) {
                Some(s) => Some(WindowRecord { state: s, ..self }),
                None => None,
            },
            WindowProp::Display => Some(WindowRecord { display: value, ..self }),
        }
    }

    /// The value published for one field.
    pub open spec fn value_of(self, p: WindowProp) -> DictValueView {
        match p {
            WindowProp::ID => DictValueView::Str(self.id),
            WindowProp::Name => DictValueView::Str(self.name),
            WindowProp::Class => DictValueView::Str(self.class),
            WindowProp::PID => DictValueView::U32(self.pid),
            WindowProp::Title => DictValueView::Str(self.title),
            WindowProp::Type => DictValueView::Str(type_text(self.window_type)),
            WindowProp::Role => DictValueView::Str(self.role),
            WindowProp::State => DictValueView::Str(state_text(self.state)),
            WindowProp::Display => DictValueView::Str(self.display),
        }
    }
}

/// The fields in the order of publication.
pub open spec fn prop_at(i: int) -> WindowProp {
    if i == 0 {
        WindowProp::ID
    } else if i == 1 {
        WindowProp::Name
    } else if i == 2 {
        WindowProp::Class
    } else if i == 3 {
        WindowProp::PID
    } else if i == 4 {
        WindowProp::Title
    } else if i == 5 {
        WindowProp::Type
    } else if i == 6 {
        WindowProp::Role
    } else if i == 7 {
        WindowProp::State
    } else {
        WindowProp::Display
    }
}

/// One value of the property bag.
#[derive(Clone, Debug)]
pub enum DictValue {
    Str(String),
    I32(i32),
    U32(u32),
    /// Any other kind of value.
    Other,
}

pub enum DictValueView {
    Str(Seq<char>),
    I32(i32),
    U32(u32),
    Other,
}

impl View for DictValue {
    type V = DictValueView;

    open spec fn view(&self) -> DictValueView {
        match self {
            DictValue::Str(s) => DictValueView::Str(s@),
            DictValue::I32(v) => DictValueView::I32(*v),
            DictValue::U32(v) => DictValueView::U32(*v),
            DictValue::Other => DictValueView::Other,
        }
    }
}

/// The serialized form of a record: key and value pairs. A bag that comes
/// from a map holds each key once; where a key occurs twice, the first entry
/// is the one read (see `lookup`).
pub type DictMap = Vec<(String, DictValue)>;

pub open spec fn entries_view(m: Seq<(String, DictValue)>) -> Seq<(Seq<char>, DictValueView)> {
    m.map_values(|e: (String, DictValue)| (e.0@, e.1@))
}

/// The value of the first entry under `key`.
pub open spec fn lookup(m: Seq<(Seq<char>, DictValueView)>, key: Seq<char>) -> Option<DictValueView>
    decreases m.len(),
{
    if m.len() == 0 {
        None
    } else if m[0].0 == key {
        Some(m[0].1)
    } else {
        lookup(m.drop_first(), key)
    }
}

/// The bag has an entry for the field.
pub open spec fn has_field(m: Seq<(Seq<char>, DictValueView)>, p: WindowProp) -> bool {
    lookup(m, prop_key(p)) is Some
}

/// The first field, in publication order, that the bag lacks.
pub open spec fn first_missing(m: Seq<(Seq<char>, DictValueView)>) -> Option<WindowProp> {
    if !has_field(m, WindowProp::ID) {
        Some(WindowProp::ID)
    } else if !has_field(m, WindowProp::Name) {
        Some(WindowProp::Name)
    } else if !has_field(m, WindowProp::Class) {
        Some(WindowProp::Class)
    } else if !has_field(m, WindowProp::PID) {
        Some(WindowProp::PID)
    } else if !has_field(m, WindowProp::Title) {
        Some(WindowProp::Title)
    } else if !has_field(m, WindowProp::Type) {
        Some(WindowProp::Type)
    } else if !has_field(m, WindowProp::Role) {
        Some(WindowProp::Role)
    } else if !has_field(m, WindowProp::State) {
        Some(WindowProp::State)
    } else if !has_field(m, WindowProp::Display) {
        Some(WindowProp::Display)
    } else {
        None
    }
}

/// A text field read from the bag; an absent field or a non-string is
/// refused.
pub open spec fn text_field(m: Seq<(Seq<char>, DictValueView)>, p: WindowProp) -> Option<Seq<char>> {
    match lookup(m, prop_key(p)) {
        None => None,
        Some(DictValueView::Str(s)) => Some(s),
        Some(_) => None,
    }
}

/// The process id read from the bag: a negative signed value is zero; an
/// absent field or anything but an integer is refused.
pub open spec fn pid_field(m: Seq<(Seq<char>, DictValueView)>) -> Option<u32> {
    match lookup(m, prop_key(WindowProp::PID)) {
        None => None,
        Some(DictValueView::I32(v)) => Some(if v < 0 { 0 } else { v as u32 }),
        Some(DictValueView::U32(v)) => Some(v),
        Some(_) => None,
    }
}

/// The record that a property bag describes. All nine fields are
/// required: the first one missing, in publication order, is refused;
/// otherwise the first field, in publication order, whose value is wrong.
pub open spec fn record_of_entries(m: Seq<(Seq<char>, DictValueView)>) -> Result<WindowRecord, InvalidArgs> {
    if first_missing(m) is Some {
        Err(InvalidArgs::MissingKey(first_missing(m)->0))
    } else if text_field(m, WindowProp::ID) is None {
        Err(InvalidArgs::NotText(WindowProp::ID))
    } else if text_field(m, WindowProp::Name) is None {
        Err(InvalidArgs::NotText(WindowProp::Name))
    } else if text_field(m, WindowProp::Class) is None {
        Err(InvalidArgs::NotText(WindowProp::Class))
    } else if pid_field(m) is None {
        Err(InvalidArgs::NotInteger(WindowProp::PID))
    } else if text_field(m, WindowProp::Title) is None {
        Err(InvalidArgs::NotText(WindowProp::Title))
    } else if text_field(m, WindowProp::Type) is None {
        Err(InvalidArgs::NotText(WindowProp::Type))
    } else if type_of_text(text_field(m, WindowProp::Type)->0) is None {
        Err(InvalidArgs::NotVariant(WindowProp::Type))
    } else if text_field(m, WindowProp::Role) is None {
        Err(InvalidArgs::NotText(WindowProp::Role))
    } else if text_field(m, WindowProp::State) is None {
        Err(InvalidArgs::NotText(WindowProp::State))
    } else if state_of_text(text_field(m, WindowProp::State)->0) is None {
        Err(InvalidArgs::NotVariant(WindowProp::State))
    } else if text_field(m, WindowProp::Display) is None {
        Err(InvalidArgs::NotText(WindowProp::Display))
    } else {
        Ok(
            WindowRecord {
                id: text_field(m, WindowProp::ID)->0,
                name: text_field(m, WindowProp::Name)->0,
                class: text_field(m, WindowProp::Class)->0,
                pid: pid_field(m)->0,
                title: text_field(m, WindowProp::Title)->0,
                window_type: type_of_text(text_field(m, WindowProp::Type)->0)->0,
                role: text_field(m, WindowProp::Role)->0,
                state: state_of_text(text_field(m, WindowProp::State)->0)->0,
                display: text_field(m, WindowProp::Display)->0,
            },
        )
    }
}

/// A window record as published.
#[derive(Clone, Debug)]
pub struct WindowDict {
    pub id: String,
    pub name: String,
    pub class: String,
    pub pid: u32,
    pub title: String,
    pub window_type: WindowType,
    pub role: String,
    pub state: WindowState,
    pub display: String,
}

impl View for WindowDict {
    type V = WindowRecord;

    open spec fn view(&self) -> WindowRecord {
        WindowRecord {
            id: self.id@,
            name: self.name@,
            class: self.class@,
            pid: self.pid,
            title: self.title@,
            window_type: self.window_type,
            role: self.role@,
            state: self.state,
            display: self.display@,
        }
    }
}

impl Default for WindowDict {
    fn default() -> (r: WindowDict)
        ensures
            r@ == empty_record(),
    {
        WindowDict {
            id: String::new(),
            name: String::new(),
            class: String::new(),
            pid: 0,
            title: String::new(),
            window_type: WindowType::Unset,
            role: String::new(),
            state: WindowState::Unset,
            display: String::new(),
        }
    }
}

/// Looks up the first entry under `key`.
fn find_entry<'a>(m: &'a DictMap, key: &str) -> (r: Option<&'a DictValue>)
    ensures
        match r {
            Some(v) => lookup(entries_view(m@), key@) == Some(v@),
            None => lookup(entries_view(m@), key@) is None,
        },
{
    let ghost mv = entries_view(m@);
    assert(mv.subrange(0, mv.len() as int) =~= mv);
    let mut i: usize = 0;
    while i < m.len()
        invariant
            i <= m@.len(),
            mv == entries_view(m@),
            lookup(mv, key@) == lookup(mv.subrange(i as int, mv.len() as int), key@),
        decreases m@.len() - i,
    {
        let ghost rest = mv.subrange(i as int, mv.len() as int);
        assert(rest.drop_first() =~= mv.subrange(i + 1, mv.len() as int));
        assert(rest[0] == mv[i as int]);
        if text_eq(m[i].0.as_str(), key) {
            return Some(&m[i].1);
        }
        i = i + 1;
    }
    None
}

fn text_entry(m: &DictMap, p: WindowProp) -> (r: Result<String, InvalidArgs>)
    ensures
        match text_field(entries_view(m@), p) {
            Some(s) => r is Ok && r->Ok_0@ == s,
            None => r == Err::<String, InvalidArgs>(InvalidArgs::NotText(p)),
        },
{
    match find_entry(m, p.as_str()) {
        None => Err(InvalidArgs::NotText(p)),
        Some(DictValue::Str(s)) => Ok(s.clone()),
        Some(_) => Err(InvalidArgs::NotText(p)),
    }
}

fn pid_entry(m: &DictMap) -> (r: Result<u32, InvalidArgs>)
    ensures
        match pid_field(entries_view(m@)) {
            Some(n) => r == Ok::<u32, InvalidArgs>(n),
            None => r == Err::<u32, InvalidArgs>(InvalidArgs::NotInteger(WindowProp::PID)),
        },
{
    match find_entry(m, WindowProp::PID.as_str()) {
        None => Err(InvalidArgs::NotInteger(WindowProp::PID)),
        Some(DictValue::I32(v)) => Ok(if *v < 0 { 0 } else { *v as u32 }),
        Some(DictValue::U32(v)) => Ok(*v),
        Some(_) => Err(InvalidArgs::NotInteger(WindowProp::PID)),
    }
}

fn require_field(m: &DictMap, p: WindowProp) -> (r: Result<(), InvalidArgs>)
    ensures
        has_field(entries_view(m@), p) ==> r is Ok,
        !has_field(entries_view(m@), p) ==> r == Err::<(), InvalidArgs>(InvalidArgs::MissingKey(p)),
{
    match find_entry(m, p.as_str()) {
        Some(_) => Ok(()),
        None => Err(InvalidArgs::MissingKey(p)),
    }
}

fn value_entry(key: WindowProp, value: DictValue) -> (r: (String, DictValue))
    ensures
        r.0@ == prop_key(key),
        r.1 == value,
{
    (owned(key.as_str()), value)
}

impl WindowDict {
    pub fn new(
        id: &str,
        name: &str,
        class: &str,
        pid: u32,
        title: &str,
        window_type: WindowType,
        role: &str,
        state: WindowState,
        display: &str,
    ) -> (r: WindowDict)
        ensures
            r@ == (WindowRecord {
                id: id@,
                name: name@,
                class: class@,
                pid,
                title: title@,
                window_type,
                role: role@,
                state,
                display: display@,
            }),
    {
        WindowDict {
            id: owned(id),
            name: owned(name),
            class: owned(class),
            pid,
            title: owned(title),
            window_type,
            role: owned(role),
            state,
            display: owned(display),
        }
    }

    /// A field-for-field copy.
    pub fn duplicate(&self) -> (r: WindowDict)
        ensures
            r == *self,
    {
        WindowDict {
            id: self.id.clone(),
            name: self.name.clone(),
            class: self.class.clone(),
            pid: self.pid,
            title: self.title.clone(),
            window_type: self.window_type,
            role: self.role.clone(),
            state: self.state,
            display: self.display.clone(),
        }
    }

    /// The property bag: exactly the nine keys, in publication order.
    pub fn as_map(&self) -> (r: DictMap)
        ensures
            entries_view(r@) == published_entries(self@),
            r@.len() == 9,
            forall|i: int|
                0 <= i < 9 ==> (#[trigger] entries_view(r@)[i]) == (prop_key(prop_at(i)), self@.value_of(prop_at(i))),
    {
        let mut m: DictMap = Vec::new();
        m.push(value_entry(WindowProp::ID, DictValue::Str(self.id.clone())));
        m.push(value_entry(WindowProp::Name, DictValue::Str(self.name.clone())));
        m.push(value_entry(WindowProp::Class, DictValue::Str(self.class.clone())));
        m.push(value_entry(WindowProp::PID, DictValue::U32(self.pid)));
        m.push(value_entry(WindowProp::Title, DictValue::Str(self.title.clone())));
        m.push(value_entry(WindowProp::Type, DictValue::Str(owned(self.window_type.as_str()))));
        m.push(value_entry(WindowProp::Role, DictValue::Str(self.role.clone())));
        m.push(value_entry(WindowProp::State, DictValue::Str(owned(self.state.as_str()))));
        m.push(value_entry(WindowProp::Display, DictValue::Str(self.display.clone())));
        assert(entries_view(m@) =~= published_entries(self@));
        m
    }

    /// Reads a record from a property bag. Each of the nine keys is
    /// required; keys other than the nine are ignored.
    pub fn try_from(m: &DictMap) -> (r: Result<WindowDict, InvalidArgs>)
        ensures
            match record_of_entries(entries_view(m@)) {
                Ok(rec) => r is Ok && r->Ok_0@ == rec,
                Err(e) => r == Err::<WindowDict, InvalidArgs>(e),
            },
    {
        require_field(m, WindowProp::ID)?;
        require_field(m, WindowProp::Name)?;
        require_field(m, WindowProp::Class)?;
        require_field(m, WindowProp::PID)?;
        require_field(m, WindowProp::Title)?;
        require_field(m, WindowProp::Type)?;
        require_field(m, WindowProp::Role)?;
        require_field(m, WindowProp::State)?;
        require_field(m, WindowProp::Display)?;
        let id = text_entry(m, WindowProp::ID)?;
        let name = text_entry(m, WindowProp::Name)?;
        let class = text_entry(m, WindowProp::Class)?;
        let pid = pid_entry(m)?;
        let title = text_entry(m, WindowProp::Title)?;
        let type_text = text_entry(m, WindowProp::Type)?;
        let window_type = match WindowType::from_text(type_text.as_str()) {
            Some(t) => t,
            None => {
                return Err(InvalidArgs::NotVariant(WindowProp::Type));
            },
        };
        let role = text_entry(m, WindowProp::Role)?;
        let state_text = text_entry(m, WindowProp::State)?;
        let state = match WindowState::from_text(state_text.as_str()) {
            Some(s) => s,
            None => {
                return Err(InvalidArgs::NotVariant(WindowProp::State));
            },
        };
        let display = text_entry(m, WindowProp::Display)?;
        Ok(WindowDict { id, name, class, pid, title, window_type, role, state, display })
    }

    /// Sets one field from its text form. A process id must be empty or
    /// decimal, a type or state must name a variant; otherwise the record is
    /// left as it was.
    pub fn update(&mut self, key: WindowProp, value: &str) -> (r: Result<(), InvalidArgs>)
        ensures
            match old(self)@.updated(key, value@) {
                Some(rec) => r is Ok && final(self)@ == rec,
                None => r == Err::<(), InvalidArgs>(text_value_error(key)) && *final(self) == *old(self),
            },
    {
        match key {
            WindowProp::ID => self.id = owned(value),
            WindowProp::Name => self.name = owned(value),
            WindowProp::Class => self.class = owned(value),
            WindowProp::PID => match parse_int_string(value) {
                Ok(n) => self.pid = n,
                Err(_) => {
                    return Err(InvalidArgs::NotInteger(key));
                },
            },
            WindowProp::Title => self.title = owned(value),
            WindowProp::Type => match WindowType::from_text(value) {
                Some(t) => self.window_type = t,
                None => {
                    return Err(InvalidArgs::NotVariant(key));
                },
            },
            WindowProp::Role => self.role = owned(value),
            WindowProp::State => match WindowState::from_text(value) {
                Some(s) => self.state = s,
                None => {
                    return Err(InvalidArgs::NotVariant(key));
                },
            },
            WindowProp::Display => self.display = owned(value),
        }
        Ok(())
    }
}

/// The nine entries published for a record, in order.
pub open spec fn published_entries(d: WindowRecord) -> Seq<(Seq<char>, DictValueView)> {
    Seq::new(9, |i: int| (prop_key(prop_at(i)), d.value_of(prop_at(i))))
}

/// Each field's key names that field.
pub proof fn lemma_key_round_trip(p: WindowProp)
    ensures
        prop_of_key(prop_key(p)) == Some(p),
{
    reveal_strlit("id");
    assert("id"@.len() == 2);
    reveal_strlit("name");
    assert("name"@.len() == 4);
    reveal_strlit("class");
    assert("class"@.len() == 5);
    reveal_strlit("pid");
    assert("pid"@.len() == 3);
    reveal_strlit("title");
    assert("title"@.len() == 5);
    reveal_strlit("type");
    assert("type"@.len() == 4);
    reveal_strlit("role");
    assert("role"@.len() == 4);
    reveal_strlit("state");
    assert("state"@.len() == 5);
    reveal_strlit("display");
    assert("display"@.len() == 7);
    assert("id"@[0] == 'i');
    assert("name"@[0] == 'n');
    assert("class"@[0] == 'c');
    assert("pid"@[0] == 'p');
    assert("title"@[0] == 't');
    assert("type"@[0] == 't');
    assert("role"@[0] == 'r');
    assert("state"@[0] == 's');
    assert("display"@[0] == 'd');
    match p {
        WindowProp::ID => {},
        WindowProp::Name => {},
        WindowProp::Class => {},
        WindowProp::PID => {},
        WindowProp::Title => {},
        WindowProp::Type => {},
        WindowProp::Role => {},
        WindowProp::State => {},
        WindowProp::Display => {},
    }
}

/// Each state's text names that state.
pub proof fn lemma_state_round_trip(s: WindowState)
    ensures
        state_of_text(state_text(s)) == Some(s),
{
    reveal_strlit("");
    assert(""@.len() == 0);
    reveal_strlit("NORMAL");
    assert("NORMAL"@.len() == 6);
    reveal_strlit("MAXIMIZED");
    assert("MAXIMIZED"@.len() == 9);
    reveal_strlit("FULLSCREEN");
    assert("FULLSCREEN"@.len() == 10);
    assert("NORMAL"@[0] == 'N');
    assert("MAXIMIZED"@[0] == 'M');
    assert("FULLSCREEN"@[0] == 'F');
    match s {
        WindowState::Unset => {},
        WindowState::Normal => {},
        WindowState::Maximized => {},
        WindowState::Fullscreen => {},
    }
}

/// Each type's text names that type.
pub proof fn lemma_type_round_trip(t: WindowType)
    ensures
        type_of_text(type_text(t)) == Some(t),
{
    reveal_strlit("");
    assert(""@.len() == 0);
    reveal_strlit("NORMAL");
    assert("NORMAL"@.len() == 6);
    reveal_strlit("COMBO");
    assert("COMBO"@.len() == 5);
    reveal_strlit("DESKTOP");
    assert("DESKTOP"@.len() == 7);
    reveal_strlit("DIALOG");
    assert("DIALOG"@.len() == 6);
    reveal_strlit("DND");
    assert("DND"@.len() == 3);
    reveal_strlit("DOCK");
    assert("DOCK"@.len() == 4);
    reveal_strlit("DROPDOWN_MENU");
    assert("DROPDOWN_MENU"@.len() == 13);
    reveal_strlit("MENU");
    assert("MENU"@.len() == 4);
    reveal_strlit("NOTIFICATION");
    assert("NOTIFICATION"@.len() == 12);
    reveal_strlit("POPUP_MENU");
    assert("POPUP_MENU"@.len() == 10);
    reveal_strlit("SPLASH");
    assert("SPLASH"@.len() == 6);
    reveal_strlit("TOOLBAR");
    assert("TOOLBAR"@.len() == 7);
    reveal_strlit("TOOLTIP");
    assert("TOOLTIP"@.len() == 7);
    reveal_strlit("UTILITY");
    assert("UTILITY"@.len() == 7);
    reveal_strlit("OVERRIDE");
    assert("OVERRIDE"@.len() == 8);
    assert("NORMAL"@[0] == 'N');
    assert("COMBO"@[0] == 'C');
    assert("DESKTOP"@[0] == 'D');
    assert("DIALOG"@[0] == 'D');
    assert("DND"@[0] == 'D');
    assert("DOCK"@[0] == 'D');
    assert("DROPDOWN_MENU"@[0] == 'D');
    assert("MENU"@[0] == 'M');
    assert("NOTIFICATION"@[0] == 'N');
    assert("POPUP_MENU"@[0] == 'P');
    assert("SPLASH"@[0] == 'S');
    assert("TOOLBAR"@[0] == 'T');
    assert("TOOLTIP"@[0] == 'T');
    assert("UTILITY"@[0] == 'U');
    assert("OVERRIDE"@[0] == 'O');
    assert("TOOLBAR"@[4] == 'B');
    assert("TOOLTIP"@[4] == 'T');
    match t {
        WindowType::Unset => {},
        WindowType::Normal => {},
        WindowType::Combo => {},
        WindowType::Desktop => {},
        WindowType::Dialog => {},
        WindowType::DND => {},
        WindowType::Dock => {},
        WindowType::DropdownMenu => {},
        WindowType::Menu => {},
        WindowType::Notification => {},
        WindowType::PopupMenu => {},
        WindowType::Splash => {},
        WindowType::Toolbar => {},
        WindowType::Tooltip => {},
        WindowType::Utility => {},
        WindowType::Override => {},
    }
}

proof fn lemma_lookup_at(m: Seq<(Seq<char>, DictValueView)>, key: Seq<char>, i: int)
    requires
        0 <= i < m.len(),
        m[i].0 == key,
        forall|j: int| 0 <= j < i ==> (#[trigger] m[j]).0 != key,
    ensures
        lookup(m, key) == Some(m[i].1),
    decreases i,
{
    if i > 0 {
        let t = m.drop_first();
        assert forall|j: int| 0 <= j < i - 1 implies (#[trigger] t[j]).0 != key by {
            assert(t[j] == m[j + 1]);
        }
        lemma_lookup_at(t, key, i - 1);
    }
}

proof fn lemma_published_lookup(d: WindowRecord, i: int)
    requires
        0 <= i < 9,
    ensures
        lookup(published_entries(d), prop_key(prop_at(i))) == Some(d.value_of(prop_at(i))),
{
    let m = published_entries(d);
    assert forall|j: int| 0 <= j < i implies (#[trigger] m[j]).0 != prop_key(prop_at(i)) by {
        assert(m[j].0 == prop_key(prop_at(j)));
        assert(prop_at(j) != prop_at(i));
        lemma_key_round_trip(prop_at(j));
        lemma_key_round_trip(prop_at(i));
    }
    lemma_lookup_at(m, prop_key(prop_at(i)), i);
}

/// The published bag holds exactly the nine fields: read back, it gives
/// the same record.
pub proof fn lemma_published_record_reads_back(d: WindowRecord)
    ensures
        published_entries(d).len() == 9,
        record_of_entries(published_entries(d)) == Ok::<WindowRecord, InvalidArgs>(d),
{
    let m = published_entries(d);
    lemma_published_lookup(d, 0);
    lemma_published_lookup(d, 1);
    lemma_published_lookup(d, 2);
    lemma_published_lookup(d, 3);
    lemma_published_lookup(d, 4);
    lemma_published_lookup(d, 5);
    lemma_published_lookup(d, 6);
    lemma_published_lookup(d, 7);
    lemma_published_lookup(d, 8);
    lemma_type_round_trip(d.window_type);
    lemma_state_round_trip(d.state);
}

} // verus!
