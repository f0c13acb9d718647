//! The query client's side: which record and field to show, in which form,
//! and when a watched record is worth printing again.
use vstd::prelude::*;
use crate::text::{decimal, decimal_text, owned};
use crate::types::{state_text, type_text, WindowDict, WindowRecord, WindowState, WindowType};

verus! {

#[derive(Clone, Copy, Debug, PartialEq, Eq, Structural)]
pub enum QueryContext {
    Active,
    Pointer,
}

#[derive(Clone, Copy, Debug, PartialEq, Eq, Structural)]
pub enum QueryFormat {
    Flat,
    Dict,
    JSON,
    TOML,
    CSV,
}

impl Default for QueryFormat {
    fn default() -> (r: QueryFormat)
        ensures
            r == QueryFormat::Flat,
    {
        QueryFormat::Flat
    }
}

pub open spec fn format_text(f: QueryFormat) -> Seq<char> {
    match f {
        QueryFormat::Flat => "flat"@,
        QueryFormat::Dict => "dict"@,
        QueryFormat::JSON => "json"@,
        QueryFormat::TOML => "toml"@,
        QueryFormat::CSV => "csv"@,
    }
}

impl QueryFormat {
    pub fn as_str(&self) -> (r: &'static str)
        ensures
            r@ == format_text(*self),
    {
        match self {
            QueryFormat::Flat => "flat",
            QueryFormat::Dict => "dict",
            QueryFormat::JSON => "json",
            QueryFormat::TOML => "toml",
            QueryFormat::CSV => "csv",
        }
    }
}

#[derive(Clone, Copy, Debug, PartialEq, Eq, Structural)]
pub enum QueryProperty {
    ID,
    Name,
    Class,
    PID,
    Title,
    Type,
    Role,
    State,
    Display,
}

pub open spec fn query_property_text(p: QueryProperty) -> Seq<char> {
    match p {
        QueryProperty::ID => "id"@,
        QueryProperty::Name => "name"@,
        QueryProperty::Class => "class"@,
        QueryProperty::PID => "pid"@,
        QueryProperty::Title => "title"@,
        QueryProperty::Type => "type"@,
        QueryProperty::Role => "role"@,
        QueryProperty::State => "state"@,
        QueryProperty::Display => "display"@,
    }
}

impl QueryProperty {
    pub fn as_str(&self) -> (r: &'static str)
        ensures
            r@ == query_property_text(*self),
    {
        match self {
            QueryProperty::ID => "id",
            QueryProperty::Name => "name",
            QueryProperty::Class => "class",
            QueryProperty::PID => "pid",
            QueryProperty::Title => "title",
            QueryProperty::Type => "type",
            QueryProperty::Role => "role",
            QueryProperty::State => "state",
            QueryProperty::Display => "display",
        }
    }
}

/// What the query command was asked for.
#[derive(Clone, Copy, Debug)]
pub struct Args {
    /// The window context to query.
    pub context: Option<QueryContext>,
    /// A single property to show.
    pub property: Option<QueryProperty>,
    pub format: QueryFormat,
    /// Keep printing as the record changes.
    pub watch: bool,
}

/// One field of a record, with its value.
#[derive(Clone, Debug)]
pub enum WindowProperty {
    ID(String),
    Name(String),
    Class(String),
    PID(u32),
    Title(String),
    Type(WindowType),
    Role(String),
    State(WindowState),
    Display(String),
}

pub enum WindowPropertyView {
    ID(Seq<char>),
    Name(Seq<char>),
    Class(Seq<char>),
    PID(u32),
    Title(Seq<char>),
    Type(WindowType),
    Role(Seq<char>),
    State(WindowState),
    Display(Seq<char>),
}

impl View for WindowProperty {
    type V = WindowPropertyView;

    open spec fn view(&self) -> WindowPropertyView {
        match self {
            WindowProperty::ID(s) => WindowPropertyView::ID(s@),
            WindowProperty::Name(s) => WindowPropertyView::Name(s@),
            WindowProperty::Class(s) => WindowPropertyView::Class(s@),
            WindowProperty::PID(n) => WindowPropertyView::PID(*n),
            WindowProperty::Title(s) => WindowPropertyView::Title(s@),
            WindowProperty::Type(t) => WindowPropertyView::Type(*t),
            WindowProperty::Role(s) => WindowPropertyView::Role(s@),
            WindowProperty::State(s) => WindowPropertyView::State(*s),
            WindowProperty::Display(s) => WindowPropertyView::Display(s@),
        }
    }
}

/// The field `p` of a record.
pub open spec fn property_of(d: WindowRecord, p: QueryProperty) -> WindowPropertyView {
    match p {
        QueryProperty::ID => WindowPropertyView::ID(d.id),
        QueryProperty::Name => WindowPropertyView::Name(d.name),
        QueryProperty::Class => WindowPropertyView::Class(d.class),
        QueryProperty::PID => WindowPropertyView::PID(d.pid),
        QueryProperty::Title => WindowPropertyView::Title(d.title),
        QueryProperty::Type => WindowPropertyView::Type(d.window_type),
        QueryProperty::Role => WindowPropertyView::Role(d.role),
        QueryProperty::State => WindowPropertyView::State(d.state),
        QueryProperty::Display => WindowPropertyView::Display(d.display),
    }
}

/// How a field value reads as plain text.
pub open spec fn property_text(p: WindowPropertyView) -> Seq<char> {
    match p {
        WindowPropertyView::ID(s) => s,
        WindowPropertyView::Name(s) => s,
        WindowPropertyView::Class(s) => s,
        WindowPropertyView::PID(n) => decimal_text(n as nat),
        WindowPropertyView::Title(s) => s,
        WindowPropertyView::Type(t) => type_text(t),
        WindowPropertyView::Role(s) => s,
        WindowPropertyView::State(s) => state_text(s),
        WindowPropertyView::Display(s) => s,
    }
}

impl WindowProperty {
    /// The value as plain text: numbers in decimal, types and states in
    /// their published form.
    pub fn to_text(&self) -> (r: String)
        ensures
            r@ == property_text(self@),
    {
        match self {
            WindowProperty::ID(s) => s.clone(),
            WindowProperty::Name(s) => s.clone(),
            WindowProperty::Class(s) => s.clone(),
            WindowProperty::PID(n) => decimal(*n),
            WindowProperty::Title(s) => s.clone(),
            WindowProperty::Type(t) => owned(t.as_str()),
            WindowProperty::Role(s) => s.clone(),
            WindowProperty::State(s) => owned(s.as_str()),
            WindowProperty::Display(s) => s.clone(),
        }
    }
}

impl WindowDict {
    /// One field of the record.
    pub fn prop(&self, prop: QueryProperty) -> (r: WindowProperty)
        ensures
            r@ == property_of(self@, prop),
    {
        match prop {
            QueryProperty::ID => WindowProperty::ID(self.id.clone()),
            QueryProperty::Name => WindowProperty::Name(self.name.clone()),
            QueryProperty::Class => WindowProperty::Class(self.class.clone()),
            QueryProperty::PID => WindowProperty::PID(self.pid),
            QueryProperty::Title => WindowProperty::Title(self.title.clone()),
            QueryProperty::Type => WindowProperty::Type(self.window_type),
            QueryProperty::Role => WindowProperty::Role(self.role.clone()),
            QueryProperty::State => WindowProperty::State(self.state),
            QueryProperty::Display => WindowProperty::Display(self.display.clone()),
        }
    }
}

/// Prints records as they come, skipping a record that would print the
/// same as the one before.
pub struct Printer {
    /// The record seen last.
    pub window: Option<WindowDict>,
    pub property: Option<QueryProperty>,
    pub format: QueryFormat,
    /// The text printed last.
    pub output: String,
    /// Whether each output is followed by a line break.
    pub linebreak: bool,
    /// Nothing printed yet.
    pub first: bool,
}

/// Whether outputs end with a line break: a single property does, but in
/// TOML or CSV; a whole record does only when watched and printed as a
/// dictionary, JSON or TOML.
pub open spec fn wants_linebreak(property: Option<QueryProperty>, format: QueryFormat, watch: bool) -> bool {
    if property is Some {
        !(format == QueryFormat::TOML || format == QueryFormat::CSV)
    } else {
        watch && (format == QueryFormat::Dict || format == QueryFormat::JSON || format
            == QueryFormat::TOML)
    }
}

impl Printer {
    pub fn new(property: Option<QueryProperty>, format: QueryFormat, watch: bool) -> (r: Printer)
        ensures
            r.window is None,
            r.property == property,
            r.format == format,
            r.output@.len() == 0,
            r.linebreak == wants_linebreak(property, format, watch),
            r.first,
    {
        let linebreak = if property.is_some() {
            !(format == QueryFormat::TOML || format == QueryFormat::CSV)
        } else {
            watch && (format == QueryFormat::Dict || format == QueryFormat::JSON || format
                == QueryFormat::TOML)
        };
        Printer { window: None, property, format, output: String::new(), linebreak, first: true }
    }

    /// Records `window` and its formatted `output`; says whether to print
    /// it. The same window formatted the same as last time is not printed.
    pub fn accept(&mut self, window: WindowDict, output: String) -> (r: bool)
        ensures
            r == !(old(self).window matches Some(w) && w.id@ == window.id@ && old(self).output@
                == output@),
            final(self).window == Some(window),
            final(self).property == old(self).property,
            final(self).format == old(self).format,
            final(self).linebreak == old(self).linebreak,
            r ==> final(self).output == output && !final(self).first,
            !r ==> final(self).output == old(self).output && final(self).first == old(self).first,
    {
        let repeated = match &self.window {
            Some(last) => window.id == last.id && output == self.output,
            None => false,
        };
        self.window = Some(window);
        if !repeated {
            self.output = output;
            self.first = false;
        }
        !repeated
    }
}

} // verus!
