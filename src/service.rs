//! The cache behind the published `Windows` object: two records, replaced
//! wholesale or one field at a time, and the change signals each call owes.
use vstd::prelude::*;
use crate::types::{
    empty_record, entries_view, prop_at, prop_key, prop_of_key, record_of_entries, text_value_error,
    DictMap, DictValueView, InvalidArgs, WindowContext, WindowDict, WindowProp, WindowRecord,
};

verus! {

/// Which change signals a call emits.
#[derive(Clone, Copy, Debug, PartialEq, Eq, Structural)]
pub struct Signals {
    pub active: bool,
    pub pointer: bool,
}

pub open spec fn touches_active(c: WindowContext) -> bool {
    c != WindowContext::Pointer
}

pub open spec fn touches_pointer(c: WindowContext) -> bool {
    c != WindowContext::Active
}

pub open spec fn signals_for(c: WindowContext) -> Signals {
    Signals { active: touches_active(c), pointer: touches_pointer(c) }
}

/// The two cached records.
pub struct WindowsService {
    pub active_window: WindowDict,
    pub pointer_window: WindowDict,
}

/// The cache as a pair of records: active first, pointer second.
pub open spec fn cache_of(s: WindowsService) -> (WindowRecord, WindowRecord) {
    (s.active_window@, s.pointer_window@)
}

/// The cache after a record is set for `c`, and the call's result.
pub open spec fn set_result(
    cache: (WindowRecord, WindowRecord),
    c: WindowContext,
    m: Seq<(Seq<char>, DictValueView)>,
) -> ((WindowRecord, WindowRecord), Result<Signals, InvalidArgs>) {
    match record_of_entries(m) {
        Ok(rec) => (
            (
                if touches_active(c) {
                    rec
                } else {
                    cache.0
                },
                if touches_pointer(c) {
                    rec
                } else {
                    cache.1
                },
            ),
            Ok(signals_for(c)),
        ),
        Err(e) => (cache, Err(e)),
    }
}

/// The cache after one field is set for `c`, and the call's result.
pub open spec fn update_result(
    cache: (WindowRecord, WindowRecord),
    c: WindowContext,
    key: Seq<char>,
    value: Seq<char>,
) -> ((WindowRecord, WindowRecord), Result<Signals, InvalidArgs>) {
    match prop_of_key(key) {
        None => (cache, Err(InvalidArgs::UnknownKey)),
        Some(p) => if cache.0.updated(p, value) is None {
            (cache, Err(text_value_error(p)))
        } else {
            (
                (
                    if touches_active(c) {
                        cache.0.updated(p, value)->0
                    } else {
                        cache.0
                    },
                    if touches_pointer(c) {
                        cache.1.updated(p, value)->0
                    } else {
                        cache.1
                    },
                ),
                Ok(signals_for(c)),
            )
        },
    }
}

impl WindowsService {
    /// Both records start empty.
    pub fn new() -> (r: WindowsService)
        ensures
            cache_of(r) == (empty_record(), empty_record()),
    {
        WindowsService { active_window: WindowDict::default(), pointer_window: WindowDict::default() }
    }

    /// Replaces the record(s) of `context` with the one the bag describes.
    pub fn set_window(&mut self, context: WindowContext, window: &DictMap) -> (r: Result<
        Signals,
        InvalidArgs,
    >)
        ensures
            (cache_of(*final(self)), r) == set_result(cache_of(*old(self)), context, entries_view(window@)),
            r is Err ==> *final(self) == *old(self),
    {
        let dict = WindowDict::try_from(window)?;
        match context {
            WindowContext::Both => {
                self.active_window = dict.duplicate();
                self.pointer_window = dict;
            },
            WindowContext::Active => {
                self.active_window = dict;
            },
            WindowContext::Pointer => {
                self.pointer_window = dict;
            },
        }
        Ok(Signals { active: context != WindowContext::Pointer, pointer: context != WindowContext::Active })
    }

    /// Sets one field of the record(s) of `context`. An unknown key or an
    /// invalid value changes nothing.
    pub fn update_window(&mut self, context: WindowContext, key: &str, value: &str) -> (r: Result<
        Signals,
        InvalidArgs,
    >)
        ensures
            (cache_of(*final(self)), r) == update_result(cache_of(*old(self)), context, key@, value@),
            r is Err ==> *final(self) == *old(self),
    {
        let prop = match WindowProp::from_key(key) {
            Some(p) => p,
            None => {
                return Err(InvalidArgs::UnknownKey);
            },
        };
        match context {
            WindowContext::Both => {
                self.active_window.update(prop, value)?;
                let r = self.pointer_window.update(prop, value);
                assert(r is Ok);
            },
            WindowContext::Active => {
                self.active_window.update(prop, value)?;
            },
            WindowContext::Pointer => {
                self.pointer_window.update(prop, value)?;
            },
        }
        Ok(Signals { active: context != WindowContext::Pointer, pointer: context != WindowContext::Active })
    }

    /// The active record as published.
    pub fn active_window(&self) -> (r: DictMap)
        ensures
            r@.len() == 9,
            forall|i: int|
                0 <= i < 9 ==> (#[trigger] entries_view(r@)[i]) == (
                    prop_key(prop_at(i)),
                    self.active_window@.value_of(prop_at(i)),
                ),
    {
        self.active_window.as_map()
    }

    /// The pointer record as published.
    pub fn pointer_window(&self) -> (r: DictMap)
        ensures
            r@.len() == 9,
            forall|i: int|
                0 <= i < 9 ==> (#[trigger] entries_view(r@)[i]) == (
                    prop_key(prop_at(i)),
                    self.pointer_window@.value_of(prop_at(i)),
                ),
    {
        self.pointer_window.as_map()
    }
}

/// A key that names no field leaves both records as they were and is
/// refused.
pub proof fn lemma_unknown_key_changes_nothing(
    cache: (WindowRecord, WindowRecord),
    c: WindowContext,
    key: Seq<char>,
    value: Seq<char>,
)
    requires
        prop_of_key(key) is None,
    ensures
        update_result(cache, c, key, value) == (cache, Err::<Signals, InvalidArgs>(InvalidArgs::UnknownKey)),
{
}

/// An update for both contexts emits both change signals in one call.
pub proof fn lemma_both_signals(cache: (WindowRecord, WindowRecord), key: Seq<char>, value: Seq<char>)
    requires
        update_result(cache, WindowContext::Both, key, value).1 is Ok,
    ensures
        update_result(cache, WindowContext::Both, key, value).1 == Ok::<Signals, InvalidArgs>(
            Signals { active: true, pointer: true },
        ),
{
}

/// A call on the service, at the level of its effect.
pub enum ServiceCall {
    SetWindow(WindowContext, Seq<(Seq<char>, DictValueView)>),
    UpdateWindow(WindowContext, Seq<char>, Seq<char>),
}

/// The cache after one call.
pub open spec fn after_call(cache: (WindowRecord, WindowRecord), call: ServiceCall) -> (WindowRecord, WindowRecord) {
    match call {
        ServiceCall::SetWindow(c, m) => set_result(cache, c, m).0,
        ServiceCall::UpdateWindow(c, key, value) => update_result(cache, c, key, value).0,
    }
}

/// The cache after a sequence of calls, in order.
pub open spec fn after_calls(cache: (WindowRecord, WindowRecord), calls: Seq<ServiceCall>) -> (WindowRecord, WindowRecord)
    decreases calls.len(),
{
    if calls.len() == 0 {
        cache
    } else {
        after_call(after_calls(cache, calls.drop_last()), calls.last())
    }
}

/// The call names a field, if it names one at all.
pub open spec fn names_known_field(call: ServiceCall) -> bool {
    match call {
        ServiceCall::SetWindow(_, _) => true,
        ServiceCall::UpdateWindow(_, key, _) => prop_of_key(key) is Some,
    }
}

pub open spec fn known_field_calls() -> spec_fn(ServiceCall) -> bool {
    |c: ServiceCall| names_known_field(c)
}

/// Over any sequence of calls, those with a key that names no field change
/// nothing: leaving them out gives the same cache.
pub proof fn lemma_unknown_keys_never_mutate(cache: (WindowRecord, WindowRecord), calls: Seq<ServiceCall>)
    ensures
        after_calls(cache, calls) == after_calls(cache, calls.filter(known_field_calls())),
    decreases calls.len(),
{
    reveal(Seq::filter);
    if calls.len() > 0 {
        lemma_unknown_keys_never_mutate(cache, calls.drop_last());
        let f = calls.filter(known_field_calls());
        let g = calls.drop_last().filter(known_field_calls());
        if names_known_field(calls.last()) {
            assert(f == g.push(calls.last()));
            assert(f.drop_last() =~= g);
        } else {
            assert(f == g);
        }
    }
}

} // verus!
