//! The interception parameters attached to a hook definition: a list of
//! entries such as `symbol = "readlink"`, and the interception spec that a
//! valid list declares.

use vstd::prelude::*;
use vstd::string::StringExecFns;
use crate::text::{is_exported_identifier, is_identifier, optional_text};

verus! {

/// The value of a key-value entry.
#[derive(Debug, Clone, PartialEq, Eq)]
pub enum AttrValue {
    /// A string literal, held by its value.
    Str(String),
    /// Any other literal.
    Other,
}

/// One entry of the parameter list.
#[derive(Debug, Clone, PartialEq, Eq)]
pub enum AttrEntry {
    /// `key = value`. The key is written as it stands in the source, so it is
    /// `symbol` exactly when the entry names the `symbol` parameter.
    NameValue { key: String, value: AttrValue },
    /// Anything that is not a simple key-value pair: a bare word, a nested
    /// list, a lone literal.
    Other,
}

/// What a valid parameter list declares.
#[derive(Debug, Clone, PartialEq, Eq)]
pub struct InterceptionSpec {
    /// The name under which the wrapper is exported and the original function
    /// looked up.
    pub exported_symbol: String,
    /// The library that the author expects to hold the original function.
    /// Advisory: the lookup always takes the next definition of the symbol.
    pub target_library: Option<String>,
}

/// Why a parameter list declares no interception spec.
#[derive(Debug, Clone, PartialEq, Eq)]
pub enum SpecError {
    /// No entry has the key `symbol`.
    MissingSymbol,
    /// The entry with this recognized key holds no string literal.
    MalformedValue(String),
    /// The entry has this key, which is not recognized.
    UnknownKey(String),
    /// The entry is not a simple key-value pair.
    MalformedEntry,
    /// The declared symbol, held here, is not an exported identifier, as the
    /// symbol of an interception spec must be.
    InvalidSymbol(String),
}

/// A value, with its text in place of the string.
pub enum AttrValueView {
    Str(Seq<char>),
    Other,
}

/// An entry, with texts in place of strings.
pub enum AttrEntryView {
    NameValue { key: Seq<char>, value: AttrValueView },
    Other,
}

/// An interception spec, with texts in place of strings.
pub struct InterceptionSpecView {
    pub exported_symbol: Seq<char>,
    pub target_library: Option<Seq<char>>,
}

/// A parameter error, with texts in place of strings.
pub enum SpecErrorView {
    MissingSymbol,
    MalformedValue(Seq<char>),
    UnknownKey(Seq<char>),
    MalformedEntry,
    InvalidSymbol(Seq<char>),
}

impl View for AttrValue {
    type V = AttrValueView;

    open spec fn view(&self) -> AttrValueView {
        match self {
            AttrValue::Str(s) => AttrValueView::Str(s@),
            AttrValue::Other => AttrValueView::Other,
        }
    }
}

impl View for AttrEntry {
    type V = AttrEntryView;

    open spec fn view(&self) -> AttrEntryView {
        match self {
            AttrEntry::NameValue { key, value } => AttrEntryView::NameValue {
                key: key@,
                value: value@,
            },
            AttrEntry::Other => AttrEntryView::Other,
        }
    }
}

impl DeepView for AttrEntry {
    type V = AttrEntryView;

    open spec fn deep_view(&self) -> AttrEntryView {
        self@
    }
}

impl View for InterceptionSpec {
    type V = InterceptionSpecView;

    open spec fn view(&self) -> InterceptionSpecView {
        InterceptionSpecView {
            exported_symbol: self.exported_symbol@,
            target_library: match self.target_library {
                Some(library) => Some(library@),
                None => None,
            },
        }
    }
}

impl View for SpecError {
    type V = SpecErrorView;

    open spec fn view(&self) -> SpecErrorView {
        match self {
            SpecError::MissingSymbol => SpecErrorView::MissingSymbol,
            SpecError::MalformedValue(key) => SpecErrorView::MalformedValue(key@),
            SpecError::UnknownKey(name) => SpecErrorView::UnknownKey(name@),
            SpecError::MalformedEntry => SpecErrorView::MalformedEntry,
            SpecError::InvalidSymbol(symbol) => SpecErrorView::InvalidSymbol(symbol@),
        }
    }
}

/// What is said of a list without the key `symbol`.
pub const MISSING_SYMBOL: &'static str = "Missing required attribute 'symbol = \"...\"'";

/// What is said of a recognized key whose value is no string, before the key.
pub const MALFORMED_VALUE: &'static str = "Expected a string literal for ";

/// What is said of a key that is not recognized.
pub const UNKNOWN_KEY: &'static str = "Unknown attribute key, expected 'symbol' or 'library'";

/// What is said of an entry that is no key-value pair.
pub const MALFORMED_ENTRY: &'static str = "Expected name-value attribute, like symbol = \"...\"";

/// What is said of a symbol that cannot be exported, before the symbol.
pub const INVALID_SYMBOL: &'static str = "Expected an exported identifier for symbol, found ";

impl SpecErrorView {
    /// The diagnostic for this error.
    pub open spec fn message(self) -> Seq<char> {
        match self {
            SpecErrorView::MissingSymbol => MISSING_SYMBOL@,
            SpecErrorView::MalformedValue(key) => MALFORMED_VALUE@ + key,
            SpecErrorView::UnknownKey(_) => UNKNOWN_KEY@,
            SpecErrorView::MalformedEntry => MALFORMED_ENTRY@,
            SpecErrorView::InvalidSymbol(symbol) => INVALID_SYMBOL@ + symbol,
        }
    }
}

impl SpecError {
    /// The diagnostic for this error.
    pub fn message(&self) -> (text: String)
        ensures
            text@ == self@.message(),
    {
        match self {
            SpecError::MissingSymbol => String::from_str(MISSING_SYMBOL),
            SpecError::MalformedValue(key) => String::from_str(MALFORMED_VALUE).concat(
                key.as_str(),
            ),
            SpecError::UnknownKey(_) => String::from_str(UNKNOWN_KEY),
            SpecError::MalformedEntry => String::from_str(MALFORMED_ENTRY),
            SpecError::InvalidSymbol(symbol) => String::from_str(INVALID_SYMBOL).concat(
                symbol.as_str(),
            ),
        }
    }
}

impl InterceptionSpecView {
    /// The invariant of an interception spec: its symbol can be exported.
    pub open spec fn wf(self) -> bool {
        is_exported_identifier(self.exported_symbol)
    }
}

impl InterceptionSpec {
    /// The invariant of an interception spec: its symbol can be exported.
    pub open spec fn wf(&self) -> bool {
        self@.wf()
    }
}

/// The key of the required parameter.
pub const SYMBOL_KEY: &'static str = "symbol";

/// The key of the optional parameter.
pub const LIBRARY_KEY: &'static str = "library";

/// The entry is a key-value pair with the key `key`.
pub open spec fn has_key(entry: AttrEntryView, key: Seq<char>) -> bool {
    entry matches AttrEntryView::NameValue { key: k, .. } && k == key
}

/// Some entry of the list has the key `symbol`.
pub open spec fn names_symbol(entries: Seq<AttrEntryView>) -> bool {
    exists|i: int| 0 <= i < entries.len() && has_key(#[trigger] entries[i], SYMBOL_KEY@)
}

/// Why one entry is rejected, if it is.
pub open spec fn rejection(entry: AttrEntryView) -> Option<SpecErrorView> {
    match entry {
        AttrEntryView::Other => Some(SpecErrorView::MalformedEntry),
        AttrEntryView::NameValue { key, value } => if key == SYMBOL_KEY@ || key == LIBRARY_KEY@ {
            match value {
                AttrValueView::Str(_) => None,
                AttrValueView::Other => Some(SpecErrorView::MalformedValue(key)),
            }
        } else {
            Some(SpecErrorView::UnknownKey(key))
        },
    }
}

/// The position of the first rejected entry, if any entry is rejected.
pub open spec fn first_rejected(entries: Seq<AttrEntryView>) -> Option<int>
    decreases entries.len(),
{
    if entries.len() == 0 {
        None
    } else {
        match first_rejected(entries.drop_last()) {
            Some(i) => Some(i),
            None => if rejection(entries.last()) is Some {
                Some(entries.len() - 1)
            } else {
                None
            },
        }
    }
}

/// The string that the entry gives to the key `key`, if it gives one.
pub open spec fn gives(entry: AttrEntryView, key: Seq<char>) -> Option<Seq<char>> {
    match entry {
        AttrEntryView::NameValue { key: k, value: AttrValueView::Str(v) } if k == key => Some(v),
        _ => None,
    }
}

/// The string that the list gives to the key `key`, if it gives one: a later
/// entry overrides an earlier one.
pub open spec fn last_value(entries: Seq<AttrEntryView>, key: Seq<char>) -> Option<Seq<char>>
    decreases entries.len(),
{
    if entries.len() == 0 {
        None
    } else {
        match gives(entries.last(), key) {
            Some(value) => Some(value),
            None => last_value(entries.drop_last(), key),
        }
    }
}

/// What a parameter list declares. A list without the key `symbol` is
/// rejected for that before anything else; then the first rejected entry
/// decides; then the declared symbol must be an exported identifier.
pub open spec fn declared_spec(entries: Seq<AttrEntryView>) -> Result<
    InterceptionSpecView,
    SpecErrorView,
> {
    if !names_symbol(entries) {
        Err(SpecErrorView::MissingSymbol)
    } else if first_rejected(entries) is Some {
        Err(rejection(entries[first_rejected(entries)->0])->0)
    } else {
        let symbol = last_value(entries, SYMBOL_KEY@)->0;
        if is_exported_identifier(symbol) {
            Ok(
                InterceptionSpecView {
                    exported_symbol: symbol,
                    target_library: last_value(entries, LIBRARY_KEY@),
                },
            )
        } else {
            Err(SpecErrorView::InvalidSymbol(symbol))
        }
    }
}

/// The view of a parse result.
pub open spec fn spec_result_view(result: Result<InterceptionSpec, SpecError>) -> Result<
    InterceptionSpecView,
    SpecErrorView,
> {
    match result {
        Ok(spec) => Ok(spec@),
        Err(error) => Err(error@),
    }
}

/// Why `entry` is rejected, if it is.
pub fn check_entry(entry: &AttrEntry) -> (error: Option<SpecError>)
    ensures
        match error {
            Some(e) => rejection(entry@) == Some(e@),
            None => rejection(entry@) is None,
        },
{
    match entry {
        AttrEntry::Other => Some(SpecError::MalformedEntry),
        AttrEntry::NameValue { key, value } => {
            if key_is(key, SYMBOL_KEY) || key_is(key, LIBRARY_KEY) {
                match value {
                    AttrValue::Str(_) => None,
                    AttrValue::Other => Some(SpecError::MalformedValue(key.clone())),
                }
            } else {
                Some(SpecError::UnknownKey(key.clone()))
            }
        },
    }
}

fn key_is(key: &String, wanted: &str) -> (same: bool)
    ensures
        same == (key@ == wanted@),
{
    let wanted = String::from_str(wanted);
    *key == wanted
}

/// Decides whether some entry has the key `symbol`.
pub fn declares_symbol(entries: &[AttrEntry]) -> (found: bool)
    ensures
        found == names_symbol(entries.deep_view()),
{
    let mut i: usize = 0;
    while i < entries.len()
        invariant
            i <= entries.len(),
            forall|j: int| 0 <= j < i ==> !has_key(#[trigger] entries.deep_view()[j], SYMBOL_KEY@),
        decreases entries.len() - i,
    {
        assert(entries.deep_view()[i as int] == entries@[i as int]@);
        match &entries[i] {
            AttrEntry::NameValue { key, .. } => {
                if key_is(key, SYMBOL_KEY) {
                    return true;
                }
            },
            AttrEntry::Other => {},
        }
        i += 1;
    }
    false
}

/// The first rejected entry, if any entry is rejected: its position and why
/// it is rejected.
pub fn first_rejected_entry(entries: &[AttrEntry]) -> (found: Option<(usize, SpecError)>)
    ensures
        match found {
            Some((i, error)) => {
                &&& i < entries.len()
                &&& first_rejected(entries.deep_view()) == Some(i as int)
                &&& rejection(entries.deep_view()[i as int]) == Some(error@)
            },
            None => first_rejected(entries.deep_view()) is None,
        },
{
    let ghost all = entries.deep_view();
    let mut i: usize = 0;
    while i < entries.len()
        invariant
            i <= entries.len(),
            all == entries.deep_view(),
            first_rejected(all.take(i as int)) is None,
        decreases entries.len() - i,
    {
        proof {
            assert(all[i as int] == entries@[i as int]@);
            assert(all.take(i + 1).drop_last() == all.take(i as int));
            assert(all.take(i + 1).last() == all[i as int]);
        }
        if let Some(error) = check_entry(&entries[i]) {
            proof {
                lemma_first_rejected_prefix(all, i + 1);
            }
            return Some((i, error));
        }
        i += 1;
    }
    assert(all.take(entries.len() as int) == all);
    None
}

/// Reads the interception spec that a parameter list declares.
///
/// A list in which no entry has the key `symbol` is rejected as
/// `MissingSymbol`, whatever else it holds. Otherwise the first entry that is
/// no key-value pair, has an unknown key, or gives a recognized key another
/// value than a string, decides the error. Otherwise the last `symbol` entry
/// gives the exported symbol, which must be an exported identifier, and the
/// last `library` entry, if there is one, the advisory library.
pub fn parse_hook_attributes(entries: &[AttrEntry]) -> (result: Result<InterceptionSpec, SpecError>)
    ensures
        spec_result_view(result) == declared_spec(entries.deep_view()),
        result matches Ok(spec) ==> spec.wf(),
        !names_symbol(entries.deep_view()) ==> result matches Err(SpecError::MissingSymbol),
{
    let ghost all = entries.deep_view();
    if !declares_symbol(entries) {
        return Err(SpecError::MissingSymbol);
    }
    if let Some((_, error)) = first_rejected_entry(entries) {
        return Err(error);
    }
    let mut symbol: Option<String> = None;
    let mut library: Option<String> = None;
    let mut i: usize = 0;
    while i < entries.len()
        invariant
            i <= entries.len(),
            all == entries.deep_view(),
            optional_text(symbol) == last_value(all.take(i as int), SYMBOL_KEY@),
            optional_text(library) == last_value(all.take(i as int), LIBRARY_KEY@),
        decreases entries.len() - i,
    {
        proof {
            reveal_strlit("symbol");
            reveal_strlit("library");
            assert(SYMBOL_KEY@.len() == 6 && LIBRARY_KEY@.len() == 7);
            assert(all[i as int] == entries@[i as int]@);
            assert(all.take(i + 1).drop_last() == all.take(i as int));
            assert(all.take(i + 1).last() == all[i as int]);
        }
        match &entries[i] {
            AttrEntry::NameValue { key, value: AttrValue::Str(text) } => {
                if key_is(key, SYMBOL_KEY) {
                    symbol = Some(text.clone());
                } else if key_is(key, LIBRARY_KEY) {
                    library = Some(text.clone());
                }
            },
            _ => {},
        }
        i += 1;
    }
    proof {
        assert(all.take(entries.len() as int) == all);
        lemma_symbol_has_value(all);
    }
    match symbol {
        Some(exported_symbol) => {
            if is_identifier(exported_symbol.as_str()) {
                Ok(InterceptionSpec { exported_symbol, target_library: library })
            } else {
                Err(SpecError::InvalidSymbol(exported_symbol))
            }
        },
        None => Err(SpecError::MissingSymbol),
    }
}

/// What `last_value` finds: the string value of an entry with the key `key`
/// after which no entry gives that key a string value; and it finds nothing
/// only where no entry gives the key a string value.
pub proof fn lemma_last_value(entries: Seq<AttrEntryView>, key: Seq<char>)
    ensures
        match last_value(entries, key) {
            Some(value) => exists|i: int|
                {
                    &&& 0 <= i < entries.len()
                    &&& #[trigger] gives(entries[i], key) == Some(value)
                    &&& forall|j: int|
                        i < j < entries.len() ==> gives(#[trigger] entries[j], key) is None
                },
            None => forall|j: int|
                0 <= j < entries.len() ==> gives(#[trigger] entries[j], key) is None,
        },
    decreases entries.len(),
{
    if entries.len() > 0 {
        let shorter = entries.drop_last();
        lemma_last_value(shorter, key);
        assert(forall|j: int| 0 <= j < shorter.len() ==> shorter[j] == entries[j]);
        match last_value(entries, key) {
            Some(value) => {
                if gives(entries.last(), key) is Some {
                    assert(gives(entries[entries.len() - 1], key) == Some(value));
                } else {
                    let i = choose|i: int|
                        {
                            &&& 0 <= i < shorter.len()
                            &&& #[trigger] gives(shorter[i], key) == Some(value)
                            &&& forall|j: int|
                                i < j < shorter.len() ==> gives(#[trigger] shorter[j], key) is None
                        };
                    assert(gives(entries[i], key) == Some(value));
                    assert forall|j: int| i < j < entries.len() implies gives(
                        #[trigger] entries[j],
                        key,
                    ) is None by {
                        if j < shorter.len() {
                            assert(shorter[j] == entries[j]);
                        }
                    }
                }
            },
            None => {},
        }
    }
}

/// Where some entry has the key `symbol` and no entry is rejected, the key
/// `symbol` has a string value.
pub proof fn lemma_symbol_has_value(entries: Seq<AttrEntryView>)
    requires
        names_symbol(entries),
        first_rejected(entries) is None,
    ensures
        last_value(entries, SYMBOL_KEY@) is Some,
    decreases entries.len(),
{
    let i = choose|i: int| 0 <= i < entries.len() && has_key(#[trigger] entries[i], SYMBOL_KEY@);
    if i == entries.len() - 1 {
    } else {
        assert(entries.drop_last()[i] == entries[i]);
        lemma_symbol_has_value(entries.drop_last());
    }
}

/// A rejection found in a prefix of the list is the list's first rejection.
proof fn lemma_first_rejected_prefix(entries: Seq<AttrEntryView>, n: int)
    requires
        0 <= n <= entries.len(),
        first_rejected(entries.take(n)) is Some,
    ensures
        first_rejected(entries) == first_rejected(entries.take(n)),
    decreases entries.len() - n,
{
    if n < entries.len() {
        assert(entries.take(n + 1).drop_last() == entries.take(n));
        lemma_first_rejected_prefix(entries, n + 1);
    } else {
        assert(entries.take(n) == entries);
    }
}

/// What `first_rejected` finds: a rejected entry with none rejected before it;
/// and it finds nothing only where no entry is rejected.
pub proof fn lemma_first_rejected(entries: Seq<AttrEntryView>)
    ensures
        match first_rejected(entries) {
            Some(i) => 0 <= i < entries.len() && rejection(entries[i]) is Some && forall|j: int|
                0 <= j < i ==> rejection(#[trigger] entries[j]) is None,
            None => forall|j: int|
                0 <= j < entries.len() ==> rejection(#[trigger] entries[j]) is None,
        },
    decreases entries.len(),
{
    if entries.len() > 0 {
        lemma_first_rejected(entries.drop_last());
        assert(forall|j: int| 0 <= j < entries.len() - 1 ==> entries.drop_last()[j] == entries[j]);
    }
}

} // verus!
