//! The interception wrapper that is derived from an interception spec and a
//! hook definition, and its source text.
//!
//! The wrapper takes the original function's place: it is exported under the
//! symbol's own name with the C calling convention, takes the hook's
//! parameters but for the first, and returns what the hook returns. It keeps
//! the address of the original function in a cell of its own, filled on the
//! first call.

use vstd::prelude::*;
use vstd::string::StringExecFns;
use crate::attributes::InterceptionSpec;
use crate::attributes::InterceptionSpecView;
use crate::signature::shape_check;
use crate::signature::HookDefinition;
use crate::signature::HookDefinitionView;
use crate::signature::HookParam;
use crate::signature::HookParamView;
use crate::text::{ascii_uppercase, is_exported_identifier, is_identifier_part};
use crate::text::{optional_text, uppercase};

verus! {

/// One parameter of the wrapper: `pattern: ty`, both as source text.
#[derive(Debug, Clone, PartialEq, Eq)]
pub struct WrapperParam {
    pub pattern: String,
    pub ty: String,
}

/// An interception wrapper and its resolution cell.
#[derive(Debug, Clone, PartialEq, Eq)]
pub struct InterceptionWrapper {
    /// The name under which the wrapper is exported, and which it looks up.
    pub exported_name: String,
    /// The name of the cell that holds the original function's address.
    pub cell_name: String,
    /// The name of the hook that every call is handed to.
    pub hook_name: String,
    /// The wrapper's parameters, which are the original function's.
    pub params: Vec<WrapperParam>,
    /// The return type; `None` where the hook declares none.
    pub output: Option<String>,
}

/// A wrapper's parameter, with texts in place of strings.
pub struct WrapperParamView {
    pub pattern: Seq<char>,
    pub ty: Seq<char>,
}

/// A wrapper, with texts in place of strings.
pub struct InterceptionWrapperView {
    pub exported_name: Seq<char>,
    pub cell_name: Seq<char>,
    pub hook_name: Seq<char>,
    pub params: Seq<WrapperParamView>,
    pub output: Option<Seq<char>>,
}

impl View for WrapperParam {
    type V = WrapperParamView;

    open spec fn view(&self) -> WrapperParamView {
        WrapperParamView { pattern: self.pattern@, ty: self.ty@ }
    }
}

impl DeepView for WrapperParam {
    type V = WrapperParamView;

    open spec fn deep_view(&self) -> WrapperParamView {
        self@
    }
}

impl View for InterceptionWrapper {
    type V = InterceptionWrapperView;

    open spec fn view(&self) -> InterceptionWrapperView {
        InterceptionWrapperView {
            exported_name: self.exported_name@,
            cell_name: self.cell_name@,
            hook_name: self.hook_name@,
            params: self.params.deep_view(),
            output: optional_text(self.output),
        }
    }
}

impl InterceptionWrapperView {
    /// The invariant of a wrapper: the names that it defines are identifiers.
    pub open spec fn wf(self) -> bool {
        is_exported_identifier(self.exported_name) && is_exported_identifier(self.cell_name)
    }
}

impl InterceptionWrapper {
    /// The invariant of a wrapper: the names that it defines are identifiers.
    pub open spec fn wf(&self) -> bool {
        self@.wf()
    }
}

/// What the name of every resolution cell starts with.
pub const CELL_PREFIX: &'static str = "H_";

/// What the name of every resolution cell ends with.
pub const CELL_SUFFIX: &'static str = "_ORIGINAL";

/// The name of the resolution cell of the wrapper for `symbol`: the symbol in
/// upper case between the prefix and the suffix.
pub open spec fn cell_name_for(symbol: Seq<char>) -> Seq<char> {
    CELL_PREFIX@ + ascii_uppercase(symbol) + CELL_SUFFIX@
}

/// The wrapper's parameter that a typed parameter of the hook becomes.
pub open spec fn wrapper_param(param: HookParamView) -> WrapperParamView {
    WrapperParamView { pattern: param->pattern, ty: param->ty }
}

/// The wrapper's parameters: the hook's, but for the first.
pub open spec fn wrapper_params(params: Seq<HookParamView>) -> Seq<WrapperParamView>
    recommends
        params.len() > 0,
{
    Seq::new((params.len() - 1) as nat, |i: int| wrapper_param(params[i + 1]))
}

/// The wrapper for an interception spec and a hook definition.
pub open spec fn wrapper_for(
    spec: InterceptionSpecView,
    hook: HookDefinitionView,
) -> InterceptionWrapperView {
    InterceptionWrapperView {
        exported_name: spec.exported_symbol,
        cell_name: cell_name_for(spec.exported_symbol),
        hook_name: hook.name,
        params: wrapper_params(hook.params),
        output: hook.output,
    }
}

/// The name of the resolution cell of the wrapper for `symbol`.
pub fn cell_name(symbol: &str) -> (name: String)
    ensures
        name@ == cell_name_for(symbol@),
{
    let mut name = String::from_str(CELL_PREFIX);
    name.append(uppercase(symbol).as_str());
    name.append(CELL_SUFFIX);
    name
}

/// Derives the wrapper for a validated interception spec and a validated hook
/// definition: it is exported under the spec's symbol, keeps the original
/// function in the cell named after that symbol, and has the hook's parameters
/// after the first and the hook's return type.
pub fn derive_wrapper(spec: &InterceptionSpec, hook: &HookDefinition) -> (wrapper:
    InterceptionWrapper)
    requires
        spec.wf(),
        hook.wf(),
        shape_check(hook@) is Ok,
    ensures
        wrapper@ == wrapper_for(spec@, hook@),
        wrapper@.exported_name == spec@.exported_symbol,
        wrapper@.params.len() == hook@.params.len() - 1,
        wrapper.wf(),
{
    proof {
        lemma_cell_name_is_identifier(spec@.exported_symbol);
    }
    let mut params: Vec<WrapperParam> = Vec::new();
    let mut i: usize = 1;
    while i < hook.params.len()
        invariant
            1 <= i <= hook.params.len(),
            hook.wf(),
            params.deep_view() == wrapper_params(hook@.params.take(i as int)),
        decreases hook.params.len() - i,
    {
        let ghost before = params.deep_view();
        assert(hook@.params[i as int] == hook.params@[i as int]@);
        match &hook.params[i] {
            HookParam::Typed { pattern, ty, .. } => {
                params.push(WrapperParam { pattern: pattern.clone(), ty: ty.clone() });
            },
            HookParam::Receiver => {
                vstd::pervasive::unreached::<()>();
            },
        }
        proof {
            let next = wrapper_param(hook@.params[i as int]);
            assert(params.deep_view() =~= before.push(next));
            assert(wrapper_params(hook@.params.take(i + 1)) =~= before.push(next));
        }
        i += 1;
    }
    assert(hook@.params.take(hook.params.len() as int) == hook@.params);
    let output = match &hook.output {
        Some(ty) => Some(ty.clone()),
        None => None,
    };
    InterceptionWrapper {
        exported_name: spec.exported_symbol.clone(),
        cell_name: cell_name(spec.exported_symbol.as_str()),
        hook_name: hook.name.clone(),
        params,
        output,
    }
}

/// The cell of an exported identifier is named by an identifier.
pub proof fn lemma_cell_name_is_identifier(symbol: Seq<char>)
    requires
        is_exported_identifier(symbol),
    ensures
        is_exported_identifier(cell_name_for(symbol)),
{
    reveal_strlit("H_");
    reveal_strlit("_ORIGINAL");
    let upper = ascii_uppercase(symbol);
    let name = cell_name_for(symbol);
    assert(name.len() == 2 + symbol.len() + 9);
    assert forall|i: int| 0 <= i < name.len() implies is_identifier_part(#[trigger] name[i]) by {
        if i < 2 {
            assert(name[i] == CELL_PREFIX@[i]);
        } else if i < 2 + symbol.len() {
            assert(name[i] == upper[i - 2]);
            assert(is_identifier_part(symbol[i - 2]));
        } else {
            assert(name[i] == CELL_SUFFIX@[i - 2 - symbol.len()]);
        }
    }
    assert(name[0] == 'H');
}

} // verus!
