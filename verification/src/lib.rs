//! Interception wrappers for dynamically linked functions.
//!
//! A hook is a function that is handed the original function as its first
//! argument. From a hook definition and its interception parameters
//! [`hook_trace`] derives the wrapper that takes the original function's
//! place: a function exported under the original function's symbol, which
//! resolves the original function once and hands every call to the hook.

use vstd::prelude::*;
use crate::attributes::{declared_spec, last_value, names_symbol, parse_hook_attributes};
use crate::attributes::SYMBOL_KEY;
use crate::attributes::{AttrEntry, AttrEntryView, SpecError, SpecErrorView};
use crate::signature::{first_has_another_type, shape_check, takes_original_first};
use crate::signature::validate_user_fn_signature;
use crate::signature::{HookDefinition, HookDefinitionView, ShapeError};
use crate::wrapper::{derive_wrapper, wrapper_for, InterceptionWrapper, InterceptionWrapperView};

pub mod attributes;
pub mod render;
pub mod resolution;
pub mod signature;
pub mod text;
pub mod wrapper;

verus! {

/// Why no wrapper is generated.
#[derive(Debug, Clone, PartialEq, Eq)]
pub enum HookError {
    /// The interception parameters are rejected.
    Spec(SpecError),
    /// The hook definition does not have the required shape.
    Shape(ShapeError),
}

/// A generation error, with texts in place of strings.
pub enum HookErrorView {
    Spec(SpecErrorView),
    Shape(ShapeError),
}

impl View for HookError {
    type V = HookErrorView;

    open spec fn view(&self) -> HookErrorView {
        match self {
            HookError::Spec(error) => HookErrorView::Spec(error@),
            HookError::Shape(error) => HookErrorView::Shape(*error),
        }
    }
}

impl HookErrorView {
    /// The diagnostic for this error.
    pub open spec fn message(self) -> Seq<char> {
        match self {
            HookErrorView::Spec(error) => error.message(),
            HookErrorView::Shape(error) => error.message_text(),
        }
    }
}

impl HookError {
    /// The diagnostic for this error.
    pub fn message(&self) -> (text: String)
        ensures
            text@ == self@.message(),
    {
        match self {
            HookError::Spec(error) => error.message(),
            HookError::Shape(error) => error.message(),
        }
    }
}

/// What generation yields: the parameters are read first, then the hook's
/// shape is checked, and only then is there a wrapper.
pub open spec fn generated(entries: Seq<AttrEntryView>, hook: HookDefinitionView) -> Result<
    InterceptionWrapperView,
    HookErrorView,
> {
    match declared_spec(entries) {
        Err(error) => Err(HookErrorView::Spec(error)),
        Ok(spec) => match shape_check(hook) {
            Err(error) => Err(HookErrorView::Shape(error)),
            Ok(_) => Ok(wrapper_for(spec, hook)),
        },
    }
}

/// The view of a generation result.
pub open spec fn generation_view(result: Result<InterceptionWrapper, HookError>) -> Result<
    InterceptionWrapperView,
    HookErrorView,
> {
    match result {
        Ok(wrapper) => Ok(wrapper@),
        Err(error) => Err(error@),
    }
}

/// Generates the interception wrapper for a hook definition and the
/// parameters attached to it.
///
/// Either there is a complete wrapper or there is an error: a rejected
/// parameter list, reported before the hook is looked at, or a hook of the
/// wrong shape. So a list without the key `symbol` fails as `MissingSymbol`
/// whatever the hook. With a valid list, a hook without parameters fails as
/// `NoParameters`, one whose first parameter has another type than a function
/// pointer as `FirstParamNotFunctionPointer`, and a hook whose first
/// parameter is a function pointer gives a wrapper that is exported under
/// the declared symbol.
pub fn hook_trace(entries: &[AttrEntry], hook: &HookDefinition) -> (result: Result<
    InterceptionWrapper,
    HookError,
>)
    requires
        hook.wf(),
    ensures
        generation_view(result) == generated(entries.deep_view(), hook@),
        result matches Ok(wrapper) ==> wrapper.wf(),
        !names_symbol(entries.deep_view()) ==> result matches Err(
            HookError::Spec(SpecError::MissingSymbol),
        ),
        declared_spec(entries.deep_view()) is Ok && hook@.params.len() == 0 ==> result matches Err(
            HookError::Shape(ShapeError::NoParameters),
        ),
        declared_spec(entries.deep_view()) is Ok && first_has_another_type(hook@)
            ==> result matches Err(HookError::Shape(ShapeError::FirstParamNotFunctionPointer)),
        declared_spec(entries.deep_view()) is Ok && takes_original_first(hook@) ==> (
        result matches Ok(wrapper) && Some(wrapper@.exported_name) == last_value(
            entries.deep_view(),
            SYMBOL_KEY@,
        )),
{
    let spec = match parse_hook_attributes(entries) {
        Ok(spec) => spec,
        Err(error) => {
            return Err(HookError::Spec(error));
        },
    };
    if let Err(error) = validate_user_fn_signature(hook) {
        return Err(HookError::Shape(error));
    }
    proof {
        crate::attributes::lemma_symbol_has_value(entries.deep_view());
    }
    Ok(derive_wrapper(&spec, hook))
}

/// The library that a parameter list names is advisory: two lists that
/// declare the same symbol give the same result for a hook, whatever library
/// either of them names.
pub proof fn lemma_library_is_advisory(
    a: Seq<AttrEntryView>,
    b: Seq<AttrEntryView>,
    hook: HookDefinitionView,
)
    requires
        declared_spec(a) is Ok,
        declared_spec(b) is Ok,
        declared_spec(a)->Ok_0.exported_symbol == declared_spec(b)->Ok_0.exported_symbol,
    ensures
        generated(a, hook) == generated(b, hook),
{
}

} // verus!
