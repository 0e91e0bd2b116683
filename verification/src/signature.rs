//! The shape of a hook definition: the user's function that receives the
//! original function as its first argument.

use vstd::prelude::*;
use vstd::string::StringExecFns;

verus! {

/// One parameter of a hook definition.
#[derive(Debug, Clone, PartialEq, Eq)]
pub enum HookParam {
    /// A receiver: `self` in any of its forms.
    Receiver,
    /// `pattern: ty`, both as source text. `is_fn_pointer` says whether the
    /// type is a function-pointer type, which the parser of the type knows.
    Typed { pattern: String, ty: String, is_fn_pointer: bool },
}

/// A hook definition, as far as the generator reads it.
#[derive(Debug, Clone, PartialEq, Eq)]
pub struct HookDefinition {
    /// The function's name.
    pub name: String,
    /// Its parameters, in order.
    pub params: Vec<HookParam>,
    /// Its return type as source text; `None` where it declares none.
    pub output: Option<String>,
}

/// Why a hook definition does not have the required shape.
#[derive(Debug, Clone, Copy, PartialEq, Eq, Structural)]
pub enum ShapeError {
    /// The hook declares no parameter.
    NoParameters,
    /// The first parameter's type is not a function-pointer type.
    FirstParamNotFunctionPointer,
    /// The first parameter is a receiver.
    ReceiverNotAllowed,
}

/// A parameter, with texts in place of strings.
pub enum HookParamView {
    Receiver,
    Typed { pattern: Seq<char>, ty: Seq<char>, is_fn_pointer: bool },
}

/// A hook definition, with texts in place of strings.
pub struct HookDefinitionView {
    pub name: Seq<char>,
    pub params: Seq<HookParamView>,
    pub output: Option<Seq<char>>,
}

impl View for HookParam {
    type V = HookParamView;

    open spec fn view(&self) -> HookParamView {
        match self {
            HookParam::Receiver => HookParamView::Receiver,
            HookParam::Typed { pattern, ty, is_fn_pointer } => HookParamView::Typed {
                pattern: pattern@,
                ty: ty@,
                is_fn_pointer: *is_fn_pointer,
            },
        }
    }
}

impl DeepView for HookParam {
    type V = HookParamView;

    open spec fn deep_view(&self) -> HookParamView {
        self@
    }
}

impl View for HookDefinition {
    type V = HookDefinitionView;

    open spec fn view(&self) -> HookDefinitionView {
        HookDefinitionView {
            name: self.name@,
            params: self.params.deep_view(),
            output: match self.output {
                Some(ty) => Some(ty@),
                None => None,
            },
        }
    }
}

/// What is said of a hook without parameters.
pub const NO_PARAMETERS: &'static str =
    "Hook logic function must accept at least one argument (the original function pointer)";

/// What is said of a first parameter of another type than a function pointer.
pub const FIRST_PARAM_NOT_FUNCTION_POINTER: &'static str =
    "The first argument of the hook logic function must be a function pointer (e.g., `fn_ptr: unsafe extern \"C\" fn(...) -> ...`)";

/// What is said of a receiver in the first place.
pub const RECEIVER_NOT_ALLOWED: &'static str =
    "Hook logic function cannot have a 'self' receiver as its first argument";

impl ShapeError {
    /// The diagnostic for this error.
    pub open spec fn message_text(self) -> Seq<char> {
        match self {
            ShapeError::NoParameters => NO_PARAMETERS@,
            ShapeError::FirstParamNotFunctionPointer => FIRST_PARAM_NOT_FUNCTION_POINTER@,
            ShapeError::ReceiverNotAllowed => RECEIVER_NOT_ALLOWED@,
        }
    }

    /// The diagnostic for this error.
    pub fn message(&self) -> (text: String)
        ensures
            text@ == self.message_text(),
    {
        match self {
            ShapeError::NoParameters => String::from_str(NO_PARAMETERS),
            ShapeError::FirstParamNotFunctionPointer => String::from_str(
                FIRST_PARAM_NOT_FUNCTION_POINTER,
            ),
            ShapeError::ReceiverNotAllowed => String::from_str(RECEIVER_NOT_ALLOWED),
        }
    }
}

impl HookDefinitionView {
    /// A receiver can only be a function's first parameter.
    pub open spec fn wf(self) -> bool {
        forall|i: int| 1 <= i < self.params.len() ==> #[trigger] self.params[i] is Typed
    }
}

/// The first parameter is an explicit parameter of a function-pointer type.
pub open spec fn takes_original_first(hook: HookDefinitionView) -> bool {
    hook.params.len() > 0 && hook.params[0] matches HookParamView::Typed { is_fn_pointer: true, .. }
}

/// The first parameter is an explicit parameter of another type than a
/// function pointer.
pub open spec fn first_has_another_type(hook: HookDefinitionView) -> bool {
    hook.params.len() > 0 && hook.params[0] matches HookParamView::Typed {
        is_fn_pointer: false,
        ..
    }
}

/// What the validator says of a hook definition: the first parameter must be
/// there, must not be a receiver, and must have a function-pointer type.
pub open spec fn shape_check(hook: HookDefinitionView) -> Result<(), ShapeError> {
    if hook.params.len() == 0 {
        Err(ShapeError::NoParameters)
    } else {
        match hook.params[0] {
            HookParamView::Receiver => Err(ShapeError::ReceiverNotAllowed),
            HookParamView::Typed { is_fn_pointer, .. } => if is_fn_pointer {
                Ok(())
            } else {
                Err(ShapeError::FirstParamNotFunctionPointer)
            },
        }
    }
}

impl HookDefinition {
    /// A receiver can only be a function's first parameter.
    pub open spec fn wf(&self) -> bool {
        self@.wf()
    }

    /// Decides whether the definition is well formed.
    pub fn is_well_formed(&self) -> (b: bool)
        ensures
            b == self.wf(),
    {
        let mut i: usize = 1;
        while i < self.params.len()
            invariant
                1 <= i,
                forall|j: int|
                    1 <= j < i && j < self.params.len() ==> #[trigger] self@.params[j] is Typed,
            decreases self.params.len() - i,
        {
            assert(self@.params[i as int] == self.params@[i as int]@);
            match &self.params[i] {
                HookParam::Receiver => {
                    return false;
                },
                HookParam::Typed { .. } => {},
            }
            i += 1;
        }
        true
    }
}

/// Checks that a hook definition has the shape that the generator needs: at
/// least one parameter, the first of them an explicit parameter of a
/// function-pointer type.
pub fn validate_user_fn_signature(hook: &HookDefinition) -> (result: Result<(), ShapeError>)
    ensures
        result == shape_check(hook@),
        result is Ok <==> takes_original_first(hook@),
        hook@.params.len() == 0 ==> result == Err::<(), ShapeError>(ShapeError::NoParameters),
        first_has_another_type(hook@) ==> result == Err::<(), ShapeError>(
            ShapeError::FirstParamNotFunctionPointer,
        ),
        hook@.params.len() > 0 && hook@.params[0] is Receiver ==> result == Err::<(), ShapeError>(
            ShapeError::ReceiverNotAllowed,
        ),
{
    if hook.params.len() == 0 {
        return Err(ShapeError::NoParameters);
    }
    assert(hook@.params[0] == hook.params@[0]@);
    match &hook.params[0] {
        HookParam::Typed { is_fn_pointer, .. } => {
            if *is_fn_pointer {
                Ok(())
            } else {
                Err(ShapeError::FirstParamNotFunctionPointer)
            }
        },
        HookParam::Receiver => Err(ShapeError::ReceiverNotAllowed),
    }
}

} // verus!
