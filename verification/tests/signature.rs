use hooktracer::signature::{validate_user_fn_signature, HookDefinition, HookParam, ShapeError};

fn typed(pattern: &str, ty: &str, is_fn_pointer: bool) -> HookParam {
    HookParam::Typed { pattern: pattern.to_string(), ty: ty.to_string(), is_fn_pointer }
}

fn hook(params: Vec<HookParam>) -> HookDefinition {
    HookDefinition { name: "hook".to_string(), params, output: None }
}

#[test]
fn function_pointer_first_is_accepted() {
    assert_eq!(
        validate_user_fn_signature(&hook(vec![typed("original", "unsafe extern \"C\" fn ()", true)])),
        Ok(())
    );
    assert_eq!(
        validate_user_fn_signature(&hook(vec![
            typed("original", "unsafe extern \"C\" fn (i32) -> i32", true),
            typed("x", "i32", false),
        ])),
        Ok(())
    );
}

#[test]
fn no_parameters_are_rejected() {
    assert_eq!(validate_user_fn_signature(&hook(vec![])), Err(ShapeError::NoParameters));
}

#[test]
fn first_parameter_of_another_type_is_rejected() {
    assert_eq!(
        validate_user_fn_signature(&hook(vec![typed("fd", "i32", false)])),
        Err(ShapeError::FirstParamNotFunctionPointer)
    );
    assert_eq!(
        validate_user_fn_signature(&hook(vec![
            typed("fd", "i32", false),
            typed("original", "fn (i32)", true),
        ])),
        Err(ShapeError::FirstParamNotFunctionPointer)
    );
}

#[test]
fn receiver_first_is_rejected() {
    assert_eq!(
        validate_user_fn_signature(&hook(vec![HookParam::Receiver])),
        Err(ShapeError::ReceiverNotAllowed)
    );
    assert_eq!(
        validate_user_fn_signature(&hook(vec![HookParam::Receiver, typed("f", "fn ()", true)])),
        Err(ShapeError::ReceiverNotAllowed)
    );
}

#[test]
fn only_the_first_parameter_is_looked_at() {
    assert_eq!(
        validate_user_fn_signature(&hook(vec![
            typed("original", "fn ()", true),
            typed("callback", "fn ()", true),
            typed("n", "usize", false),
        ])),
        Ok(())
    );
}

#[test]
fn a_receiver_is_well_formed_only_in_the_first_place() {
    assert!(hook(vec![]).is_well_formed());
    assert!(hook(vec![HookParam::Receiver]).is_well_formed());
    assert!(hook(vec![HookParam::Receiver, typed("x", "i32", false)]).is_well_formed());
    assert!(hook(vec![typed("f", "fn ()", true), typed("x", "i32", false)]).is_well_formed());
    assert!(!hook(vec![typed("f", "fn ()", true), HookParam::Receiver]).is_well_formed());
    assert!(!hook(vec![HookParam::Receiver, HookParam::Receiver]).is_well_formed());
}

#[test]
fn shape_errors_have_their_diagnostics() {
    assert_eq!(
        ShapeError::NoParameters.message(),
        "Hook logic function must accept at least one argument (the original function pointer)"
    );
    assert_eq!(
        ShapeError::FirstParamNotFunctionPointer.message(),
        "The first argument of the hook logic function must be a function pointer (e.g., `fn_ptr: unsafe extern \"C\" fn(...) -> ...`)"
    );
    assert_eq!(
        ShapeError::ReceiverNotAllowed.message(),
        "Hook logic function cannot have a 'self' receiver as its first argument"
    );
}
