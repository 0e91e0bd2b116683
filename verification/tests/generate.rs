use hooktracer::attributes::{AttrEntry, AttrValue, InterceptionSpec, SpecError};
use hooktracer::signature::{HookDefinition, HookParam, ShapeError};
use hooktracer::wrapper::{derive_wrapper, InterceptionWrapper, WrapperParam};
use hooktracer::{hook_trace, HookError};
use quote::ToTokens;

fn pair(key: &str, value: &str) -> AttrEntry {
    AttrEntry::NameValue { key: key.to_string(), value: AttrValue::Str(value.to_string()) }
}

fn typed(pattern: &str, ty: &str) -> HookParam {
    HookParam::Typed { pattern: pattern.to_string(), ty: ty.to_string(), is_fn_pointer: false }
}

fn original(pattern: &str, ty: &str) -> HookParam {
    HookParam::Typed { pattern: pattern.to_string(), ty: ty.to_string(), is_fn_pointer: true }
}

fn param(pattern: &str, ty: &str) -> WrapperParam {
    WrapperParam { pattern: pattern.to_string(), ty: ty.to_string() }
}

fn readlink_hook() -> HookDefinition {
    HookDefinition {
        name: "my_readlink_hook".to_string(),
        params: vec![
            original(
                "original_readlink",
                "unsafe extern \"C\" fn(pathname: *const c_char, buf: *mut c_char, bufsiz: size_t) -> ssize_t",
            ),
            typed("pathname", "*const c_char"),
            typed("buf", "*mut c_char"),
            typed("bufsiz", "size_t"),
        ],
        output: Some("ssize_t".to_string()),
    }
}

fn readlink_wrapper() -> InterceptionWrapper {
    InterceptionWrapper {
        exported_name: "readlink".to_string(),
        cell_name: "H_READLINK_ORIGINAL".to_string(),
        hook_name: "my_readlink_hook".to_string(),
        params: vec![
            param("pathname", "*const c_char"),
            param("buf", "*mut c_char"),
            param("bufsiz", "size_t"),
        ],
        output: Some("ssize_t".to_string()),
    }
}

const READLINK_SOURCE: &str = r#"static H_READLINK_ORIGINAL: std::sync::OnceLock<unsafe extern "C" fn(*const c_char, *mut c_char, size_t) -> ssize_t> = std::sync::OnceLock::new();

#[no_mangle]
pub unsafe extern "C" fn readlink(pathname: *const c_char, buf: *mut c_char, bufsiz: size_t) -> ssize_t {
    let original_fn = H_READLINK_ORIGINAL.get_or_init(|| {
        let symbol_name_bytes = "readlink\0".as_bytes();
        let symbol_name_ptr = symbol_name_bytes.as_ptr() as *const libc::c_char;
        let current_library_handle = libc::RTLD_NEXT;
        let addr = libc::dlsym(current_library_handle, symbol_name_ptr);
        if addr.is_null() {
            eprintln!(
                "[hooktracer-macro] FATAL: dlsym failed to find symbol '{}' using handle {:p}. Aborting.",
                "readlink",
                current_library_handle as *mut libc::c_void
            );
            std::process::abort();
        }
        std::mem::transmute::<*mut libc::c_void, unsafe extern "C" fn(*const c_char, *mut c_char, size_t) -> ssize_t>(addr)
    });
    my_readlink_hook(*original_fn, pathname, buf, bufsiz)
}
"#;

#[test]
fn readlink_hook_gives_the_readlink_wrapper() {
    let wrapper = hook_trace(&[pair("symbol", "readlink")], &readlink_hook());
    assert_eq!(wrapper, Ok(readlink_wrapper()));
}

#[test]
fn readlink_wrapper_renders_to_its_source() {
    let wrapper = readlink_wrapper();
    assert_eq!(
        wrapper.original_type(),
        "unsafe extern \"C\" fn(*const c_char, *mut c_char, size_t) -> ssize_t"
    );
    assert_eq!(
        wrapper.cell_declaration(),
        "static H_READLINK_ORIGINAL: std::sync::OnceLock<unsafe extern \"C\" fn(*const c_char, *mut c_char, size_t) -> ssize_t> = std::sync::OnceLock::new();\n"
    );
    assert_eq!(wrapper.render(), READLINK_SOURCE);
    assert_eq!(
        wrapper.render(),
        format!("{}\n{}", wrapper.cell_declaration(), wrapper.exported_function())
    );
}

#[test]
fn exported_name_is_the_declared_symbol() {
    for symbol in ["readlink", "malloc", "__libc_start_main", "open64", "Foo_Bar"] {
        let wrapper = hook_trace(
            &[pair("library", "libc.so.6"), pair("symbol", symbol)],
            &readlink_hook(),
        )
        .unwrap();
        assert_eq!(wrapper.exported_name, symbol);
        let source = wrapper.render();
        assert!(source.contains(&format!("#[no_mangle]\npub unsafe extern \"C\" fn {}(", symbol)));
        assert!(source.contains(&format!("let symbol_name_bytes = \"{}\\0\".as_bytes();", symbol)));
    }
}

#[test]
fn rendered_source_is_a_static_and_an_exported_function() {
    let source = hook_trace(&[pair("symbol", "readlink")], &readlink_hook()).unwrap().render();
    let file = syn::parse_file(&source).unwrap();
    assert_eq!(file.items.len(), 2);
    match &file.items[0] {
        syn::Item::Static(cell) => {
            assert_eq!(cell.ident.to_string(), "H_READLINK_ORIGINAL");
            assert!(cell.mutability.is_none());
            assert!(matches!(cell.vis, syn::Visibility::Inherited));
        }
        _ => panic!("the first item is not a static"),
    }
    match &file.items[1] {
        syn::Item::Fn(function) => {
            assert_eq!(function.sig.ident.to_string(), "readlink");
            assert!(function.sig.unsafety.is_some());
            let abi = function.sig.abi.as_ref().unwrap();
            assert_eq!(abi.name.as_ref().unwrap().value(), "C");
            assert!(matches!(function.vis, syn::Visibility::Public(_)));
            assert_eq!(function.attrs.len(), 1);
            assert!(function.attrs[0].path.is_ident("no_mangle"));
            assert_eq!(function.sig.inputs.len(), 3);
            assert!(matches!(function.sig.output, syn::ReturnType::Type(_, _)));
        }
        _ => panic!("the second item is not a function"),
    }
}

#[test]
fn hook_without_return_type_returns_unit() {
    let hook = HookDefinition {
        name: "on_free".to_string(),
        params: vec![original("original", "unsafe extern \"C\" fn(*mut c_void)"), typed("p", "*mut c_void")],
        output: None,
    };
    let wrapper = hook_trace(&[pair("symbol", "free")], &hook).unwrap();
    assert_eq!(wrapper.output, None);
    assert_eq!(wrapper.original_type(), "unsafe extern \"C\" fn(*mut c_void) -> ()");
    let source = wrapper.render();
    assert!(source.contains("pub unsafe extern \"C\" fn free(p: *mut c_void) -> () {\n"));
    assert!(source.contains("    on_free(*original_fn, p)\n}\n"));
    assert!(syn::parse_file(&source).is_ok());
}

#[test]
fn hook_with_the_original_alone_gives_a_wrapper_without_parameters() {
    let hook = HookDefinition {
        name: "on_getpid".to_string(),
        params: vec![original("original", "unsafe extern \"C\" fn() -> pid_t")],
        output: Some("pid_t".to_string()),
    };
    let wrapper = hook_trace(&[pair("symbol", "getpid")], &hook).unwrap();
    assert_eq!(wrapper.params, vec![]);
    assert_eq!(wrapper.original_type(), "unsafe extern \"C\" fn() -> pid_t");
    let source = wrapper.render();
    assert!(source.contains("pub unsafe extern \"C\" fn getpid() -> pid_t {\n"));
    assert!(source.contains("    on_getpid(*original_fn)\n}\n"));
    assert!(syn::parse_file(&source).is_ok());
}

#[test]
fn library_does_not_change_the_wrapper() {
    let plain = hook_trace(&[pair("symbol", "readlink")], &readlink_hook()).unwrap();
    let hinted = hook_trace(
        &[pair("symbol", "readlink"), pair("library", "libc.so.6")],
        &readlink_hook(),
    )
    .unwrap();
    assert_eq!(plain, hinted);
    assert_eq!(plain.render(), hinted.render());
    assert!(hinted.render().contains("let current_library_handle = libc::RTLD_NEXT;"));
    assert!(!hinted.render().contains("libc.so.6"));
}

#[test]
fn the_lookup_stands_once_in_the_source_inside_the_initializer() {
    let source = readlink_wrapper().render();
    assert_eq!(source.matches("libc::dlsym(").count(), 1);
    assert_eq!(source.matches(".get_or_init(").count(), 1);
    let initializer = source.find(".get_or_init(|| {").unwrap();
    let lookup = source.find("libc::dlsym(").unwrap();
    let end = source.find("    });\n").unwrap();
    let call = source.find("my_readlink_hook(*original_fn").unwrap();
    assert!(initializer < lookup && lookup < end && end < call);
}

#[test]
fn missing_symbol_diagnostic_names_the_symbol_and_aborts() {
    let wrapper = hook_trace(&[pair("symbol", "doesNotExist123")], &readlink_hook()).unwrap();
    assert_eq!(wrapper.cell_name, "H_DOESNOTEXIST123_ORIGINAL");
    let source = wrapper.render();
    let check = source.find("if addr.is_null() {").unwrap();
    let diagnostic = source.find("dlsym failed to find symbol '{}' using handle {:p}").unwrap();
    let named = source.find("\"doesNotExist123\",\n").unwrap();
    let abort = source.find("std::process::abort();").unwrap();
    let convert = source.find("std::mem::transmute").unwrap();
    assert!(check < diagnostic && diagnostic < named && named < abort && abort < convert);
}

#[test]
fn zero_parameters_fail_with_no_parameters() {
    let hook = HookDefinition { name: "hook".to_string(), params: vec![], output: None };
    assert_eq!(
        hook_trace(&[pair("symbol", "readlink")], &hook),
        Err(HookError::Shape(ShapeError::NoParameters))
    );
}

#[test]
fn first_parameter_of_another_type_fails() {
    let hook = HookDefinition {
        name: "hook".to_string(),
        params: vec![typed("pathname", "*const c_char"), typed("buf", "*mut c_char")],
        output: Some("ssize_t".to_string()),
    };
    assert_eq!(
        hook_trace(&[pair("symbol", "readlink")], &hook),
        Err(HookError::Shape(ShapeError::FirstParamNotFunctionPointer))
    );
}

#[test]
fn receiver_first_fails() {
    let hook = HookDefinition {
        name: "hook".to_string(),
        params: vec![HookParam::Receiver, typed("buf", "*mut c_char")],
        output: None,
    };
    assert_eq!(
        hook_trace(&[pair("symbol", "readlink")], &hook),
        Err(HookError::Shape(ShapeError::ReceiverNotAllowed))
    );
}

#[test]
fn missing_symbol_fails_whatever_the_hook() {
    let hooks = [
        readlink_hook(),
        HookDefinition { name: "hook".to_string(), params: vec![], output: None },
        HookDefinition { name: "hook".to_string(), params: vec![HookParam::Receiver], output: None },
    ];
    for hook in &hooks {
        assert_eq!(hook_trace(&[], hook), Err(HookError::Spec(SpecError::MissingSymbol)));
        assert_eq!(
            hook_trace(&[pair("library", "libc.so.6"), AttrEntry::Other], hook),
            Err(HookError::Spec(SpecError::MissingSymbol))
        );
    }
}

#[test]
fn parameters_are_checked_before_the_hook() {
    let hook = HookDefinition { name: "hook".to_string(), params: vec![], output: None };
    assert_eq!(
        hook_trace(&[pair("symbol", "readlink"), pair("colour", "red")], &hook),
        Err(HookError::Spec(SpecError::UnknownKey("colour".to_string())))
    );
    assert_eq!(
        hook_trace(&[pair("symbol", "read link")], &hook),
        Err(HookError::Spec(SpecError::InvalidSymbol("read link".to_string())))
    );
}

#[test]
fn hook_errors_have_the_diagnostics_of_their_cause() {
    assert_eq!(
        HookError::Spec(SpecError::MissingSymbol).message(),
        SpecError::MissingSymbol.message()
    );
    assert_eq!(
        HookError::Shape(ShapeError::NoParameters).message(),
        ShapeError::NoParameters.message()
    );
}

#[test]
fn derive_wrapper_takes_the_parameters_after_the_first() {
    let spec = InterceptionSpec {
        exported_symbol: "write".to_string(),
        target_library: Some("libc.so.6".to_string()),
    };
    let hook = HookDefinition {
        name: "spy".to_string(),
        params: vec![
            original("next", "unsafe extern \"C\" fn(c_int, *const c_void, size_t) -> ssize_t"),
            typed("fd", "c_int"),
            typed("(data)", "*const c_void"),
            typed("_", "size_t"),
        ],
        output: Some("ssize_t".to_string()),
    };
    assert_eq!(
        derive_wrapper(&spec, &hook),
        InterceptionWrapper {
            exported_name: "write".to_string(),
            cell_name: "H_WRITE_ORIGINAL".to_string(),
            hook_name: "spy".to_string(),
            params: vec![param("fd", "c_int"), param("(data)", "*const c_void"), param("_", "size_t")],
            output: Some("ssize_t".to_string()),
        }
    );
}

fn hook_from_source(source: &str) -> (syn::ItemFn, HookDefinition) {
    let item: syn::ItemFn = syn::parse_str(source).unwrap();
    let params = item
        .sig
        .inputs
        .iter()
        .map(|arg| match arg {
            syn::FnArg::Receiver(_) => HookParam::Receiver,
            syn::FnArg::Typed(typed) => HookParam::Typed {
                pattern: typed.pat.to_token_stream().to_string(),
                ty: typed.ty.to_token_stream().to_string(),
                is_fn_pointer: matches!(*typed.ty, syn::Type::BareFn(_)),
            },
        })
        .collect();
    let output = match &item.sig.output {
        syn::ReturnType::Default => None,
        syn::ReturnType::Type(_, ty) => Some(ty.to_token_stream().to_string()),
    };
    let hook = HookDefinition { name: item.sig.ident.to_string(), params, output };
    (item, hook)
}

#[test]
fn wrapper_signature_is_the_hook_signature_without_the_first_parameter() {
    let sources = [
        "fn my_readlink_hook(
            original_readlink: unsafe extern \"C\" fn(*const c_char, *mut c_char, size_t) -> ssize_t,
            pathname: *const c_char,
            buf: *mut c_char,
            bufsiz: size_t,
        ) -> ssize_t {
            unsafe { original_readlink(pathname, buf, bufsiz) }
        }",
        "fn on_free(next: unsafe extern \"C\" fn(*mut libc::c_void), pointer: *mut libc::c_void) {
            unsafe { next(pointer) }
        }",
        "fn on_getpid(next: unsafe extern \"C\" fn() -> libc::pid_t) -> libc::pid_t {
            unsafe { next() }
        }",
        "fn on_signal(
            next: unsafe extern \"C\" fn(libc::c_int, Option<extern \"C\" fn(libc::c_int)>) -> usize,
            signum: libc::c_int,
            handler: Option<extern \"C\" fn(libc::c_int)>,
        ) -> usize {
            unsafe { next(signum, handler) }
        }",
    ];
    for source in sources {
        let (item, hook) = hook_from_source(source);
        assert!(hook.is_well_formed());
        let wrapper = hook_trace(&[pair("symbol", "intercepted")], &hook).unwrap();
        let file = syn::parse_file(&wrapper.render()).unwrap();
        let function = match &file.items[1] {
            syn::Item::Fn(function) => function,
            _ => panic!("the second item is not a function"),
        };
        let declared: Vec<String> =
            item.sig.inputs.iter().skip(1).map(|arg| arg.to_token_stream().to_string()).collect();
        let exported: Vec<String> =
            function.sig.inputs.iter().map(|arg| arg.to_token_stream().to_string()).collect();
        assert_eq!(exported, declared);
        let declared_output = match &item.sig.output {
            syn::ReturnType::Default => "()".to_string(),
            syn::ReturnType::Type(_, ty) => ty.to_token_stream().to_string(),
        };
        let exported_output = match &function.sig.output {
            syn::ReturnType::Default => panic!("the exported function declares no return type"),
            syn::ReturnType::Type(_, ty) => ty.to_token_stream().to_string(),
        };
        assert_eq!(exported_output, declared_output);
        assert_eq!(function.sig.ident.to_string(), "intercepted");
    }
}

#[test]
fn hook_sources_of_the_wrong_shape_are_rejected() {
    let (_, no_parameters) = hook_from_source("fn hook() {}");
    assert_eq!(
        hook_trace(&[pair("symbol", "f")], &no_parameters),
        Err(HookError::Shape(ShapeError::NoParameters))
    );
    let (_, not_a_pointer) = hook_from_source("fn hook(fd: i32, n: usize) -> isize { 0 }");
    assert_eq!(
        hook_trace(&[pair("symbol", "f")], &not_a_pointer),
        Err(HookError::Shape(ShapeError::FirstParamNotFunctionPointer))
    );
    let (_, in_parentheses) = hook_from_source("fn hook(next: (fn()), n: usize) {}");
    assert_eq!(
        hook_trace(&[pair("symbol", "f")], &in_parentheses),
        Err(HookError::Shape(ShapeError::FirstParamNotFunctionPointer))
    );
    let (_, receiver) = hook_from_source("fn hook(&self, n: usize) {}");
    assert_eq!(
        hook_trace(&[pair("symbol", "f")], &receiver),
        Err(HookError::Shape(ShapeError::ReceiverNotAllowed))
    );
}
