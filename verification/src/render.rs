//! The source text of an interception wrapper: the declaration of its
//! resolution cell and the definition of the exported function.
//!
//! On its first call the exported function asks the dynamic loader for the
//! next definition of its own symbol, and ends the process with a diagnostic
//! where there is none. `OnceLock::get_or_init` runs that lookup once, however
//! many threads make the first call together, and every call hands the
//! address it holds to the hook.

use vstd::prelude::*;
use vstd::string::StringExecFns;
use crate::text::{is_exported_identifier, join, joined, texts};
use crate::wrapper::InterceptionWrapper;
use crate::wrapper::InterceptionWrapperView;

verus! {

/// The original's type starts with its qualifiers.
pub const TYPE_OPEN: &'static str = "unsafe extern \"C\" fn(";

/// Between the parameters of the original function's type and its return type.
pub const ARROW: &'static str = ") -> ";

/// The return type of a function that declares none.
pub const UNIT: &'static str = "()";

/// Between two parameters or two arguments.
pub const COMMA: &'static str = ", ";

/// Between a parameter's pattern and its type.
pub const COLON: &'static str = ": ";

/// What the hook is handed first: the original function.
pub const ORIGINAL_ARGUMENT: &'static str = "*original_fn";

/// The cell's declaration, up to its name.
pub const CELL_OPEN: &'static str = "static ";

/// The cell's declaration, from its name to the original function's type.
pub const CELL_TYPE_OPEN: &'static str = ": std::sync::OnceLock<";

/// The cell's declaration, after the original function's type.
pub const CELL_CLOSE: &'static str = "> = std::sync::OnceLock::new();\n";

/// The exported function, up to its name.
pub const FUNCTION_OPEN: &'static str = "#[no_mangle]
pub unsafe extern \"C\" fn ";

/// Before the exported function's parameters.
pub const PARAMS_OPEN: &'static str = "(";

/// The body, up to the name of the cell.
pub const BODY_OPEN: &'static str = " {
    let original_fn = ";

/// The lookup, up to the symbol as a C string.
pub const LOOKUP_OPEN: &'static str = ".get_or_init(|| {
        let symbol_name_bytes = \"";

/// The lookup itself and the fatal path, up to the symbol in the diagnostic.
pub const LOOKUP_CALL: &'static str = "\\0\".as_bytes();
        let symbol_name_ptr = symbol_name_bytes.as_ptr() as *const libc::c_char;
        let current_library_handle = libc::RTLD_NEXT;
        let addr = libc::dlsym(current_library_handle, symbol_name_ptr);
        if addr.is_null() {
            eprintln!(
                \"[hooktracer-macro] FATAL: dlsym failed to find symbol '{}' using handle {:p}. Aborting.\",
                \"";

/// The end of the fatal path, and the address's conversion up to its type.
pub const LOOKUP_FAILED: &'static str = "\",
                current_library_handle as *mut libc::c_void
            );
            std::process::abort();
        }
        std::mem::transmute::<*mut libc::c_void, ";

/// The end of the lookup, up to the name of the hook.
pub const LOOKUP_CLOSE: &'static str = ">(addr)
    });
    ";

/// Before the hook's arguments.
pub const ARGUMENTS_OPEN: &'static str = "(";

/// The end of the call and of the exported function.
pub const FUNCTION_CLOSE: &'static str = ")
}
";

impl InterceptionWrapperView {
    /// The return type as it is written out.
    pub open spec fn output_text(self) -> Seq<char> {
        match self.output {
            Some(ty) => ty,
            None => UNIT@,
        }
    }

    /// The types of the parameters, in order.
    pub open spec fn param_types(self) -> Seq<Seq<char>> {
        Seq::new(self.params.len(), |i: int| self.params[i].ty)
    }

    /// The parameters as they are declared, in order.
    pub open spec fn param_declarations(self) -> Seq<Seq<char>> {
        Seq::new(self.params.len(), |i: int| self.params[i].pattern + COLON@ + self.params[i].ty)
    }

    /// What the hook is called with: the original function, then the wrapper's
    /// own arguments in order.
    pub open spec fn call_arguments(self) -> Seq<Seq<char>> {
        Seq::new(
            self.params.len() + 1,
            |i: int|
                if i == 0 {
                    ORIGINAL_ARGUMENT@
                } else {
                    self.params[i - 1].pattern
                },
        )
    }

    /// The type of the original function: a C function with the wrapper's
    /// parameter types and return type.
    pub open spec fn original_type(self) -> Seq<char> {
        TYPE_OPEN@ + joined(self.param_types(), COMMA@) + ARROW@ + self.output_text()
    }

    /// The declaration of the resolution cell.
    pub open spec fn cell_declaration(self) -> Seq<char> {
        CELL_OPEN@ + self.cell_name + CELL_TYPE_OPEN@ + self.original_type() + CELL_CLOSE@
    }

    /// The definition of the exported function.
    pub open spec fn exported_function(self) -> Seq<char> {
        FUNCTION_OPEN@ + self.exported_name + PARAMS_OPEN@ + joined(
            self.param_declarations(),
            COMMA@,
        ) + ARROW@ + self.output_text() + BODY_OPEN@ + self.cell_name + LOOKUP_OPEN@
            + self.exported_name + LOOKUP_CALL@ + self.exported_name + LOOKUP_FAILED@
            + self.original_type() + LOOKUP_CLOSE@ + self.hook_name + ARGUMENTS_OPEN@ + joined(
            self.call_arguments(),
            COMMA@,
        ) + FUNCTION_CLOSE@
    }

    /// The whole source text: the cell, an empty line, the function.
    pub open spec fn source(self) -> Seq<char> {
        self.cell_declaration() + "\n"@ + self.exported_function()
    }
}

impl InterceptionWrapper {
    fn output_text(&self) -> (text: String)
        ensures
            text@ == self@.output_text(),
    {
        match &self.output {
            Some(ty) => ty.clone(),
            None => String::from_str(UNIT),
        }
    }

    fn param_types(&self) -> (types: Vec<String>)
        ensures
            texts(types@) == self@.param_types(),
    {
        let mut types: Vec<String> = Vec::new();
        let mut i: usize = 0;
        while i < self.params.len()
            invariant
                i <= self.params.len(),
                types.len() == i,
                forall|j: int| 0 <= j < i ==> (#[trigger] types@[j])@ == self.params@[j].ty@,
            decreases self.params.len() - i,
        {
            types.push(self.params[i].ty.clone());
            i += 1;
        }
        assert(texts(types@) =~= self@.param_types());
        types
    }

    fn param_declarations(&self) -> (declarations: Vec<String>)
        ensures
            texts(declarations@) == self@.param_declarations(),
    {
        let mut declarations: Vec<String> = Vec::new();
        let mut i: usize = 0;
        while i < self.params.len()
            invariant
                i <= self.params.len(),
                declarations.len() == i,
                forall|j: int|
                    0 <= j < i ==> (#[trigger] declarations@[j])@ == self.params@[j].pattern@
                        + COLON@ + self.params@[j].ty@,
            decreases self.params.len() - i,
        {
            let mut declaration = self.params[i].pattern.clone();
            declaration.append(COLON);
            declaration.append(self.params[i].ty.as_str());
            declarations.push(declaration);
            i += 1;
        }
        assert(texts(declarations@) =~= self@.param_declarations());
        declarations
    }

    fn call_arguments(&self) -> (arguments: Vec<String>)
        ensures
            texts(arguments@) == self@.call_arguments(),
    {
        let mut arguments: Vec<String> = Vec::new();
        arguments.push(String::from_str(ORIGINAL_ARGUMENT));
        let mut i: usize = 0;
        while i < self.params.len()
            invariant
                i <= self.params.len(),
                arguments.len() == i + 1,
                arguments@[0]@ == ORIGINAL_ARGUMENT@,
                forall|j: int|
                    1 <= j <= i ==> (#[trigger] arguments@[j])@ == self.params@[j - 1].pattern@,
            decreases self.params.len() - i,
        {
            arguments.push(self.params[i].pattern.clone());
            i += 1;
        }
        assert(texts(arguments@) =~= self@.call_arguments());
        arguments
    }

    /// The type of the original function, as source text.
    pub fn original_type(&self) -> (text: String)
        ensures
            text@ == self@.original_type(),
    {
        let mut text = String::from_str(TYPE_OPEN);
        text.append(join(&self.param_types(), COMMA).as_str());
        text.append(ARROW);
        text.append(self.output_text().as_str());
        text
    }

    /// The declaration of the resolution cell, as source text.
    pub fn cell_declaration(&self) -> (text: String)
        ensures
            text@ == self@.cell_declaration(),
    {
        let mut text = String::from_str(CELL_OPEN);
        text.append(self.cell_name.as_str());
        text.append(CELL_TYPE_OPEN);
        text.append(self.original_type().as_str());
        text.append(CELL_CLOSE);
        text
    }

    /// The definition of the exported function, as source text.
    pub fn exported_function(&self) -> (text: String)
        ensures
            text@ == self@.exported_function(),
    {
        let mut text = String::from_str(FUNCTION_OPEN);
        text.append(self.exported_name.as_str());
        text.append(PARAMS_OPEN);
        text.append(join(&self.param_declarations(), COMMA).as_str());
        text.append(ARROW);
        text.append(self.output_text().as_str());
        text.append(BODY_OPEN);
        text.append(self.cell_name.as_str());
        text.append(LOOKUP_OPEN);
        text.append(self.exported_name.as_str());
        text.append(LOOKUP_CALL);
        text.append(self.exported_name.as_str());
        text.append(LOOKUP_FAILED);
        text.append(self.original_type().as_str());
        text.append(LOOKUP_CLOSE);
        text.append(self.hook_name.as_str());
        text.append(ARGUMENTS_OPEN);
        text.append(join(&self.call_arguments(), COMMA).as_str());
        text.append(FUNCTION_CLOSE);
        text
    }

    /// The whole source text of the wrapper: the declaration of its cell, an
    /// empty line, and the definition of the exported function.
    pub fn render(&self) -> (text: String)
        ensures
            text@ == self@.source(),
    {
        let mut text = self.cell_declaration();
        text.append("\n");
        text.append(self.exported_function().as_str());
        text
    }
}

/// An exported identifier holds no character that a string literal would have
/// to escape: the source names the symbol by writing it between quotes.
pub proof fn lemma_identifier_needs_no_escape(symbol: Seq<char>, i: int)
    requires
        is_exported_identifier(symbol),
        0 <= i < symbol.len(),
    ensures
        symbol[i] != '"',
        symbol[i] != '\\',
        ' ' < symbol[i] <= '~',
{
}

} // verus!
