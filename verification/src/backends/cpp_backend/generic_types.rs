use vstd::prelude::*;

use crate::backends::BackendItem;
use crate::conversion::{ConversionLog, ConversionResult, WarningText, unsupported, feature_warning};
use crate::ir::LanguageGenericArgument;

verus! {

/// Represents a C++ template parameter.
#[derive(Debug, Clone, PartialEq)]
pub struct CppGenericArgument {
    /// The name of the template parameter.
    pub name: String,
    /// The keyword that precedes the parameter name.
    /// For C++, this is typically:
    /// - "typename" or "class" for type parameters
    /// - "int", "size_t", etc. for value parameters
    /// - "" (empty string) for parameters without an explicit keyword
    pub keyword: String,
    /// Optional default value for the template parameter.
    /// For example: "int" -> "T = int" or "10" -> "T = 10" in C++
    pub default_value: Option<String>,
}


/// Conversion options for C++ template parameters (there are none).
#[derive(Debug, Clone, Copy)]
pub struct CppGenericArgumentConversionOptions;

impl Default for CppGenericArgumentConversionOptions {
    fn default() -> (r: Self) {
        CppGenericArgumentConversionOptions
    }
}

/// What converting an IR generic parameter to C++ loses: its `where` clause.
pub open spec fn cpp_generic_from_ir_warnings(g: LanguageGenericArgument) -> Seq<WarningText> {
    if g.where_clause is Some {
        seq![unsupported(
            "`where` clause on template parameter `"@ + g.name@ + "`"@,
            "C++ has no `where` clauses on template parameters; the constraint was dropped"@,
        )]
    } else {
        Seq::empty()
    }
}

impl BackendItem for CppGenericArgument {
    type IrType = LanguageGenericArgument;
    type ConversionOptions = CppGenericArgumentConversionOptions;

    fn to_ir(self, options: Option<&CppGenericArgumentConversionOptions>) -> (r: ConversionResult<LanguageGenericArgument>)
        ensures
            r.value.name == self.name,
            r.value.keyword == self.keyword,
            r.value.default_value == self.default_value,
            r.value.where_clause is None,
            r.log@ == Seq::<WarningText>::empty(),
    {
        ConversionResult::new(LanguageGenericArgument {
            name: self.name,
            keyword: self.keyword,
            default_value: self.default_value,
            where_clause: None,
        })
    }

    fn from_ir(input: LanguageGenericArgument, options: Option<&CppGenericArgumentConversionOptions>) -> (r: ConversionResult<Self>)
        ensures
            r.value.name == input.name,
            r.value.keyword == input.keyword,
            r.value.default_value == input.default_value,
            r.log@ == cpp_generic_from_ir_warnings(input),
    {
        let mut log = ConversionLog::new();
        if input.where_clause.is_some() {
            log.add_warning(feature_warning(
                "`where` clause on template parameter `",
                input.name.as_str(),
                "`",
                "C++ has no `where` clauses on template parameters; the constraint was dropped",
            ));
        }
        assert(log@ =~= cpp_generic_from_ir_warnings(input));
        ConversionResult::with_log(
            CppGenericArgument { name: input.name, keyword: input.keyword, default_value: input.default_value },
            log,
        )
    }
}

} // verus!
