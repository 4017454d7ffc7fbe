use vstd::prelude::*;

use crate::backends::BackendItem;
use crate::conversion::{approximated, ConversionResult, ConversionWarning, WarningText};
use crate::ir::Visibility;
use crate::text::push_str;

verus! {

/// C++ visibility modifiers for classes, structs, and enums.
#[derive(Debug, Clone, Copy, PartialEq, Eq, Structural)]
pub enum CppVisibility {
    /// Default access (no explicit specifier).
    Default,
    /// Public access.
    Public,
    /// Protected access (only relevant within classes).
    Protected,
    /// Private access.
    Private,
}

impl CppVisibility {
    /// The access specifier as written in source (empty for the default).
    pub open spec fn text(self) -> Seq<char> {
        match self {
            CppVisibility::Public => "public"@,
            CppVisibility::Protected => "protected"@,
            CppVisibility::Private => "private"@,
            CppVisibility::Default => ""@,
        }
    }

    /// The access specifier as written in source (empty for the default).
    pub fn as_str(&self) -> (r: &'static str)
        ensures
            r@ == self.text(),
    {
        match self {
            CppVisibility::Public => "public",
            CppVisibility::Protected => "protected",
            CppVisibility::Private => "private",
            CppVisibility::Default => "",
        }
    }
}

/// Render options for C++ visibility.
#[derive(Debug, Clone, Copy)]
pub struct CppVisibilityRenderOptions {}

impl Default for CppVisibilityRenderOptions {
    fn default() -> (r: Self) {
        CppVisibilityRenderOptions {}
    }
}


/// Conversion options for C++ visibility (there are none).
#[derive(Debug, Clone, Copy)]
pub struct CppVisibilityConversionOptions {}

impl Default for CppVisibilityConversionOptions {
    fn default() -> (r: Self) {
        CppVisibilityConversionOptions {  }
    }
}

/// The IR visibility of a C++ access specifier.
pub open spec fn cpp_visibility_ir(v: CppVisibility) -> Visibility {
    match v {
        CppVisibility::Public => Visibility::Public,
        CppVisibility::Protected => Visibility::Protected,
        CppVisibility::Private => Visibility::Private,
        CppVisibility::Default => Visibility::Default,
    }
}

/// The C++ access specifier for an IR visibility: package and parent-module visibility fall
/// back to the default, namespace and scoped visibility to public (C++ scopes by namespaces).
pub open spec fn cpp_visibility_from_ir(v: Visibility) -> CppVisibility {
    match v {
        Visibility::Default => CppVisibility::Default,
        Visibility::Public => CppVisibility::Public,
        Visibility::Private => CppVisibility::Private,
        Visibility::Protected => CppVisibility::Protected,
        Visibility::Package => CppVisibility::Default,
        Visibility::Namespace => CppVisibility::Public,
        Visibility::Scoped(_) => CppVisibility::Public,
        Visibility::ParentModule => CppVisibility::Default,
    }
}

/// What converting an IR visibility to C++ loses.
pub open spec fn cpp_visibility_from_ir_warnings(v: Visibility) -> Seq<WarningText> {
    match v {
        Visibility::Package => seq![approximated("package"@, "default"@)],
        Visibility::Namespace => seq![approximated("namespace"@, "public in namespace"@)],
        Visibility::Scoped(scope) => seq![approximated("scoped to "@ + scope@, "public in namespace"@)],
        Visibility::ParentModule => seq![approximated("parent module"@, "default"@)],
        _ => Seq::empty(),
    }
}

impl BackendItem for CppVisibility {
    type IrType = Visibility;
    type ConversionOptions = CppVisibilityConversionOptions;

    fn to_ir(self, options: Option<&CppVisibilityConversionOptions>) -> (r: ConversionResult<Visibility>)
        ensures
            r.value == cpp_visibility_ir(self),
            r.log@ == Seq::<WarningText>::empty(),
    {
        match self {
            CppVisibility::Public => ConversionResult::new(Visibility::Public),
            CppVisibility::Protected => ConversionResult::new(Visibility::Protected),
            CppVisibility::Private => ConversionResult::new(Visibility::Private),
            CppVisibility::Default => ConversionResult::new(Visibility::Default),
        }
    }

    fn from_ir(input: Visibility, options: Option<&CppVisibilityConversionOptions>) -> (r: ConversionResult<Self>)
        ensures
            r.value == cpp_visibility_from_ir(input),
            r.log@ == cpp_visibility_from_ir_warnings(input),
    {
        match input {
            Visibility::Default => ConversionResult::new(CppVisibility::Default),
            Visibility::Public => ConversionResult::new(CppVisibility::Public),
            Visibility::Private => ConversionResult::new(CppVisibility::Private),
            Visibility::Protected => ConversionResult::new(CppVisibility::Protected),
            Visibility::Package => ConversionResult::with_warning(
                CppVisibility::Default,
                ConversionWarning::VisibilityApproximated {
                    original: "package".to_owned(),
                    approximated: "default".to_owned(),
                },
            ),
            Visibility::Namespace => ConversionResult::with_warning(
                CppVisibility::Public,
                ConversionWarning::VisibilityApproximated {
                    original: "namespace".to_owned(),
                    approximated: "public in namespace".to_owned(),
                },
            ),
            Visibility::Scoped(scope) => {
                let mut original = String::new();
                push_str(&mut original, "scoped to ");
                push_str(&mut original, scope.as_str());
                ConversionResult::with_warning(
                    CppVisibility::Public,
                    ConversionWarning::VisibilityApproximated {
                        original,
                        approximated: "public in namespace".to_owned(),
                    },
                )
            },
            Visibility::ParentModule => ConversionResult::with_warning(
                CppVisibility::Default,
                ConversionWarning::VisibilityApproximated {
                    original: "parent module".to_owned(),
                    approximated: "default".to_owned(),
                },
            ),
        }
    }
}


/// Every C++ access specifier converts to the IR and back unchanged, without warnings.
pub proof fn cpp_visibility_round_trip(v: CppVisibility)
    ensures
        cpp_visibility_from_ir(cpp_visibility_ir(v)) == v,
        cpp_visibility_from_ir_warnings(cpp_visibility_ir(v)).len() == 0,
{
}

} // verus!
