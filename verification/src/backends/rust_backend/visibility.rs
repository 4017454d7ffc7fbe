use vstd::prelude::*;

use crate::backends::BackendItem;
use crate::conversion::{approximated, ConversionLog, ConversionResult, ConversionWarning, WarningText};
use crate::ir::Visibility;

use crate::text::push_str;

verus! {

/// Represents a Rust visibility specifier.
#[derive(Debug, Clone, Copy, PartialEq, Eq)]
pub enum RustVisibility {
    /// No specifier — private to the current module.
    Private,
    /// `pub` — visible everywhere.
    Pub,
    /// `pub(crate)` — visible within the crate.
    PubCrate,
    /// `pub(super)` — visible within the parent module.
    PubSuper,
}

impl RustVisibility {
    /// The specifier as written in source (empty for private).
    pub open spec fn text(self) -> Seq<char> {
        match self {
            RustVisibility::Private => ""@,
            RustVisibility::Pub => "pub"@,
            RustVisibility::PubCrate => "pub(crate)"@,
            RustVisibility::PubSuper => "pub(super)"@,
        }
    }

    /// The specifier followed by one space, or nothing when private.
    pub open spec fn prefix_text(self) -> Seq<char> {
        if self is Private {
            Seq::empty()
        } else {
            self.text() + " "@
        }
    }

    /// The specifier as written in source (empty for private).
    pub fn as_str(&self) -> (r: &'static str)
        ensures
            r@ == self.text(),
    {
        match self {
            RustVisibility::Private => "",
            RustVisibility::Pub => "pub",
            RustVisibility::PubCrate => "pub(crate)",
            RustVisibility::PubSuper => "pub(super)",
        }
    }

    /// Returns the specifier followed by a single space, or an empty string when private.
    pub fn prefix(&self) -> (r: String)
        ensures
            r@ == self.prefix_text(),
    {
        let mut out = String::new();
        if !matches!(self, RustVisibility::Private) {
            push_str(&mut out, self.as_str());
            push_str(&mut out, " ");
        }
        assert(out@ =~= self.prefix_text());
        out
    }
}


/// Conversion options for Rust visibility (there are none).
#[derive(Debug, Clone, Copy)]
pub struct RustVisibilityConversionOptions {}

impl Default for RustVisibilityConversionOptions {
    fn default() -> (r: Self) {
        RustVisibilityConversionOptions {  }
    }
}

/// The IR visibility of a Rust visibility.
pub open spec fn rust_visibility_ir(v: RustVisibility) -> Visibility {
    match v {
        RustVisibility::Private => Visibility::Private,
        RustVisibility::Pub => Visibility::Public,
        RustVisibility::PubCrate => Visibility::Package,
        RustVisibility::PubSuper => Visibility::ParentModule,
    }
}

/// The Rust visibility for an IR visibility: protected is approximated by `pub`, namespace and
/// scoped visibility by `pub(crate)`.
pub open spec fn rust_visibility_from_ir(v: Visibility) -> RustVisibility {
    match v {
        Visibility::Default => RustVisibility::Private,
        Visibility::Private => RustVisibility::Private,
        Visibility::Public => RustVisibility::Pub,
        Visibility::Package => RustVisibility::PubCrate,
        Visibility::ParentModule => RustVisibility::PubSuper,
        Visibility::Protected => RustVisibility::Pub,
        Visibility::Namespace => RustVisibility::PubCrate,
        Visibility::Scoped(_) => RustVisibility::PubCrate,
    }
}

/// What converting an IR visibility to Rust loses.
pub open spec fn rust_visibility_from_ir_warnings(v: Visibility) -> Seq<WarningText> {
    match v {
        Visibility::Protected => seq![approximated("Protected"@, "pub"@)],
        Visibility::Namespace => seq![approximated("Namespace"@, "pub(crate)"@)],
        Visibility::Scoped(scope) => seq![approximated("Scoped("@ + scope@ + ")"@, "pub(crate)"@)],
        _ => Seq::empty(),
    }
}

impl BackendItem for RustVisibility {
    type IrType = Visibility;
    type ConversionOptions = RustVisibilityConversionOptions;

    fn to_ir(self, options: Option<&RustVisibilityConversionOptions>) -> (r: ConversionResult<Visibility>)
        ensures
            r.value == rust_visibility_ir(self),
            r.log@ == Seq::<WarningText>::empty(),
    {
        let ir = match self {
            RustVisibility::Private => Visibility::Private,
            RustVisibility::Pub => Visibility::Public,
            RustVisibility::PubCrate => Visibility::Package,
            RustVisibility::PubSuper => Visibility::ParentModule,
        };
        ConversionResult::new(ir)
    }

    fn from_ir(input: Visibility, options: Option<&RustVisibilityConversionOptions>) -> (r: ConversionResult<Self>)
        ensures
            r.value == rust_visibility_from_ir(input),
            r.log@ == rust_visibility_from_ir_warnings(input),
    {
        let ghost input_v = input;
        let mut log = ConversionLog::new();
        let value = match input {
            Visibility::Default | Visibility::Private => RustVisibility::Private,
            Visibility::Public => RustVisibility::Pub,
            Visibility::Package => RustVisibility::PubCrate,
            Visibility::ParentModule => RustVisibility::PubSuper,
            Visibility::Protected => {
                log.add_warning(ConversionWarning::VisibilityApproximated {
                    original: "Protected".to_owned(),
                    approximated: "pub".to_owned(),
                });
                RustVisibility::Pub
            },
            Visibility::Namespace => {
                log.add_warning(ConversionWarning::VisibilityApproximated {
                    original: "Namespace".to_owned(),
                    approximated: "pub(crate)".to_owned(),
                });
                RustVisibility::PubCrate
            },
            Visibility::Scoped(scope) => {
                let mut original = String::new();
                push_str(&mut original, "Scoped(");
                push_str(&mut original, scope.as_str());
                push_str(&mut original, ")");
                log.add_warning(ConversionWarning::VisibilityApproximated {
                    original,
                    approximated: "pub(crate)".to_owned(),
                });
                RustVisibility::PubCrate
            },
        };
        assert(log@ =~= rust_visibility_from_ir_warnings(input_v));
        ConversionResult::with_log(value, log)
    }
}


/// Every Rust visibility converts to the IR and back unchanged, without warnings.
pub proof fn rust_visibility_round_trip(v: RustVisibility)
    ensures
        rust_visibility_from_ir(rust_visibility_ir(v)) == v,
        rust_visibility_from_ir_warnings(rust_visibility_ir(v)).len() == 0,
{
}

} // verus!
