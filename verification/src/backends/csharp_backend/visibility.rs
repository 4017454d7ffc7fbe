use vstd::prelude::*;

use crate::backends::BackendItem;
use crate::conversion::{approximated, ConversionLog, ConversionResult, ConversionWarning, WarningText};
use crate::ir::Visibility;
use crate::text::push_str;

verus! {

/// Represents a C# access modifier.
#[derive(Debug, Clone, Copy, PartialEq, Eq, Structural)]
pub enum CSharpVisibility {
    /// No explicit modifier — defaults to the member's implicit access.
    Default,
    /// `public`.
    Public,
    /// `private`.
    Private,
    /// `protected`.
    Protected,
    /// `internal`.
    Internal,
    /// `protected internal`.
    ProtectedInternal,
    /// `private protected`.
    PrivateProtected,
}

impl CSharpVisibility {
    /// The modifier as written in source (empty for the default).
    pub open spec fn text(self) -> Seq<char> {
        match self {
            CSharpVisibility::Default => ""@,
            CSharpVisibility::Public => "public"@,
            CSharpVisibility::Private => "private"@,
            CSharpVisibility::Protected => "protected"@,
            CSharpVisibility::Internal => "internal"@,
            CSharpVisibility::ProtectedInternal => "protected internal"@,
            CSharpVisibility::PrivateProtected => "private protected"@,
        }
    }

    /// The modifier followed by one space, or nothing for the default.
    pub open spec fn prefix_text(self) -> Seq<char> {
        if self is Default {
            Seq::empty()
        } else {
            self.text() + " "@
        }
    }

    /// The modifier as written in source (empty for the default).
    pub fn as_str(&self) -> (r: &'static str)
        ensures
            r@ == self.text(),
    {
        match self {
            CSharpVisibility::Default => "",
            CSharpVisibility::Public => "public",
            CSharpVisibility::Private => "private",
            CSharpVisibility::Protected => "protected",
            CSharpVisibility::Internal => "internal",
            CSharpVisibility::ProtectedInternal => "protected internal",
            CSharpVisibility::PrivateProtected => "private protected",
        }
    }

    /// Returns the modifier followed by a single space, or an empty string when
    /// [`CSharpVisibility::Default`].
    pub fn prefix(&self) -> (r: String)
        ensures
            r@ == self.prefix_text(),
    {
        let mut out = String::new();
        if !matches!(self, CSharpVisibility::Default) {
            push_str(&mut out, self.as_str());
            push_str(&mut out, " ");
        }
        assert(out@ =~= self.prefix_text());
        out
    }
}


/// Conversion options for C# visibility (there are none).
#[derive(Debug, Clone, Copy)]
pub struct CSharpVisibilityConversionOptions {}

impl Default for CSharpVisibilityConversionOptions {
    fn default() -> (r: Self) {
        CSharpVisibilityConversionOptions {  }
    }
}

/// The IR visibility of a C# access modifier: `internal` is package visibility, and the two
/// combined modifiers are approximated by `protected`.
pub open spec fn csharp_visibility_ir(v: CSharpVisibility) -> Visibility {
    match v {
        CSharpVisibility::Default => Visibility::Default,
        CSharpVisibility::Public => Visibility::Public,
        CSharpVisibility::Private => Visibility::Private,
        CSharpVisibility::Internal => Visibility::Package,
        _ => Visibility::Protected,
    }
}

/// What converting a C# access modifier to the IR loses.
pub open spec fn csharp_visibility_ir_warnings(v: CSharpVisibility) -> Seq<WarningText> {
    match v {
        CSharpVisibility::ProtectedInternal => seq![approximated("protected internal"@, "Protected"@)],
        CSharpVisibility::PrivateProtected => seq![approximated("private protected"@, "Protected"@)],
        _ => Seq::empty(),
    }
}

/// The C# access modifier for an IR visibility: package and namespace visibility are
/// `internal`, and a parent-module or scoped visibility is approximated by `internal`.
pub open spec fn csharp_visibility_from_ir(v: Visibility) -> CSharpVisibility {
    match v {
        Visibility::Default => CSharpVisibility::Default,
        Visibility::Public => CSharpVisibility::Public,
        Visibility::Private => CSharpVisibility::Private,
        Visibility::Protected => CSharpVisibility::Protected,
        _ => CSharpVisibility::Internal,
    }
}

/// What converting an IR visibility to C# loses.
pub open spec fn csharp_visibility_from_ir_warnings(v: Visibility) -> Seq<WarningText> {
    match v {
        Visibility::ParentModule => seq![approximated("ParentModule"@, "internal"@)],
        Visibility::Scoped(scope) => seq![approximated("Scoped("@ + scope@ + ")"@, "internal"@)],
        _ => Seq::empty(),
    }
}

impl BackendItem for CSharpVisibility {
    type IrType = Visibility;
    type ConversionOptions = CSharpVisibilityConversionOptions;

    fn to_ir(self, options: Option<&CSharpVisibilityConversionOptions>) -> (r: ConversionResult<Visibility>)
        ensures
            r.value == csharp_visibility_ir(self),
            r.log@ == csharp_visibility_ir_warnings(self),
    {
        let mut log = ConversionLog::new();
        let ir = match self {
            CSharpVisibility::Default => Visibility::Default,
            CSharpVisibility::Public => Visibility::Public,
            CSharpVisibility::Private => Visibility::Private,
            CSharpVisibility::Protected => Visibility::Protected,
            CSharpVisibility::Internal => Visibility::Package,
            CSharpVisibility::ProtectedInternal => {
                log.add_warning(ConversionWarning::VisibilityApproximated {
                    original: "protected internal".to_owned(),
                    approximated: "Protected".to_owned(),
                });
                Visibility::Protected
            },
            CSharpVisibility::PrivateProtected => {
                log.add_warning(ConversionWarning::VisibilityApproximated {
                    original: "private protected".to_owned(),
                    approximated: "Protected".to_owned(),
                });
                Visibility::Protected
            },
        };
        proof {
            reveal_strlit("protected internal");
            reveal_strlit("private protected");
            reveal_strlit("Protected");
        }
        assert(log@ =~= csharp_visibility_ir_warnings(self));
        ConversionResult::with_log(ir, log)
    }

    fn from_ir(input: Visibility, options: Option<&CSharpVisibilityConversionOptions>) -> (r: ConversionResult<Self>)
        ensures
            r.value == csharp_visibility_from_ir(input),
            r.log@ == csharp_visibility_from_ir_warnings(input),
    {
        let ghost input_v = input;
        let mut log = ConversionLog::new();
        let value = match input {
            Visibility::Default => CSharpVisibility::Default,
            Visibility::Public => CSharpVisibility::Public,
            Visibility::Private => CSharpVisibility::Private,
            Visibility::Protected => CSharpVisibility::Protected,
            Visibility::Package | Visibility::Namespace => CSharpVisibility::Internal,
            Visibility::ParentModule => {
                log.add_warning(ConversionWarning::VisibilityApproximated {
                    original: "ParentModule".to_owned(),
                    approximated: "internal".to_owned(),
                });
                CSharpVisibility::Internal
            },
            Visibility::Scoped(scope) => {
                let mut original = String::new();
                push_str(&mut original, "Scoped(");
                push_str(&mut original, scope.as_str());
                push_str(&mut original, ")");
                log.add_warning(ConversionWarning::VisibilityApproximated {
                    original,
                    approximated: "internal".to_owned(),
                });
                CSharpVisibility::Internal
            },
        };
        assert(log@ =~= csharp_visibility_from_ir_warnings(input_v));
        ConversionResult::with_log(value, log)
    }
}


/// A C# access modifier that converts to the IR without a warning comes back unchanged.
pub proof fn csharp_visibility_round_trip(v: CSharpVisibility)
    requires
        csharp_visibility_ir_warnings(v).len() == 0,
    ensures
        csharp_visibility_from_ir(csharp_visibility_ir(v)) == v,
{
}

} // verus!
