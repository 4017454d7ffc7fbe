use vstd::prelude::*;

use crate::backends::BackendItem;
use crate::conversion::{ConversionResult, WarningText};
use crate::ir::LanguageGenericArgument;
use crate::literal::{has_prefix, str_eq, strip_prefix};

use crate::text::{join, lemma_join_done, lemma_join_loop, lemma_join_start, push_str, strip_leading_char, trim_start_char};

verus! {

/// Represents a Rust generic parameter (type, lifetime, or const generic).
#[derive(Debug, Clone, PartialEq)]
pub struct RustGenericArgument {
    /// The name of the parameter (e.g. `T`, `'a`, `N`).
    pub name: String,
    /// Whether this parameter is a lifetime (`'a`).
    pub is_lifetime: bool,
    /// Optional const-generic type (e.g. `usize` for `const N: usize`); `None` for type/lifetime params.
    pub const_type: Option<String>,
    /// Optional inline bound (e.g. `Display + Debug` for `T: Display + Debug`).
    pub bounds: Option<String>,
    /// Optional default value (e.g. `i32` for `T = i32`).
    pub default_value: Option<String>,
}

impl RustGenericArgument {
    /// The lifetime spelling: one apostrophe, then the name without its leading apostrophes.
    pub open spec fn lifetime_text(self) -> Seq<char> {
        "'"@ + trim_start_char(self.name@, '\'')
    }

    /// The parameter as declared inside `<...>`.
    pub open spec fn decl_text(self) -> Seq<char> {
        if self.is_lifetime {
            self.lifetime_text()
        } else {
            (match self.const_type {
                Some(t) => "const "@ + self.name@ + ": "@ + t@,
                None => self.name@ + (match self.bounds {
                    Some(b) => ": "@ + b@,
                    None => Seq::empty(),
                }),
            }) + (match self.default_value {
                Some(d) => " = "@ + d@,
                None => Seq::empty(),
            })
        }
    }

    /// The parameter as used after a type name.
    pub open spec fn use_text(self) -> Seq<char> {
        if self.is_lifetime {
            self.lifetime_text()
        } else {
            self.name@
        }
    }

    fn push_lifetime(&self, out: &mut String)
        requires
            self.is_lifetime,
        ensures
            final(out)@ == old(out)@ + self.lifetime_text(),
    {
        push_str(out, "'");
        let trimmed = strip_leading_char(self.name.as_str(), '\'');
        push_str(out, trimmed.as_str());
    }

    /// Render this parameter inside an angle-bracket generic list (without the brackets).
    #[verifier::rlimit(30)]
    pub fn render_decl(&self) -> (r: String)
        ensures
            r@ == self.decl_text(),
    {
        let mut out = String::new();
        if self.is_lifetime {
            self.push_lifetime(&mut out);
            assert(out@ =~= self.decl_text());
            return out;
        }
        match &self.const_type {
            Some(const_type) => {
                push_str(&mut out, "const ");
                push_str(&mut out, self.name.as_str());
                push_str(&mut out, ": ");
                push_str(&mut out, const_type.as_str());
            },
            None => {
                push_str(&mut out, self.name.as_str());
                if let Some(bounds) = &self.bounds {
                    push_str(&mut out, ": ");
                    push_str(&mut out, bounds.as_str());
                }
            },
        }
        if let Some(default_value) = &self.default_value {
            push_str(&mut out, " = ");
            push_str(&mut out, default_value.as_str());
        }
        assert(out@ =~= self.decl_text());
        out
    }

    /// Render the parameter name only (for use after the type name, e.g. `Foo<'a, T, N>`).
    pub fn render_use(&self) -> (r: String)
        ensures
            r@ == self.use_text(),
    {
        let mut out = String::new();
        if self.is_lifetime {
            self.push_lifetime(&mut out);
        } else {
            push_str(&mut out, self.name.as_str());
        }
        assert(out@ =~= self.use_text());
        out
    }
}

/// `<...>` around the parts joined by `", "`, or nothing when there are no parts.
#[verifier::opaque]
pub open spec fn angle_list(parts: Seq<Seq<char>>) -> Seq<char> {
    if parts.len() == 0 {
        Seq::empty()
    } else {
        "<"@ + join(parts, ", "@) + ">"@
    }
}

/// The declaration list of the parameters.
pub open spec fn generic_decls_text(params: Seq<RustGenericArgument>) -> Seq<char> {
    angle_list(Seq::new(params.len(), |i: int| params[i].decl_text()))
}

/// The use-site argument list of the parameters.
pub open spec fn generic_uses_text(params: Seq<RustGenericArgument>) -> Seq<char> {
    angle_list(Seq::new(params.len(), |i: int| params[i].use_text()))
}

/// Render a generic parameter list as `<...>`, or an empty string when there are none.
pub fn render_generic_decls(params: &Vec<RustGenericArgument>) -> (r: String)
    ensures
        r@ == generic_decls_text(params@),
{
    let ghost parts = Seq::new(params@.len(), |i: int| params@[i].decl_text());
    let mut out = String::new();
    if params.len() == 0 {
        proof {
            reveal(angle_list);
        }
        assert(out@ =~= angle_list(parts));
        return out;
    }
    push_str(&mut out, "<");
    let ghost start = out@;
    proof {
        lemma_join_start(start, parts, ", "@);
    }
    let mut i: usize = 0;
    while i < params.len()
        invariant
            i <= params@.len(),
            parts == Seq::new(params@.len(), |i: int| params@[i].decl_text()),
            out@ == start + join(parts.take(i as int), ", "@),
        decreases params@.len() - i,
    {
        let ghost prev = out@;
        if i > 0 {
            push_str(&mut out, ", ");
        }
        let piece = params[i].render_decl();
        push_str(&mut out, piece.as_str());
        proof {
            lemma_join_loop(start, parts, ", "@, i as int, prev, out@);
        }
        i = i + 1;
    }
    proof {
        lemma_join_done(start, parts, ", "@, i as int);
    }
    push_str(&mut out, ">");
    proof {
        reveal(angle_list);
    }
    assert(out@ =~= generic_decls_text(params@));
    out
}

/// Render a generic argument list for a type use site as `<...>`, or empty when there are none.
pub fn render_generic_uses(params: &Vec<RustGenericArgument>) -> (r: String)
    ensures
        r@ == generic_uses_text(params@),
{
    let ghost parts = Seq::new(params@.len(), |i: int| params@[i].use_text());
    let mut out = String::new();
    if params.len() == 0 {
        proof {
            reveal(angle_list);
        }
        assert(out@ =~= angle_list(parts));
        return out;
    }
    push_str(&mut out, "<");
    let ghost start = out@;
    proof {
        lemma_join_start(start, parts, ", "@);
    }
    let mut i: usize = 0;
    while i < params.len()
        invariant
            i <= params@.len(),
            parts == Seq::new(params@.len(), |i: int| params@[i].use_text()),
            out@ == start + join(parts.take(i as int), ", "@),
        decreases params@.len() - i,
    {
        let ghost prev = out@;
        if i > 0 {
            push_str(&mut out, ", ");
        }
        let piece = params[i].render_use();
        push_str(&mut out, piece.as_str());
        proof {
            lemma_join_loop(start, parts, ", "@, i as int, prev, out@);
        }
        i = i + 1;
    }
    proof {
        lemma_join_done(start, parts, ", "@, i as int);
    }
    push_str(&mut out, ">");
    proof {
        reveal(angle_list);
    }
    assert(out@ =~= generic_uses_text(params@));
    out
}


/// Conversion options for Rust generic parameters (there are none).
#[derive(Debug, Clone, Copy)]
pub struct RustGenericArgumentConversionOptions;

impl Default for RustGenericArgumentConversionOptions {
    fn default() -> (r: Self) {
        RustGenericArgumentConversionOptions
    }
}

/// The IR kind of a Rust generic parameter: `lifetime`, `const ` and the type of a const
/// generic, or nothing for a type parameter.
pub open spec fn rust_generic_keyword(g: RustGenericArgument) -> Seq<char> {
    if g.is_lifetime {
        "lifetime"@
    } else {
        match g.const_type {
            Some(t) => "const "@ + t@,
            None => Seq::empty(),
        }
    }
}

impl BackendItem for RustGenericArgument {
    type IrType = LanguageGenericArgument;
    type ConversionOptions = RustGenericArgumentConversionOptions;

    fn to_ir(self, options: Option<&RustGenericArgumentConversionOptions>) -> (r: ConversionResult<LanguageGenericArgument>)
        ensures
            r.value.name == self.name,
            r.value.keyword@ == rust_generic_keyword(self),
            r.value.default_value == self.default_value,
            r.value.where_clause == self.bounds,
            r.log@ == Seq::<WarningText>::empty(),
    {
        let mut keyword = String::new();
        if self.is_lifetime {
            push_str(&mut keyword, "lifetime");
        } else if let Some(const_type) = &self.const_type {
            push_str(&mut keyword, "const ");
            push_str(&mut keyword, const_type.as_str());
        }
        ConversionResult::new(LanguageGenericArgument {
            name: self.name,
            keyword,
            default_value: self.default_value,
            where_clause: self.bounds,
        })
    }

    /// The kind is read back: `lifetime` makes a lifetime, and `const ` followed by a type a const
    /// generic of that type.
    fn from_ir(input: LanguageGenericArgument, options: Option<&RustGenericArgumentConversionOptions>) -> (r: ConversionResult<Self>)
        ensures
            r.value.name == input.name,
            r.value.is_lifetime == (input.keyword@ == "lifetime"@),
            r.value.const_type is Some <==> has_prefix(input.keyword@, "const "@),
            r.value.const_type matches Some(t) ==> t@ == input.keyword@.skip("const "@.len() as int),
            r.value.bounds == input.where_clause,
            r.value.default_value == input.default_value,
            r.log@ == Seq::<WarningText>::empty(),
    {
        let is_lifetime = str_eq(input.keyword.as_str(), "lifetime");
        let const_type = match strip_prefix(input.keyword.as_str(), "const ") {
            Some(rest) => Some(rest.to_owned()),
            None => None,
        };
        ConversionResult::new(RustGenericArgument {
            name: input.name,
            is_lifetime,
            const_type,
            bounds: input.where_clause,
            default_value: input.default_value,
        })
    }
}


/// A Rust generic parameter's kind survives the trip through the IR: `lifetime` reads back as
/// a lifetime, `const T` as a const generic of type `T`, and nothing as a type parameter. (A
/// parameter marked both lifetime and const keeps only the lifetime.)
pub proof fn rust_generic_kind_round_trip(g: RustGenericArgument)
    requires
        !(g.is_lifetime && g.const_type is Some),
    ensures
        (rust_generic_keyword(g) == "lifetime"@) == g.is_lifetime,
        has_prefix(rust_generic_keyword(g), "const "@) <==> g.const_type is Some,
        g.const_type matches Some(t) ==> rust_generic_keyword(g).skip("const "@.len() as int) == t@,
{
    reveal_strlit("lifetime");
    reveal_strlit("const ");
    let k = rust_generic_keyword(g);
    if g.is_lifetime {
        assert(!has_prefix(k, "const "@)) by {
            assert(k[0] == 'l');
            if has_prefix(k, "const "@) {
                assert(k.take(6)[0] == "const "@[0]);
            }
        }
    } else if g.const_type is Some {
        let t = g.const_type->0@;
        assert(k.take(6) =~= "const "@);
        assert(k.skip(6) =~= t);
        assert(k != "lifetime"@) by {
            assert(k[0] == 'c');
        }
    } else {
        assert(k.len() == 0);
    }
}

} // verus!
