use vstd::prelude::*;

use crate::backends::BackendItem;
use crate::conversion::{ConversionLog, ConversionResult, WarningText, unsupported, feature_warning};
use crate::ir::LanguageGenericArgument;

use crate::text::{concat, join, lemma_join_done, lemma_join_loop, lemma_join_start, only_if, push_str};

verus! {

/// Represents a C# generic type parameter (e.g. `T` with an optional `where` constraint).
#[derive(Debug, Clone, PartialEq)]
pub struct CSharpGenericArgument {
    /// The name of the parameter (e.g. `T`).
    pub name: String,
    /// Optional `where` constraint clause body (e.g. `class, new()` for `where T : class, new()`).
    pub constraints: Option<String>,
}

/// The parameter list `<A, B>`, or nothing when there are no parameters.
pub open spec fn generic_decls_text(params: Seq<CSharpGenericArgument>) -> Seq<char> {
    only_if(params.len() > 0, "<"@ + join(Seq::new(params.len(), |i: int| params[i].name@), ", "@) + ">"@)
}

/// ` where T : constraints` for a constrained parameter, nothing otherwise.
pub open spec fn where_clause_text(p: CSharpGenericArgument) -> Seq<char> {
    match p.constraints {
        Some(c) => " where "@ + p.name@ + " : "@ + c@,
        None => Seq::empty(),
    }
}

/// The `where` clauses of the constrained parameters, in order.
pub open spec fn where_clauses_text(params: Seq<CSharpGenericArgument>) -> Seq<char> {
    concat(Seq::new(params.len(), |i: int| where_clause_text(params[i])))
}

/// Render a generic parameter list as `<...>`, or an empty string when there are none.
pub fn render_generic_decls(params: &Vec<CSharpGenericArgument>) -> (r: String)
    ensures
        r@ == generic_decls_text(params@),
{
    proof {
        reveal(only_if);
    }
    let mut out = String::new();
    if params.len() == 0 {
        assert(out@ =~= generic_decls_text(params@));
        return out;
    }
    push_str(&mut out, "<");
    let ghost parts = Seq::new(params@.len(), |i: int| params@[i].name@);
    let ghost start = out@;
    proof {
        lemma_join_start(start, parts, ", "@);
    }
    let mut i: usize = 0;
    while i < params.len()
        invariant
            i <= params@.len(),
            parts == Seq::new(params@.len(), |i: int| params@[i].name@),
            out@ == start + join(parts.take(i as int), ", "@),
        decreases params@.len() - i,
    {
        let ghost prev = out@;
        if i > 0 {
            push_str(&mut out, ", ");
        }
        push_str(&mut out, params[i].name.as_str());
        proof {
            lemma_join_loop(start, parts, ", "@, i as int, prev, out@);
        }
        i = i + 1;
    }
    proof {
        lemma_join_done(start, parts, ", "@, i as int);
    }
    push_str(&mut out, ">");
    assert(out@ =~= generic_decls_text(params@));
    out
}

/// Render the `where` constraint clauses (each prefixed with a space), or empty when there are
/// none.
pub fn render_where_clauses(params: &Vec<CSharpGenericArgument>) -> (r: String)
    ensures
        r@ == where_clauses_text(params@),
{
    let ghost parts = Seq::new(params@.len(), |i: int| where_clause_text(params@[i]));
    let mut out = String::new();
    let mut i: usize = 0;
    assert(parts.take(0) =~= Seq::<Seq<char>>::empty());
    while i < params.len()
        invariant
            i <= params@.len(),
            parts == Seq::new(params@.len(), |i: int| where_clause_text(params@[i])),
            out@ == concat(parts.take(i as int)),
        decreases params@.len() - i,
    {
        let ghost prev = out@;
        let param = &params[i];
        if let Some(constraints) = &param.constraints {
            push_str(&mut out, " where ");
            push_str(&mut out, param.name.as_str());
            push_str(&mut out, " : ");
            push_str(&mut out, constraints.as_str());
        }
        assert(parts.take(i + 1).drop_last() =~= parts.take(i as int));
        assert(out@ =~= prev + parts[i as int]);
        i = i + 1;
    }
    assert(parts.take(i as int) =~= parts);
    out
}


/// Conversion options for C# generic parameters (there are none).
#[derive(Debug, Clone, Copy)]
pub struct CSharpGenericArgumentConversionOptions;

impl Default for CSharpGenericArgumentConversionOptions {
    fn default() -> (r: Self) {
        CSharpGenericArgumentConversionOptions
    }
}

/// What converting an IR generic parameter to C# loses: its default and its kind.
pub open spec fn csharp_generic_from_ir_warnings(g: LanguageGenericArgument) -> Seq<WarningText> {
    (if g.default_value is Some {
        seq![unsupported(
            "default on generic parameter `"@ + g.name@ + "`"@,
            "C# has no generic parameter defaults; the default was dropped"@,
        )]
    } else {
        Seq::empty()
    }) + (if g.keyword@.len() > 0 {
        seq![unsupported(
            "`"@ + g.keyword@ + "` generic parameter `"@ + g.name@ + "`"@,
            "C# has no lifetime/const-generic parameters; the kind was dropped"@,
        )]
    } else {
        Seq::empty()
    })
}

impl BackendItem for CSharpGenericArgument {
    type IrType = LanguageGenericArgument;
    type ConversionOptions = CSharpGenericArgumentConversionOptions;

    fn to_ir(self, options: Option<&CSharpGenericArgumentConversionOptions>) -> (r: ConversionResult<LanguageGenericArgument>)
        ensures
            r.value.name == self.name,
            r.value.keyword@ == Seq::<char>::empty(),
            r.value.default_value is None,
            r.value.where_clause == self.constraints,
            r.log@ == Seq::<WarningText>::empty(),
    {
        ConversionResult::new(LanguageGenericArgument {
            name: self.name,
            keyword: String::new(),
            default_value: None,
            where_clause: self.constraints,
        })
    }

    fn from_ir(input: LanguageGenericArgument, options: Option<&CSharpGenericArgumentConversionOptions>) -> (r: ConversionResult<Self>)
        ensures
            r.value.name == input.name,
            r.value.constraints == input.where_clause,
            r.log@ == csharp_generic_from_ir_warnings(input),
    {
        let mut log = ConversionLog::new();
        if input.default_value.is_some() {
            log.add_warning(feature_warning(
                "default on generic parameter `",
                input.name.as_str(),
                "`",
                "C# has no generic parameter defaults; the default was dropped",
            ));
        }
        if !input.keyword.as_str().is_empty() {
            let mut kind = String::new();
            push_str(&mut kind, "`");
            push_str(&mut kind, input.keyword.as_str());
            push_str(&mut kind, "` generic parameter `");
            log.add_warning(feature_warning(
                kind.as_str(),
                input.name.as_str(),
                "`",
                "C# has no lifetime/const-generic parameters; the kind was dropped",
            ));
        }
        assert(log@ =~= csharp_generic_from_ir_warnings(input));
        ConversionResult::with_log(CSharpGenericArgument { name: input.name, constraints: input.where_clause }, log)
    }
}

} // verus!
