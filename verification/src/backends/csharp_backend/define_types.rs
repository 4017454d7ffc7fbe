use vstd::prelude::*;

use crate::backends::BackendItem;
use crate::conversion::{ConversionResult, WarningText};
use crate::ir::LanguageDefinition;

use crate::literal::{
    accepts_float, accepts_int, float_literal, has_prefix, int_digits, int_literal_fits, int_negative,
    lemma_decimal_digits, lemma_digits_untrimmed, lemma_trim_ws_idempotent, str_eq, strip_prefix, trim, trim_ws,
};
use crate::text::decimal;

verus! {

/// Whether `v` is a hexadecimal literal `0x...` (or `0X...`) whose digits, read in base 16,
/// give a value in `min..=max`.
pub open spec fn is_hex_literal_in(v: Seq<char>, min: int, max: int) -> bool {
    ||| has_prefix(v, "0x"@) && accepts_int(v.skip("0x"@.len() as int), true, true, min, max)
    ||| has_prefix(v, "0X"@) && accepts_int(v.skip("0X"@.len() as int), true, true, min, max)
}

/// The C# type a define value denotes, judged on the value without surrounding whitespace:
/// `bool` for `true`/`false`, `string` for a double-quoted and `char` for a single-quoted text,
/// `int` for a hexadecimal or decimal literal that fits `i32`, `long` for one that fits `i64`,
/// `double` for a floating-point literal.
pub open spec fn inferred_const_type(value: Seq<char>) -> Option<Seq<char>> {
    let v = trim_ws(value);
    if v == "true"@ || v == "false"@ {
        Some("bool"@)
    } else if v.len() >= 2 && v[0] == '"' && v.last() == '"' {
        Some("string"@)
    } else if v.len() >= 2 && v[0] == '\'' && v.last() == '\'' {
        Some("char"@)
    } else if is_hex_literal_in(v, -0x8000_0000, 0x7FFF_FFFF) {
        Some("int"@)
    } else if is_hex_literal_in(v, -0x8000_0000_0000_0000, 0x7FFF_FFFF_FFFF_FFFF) {
        Some("long"@)
    } else if accepts_int(v, false, true, -0x8000_0000, 0x7FFF_FFFF) {
        Some("int"@)
    } else if accepts_int(v, false, true, -0x8000_0000_0000_0000, 0x7FFF_FFFF_FFFF_FFFF) {
        Some("long"@)
    } else if accepts_float(v) {
        Some("double"@)
    } else {
        None
    }
}

/// Infer the C# `const` type for a define value.
///
/// Returns the C# keyword type (`bool`/`string`/`char`/`int`/`long`/`double`) the literal
/// denotes, or `None` when the value is not a recognized literal (the caller falls back to a
/// configured type).
pub fn infer_const_type(value: &str) -> (r: Option<&'static str>)
    ensures
        match r {
            Some(t) => inferred_const_type(value@) == Some(t@),
            None => inferred_const_type(value@) is None,
        },
{
    let value = trim(value);
    if str_eq(value, "true") || str_eq(value, "false") {
        return Some("bool");
    }
    let n = value.unicode_len();
    if n >= 2 && value.get_char(0) == '"' && value.get_char(n - 1) == '"' {
        return Some("string");
    }
    if n >= 2 && value.get_char(0) == '\'' && value.get_char(n - 1) == '\'' {
        return Some("char");
    }
    let hex = match strip_prefix(value, "0x") {
        Some(h) => Some(h),
        None => strip_prefix(value, "0X"),
    };
    if let Some(h) = hex {
        if int_literal_fits(h, true, true, 0x8000_0000, 0x7FFF_FFFF) {
            return Some("int");
        }
        if int_literal_fits(h, true, true, 0x8000_0000_0000_0000, 0x7FFF_FFFF_FFFF_FFFF) {
            assert(!is_hex_literal_in(value@, -0x8000_0000, 0x7FFF_FFFF)) by {
                reveal_strlit("0x");
                reveal_strlit("0X");
                if has_prefix(value@, "0X"@) {
                    assert(!has_prefix(value@, "0x"@)) by {
                        assert(value@.take(2)[1] == 'X');
                    }
                }
            }
            return Some("long");
        }
    }
    assert(!is_hex_literal_in(value@, -0x8000_0000, 0x7FFF_FFFF) && !is_hex_literal_in(
        value@,
        -0x8000_0000_0000_0000,
        0x7FFF_FFFF_FFFF_FFFF,
    )) by {
        reveal_strlit("0x");
        reveal_strlit("0X");
        if has_prefix(value@, "0x"@) {
            assert(hex is Some);
        } else if has_prefix(value@, "0X"@) {
            assert(hex is Some);
        }
    }
    if int_literal_fits(value, false, true, 0x8000_0000, 0x7FFF_FFFF) {
        return Some("int");
    }
    if int_literal_fits(value, false, true, 0x8000_0000_0000_0000, 0x7FFF_FFFF_FFFF_FFFF) {
        return Some("long");
    }
    if float_literal(value) {
        return Some("double");
    }
    None
}

/// The inferred type depends only on the value without surrounding whitespace, and is one of
/// `bool`, `string`, `char`, `int`, `long` and `double`, or nothing.
pub proof fn const_type_ignores_surrounding_whitespace(value: Seq<char>)
    ensures
        inferred_const_type(value) == inferred_const_type(trim_ws(value)),
        inferred_const_type(value) matches Some(t) ==> (t == "bool"@ || t == "string"@ || t == "char"@ || t
            == "int"@ || t == "long"@ || t == "double"@),
{
    lemma_trim_ws_idempotent(value);
}

/// The decimal literal of an integer: its digits, after `-` when it is negative.
pub open spec fn int_literal_text(n: int) -> Seq<char> {
    if n < 0 {
        "-"@ + decimal((-n) as nat)
    } else {
        decimal(n as nat)
    }
}

/// The decimal literal of an `i64` value denotes `int` when the value fits an `i32`, and
/// `long` otherwise.
pub proof fn integer_literals_infer_int_or_long(n: i64)
    ensures
        inferred_const_type(int_literal_text(n as int)) == Some(
            if -0x8000_0000 <= n <= 0x7FFF_FFFF {
                "int"@
            } else {
                "long"@
            },
        ),
{
    reveal_strlit("-");
    reveal_strlit("true");
    reveal_strlit("false");
    reveal_strlit("0x");
    reveal_strlit("0X");
    let v = int_literal_text(n as int);
    let m: nat = if n < 0 { (-n) as nat } else { n as nat };
    let d = decimal(m);
    lemma_decimal_digits(m);
    lemma_digits_untrimmed(d);
    assert(d.len() > 0 && '0' <= d[0] <= '9');
    assert('0' <= d[d.len() - 1] <= '9');
    if n < 0 {
        assert(v =~= seq!['-'] + d);
        assert(v[0] == '-');
        assert(v[v.len() - 1] == d[d.len() - 1]);
        assert(v.drop_first() =~= d);
    } else {
        assert(v == d);
    }
    assert(trim_ws(v) == v);
    assert(v != "true"@ && v != "false"@) by {
        if v == "true"@ {
            assert(v[0] == 't');
        }
        if v == "false"@ {
            assert(v[0] == 'f');
        }
    }
    assert(!has_prefix(v, "0x"@) && !has_prefix(v, "0X"@)) by {
        if has_prefix(v, "0x"@) || has_prefix(v, "0X"@) {
            assert(v.len() >= 2);
            assert(v.take(2)[0] == '0');
            assert(v[0] == '0');
            assert(v.take(2)[1] == 'x' || v.take(2)[1] == 'X');
            assert(v[1] == 'x' || v[1] == 'X');
            assert(n >= 0);
            assert('0' <= d[1] <= '9');
            assert(false);
        }
    }
    assert(int_digits(v, true) == d);
    assert(int_negative(v, true) == (n < 0));
}

/// Represents a preprocessor-style define lowered into C#.
///
/// C# has no value-carrying `#define`, so a define is rendered as a `public const`
/// (see [`CSharpDefinitionRenderOptions::const_type`]).
#[derive(Debug, Clone, PartialEq)]
pub struct CSharpDefinition {
    /// The name of the define.
    pub name: String,
    /// The value of the define, if any.
    pub value: Option<String>,
    /// Optional documentation for the define.
    pub docs: Option<Vec<String>>,
}

/// Render options for C# defines.
#[derive(Debug, Clone, Copy)]
pub struct CSharpDefinitionRenderOptions {
    /// The C# type used for the generated `const` when the define's value is no recognized
    /// literal.
    pub const_type: &'static str,
    /// Whether to render documentation comments.
    pub render_docs: bool,
}

impl CSharpDefinitionRenderOptions {
    /// The const type the options give, or `int` by default.
    pub open spec fn const_type_or_default(o: Option<&Self>) -> Seq<char> {
        match o {
            Some(o) => o.const_type@,
            None => "int"@,
        }
    }

    /// Whether the options render docs (they do by default).
    pub open spec fn render_docs_or_default(o: Option<&Self>) -> bool {
        match o {
            Some(o) => o.render_docs,
            None => true,
        }
    }
}

impl Default for CSharpDefinitionRenderOptions {
    fn default() -> (r: Self)
        ensures
            r.const_type@ == "int"@,
            r.render_docs,
    {
        CSharpDefinitionRenderOptions { const_type: "int", render_docs: true }
    }
}


/// Conversion options for C# defines (there are none).
#[derive(Debug, Clone, Copy)]
pub struct CSharpDefinitionConversionOptions {}

impl Default for CSharpDefinitionConversionOptions {
    fn default() -> (r: Self) {
        CSharpDefinitionConversionOptions {  }
    }
}

impl BackendItem for CSharpDefinition {
    type IrType = LanguageDefinition;
    type ConversionOptions = CSharpDefinitionConversionOptions;

    /// A define converts to the IR without loss.
    fn to_ir(self, options: Option<&CSharpDefinitionConversionOptions>) -> (r: ConversionResult<LanguageDefinition>)
        ensures
            r.value.name == self.name,
            r.value.value == self.value,
            r.value.docs == self.docs,
            r.log@ == Seq::<WarningText>::empty(),
    {
        ConversionResult::new(LanguageDefinition { name: self.name, value: self.value, docs: self.docs })
    }

    /// An IR define converts without loss.
    fn from_ir(input: LanguageDefinition, options: Option<&CSharpDefinitionConversionOptions>) -> (r: ConversionResult<Self>)
        ensures
            r.value.name == input.name,
            r.value.value == input.value,
            r.value.docs == input.docs,
            r.log@ == Seq::<WarningText>::empty(),
    {
        ConversionResult::new(CSharpDefinition { name: input.name, value: input.value, docs: input.docs })
    }
}

} // verus!
