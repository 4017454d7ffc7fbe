//! The neutral, language-agnostic declarations that the backends convert to and from, and the
//! vocabulary of attributes they map native attributes to.
use vstd::prelude::*;

pub use crate::type_map::TargetLanguage;
use crate::text::{join, push_joined, texts};

verus! {

/// A curated attribute meaning that several target languages can express.
#[derive(Debug, Clone, Copy, PartialEq, Eq, Structural)]
pub enum Annotation {
    /// C-compatible layout (`#[repr(C)]`, `[StructLayout(LayoutKind.Sequential)]`).
    ReprC,
    /// Packed layout, with no padding between fields.
    Packed,
    /// Over-alignment to the given number of bytes.
    Aligned(u32),
}


/// Who may see a declaration, in the neutral model.
#[derive(Debug, Clone)]
pub enum Visibility {
    /// The language's default.
    Default,
    Public,
    Private,
    Protected,
    /// Visible in the package (assembly, crate).
    Package,
    /// Visible in the enclosing namespace.
    Namespace,
    /// Visible in the parent module.
    ParentModule,
    /// Visible in the named scope.
    Scoped(String),
}

/// A native attribute that maps to no [`Annotation`], kept as text with its language.
#[derive(Debug, Clone)]
pub struct RawAttribute {
    pub source: TargetLanguage,
    pub text: String,
}

/// A generic (template) parameter.
#[derive(Debug, Clone)]
pub struct LanguageGenericArgument {
    pub name: String,
    /// The kind of the parameter (`typename`, `lifetime`, `const T`), empty when plain.
    pub keyword: String,
    pub default_value: Option<String>,
    pub where_clause: Option<String>,
}

/// A named constant.
#[derive(Debug, Clone)]
pub struct LanguageConstant {
    pub name: String,
    pub visibility: Visibility,
    pub data_type: String,
    pub value: String,
    pub docs: Option<Vec<String>>,
}

/// A preprocessor-style define.
#[derive(Debug, Clone)]
pub struct LanguageDefinition {
    pub name: String,
    pub value: Option<String>,
    pub docs: Option<Vec<String>>,
}

/// A function parameter.
#[derive(Debug, Clone)]
pub struct LanguageFunctionParameter {
    pub name: String,
    pub param_type: String,
    pub default_value: Option<String>,
}

/// A function or method.
#[derive(Debug, Clone)]
pub struct LanguageFunction {
    pub name: String,
    pub visibility: Visibility,
    pub parameters: Vec<LanguageFunctionParameter>,
    pub generic_args: Vec<LanguageGenericArgument>,
    pub return_type: Option<String>,
    pub is_static: bool,
    pub is_abstract: bool,
    pub is_virtual: bool,
    pub is_override: bool,
    pub is_final: bool,
    pub body: Option<Vec<String>>,
    pub docs: Option<Vec<String>>,
    pub annotations: Vec<Annotation>,
    pub raw_attributes: Vec<RawAttribute>,
}

/// A field of a struct or class.
#[derive(Debug, Clone)]
pub struct LanguageField {
    pub name: String,
    pub field_type: String,
    pub visibility: Visibility,
    pub is_static: bool,
    pub is_const: bool,
    pub docs: Option<Vec<String>>,
    pub annotations: Vec<Annotation>,
    pub raw_attributes: Vec<RawAttribute>,
}

/// A base type that a struct or class derives from.
#[derive(Debug, Clone)]
pub struct LanguageBase {
    pub name: String,
    pub visibility: Visibility,
}

/// What kind of aggregate a struct is.
#[derive(Debug, Clone, Copy, PartialEq, Eq, Structural)]
pub enum LanguageStructKind {
    Struct,
    Class,
    Union,
}

/// A struct, class or union.
#[derive(Debug, Clone)]
pub struct LanguageStruct {
    pub visibility: Visibility,
    pub struct_kind: LanguageStructKind,
    pub is_abstract: bool,
    pub is_final: bool,
    pub name: String,
    pub generic_args: Vec<LanguageGenericArgument>,
    pub bases: Vec<LanguageBase>,
    pub fields: Vec<LanguageField>,
    pub methods: Vec<LanguageFunction>,
    pub docs: Option<Vec<String>>,
    pub annotations: Vec<Annotation>,
    pub raw_attributes: Vec<RawAttribute>,
}


/// The value of an enum variant.
#[derive(Debug, Clone)]
pub enum EnumVariantValue {
    /// No explicit value.
    NoValue,
    /// An explicit value (`A = 1`).
    Value(String),
    /// A tuple payload of the given types.
    Tuple(Vec<String>),
    /// A struct payload of named fields with their types.
    Struct(Vec<(String, String)>),
}

/// A variant of an enum.
#[derive(Debug, Clone)]
pub struct EnumVariant {
    pub name: String,
    pub value: EnumVariantValue,
    pub docs: Option<Vec<String>>,
    pub raw_attributes: Vec<RawAttribute>,
}

/// An enum.
#[derive(Debug, Clone)]
pub struct LanguageEnum {
    pub name: String,
    pub visibility: Visibility,
    pub variants: Vec<EnumVariant>,
    pub underlying_type: Option<String>,
    pub docs: Option<Vec<String>>,
    pub annotations: Vec<Annotation>,
    pub raw_attributes: Vec<RawAttribute>,
}

/// Whether `raw` holds the given texts, in order, each from `source`.
pub open spec fn raw_attributes_are(raw: Seq<RawAttribute>, source: TargetLanguage, texts: Seq<Seq<char>>) -> bool {
    &&& raw.len() == texts.len()
    &&& forall|i: int| 0 <= i < raw.len() ==> (#[trigger] raw[i]).source == source && raw[i].text@ == texts[i]
}

/// Whether `docs` is the IR docs of a single doc text (a docstring, a JSDoc or LDoc text): none
/// without one, else the text as the only line.
pub open spec fn docs_of_docstring(docs: Option<Vec<String>>, docstring: Option<String>) -> bool {
    match docstring {
        Some(d) => docs matches Some(v) && v@ == seq![d],
        None => docs is None,
    }
}

/// The IR docs of a single doc text.
pub fn docstring_to_docs(docstring: Option<String>) -> (r: Option<Vec<String>>)
    ensures
        docs_of_docstring(r, docstring),
{
    match docstring {
        Some(d) => {
            let mut v: Vec<String> = Vec::new();
            v.push(d);
            Some(v)
        },
        None => None,
    }
}



/// A namespace (package, module) and what it holds; each list is absent or present.
#[derive(Debug)]
pub struct LanguageNamespace {
    pub name: String,
    pub visibility: Visibility,
    pub defines: Option<Vec<LanguageDefinition>>,
    pub constants: Option<Vec<LanguageConstant>>,
    pub enums: Option<Vec<LanguageEnum>>,
    pub structs: Option<Vec<LanguageStruct>>,
    pub functions: Option<Vec<LanguageFunction>>,
    pub namespaces: Option<Vec<LanguageNamespace>>,
    pub docs: Option<Vec<String>>,
    pub raw_attributes: Vec<RawAttribute>,
}

/// The attributes resolved for annotations, in order, skipping those with none.
pub open spec fn resolved_texts(resolved: Seq<Option<String>>) -> Seq<Seq<char>>
    decreases resolved.len(),
{
    if resolved.len() == 0 {
        Seq::empty()
    } else {
        resolved_texts(resolved.drop_last()) + match resolved.last() {
            Some(t) => seq![t@],
            None => Seq::empty(),
        }
    }
}

/// Appends the resolved attributes to `out`, in order.
pub fn push_resolved(resolved: Vec<Option<String>>, out: &mut Vec<String>)
    ensures
        texts(final(out)@) == texts(old(out)@) + resolved_texts(resolved@),
{
    let ghost all = resolved@;
    let ghost start = texts(out@);
    assert(all.len() == resolved.len());
    let mut i: usize = 0;
    let mut rest = resolved;
    while rest.len() > 0
        invariant
            i + rest@.len() == all.len(),
            all.len() <= usize::MAX,
            rest@ == all.skip(i as int),
            texts(out@) == start + resolved_texts(all.take(i as int)),
        decreases rest@.len(),
    {
        let r = rest.remove(0);
        assert(all.take(i + 1).drop_last() =~= all.take(i as int));
        assert(r == all[i as int]);
        let ghost before = out@;
        if let Some(t) = r {
            out.push(t);
            assert(texts(out@) =~= texts(before) + seq![t@]);
        } else {
            assert(texts(out@) =~= texts(before));
        }
        i = i + 1;
        assert(rest@ =~= all.skip(i as int));
        assert(texts(out@) =~= start + resolved_texts(all.take(i as int)));
    }
    assert(all.take(i as int) =~= all);
}

/// The docstring of IR docs: its lines joined by newlines, if there are any docs.
pub open spec fn docstring_of_docs(docs: Option<Vec<String>>) -> Option<Seq<char>> {
    match docs {
        Some(lines) => Some(join(texts(lines@), "\n"@)),
        None => None,
    }
}

/// Joins the lines of IR docs into a docstring.
pub fn docs_to_docstring(docs: Option<Vec<String>>) -> (r: Option<String>)
    ensures
        r matches Some(d) ==> docstring_of_docs(docs) == Some(d@),
        r is None <==> docs is None,
{
    match docs {
        Some(lines) => {
            let mut d = String::new();
            push_joined(&mut d, &lines, "\n");
            assert(d@ =~= join(texts(lines@), "\n"@));
            Some(d)
        },
        None => None,
    }
}

} // verus!
