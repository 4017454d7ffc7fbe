use vstd::prelude::*;

use super::define_types::inferred_const_type;
use super::generic_types::{generic_decls_text, render_generic_decls, render_where_clauses, where_clauses_text};
use super::{
    infer_const_type, CSharpConstant, CSharpConstantRenderOptions, CSharpDefinition, CSharpDefinitionRenderOptions,
    CSharpEnum, CSharpEnumMember, CSharpEnumRenderOptions, CSharpEnumVariantRenderOptions, CSharpField,
    CSharpFieldRenderOptions, CSharpMethod, CSharpMethodRenderOptions, CSharpParameter, CSharpProperty, CSharpType,
    CSharpTypeKind, CSharpTypeRenderOptions,
};
use crate::backends::{BackendFeature, BackendMetadata};
use crate::text::{
    concat, indent, indent_text, join, lemma_join_done, lemma_join_loop, lemma_join_start, only_if, opt_str, opt_wrap,
    push_lines, push_opt, push_opt_str, push_str, push_when, texts, wrap_each, IndentStyle, NewLineStyle,
    occurs_in, lemma_occurs_between, lemma_occurs_widen, lemma_concat_split, lemma_join_occurs_after,
    lemma_occurs_in_part,
};

verus! {

/// Backend that renders the neutral declaration model as idiomatic C# source.
#[derive(Debug, Clone, Copy)]
pub struct CSharpBackend {
    /// The newline style to use.
    pub new_line: NewLineStyle,
    /// The indentation style to use.
    pub indent_style: IndentStyle,
    /// The number of spaces per indentation level (when using spaces).
    pub indent_size: i32,
}

impl Default for CSharpBackend {
    fn default() -> (r: Self)
        ensures
            r.new_line == NewLineStyle::LF,
            r.indent_style == IndentStyle::Spaces,
            r.indent_size == 4,
    {
        CSharpBackend { new_line: NewLineStyle::LF, indent_style: IndentStyle::Spaces, indent_size: 4 }
    }
}

impl BackendMetadata for CSharpBackend {
    fn language_name(&self) -> (r: &'static str)
        ensures
            r@ == "C#"@,
    {
        "C#"
    }

    fn supported_features(&self) -> (r: &'static [BackendFeature])
        ensures
            r@ == seq![
                BackendFeature::Constant,
                BackendFeature::Function,
                BackendFeature::Enum,
                BackendFeature::Struct,
                BackendFeature::Class,
                BackendFeature::Interface,
            ],
    {
        &[
            BackendFeature::Constant,
            BackendFeature::Function,
            BackendFeature::Enum,
            BackendFeature::Struct,
            BackendFeature::Class,
            BackendFeature::Interface,
        ]
    }
}

/// Whether rendering the method at `level` stays within the range of `i32` (a body is one
/// level deeper).
pub open spec fn csharp_method_fits(m: CSharpMethod, level: int) -> bool {
    m.body is Some ==> level < i32::MAX
}

/// Whether a property is rendered with auto-accessors (`{ get; set; }`).
pub open spec fn property_is_auto(p: CSharpProperty) -> bool {
    p.getter_body is None && p.setter_body is None
}

/// Whether rendering the property at `level` stays within the range of `i32` (accessors are
/// one level deeper, their bodies two).
pub open spec fn csharp_property_fits(p: CSharpProperty, level: int) -> bool {
    !property_is_auto(p) ==> {
        &&& (p.has_getter || p.has_setter) ==> level < i32::MAX
        &&& (p.has_getter && p.getter_body is Some) || (p.has_setter && p.setter_body is Some) ==> level + 1
            < i32::MAX
    }
}

/// Whether rendering the type at `level` stays within the range of `i32`: its members are one
/// level deeper.
pub open spec fn csharp_type_fits(t: CSharpType, o: CSharpTypeRenderOptions, level: int) -> bool {
    &&& level < i32::MAX
    &&& o.render_properties ==> forall|i: int|
        0 <= i < t.properties@.len() ==> csharp_property_fits(#[trigger] t.properties@[i], level + 1)
    &&& o.render_methods ==> forall|i: int|
        0 <= i < t.methods@.len() ==> csharp_method_fits(#[trigger] t.methods@[i], level + 1)
}

/// Whether `sealed` may be written on a type of this kind.
pub open spec fn kind_can_be_sealed(k: CSharpTypeKind) -> bool {
    k == CSharpTypeKind::Class || k == CSharpTypeKind::Record
}

/// Whether `abstract` may be written on a type of this kind.
pub open spec fn kind_can_be_abstract(k: CSharpTypeKind) -> bool {
    k == CSharpTypeKind::Class || k == CSharpTypeKind::Record
}

/// Whether `unsafe` may be written on a type of this kind: every kind but `struct`.
pub open spec fn kind_can_be_unsafe(k: CSharpTypeKind) -> bool {
    k != CSharpTypeKind::Struct
}

impl CSharpBackend {
    /// The indentation for `level`.
    pub open spec fn ind(self, level: int) -> Seq<char> {
        indent_text(level, self.indent_size as int, self.indent_style)
    }

    /// The line ending.
    pub open spec fn nl(self) -> Seq<char> {
        self.new_line.text()
    }

    /// `///` doc lines at `level`.
    #[verifier::opaque]
    pub open spec fn docs_text(self, docs: Seq<String>, level: int) -> Seq<char> {
        wrap_each(self.ind(level) + "/// "@, docs, self.nl())
    }

    /// Doc lines when rendering is on and there are docs.
    #[verifier::opaque]
    pub open spec fn opt_docs_text(self, render: bool, docs: Option<Vec<String>>, level: int) -> Seq<char> {
        if render && docs is Some {
            self.docs_text(docs->0@, level)
        } else {
            Seq::empty()
        }
    }

    /// One `[Attribute]` line per attribute at `level`.
    #[verifier::opaque]
    pub open spec fn attributes_text(self, attributes: Seq<String>, level: int) -> Seq<char> {
        wrap_each(self.ind(level) + "["@, attributes, "]"@ + self.nl())
    }

    /// A field declaration line with its docs and attributes.
    #[verifier::opaque]
    pub open spec fn field_text(self, f: CSharpField, o: CSharpFieldRenderOptions, level: int) -> Seq<char> {
        self.opt_docs_text(o.render_docs, f.docs, level) + only_if(
            o.render_attributes,
            self.attributes_text(f.attributes@, level),
        ) + self.ind(level) + f.visibility.prefix_text() + only_if(f.is_static, "static "@) + only_if(
            f.is_const,
            "const "@,
        ) + only_if(f.is_readonly, "readonly "@) + f.field_type@ + " "@ + f.name@ + opt_wrap(
            " = "@,
            f.initializer,
            ""@,
        ) + ";"@ + self.nl()
    }

    /// An accessor: `get;` for an auto-accessor, else the keyword and its body in braces.
    #[verifier::opaque]
    pub open spec fn accessor_text(self, keyword: Seq<char>, body: Option<Vec<String>>, level: int) -> Seq<char> {
        match body {
            None => self.ind(level) + keyword + ";"@ + self.nl(),
            Some(lines) => self.ind(level) + keyword + self.nl() + self.ind(level) + "{"@ + self.nl() + wrap_each(
                self.ind(level + 1),
                lines@,
                self.nl(),
            ) + self.ind(level) + "}"@ + self.nl(),
        }
    }

    /// Auto-accessors: ` { get; set; }`.
    #[verifier::opaque]
    pub open spec fn auto_accessors_text(self, p: CSharpProperty) -> Seq<char> {
        " {"@ + only_if(p.has_getter, " get;"@) + only_if(p.has_setter, " set;"@) + " }"@ + self.nl()
    }

    /// Accessors with bodies, in braces on their own lines.
    #[verifier::opaque]
    pub open spec fn block_accessors_text(self, p: CSharpProperty, level: int) -> Seq<char> {
        self.nl() + self.ind(level) + "{"@ + self.nl() + only_if(
            p.has_getter,
            self.accessor_text("get"@, p.getter_body, level + 1),
        ) + only_if(p.has_setter, self.accessor_text("set"@, p.setter_body, level + 1)) + self.ind(level) + "}"@
            + self.nl()
    }

    /// The accessors of a property, after its name.
    pub open spec fn property_accessors_text(self, p: CSharpProperty, level: int) -> Seq<char> {
        if property_is_auto(p) {
            self.auto_accessors_text(p)
        } else {
            self.block_accessors_text(p, level)
        }
    }

    /// A property with its docs (always rendered) and accessors.
    #[verifier::opaque]
    pub open spec fn property_text(self, p: CSharpProperty, level: int) -> Seq<char> {
        self.opt_docs_text(true, p.docs, level) + self.ind(level) + p.visibility.prefix_text() + only_if(
            p.is_static,
            "static "@,
        ) + p.prop_type@ + " "@ + p.name@ + self.property_accessors_text(p, level)
    }

    /// The modifiers of a method (`sealed` only on an override).
    #[verifier::opaque]
    pub open spec fn method_modifiers_text(m: CSharpMethod) -> Seq<char> {
        only_if(m.is_static, "static "@) + only_if(m.is_abstract, "abstract "@) + only_if(m.is_virtual, "virtual "@)
            + only_if(m.is_override, "override "@) + only_if(m.is_sealed && m.is_override, "sealed "@) + only_if(
            m.is_async,
            "async "@,
        )
    }

    /// The return type, or `void` when there is none.
    pub open spec fn method_return_text(m: CSharpMethod) -> Seq<char> {
        match m.return_type {
            Some(t) => t@,
            None => "void"@,
        }
    }

    /// A parameter: `type name [= default]`.
    pub open spec fn param_text(p: CSharpParameter) -> Seq<char> {
        p.param_type@ + " "@ + p.name@ + opt_wrap(" = "@, p.default_value, ""@)
    }

    /// The parameters, separated by `, `.
    pub open spec fn params_text(ps: Seq<CSharpParameter>) -> Seq<char> {
        join(Seq::new(ps.len(), |i: int| Self::param_text(ps[i])), ", "@)
    }

    /// `;` for a method without a body, else the body in braces one level deeper.
    #[verifier::opaque]
    pub open spec fn method_body_text(self, m: CSharpMethod, level: int) -> Seq<char> {
        match m.body {
            None => ";"@ + self.nl(),
            Some(lines) => self.nl() + self.ind(level) + "{"@ + self.nl() + wrap_each(
                self.ind(level + 1),
                lines@,
                self.nl(),
            ) + self.ind(level) + "}"@ + self.nl(),
        }
    }

    /// A method's docs, attributes, indentation, visibility and modifiers.
    #[verifier::opaque]
    pub open spec fn method_head_text(self, m: CSharpMethod, o: CSharpMethodRenderOptions, level: int) -> Seq<char> {
        self.opt_docs_text(o.render_docs, m.docs, level) + only_if(
            o.render_attributes,
            self.attributes_text(m.attributes@, level),
        ) + self.ind(level) + m.visibility.prefix_text() + Self::method_modifiers_text(m)
    }

    /// A method's signature: return type, name, generic parameters, parameters and `where`
    /// clauses.
    #[verifier::opaque]
    pub open spec fn method_signature_text(m: CSharpMethod) -> Seq<char> {
        Self::method_return_text(m) + " "@ + m.name@ + generic_decls_text(m.generic_args@) + "("@
            + Self::params_text(m.parameters@) + ")"@ + where_clauses_text(m.generic_args@)
    }

    /// A method: head, signature and body.
    pub open spec fn method_text(self, m: CSharpMethod, o: CSharpMethodRenderOptions, level: int) -> Seq<char> {
        self.method_head_text(m, o, level) + Self::method_signature_text(m) + self.method_body_text(m, level)
    }

    /// A define as a `public const`: typed by its value when that is a recognized literal (else
    /// by `const_type`), or `bool` set to `true` when it has no value.
    pub open spec fn definition_text(
        self,
        d: CSharpDefinition,
        const_type: Seq<char>,
        render_docs: bool,
        level: int,
        before: Seq<char>,
        after: Seq<char>,
    ) -> Seq<char> {
        before + self.opt_docs_text(render_docs, d.docs, level) + (match d.value {
            Some(v) => self.ind(level) + "public const "@ + (match inferred_const_type(v@) {
                Some(t) => t,
                None => const_type,
            }) + " "@ + d.name@ + " = "@ + v@ + ";"@ + self.nl(),
            None => self.ind(level) + "public const bool "@ + d.name@ + " = true;"@ + self.nl(),
        }) + after
    }

    /// A constant declaration line.
    pub open spec fn constant_text(
        self,
        c: CSharpConstant,
        o: CSharpConstantRenderOptions,
        level: int,
        before: Seq<char>,
        after: Seq<char>,
    ) -> Seq<char> {
        before + self.opt_docs_text(o.render_docs, c.docs, level) + self.ind(level) + c.visibility.prefix_text()
            + "const "@ + c.data_type@ + " "@ + c.name@ + " = "@ + c.value@ + ";"@ + self.nl() + after
    }

    /// An enum member line with its docs.
    pub open spec fn member_text(self, m: CSharpEnumMember, vo: CSharpEnumVariantRenderOptions, level: int) -> Seq<char> {
        self.opt_docs_text(vo.render_docs, m.docs, level) + self.ind(level) + m.name@ + opt_wrap(" = "@, m.value, ""@)
            + ","@ + self.nl()
    }

    /// The members of an enum, one after the other.
    pub open spec fn members_text(self, ms: Seq<CSharpEnumMember>, vo: CSharpEnumVariantRenderOptions, level: int) -> Seq<char> {
        concat(Seq::new(ms.len(), |i: int| self.member_text(ms[i], vo, level)))
    }

    /// The head of an enum: `before`, docs, `[Flags]`, attributes, `enum Name[ : type]` and the
    /// opening brace on its own line.
    #[verifier::opaque]
    pub open spec fn enum_head_text(self, e: CSharpEnum, o: CSharpEnumRenderOptions, level: int, before: Seq<char>) -> Seq<char> {
        before + self.opt_docs_text(o.render_docs, e.docs, level) + only_if(
            e.is_flags,
            self.ind(level) + "[Flags]"@ + self.nl(),
        ) + self.attributes_text(e.attributes@, level) + self.ind(level) + e.visibility.prefix_text() + "enum "@
            + e.name@ + opt_wrap(" : "@, e.underlying_type, ""@) + self.nl() + self.ind(level) + "{"@ + self.nl()
    }

    /// An enum: head, members one level deeper, `}`, `after`.
    pub open spec fn enum_text(
        self,
        e: CSharpEnum,
        o: CSharpEnumRenderOptions,
        vo: CSharpEnumVariantRenderOptions,
        level: int,
        before: Seq<char>,
        after: Seq<char>,
    ) -> Seq<char> {
        self.enum_head_text(e, o, level, before) + self.members_text(e.members@, vo, level + 1) + self.ind(level) + "}"@
            + self.nl() + after
    }

    /// The base class, then the interfaces.
    pub open spec fn base_names(t: CSharpType) -> Seq<Seq<char>> {
        (match t.base_class {
            Some(b) => seq![b@],
            None => Seq::empty(),
        }) + texts(t.interfaces@)
    }

    /// ` : Base, IFace` when there are bases.
    pub open spec fn bases_text(t: CSharpType) -> Seq<char> {
        only_if(Self::base_names(t).len() > 0, " : "@ + join(Self::base_names(t), ", "@))
    }

    /// The modifiers of a type that apply to its kind.
    #[verifier::opaque]
    pub open spec fn type_modifiers_text(t: CSharpType) -> Seq<char> {
        only_if(t.is_static, "static "@) + only_if(t.is_abstract && kind_can_be_abstract(t.kind), "abstract "@)
            + only_if(t.is_sealed && kind_can_be_sealed(t.kind), "sealed "@) + only_if(
            t.is_unsafe && kind_can_be_unsafe(t.kind),
            "unsafe "@,
        ) + only_if(t.is_partial, "partial "@)
    }

    /// The head of a type: `before`, docs, attributes, modifiers, kind, name, generic
    /// parameters, bases, `where` clauses and the opening brace on its own line.
    #[verifier::opaque]
    pub open spec fn type_head_text(self, t: CSharpType, o: CSharpTypeRenderOptions, level: int, before: Seq<char>) -> Seq<char> {
        before + self.opt_docs_text(o.render_docs, t.docs, level) + only_if(
            o.render_attributes,
            self.attributes_text(t.attributes@, level),
        ) + self.ind(level) + t.visibility.prefix_text() + Self::type_modifiers_text(t) + t.kind.keyword_text()
            + " "@ + t.name@ + generic_decls_text(t.generic_args@) + Self::bases_text(t) + where_clauses_text(
            t.generic_args@,
        ) + self.nl() + self.ind(level) + "{"@ + self.nl()
    }

    /// The fields of a type at `level`, with the default field options.
    pub open spec fn type_fields_text(self, t: CSharpType, level: int) -> Seq<char> {
        concat(
            Seq::new(
                t.fields@.len(),
                |i: int| self.field_text(t.fields@[i], CSharpFieldRenderOptions::spec_default(), level),
            ),
        )
    }

    /// The first `n` properties, each after a blank line when a member came before it.
    #[verifier::opaque]
    pub open spec fn properties_upto(self, t: CSharpType, level: int, n: int) -> Seq<char>
        decreases n,
    {
        if n <= 0 {
            Seq::empty()
        } else {
            self.properties_upto(t, level, n - 1) + only_if(t.fields@.len() > 0 || n - 1 > 0, self.nl())
                + self.property_text(t.properties@[n - 1], level)
        }
    }

    /// The properties of a type at `level`, when they are rendered.
    pub open spec fn type_properties_text(self, t: CSharpType, o: CSharpTypeRenderOptions, level: int) -> Seq<char> {
        only_if(o.render_properties, self.properties_upto(t, level, t.properties@.len() as int))
    }

    /// Whether some member is written before the methods.
    pub open spec fn members_before_methods(t: CSharpType, o: CSharpTypeRenderOptions) -> bool {
        t.fields@.len() > 0 || (o.render_properties && t.properties@.len() > 0)
    }

    /// The first `n` methods, each after a blank line when a member came before it.
    #[verifier::opaque]
    pub open spec fn methods_upto(self, t: CSharpType, o: CSharpTypeRenderOptions, level: int, n: int) -> Seq<char>
        decreases n,
    {
        if n <= 0 {
            Seq::empty()
        } else {
            self.methods_upto(t, o, level, n - 1) + only_if(
                Self::members_before_methods(t, o) || n - 1 > 0,
                self.nl(),
            ) + self.method_text(t.methods@[n - 1], CSharpMethodRenderOptions::spec_default(), level)
        }
    }

    /// The methods of a type at `level`, when they are rendered.
    pub open spec fn type_methods_text(self, t: CSharpType, o: CSharpTypeRenderOptions, level: int) -> Seq<char> {
        only_if(o.render_methods, self.methods_upto(t, o, level, t.methods@.len() as int))
    }

    /// A type: head, fields, properties and methods one level deeper, `}`, `after`.
    pub open spec fn type_text(
        self,
        t: CSharpType,
        o: CSharpTypeRenderOptions,
        level: int,
        before: Seq<char>,
        after: Seq<char>,
    ) -> Seq<char> {
        self.type_head_text(t, o, level, before) + self.type_fields_text(t, level + 1) + self.type_properties_text(
            t,
            o,
            level + 1,
        ) + self.type_methods_text(t, o, level + 1) + self.ind(level) + "}"@ + self.nl() + after
    }
}


impl CSharpBackend {
    fn indent(&self, level: i32) -> (r: String)
        ensures
            r@ == self.ind(level as int),
    {
        indent(level, self.indent_size, self.indent_style)
    }

    fn write_docs(&self, docs: &Vec<String>, indent_level: i32, out: &mut String)
        ensures
            final(out)@ == old(out)@ + self.docs_text(docs@, indent_level as int),
    {
        proof {
            reveal(CSharpBackend::docs_text);
        }
        let mut pre = self.indent(indent_level);
        push_str(&mut pre, "/// ");
        push_lines(out, pre.as_str(), docs, self.new_line.as_str());
    }

    fn write_opt_docs(&self, render: bool, docs: &Option<Vec<String>>, indent_level: i32, out: &mut String)
        ensures
            final(out)@ == old(out)@ + self.opt_docs_text(render, *docs, indent_level as int),
    {
        proof {
            reveal(CSharpBackend::opt_docs_text);
        }
        let ghost start = out@;
        if render {
            if let Some(docs) = docs {
                self.write_docs(docs, indent_level, out);
            }
        }
        assert(out@ =~= start + self.opt_docs_text(render, *docs, indent_level as int));
    }

    fn write_attributes(&self, attributes: &Vec<String>, indent_level: i32, out: &mut String)
        ensures
            final(out)@ == old(out)@ + self.attributes_text(attributes@, indent_level as int),
    {
        proof {
            reveal(CSharpBackend::attributes_text);
        }
        let mut pre = self.indent(indent_level);
        push_str(&mut pre, "[");
        let mut post = String::new();
        push_str(&mut post, "]");
        push_str(&mut post, self.new_line.as_str());
        push_lines(out, pre.as_str(), attributes, post.as_str());
    }

    fn write_opt_attributes(&self, render: bool, attributes: &Vec<String>, indent_level: i32, out: &mut String)
        ensures
            final(out)@ == old(out)@ + only_if(render, self.attributes_text(attributes@, indent_level as int)),
    {
        proof {
            reveal(only_if);
        }
        let ghost start = out@;
        if render {
            self.write_attributes(attributes, indent_level, out);
        }
        assert(out@ =~= start + only_if(render, self.attributes_text(attributes@, indent_level as int)));
    }

    #[verifier::rlimit(30)]
    fn write_field(&self, field: &CSharpField, options: &CSharpFieldRenderOptions, indent_level: i32, out: &mut String)
        ensures
            final(out)@ == old(out)@ + self.field_text(*field, *options, indent_level as int),
    {
        proof {
            reveal(CSharpBackend::field_text);
        }
        let ghost start = out@;
        self.write_opt_docs(options.render_docs, &field.docs, indent_level, out);
        self.write_opt_attributes(options.render_attributes, &field.attributes, indent_level, out);
        push_str(out, self.indent(indent_level).as_str());
        push_str(out, field.visibility.prefix().as_str());
        push_when(out, field.is_static, "static ");
        push_when(out, field.is_const, "const ");
        push_when(out, field.is_readonly, "readonly ");
        push_str(out, field.field_type.as_str());
        push_str(out, " ");
        push_str(out, field.name.as_str());
        push_opt(out, " = ", &field.initializer, "");
        push_str(out, ";");
        push_str(out, self.new_line.as_str());
        assert(out@ =~= start + self.field_text(*field, *options, indent_level as int));
    }

    #[verifier::rlimit(30)]
    fn write_accessor(&self, keyword: &str, body: &Option<Vec<String>>, indent_level: i32, out: &mut String)
        requires
            body is Some ==> indent_level < i32::MAX,
        ensures
            final(out)@ == old(out)@ + self.accessor_text(keyword@, *body, indent_level as int),
    {
        proof {
            reveal(CSharpBackend::accessor_text);
        }
        let ghost start = out@;
        match body {
            None => {
                push_str(out, self.indent(indent_level).as_str());
                push_str(out, keyword);
                push_str(out, ";");
                push_str(out, self.new_line.as_str());
            },
            Some(lines) => {
                let ind = self.indent(indent_level);
                push_str(out, ind.as_str());
                push_str(out, keyword);
                push_str(out, self.new_line.as_str());
                push_str(out, ind.as_str());
                push_str(out, "{");
                push_str(out, self.new_line.as_str());
                push_lines(out, self.indent(indent_level + 1).as_str(), lines, self.new_line.as_str());
                push_str(out, ind.as_str());
                push_str(out, "}");
                push_str(out, self.new_line.as_str());
            },
        }
        assert(out@ =~= start + self.accessor_text(keyword@, *body, indent_level as int));
    }

    fn write_auto_accessors(&self, property: &CSharpProperty, out: &mut String)
        ensures
            final(out)@ == old(out)@ + self.auto_accessors_text(*property),
    {
        proof {
            reveal(CSharpBackend::auto_accessors_text);
        }
        let ghost start = out@;
        push_str(out, " {");
        push_when(out, property.has_getter, " get;");
        push_when(out, property.has_setter, " set;");
        push_str(out, " }");
        push_str(out, self.new_line.as_str());
        assert(out@ =~= start + self.auto_accessors_text(*property));
    }

    #[verifier::rlimit(30)]
    fn write_block_accessors(&self, property: &CSharpProperty, indent_level: i32, out: &mut String)
        requires
            !property_is_auto(*property),
            csharp_property_fits(*property, indent_level as int),
        ensures
            final(out)@ == old(out)@ + self.block_accessors_text(*property, indent_level as int),
    {
        proof {
            reveal(CSharpBackend::block_accessors_text);
            reveal(only_if);
        }
        let ghost start = out@;
        push_str(out, self.new_line.as_str());
        push_str(out, self.indent(indent_level).as_str());
        push_str(out, "{");
        push_str(out, self.new_line.as_str());
        if property.has_getter {
            self.write_accessor("get", &property.getter_body, indent_level + 1, out);
        }
        if property.has_setter {
            self.write_accessor("set", &property.setter_body, indent_level + 1, out);
        }
        push_str(out, self.indent(indent_level).as_str());
        push_str(out, "}");
        push_str(out, self.new_line.as_str());
        assert(out@ =~= start + self.block_accessors_text(*property, indent_level as int));
    }

    fn write_property_accessors(&self, property: &CSharpProperty, indent_level: i32, out: &mut String)
        requires
            csharp_property_fits(*property, indent_level as int),
        ensures
            final(out)@ == old(out)@ + self.property_accessors_text(*property, indent_level as int),
    {
        if property.getter_body.is_none() && property.setter_body.is_none() {
            self.write_auto_accessors(property, out);
        } else {
            self.write_block_accessors(property, indent_level, out);
        }
    }

    #[verifier::rlimit(30)]
    fn write_property(&self, property: &CSharpProperty, indent_level: i32, out: &mut String)
        requires
            csharp_property_fits(*property, indent_level as int),
        ensures
            final(out)@ == old(out)@ + self.property_text(*property, indent_level as int),
    {
        proof {
            reveal(CSharpBackend::property_text);
        }
        let ghost start = out@;
        self.write_opt_docs(true, &property.docs, indent_level, out);
        push_str(out, self.indent(indent_level).as_str());
        push_str(out, property.visibility.prefix().as_str());
        push_when(out, property.is_static, "static ");
        push_str(out, property.prop_type.as_str());
        push_str(out, " ");
        push_str(out, property.name.as_str());
        self.write_property_accessors(property, indent_level, out);
        assert(out@ =~= start + self.property_text(*property, indent_level as int));
    }
}


impl CSharpBackend {
    #[verifier::rlimit(30)]
    fn write_method_head(&self, method: &CSharpMethod, options: &CSharpMethodRenderOptions, indent_level: i32, out: &mut String)
        ensures
            final(out)@ == old(out)@ + self.method_head_text(*method, *options, indent_level as int),
    {
        proof {
            reveal(CSharpBackend::method_head_text);
        }
        let ghost start = out@;
        self.write_opt_docs(options.render_docs, &method.docs, indent_level, out);
        self.write_opt_attributes(options.render_attributes, &method.attributes, indent_level, out);
        push_str(out, self.indent(indent_level).as_str());
        push_str(out, method.visibility.prefix().as_str());
        Self::write_method_modifiers(method, out);
        assert(out@ =~= start + self.method_head_text(*method, *options, indent_level as int));
    }

    fn write_method_modifiers(method: &CSharpMethod, out: &mut String)
        ensures
            final(out)@ == old(out)@ + Self::method_modifiers_text(*method),
    {
        proof {
            reveal(CSharpBackend::method_modifiers_text);
        }
        let ghost start = out@;
        push_when(out, method.is_static, "static ");
        push_when(out, method.is_abstract, "abstract ");
        push_when(out, method.is_virtual, "virtual ");
        push_when(out, method.is_override, "override ");
        push_when(out, method.is_sealed && method.is_override, "sealed ");
        push_when(out, method.is_async, "async ");
        assert(out@ =~= start + Self::method_modifiers_text(*method));
    }

    fn write_params(params: &Vec<CSharpParameter>, out: &mut String)
        ensures
            final(out)@ == old(out)@ + Self::params_text(params@),
    {
        let ghost parts = Seq::new(params@.len(), |i: int| Self::param_text(params@[i]));
        let ghost start = out@;
        proof {
            lemma_join_start(start, parts, ", "@);
        }
        let mut i: usize = 0;
        while i < params.len()
            invariant
                i <= params@.len(),
                parts == Seq::new(params@.len(), |i: int| Self::param_text(params@[i])),
                out@ == start + join(parts.take(i as int), ", "@),
            decreases params@.len() - i,
        {
            let ghost prev = out@;
            if i > 0 {
                push_str(out, ", ");
            }
            let ghost p = out@;
            let param = &params[i];
            push_str(out, param.param_type.as_str());
            push_str(out, " ");
            push_str(out, param.name.as_str());
            push_opt(out, " = ", &param.default_value, "");
            proof {
                assert(out@ =~= p + parts[i as int]);
                lemma_join_loop(start, parts, ", "@, i as int, prev, out@);
            }
            i = i + 1;
        }
        proof {
            lemma_join_done(start, parts, ", "@, i as int);
        }
    }

    #[verifier::rlimit(30)]
    fn write_method_signature(method: &CSharpMethod, out: &mut String)
        ensures
            final(out)@ == old(out)@ + Self::method_signature_text(*method),
    {
        proof {
            reveal(CSharpBackend::method_signature_text);
        }
        let ghost start = out@;
        let return_type: &str = match &method.return_type {
            Some(t) => t.as_str(),
            None => "void",
        };
        push_str(out, return_type);
        push_str(out, " ");
        push_str(out, method.name.as_str());
        push_str(out, render_generic_decls(&method.generic_args).as_str());
        push_str(out, "(");
        Self::write_params(&method.parameters, out);
        push_str(out, ")");
        push_str(out, render_where_clauses(&method.generic_args).as_str());
        assert(out@ =~= start + Self::method_signature_text(*method));
    }

    #[verifier::rlimit(30)]
    fn write_method_body(&self, method: &CSharpMethod, indent_level: i32, out: &mut String)
        requires
            csharp_method_fits(*method, indent_level as int),
        ensures
            final(out)@ == old(out)@ + self.method_body_text(*method, indent_level as int),
    {
        proof {
            reveal(CSharpBackend::method_body_text);
        }
        let ghost start = out@;
        match &method.body {
            None => {
                push_str(out, ";");
                push_str(out, self.new_line.as_str());
            },
            Some(lines) => {
                let ind = self.indent(indent_level);
                push_str(out, self.new_line.as_str());
                push_str(out, ind.as_str());
                push_str(out, "{");
                push_str(out, self.new_line.as_str());
                push_lines(out, self.indent(indent_level + 1).as_str(), lines, self.new_line.as_str());
                push_str(out, ind.as_str());
                push_str(out, "}");
                push_str(out, self.new_line.as_str());
            },
        }
        assert(out@ =~= start + self.method_body_text(*method, indent_level as int));
    }

    fn write_method(&self, method: &CSharpMethod, options: &CSharpMethodRenderOptions, indent_level: i32, out: &mut String)
        requires
            csharp_method_fits(*method, indent_level as int),
        ensures
            final(out)@ == old(out)@ + self.method_text(*method, *options, indent_level as int),
    {
        let ghost start = out@;
        self.write_method_head(method, options, indent_level, out);
        Self::write_method_signature(method, out);
        self.write_method_body(method, indent_level, out);
        assert(out@ =~= start + self.method_text(*method, *options, indent_level as int));
    }

    /// Render a method.
    pub fn render_function_to(
        &self,
        input: &CSharpMethod,
        before: Option<&str>,
        after: Option<&str>,
        options: Option<&CSharpMethodRenderOptions>,
        indent_level: &mut i32,
        out: &mut String,
    )
        requires
            csharp_method_fits(*input, *old(indent_level) as int),
        ensures
            final(out)@ == old(out)@ + opt_str(before) + self.method_text(
                *input,
                CSharpMethodRenderOptions::or_default(options),
                *old(indent_level) as int,
            ) + opt_str(after),
            *final(indent_level) == *old(indent_level),
    {
        let binding = CSharpMethodRenderOptions::default();
        let options: &CSharpMethodRenderOptions = match options {
            Some(o) => o,
            None => &binding,
        };
        let ghost start = out@;
        push_opt_str(out, before);
        self.write_method(input, options, *indent_level, out);
        push_opt_str(out, after);
        assert(out@ =~= start + opt_str(before) + self.method_text(*input, *options, *indent_level as int)
            + opt_str(after));
    }

    /// Render a method to a string.
    pub fn render_function(
        &self,
        input: &CSharpMethod,
        before: Option<&str>,
        after: Option<&str>,
        options: Option<&CSharpMethodRenderOptions>,
        indent_level: &mut i32,
    ) -> (r: String)
        requires
            csharp_method_fits(*input, *old(indent_level) as int),
        ensures
            r@ == opt_str(before) + self.method_text(
                *input,
                CSharpMethodRenderOptions::or_default(options),
                *old(indent_level) as int,
            ) + opt_str(after),
            *final(indent_level) == *old(indent_level),
    {
        let mut out = String::new();
        self.render_function_to(input, before, after, options, indent_level, &mut out);
        assert(out@ =~= opt_str(before) + self.method_text(
            *input,
            CSharpMethodRenderOptions::or_default(options),
            *old(indent_level) as int,
        ) + opt_str(after));
        out
    }

    /// Render a define as a `public const`.
    #[verifier::rlimit(30)]
    pub fn render_definition_to(
        &self,
        input: &CSharpDefinition,
        before: Option<&str>,
        after: Option<&str>,
        options: Option<&CSharpDefinitionRenderOptions>,
        indent_level: &mut i32,
        out: &mut String,
    )
        ensures
            final(out)@ == old(out)@ + self.definition_text(
                *input,
                CSharpDefinitionRenderOptions::const_type_or_default(options),
                CSharpDefinitionRenderOptions::render_docs_or_default(options),
                *old(indent_level) as int,
                opt_str(before),
                opt_str(after),
            ),
            *final(indent_level) == *old(indent_level),
    {
        let binding = CSharpDefinitionRenderOptions::default();
        let options: &CSharpDefinitionRenderOptions = match options {
            Some(o) => o,
            None => &binding,
        };
        let level = *indent_level;
        let ghost start = out@;
        push_opt_str(out, before);
        self.write_opt_docs(options.render_docs, &input.docs, level, out);
        match &input.value {
            Some(value) => {
                let const_type: &str = match infer_const_type(value.as_str()) {
                    Some(t) => t,
                    None => options.const_type,
                };
                push_str(out, self.indent(level).as_str());
                push_str(out, "public const ");
                push_str(out, const_type);
                push_str(out, " ");
                push_str(out, input.name.as_str());
                push_str(out, " = ");
                push_str(out, value.as_str());
                push_str(out, ";");
                push_str(out, self.new_line.as_str());
            },
            None => {
                push_str(out, self.indent(level).as_str());
                push_str(out, "public const bool ");
                push_str(out, input.name.as_str());
                push_str(out, " = true;");
                push_str(out, self.new_line.as_str());
            },
        }
        push_opt_str(out, after);
        assert(out@ =~= start + self.definition_text(
            *input,
            options.const_type@,
            options.render_docs,
            level as int,
            opt_str(before),
            opt_str(after),
        ));
    }

    /// Render a define to a string.
    pub fn render_definition(
        &self,
        input: &CSharpDefinition,
        before: Option<&str>,
        after: Option<&str>,
        options: Option<&CSharpDefinitionRenderOptions>,
        indent_level: &mut i32,
    ) -> (r: String)
        ensures
            r@ == self.definition_text(
                *input,
                CSharpDefinitionRenderOptions::const_type_or_default(options),
                CSharpDefinitionRenderOptions::render_docs_or_default(options),
                *old(indent_level) as int,
                opt_str(before),
                opt_str(after),
            ),
            *final(indent_level) == *old(indent_level),
    {
        let mut out = String::new();
        self.render_definition_to(input, before, after, options, indent_level, &mut out);
        assert(out@ =~= self.definition_text(
            *input,
            CSharpDefinitionRenderOptions::const_type_or_default(options),
            CSharpDefinitionRenderOptions::render_docs_or_default(options),
            *old(indent_level) as int,
            opt_str(before),
            opt_str(after),
        ));
        out
    }

    /// Render a constant (`const` field).
    #[verifier::rlimit(30)]
    pub fn render_constant_to(
        &self,
        input: &CSharpConstant,
        before: Option<&str>,
        after: Option<&str>,
        options: Option<&CSharpConstantRenderOptions>,
        indent_level: &mut i32,
        out: &mut String,
    )
        ensures
            final(out)@ == old(out)@ + self.constant_text(
                *input,
                CSharpConstantRenderOptions::or_default(options),
                *old(indent_level) as int,
                opt_str(before),
                opt_str(after),
            ),
            *final(indent_level) == *old(indent_level),
    {
        let binding = CSharpConstantRenderOptions::default();
        let options: &CSharpConstantRenderOptions = match options {
            Some(o) => o,
            None => &binding,
        };
        let level = *indent_level;
        let ghost start = out@;
        push_opt_str(out, before);
        self.write_opt_docs(options.render_docs, &input.docs, level, out);
        push_str(out, self.indent(level).as_str());
        push_str(out, input.visibility.prefix().as_str());
        push_str(out, "const ");
        push_str(out, input.data_type.as_str());
        push_str(out, " ");
        push_str(out, input.name.as_str());
        push_str(out, " = ");
        push_str(out, input.value.as_str());
        push_str(out, ";");
        push_str(out, self.new_line.as_str());
        push_opt_str(out, after);
        assert(out@ =~= start + self.constant_text(*input, *options, level as int, opt_str(before), opt_str(after)));
    }

    /// Render a constant to a string.
    pub fn render_constant(
        &self,
        input: &CSharpConstant,
        before: Option<&str>,
        after: Option<&str>,
        options: Option<&CSharpConstantRenderOptions>,
        indent_level: &mut i32,
    ) -> (r: String)
        ensures
            r@ == self.constant_text(
                *input,
                CSharpConstantRenderOptions::or_default(options),
                *old(indent_level) as int,
                opt_str(before),
                opt_str(after),
            ),
            *final(indent_level) == *old(indent_level),
    {
        let mut out = String::new();
        self.render_constant_to(input, before, after, options, indent_level, &mut out);
        assert(out@ =~= self.constant_text(
            *input,
            CSharpConstantRenderOptions::or_default(options),
            *old(indent_level) as int,
            opt_str(before),
            opt_str(after),
        ));
        out
    }
}


impl CSharpBackend {
    #[verifier::rlimit(30)]
    fn write_enum_head(&self, input: &CSharpEnum, options: &CSharpEnumRenderOptions, level: i32, before: Option<&str>, out: &mut String)
        ensures
            final(out)@ == old(out)@ + self.enum_head_text(*input, *options, level as int, opt_str(before)),
    {
        proof {
            reveal(CSharpBackend::enum_head_text);
            reveal(only_if);
        }
        let ghost start = out@;
        push_opt_str(out, before);
        self.write_opt_docs(options.render_docs, &input.docs, level, out);
        let ind = self.indent(level);
        if input.is_flags {
            push_str(out, ind.as_str());
            push_str(out, "[Flags]");
            push_str(out, self.new_line.as_str());
        }
        self.write_attributes(&input.attributes, level, out);
        push_str(out, ind.as_str());
        push_str(out, input.visibility.prefix().as_str());
        push_str(out, "enum ");
        push_str(out, input.name.as_str());
        push_opt(out, " : ", &input.underlying_type, "");
        push_str(out, self.new_line.as_str());
        push_str(out, ind.as_str());
        push_str(out, "{");
        push_str(out, self.new_line.as_str());
        assert(out@ =~= start + self.enum_head_text(*input, *options, level as int, opt_str(before)));
    }

    fn write_members(&self, members: &Vec<CSharpEnumMember>, vo: &CSharpEnumVariantRenderOptions, level: i32, out: &mut String)
        ensures
            final(out)@ == old(out)@ + self.members_text(members@, *vo, level as int),
    {
        let ghost parts = Seq::new(members@.len(), |i: int| self.member_text(members@[i], *vo, level as int));
        let ghost start = out@;
        let ind = self.indent(level);
        let mut i: usize = 0;
        assert(parts.take(0) =~= Seq::<Seq<char>>::empty());
        while i < members.len()
            invariant
                i <= members@.len(),
                ind@ == self.ind(level as int),
                parts == Seq::new(members@.len(), |i: int| self.member_text(members@[i], *vo, level as int)),
                out@ == start + concat(parts.take(i as int)),
            decreases members@.len() - i,
        {
            let ghost prev = out@;
            let member = &members[i];
            self.write_opt_docs(vo.render_docs, &member.docs, level, out);
            push_str(out, ind.as_str());
            push_str(out, member.name.as_str());
            push_opt(out, " = ", &member.value, "");
            push_str(out, ",");
            push_str(out, self.new_line.as_str());
            assert(parts.take(i + 1).drop_last() =~= parts.take(i as int));
            assert(out@ =~= prev + parts[i as int]);
            i = i + 1;
        }
        assert(parts.take(i as int) =~= parts);
    }

    /// Render an enum, with `[Flags]` when it is a flags enum.
    pub fn render_enum_to(
        &self,
        input: &CSharpEnum,
        before: Option<&str>,
        after: Option<&str>,
        options: Option<&CSharpEnumRenderOptions>,
        variant_options: Option<&CSharpEnumVariantRenderOptions>,
        indent_level: &mut i32,
        out: &mut String,
    )
        requires
            *old(indent_level) < i32::MAX,
        ensures
            final(out)@ == old(out)@ + self.enum_text(
                *input,
                CSharpEnumRenderOptions::or_default(options),
                CSharpEnumVariantRenderOptions::or_default(variant_options),
                *old(indent_level) as int,
                opt_str(before),
                opt_str(after),
            ),
            *final(indent_level) == *old(indent_level),
    {
        let binding = CSharpEnumRenderOptions::default();
        let options: &CSharpEnumRenderOptions = match options {
            Some(o) => o,
            None => &binding,
        };
        let variant_binding = CSharpEnumVariantRenderOptions::default();
        let variant_options: &CSharpEnumVariantRenderOptions = match variant_options {
            Some(o) => o,
            None => &variant_binding,
        };
        let level = *indent_level;
        let ghost start = out@;
        self.write_enum_head(input, options, level, before, out);
        *indent_level = level + 1;
        self.write_members(&input.members, variant_options, level + 1, out);
        *indent_level = level;
        push_str(out, self.indent(level).as_str());
        push_str(out, "}");
        push_str(out, self.new_line.as_str());
        push_opt_str(out, after);
        assert(out@ =~= start + self.enum_text(
            *input,
            *options,
            *variant_options,
            level as int,
            opt_str(before),
            opt_str(after),
        ));
    }

    /// Render an enum to a string.
    pub fn render_enum(
        &self,
        input: &CSharpEnum,
        before: Option<&str>,
        after: Option<&str>,
        options: Option<&CSharpEnumRenderOptions>,
        variant_options: Option<&CSharpEnumVariantRenderOptions>,
        indent_level: &mut i32,
    ) -> (r: String)
        requires
            *old(indent_level) < i32::MAX,
        ensures
            r@ == self.enum_text(
                *input,
                CSharpEnumRenderOptions::or_default(options),
                CSharpEnumVariantRenderOptions::or_default(variant_options),
                *old(indent_level) as int,
                opt_str(before),
                opt_str(after),
            ),
            *final(indent_level) == *old(indent_level),
    {
        let mut out = String::new();
        self.render_enum_to(input, before, after, options, variant_options, indent_level, &mut out);
        assert(out@ =~= self.enum_text(
            *input,
            CSharpEnumRenderOptions::or_default(options),
            CSharpEnumVariantRenderOptions::or_default(variant_options),
            *old(indent_level) as int,
            opt_str(before),
            opt_str(after),
        ));
        out
    }

    #[verifier::rlimit(30)]
    fn write_bases(input: &CSharpType, out: &mut String)
        ensures
            final(out)@ == old(out)@ + Self::bases_text(*input),
    {
        proof {
            reveal(only_if);
        }
        let ghost start = out@;
        let mut bases: Vec<String> = Vec::new();
        if let Some(base_class) = &input.base_class {
            bases.push(base_class.clone());
        }
        let ghost b0 = texts(bases@);
        assert(b0 =~= (match input.base_class {
            Some(b) => seq![b@],
            None => Seq::<Seq<char>>::empty(),
        }));
        let mut i: usize = 0;
        assert(texts(input.interfaces@).take(0) =~= Seq::<Seq<char>>::empty());
        while i < input.interfaces.len()
            invariant
                i <= input.interfaces@.len(),
                texts(bases@) == b0 + texts(input.interfaces@).take(i as int),
            decreases input.interfaces@.len() - i,
        {
            let ghost prev = bases@;
            let name = input.interfaces[i].clone();
            bases.push(name);
            assert(bases@ == prev.push(input.interfaces@[i as int]));
            let ghost t = texts(input.interfaces@);
            assert(texts(bases@) =~= texts(prev).push(input.interfaces@[i as int]@));
            assert(t.take(i + 1) =~= t.take(i as int).push(input.interfaces@[i as int]@));
            assert((b0 + t.take(i as int)).push(input.interfaces@[i as int]@) =~= b0 + t.take(i as int).push(
                input.interfaces@[i as int]@,
            ));
            i = i + 1;
        }
        assert(texts(input.interfaces@).take(i as int) =~= texts(input.interfaces@));
        assert(texts(bases@) =~= Self::base_names(*input));
        if bases.len() > 0 {
            push_str(out, " : ");
            crate::text::push_joined(out, &bases, ", ");
        }
        assert(out@ =~= start + Self::bases_text(*input));
    }

    fn write_type_modifiers(input: &CSharpType, out: &mut String)
        ensures
            final(out)@ == old(out)@ + Self::type_modifiers_text(*input),
    {
        proof {
            reveal(CSharpBackend::type_modifiers_text);
        }
        let ghost start = out@;
        push_when(out, input.is_static, "static ");
        push_when(out, input.is_abstract && input.kind.can_be_abstract(), "abstract ");
        push_when(out, input.is_sealed && input.kind.can_be_sealed(), "sealed ");
        push_when(out, input.is_unsafe && input.kind.can_be_unsafe(), "unsafe ");
        push_when(out, input.is_partial, "partial ");
        assert(out@ =~= start + Self::type_modifiers_text(*input));
    }

    #[verifier::rlimit(30)]
    fn write_type_head(&self, input: &CSharpType, options: &CSharpTypeRenderOptions, level: i32, before: Option<&str>, out: &mut String)
        ensures
            final(out)@ == old(out)@ + self.type_head_text(*input, *options, level as int, opt_str(before)),
    {
        proof {
            reveal(CSharpBackend::type_head_text);
        }
        let ghost start = out@;
        push_opt_str(out, before);
        self.write_opt_docs(options.render_docs, &input.docs, level, out);
        self.write_opt_attributes(options.render_attributes, &input.attributes, level, out);
        let ind = self.indent(level);
        push_str(out, ind.as_str());
        push_str(out, input.visibility.prefix().as_str());
        Self::write_type_modifiers(input, out);
        push_str(out, input.kind.keyword());
        push_str(out, " ");
        push_str(out, input.name.as_str());
        push_str(out, render_generic_decls(&input.generic_args).as_str());
        Self::write_bases(input, out);
        push_str(out, render_where_clauses(&input.generic_args).as_str());
        push_str(out, self.new_line.as_str());
        push_str(out, ind.as_str());
        push_str(out, "{");
        push_str(out, self.new_line.as_str());
        assert(out@ =~= start + self.type_head_text(*input, *options, level as int, opt_str(before)));
    }

    fn write_type_fields(&self, input: &CSharpType, level: i32, out: &mut String)
        ensures
            final(out)@ == old(out)@ + self.type_fields_text(*input, level as int),
    {
        let field_options = CSharpFieldRenderOptions::default();
        let ghost parts = Seq::new(
            input.fields@.len(),
            |i: int| self.field_text(input.fields@[i], CSharpFieldRenderOptions::spec_default(), level as int),
        );
        let ghost start = out@;
        let mut i: usize = 0;
        assert(parts.take(0) =~= Seq::<Seq<char>>::empty());
        while i < input.fields.len()
            invariant
                i <= input.fields@.len(),
                field_options == CSharpFieldRenderOptions::spec_default(),
                parts == Seq::new(
                    input.fields@.len(),
                    |i: int| self.field_text(input.fields@[i], CSharpFieldRenderOptions::spec_default(), level as int),
                ),
                out@ == start + concat(parts.take(i as int)),
            decreases input.fields@.len() - i,
        {
            self.write_field(&input.fields[i], &field_options, level, out);
            assert(parts.take(i + 1).drop_last() =~= parts.take(i as int));
            i = i + 1;
        }
        assert(parts.take(i as int) =~= parts);
    }

    fn write_type_properties(&self, input: &CSharpType, options: &CSharpTypeRenderOptions, level: i32, out: &mut String)
        requires
            csharp_type_fits(*input, *options, level - 1),
        ensures
            final(out)@ == old(out)@ + self.type_properties_text(*input, *options, level as int),
    {
        proof {
            reveal(only_if);
            reveal(CSharpBackend::properties_upto);
        }
        let ghost start = out@;
        if options.render_properties {
            let mut i: usize = 0;
            while i < input.properties.len()
                invariant
                    i <= input.properties@.len(),
                    options.render_properties,
                    csharp_type_fits(*input, *options, level - 1),
                    out@ == start + self.properties_upto(*input, level as int, i as int),
                decreases input.properties@.len() - i,
            {
                push_when(out, input.fields.len() > 0 || i > 0, self.new_line.as_str());
                assert(csharp_property_fits(input.properties@[i as int], level as int));
                self.write_property(&input.properties[i], level, out);
                proof {
                    reveal(CSharpBackend::properties_upto);
                }
                assert(out@ =~= start + self.properties_upto(*input, level as int, i + 1));
                i = i + 1;
            }
        }
        assert(out@ =~= start + self.type_properties_text(*input, *options, level as int));
    }

    fn write_type_methods(&self, input: &CSharpType, options: &CSharpTypeRenderOptions, level: i32, out: &mut String)
        requires
            csharp_type_fits(*input, *options, level - 1),
        ensures
            final(out)@ == old(out)@ + self.type_methods_text(*input, *options, level as int),
    {
        proof {
            reveal(only_if);
            reveal(CSharpBackend::methods_upto);
        }
        let ghost start = out@;
        let method_options = CSharpMethodRenderOptions::default();
        let wrote_before: bool = input.fields.len() > 0 || (options.render_properties && input.properties.len() > 0);
        if options.render_methods {
            let mut i: usize = 0;
            while i < input.methods.len()
                invariant
                    i <= input.methods@.len(),
                    options.render_methods,
                    method_options == CSharpMethodRenderOptions::spec_default(),
                    wrote_before == Self::members_before_methods(*input, *options),
                    csharp_type_fits(*input, *options, level - 1),
                    out@ == start + self.methods_upto(*input, *options, level as int, i as int),
                decreases input.methods@.len() - i,
            {
                push_when(out, wrote_before || i > 0, self.new_line.as_str());
                assert(csharp_method_fits(input.methods@[i as int], level as int));
                self.write_method(&input.methods[i], &method_options, level, out);
                proof {
                    reveal(CSharpBackend::methods_upto);
                }
                assert(out@ =~= start + self.methods_upto(*input, *options, level as int, i + 1));
                i = i + 1;
            }
        }
        assert(out@ =~= start + self.type_methods_text(*input, *options, level as int));
    }

    /// Render a class, struct, interface or record with its fields, properties and methods.
    #[verifier::rlimit(30)]
    pub fn render_struct_to(
        &self,
        input: &CSharpType,
        before: Option<&str>,
        after: Option<&str>,
        options: Option<&CSharpTypeRenderOptions>,
        indent_level: &mut i32,
        out: &mut String,
    )
        requires
            csharp_type_fits(*input, CSharpTypeRenderOptions::or_default(options), *old(indent_level) as int),
        ensures
            final(out)@ == old(out)@ + self.type_text(
                *input,
                CSharpTypeRenderOptions::or_default(options),
                *old(indent_level) as int,
                opt_str(before),
                opt_str(after),
            ),
            *final(indent_level) == *old(indent_level),
    {
        let binding = CSharpTypeRenderOptions::default();
        let options: &CSharpTypeRenderOptions = match options {
            Some(o) => o,
            None => &binding,
        };
        let level = *indent_level;
        let ghost start = out@;
        self.write_type_head(input, options, level, before, out);
        *indent_level = level + 1;
        self.write_type_fields(input, level + 1, out);
        self.write_type_properties(input, options, level + 1, out);
        self.write_type_methods(input, options, level + 1, out);
        *indent_level = level;
        push_str(out, self.indent(level).as_str());
        push_str(out, "}");
        push_str(out, self.new_line.as_str());
        push_opt_str(out, after);
        assert(out@ =~= start + self.type_text(*input, *options, level as int, opt_str(before), opt_str(after)));
    }

    /// Render a class, struct, interface or record to a string.
    pub fn render_struct(
        &self,
        input: &CSharpType,
        before: Option<&str>,
        after: Option<&str>,
        options: Option<&CSharpTypeRenderOptions>,
        indent_level: &mut i32,
    ) -> (r: String)
        requires
            csharp_type_fits(*input, CSharpTypeRenderOptions::or_default(options), *old(indent_level) as int),
        ensures
            r@ == self.type_text(
                *input,
                CSharpTypeRenderOptions::or_default(options),
                *old(indent_level) as int,
                opt_str(before),
                opt_str(after),
            ),
            *final(indent_level) == *old(indent_level),
    {
        let mut out = String::new();
        self.render_struct_to(input, before, after, options, indent_level, &mut out);
        assert(out@ =~= self.type_text(
            *input,
            CSharpTypeRenderOptions::or_default(options),
            *old(indent_level) as int,
            opt_str(before),
            opt_str(after),
        ));
        out
    }
}


/// Structs (implicitly sealed value types) and interfaces (implicitly abstract) never get
/// `sealed` or `abstract` written.
pub proof fn value_types_and_interfaces_drop_sealed_and_abstract(t: CSharpType)
    requires
        t.kind == CSharpTypeKind::Struct || t.kind == CSharpTypeKind::Interface,
    ensures
        CSharpBackend::type_modifiers_text(t) == only_if(t.is_static, "static "@) + only_if(
            t.is_unsafe && t.kind == CSharpTypeKind::Interface,
            "unsafe "@,
        ) + only_if(t.is_partial, "partial "@),
{
    reveal(CSharpBackend::type_modifiers_text);
    reveal(only_if);
    assert(CSharpBackend::type_modifiers_text(t) =~= only_if(t.is_static, "static "@) + only_if(
        t.is_unsafe && t.kind == CSharpTypeKind::Interface,
        "unsafe "@,
    ) + only_if(t.is_partial, "partial "@));
}

/// A property without accessor bodies renders auto-accessors on its own line:
/// ` { get; set; }` for a read-write property.
pub proof fn property_without_bodies_is_auto(b: CSharpBackend, p: CSharpProperty, level: int)
    requires
        p.getter_body is None,
        p.setter_body is None,
        p.has_getter,
        p.has_setter,
    ensures
        b.property_accessors_text(p, level) == " {"@ + " get;"@ + " set;"@ + " }"@ + b.nl(),
{
    reveal(CSharpBackend::auto_accessors_text);
    reveal(only_if);
}

/// `sealed` is written on a method only when it also overrides.
pub proof fn sealed_only_on_override(m: CSharpMethod)
    requires
        !m.is_override,
    ensures
        CSharpBackend::method_modifiers_text(m) == CSharpBackend::method_modifiers_text(
            CSharpMethod { is_sealed: !m.is_sealed, ..m },
        ),
{
    reveal(CSharpBackend::method_modifiers_text);
}

/// `static ` is written right after a method's visibility exactly when the method is static:
/// making an instance method static inserts `static ` after its visibility and changes
/// nothing else in its text.
pub proof fn static_method_adds_static_after_visibility(
    b: CSharpBackend,
    m: CSharpMethod,
    o: CSharpMethodRenderOptions,
    level: int,
)
    requires
        !m.is_static,
    ensures
        exists|pre: Seq<char>, post: Seq<char>|
            b.method_text(m, o, level) == pre + m.visibility.prefix_text() + post && b.method_text(
                CSharpMethod { is_static: true, ..m },
                o,
                level,
            ) == pre + m.visibility.prefix_text() + "static "@ + post,
{
    reveal(CSharpBackend::method_head_text);
    reveal(only_if);
    let s = CSharpMethod { is_static: true, ..m };
    let pre = b.opt_docs_text(o.render_docs, m.docs, level) + only_if(
        o.render_attributes,
        b.attributes_text(m.attributes@, level),
    ) + b.ind(level);
    let post = CSharpBackend::method_modifiers_text(m) + CSharpBackend::method_signature_text(m) + b.method_body_text(
        m,
        level,
    );
    assert(CSharpBackend::method_signature_text(s) == CSharpBackend::method_signature_text(m)) by {
        reveal(CSharpBackend::method_signature_text);
    }
    assert(CSharpBackend::method_modifiers_text(s) =~= "static "@ + CSharpBackend::method_modifiers_text(m)) by {
        reveal(CSharpBackend::method_modifiers_text);
    }
    assert(b.method_text(m, o, level) =~= pre + m.visibility.prefix_text() + post);
    assert(s.docs == m.docs && s.attributes == m.attributes && s.visibility == m.visibility && s.body == m.body);
    assert(b.method_body_text(s, level) == b.method_body_text(m, level)) by {
        reveal(CSharpBackend::method_body_text);
    }
    assert(b.method_head_text(s, o, level) =~= pre + m.visibility.prefix_text() + "static "@
        + CSharpBackend::method_modifiers_text(m));
    assert(b.method_text(s, o, level) =~= pre + m.visibility.prefix_text() + "static "@ + post);
}

/// What a method's text has before its modifiers: docs, attributes, indentation and visibility.
spec fn method_base_text(b: CSharpBackend, m: CSharpMethod, o: CSharpMethodRenderOptions, level: int) -> Seq<char> {
    b.opt_docs_text(o.render_docs, m.docs, level) + only_if(o.render_attributes, b.attributes_text(m.attributes@, level))
        + b.ind(level) + m.visibility.prefix_text()
}

/// A method's text is what comes before its modifiers, the modifiers, its signature and body.
proof fn method_text_split(b: CSharpBackend, m: CSharpMethod, o: CSharpMethodRenderOptions, level: int)
    ensures
        b.method_text(m, o, level) == method_base_text(b, m, o, level) + CSharpBackend::method_modifiers_text(m)
            + (CSharpBackend::method_signature_text(m) + b.method_body_text(m, level)),
{
    reveal(CSharpBackend::method_head_text);
    assert(b.method_text(m, o, level) =~= method_base_text(b, m, o, level) + CSharpBackend::method_modifiers_text(m)
        + (CSharpBackend::method_signature_text(m) + b.method_body_text(m, level)));
}

/// Two methods that differ only in their modifier flags have the same text before and after
/// their modifiers.
proof fn method_same_outside_modifiers(
    b: CSharpBackend,
    m: CSharpMethod,
    x: CSharpMethod,
    o: CSharpMethodRenderOptions,
    level: int,
)
    requires
        x.name == m.name && x.visibility == m.visibility && x.parameters == m.parameters,
        x.generic_args == m.generic_args && x.return_type == m.return_type && x.is_unsafe == m.is_unsafe,
        x.body == m.body && x.attributes == m.attributes && x.docs == m.docs,
    ensures
        method_base_text(b, x, o, level) == method_base_text(b, m, o, level),
        CSharpBackend::method_signature_text(x) == CSharpBackend::method_signature_text(m),
        b.method_body_text(x, level) == b.method_body_text(m, level),
{
    reveal(CSharpBackend::method_signature_text);
    reveal(CSharpBackend::method_body_text);
}

/// A method's `is_abstract` flag is written as its keyword: setting it on a method that lacks it
/// inserts `abstract ` into the method's text and changes nothing else.
pub proof fn method_abstract_flag_adds_keyword(b: CSharpBackend, m: CSharpMethod, o: CSharpMethodRenderOptions, level: int)
    requires
        !m.is_abstract,
    ensures
        exists|pre: Seq<char>, post: Seq<char>|
            b.method_text(m, o, level) == pre + post && b.method_text(CSharpMethod { is_abstract: true, ..m }, o, level)
                == pre + "abstract "@ + post,
{
    let x = CSharpMethod { is_abstract: true, ..m };
    method_text_split(b, m, o, level);
    method_text_split(b, x, o, level);
    method_same_outside_modifiers(b, m, x, o, level);
    let base = method_base_text(b, m, o, level);
    let tail = CSharpBackend::method_signature_text(m) + b.method_body_text(m, level);
    let st = only_if(m.is_static, "static "@);
    let ab = only_if(m.is_abstract, "abstract "@);
    let vi = only_if(m.is_virtual, "virtual "@);
    let ov = only_if(m.is_override, "override "@);
    let se = only_if(m.is_sealed && m.is_override, "sealed "@);
    let asy = only_if(m.is_async, "async "@);
    assert(CSharpBackend::method_modifiers_text(m) == st + ab + vi + ov + se + asy) by {
        reveal(CSharpBackend::method_modifiers_text);
    }
    assert(CSharpBackend::method_modifiers_text(x) == st + "abstract "@ + vi + ov + se + asy) by {
        reveal(CSharpBackend::method_modifiers_text);
        reveal(only_if);
    }
    assert(ab =~= Seq::<char>::empty()) by {
        reveal(only_if);
    }
    assert(b.method_text(x, o, level) =~= (base + st) + "abstract "@ + (vi + ov + se + asy + tail));
    assert(b.method_text(m, o, level) =~= (base + st) + (vi + ov + se + asy + tail));
}

/// A method's `is_virtual` flag is written as its keyword: setting it on a method that lacks it
/// inserts `virtual ` into the method's text and changes nothing else.
pub proof fn method_virtual_flag_adds_keyword(b: CSharpBackend, m: CSharpMethod, o: CSharpMethodRenderOptions, level: int)
    requires
        !m.is_virtual,
    ensures
        exists|pre: Seq<char>, post: Seq<char>|
            b.method_text(m, o, level) == pre + post && b.method_text(CSharpMethod { is_virtual: true, ..m }, o, level)
                == pre + "virtual "@ + post,
{
    let x = CSharpMethod { is_virtual: true, ..m };
    method_text_split(b, m, o, level);
    method_text_split(b, x, o, level);
    method_same_outside_modifiers(b, m, x, o, level);
    let base = method_base_text(b, m, o, level);
    let tail = CSharpBackend::method_signature_text(m) + b.method_body_text(m, level);
    let st = only_if(m.is_static, "static "@);
    let ab = only_if(m.is_abstract, "abstract "@);
    let vi = only_if(m.is_virtual, "virtual "@);
    let ov = only_if(m.is_override, "override "@);
    let se = only_if(m.is_sealed && m.is_override, "sealed "@);
    let asy = only_if(m.is_async, "async "@);
    assert(CSharpBackend::method_modifiers_text(m) == st + ab + vi + ov + se + asy) by {
        reveal(CSharpBackend::method_modifiers_text);
    }
    assert(CSharpBackend::method_modifiers_text(x) == st + ab + "virtual "@ + ov + se + asy) by {
        reveal(CSharpBackend::method_modifiers_text);
        reveal(only_if);
    }
    assert(vi =~= Seq::<char>::empty()) by {
        reveal(only_if);
    }
    assert(b.method_text(x, o, level) =~= (base + st + ab) + "virtual "@ + (ov + se + asy + tail));
    assert(b.method_text(m, o, level) =~= (base + st + ab) + (ov + se + asy + tail));
}

/// A method's `is_override` flag is written as its keyword: setting it on a method that lacks it (on a method that is not sealed; on a sealed one `sealed` comes with it)
/// inserts `override ` into the method's text and changes nothing else.
pub proof fn method_override_flag_adds_keyword(b: CSharpBackend, m: CSharpMethod, o: CSharpMethodRenderOptions, level: int)
    requires
        !m.is_override && !m.is_sealed,
    ensures
        exists|pre: Seq<char>, post: Seq<char>|
            b.method_text(m, o, level) == pre + post && b.method_text(CSharpMethod { is_override: true, ..m }, o, level)
                == pre + "override "@ + post,
{
    let x = CSharpMethod { is_override: true, ..m };
    method_text_split(b, m, o, level);
    method_text_split(b, x, o, level);
    method_same_outside_modifiers(b, m, x, o, level);
    let base = method_base_text(b, m, o, level);
    let tail = CSharpBackend::method_signature_text(m) + b.method_body_text(m, level);
    let st = only_if(m.is_static, "static "@);
    let ab = only_if(m.is_abstract, "abstract "@);
    let vi = only_if(m.is_virtual, "virtual "@);
    let ov = only_if(m.is_override, "override "@);
    let se = only_if(m.is_sealed && m.is_override, "sealed "@);
    let asy = only_if(m.is_async, "async "@);
    assert(CSharpBackend::method_modifiers_text(m) == st + ab + vi + ov + se + asy) by {
        reveal(CSharpBackend::method_modifiers_text);
    }
    assert(CSharpBackend::method_modifiers_text(x) == st + ab + vi + "override "@ + se + asy) by {
        reveal(CSharpBackend::method_modifiers_text);
        reveal(only_if);
    }
    assert(ov =~= Seq::<char>::empty()) by {
        reveal(only_if);
    }
    assert(b.method_text(x, o, level) =~= (base + st + ab + vi) + "override "@ + (se + asy + tail));
    assert(b.method_text(m, o, level) =~= (base + st + ab + vi) + (se + asy + tail));
}

/// A method's `is_async` flag is written as its keyword: setting it on a method that lacks it
/// inserts `async ` into the method's text and changes nothing else.
pub proof fn method_async_flag_adds_keyword(b: CSharpBackend, m: CSharpMethod, o: CSharpMethodRenderOptions, level: int)
    requires
        !m.is_async,
    ensures
        exists|pre: Seq<char>, post: Seq<char>|
            b.method_text(m, o, level) == pre + post && b.method_text(CSharpMethod { is_async: true, ..m }, o, level)
                == pre + "async "@ + post,
{
    let x = CSharpMethod { is_async: true, ..m };
    method_text_split(b, m, o, level);
    method_text_split(b, x, o, level);
    method_same_outside_modifiers(b, m, x, o, level);
    let base = method_base_text(b, m, o, level);
    let tail = CSharpBackend::method_signature_text(m) + b.method_body_text(m, level);
    let st = only_if(m.is_static, "static "@);
    let ab = only_if(m.is_abstract, "abstract "@);
    let vi = only_if(m.is_virtual, "virtual "@);
    let ov = only_if(m.is_override, "override "@);
    let se = only_if(m.is_sealed && m.is_override, "sealed "@);
    let asy = only_if(m.is_async, "async "@);
    assert(CSharpBackend::method_modifiers_text(m) == st + ab + vi + ov + se + asy) by {
        reveal(CSharpBackend::method_modifiers_text);
    }
    assert(CSharpBackend::method_modifiers_text(x) == st + ab + vi + ov + se + "async "@) by {
        reveal(CSharpBackend::method_modifiers_text);
        reveal(only_if);
    }
    assert(asy =~= Seq::<char>::empty()) by {
        reveal(only_if);
    }
    assert(b.method_text(x, o, level) =~= (base + st + ab + vi + ov + se) + "async "@ + tail);
    assert(b.method_text(m, o, level) =~= (base + st + ab + vi + ov + se) + tail);
}

/// A field's `is_static` flag is written as its keyword: setting it on a field that lacks it
/// inserts `static ` into the field's text and changes nothing else.
pub proof fn field_static_flag_adds_keyword(b: CSharpBackend, f: CSharpField, o: CSharpFieldRenderOptions, level: int)
    requires
        !f.is_static,
    ensures
        exists|pre: Seq<char>, post: Seq<char>|
            b.field_text(f, o, level) == pre + post && b.field_text(CSharpField { is_static: true, ..f }, o, level) == pre
                + "static "@ + post,
{
    let x = CSharpField { is_static: true, ..f };
    let a = b.opt_docs_text(o.render_docs, f.docs, level) + only_if(o.render_attributes, b.attributes_text(f.attributes@, level)) + b.ind(level) + f.visibility.prefix_text();
    let z = only_if(f.is_const, "const "@) + only_if(f.is_readonly, "readonly "@) + f.field_type@ + " "@ + f.name@ + opt_wrap(" = "@, f.initializer, ""@) + ";"@ + b.nl();
    assert(b.field_text(f, o, level) == a + z) by {
        reveal(CSharpBackend::field_text);
        reveal(only_if);
        assert(b.field_text(f, o, level) =~= a + z);
    }
    assert(b.field_text(x, o, level) == a + "static "@ + z) by {
        reveal(CSharpBackend::field_text);
        reveal(only_if);
        assert(b.field_text(x, o, level) =~= a + "static "@ + z);
    }
}

/// A field's `is_const` flag is written as its keyword: setting it on a field that lacks it
/// inserts `const ` into the field's text and changes nothing else.
pub proof fn field_const_flag_adds_keyword(b: CSharpBackend, f: CSharpField, o: CSharpFieldRenderOptions, level: int)
    requires
        !f.is_const,
    ensures
        exists|pre: Seq<char>, post: Seq<char>|
            b.field_text(f, o, level) == pre + post && b.field_text(CSharpField { is_const: true, ..f }, o, level) == pre
                + "const "@ + post,
{
    let x = CSharpField { is_const: true, ..f };
    let a = b.opt_docs_text(o.render_docs, f.docs, level) + only_if(o.render_attributes, b.attributes_text(f.attributes@, level)) + b.ind(level) + f.visibility.prefix_text() + only_if(f.is_static, "static "@);
    let z = only_if(f.is_readonly, "readonly "@) + f.field_type@ + " "@ + f.name@ + opt_wrap(" = "@, f.initializer, ""@) + ";"@ + b.nl();
    assert(b.field_text(f, o, level) == a + z) by {
        reveal(CSharpBackend::field_text);
        reveal(only_if);
        assert(b.field_text(f, o, level) =~= a + z);
    }
    assert(b.field_text(x, o, level) == a + "const "@ + z) by {
        reveal(CSharpBackend::field_text);
        reveal(only_if);
        assert(b.field_text(x, o, level) =~= a + "const "@ + z);
    }
}

/// A field's `is_readonly` flag is written as its keyword: setting it on a field that lacks it
/// inserts `readonly ` into the field's text and changes nothing else.
pub proof fn field_readonly_flag_adds_keyword(b: CSharpBackend, f: CSharpField, o: CSharpFieldRenderOptions, level: int)
    requires
        !f.is_readonly,
    ensures
        exists|pre: Seq<char>, post: Seq<char>|
            b.field_text(f, o, level) == pre + post && b.field_text(CSharpField { is_readonly: true, ..f }, o, level) == pre
                + "readonly "@ + post,
{
    let x = CSharpField { is_readonly: true, ..f };
    let a = b.opt_docs_text(o.render_docs, f.docs, level) + only_if(o.render_attributes, b.attributes_text(f.attributes@, level)) + b.ind(level) + f.visibility.prefix_text() + only_if(f.is_static, "static "@) + only_if(f.is_const, "const "@);
    let z = f.field_type@ + " "@ + f.name@ + opt_wrap(" = "@, f.initializer, ""@) + ";"@ + b.nl();
    assert(b.field_text(f, o, level) == a + z) by {
        reveal(CSharpBackend::field_text);
        reveal(only_if);
        assert(b.field_text(f, o, level) =~= a + z);
    }
    assert(b.field_text(x, o, level) == a + "readonly "@ + z) by {
        reveal(CSharpBackend::field_text);
        reveal(only_if);
        assert(b.field_text(x, o, level) =~= a + "readonly "@ + z);
    }
}

/// A field is written as `type name`, followed by ` = initializer` exactly when it has one,
/// then by `;` at the end of its line.
pub proof fn field_writes_its_initializer(b: CSharpBackend, f: CSharpField, o: CSharpFieldRenderOptions, level: int)
    ensures
        f.initializer matches Some(v) ==> b.field_text(f, o, level).subrange(
            b.field_text(f, o, level).len() - (f.field_type@ + " "@ + f.name@ + " = "@ + v@ + ";"@ + b.nl()).len(),
            b.field_text(f, o, level).len() as int,
        ) == f.field_type@ + " "@ + f.name@ + " = "@ + v@ + ";"@ + b.nl(),
        f.initializer is None ==> b.field_text(f, o, level).subrange(
            b.field_text(f, o, level).len() - (f.field_type@ + " "@ + f.name@ + ";"@ + b.nl()).len(),
            b.field_text(f, o, level).len() as int,
        ) == f.field_type@ + " "@ + f.name@ + ";"@ + b.nl(),
{
    reveal(CSharpBackend::field_text);
    reveal(opt_wrap);
    reveal_strlit("");
    let a = b.opt_docs_text(o.render_docs, f.docs, level) + only_if(
        o.render_attributes,
        b.attributes_text(f.attributes@, level),
    ) + b.ind(level) + f.visibility.prefix_text() + only_if(f.is_static, "static "@) + only_if(f.is_const, "const "@)
        + only_if(f.is_readonly, "readonly "@);
    let t = b.field_text(f, o, level);
    match f.initializer {
        Some(v) => {
            let z = f.field_type@ + " "@ + f.name@ + " = "@ + v@ + ";"@ + b.nl();
            assert(t =~= a + z);
            assert(t.subrange(t.len() - z.len(), t.len() as int) =~= z);
        },
        None => {
            let z = f.field_type@ + " "@ + f.name@ + ";"@ + b.nl();
            assert(t =~= a + z);
            assert(t.subrange(t.len() - z.len(), t.len() as int) =~= z);
        },
    }
}

/// The first `n` methods of a type hold the text of each of them.
proof fn methods_upto_holds_each(b: CSharpBackend, t: CSharpType, o: CSharpTypeRenderOptions, level: int, n: int, k: int)
    requires
        0 <= k < n <= t.methods@.len(),
    ensures
        occurs_in(
            b.method_text(t.methods@[k], CSharpMethodRenderOptions::spec_default(), level),
            b.methods_upto(t, o, level, n),
        ),
    decreases n,
{
    reveal(CSharpBackend::methods_upto);
    let sep = only_if(CSharpBackend::members_before_methods(t, o) || n - 1 > 0, b.nl());
    let m = b.method_text(t.methods@[n - 1], CSharpMethodRenderOptions::spec_default(), level);
    assert(b.methods_upto(t, o, level, n) == b.methods_upto(t, o, level, n - 1) + sep + m);
    if k == n - 1 {
        lemma_occurs_between(b.methods_upto(t, o, level, n - 1) + sep, m, Seq::empty());
        assert((b.methods_upto(t, o, level, n - 1) + sep) + m + Seq::<char>::empty() =~= b.methods_upto(t, o, level, n));
    } else {
        methods_upto_holds_each(b, t, o, level, n - 1, k);
        lemma_occurs_widen(
            Seq::empty(),
            b.methods_upto(t, o, level, n - 1),
            sep + m,
            b.method_text(t.methods@[k], CSharpMethodRenderOptions::spec_default(), level),
        );
        assert(Seq::<char>::empty() + b.methods_upto(t, o, level, n - 1) + (sep + m) =~= b.methods_upto(t, o, level, n));
    }
}

/// The first `n` properties of a type hold the text of each of them.
proof fn properties_upto_holds_each(b: CSharpBackend, t: CSharpType, level: int, n: int, k: int)
    requires
        0 <= k < n <= t.properties@.len(),
    ensures
        occurs_in(b.property_text(t.properties@[k], level), b.properties_upto(t, level, n)),
    decreases n,
{
    reveal(CSharpBackend::properties_upto);
    let sep = only_if(t.fields@.len() > 0 || n - 1 > 0, b.nl());
    let p = b.property_text(t.properties@[n - 1], level);
    assert(b.properties_upto(t, level, n) == b.properties_upto(t, level, n - 1) + sep + p);
    if k == n - 1 {
        lemma_occurs_between(b.properties_upto(t, level, n - 1) + sep, p, Seq::empty());
        assert((b.properties_upto(t, level, n - 1) + sep) + p + Seq::<char>::empty() =~= b.properties_upto(t, level, n));
    } else {
        properties_upto_holds_each(b, t, level, n - 1, k);
        lemma_occurs_widen(Seq::empty(), b.properties_upto(t, level, n - 1), sep + p, b.property_text(t.properties@[k], level));
        assert(Seq::<char>::empty() + b.properties_upto(t, level, n - 1) + (sep + p) =~= b.properties_upto(t, level, n));
    }
}

/// Nothing of a type is lost: each of its fields, each of its properties (when properties are
/// rendered) and each of its methods (when methods are rendered), as rendered on its own one
/// level deeper, is written in the type's text.
pub proof fn type_writes_each_member(
    b: CSharpBackend,
    t: CSharpType,
    o: CSharpTypeRenderOptions,
    level: int,
    before: Seq<char>,
    after: Seq<char>,
)
    ensures
        forall|k: int|
            0 <= k < t.fields@.len() ==> occurs_in(
                b.field_text(#[trigger] t.fields@[k], CSharpFieldRenderOptions::spec_default(), level + 1),
                b.type_text(t, o, level, before, after),
            ),
        o.render_properties ==> forall|k: int|
            0 <= k < t.properties@.len() ==> occurs_in(
                b.property_text(#[trigger] t.properties@[k], level + 1),
                b.type_text(t, o, level, before, after),
            ),
        o.render_methods ==> forall|k: int|
            0 <= k < t.methods@.len() ==> occurs_in(
                b.method_text(#[trigger] t.methods@[k], CSharpMethodRenderOptions::spec_default(), level + 1),
                b.type_text(t, o, level, before, after),
            ),
{
    let l = level + 1;
    let head = b.type_head_text(t, o, level, before);
    let fields = b.type_fields_text(t, l);
    let props = b.type_properties_text(t, o, l);
    let methods = b.type_methods_text(t, o, l);
    let close = b.ind(level) + "}"@ + b.nl() + after;
    let text = b.type_text(t, o, level, before, after);
    assert(text =~= head + fields + props + methods + close);
    assert forall|k: int| 0 <= k < t.fields@.len() implies occurs_in(
        b.field_text(#[trigger] t.fields@[k], CSharpFieldRenderOptions::spec_default(), l),
        text,
    ) by {
        let lines = Seq::new(
            t.fields@.len(),
            |i: int| b.field_text(t.fields@[i], CSharpFieldRenderOptions::spec_default(), l),
        );
        assert(fields == concat(lines));
        lemma_concat_split(lines, k);
        let pre = head + concat(lines.take(k));
        let post = concat(lines.skip(k + 1)) + props + methods + close;
        assert(text =~= pre + lines[k] + post);
        lemma_occurs_between(pre, lines[k], post);
    }
    if o.render_properties {
        assert(props == b.properties_upto(t, l, t.properties@.len() as int)) by {
            reveal(only_if);
        }
        assert forall|k: int| 0 <= k < t.properties@.len() implies occurs_in(
            b.property_text(#[trigger] t.properties@[k], l),
            text,
        ) by {
            properties_upto_holds_each(b, t, l, t.properties@.len() as int, k);
            lemma_occurs_widen(head + fields, props, methods + close, b.property_text(t.properties@[k], l));
            assert((head + fields) + props + (methods + close) =~= text);
        }
    }
    if o.render_methods {
        assert(methods == b.methods_upto(t, o, l, t.methods@.len() as int)) by {
            reveal(only_if);
        }
        assert forall|k: int| 0 <= k < t.methods@.len() implies occurs_in(
            b.method_text(#[trigger] t.methods@[k], CSharpMethodRenderOptions::spec_default(), l),
            text,
        ) by {
            methods_upto_holds_each(b, t, o, l, t.methods@.len() as int, k);
            lemma_occurs_widen(
                head + fields + props,
                methods,
                close,
                b.method_text(t.methods@[k], CSharpMethodRenderOptions::spec_default(), l),
            );
            assert((head + fields + props) + methods + close =~= text);
        }
    }
}

/// A type is written with each of its bases: its base class right after ` : `, and each
/// interface after ` : ` (when it comes first) or after `, `.
pub proof fn type_writes_each_base(
    b: CSharpBackend,
    t: CSharpType,
    o: CSharpTypeRenderOptions,
    level: int,
    before: Seq<char>,
    after: Seq<char>,
)
    ensures
        t.base_class matches Some(c) ==> occurs_in(" : "@ + c@, b.type_text(t, o, level, before, after)),
        forall|k: int|
            0 <= k < t.interfaces@.len() ==> occurs_in(
                (if k == 0 && t.base_class is None { " : "@ } else { ", "@ }) + (#[trigger] t.interfaces@[k])@,
                b.type_text(t, o, level, before, after),
            ),
{
    let names = CSharpBackend::base_names(t);
    let text = b.type_text(t, o, level, before, after);
    let head = b.type_head_text(t, o, level, before);
    let pre = before + b.opt_docs_text(o.render_docs, t.docs, level) + only_if(
        o.render_attributes,
        b.attributes_text(t.attributes@, level),
    ) + b.ind(level) + t.visibility.prefix_text() + CSharpBackend::type_modifiers_text(t) + t.kind.keyword_text()
        + " "@ + t.name@ + generic_decls_text(t.generic_args@);
    let post = where_clauses_text(t.generic_args@) + b.nl() + b.ind(level) + "{"@ + b.nl();
    let rest = b.type_fields_text(t, level + 1) + b.type_properties_text(t, o, level + 1) + b.type_methods_text(
        t,
        o,
        level + 1,
    ) + b.ind(level) + "}"@ + b.nl() + after;
    assert(text =~= head + rest);
    if names.len() > 0 {
        let bl = " : "@ + join(names, ", "@);
        assert(CSharpBackend::bases_text(t) == bl) by {
            reveal(only_if);
        }
        assert(head =~= pre + bl + post) by {
            reveal(CSharpBackend::type_head_text);
        }
        assert(pre + bl + (post + rest) =~= text);
        lemma_occurs_between(Seq::empty(), bl, Seq::empty());
        assert(Seq::<char>::empty() + bl + Seq::<char>::empty() =~= bl);
        lemma_occurs_widen(pre, bl, post + rest, bl);
        if t.base_class is Some {
            lemma_join_occurs_after(names, ", "@, " : "@, 0);
            lemma_occurs_in_part(" : "@ + names[0], bl, text);
        }
        assert forall|k: int| 0 <= k < t.interfaces@.len() implies occurs_in(
            (if k == 0 && t.base_class is None { " : "@ } else { ", "@ }) + (#[trigger] t.interfaces@[k])@,
            text,
        ) by {
            let off: int = if t.base_class is Some { 1 } else { 0 };
            assert(names[off + k] == t.interfaces@[k]@);
            lemma_join_occurs_after(names, ", "@, " : "@, off + k);
            lemma_occurs_in_part((if off + k == 0 { " : "@ } else { ", "@ }) + names[off + k], bl, text);
        }
    }
}

} // verus!
