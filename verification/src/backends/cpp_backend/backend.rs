use vstd::prelude::*;

use super::{
    CppBase, CppConstant, CppConstantRenderOptions, CppDefinition, CppDefinitionRenderOptions, CppEnum,
    CppEnumRenderOptions, CppEnumVariant, CppEnumVariantRenderOptions, CppField, CppFieldRenderOptions, CppFunction,
    CppFunctionRenderOptions, CppGenericArgument, CppNamespace, CppNamespaceRenderOptions, CppParameter, CppStruct,
    CppStructKind, CppStructRenderOptions, CppVisibility,
};
use crate::backends::{BackendFeature, BackendMetadata};
use crate::conversion::opt_seq;
use crate::text::{
    byte_len, decimal, indent, indent_text, join, pad_right, push_padded, push_u32, lemma_assoc, lemma_join_done, lemma_join_loop, lemma_join_start, only_if,
    opt_str, opt_wrap, push_opt, push_opt_str, push_repeat, push_str, push_when, repeat_char, texts, wrap_each,
    push_lines, is_blank, str_is_blank, join_body, joined_body, lemma_trim_six_groups, push_trimmed,
    trim_blocks, IndentStyle, NewLineStyle, occurs_in, lemma_occurs_widen, lemma_join_occurs,
    lemma_occurs_between, lemma_occurs_empty, lemma_occurs_in_part, lemma_join_occurs_after, lemma_occurs_shorten, lemma_trim_end_once, trim_end,
};

verus! {

/// How documentation lines are written.
#[derive(Debug, Clone, Copy, PartialEq, Eq, Structural)]
pub enum DocsStyle {
    /// `// line`
    DoubleSlash,
    /// `/// line`
    TripleSlash,
    /// `/*line*/`
    SlashAsterisk,
    /// `/**line*/`
    SlashDoubleAsterisk,
}

impl DocsStyle {
    /// What a doc line starts with.
    pub open spec fn open_text(self) -> Seq<char> {
        match self {
            DocsStyle::DoubleSlash => "// "@,
            DocsStyle::TripleSlash => "/// "@,
            DocsStyle::SlashAsterisk => "/*"@,
            DocsStyle::SlashDoubleAsterisk => "/**"@,
        }
    }

    /// What a doc line ends with, before the line ending.
    pub open spec fn close_text(self) -> Seq<char> {
        match self {
            DocsStyle::DoubleSlash => ""@,
            DocsStyle::TripleSlash => ""@,
            DocsStyle::SlashAsterisk => "*/"@,
            DocsStyle::SlashDoubleAsterisk => "*/"@,
        }
    }

    fn open_str(&self) -> (r: &'static str)
        ensures
            r@ == self.open_text(),
    {
        match self {
            DocsStyle::DoubleSlash => "// ",
            DocsStyle::TripleSlash => "/// ",
            DocsStyle::SlashAsterisk => "/*",
            DocsStyle::SlashDoubleAsterisk => "/**",
        }
    }

    fn close_str(&self) -> (r: &'static str)
        ensures
            r@ == self.close_text(),
    {
        match self {
            DocsStyle::DoubleSlash => "",
            DocsStyle::TripleSlash => "",
            DocsStyle::SlashAsterisk => "*/",
            DocsStyle::SlashDoubleAsterisk => "*/",
        }
    }
}

/// Backend for C++ type conversion and rendering.
#[derive(Debug, Clone, Copy)]
pub struct CppBackend {
    /// The string to use for new lines.
    pub new_line: NewLineStyle,
    /// Whether to add a new line before the open brace.
    pub open_brace_on_new_line: bool,
    /// The style of documentation to use.
    pub docs_style: DocsStyle,
    /// The style of indentation to use.
    pub indent_style: IndentStyle,
    /// The number of spaces to use for indentation.
    pub indent_size: i32,
}

impl BackendMetadata for CppBackend {
    fn language_name(&self) -> (r: &'static str)
        ensures
            r@ == "C++"@,
    {
        "C++"
    }

    fn supported_features(&self) -> (r: &'static [BackendFeature])
        ensures
            r@ == seq![
                BackendFeature::Define,
                BackendFeature::Namespace,
                BackendFeature::Constant,
                BackendFeature::Function,
                BackendFeature::Enum,
                BackendFeature::Struct,
                BackendFeature::Class,
            ],
    {
        &[
            BackendFeature::Define,
            BackendFeature::Namespace,
            BackendFeature::Constant,
            BackendFeature::Function,
            BackendFeature::Enum,
            BackendFeature::Struct,
            BackendFeature::Class,
        ]
    }
}

/// The longest variant name, in UTF-8 bytes (0 when there are no variants).
pub open spec fn max_variant_name_len(vs: Seq<CppEnumVariant>) -> nat
    decreases vs.len(),
{
    if vs.len() == 0 {
        0
    } else {
        let m = max_variant_name_len(vs.drop_last());
        let l = byte_len(vs.last().name@);
        if l > m {
            l
        } else {
            m
        }
    }
}

impl CppBackend {
    /// The indentation for `level`.
    pub open spec fn ind(self, level: int) -> Seq<char> {
        indent_text(level, self.indent_size as int, self.indent_style)
    }

    /// The line ending.
    pub open spec fn nl(self) -> Seq<char> {
        self.new_line.text()
    }

    /// `{` after a declaration head: on its own line or after a space.
    pub open spec fn brace_open_text(self, level: int) -> Seq<char> {
        if self.open_brace_on_new_line {
            self.nl() + self.ind(level) + "{"@ + self.nl()
        } else {
            " {"@ + self.nl()
        }
    }

    /// Doc lines in the configured style.
    #[verifier::opaque]
    pub open spec fn docs_text(self, docs: Seq<String>, level: int) -> Seq<char> {
        wrap_each(self.ind(level) + self.docs_style.open_text(), docs, self.docs_style.close_text() + self.nl())
    }

    /// Doc lines when rendering is on and there are docs.
    #[verifier::opaque]
    pub open spec fn opt_docs_text(self, render: bool, docs: Option<Vec<String>>, level: int) -> Seq<char> {
        if render && docs is Some {
            self.docs_text(docs->0@, level)
        } else {
            Seq::empty()
        }
    }

    /// A define: `#define NAME [VALUE]`, with no line ending; `before` and `after` come first.
    pub open spec fn definition_text(
        self,
        d: CppDefinition,
        o: CppDefinitionRenderOptions,
        level: int,
        before: Seq<char>,
        after: Seq<char>,
    ) -> Seq<char> {
        before + after + self.opt_docs_text(o.render_docs, d.docs, level) + self.ind(level) + "#define "@ + d.name@
            + opt_wrap(" "@, d.value, ""@)
    }

    /// The access label line a constant gets when its visibility is not the default.
    #[verifier::opaque]
    pub open spec fn constant_label_text(self, c: CppConstant) -> Seq<char> {
        only_if(c.visibility != CppVisibility::Default, c.visibility.text() + ":"@ + self.nl())
    }

    /// A constant declaration line.
    pub open spec fn constant_text(self, c: CppConstant, o: CppConstantRenderOptions, level: int) -> Seq<char> {
        self.opt_docs_text(o.render_docs, c.docs, level) + self.constant_label_text(c) + self.ind(level)
            + only_if(o.use_inline, "inline "@) + (if o.use_constexpr { "constexpr"@ } else { "const"@ }) + " "@
            + c.data_type@ + " "@ + c.name@ + " = "@ + c.value@ + ";"@ + self.nl()
    }

    /// A variant's name, padded to `width` bytes when aligning.
    pub open spec fn variant_name_text(v: CppEnumVariant, align: bool, width: nat) -> Seq<char> {
        if align {
            v.name@ + repeat_char(' ', (width - byte_len(v.name@)) as nat)
        } else {
            v.name@
        }
    }

    /// One enum variant line (with its docs).
    pub open spec fn variant_text(self, v: CppEnumVariant, vo: CppEnumVariantRenderOptions, level: int, width: nat) -> Seq<char> {
        self.opt_docs_text(vo.render_docs, v.docs, level) + self.ind(level)
            + Self::variant_name_text(v, vo.align_value, width) + opt_wrap(" = "@, v.value, ""@) + ","@ + self.nl()
    }

    /// The variants, one after the other.
    #[verifier::opaque]
    pub open spec fn variants_text(self, vs: Seq<CppEnumVariant>, vo: CppEnumVariantRenderOptions, level: int, width: nat) -> Seq<char>
        decreases vs.len(),
    {
        if vs.len() == 0 {
            Seq::empty()
        } else {
            self.variants_text(vs.drop_last(), vo, level, width) + self.variant_text(vs.last(), vo, level, width)
        }
    }

    /// The head of an enum: docs, `before`, `enum [class] Name[: type]` and the opening brace.
    #[verifier::opaque]
    pub open spec fn enum_head_text(self, e: CppEnum, o: CppEnumRenderOptions, level: int, before: Seq<char>) -> Seq<char> {
        self.opt_docs_text(o.render_docs, e.docs, level) + before + self.ind(level)
            + (if e.is_enum_class { "enum class "@ } else { "enum "@ }) + e.name@
            + opt_wrap(": "@, e.underlying_type, ""@) + self.brace_open_text(level)
    }

    /// An enum: docs, `before`, the head, the variants one level deeper, `};`, `after`.
    pub open spec fn enum_text(
        self,
        e: CppEnum,
        o: CppEnumRenderOptions,
        vo: CppEnumVariantRenderOptions,
        level: int,
        before: Seq<char>,
        after: Seq<char>,
    ) -> Seq<char> {
        self.enum_head_text(e, o, level, before)
            + self.variants_text(
                e.variants@,
                vo,
                level + 1,
                if vo.align_value { max_variant_name_len(e.variants@) } else { 0 },
            ) + self.ind(level) + "};"@ + self.nl() + after
    }

    /// The indentation string for `level`.
    pub fn indent(&self, level: i32) -> (r: String)
        ensures
            r@ == self.ind(level as int),
    {
        indent(level, self.indent_size, self.indent_style)
    }

    fn write_docs(&self, docs: &Vec<String>, indent_level: &mut i32, out: &mut String)
        ensures
            final(out)@ == old(out)@ + self.docs_text(docs@, *old(indent_level) as int),
            *final(indent_level) == *old(indent_level),
    {
        proof {
            reveal(CppBackend::docs_text);
        }
        let mut pre = self.indent(*indent_level);
        push_str(&mut pre, self.docs_style.open_str());
        let mut post = String::new();
        push_str(&mut post, self.docs_style.close_str());
        push_str(&mut post, self.new_line.as_str());
        push_lines(out, pre.as_str(), docs, post.as_str());
    }

    fn write_opt_docs(&self, render: bool, docs: &Option<Vec<String>>, indent_level: i32, out: &mut String)
        ensures
            final(out)@ == old(out)@ + self.opt_docs_text(render, *docs, indent_level as int),
    {
        proof {
            reveal(CppBackend::opt_docs_text);
        }
        let ghost start = out@;
        if render {
            if let Some(docs) = docs {
                let mut l = indent_level;
                self.write_docs(docs, &mut l, out);
            }
        }
        assert(out@ =~= start + self.opt_docs_text(render, *docs, indent_level as int));
    }

    fn write_brace_open(&self, level: i32, out: &mut String)
        ensures
            final(out)@ == old(out)@ + self.brace_open_text(level as int),
    {
        let ghost start = out@;
        if self.open_brace_on_new_line {
            push_str(out, self.new_line.as_str());
            push_str(out, self.indent(level).as_str());
            push_str(out, "{");
            push_str(out, self.new_line.as_str());
        } else {
            push_str(out, " {");
            push_str(out, self.new_line.as_str());
        }
        assert(out@ =~= start + self.brace_open_text(level as int));
    }

    /// Render a define (`#define NAME [VALUE]`, without a line ending).
    pub fn render_definition_to(
        &self,
        input: &CppDefinition,
        before: Option<&str>,
        after: Option<&str>,
        options: Option<&CppDefinitionRenderOptions>,
        indent_level: &mut i32,
        out: &mut String,
    )
        ensures
            final(out)@ == old(out)@ + self.definition_text(
                *input,
                CppDefinitionRenderOptions::or_default(options),
                *old(indent_level) as int,
                opt_str(before),
                opt_str(after),
            ),
            *final(indent_level) == *old(indent_level),
    {
        let binding = CppDefinitionRenderOptions::default();
        let options: &CppDefinitionRenderOptions = match options {
            Some(o) => o,
            None => &binding,
        };
        let level = *indent_level;
        let ghost start = out@;
        push_opt_str(out, before);
        push_opt_str(out, after);
        self.write_opt_docs(options.render_docs, &input.docs, level, out);
        push_str(out, self.indent(level).as_str());
        push_str(out, "#define ");
        push_str(out, input.name.as_str());
        push_opt(out, " ", &input.value, "");
        assert(out@ =~= start + self.definition_text(*input, *options, level as int, opt_str(before), opt_str(after)));
    }

    /// Render a define to a string.
    pub fn render_definition(
        &self,
        input: &CppDefinition,
        before: Option<&str>,
        after: Option<&str>,
        options: Option<&CppDefinitionRenderOptions>,
        indent_level: &mut i32,
    ) -> (r: String)
        ensures
            r@ == self.definition_text(
                *input,
                CppDefinitionRenderOptions::or_default(options),
                *old(indent_level) as int,
                opt_str(before),
                opt_str(after),
            ),
            *final(indent_level) == *old(indent_level),
    {
        let mut out = String::new();
        self.render_definition_to(input, before, after, options, indent_level, &mut out);
        assert(out@ =~= self.definition_text(
            *input,
            CppDefinitionRenderOptions::or_default(options),
            *old(indent_level) as int,
            opt_str(before),
            opt_str(after),
        ));
        out
    }

    fn write_constant_label(&self, input: &CppConstant, out: &mut String)
        ensures
            final(out)@ == old(out)@ + self.constant_label_text(*input),
    {
        proof {
            reveal(CppBackend::constant_label_text);
            reveal(only_if);
        }
        let ghost start = out@;
        if input.visibility != CppVisibility::Default {
            push_str(out, input.visibility.as_str());
            push_str(out, ":");
            push_str(out, self.new_line.as_str());
        }
        assert(out@ =~= start + self.constant_label_text(*input));
    }

    /// Render a constant declaration; `before` and `after` are not written.
    #[verifier::rlimit(30)]
    pub fn render_constant_to(
        &self,
        input: &CppConstant,
        before: Option<&str>,
        after: Option<&str>,
        options: Option<&CppConstantRenderOptions>,
        indent_level: &mut i32,
        out: &mut String,
    )
        ensures
            final(out)@ == old(out)@ + self.constant_text(
                *input,
                CppConstantRenderOptions::or_default(options),
                *old(indent_level) as int,
            ),
            *final(indent_level) == *old(indent_level),
    {
        let binding = CppConstantRenderOptions::default();
        let options: &CppConstantRenderOptions = match options {
            Some(o) => o,
            None => &binding,
        };
        let level = *indent_level;
        let ghost start = out@;
        self.write_opt_docs(options.render_docs, &input.docs, level, out);
        self.write_constant_label(input, out);
        let keyword: &str = if options.use_constexpr { "constexpr" } else { "const" };
        push_str(out, self.indent(level).as_str());
        push_when(out, options.use_inline, "inline ");
        push_str(out, keyword);
        push_str(out, " ");
        push_str(out, input.data_type.as_str());
        push_str(out, " ");
        push_str(out, input.name.as_str());
        push_str(out, " = ");
        push_str(out, input.value.as_str());
        push_str(out, ";");
        push_str(out, self.new_line.as_str());
        assert(out@ =~= start + self.constant_text(*input, *options, level as int));
    }

    /// Render a constant declaration to a string.
    pub fn render_constant(
        &self,
        input: &CppConstant,
        before: Option<&str>,
        after: Option<&str>,
        options: Option<&CppConstantRenderOptions>,
        indent_level: &mut i32,
    ) -> (r: String)
        ensures
            r@ == self.constant_text(*input, CppConstantRenderOptions::or_default(options), *old(indent_level) as int),
            *final(indent_level) == *old(indent_level),
    {
        let mut out = String::new();
        self.render_constant_to(input, before, after, options, indent_level, &mut out);
        assert(out@ =~= self.constant_text(*input, CppConstantRenderOptions::or_default(options), *old(indent_level) as int));
        out
    }

    fn max_name_len(vs: &Vec<CppEnumVariant>) -> (r: usize)
        ensures
            r == max_variant_name_len(vs@),
    {
        let mut m: usize = 0;
        let mut i: usize = 0;
        assert(vs@.take(0) =~= Seq::<CppEnumVariant>::empty());
        while i < vs.len()
            invariant
                i <= vs@.len(),
                m == max_variant_name_len(vs@.take(i as int)),
            decreases vs@.len() - i,
        {
            let l = vs[i].name.as_str().len();
            assert(vs@.take(i + 1).drop_last() =~= vs@.take(i as int));
            if l > m {
                m = l;
            }
            i = i + 1;
        }
        assert(vs@.take(i as int) =~= vs@);
        m
    }

    fn write_variant(
        &self,
        v: &CppEnumVariant,
        vo: &CppEnumVariantRenderOptions,
        level: i32,
        width: usize,
        out: &mut String,
    )
        requires
            vo.align_value ==> byte_len(v.name@) <= width,
        ensures
            final(out)@ == old(out)@ + self.variant_text(*v, *vo, level as int, width as nat),
    {
        let ghost start = out@;
        self.write_opt_docs(vo.render_docs, &v.docs, level, out);
        push_str(out, self.indent(level).as_str());
        push_str(out, v.name.as_str());
        if vo.align_value {
            let l = v.name.as_str().len();
            push_repeat(out, ' ', (width - l) as u64);
        }
        push_opt(out, " = ", &v.value, "");
        push_str(out, ",");
        push_str(out, self.new_line.as_str());
        assert(out@ =~= start + self.variant_text(*v, *vo, level as int, width as nat));
    }

    proof fn lemma_max_name_len(vs: Seq<CppEnumVariant>, i: int)
        requires
            0 <= i < vs.len(),
        ensures
            byte_len(vs[i].name@) <= max_variant_name_len(vs),
        decreases vs.len(),
    {
        if i < vs.len() - 1 {
            Self::lemma_max_name_len(vs.drop_last(), i);
        }
    }

    fn write_variants(
        &self,
        vs: &Vec<CppEnumVariant>,
        vo: &CppEnumVariantRenderOptions,
        level: i32,
        width: usize,
        out: &mut String,
    )
        requires
            vo.align_value ==> width == max_variant_name_len(vs@),
        ensures
            final(out)@ == old(out)@ + self.variants_text(vs@, *vo, level as int, width as nat),
    {
        let ghost start = out@;
        proof {
            reveal(CppBackend::variants_text);
            assert(vs@.take(0) =~= Seq::<CppEnumVariant>::empty());
            assert(start =~= start + self.variants_text(vs@.take(0), *vo, level as int, width as nat));
        }
        let mut i: usize = 0;
        while i < vs.len()
            invariant
                i <= vs@.len(),
                vo.align_value ==> width == max_variant_name_len(vs@),
                out@ == start + self.variants_text(vs@.take(i as int), *vo, level as int, width as nat),
            decreases vs@.len() - i,
        {
            proof {
                if vo.align_value {
                    Self::lemma_max_name_len(vs@, i as int);
                }
            }
            self.write_variant(&vs[i], vo, level, width, out);
            proof {
                reveal(CppBackend::variants_text);
                assert(vs@.take(i + 1).drop_last() =~= vs@.take(i as int));
                lemma_assoc(start, self.variants_text(vs@.take(i as int), *vo, level as int, width as nat),
                    self.variant_text(vs@[i as int], *vo, level as int, width as nat));
            }
            i = i + 1;
        }
        assert(vs@.take(i as int) =~= vs@);
    }

    fn write_enum_head(&self, input: &CppEnum, options: &CppEnumRenderOptions, level: i32, before: Option<&str>, out: &mut String)
        ensures
            final(out)@ == old(out)@ + self.enum_head_text(*input, *options, level as int, opt_str(before)),
    {
        proof {
            reveal(CppBackend::enum_head_text);
        }
        let ghost start = out@;
        self.write_opt_docs(options.render_docs, &input.docs, level, out);
        push_opt_str(out, before);
        push_str(out, self.indent(level).as_str());
        let kw: &str = if input.is_enum_class { "enum class " } else { "enum " };
        push_str(out, kw);
        push_str(out, input.name.as_str());
        push_opt(out, ": ", &input.underlying_type, "");
        self.write_brace_open(level, out);
        assert(out@ =~= start + self.enum_head_text(*input, *options, level as int, opt_str(before)));
    }

    /// Render an enum (`enum` or `enum class`).
    #[verifier::rlimit(30)]
    pub fn render_enum_to(
        &self,
        input: &CppEnum,
        before: Option<&str>,
        after: Option<&str>,
        options: Option<&CppEnumRenderOptions>,
        variant_options: Option<&CppEnumVariantRenderOptions>,
        indent_level: &mut i32,
        out: &mut String,
    )
        requires
            *old(indent_level) < i32::MAX,
        ensures
            final(out)@ == old(out)@ + self.enum_text(
                *input,
                CppEnumRenderOptions::or_default(options),
                CppEnumVariantRenderOptions::or_default(variant_options),
                *old(indent_level) as int,
                opt_str(before),
                opt_str(after),
            ),
            *final(indent_level) == *old(indent_level),
    {
        let binding = CppEnumRenderOptions::default();
        let options: &CppEnumRenderOptions = match options {
            Some(o) => o,
            None => &binding,
        };
        let variant_binding = CppEnumVariantRenderOptions::default();
        let variant_options: &CppEnumVariantRenderOptions = match variant_options {
            Some(o) => o,
            None => &variant_binding,
        };
        let level = *indent_level;
        let ghost start = out@;
        self.write_enum_head(input, options, level, before, out);
        *indent_level = level + 1;
        let width: usize = if variant_options.align_value { Self::max_name_len(&input.variants) } else { 0 };
        self.write_variants(&input.variants, variant_options, level + 1, width, out);
        *indent_level = level;
        push_str(out, self.indent(level).as_str());
        push_str(out, "};");
        push_str(out, self.new_line.as_str());
        push_opt_str(out, after);
        assert(out@ =~= start + self.enum_text(
            *input,
            *options,
            *variant_options,
            level as int,
            opt_str(before),
            opt_str(after),
        ));
    }

    /// Render an enum to a string.
    pub fn render_enum(
        &self,
        input: &CppEnum,
        before: Option<&str>,
        after: Option<&str>,
        options: Option<&CppEnumRenderOptions>,
        variant_options: Option<&CppEnumVariantRenderOptions>,
        indent_level: &mut i32,
    ) -> (r: String)
        requires
            *old(indent_level) < i32::MAX,
        ensures
            r@ == self.enum_text(
                *input,
                CppEnumRenderOptions::or_default(options),
                CppEnumVariantRenderOptions::or_default(variant_options),
                *old(indent_level) as int,
                opt_str(before),
                opt_str(after),
            ),
            *final(indent_level) == *old(indent_level),
    {
        let mut out = String::new();
        self.render_enum_to(input, before, after, options, variant_options, indent_level, &mut out);
        assert(out@ =~= self.enum_text(
            *input,
            CppEnumRenderOptions::or_default(options),
            CppEnumVariantRenderOptions::or_default(variant_options),
            *old(indent_level) as int,
            opt_str(before),
            opt_str(after),
        ));
        out
    }
}


/// Whether a function is rendered as a declaration ending in `;` rather than with a body.
pub open spec fn fn_skips_body(f: CppFunction, o: CppFunctionRenderOptions) -> bool {
    let base_skip = !o.render_definition || f.is_pure_virtual || f.is_deleted || f.is_default || (f.is_friend
        && o.render_body_if_friend);
    let template_ok_to_skip = f.template_params@.len() == 0 || !o.render_body_if_template;
    let friend_ok_to_skip = !f.is_friend || !o.render_body_if_friend;
    !o.force_render_body && base_skip && template_ok_to_skip && friend_ok_to_skip
}

/// Whether rendering the function at `level` stays within the range of `i32` (a body is one
/// level deeper).
pub open spec fn cpp_fn_fits(f: CppFunction, o: CppFunctionRenderOptions, level: int) -> bool {
    !fn_skips_body(f, o) ==> level < i32::MAX
}

impl CppBackend {
    /// A template parameter: its keyword (or `typename` by default) when keywords are rendered,
    /// its name, and its default.
    pub open spec fn tparam_text(p: CppGenericArgument, use_typename_default: bool, render_keywords: bool) -> Seq<char> {
        (if p.keyword@.len() > 0 && render_keywords {
            p.keyword@ + " "@
        } else if use_typename_default && render_keywords {
            "typename "@
        } else {
            Seq::empty()
        }) + p.name@ + opt_wrap(" = "@, p.default_value, ""@)
    }

    /// The template parameters, separated by `, `.
    pub open spec fn tparams_text(ps: Seq<CppGenericArgument>, use_typename_default: bool, render_keywords: bool) -> Seq<char> {
        join(Seq::new(ps.len(), |i: int| Self::tparam_text(ps[i], use_typename_default, render_keywords)), ", "@)
    }

    /// A function parameter: `type name [= default]`.
    pub open spec fn param_text(p: CppParameter) -> Seq<char> {
        p.param_type@ + " "@ + p.name@ + opt_wrap(" = "@, p.default_value, ""@)
    }

    /// The `template<...>` line of a function, continued by the indentation.
    #[verifier::opaque]
    pub open spec fn fn_template_text(self, f: CppFunction, o: CppFunctionRenderOptions, level: int) -> Seq<char> {
        only_if(
            f.template_params@.len() > 0,
            "template<"@ + Self::tparams_text(f.template_params@, o.use_typename_default, true) + ">"@ + self.nl()
                + self.ind(level),
        )
    }

    /// The specifiers written before the return type.
    #[verifier::opaque]
    pub open spec fn fn_modifiers_text(f: CppFunction, o: CppFunctionRenderOptions) -> Seq<char> {
        only_if(f.is_extern_c, "extern \"C\" "@) + if !o.render_definition {
            only_if(f.is_friend, "friend "@) + only_if(f.is_inline, "inline "@) + only_if(f.is_static, "static "@)
                + only_if(f.is_virtual, "/* virtual */ "@)
        } else {
            only_if(o.inline_definition, "inline "@)
        }
    }

    /// The return type followed by a space, when there is a non-empty one.
    #[verifier::opaque]
    pub open spec fn fn_return_text(f: CppFunction) -> Seq<char> {
        match f.return_type {
            Some(t) => only_if(t@.len() > 0, t@ + " "@),
            None => Seq::empty(),
        }
    }

    /// The name, qualified by the parent for a definition.
    #[verifier::opaque]
    pub open spec fn fn_qualified_name_text(f: CppFunction, o: CppFunctionRenderOptions) -> Seq<char> {
        (if o.render_definition {
            match f.parent_name {
                Some(p) => p@ + "::"@,
                None => Seq::empty(),
            }
        } else {
            Seq::empty()
        }) + f.name@
    }

    /// The return type and the (qualified, for a definition) name.
    pub open spec fn fn_name_text(f: CppFunction, o: CppFunctionRenderOptions) -> Seq<char> {
        Self::fn_return_text(f) + Self::fn_qualified_name_text(f, o)
    }

    /// The parameter list in parentheses.
    #[verifier::opaque]
    pub open spec fn fn_params_text(f: CppFunction) -> Seq<char> {
        "("@ + join(Seq::new(f.parameters@.len(), |i: int| Self::param_text(f.parameters@[i])), ", "@) + ")"@
    }

    /// The qualifiers written after the parameter list.
    #[verifier::opaque]
    pub open spec fn fn_qualifiers_text(f: CppFunction) -> Seq<char> {
        only_if(f.is_const, " const"@) + only_if(f.is_noexcept, " noexcept"@) + only_if(f.is_override, " override"@)
            + only_if(f.is_final, " final"@) + only_if(f.is_deleted, " = delete"@) + only_if(f.is_default, " = default"@)
            + only_if(f.is_pure_virtual, " = 0"@)
    }

    /// A body line: indented, or just a line ending when it is blank.
    pub open spec fn body_line_text(self, line: Seq<char>, level: int) -> Seq<char> {
        if is_blank(line) {
            self.nl()
        } else {
            self.ind(level) + line + self.nl()
        }
    }

    /// The body lines, one after the other.
    #[verifier::opaque]
    pub open spec fn body_lines_text(self, lines: Seq<String>, level: int) -> Seq<char>
        decreases lines.len(),
    {
        if lines.len() == 0 {
            Seq::empty()
        } else {
            self.body_lines_text(lines.drop_last(), level) + self.body_line_text(lines.last()@, level)
        }
    }

    /// `;` for a declaration, else the body in braces (a placeholder comment when there is none).
    #[verifier::opaque]
    pub open spec fn fn_end_text(self, f: CppFunction, o: CppFunctionRenderOptions, level: int) -> Seq<char> {
        if fn_skips_body(f, o) {
            ";"@
        } else {
            self.brace_open_text(level) + (match f.body {
                Some(lines) => self.body_lines_text(lines@, level + 1),
                None => self.ind(level + 1) + "// Function body"@ + self.nl(),
            }) + self.ind(level) + "}"@
        }
    }

    /// The docs of a function, when rendered (not for a declaration when docs go on definitions).
    pub open spec fn fn_docs_text(self, f: CppFunction, o: CppFunctionRenderOptions, level: int) -> Seq<char> {
        self.opt_docs_text(o.render_docs && (!o.docs_on_definition || o.render_definition), f.docs, level)
    }

    /// A function: `before`, docs, template line, specifiers, signature, qualifiers, `;` or
    /// body, `after`.
    pub open spec fn function_text(
        self,
        f: CppFunction,
        o: CppFunctionRenderOptions,
        level: int,
        before: Seq<char>,
        after: Seq<char>,
    ) -> Seq<char> {
        before + self.fn_docs_text(f, o, level) + self.ind(level) + self.fn_template_text(f, o, level)
            + Self::fn_modifiers_text(f, o) + Self::fn_name_text(f, o) + Self::fn_params_text(f)
            + Self::fn_qualifiers_text(f) + self.fn_end_text(f, o, level) + after
    }

    fn write_tparams(ps: &Vec<CppGenericArgument>, use_typename_default: bool, render_keywords: bool, out: &mut String)
        ensures
            final(out)@ == old(out)@ + Self::tparams_text(ps@, use_typename_default, render_keywords),
    {
        let ghost parts = Seq::new(ps@.len(), |i: int| Self::tparam_text(ps@[i], use_typename_default, render_keywords));
        let ghost start = out@;
        proof {
            lemma_join_start(start, parts, ", "@);
        }
        let mut i: usize = 0;
        while i < ps.len()
            invariant
                i <= ps@.len(),
                parts == Seq::new(ps@.len(), |i: int| Self::tparam_text(ps@[i], use_typename_default, render_keywords)),
                out@ == start + join(parts.take(i as int), ", "@),
            decreases ps@.len() - i,
        {
            let ghost prev = out@;
            if i > 0 {
                push_str(out, ", ");
            }
            let ghost p = out@;
            let param = &ps[i];
            if !param.keyword.as_str().is_empty() && render_keywords {
                push_str(out, param.keyword.as_str());
                push_str(out, " ");
            } else if use_typename_default && render_keywords {
                push_str(out, "typename ");
            }
            push_str(out, param.name.as_str());
            push_opt(out, " = ", &param.default_value, "");
            proof {
                assert(out@ =~= p + parts[i as int]);
                lemma_join_loop(start, parts, ", "@, i as int, prev, out@);
            }
            i = i + 1;
        }
        proof {
            lemma_join_done(start, parts, ", "@, i as int);
        }
    }

    fn write_fn_template(&self, input: &CppFunction, options: &CppFunctionRenderOptions, level: i32, out: &mut String)
        ensures
            final(out)@ == old(out)@ + self.fn_template_text(*input, *options, level as int),
    {
        proof {
            reveal(CppBackend::fn_template_text);
            reveal(only_if);
        }
        let ghost start = out@;
        if input.template_params.len() > 0 {
            push_str(out, "template<");
            Self::write_tparams(&input.template_params, options.use_typename_default, true, out);
            push_str(out, ">");
            push_str(out, self.new_line.as_str());
            push_str(out, self.indent(level).as_str());
        }
        assert(out@ =~= start + self.fn_template_text(*input, *options, level as int));
    }

    fn write_fn_modifiers(input: &CppFunction, options: &CppFunctionRenderOptions, out: &mut String)
        ensures
            final(out)@ == old(out)@ + Self::fn_modifiers_text(*input, *options),
    {
        proof {
            reveal(CppBackend::fn_modifiers_text);
        }
        let ghost start = out@;
        push_when(out, input.is_extern_c, "extern \"C\" ");
        if !options.render_definition {
            push_when(out, input.is_friend, "friend ");
            push_when(out, input.is_inline, "inline ");
            push_when(out, input.is_static, "static ");
            push_when(out, input.is_virtual, "/* virtual */ ");
        } else {
            push_when(out, options.inline_definition, "inline ");
        }
        assert(out@ =~= start + Self::fn_modifiers_text(*input, *options));
    }

    fn write_fn_return(input: &CppFunction, out: &mut String)
        ensures
            final(out)@ == old(out)@ + Self::fn_return_text(*input),
    {
        proof {
            reveal(CppBackend::fn_return_text);
            reveal(only_if);
        }
        let ghost start = out@;
        if let Some(return_type) = &input.return_type {
            if !return_type.as_str().is_empty() {
                push_str(out, return_type.as_str());
                push_str(out, " ");
            }
        }
        assert(out@ =~= start + Self::fn_return_text(*input));
    }

    fn write_fn_qualified_name(input: &CppFunction, options: &CppFunctionRenderOptions, out: &mut String)
        ensures
            final(out)@ == old(out)@ + Self::fn_qualified_name_text(*input, *options),
    {
        proof {
            reveal(CppBackend::fn_qualified_name_text);
        }
        let ghost start = out@;
        if options.render_definition {
            if let Some(parent_name) = &input.parent_name {
                push_str(out, parent_name.as_str());
                push_str(out, "::");
            }
        }
        push_str(out, input.name.as_str());
        assert(out@ =~= start + Self::fn_qualified_name_text(*input, *options));
    }

    fn write_fn_params(input: &CppFunction, out: &mut String)
        ensures
            final(out)@ == old(out)@ + Self::fn_params_text(*input),
    {
        proof {
            reveal(CppBackend::fn_params_text);
        }
        let ghost parts = Seq::new(input.parameters@.len(), |i: int| Self::param_text(input.parameters@[i]));
        let ghost start0 = out@;
        push_str(out, "(");
        let ghost start = out@;
        proof {
            lemma_join_start(start, parts, ", "@);
        }
        let mut i: usize = 0;
        while i < input.parameters.len()
            invariant
                i <= input.parameters@.len(),
                parts == Seq::new(input.parameters@.len(), |i: int| Self::param_text(input.parameters@[i])),
                out@ == start + join(parts.take(i as int), ", "@),
            decreases input.parameters@.len() - i,
        {
            let ghost prev = out@;
            if i > 0 {
                push_str(out, ", ");
            }
            let ghost p = out@;
            let param = &input.parameters[i];
            push_str(out, param.param_type.as_str());
            push_str(out, " ");
            push_str(out, param.name.as_str());
            push_opt(out, " = ", &param.default_value, "");
            proof {
                assert(out@ =~= p + parts[i as int]);
                lemma_join_loop(start, parts, ", "@, i as int, prev, out@);
            }
            i = i + 1;
        }
        proof {
            lemma_join_done(start, parts, ", "@, i as int);
        }
        push_str(out, ")");
        assert(out@ =~= start0 + Self::fn_params_text(*input));
    }

    fn write_fn_qualifiers(input: &CppFunction, out: &mut String)
        ensures
            final(out)@ == old(out)@ + Self::fn_qualifiers_text(*input),
    {
        proof {
            reveal(CppBackend::fn_qualifiers_text);
        }
        let ghost start = out@;
        push_when(out, input.is_const, " const");
        push_when(out, input.is_noexcept, " noexcept");
        push_when(out, input.is_override, " override");
        push_when(out, input.is_final, " final");
        push_when(out, input.is_deleted, " = delete");
        push_when(out, input.is_default, " = default");
        push_when(out, input.is_pure_virtual, " = 0");
        assert(out@ =~= start + Self::fn_qualifiers_text(*input));
    }

    fn write_body_lines(&self, lines: &Vec<String>, level: i32, out: &mut String)
        ensures
            final(out)@ == old(out)@ + self.body_lines_text(lines@, level as int),
    {
        let ghost start = out@;
        proof {
            reveal(CppBackend::body_lines_text);
            assert(lines@.take(0) =~= Seq::<String>::empty());
            assert(start =~= start + self.body_lines_text(lines@.take(0), level as int));
        }
        let body_indent = self.indent(level);
        let mut i: usize = 0;
        while i < lines.len()
            invariant
                i <= lines@.len(),
                body_indent@ == self.ind(level as int),
                out@ == start + self.body_lines_text(lines@.take(i as int), level as int),
            decreases lines@.len() - i,
        {
            let ghost before = out@;
            let line = &lines[i];
            if !str_is_blank(line.as_str()) {
                push_str(out, body_indent.as_str());
                push_str(out, line.as_str());
                push_str(out, self.new_line.as_str());
            } else {
                push_str(out, self.new_line.as_str());
            }
            proof {
                assert(out@ =~= before + self.body_line_text(lines@[i as int]@, level as int));
                reveal(CppBackend::body_lines_text);
                assert(lines@.take(i + 1).drop_last() =~= lines@.take(i as int));
                lemma_assoc(start, self.body_lines_text(lines@.take(i as int), level as int),
                    self.body_line_text(lines@[i as int]@, level as int));
            }
            i = i + 1;
        }
        assert(lines@.take(i as int) =~= lines@);
    }

    #[verifier::rlimit(30)]
    fn write_fn_end(&self, input: &CppFunction, options: &CppFunctionRenderOptions, level: i32, out: &mut String)
        requires
            cpp_fn_fits(*input, *options, level as int),
        ensures
            final(out)@ == old(out)@ + self.fn_end_text(*input, *options, level as int),
    {
        proof {
            reveal(CppBackend::fn_end_text);
        }
        let ghost start = out@;
        let base_skip: bool = !options.render_definition || input.is_pure_virtual || input.is_deleted
            || input.is_default || (input.is_friend && options.render_body_if_friend);
        let template_ok_to_skip: bool = input.template_params.len() == 0 || !options.render_body_if_template;
        let friend_ok_to_skip: bool = !input.is_friend || !options.render_body_if_friend;
        if !options.force_render_body && base_skip && template_ok_to_skip && friend_ok_to_skip {
            push_str(out, ";");
        } else {
            self.write_brace_open(level, out);
            match &input.body {
                Some(lines) => {
                    self.write_body_lines(lines, level + 1, out);
                },
                None => {
                    push_str(out, self.indent(level + 1).as_str());
                    push_str(out, "// Function body");
                    push_str(out, self.new_line.as_str());
                },
            }
            push_str(out, self.indent(level).as_str());
            push_str(out, "}");
        }
        assert(out@ =~= start + self.fn_end_text(*input, *options, level as int));
    }

    /// Render a function declaration or definition.
    #[verifier::rlimit(30)]
    pub fn render_function_to(
        &self,
        input: &CppFunction,
        before: Option<&str>,
        after: Option<&str>,
        options: Option<&CppFunctionRenderOptions>,
        indent_level: &mut i32,
        out: &mut String,
    )
        requires
            cpp_fn_fits(*input, CppFunctionRenderOptions::or_default(options), *old(indent_level) as int),
        ensures
            final(out)@ == old(out)@ + self.function_text(
                *input,
                CppFunctionRenderOptions::or_default(options),
                *old(indent_level) as int,
                opt_str(before),
                opt_str(after),
            ),
            *final(indent_level) == *old(indent_level),
    {
        let binding = CppFunctionRenderOptions::default();
        let options: &CppFunctionRenderOptions = match options {
            Some(o) => o,
            None => &binding,
        };
        let level = *indent_level;
        let ghost start = out@;
        push_opt_str(out, before);
        self.write_opt_docs(
            options.render_docs && (!options.docs_on_definition || options.render_definition),
            &input.docs,
            level,
            out,
        );
        push_str(out, self.indent(level).as_str());
        self.write_fn_template(input, options, level, out);
        Self::write_fn_modifiers(input, options, out);
        Self::write_fn_return(input, out);
        Self::write_fn_qualified_name(input, options, out);
        Self::write_fn_params(input, out);
        Self::write_fn_qualifiers(input, out);
        self.write_fn_end(input, options, level, out);
        push_opt_str(out, after);
        assert(out@ =~= start + self.function_text(*input, *options, level as int, opt_str(before), opt_str(after)));
    }

    /// Render a function to a string.
    pub fn render_function(
        &self,
        input: &CppFunction,
        before: Option<&str>,
        after: Option<&str>,
        options: Option<&CppFunctionRenderOptions>,
        indent_level: &mut i32,
    ) -> (r: String)
        requires
            cpp_fn_fits(*input, CppFunctionRenderOptions::or_default(options), *old(indent_level) as int),
        ensures
            r@ == self.function_text(
                *input,
                CppFunctionRenderOptions::or_default(options),
                *old(indent_level) as int,
                opt_str(before),
                opt_str(after),
            ),
            *final(indent_level) == *old(indent_level),
    {
        let mut out = String::new();
        self.render_function_to(input, before, after, options, indent_level, &mut out);
        assert(out@ =~= self.function_text(
            *input,
            CppFunctionRenderOptions::or_default(options),
            *old(indent_level) as int,
            opt_str(before),
            opt_str(after),
        ));
        out
    }
}


/// The access a member without a written specifier has: private in a class or a union, public
/// in a struct.
pub open spec fn effective_visibility(v: CppVisibility, kind: CppStructKind) -> CppVisibility {
    if v == CppVisibility::Default {
        if kind == CppStructKind::Struct {
            CppVisibility::Public
        } else {
            CppVisibility::Private
        }
    } else {
        v
    }
}

/// The access a base without a written specifier has: private for a class, public for a
/// struct or a union (as C++ itself does).
pub open spec fn base_access(v: CppVisibility, kind: CppStructKind) -> CppVisibility {
    if v == CppVisibility::Default {
        if kind == CppStructKind::Class {
            CppVisibility::Private
        } else {
            CppVisibility::Public
        }
    } else {
        v
    }
}

/// Whether an access label goes before field `i`: the first field gets one when its access is
/// not the kind's default or when default labels are rendered; a later one when its access
/// differs from the field before it.
pub open spec fn field_label_before(fs: Seq<CppField>, i: int, kind: CppStructKind, render_default: bool) -> bool {
    if i == 0 {
        effective_visibility(fs[0].visibility, kind) != effective_visibility(CppVisibility::Default, kind)
            || render_default
    } else {
        effective_visibility(fs[i].visibility, kind) != effective_visibility(fs[i - 1].visibility, kind)
    }
}

/// Whether an access label goes before method `i` (as for fields).
pub open spec fn method_label_before(ms: Seq<CppFunction>, i: int, kind: CppStructKind, render_default: bool) -> bool {
    if i == 0 {
        effective_visibility(ms[0].visibility, kind) != effective_visibility(CppVisibility::Default, kind)
            || render_default
    } else {
        effective_visibility(ms[i].visibility, kind) != effective_visibility(ms[i - 1].visibility, kind)
    }
}

/// `alignas(N) ` for an over-aligned item.
pub open spec fn alignas_text(a: Option<u32>) -> Seq<char> {
    match a {
        Some(n) => "alignas("@ + decimal(n as nat) + ") "@,
        None => Seq::empty(),
    }
}

/// The part of a field declaration before its name: alignment, specifiers and type.
pub open spec fn field_type_part(f: CppField) -> Seq<char> {
    alignas_text(f.alignment) + only_if(f.is_inline, "inline "@) + only_if(f.is_static, "static "@) + only_if(
        f.is_const,
        "const "@,
    ) + f.field_type@
}

/// The name of a field with its array size and bit width (written after `bit_sep`).
pub open spec fn field_name_core(f: CppField, bit_sep: Seq<char>) -> Seq<char> {
    f.name@ + opt_wrap("["@, f.array_size, "]"@) + opt_wrap(bit_sep, f.bit_field_size, ""@)
}

/// ` = value` when the field has an initializer and initializers are rendered.
pub open spec fn field_init_text(f: CppField, render: bool) -> Seq<char> {
    only_if(render, opt_wrap(" = "@, f.initialization_value, ""@))
}

/// The widest type part of the fields, in UTF-8 bytes.
pub open spec fn max_type_width(fs: Seq<CppField>) -> nat
    decreases fs.len(),
{
    if fs.len() == 0 {
        0
    } else {
        let m = max_type_width(fs.drop_last());
        let w = byte_len(field_type_part(fs.last()));
        if w > m {
            w
        } else {
            m
        }
    }
}

/// The widest `name[array]: bits;` of the fields (initializers not counted), in UTF-8 bytes.
pub open spec fn max_name_width(fs: Seq<CppField>) -> nat
    decreases fs.len(),
{
    if fs.len() == 0 {
        0
    } else {
        let m = max_name_width(fs.drop_last());
        let w = byte_len(field_name_core(fs.last(), ": "@) + ";"@);
        if w > m {
            w
        } else {
            m
        }
    }
}

/// Whether rendering the struct at `level` stays within the range of `i32`: the members are one
/// level deeper, and a method body one more.
pub open spec fn cpp_struct_fits(s: CppStruct, o: CppStructRenderOptions, level: int) -> bool {
    &&& level < i32::MAX
    &&& forall|i: int| 0 <= i < s.methods@.len() ==> cpp_fn_fits(#[trigger] s.methods@[i], o.method_options, level + 1)
}

impl CppBackend {
    /// The `template<...>` line of a struct.
    #[verifier::opaque]
    pub open spec fn struct_template_text(self, s: CppStruct, o: CppStructRenderOptions, level: int) -> Seq<char> {
        only_if(
            s.template_params@.len() > 0 && o.render_template_params,
            self.ind(level) + "template<"@ + Self::tparams_text(
                s.template_params@,
                o.use_typename_default,
                o.render_template_param_keywords,
            ) + ">"@ + self.nl(),
        )
    }

    /// `class `, `struct ` or `union `.
    pub open spec fn struct_kind_text(kind: CppStructKind) -> Seq<char> {
        match kind {
            CppStructKind::Class => "class "@,
            CppStructKind::Struct => "struct "@,
            CppStructKind::Union => "union "@,
        }
    }

    /// A base in the inheritance list: `access Name`.
    pub open spec fn base_text(b: CppBase, kind: CppStructKind) -> Seq<char> {
        base_access(b.visibility, kind).text() + " "@ + b.name@
    }

    /// The inheritance list, ` : a A, b B`, when there are bases.
    pub open spec fn bases_text(s: CppStruct) -> Seq<char> {
        only_if(
            s.bases@.len() > 0,
            " : "@ + join(Seq::new(s.bases@.len(), |i: int| Self::base_text(s.bases@[i], s.struct_kind)), ", "@),
        )
    }

    /// The struct's head line: kind, alignment, name, ` final`, bases.
    #[verifier::opaque]
    pub open spec fn struct_head_text(self, s: CppStruct, level: int) -> Seq<char> {
        self.ind(level) + Self::struct_kind_text(s.struct_kind) + alignas_text(s.alignment) + s.name@ + only_if(
            s.is_final,
            " final"@,
        ) + Self::bases_text(s)
    }

    /// An access label line at `level`, with a blank line before it unless it is the first.
    pub open spec fn label_text(self, v: CppVisibility, first: bool, level: int) -> Seq<char> {
        only_if(!first, self.nl()) + self.ind(level) + v.text() + ":"@ + self.nl()
    }

    /// A field declaration, from its type to its `;`, in columns of `tw` and `nw` characters
    /// when aligning.
    pub open spec fn field_decl_text(f: CppField, render_init: bool, align: bool, tw: nat, nw: nat) -> Seq<char> {
        if align {
            pad_right(field_type_part(f), tw) + " "@ + pad_right(
                field_name_core(f, ": "@) + field_init_text(f, render_init) + ";"@,
                nw,
            )
        } else {
            field_type_part(f) + " "@ + field_name_core(f, " : "@) + field_init_text(f, render_init) + ";"@
        }
    }

    /// Field `i` of the struct at `level`: its label if one goes before it, its docs, its
    /// declaration one level deeper, its inline comment and a line ending.
    #[verifier::opaque]
    pub open spec fn field_item_text(self, s: CppStruct, o: CppStructRenderOptions, level: int, tw: nat, nw: nat, i: int) -> Seq<char> {
        let f = s.fields@[i];
        only_if(
            field_label_before(s.fields@, i, s.struct_kind, o.render_default_visibility),
            self.label_text(effective_visibility(f.visibility, s.struct_kind), i == 0, level),
        ) + self.field_line_text(f, o.field_options, o.align_fields, level + 1, tw, nw)
    }

    /// A field's docs and its declaration line at `level`, with its inline comment.
    #[verifier::opaque]
    pub open spec fn field_line_text(self, f: CppField, fo: CppFieldRenderOptions, align: bool, level: int, tw: nat, nw: nat) -> Seq<char> {
        self.opt_docs_text(fo.render_docs, f.docs, level) + self.ind(level) + Self::field_decl_text(
            f,
            fo.render_initializers,
            align,
            tw,
            nw,
        ) + opt_wrap(" // "@, f.inline_comment, ""@) + self.nl()
    }

    /// The first `n` fields.
    #[verifier::opaque]
    pub open spec fn fields_upto(self, s: CppStruct, o: CppStructRenderOptions, level: int, tw: nat, nw: nat, n: int) -> Seq<char>
        decreases n,
    {
        if n <= 0 {
            Seq::empty()
        } else {
            self.fields_upto(s, o, level, tw, nw, n - 1) + self.field_item_text(s, o, level, tw, nw, n - 1)
        }
    }

    /// The column widths used for the fields: the widest parts when aligning, else nothing.
    pub open spec fn field_widths(s: CppStruct, o: CppStructRenderOptions) -> (nat, nat) {
        if o.align_fields {
            (max_type_width(s.fields@), max_name_width(s.fields@))
        } else {
            (0, 0)
        }
    }

    /// All the fields of the struct.
    pub open spec fn fields_text(self, s: CppStruct, o: CppStructRenderOptions, level: int) -> Seq<char> {
        self.fields_upto(
            s,
            o,
            level,
            Self::field_widths(s, o).0,
            Self::field_widths(s, o).1,
            s.fields@.len() as int,
        )
    }

    /// Method `i` of the struct at `level`: its label if one goes before it, the method one
    /// level deeper, and a line ending between methods.
    #[verifier::opaque]
    pub open spec fn method_item_text(self, s: CppStruct, o: CppStructRenderOptions, level: int, i: int) -> Seq<char> {
        let m = s.methods@[i];
        only_if(
            method_label_before(s.methods@, i, s.struct_kind, o.render_default_visibility),
            self.label_text(effective_visibility(m.visibility, s.struct_kind), true, level),
        ) + self.function_text(m, o.method_options, level + 1, Seq::empty(), Seq::empty()) + only_if(
            i != s.methods@.len() - 1,
            self.nl(),
        )
    }

    /// The first `n` methods.
    #[verifier::opaque]
    pub open spec fn methods_upto(self, s: CppStruct, o: CppStructRenderOptions, level: int, n: int) -> Seq<char>
        decreases n,
    {
        if n <= 0 {
            Seq::empty()
        } else {
            self.methods_upto(s, o, level, n - 1) + self.method_item_text(s, o, level, n - 1)
        }
    }

    /// The methods, after a blank line when there are fields.
    pub open spec fn methods_text(self, s: CppStruct, o: CppStructRenderOptions, level: int) -> Seq<char> {
        only_if(
            s.methods@.len() > 0,
            only_if(s.fields@.len() > 0, self.nl()) + self.methods_upto(s, o, level, s.methods@.len() as int),
        )
    }

    /// A struct: `before`, docs, template line, head, `{`, fields, methods, a blank line, `};`,
    /// `after`.
    pub open spec fn struct_text(
        self,
        s: CppStruct,
        o: CppStructRenderOptions,
        level: int,
        before: Seq<char>,
        after: Seq<char>,
    ) -> Seq<char> {
        before + self.opt_docs_text(o.render_docs, s.docs, level) + self.struct_template_text(s, o, level)
            + self.struct_head_text(s, level) + self.brace_open_text(level) + self.fields_text(s, o, level)
            + self.methods_text(s, o, level) + self.nl() + self.ind(level) + "};"@ + self.nl() + after
    }
}


fn effective(v: CppVisibility, kind: CppStructKind) -> (r: CppVisibility)
    ensures
        r == effective_visibility(v, kind),
{
    match v {
        CppVisibility::Default => match kind {
            CppStructKind::Struct => CppVisibility::Public,
            _ => CppVisibility::Private,
        },
        _ => v,
    }
}

fn push_alignas(out: &mut String, a: Option<u32>)
    ensures
        final(out)@ == old(out)@ + alignas_text(a),
{
    let ghost start = out@;
    if let Some(n) = a {
        push_str(out, "alignas(");
        push_u32(out, n);
        push_str(out, ") ");
    }
    assert(out@ =~= start + alignas_text(a));
}

fn field_type_string(f: &CppField) -> (r: String)
    ensures
        r@ == field_type_part(*f),
{
    let mut r = String::new();
    push_alignas(&mut r, f.alignment);
    push_when(&mut r, f.is_inline, "inline ");
    push_when(&mut r, f.is_static, "static ");
    push_when(&mut r, f.is_const, "const ");
    push_str(&mut r, f.field_type.as_str());
    assert(r@ =~= field_type_part(*f));
    r
}

fn push_field_name_core(out: &mut String, f: &CppField, bit_sep: &str)
    ensures
        final(out)@ == old(out)@ + field_name_core(*f, bit_sep@),
{
    let ghost start = out@;
    push_str(out, f.name.as_str());
    push_opt(out, "[", &f.array_size, "]");
    push_opt(out, bit_sep, &f.bit_field_size, "");
    assert(out@ =~= start + field_name_core(*f, bit_sep@));
}

fn push_field_init(out: &mut String, f: &CppField, render: bool)
    ensures
        final(out)@ == old(out)@ + field_init_text(*f, render),
{
    proof {
        reveal(only_if);
    }
    let ghost start = out@;
    if render {
        push_opt(out, " = ", &f.initialization_value, "");
    }
    assert(out@ =~= start + field_init_text(*f, render));
}

fn max_field_widths(fs: &Vec<CppField>) -> (r: (usize, usize))
    ensures
        r.0 == max_type_width(fs@),
        r.1 == max_name_width(fs@),
{
    let mut tw: usize = 0;
    let mut nw: usize = 0;
    let mut i: usize = 0;
    assert(fs@.take(0) =~= Seq::<CppField>::empty());
    while i < fs.len()
        invariant
            i <= fs@.len(),
            tw == max_type_width(fs@.take(i as int)),
            nw == max_name_width(fs@.take(i as int)),
        decreases fs@.len() - i,
    {
        let f = &fs[i];
        let t = field_type_string(f);
        let mut n = String::new();
        push_field_name_core(&mut n, f, ": ");
        push_str(&mut n, ";");
        let tl = t.as_str().len();
        let nl = n.as_str().len();
        assert(fs@.take(i + 1).drop_last() =~= fs@.take(i as int));
        if tl > tw {
            tw = tl;
        }
        if nl > nw {
            nw = nl;
        }
        i = i + 1;
    }
    assert(fs@.take(i as int) =~= fs@);
    (tw, nw)
}

impl CppBackend {
    fn write_struct_template(&self, input: &CppStruct, options: &CppStructRenderOptions, level: i32, out: &mut String)
        ensures
            final(out)@ == old(out)@ + self.struct_template_text(*input, *options, level as int),
    {
        proof {
            reveal(CppBackend::struct_template_text);
            reveal(only_if);
        }
        let ghost start = out@;
        if input.template_params.len() > 0 && options.render_template_params {
            push_str(out, self.indent(level).as_str());
            push_str(out, "template<");
            Self::write_tparams(
                &input.template_params,
                options.use_typename_default,
                options.render_template_param_keywords,
                out,
            );
            push_str(out, ">");
            push_str(out, self.new_line.as_str());
        }
        assert(out@ =~= start + self.struct_template_text(*input, *options, level as int));
    }

    fn write_bases(input: &CppStruct, out: &mut String)
        ensures
            final(out)@ == old(out)@ + Self::bases_text(*input),
    {
        proof {
            reveal(only_if);
        }
        let ghost start0 = out@;
        if input.bases.len() > 0 {
            push_str(out, " : ");
            let ghost parts = Seq::new(input.bases@.len(), |i: int| Self::base_text(input.bases@[i], input.struct_kind));
            let ghost start = out@;
            proof {
                lemma_join_start(start, parts, ", "@);
            }
            let mut i: usize = 0;
            while i < input.bases.len()
                invariant
                    i <= input.bases@.len(),
                    parts == Seq::new(input.bases@.len(), |i: int| Self::base_text(input.bases@[i], input.struct_kind)),
                    out@ == start + join(parts.take(i as int), ", "@),
                decreases input.bases@.len() - i,
            {
                let ghost prev = out@;
                if i > 0 {
                    push_str(out, ", ");
                }
                let ghost p = out@;
                let base = &input.bases[i];
                let access: &str = match base.visibility {
                    CppVisibility::Public => "public",
                    CppVisibility::Protected => "protected",
                    CppVisibility::Private => "private",
                    CppVisibility::Default => match input.struct_kind {
                        CppStructKind::Class => "private",
                        _ => "public",
                    },
                };
                push_str(out, access);
                push_str(out, " ");
                push_str(out, base.name.as_str());
                proof {
                    assert(out@ =~= p + parts[i as int]);
                    lemma_join_loop(start, parts, ", "@, i as int, prev, out@);
                }
                i = i + 1;
            }
            proof {
                lemma_join_done(start, parts, ", "@, i as int);
            }
        }
        assert(out@ =~= start0 + Self::bases_text(*input));
    }

    fn write_struct_head(&self, input: &CppStruct, level: i32, out: &mut String)
        ensures
            final(out)@ == old(out)@ + self.struct_head_text(*input, level as int),
    {
        proof {
            reveal(CppBackend::struct_head_text);
        }
        let ghost start = out@;
        push_str(out, self.indent(level).as_str());
        let kw: &str = match input.struct_kind {
            CppStructKind::Class => "class ",
            CppStructKind::Struct => "struct ",
            CppStructKind::Union => "union ",
        };
        push_str(out, kw);
        push_alignas(out, input.alignment);
        push_str(out, input.name.as_str());
        push_when(out, input.is_final, " final");
        Self::write_bases(input, out);
        assert(out@ =~= start + self.struct_head_text(*input, level as int));
    }

    fn write_label(&self, v: CppVisibility, first: bool, level: i32, out: &mut String)
        ensures
            final(out)@ == old(out)@ + self.label_text(v, first, level as int),
    {
        let ghost start = out@;
        push_when(out, !first, self.new_line.as_str());
        push_str(out, self.indent(level).as_str());
        push_str(out, v.as_str());
        push_str(out, ":");
        push_str(out, self.new_line.as_str());
        assert(out@ =~= start + self.label_text(v, first, level as int));
    }

    #[verifier::rlimit(30)]
    fn write_field_decl(f: &CppField, render_init: bool, align: bool, tw: usize, nw: usize, out: &mut String)
        ensures
            final(out)@ == old(out)@ + Self::field_decl_text(*f, render_init, align, tw as nat, nw as nat),
    {
        let ghost start = out@;
        let type_part = field_type_string(f);
        if align {
            push_padded(out, type_part.as_str(), tw);
            push_str(out, " ");
            let mut name_part = String::new();
            push_field_name_core(&mut name_part, f, ": ");
            push_field_init(&mut name_part, f, render_init);
            push_str(&mut name_part, ";");
            push_padded(out, name_part.as_str(), nw);
        } else {
            push_str(out, type_part.as_str());
            push_str(out, " ");
            push_field_name_core(out, f, " : ");
            push_field_init(out, f, render_init);
            push_str(out, ";");
        }
        assert(out@ =~= start + Self::field_decl_text(*f, render_init, align, tw as nat, nw as nat));
    }

    #[verifier::rlimit(30)]
    fn write_field_item(
        &self,
        input: &CppStruct,
        options: &CppStructRenderOptions,
        level: i32,
        tw: usize,
        nw: usize,
        i: usize,
        label: bool,
        out: &mut String,
    )
        requires
            i < input.fields@.len(),
            level < i32::MAX,
            label == field_label_before(input.fields@, i as int, input.struct_kind, options.render_default_visibility),
        ensures
            final(out)@ == old(out)@ + self.field_item_text(*input, *options, level as int, tw as nat, nw as nat, i as int),
    {
        proof {
            reveal(CppBackend::field_item_text);
            reveal(only_if);
        }
        let ghost start = out@;
        let field = &input.fields[i];
        if label {
            let v = effective(field.visibility, input.struct_kind);
            self.write_label(v, i == 0, level, out);
        }
        let ghost mid = out@;
        self.write_field_line(field, &options.field_options, options.align_fields, level + 1, tw, nw, out);
        assert(out@ =~= start + self.field_item_text(*input, *options, level as int, tw as nat, nw as nat, i as int));
    }

    fn write_field_line(
        &self,
        field: &CppField,
        fo: &CppFieldRenderOptions,
        align: bool,
        level: i32,
        tw: usize,
        nw: usize,
        out: &mut String,
    )
        ensures
            final(out)@ == old(out)@ + self.field_line_text(*field, *fo, align, level as int, tw as nat, nw as nat),
    {
        proof {
            reveal(CppBackend::field_line_text);
        }
        let ghost start = out@;
        self.write_opt_docs(fo.render_docs, &field.docs, level, out);
        push_str(out, self.indent(level).as_str());
        Self::write_field_decl(field, fo.render_initializers, align, tw, nw, out);
        push_opt(out, " // ", &field.inline_comment, "");
        push_str(out, self.new_line.as_str());
        assert(out@ =~= start + self.field_line_text(*field, *fo, align, level as int, tw as nat, nw as nat));
    }

    fn write_fields(&self, input: &CppStruct, options: &CppStructRenderOptions, level: i32, out: &mut String)
        requires
            level < i32::MAX,
        ensures
            final(out)@ == old(out)@ + self.fields_text(*input, *options, level as int),
    {
        let ghost start = out@;
        let widths: (usize, usize) = if options.align_fields { max_field_widths(&input.fields) } else { (0, 0) };
        let tw = widths.0;
        let nw = widths.1;
        proof {
            reveal(CppBackend::fields_upto);
        }
        let mut current: CppVisibility = CppVisibility::Default;
        let mut i: usize = 0;
        while i < input.fields.len()
            invariant
                i <= input.fields@.len(),
                level < i32::MAX,
                tw == Self::field_widths(*input, *options).0,
                nw == Self::field_widths(*input, *options).1,
                i == 0 ==> current == CppVisibility::Default,
                i > 0 ==> effective_visibility(current, input.struct_kind) == effective_visibility(
                    input.fields@[i - 1].visibility,
                    input.struct_kind,
                ),
                out@ == start + self.fields_upto(*input, *options, level as int, tw as nat, nw as nat, i as int),
            decreases input.fields@.len() - i,
        {
            let field_visibility = input.fields[i].visibility;
            let v = effective(field_visibility, input.struct_kind);
            let c = effective(current, input.struct_kind);
            let label: bool = v != c || (i == 0 && options.render_default_visibility);
            if label {
                current = field_visibility;
            }
            self.write_field_item(input, options, level, tw, nw, i, label, out);
            proof {
                reveal(CppBackend::fields_upto);
                lemma_assoc(
                    start,
                    self.fields_upto(*input, *options, level as int, tw as nat, nw as nat, i as int),
                    self.field_item_text(*input, *options, level as int, tw as nat, nw as nat, i as int),
                );
            }
            i = i + 1;
        }
    }

    fn write_method_item(&self, input: &CppStruct, options: &CppStructRenderOptions, level: i32, i: usize, label: bool, out: &mut String)
        requires
            i < input.methods@.len(),
            cpp_struct_fits(*input, *options, level as int),
            label == method_label_before(input.methods@, i as int, input.struct_kind, options.render_default_visibility),
        ensures
            final(out)@ == old(out)@ + self.method_item_text(*input, *options, level as int, i as int),
    {
        proof {
            reveal(CppBackend::method_item_text);
            reveal(only_if);
            reveal(opt_str);
        }
        let ghost start = out@;
        let method = &input.methods[i];
        if label {
            let v = effective(method.visibility, input.struct_kind);
            self.write_label(v, true, level, out);
        }
        let ghost mid = out@;
        assert(cpp_fn_fits(input.methods@[i as int], options.method_options, level + 1));
        let mut method_level: i32 = level + 1;
        self.render_function_to(method, None, None, Some(&options.method_options), &mut method_level, out);
        push_when(out, i != input.methods.len() - 1, self.new_line.as_str());
        assert(out@ =~= start + self.method_item_text(*input, *options, level as int, i as int));
    }

    fn write_methods(&self, input: &CppStruct, options: &CppStructRenderOptions, level: i32, out: &mut String)
        requires
            cpp_struct_fits(*input, *options, level as int),
        ensures
            final(out)@ == old(out)@ + self.methods_upto(*input, *options, level as int, input.methods@.len() as int),
    {
        let ghost start = out@;
        proof {
            reveal(CppBackend::methods_upto);
        }
        let mut current: CppVisibility = CppVisibility::Default;
        let mut i: usize = 0;
        while i < input.methods.len()
            invariant
                i <= input.methods@.len(),
                cpp_struct_fits(*input, *options, level as int),
                i == 0 ==> current == CppVisibility::Default,
                i > 0 ==> effective_visibility(current, input.struct_kind) == effective_visibility(
                    input.methods@[i - 1].visibility,
                    input.struct_kind,
                ),
                out@ == start + self.methods_upto(*input, *options, level as int, i as int),
            decreases input.methods@.len() - i,
        {
            let method_visibility = input.methods[i].visibility;
            let v = effective(method_visibility, input.struct_kind);
            let c = effective(current, input.struct_kind);
            let label: bool = v != c || (i == 0 && options.render_default_visibility);
            if label {
                current = method_visibility;
            }
            self.write_method_item(input, options, level, i, label, out);
            proof {
                reveal(CppBackend::methods_upto);
                lemma_assoc(
                    start,
                    self.methods_upto(*input, *options, level as int, i as int),
                    self.method_item_text(*input, *options, level as int, i as int),
                );
            }
            i = i + 1;
        }
    }

    fn write_struct_body(&self, input: &CppStruct, options: &CppStructRenderOptions, level: i32, out: &mut String)
        requires
            cpp_struct_fits(*input, *options, level as int),
        ensures
            final(out)@ == old(out)@ + self.fields_text(*input, *options, level as int) + self.methods_text(
                *input,
                *options,
                level as int,
            ),
    {
        proof {
            reveal(only_if);
        }
        let ghost start = out@;
        self.write_fields(input, options, level, out);
        if input.methods.len() > 0 {
            push_when(out, input.fields.len() > 0, self.new_line.as_str());
            self.write_methods(input, options, level, out);
        }
        assert(out@ =~= start + self.fields_text(*input, *options, level as int) + self.methods_text(
            *input,
            *options,
            level as int,
        ));
    }

    /// Render a struct, class or union with its fields and methods.
    #[verifier::rlimit(30)]
    pub fn render_struct_to(
        &self,
        input: &CppStruct,
        before: Option<&str>,
        after: Option<&str>,
        options: Option<&CppStructRenderOptions>,
        indent_level: &mut i32,
        out: &mut String,
    )
        requires
            cpp_struct_fits(*input, CppStructRenderOptions::or_default(options), *old(indent_level) as int),
        ensures
            final(out)@ == old(out)@ + self.struct_text(
                *input,
                CppStructRenderOptions::or_default(options),
                *old(indent_level) as int,
                opt_str(before),
                opt_str(after),
            ),
            *final(indent_level) == *old(indent_level),
    {
        let binding = CppStructRenderOptions::default();
        let options: &CppStructRenderOptions = match options {
            Some(o) => o,
            None => &binding,
        };
        let level = *indent_level;
        let ghost start = out@;
        push_opt_str(out, before);
        self.write_opt_docs(options.render_docs, &input.docs, level, out);
        self.write_struct_template(input, options, level, out);
        self.write_struct_head(input, level, out);
        self.write_brace_open(level, out);
        *indent_level = level + 1;
        self.write_struct_body(input, options, level, out);
        *indent_level = level;
        push_str(out, self.new_line.as_str());
        push_str(out, self.indent(level).as_str());
        push_str(out, "};");
        push_str(out, self.new_line.as_str());
        push_opt_str(out, after);
        assert(out@ =~= start + self.struct_text(*input, *options, level as int, opt_str(before), opt_str(after)));
    }

    /// Render a struct, class or union to a string.
    pub fn render_struct(
        &self,
        input: &CppStruct,
        before: Option<&str>,
        after: Option<&str>,
        options: Option<&CppStructRenderOptions>,
        indent_level: &mut i32,
    ) -> (r: String)
        requires
            cpp_struct_fits(*input, CppStructRenderOptions::or_default(options), *old(indent_level) as int),
        ensures
            r@ == self.struct_text(
                *input,
                CppStructRenderOptions::or_default(options),
                *old(indent_level) as int,
                opt_str(before),
                opt_str(after),
            ),
            *final(indent_level) == *old(indent_level),
    {
        let mut out = String::new();
        self.render_struct_to(input, before, after, options, indent_level, &mut out);
        assert(out@ =~= self.struct_text(
            *input,
            CppStructRenderOptions::or_default(options),
            *old(indent_level) as int,
            opt_str(before),
            opt_str(after),
        ));
        out
    }
}


/// Whether rendering the namespace at `level` stays within the range of `i32`: its items are
/// one level deeper.
pub open spec fn cpp_namespace_fits(n: CppNamespace, o: CppNamespaceRenderOptions, level: int) -> bool
    decreases n,
{
    &&& level < i32::MAX
    &&& (n.enums matches Some(es) && es@.len() > 0 ==> level + 1 < i32::MAX)
    &&& (n.structs matches Some(ss) ==> forall|i: int|
        0 <= i < ss@.len() ==> cpp_struct_fits(#[trigger] ss@[i], o.struct_options, level + 1))
    &&& (n.functions matches Some(fs) ==> forall|i: int|
        0 <= i < fs@.len() ==> cpp_fn_fits(#[trigger] fs@[i], o.function_options, level + 1))
    &&& (n.namespaces matches Some(ns) ==> forall|i: int|
        0 <= i < ns@.len() ==> cpp_namespace_fits(#[trigger] ns@[i], o, level + 1))
}

impl CppBackend {
    /// The defines, each rendered at `level`.
    pub open spec fn define_blocks(self, items: Option<Vec<CppDefinition>>, o: CppDefinitionRenderOptions, level: int) -> Seq<Seq<char>> {
        match items {
            Some(xs) => Seq::new(
                xs@.len(),
                |i: int| self.definition_text(xs@[i], o, level, Seq::empty(), Seq::empty()),
            ),
            None => Seq::empty(),
        }
    }

    /// The constants, each rendered at `level`.
    pub open spec fn constant_blocks(self, items: Option<Vec<CppConstant>>, o: CppConstantRenderOptions, level: int) -> Seq<Seq<char>> {
        match items {
            Some(xs) => Seq::new(xs@.len(), |i: int| self.constant_text(xs@[i], o, level)),
            None => Seq::empty(),
        }
    }

    /// The enums, each rendered at `level`.
    pub open spec fn enum_blocks(
        self,
        items: Option<Vec<CppEnum>>,
        o: CppEnumRenderOptions,
        vo: CppEnumVariantRenderOptions,
        level: int,
    ) -> Seq<Seq<char>> {
        match items {
            Some(xs) => Seq::new(xs@.len(), |i: int| self.enum_text(xs@[i], o, vo, level, Seq::empty(), Seq::empty())),
            None => Seq::empty(),
        }
    }

    /// The structs, each rendered at `level`.
    pub open spec fn struct_blocks(self, items: Option<Vec<CppStruct>>, o: CppStructRenderOptions, level: int) -> Seq<Seq<char>> {
        match items {
            Some(xs) => Seq::new(xs@.len(), |i: int| self.struct_text(xs@[i], o, level, Seq::empty(), Seq::empty())),
            None => Seq::empty(),
        }
    }

    /// The functions, each rendered at `level`.
    pub open spec fn function_blocks(self, items: Option<Vec<CppFunction>>, o: CppFunctionRenderOptions, level: int) -> Seq<Seq<char>> {
        match items {
            Some(xs) => Seq::new(
                xs@.len(),
                |i: int| self.function_text(xs@[i], o, level, Seq::empty(), Seq::empty()),
            ),
            None => Seq::empty(),
        }
    }

    /// The blocks of a namespace's body, each rendered at `level`: defines, constants, enums,
    /// structs, functions, then nested namespaces.
    pub open spec fn namespace_blocks(self, n: CppNamespace, o: CppNamespaceRenderOptions, level: int) -> Seq<Seq<char>>
        decreases n, 1int,
    {
        self.define_blocks(n.defines, o.define_options, level) + self.constant_blocks(n.constants, o.constant_options, level)
            + self.enum_blocks(n.enums, o.enum_options, o.enum_variant_options, level) + self.struct_blocks(
            n.structs,
            o.struct_options,
            level,
        ) + self.function_blocks(n.functions, o.function_options, level) + self.sub_namespace_blocks(n, o, level)
    }

    /// The nested namespaces, each rendered at `level`.
    pub open spec fn sub_namespace_blocks(self, n: CppNamespace, o: CppNamespaceRenderOptions, level: int) -> Seq<Seq<char>>
        decreases n, 0int,
    {
        match n.namespaces {
            Some(ns) => self.namespaces_texts(ns@, o, level),
            None => Seq::empty(),
        }
    }

    /// Each namespace of `ns` rendered at `level`.
    pub open spec fn namespaces_texts(self, ns: Seq<CppNamespace>, o: CppNamespaceRenderOptions, level: int) -> Seq<Seq<char>>
        decreases ns, 0int,
    {
        if ns.len() == 0 {
            Seq::empty()
        } else {
            self.namespaces_texts(ns.drop_last(), o, level).push(self.namespace_core_text(ns.last(), o, level))
        }
    }

    /// `namespace name {`, the blocks of the body one level deeper (without their trailing line
    /// endings, separated by blank lines), `}`.
    pub open spec fn namespace_core_text(self, n: CppNamespace, o: CppNamespaceRenderOptions, level: int) -> Seq<char>
        decreases n, 2int,
    {
        self.ind(level) + "namespace "@ + n.name@ + self.brace_open_text(level) + joined_body(
            trim_blocks(self.namespace_blocks(n, o, level + 1), self.nl()),
            self.nl(),
        ) + self.ind(level) + "}"@ + self.nl()
    }

    /// A namespace with `before` and `after` around it.
    pub open spec fn namespace_text(
        self,
        n: CppNamespace,
        o: CppNamespaceRenderOptions,
        level: int,
        before: Seq<char>,
        after: Seq<char>,
    ) -> Seq<char> {
        before + self.namespace_core_text(n, o, level) + after
    }

    fn push_define_blocks(
        &self,
        items: &Option<Vec<CppDefinition>>,
        options: &CppDefinitionRenderOptions,
        level: i32,
        blocks: &mut Vec<String>,
    )
        ensures
            texts(final(blocks)@) == texts(old(blocks)@) + trim_blocks(self.define_blocks(*items, *options, level as int), self.nl()),
    {
        let ghost b0 = texts(blocks@);
        if let Some(xs) = items {
            let ghost all = Seq::new(
                xs@.len(),
                |i: int| self.definition_text(xs@[i], *options, level as int, Seq::empty(), Seq::empty()),
            );
            assert(b0 =~= b0 + trim_blocks(all.take(0), self.nl()));
            let mut i: usize = 0;
            while i < xs.len()
                invariant
                    i <= xs@.len(),
                    all == Seq::new(
                        xs@.len(),
                        |i: int| self.definition_text(xs@[i], *options, level as int, Seq::empty(), Seq::empty()),
                    ),
                    texts(blocks@) == b0 + trim_blocks(all.take(i as int), self.nl()),
                decreases xs@.len() - i,
            {
                let mut lvl = level;
                let r = self.render_definition(&xs[i], None, None, Some(options), &mut lvl);
                proof {
                    reveal(opt_str);
                    assert(r@ =~= all[i as int]);
                }
                push_trimmed(blocks, r, self.new_line.as_str());
                assert(texts(blocks@) =~= b0 + trim_blocks(all.take(i + 1), self.nl()));
                i = i + 1;
            }
            assert(all.take(i as int) =~= all);
        } else {
            assert(b0 =~= b0 + trim_blocks(Seq::empty(), self.nl()));
        }
    }

    fn push_constant_blocks(
        &self,
        items: &Option<Vec<CppConstant>>,
        options: &CppConstantRenderOptions,
        level: i32,
        blocks: &mut Vec<String>,
    )
        ensures
            texts(final(blocks)@) == texts(old(blocks)@) + trim_blocks(self.constant_blocks(*items, *options, level as int), self.nl()),
    {
        let ghost b0 = texts(blocks@);
        if let Some(xs) = items {
            let ghost all = Seq::new(xs@.len(), |i: int| self.constant_text(xs@[i], *options, level as int));
            assert(b0 =~= b0 + trim_blocks(all.take(0), self.nl()));
            let mut i: usize = 0;
            while i < xs.len()
                invariant
                    i <= xs@.len(),
                    all == Seq::new(xs@.len(), |i: int| self.constant_text(xs@[i], *options, level as int)),
                    texts(blocks@) == b0 + trim_blocks(all.take(i as int), self.nl()),
                decreases xs@.len() - i,
            {
                let mut lvl = level;
                let r = self.render_constant(&xs[i], None, None, Some(options), &mut lvl);
                proof {
                    assert(r@ =~= all[i as int]);
                }
                push_trimmed(blocks, r, self.new_line.as_str());
                assert(texts(blocks@) =~= b0 + trim_blocks(all.take(i + 1), self.nl()));
                i = i + 1;
            }
            assert(all.take(i as int) =~= all);
        } else {
            assert(b0 =~= b0 + trim_blocks(Seq::empty(), self.nl()));
        }
    }

    fn push_enum_blocks(
        &self,
        items: &Option<Vec<CppEnum>>,
        options: &CppEnumRenderOptions,
        variant_options: &CppEnumVariantRenderOptions,
        level: i32,
        blocks: &mut Vec<String>,
    )
        requires
            items matches Some(es) && es@.len() > 0 ==> level < i32::MAX,
        ensures
            texts(final(blocks)@) == texts(old(blocks)@) + trim_blocks(
                self.enum_blocks(*items, *options, *variant_options, level as int),
                self.nl(),
            ),
    {
        let ghost b0 = texts(blocks@);
        if let Some(xs) = items {
            let ghost all = Seq::new(
                xs@.len(),
                |i: int| self.enum_text(xs@[i], *options, *variant_options, level as int, Seq::empty(), Seq::empty()),
            );
            assert(b0 =~= b0 + trim_blocks(all.take(0), self.nl()));
            let mut i: usize = 0;
            while i < xs.len()
                invariant
                    i <= xs@.len(),
                    xs@.len() > 0 ==> level < i32::MAX,
                    all == Seq::new(
                        xs@.len(),
                        |i: int| self.enum_text(xs@[i], *options, *variant_options, level as int, Seq::empty(), Seq::empty()),
                    ),
                    texts(blocks@) == b0 + trim_blocks(all.take(i as int), self.nl()),
                decreases xs@.len() - i,
            {
                let mut lvl = level;
                let r = self.render_enum(&xs[i], None, None, Some(options), Some(variant_options), &mut lvl);
                proof {
                    reveal(opt_str);
                    assert(r@ =~= all[i as int]);
                }
                push_trimmed(blocks, r, self.new_line.as_str());
                assert(texts(blocks@) =~= b0 + trim_blocks(all.take(i + 1), self.nl()));
                i = i + 1;
            }
            assert(all.take(i as int) =~= all);
        } else {
            assert(b0 =~= b0 + trim_blocks(Seq::empty(), self.nl()));
        }
    }

    fn push_struct_blocks(
        &self,
        items: &Option<Vec<CppStruct>>,
        options: &CppStructRenderOptions,
        level: i32,
        blocks: &mut Vec<String>,
    )
        requires
            items matches Some(ss) ==> forall|i: int|
                0 <= i < ss@.len() ==> cpp_struct_fits(#[trigger] ss@[i], *options, level as int),
        ensures
            texts(final(blocks)@) == texts(old(blocks)@) + trim_blocks(self.struct_blocks(*items, *options, level as int), self.nl()),
    {
        let ghost b0 = texts(blocks@);
        if let Some(xs) = items {
            let ghost all = Seq::new(
                xs@.len(),
                |i: int| self.struct_text(xs@[i], *options, level as int, Seq::empty(), Seq::empty()),
            );
            assert(b0 =~= b0 + trim_blocks(all.take(0), self.nl()));
            let mut i: usize = 0;
            while i < xs.len()
                invariant
                    i <= xs@.len(),
                    forall|i: int| 0 <= i < xs@.len() ==> cpp_struct_fits(#[trigger] xs@[i], *options, level as int),
                    all == Seq::new(
                        xs@.len(),
                        |i: int| self.struct_text(xs@[i], *options, level as int, Seq::empty(), Seq::empty()),
                    ),
                    texts(blocks@) == b0 + trim_blocks(all.take(i as int), self.nl()),
                decreases xs@.len() - i,
            {
                let mut lvl = level;
                assert(cpp_struct_fits(xs@[i as int], *options, level as int));
                let r = self.render_struct(&xs[i], None, None, Some(options), &mut lvl);
                proof {
                    reveal(opt_str);
                    assert(r@ =~= all[i as int]);
                }
                push_trimmed(blocks, r, self.new_line.as_str());
                assert(texts(blocks@) =~= b0 + trim_blocks(all.take(i + 1), self.nl()));
                i = i + 1;
            }
            assert(all.take(i as int) =~= all);
        } else {
            assert(b0 =~= b0 + trim_blocks(Seq::empty(), self.nl()));
        }
    }

    fn push_function_blocks(
        &self,
        items: &Option<Vec<CppFunction>>,
        options: &CppFunctionRenderOptions,
        level: i32,
        blocks: &mut Vec<String>,
    )
        requires
            items matches Some(fs) ==> forall|i: int|
                0 <= i < fs@.len() ==> cpp_fn_fits(#[trigger] fs@[i], *options, level as int),
        ensures
            texts(final(blocks)@) == texts(old(blocks)@) + trim_blocks(self.function_blocks(*items, *options, level as int), self.nl()),
    {
        let ghost b0 = texts(blocks@);
        if let Some(xs) = items {
            let ghost all = Seq::new(
                xs@.len(),
                |i: int| self.function_text(xs@[i], *options, level as int, Seq::empty(), Seq::empty()),
            );
            assert(b0 =~= b0 + trim_blocks(all.take(0), self.nl()));
            let mut i: usize = 0;
            while i < xs.len()
                invariant
                    i <= xs@.len(),
                    forall|i: int| 0 <= i < xs@.len() ==> cpp_fn_fits(#[trigger] xs@[i], *options, level as int),
                    all == Seq::new(
                        xs@.len(),
                        |i: int| self.function_text(xs@[i], *options, level as int, Seq::empty(), Seq::empty()),
                    ),
                    texts(blocks@) == b0 + trim_blocks(all.take(i as int), self.nl()),
                decreases xs@.len() - i,
            {
                let mut lvl = level;
                assert(cpp_fn_fits(xs@[i as int], *options, level as int));
                let r = self.render_function(&xs[i], None, None, Some(options), &mut lvl);
                proof {
                    reveal(opt_str);
                    assert(r@ =~= all[i as int]);
                }
                push_trimmed(blocks, r, self.new_line.as_str());
                assert(texts(blocks@) =~= b0 + trim_blocks(all.take(i + 1), self.nl()));
                i = i + 1;
            }
            assert(all.take(i as int) =~= all);
        } else {
            assert(b0 =~= b0 + trim_blocks(Seq::empty(), self.nl()));
        }
    }

    fn push_namespace_blocks(
        &self,
        parent: &CppNamespace,
        options: &CppNamespaceRenderOptions,
        level: i32,
        blocks: &mut Vec<String>,
    )
        requires
            parent.namespaces matches Some(ns) ==> forall|i: int|
                0 <= i < ns@.len() ==> cpp_namespace_fits(#[trigger] ns@[i], *options, level as int),
        ensures
            texts(final(blocks)@) == texts(old(blocks)@) + trim_blocks(
                self.sub_namespace_blocks(*parent, *options, level as int),
                self.nl(),
            ),
        decreases *parent, 0int,
    {
        let ghost b0 = texts(blocks@);
        if let Some(xs) = &parent.namespaces {
            proof {
                reveal_with_fuel(CppBackend::namespaces_texts, 1);
                assert(xs@.take(0) =~= Seq::<CppNamespace>::empty());
            }
            assert(b0 =~= b0 + trim_blocks(self.namespaces_texts(xs@.take(0), *options, level as int), self.nl()));
            let mut i: usize = 0;
            while i < xs.len()
                invariant
                    i <= xs@.len(),
                    parent.namespaces == Some(*xs),
                    forall|i: int| 0 <= i < xs@.len() ==> cpp_namespace_fits(#[trigger] xs@[i], *options, level as int),
                    texts(blocks@) == b0 + trim_blocks(
                        self.namespaces_texts(xs@.take(i as int), *options, level as int),
                        self.nl(),
                    ),
                decreases xs@.len() - i,
            {
                let mut lvl = level;
                assert(cpp_namespace_fits(xs@[i as int], *options, level as int));
                assert(decreases_to!(*parent => xs@[i as int])) by {
                    assert(decreases_to!(*parent => parent.namespaces));
                    assert(decreases_to!(parent.namespaces => parent.namespaces->0));
                    assert(decreases_to!(parent.namespaces->0 => parent.namespaces->0@));
                    assert(decreases_to!(parent.namespaces->0@ => parent.namespaces->0@[i as int]));
                }
                let r = self.render_namespace(&xs[i], None, None, Some(options), &mut lvl);
                proof {
                    reveal(opt_str);
                    assert(r@ =~= self.namespace_core_text(xs@[i as int], *options, level as int));
                    assert(xs@.take(i + 1).drop_last() =~= xs@.take(i as int));
                }
                push_trimmed(blocks, r, self.new_line.as_str());
                assert(texts(blocks@) =~= b0 + trim_blocks(
                    self.namespaces_texts(xs@.take(i + 1), *options, level as int),
                    self.nl(),
                ));
                i = i + 1;
            }
            assert(xs@.take(i as int) =~= xs@);
        } else {
            assert(b0 =~= b0 + trim_blocks(Seq::empty(), self.nl()));
        }
    }

    fn namespace_body(&self, input: &CppNamespace, options: &CppNamespaceRenderOptions, body_level: i32) -> (r: String)
        requires
            body_level > i32::MIN,
            cpp_namespace_fits(*input, *options, body_level - 1),
        ensures
            r@ == joined_body(trim_blocks(self.namespace_blocks(*input, *options, body_level as int), self.nl()), self.nl()),
        decreases *input, 1int,
    {
        let mut blocks: Vec<String> = Vec::new();
        let ghost o = *options;
        let ghost nl = self.nl();
        proof {
            assert(texts(blocks@) =~= Seq::<Seq<char>>::empty());
        }
        let ghost l = body_level as int;
        let ghost b1 = self.define_blocks(input.defines, o.define_options, l);
        let ghost b2 = self.constant_blocks(input.constants, o.constant_options, l);
        let ghost b3 = self.enum_blocks(input.enums, o.enum_options, o.enum_variant_options, l);
        let ghost b4 = self.struct_blocks(input.structs, o.struct_options, l);
        let ghost b5 = self.function_blocks(input.functions, o.function_options, l);
        let ghost b6 = self.sub_namespace_blocks(*input, o, l);
        self.push_define_blocks(&input.defines, &options.define_options, body_level, &mut blocks);
        self.push_constant_blocks(&input.constants, &options.constant_options, body_level, &mut blocks);
        self.push_enum_blocks(&input.enums, &options.enum_options, &options.enum_variant_options, body_level, &mut blocks);
        self.push_struct_blocks(&input.structs, &options.struct_options, body_level, &mut blocks);
        self.push_function_blocks(&input.functions, &options.function_options, body_level, &mut blocks);
        self.push_namespace_blocks(input, options, body_level, &mut blocks);
        proof {
            lemma_trim_six_groups(b1, b2, b3, b4, b5, b6, nl);
            assert(self.namespace_blocks(*input, o, l) == b1 + b2 + b3 + b4 + b5 + b6);
            assert(texts(blocks@) =~= trim_blocks(b1 + b2 + b3 + b4 + b5 + b6, nl));
        }
        join_body(&blocks, self.new_line.as_str())
    }

    /// Render a namespace: `namespace name {`, its items separated by blank lines, `}`.
    pub fn render_namespace_to(
        &self,
        input: &CppNamespace,
        before: Option<&str>,
        after: Option<&str>,
        options: Option<&CppNamespaceRenderOptions>,
        indent_level: &mut i32,
        out: &mut String,
    )
        requires
            cpp_namespace_fits(*input, CppNamespaceRenderOptions::or_default(options), *old(indent_level) as int),
        ensures
            final(out)@ == old(out)@ + self.namespace_text(
                *input,
                CppNamespaceRenderOptions::or_default(options),
                *old(indent_level) as int,
                opt_str(before),
                opt_str(after),
            ),
            *final(indent_level) == *old(indent_level),
        decreases *input, 3int,
    {
        let binding = CppNamespaceRenderOptions::default();
        let options: &CppNamespaceRenderOptions = match options {
            Some(o) => o,
            None => &binding,
        };
        let level = *indent_level;
        let ghost start = out@;
        push_opt_str(out, before);
        *indent_level = level + 1;
        self.write_namespace_core(input, options, level, out);
        *indent_level = level;
        push_opt_str(out, after);
        assert(out@ =~= start + self.namespace_text(*input, *options, level as int, opt_str(before), opt_str(after)));
    }

    #[verifier::rlimit(30)]
    fn write_namespace_core(&self, input: &CppNamespace, options: &CppNamespaceRenderOptions, level: i32, out: &mut String)
        requires
            cpp_namespace_fits(*input, *options, level as int),
        ensures
            final(out)@ == old(out)@ + self.namespace_core_text(*input, *options, level as int),
        decreases *input, 2int,
    {
        let ghost start = out@;
        push_str(out, self.indent(level).as_str());
        push_str(out, "namespace ");
        push_str(out, input.name.as_str());
        self.write_brace_open(level, out);
        let body = self.namespace_body(input, options, level + 1);
        push_str(out, body.as_str());
        push_str(out, self.indent(level).as_str());
        push_str(out, "}");
        push_str(out, self.new_line.as_str());
        assert(out@ =~= start + self.namespace_core_text(*input, *options, level as int));
    }

    /// Render a namespace to a string.
    pub fn render_namespace(
        &self,
        input: &CppNamespace,
        before: Option<&str>,
        after: Option<&str>,
        options: Option<&CppNamespaceRenderOptions>,
        indent_level: &mut i32,
    ) -> (r: String)
        requires
            cpp_namespace_fits(*input, CppNamespaceRenderOptions::or_default(options), *old(indent_level) as int),
        ensures
            r@ == self.namespace_text(
                *input,
                CppNamespaceRenderOptions::or_default(options),
                *old(indent_level) as int,
                opt_str(before),
                opt_str(after),
            ),
            *final(indent_level) == *old(indent_level),
        decreases *input, 4int,
    {
        let mut out = String::new();
        self.render_namespace_to(input, before, after, options, indent_level, &mut out);
        assert(out@ =~= self.namespace_text(
            *input,
            CppNamespaceRenderOptions::or_default(options),
            *old(indent_level) as int,
            opt_str(before),
            opt_str(after),
        ));
        out
    }
}


/// A base written without an access specifier inherits as C++ itself does: privately into a
/// class, publicly into a struct or a union.
pub proof fn default_base_access_follows_kind(b: CppBase, kind: CppStructKind)
    requires
        b.visibility == CppVisibility::Default,
    ensures
        CppBackend::base_text(b, kind) == (if kind == CppStructKind::Class {
            "private"@
        } else {
            "public"@
        }) + " "@ + b.name@,
{
}

/// `friend`, `static`, `virtual` and `inline` are written only on declarations: in a definition
/// the specifiers are `extern "C"` and the configured `inline`, whatever the function says.
pub proof fn definition_repeats_no_declaration_specifiers(f: CppFunction, o: CppFunctionRenderOptions)
    requires
        o.render_definition,
    ensures
        CppBackend::fn_modifiers_text(f, o) == only_if(f.is_extern_c, "extern \"C\" "@) + only_if(
            o.inline_definition,
            "inline "@,
        ),
{
    reveal(CppBackend::fn_modifiers_text);
}

/// With aligned values, every variant whose name is ASCII (one byte per character) is padded
/// to the width of the longest name, so the values line up.
pub proof fn aligned_variant_names_share_width(vs: Seq<CppEnumVariant>, i: int)
    requires
        0 <= i < vs.len(),
        byte_len(vs[i].name@) == vs[i].name@.len(),
    ensures
        CppBackend::variant_name_text(vs[i], true, max_variant_name_len(vs)).len() == max_variant_name_len(vs),
{
    CppBackend::lemma_max_name_len(vs, i);
}

/// A field's effective access is never the unwritten default, and a field written without one
/// gets the default of its aggregate: public in a struct, private in a class or a union.
pub proof fn effective_visibility_is_explicit(v: CppVisibility, kind: CppStructKind)
    ensures
        effective_visibility(v, kind) != CppVisibility::Default,
        v == CppVisibility::Default ==> effective_visibility(v, kind) == (if kind == CppStructKind::Struct {
            CppVisibility::Public
        } else {
            CppVisibility::Private
        }),
        v != CppVisibility::Default ==> effective_visibility(v, kind) == v,
{
}

/// A function's text (between `before` and `after`) ends with `;` exactly when no body is
/// written, and with the closing `}` of its body otherwise.
pub proof fn function_ends_with_semicolon_or_brace(
    b: CppBackend,
    f: CppFunction,
    o: CppFunctionRenderOptions,
    level: int,
    before: Seq<char>,
    after: Seq<char>,
)
    ensures
        b.function_text(f, o, level, before, after) == b.function_text(f, o, level, before, Seq::empty()) + after,
        b.function_text(f, o, level, before, Seq::empty()).len() > 0,
        b.function_text(f, o, level, before, Seq::empty()).last() == if fn_skips_body(f, o) {
            ';'
        } else {
            '}'
        },
{
    reveal(CppBackend::fn_end_text);
    reveal_strlit(";");
    reveal_strlit("}");
    let t = b.function_text(f, o, level, before, Seq::empty());
    let pre = before + b.fn_docs_text(f, o, level) + b.ind(level) + b.fn_template_text(f, o, level)
        + CppBackend::fn_modifiers_text(f, o) + CppBackend::fn_name_text(f, o) + CppBackend::fn_params_text(f)
        + CppBackend::fn_qualifiers_text(f);
    let e = b.fn_end_text(f, o, level);
    assert(t =~= pre + e);
    assert(b.function_text(f, o, level, before, after) =~= t + after);
    if fn_skips_body(f, o) {
        assert(e =~= seq![';']);
    } else {
        assert(e.last() == '}');
    }
    assert(t.last() == e.last());
}

/// Every parameter of a C++ function is written as `type name`, followed by ` = default`
/// exactly when it has a default value, then by `, ` or, after the last one, by `)`.
pub proof fn function_writes_each_parameter(
    b: CppBackend,
    f: CppFunction,
    o: CppFunctionRenderOptions,
    level: int,
    before: Seq<char>,
    after: Seq<char>,
    i: int,
)
    requires
        0 <= i < f.parameters@.len(),
    ensures
        ({
            let p = f.parameters@[i];
            let follow = if i + 1 < f.parameters@.len() { ", "@ } else { ")"@ };
            let text = b.function_text(f, o, level, before, after);
            &&& p.default_value matches Some(d) ==> occurs_in(p.param_type@ + " "@ + p.name@ + " = "@ + d@ + follow, text)
            &&& p.default_value is None ==> occurs_in(p.param_type@ + " "@ + p.name@ + follow, text)
        }),
{
    reveal(CppBackend::fn_params_text);
    reveal(opt_wrap);
    reveal_strlit("");
    let p = f.parameters@[i];
    let items = Seq::new(f.parameters@.len(), |k: int| CppBackend::param_text(f.parameters@[k]));
    let follow = if i + 1 < f.parameters@.len() { ", "@ } else { ")"@ };
    lemma_join_occurs(items, ", "@, ")"@, i);
    let pre = before + b.fn_docs_text(f, o, level) + b.ind(level) + b.fn_template_text(f, o, level)
        + CppBackend::fn_modifiers_text(f, o) + CppBackend::fn_name_text(f, o) + "("@;
    let post = CppBackend::fn_qualifiers_text(f) + b.fn_end_text(f, o, level) + after;
    lemma_occurs_widen(pre, join(items, ", "@) + ")"@, post, items[i] + follow);
    assert(pre + (join(items, ", "@) + ")"@) + post =~= b.function_text(f, o, level, before, after));
    match p.default_value {
        Some(d) => {
            assert(items[i] + follow =~= p.param_type@ + " "@ + p.name@ + " = "@ + d@ + follow);
        },
        None => {
            assert(items[i] + follow =~= p.param_type@ + " "@ + p.name@ + follow);
        },
    }
}

/// Every constant of a C++ namespace is written in the namespace's body, as its type, name and
/// value: `type name = value;`.
pub proof fn namespace_writes_each_constant(
    b: CppBackend,
    n: CppNamespace,
    o: CppNamespaceRenderOptions,
    level: int,
    before: Seq<char>,
    after: Seq<char>,
    k: int,
)
    requires
        n.constants matches Some(cs) && 0 <= k < cs@.len(),
    ensures
        ({
            let c = n.constants->0@[k];
            occurs_in(c.data_type@ + " "@ + c.name@ + " = "@ + c.value@ + ";"@, b.namespace_text(n, o, level, before, after))
        }),
{
    reveal(joined_body);
    reveal_strlit(";");
    let c = n.constants->0@[k];
    let target = c.data_type@ + " "@ + c.name@ + " = "@ + c.value@ + ";"@;
    let nl = b.nl();
    let l = level + 1;
    let co = o.constant_options;
    let d = b.define_blocks(n.defines, o.define_options, l);
    let blocks = b.namespace_blocks(n, o, l);
    let j = d.len() + k;
    assert(blocks[j] == b.constant_text(c, co, l));
    let head = b.opt_docs_text(co.render_docs, c.docs, l) + b.constant_label_text(c) + b.ind(l) + only_if(
        co.use_inline,
        "inline "@,
    ) + (if co.use_constexpr { "constexpr"@ } else { "const"@ }) + " "@;
    let line = head + target;
    assert(b.constant_text(c, co, l) =~= line + nl);
    assert(line.last() == ';');
    assert(nl.last() == '\n');
    lemma_trim_end_once(line, nl);
    let pieces = trim_blocks(blocks, nl);
    assert(pieces[j] == line);
    let sep = nl + nl;
    let body = join(pieces, sep);
    lemma_join_occurs(pieces, sep, nl, j);
    let follow = if j + 1 < pieces.len() { sep } else { nl };
    lemma_occurs_shorten(line, follow, body + nl);
    assert(body.len() > 0);
    assert(joined_body(pieces, nl) == body + nl) by {
        reveal(only_if);
    }
    lemma_occurs_between(head, target, Seq::empty());
    assert(head + target + Seq::<char>::empty() =~= line);
    let core_pre = b.ind(level) + "namespace "@ + n.name@ + b.brace_open_text(level);
    let core_post = b.ind(level) + "}"@ + nl;
    lemma_occurs_widen(core_pre, body + nl, core_post, line);
    assert(core_pre + (body + nl) + core_post =~= b.namespace_core_text(n, o, level));
    lemma_occurs_widen(before, b.namespace_core_text(n, o, level), after, line);
    lemma_occurs_in_part(target, line, before + b.namespace_core_text(n, o, level) + after);
}

/// Each block of a namespace's body, without its trailing line endings, is written in the
/// namespace's text.
proof fn namespace_writes_each_block(
    b: CppBackend,
    n: CppNamespace,
    o: CppNamespaceRenderOptions,
    level: int,
    before: Seq<char>,
    after: Seq<char>,
    j: int,
)
    requires
        0 <= j < b.namespace_blocks(n, o, level + 1).len(),
    ensures
        occurs_in(trim_end(b.namespace_blocks(n, o, level + 1)[j], b.nl()), b.namespace_text(n, o, level, before, after)),
{
    reveal(joined_body);
    let nl = b.nl();
    let blocks = b.namespace_blocks(n, o, level + 1);
    let pieces = trim_blocks(blocks, nl);
    let piece = pieces[j];
    let text = b.namespace_text(n, o, level, before, after);
    if piece.len() == 0 {
        lemma_occurs_empty(text);
        assert(piece =~= Seq::<char>::empty());
    } else {
        let sep = nl + nl;
        let body = join(pieces, sep);
        lemma_join_occurs(pieces, sep, nl, j);
        let follow = if j + 1 < pieces.len() { sep } else { nl };
        lemma_occurs_shorten(piece, follow, body + nl);
        assert(joined_body(pieces, nl) == body + nl) by {
            reveal(only_if);
        }
        let core_pre = b.ind(level) + "namespace "@ + n.name@ + b.brace_open_text(level);
        let core_post = b.ind(level) + "}"@ + nl;
        lemma_occurs_widen(core_pre, body + nl, core_post, piece);
        assert(core_pre + (body + nl) + core_post =~= b.namespace_core_text(n, o, level));
        lemma_occurs_widen(before, b.namespace_core_text(n, o, level), after, piece);
    }
}

/// Nothing of a namespace is lost: each of its defines, constants, enums, structs, functions
/// and nested namespaces, as rendered on its own one level deeper (without its trailing line
/// endings), is written in the namespace's text.
pub proof fn namespace_writes_each_member(
    b: CppBackend,
    n: CppNamespace,
    o: CppNamespaceRenderOptions,
    level: int,
    before: Seq<char>,
    after: Seq<char>,
)
    ensures
        ({
            let text = b.namespace_text(n, o, level, before, after);
            let l = level + 1;
            let nl = b.nl();
            &&& forall|k: int| #![trigger opt_seq(n.defines)[k]] 0 <= k < opt_seq(n.defines).len() ==> occurs_in(
                trim_end(b.definition_text(opt_seq(n.defines)[k], o.define_options, l, Seq::empty(), Seq::empty()), nl),
                text,
            )
            &&& forall|k: int| #![trigger opt_seq(n.constants)[k]] 0 <= k < opt_seq(n.constants).len() ==> occurs_in(
                trim_end(b.constant_text(opt_seq(n.constants)[k], o.constant_options, l), nl),
                text,
            )
            &&& forall|k: int| #![trigger opt_seq(n.enums)[k]] 0 <= k < opt_seq(n.enums).len() ==> occurs_in(
                trim_end(
                    b.enum_text(opt_seq(n.enums)[k], o.enum_options, o.enum_variant_options, l, Seq::empty(), Seq::empty()),
                    nl,
                ),
                text,
            )
            &&& forall|k: int| #![trigger opt_seq(n.structs)[k]] 0 <= k < opt_seq(n.structs).len() ==> occurs_in(
                trim_end(b.struct_text(opt_seq(n.structs)[k], o.struct_options, l, Seq::empty(), Seq::empty()), nl),
                text,
            )
            &&& forall|k: int| #![trigger opt_seq(n.functions)[k]] 0 <= k < opt_seq(n.functions).len() ==> occurs_in(
                trim_end(b.function_text(opt_seq(n.functions)[k], o.function_options, l, Seq::empty(), Seq::empty()), nl),
                text,
            )
            &&& forall|k: int| #![trigger opt_seq(n.namespaces)[k]] 0 <= k < opt_seq(n.namespaces).len() ==> occurs_in(
                trim_end(b.namespace_core_text(opt_seq(n.namespaces)[k], o, l), nl),
                text,
            )
        }),
{
    let l = level + 1;
    let d = b.define_blocks(n.defines, o.define_options, l);
    let c = b.constant_blocks(n.constants, o.constant_options, l);
    let e = b.enum_blocks(n.enums, o.enum_options, o.enum_variant_options, l);
    let s = b.struct_blocks(n.structs, o.struct_options, l);
    let f = b.function_blocks(n.functions, o.function_options, l);
    let ns = b.sub_namespace_blocks(n, o, l);
    let blocks = b.namespace_blocks(n, o, l);
    assert(blocks == d + c + e + s + f + ns);
    assert forall|k: int| 0 <= k < opt_seq(n.defines).len() implies occurs_in(
        trim_end(b.definition_text(#[trigger] opt_seq(n.defines)[k], o.define_options, l, Seq::empty(), Seq::empty()), b.nl()),
        b.namespace_text(n, o, level, before, after),
    ) by {
        assert(blocks[k] == d[k]);
        namespace_writes_each_block(b, n, o, level, before, after, k);
    }
    assert forall|k: int| 0 <= k < opt_seq(n.constants).len() implies occurs_in(
        trim_end(b.constant_text(#[trigger] opt_seq(n.constants)[k], o.constant_options, l), b.nl()),
        b.namespace_text(n, o, level, before, after),
    ) by {
        assert(blocks[d.len() + k] == c[k]);
        namespace_writes_each_block(b, n, o, level, before, after, d.len() + k);
    }
    assert forall|k: int| 0 <= k < opt_seq(n.enums).len() implies occurs_in(
        trim_end(
            b.enum_text(#[trigger] opt_seq(n.enums)[k], o.enum_options, o.enum_variant_options, l, Seq::empty(), Seq::empty()),
            b.nl(),
        ),
        b.namespace_text(n, o, level, before, after),
    ) by {
        assert(blocks[d.len() + c.len() + k] == e[k]);
        namespace_writes_each_block(b, n, o, level, before, after, d.len() + c.len() + k);
    }
    assert forall|k: int| 0 <= k < opt_seq(n.structs).len() implies occurs_in(
        trim_end(b.struct_text(#[trigger] opt_seq(n.structs)[k], o.struct_options, l, Seq::empty(), Seq::empty()), b.nl()),
        b.namespace_text(n, o, level, before, after),
    ) by {
        assert(blocks[d.len() + c.len() + e.len() + k] == s[k]);
        namespace_writes_each_block(b, n, o, level, before, after, d.len() + c.len() + e.len() + k);
    }
    assert forall|k: int| 0 <= k < opt_seq(n.functions).len() implies occurs_in(
        trim_end(b.function_text(#[trigger] opt_seq(n.functions)[k], o.function_options, l, Seq::empty(), Seq::empty()), b.nl()),
        b.namespace_text(n, o, level, before, after),
    ) by {
        assert(blocks[d.len() + c.len() + e.len() + s.len() + k] == f[k]);
        namespace_writes_each_block(b, n, o, level, before, after, d.len() + c.len() + e.len() + s.len() + k);
    }
    assert forall|k: int| 0 <= k < opt_seq(n.namespaces).len() implies occurs_in(
        trim_end(b.namespace_core_text(#[trigger] opt_seq(n.namespaces)[k], o, l), b.nl()),
        b.namespace_text(n, o, level, before, after),
    ) by {
        lemma_namespaces_texts_index(b, n.namespaces->0@, o, l, k);
        assert(blocks[d.len() + c.len() + e.len() + s.len() + f.len() + k] == ns[k]);
        namespace_writes_each_block(b, n, o, level, before, after, d.len() + c.len() + e.len() + s.len() + f.len() + k);
    }
}

/// The `k`-th of the texts of nested namespaces is the `k`-th namespace's text.
proof fn lemma_namespaces_texts_index(b: CppBackend, ns: Seq<CppNamespace>, o: CppNamespaceRenderOptions, level: int, k: int)
    requires
        0 <= k < ns.len(),
    ensures
        b.namespaces_texts(ns, o, level).len() == ns.len(),
        b.namespaces_texts(ns, o, level)[k] == b.namespace_core_text(ns[k], o, level),
    decreases ns.len(),
{
    lemma_namespaces_texts_len(b, ns, o, level);
    if k < ns.len() - 1 {
        lemma_namespaces_texts_index(b, ns.drop_last(), o, level, k);
    }
}

/// There is one text of a nested namespace for each nested namespace.
proof fn lemma_namespaces_texts_len(b: CppBackend, ns: Seq<CppNamespace>, o: CppNamespaceRenderOptions, level: int)
    ensures
        b.namespaces_texts(ns, o, level).len() == ns.len(),
    decreases ns.len(),
{
    if ns.len() > 0 {
        lemma_namespaces_texts_len(b, ns.drop_last(), o, level);
    }
}

/// Two functions that differ only in their `const`, `noexcept`, `override`, `final`, `static`,
/// `inline` and `extern "C"` flags have the same docs, template line, name, parameters and end.
proof fn function_same_outside_flags(b: CppBackend, f: CppFunction, x: CppFunction, o: CppFunctionRenderOptions, level: int)
    requires
        x.name == f.name && x.parent_name == f.parent_name && x.visibility == f.visibility,
        x.parameters == f.parameters && x.template_params == f.template_params && x.return_type == f.return_type,
        x.is_virtual == f.is_virtual && x.is_pure_virtual == f.is_pure_virtual && x.is_friend == f.is_friend,
        x.is_deleted == f.is_deleted && x.is_default == f.is_default && x.body == f.body && x.docs == f.docs,
    ensures
        b.fn_docs_text(x, o, level) == b.fn_docs_text(f, o, level),
        b.fn_template_text(x, o, level) == b.fn_template_text(f, o, level),
        CppBackend::fn_name_text(x, o) == CppBackend::fn_name_text(f, o),
        CppBackend::fn_params_text(x) == CppBackend::fn_params_text(f),
        b.fn_end_text(x, o, level) == b.fn_end_text(f, o, level),
{
    reveal(CppBackend::fn_template_text);
    reveal(CppBackend::fn_return_text);
    reveal(CppBackend::fn_qualified_name_text);
    reveal(CppBackend::fn_params_text);
    reveal(CppBackend::fn_end_text);
    assert(Seq::new(x.parameters@.len(), |i: int| CppBackend::param_text(x.parameters@[i])) =~= Seq::new(
        f.parameters@.len(),
        |i: int| CppBackend::param_text(f.parameters@[i]),
    ));
}

/// A function's `is_const` flag is written as its qualifier: setting it on a function that lacks it
/// inserts `const` (after a space) among the qualifiers that follow the parameter list, and
/// changes nothing else.
#[verifier::spinoff_prover]
pub proof fn function_const_flag_adds_qualifier(
    b: CppBackend,
    f: CppFunction,
    o: CppFunctionRenderOptions,
    level: int,
    before: Seq<char>,
    after: Seq<char>,
)
    requires
        !f.is_const,
    ensures
        exists|pre: Seq<char>, post: Seq<char>|
            b.function_text(f, o, level, before, after) == pre + post && b.function_text(
                CppFunction { is_const: true, ..f },
                o,
                level,
                before,
                after,
            ) == pre + " const"@ + post,
{
    let x = CppFunction { is_const: true, ..f };
    function_same_outside_flags(b, f, x, o, level);
    let head = before + b.fn_docs_text(f, o, level) + b.ind(level) + b.fn_template_text(f, o, level)
        + CppBackend::fn_modifiers_text(f, o) + CppBackend::fn_name_text(f, o) + CppBackend::fn_params_text(f);
    assert(CppBackend::fn_modifiers_text(x, o) == CppBackend::fn_modifiers_text(f, o)) by {
        reveal(CppBackend::fn_modifiers_text);
    }
    let cn = only_if(f.is_const, " const"@);
    let ne = only_if(f.is_noexcept, " noexcept"@);
    let ov = only_if(f.is_override, " override"@);
    let fi = only_if(f.is_final, " final"@);
    let rest = only_if(f.is_deleted, " = delete"@) + only_if(f.is_default, " = default"@) + only_if(
        f.is_pure_virtual,
        " = 0"@,
    );
    assert(CppBackend::fn_qualifiers_text(f) == cn + ne + ov + fi + rest) by {
        reveal(CppBackend::fn_qualifiers_text);
    }
    assert(CppBackend::fn_qualifiers_text(x) == " const"@ + ne + ov + fi + rest) by {
        reveal(CppBackend::fn_qualifiers_text);
        reveal(only_if);
    }
    assert(cn =~= Seq::<char>::empty()) by {
        reveal(only_if);
    }
    let end = b.fn_end_text(f, o, level) + after;
    assert(b.function_text(x, o, level, before, after) =~= (head) + " const"@ + (ne + ov + fi + rest + end));
    assert(b.function_text(f, o, level, before, after) =~= (head) + (ne + ov + fi + rest + end));
}

/// A function's `is_noexcept` flag is written as its qualifier: setting it on a function that lacks it
/// inserts `noexcept` (after a space) among the qualifiers that follow the parameter list, and
/// changes nothing else.
#[verifier::spinoff_prover]
pub proof fn function_noexcept_flag_adds_qualifier(
    b: CppBackend,
    f: CppFunction,
    o: CppFunctionRenderOptions,
    level: int,
    before: Seq<char>,
    after: Seq<char>,
)
    requires
        !f.is_noexcept,
    ensures
        exists|pre: Seq<char>, post: Seq<char>|
            b.function_text(f, o, level, before, after) == pre + post && b.function_text(
                CppFunction { is_noexcept: true, ..f },
                o,
                level,
                before,
                after,
            ) == pre + " noexcept"@ + post,
{
    let x = CppFunction { is_noexcept: true, ..f };
    function_same_outside_flags(b, f, x, o, level);
    let head = before + b.fn_docs_text(f, o, level) + b.ind(level) + b.fn_template_text(f, o, level)
        + CppBackend::fn_modifiers_text(f, o) + CppBackend::fn_name_text(f, o) + CppBackend::fn_params_text(f);
    assert(CppBackend::fn_modifiers_text(x, o) == CppBackend::fn_modifiers_text(f, o)) by {
        reveal(CppBackend::fn_modifiers_text);
    }
    let cn = only_if(f.is_const, " const"@);
    let ne = only_if(f.is_noexcept, " noexcept"@);
    let ov = only_if(f.is_override, " override"@);
    let fi = only_if(f.is_final, " final"@);
    let rest = only_if(f.is_deleted, " = delete"@) + only_if(f.is_default, " = default"@) + only_if(
        f.is_pure_virtual,
        " = 0"@,
    );
    assert(CppBackend::fn_qualifiers_text(f) == cn + ne + ov + fi + rest) by {
        reveal(CppBackend::fn_qualifiers_text);
    }
    assert(CppBackend::fn_qualifiers_text(x) == cn + " noexcept"@ + ov + fi + rest) by {
        reveal(CppBackend::fn_qualifiers_text);
        reveal(only_if);
    }
    assert(ne =~= Seq::<char>::empty()) by {
        reveal(only_if);
    }
    let end = b.fn_end_text(f, o, level) + after;
    assert(b.function_text(x, o, level, before, after) =~= (head + cn) + " noexcept"@ + (ov + fi + rest + end));
    assert(b.function_text(f, o, level, before, after) =~= (head + cn) + (ov + fi + rest + end));
}

/// A function's `is_override` flag is written as its qualifier: setting it on a function that lacks it
/// inserts `override` (after a space) among the qualifiers that follow the parameter list, and
/// changes nothing else.
#[verifier::spinoff_prover]
pub proof fn function_override_flag_adds_qualifier(
    b: CppBackend,
    f: CppFunction,
    o: CppFunctionRenderOptions,
    level: int,
    before: Seq<char>,
    after: Seq<char>,
)
    requires
        !f.is_override,
    ensures
        exists|pre: Seq<char>, post: Seq<char>|
            b.function_text(f, o, level, before, after) == pre + post && b.function_text(
                CppFunction { is_override: true, ..f },
                o,
                level,
                before,
                after,
            ) == pre + " override"@ + post,
{
    let x = CppFunction { is_override: true, ..f };
    function_same_outside_flags(b, f, x, o, level);
    let head = before + b.fn_docs_text(f, o, level) + b.ind(level) + b.fn_template_text(f, o, level)
        + CppBackend::fn_modifiers_text(f, o) + CppBackend::fn_name_text(f, o) + CppBackend::fn_params_text(f);
    assert(CppBackend::fn_modifiers_text(x, o) == CppBackend::fn_modifiers_text(f, o)) by {
        reveal(CppBackend::fn_modifiers_text);
    }
    let cn = only_if(f.is_const, " const"@);
    let ne = only_if(f.is_noexcept, " noexcept"@);
    let ov = only_if(f.is_override, " override"@);
    let fi = only_if(f.is_final, " final"@);
    let rest = only_if(f.is_deleted, " = delete"@) + only_if(f.is_default, " = default"@) + only_if(
        f.is_pure_virtual,
        " = 0"@,
    );
    assert(CppBackend::fn_qualifiers_text(f) == cn + ne + ov + fi + rest) by {
        reveal(CppBackend::fn_qualifiers_text);
    }
    assert(CppBackend::fn_qualifiers_text(x) == cn + ne + " override"@ + fi + rest) by {
        reveal(CppBackend::fn_qualifiers_text);
        reveal(only_if);
    }
    assert(ov =~= Seq::<char>::empty()) by {
        reveal(only_if);
    }
    let end = b.fn_end_text(f, o, level) + after;
    assert(b.function_text(x, o, level, before, after) =~= (head + cn + ne) + " override"@ + (fi + rest + end));
    assert(b.function_text(f, o, level, before, after) =~= (head + cn + ne) + (fi + rest + end));
}

/// A function's `is_final` flag is written as its qualifier: setting it on a function that lacks it
/// inserts `final` (after a space) among the qualifiers that follow the parameter list, and
/// changes nothing else.
#[verifier::spinoff_prover]
pub proof fn function_final_flag_adds_qualifier(
    b: CppBackend,
    f: CppFunction,
    o: CppFunctionRenderOptions,
    level: int,
    before: Seq<char>,
    after: Seq<char>,
)
    requires
        !f.is_final,
    ensures
        exists|pre: Seq<char>, post: Seq<char>|
            b.function_text(f, o, level, before, after) == pre + post && b.function_text(
                CppFunction { is_final: true, ..f },
                o,
                level,
                before,
                after,
            ) == pre + " final"@ + post,
{
    let x = CppFunction { is_final: true, ..f };
    function_same_outside_flags(b, f, x, o, level);
    let head = before + b.fn_docs_text(f, o, level) + b.ind(level) + b.fn_template_text(f, o, level)
        + CppBackend::fn_modifiers_text(f, o) + CppBackend::fn_name_text(f, o) + CppBackend::fn_params_text(f);
    assert(CppBackend::fn_modifiers_text(x, o) == CppBackend::fn_modifiers_text(f, o)) by {
        reveal(CppBackend::fn_modifiers_text);
    }
    let cn = only_if(f.is_const, " const"@);
    let ne = only_if(f.is_noexcept, " noexcept"@);
    let ov = only_if(f.is_override, " override"@);
    let fi = only_if(f.is_final, " final"@);
    let rest = only_if(f.is_deleted, " = delete"@) + only_if(f.is_default, " = default"@) + only_if(
        f.is_pure_virtual,
        " = 0"@,
    );
    assert(CppBackend::fn_qualifiers_text(f) == cn + ne + ov + fi + rest) by {
        reveal(CppBackend::fn_qualifiers_text);
    }
    assert(CppBackend::fn_qualifiers_text(x) == cn + ne + ov + " final"@ + rest) by {
        reveal(CppBackend::fn_qualifiers_text);
        reveal(only_if);
    }
    assert(fi =~= Seq::<char>::empty()) by {
        reveal(only_if);
    }
    let end = b.fn_end_text(f, o, level) + after;
    assert(b.function_text(x, o, level, before, after) =~= (head + cn + ne + ov) + " final"@ + (rest + end));
    assert(b.function_text(f, o, level, before, after) =~= (head + cn + ne + ov) + (rest + end));
}

/// A text padded on the right starts with the text.
proof fn pad_right_starts_with(t: Seq<char>, w: nat) -> (pad: Seq<char>)
    ensures
        pad_right(t, w) == t + pad,
{
    if w > t.len() {
        repeat_char(' ', (w - t.len()) as nat)
    } else {
        assert(t + Seq::<char>::empty() =~= t);
        Seq::empty()
    }
}

/// A field's declaration holds its name and its type.
proof fn field_decl_holds_name_and_type(f: CppField, render_init: bool, align: bool, tw: nat, nw: nat)
    ensures
        occurs_in(f.name@, CppBackend::field_decl_text(f, render_init, align, tw, nw)),
        occurs_in(f.field_type@, CppBackend::field_decl_text(f, render_init, align, tw, nw)),
{
    let d = CppBackend::field_decl_text(f, render_init, align, tw, nw);
    let tp_pre = alignas_text(f.alignment) + only_if(f.is_inline, "inline "@) + only_if(f.is_static, "static "@)
        + only_if(f.is_const, "const "@);
    let tp = field_type_part(f);
    assert(tp == tp_pre + f.field_type@);
    let sep = if align { ": "@ } else { " : "@ };
    let core_rest = opt_wrap("["@, f.array_size, "]"@) + opt_wrap(sep, f.bit_field_size, ""@);
    let tail = core_rest + field_init_text(f, render_init) + ";"@;
    assert(field_name_core(f, sep) == f.name@ + core_rest);
    if align {
        let p1 = pad_right_starts_with(tp, tw);
        let p2 = pad_right_starts_with(f.name@ + tail, nw);
        assert(field_name_core(f, sep) + field_init_text(f, render_init) + ";"@ =~= f.name@ + tail);
        lemma_occurs_between(tp_pre, f.field_type@, p1 + " "@ + f.name@ + tail + p2);
        lemma_occurs_between(tp + p1 + " "@, f.name@, tail + p2);
        assert(tp_pre + f.field_type@ + (p1 + " "@ + f.name@ + tail + p2) =~= d);
        assert((tp + p1 + " "@) + f.name@ + (tail + p2) =~= d);
    } else {
        lemma_occurs_between(tp_pre, f.field_type@, " "@ + f.name@ + tail);
        lemma_occurs_between(tp + " "@, f.name@, tail);
        assert(tp_pre + f.field_type@ + (" "@ + f.name@ + tail) =~= d);
        assert((tp + " "@) + f.name@ + tail =~= d);
    }
}

/// The first `n` field items of a struct hold the name and type of each of those fields.
proof fn fields_upto_holds_each(b: CppBackend, s: CppStruct, o: CppStructRenderOptions, level: int, tw: nat, nw: nat, n: int, k: int)
    requires
        0 <= k < n <= s.fields@.len(),
    ensures
        occurs_in(s.fields@[k].name@, b.fields_upto(s, o, level, tw, nw, n)),
        occurs_in(s.fields@[k].field_type@, b.fields_upto(s, o, level, tw, nw, n)),
    decreases n,
{
    reveal(CppBackend::fields_upto);
    let prev = b.fields_upto(s, o, level, tw, nw, n - 1);
    let item = b.field_item_text(s, o, level, tw, nw, n - 1);
    assert(b.fields_upto(s, o, level, tw, nw, n) == prev + item);
    if k == n - 1 {
        let f = s.fields@[k];
        let fo = o.field_options;
        let label = only_if(
            field_label_before(s.fields@, k, s.struct_kind, o.render_default_visibility),
            b.label_text(effective_visibility(f.visibility, s.struct_kind), k == 0, level),
        );
        let d = CppBackend::field_decl_text(f, fo.render_initializers, o.align_fields, tw, nw);
        let pre = label + b.opt_docs_text(fo.render_docs, f.docs, level + 1) + b.ind(level + 1);
        let post = opt_wrap(" // "@, f.inline_comment, ""@) + b.nl();
        assert(item == pre + d + post) by {
            reveal(CppBackend::field_item_text);
            reveal(CppBackend::field_line_text);
        }
        field_decl_holds_name_and_type(f, fo.render_initializers, o.align_fields, tw, nw);
        lemma_occurs_widen(prev + pre, d, post, f.name@);
        lemma_occurs_widen(prev + pre, d, post, f.field_type@);
        assert((prev + pre) + d + post =~= prev + item);
    } else {
        fields_upto_holds_each(b, s, o, level, tw, nw, n - 1, k);
        lemma_occurs_widen(Seq::empty(), prev, item, s.fields@[k].name@);
        lemma_occurs_widen(Seq::empty(), prev, item, s.fields@[k].field_type@);
        assert(Seq::<char>::empty() + prev + item =~= prev + item);
    }
}

/// The first `n` method items of a struct hold the text of each of those methods, as rendered
/// on its own one level deeper.
proof fn methods_upto_holds_each(b: CppBackend, s: CppStruct, o: CppStructRenderOptions, level: int, n: int, k: int)
    requires
        0 <= k < n <= s.methods@.len(),
    ensures
        occurs_in(
            b.function_text(s.methods@[k], o.method_options, level + 1, Seq::empty(), Seq::empty()),
            b.methods_upto(s, o, level, n),
        ),
    decreases n,
{
    reveal(CppBackend::methods_upto);
    let prev = b.methods_upto(s, o, level, n - 1);
    let item = b.method_item_text(s, o, level, n - 1);
    assert(b.methods_upto(s, o, level, n) == prev + item);
    let mt = b.function_text(s.methods@[k], o.method_options, level + 1, Seq::empty(), Seq::empty());
    if k == n - 1 {
        let m = s.methods@[k];
        let label = only_if(
            method_label_before(s.methods@, k, s.struct_kind, o.render_default_visibility),
            b.label_text(effective_visibility(m.visibility, s.struct_kind), true, level),
        );
        let post = only_if(k != s.methods@.len() - 1, b.nl());
        assert(item == label + mt + post) by {
            reveal(CppBackend::method_item_text);
        }
        lemma_occurs_between(prev + label, mt, post);
        assert((prev + label) + mt + post =~= prev + item);
    } else {
        methods_upto_holds_each(b, s, o, level, n - 1, k);
        lemma_occurs_widen(Seq::empty(), prev, item, mt);
        assert(Seq::<char>::empty() + prev + item =~= prev + item);
    }
}

/// Nothing of a struct is lost: the name and type of each of its fields, and each of its
/// methods as rendered on its own one level deeper, are written in the struct's text.
pub proof fn struct_writes_each_member(
    b: CppBackend,
    s: CppStruct,
    o: CppStructRenderOptions,
    level: int,
    before: Seq<char>,
    after: Seq<char>,
)
    ensures
        forall|k: int|
            0 <= k < s.fields@.len() ==> occurs_in((#[trigger] s.fields@[k]).name@, b.struct_text(s, o, level, before, after))
                && occurs_in(s.fields@[k].field_type@, b.struct_text(s, o, level, before, after)),
        forall|k: int|
            0 <= k < s.methods@.len() ==> occurs_in(
                b.function_text(#[trigger] s.methods@[k], o.method_options, level + 1, Seq::empty(), Seq::empty()),
                b.struct_text(s, o, level, before, after),
            ),
{
    let text = b.struct_text(s, o, level, before, after);
    let head = before + b.opt_docs_text(o.render_docs, s.docs, level) + b.struct_template_text(s, o, level)
        + b.struct_head_text(s, level) + b.brace_open_text(level);
    let ft = b.fields_text(s, o, level);
    let mt = b.methods_text(s, o, level);
    let close = b.nl() + b.ind(level) + "};"@ + b.nl() + after;
    assert(text =~= head + ft + (mt + close));
    let tw = CppBackend::field_widths(s, o).0;
    let nw = CppBackend::field_widths(s, o).1;
    assert forall|k: int| 0 <= k < s.fields@.len() implies occurs_in((#[trigger] s.fields@[k]).name@, text) && occurs_in(
        s.fields@[k].field_type@,
        text,
    ) by {
        fields_upto_holds_each(b, s, o, level, tw, nw, s.fields@.len() as int, k);
        lemma_occurs_widen(head, ft, mt + close, s.fields@[k].name@);
        lemma_occurs_widen(head, ft, mt + close, s.fields@[k].field_type@);
    }
    assert forall|k: int| 0 <= k < s.methods@.len() implies occurs_in(
        b.function_text(#[trigger] s.methods@[k], o.method_options, level + 1, Seq::empty(), Seq::empty()),
        text,
    ) by {
        let m = b.function_text(s.methods@[k], o.method_options, level + 1, Seq::empty(), Seq::empty());
        let lead = only_if(s.fields@.len() > 0, b.nl());
        let up = b.methods_upto(s, o, level, s.methods@.len() as int);
        assert(mt == lead + up) by {
            reveal(only_if);
        }
        methods_upto_holds_each(b, s, o, level, s.methods@.len() as int, k);
        lemma_occurs_widen(head + ft + lead, up, close, m);
        assert((head + ft + lead) + up + close =~= text);
    }
}

/// The variants, written one after the other, hold each variant's line.
proof fn variants_text_holds_each(b: CppBackend, vs: Seq<CppEnumVariant>, vo: CppEnumVariantRenderOptions, level: int, width: nat, k: int)
    requires
        0 <= k < vs.len(),
    ensures
        occurs_in(b.variant_text(vs[k], vo, level, width), b.variants_text(vs, vo, level, width)),
    decreases vs.len(),
{
    reveal(CppBackend::variants_text);
    let prev = b.variants_text(vs.drop_last(), vo, level, width);
    let last = b.variant_text(vs.last(), vo, level, width);
    assert(b.variants_text(vs, vo, level, width) == prev + last);
    if k == vs.len() - 1 {
        lemma_occurs_between(prev, last, Seq::empty());
        assert(prev + last + Seq::<char>::empty() =~= prev + last);
    } else {
        variants_text_holds_each(b, vs.drop_last(), vo, level, width, k);
        assert(vs.drop_last()[k] == vs[k]);
        lemma_occurs_widen(Seq::empty(), prev, last, b.variant_text(vs[k], vo, level, width));
        assert(Seq::<char>::empty() + prev + last =~= prev + last);
    }
}

/// Every variant of an enum is written: its name, then ` = value` when it has a value, then
/// `,` at the end of its line (right after the name when it has no value and values are not
/// aligned).
pub proof fn enum_writes_each_variant(
    b: CppBackend,
    e: CppEnum,
    o: CppEnumRenderOptions,
    vo: CppEnumVariantRenderOptions,
    level: int,
    before: Seq<char>,
    after: Seq<char>,
    k: int,
)
    requires
        0 <= k < e.variants@.len(),
    ensures
        ({
            let v = e.variants@[k];
            let text = b.enum_text(e, o, vo, level, before, after);
            &&& occurs_in(v.name@, text)
            &&& v.value matches Some(x) ==> occurs_in(" = "@ + x@ + ","@ + b.nl(), text)
            &&& (v.value is None && !vo.align_value) ==> occurs_in(v.name@ + ","@ + b.nl(), text)
        }),
{
    reveal(opt_wrap);
    reveal_strlit("");
    let v = e.variants@[k];
    let width: nat = if vo.align_value { max_variant_name_len(e.variants@) } else { 0 };
    let vt = b.variants_text(e.variants@, vo, level + 1, width);
    let head = b.enum_head_text(e, o, level, before);
    let tail = b.ind(level) + "};"@ + b.nl() + after;
    let text = b.enum_text(e, o, vo, level, before, after);
    assert(text =~= head + vt + tail);
    variants_text_holds_each(b, e.variants@, vo, level + 1, width, k);
    let line = b.variant_text(v, vo, level + 1, width);
    lemma_occurs_widen(head, vt, tail, line);
    assert(head + vt + tail =~= text);
    let pre = b.opt_docs_text(vo.render_docs, v.docs, level + 1) + b.ind(level + 1);
    let pad = if vo.align_value { pad_of_name(v, width) } else { Seq::empty() };
    assert(CppBackend::variant_name_text(v, vo.align_value, width) == v.name@ + pad);
    let val = opt_wrap(" = "@, v.value, ""@);
    assert(line =~= pre + v.name@ + (pad + val + ","@ + b.nl()));
    lemma_occurs_between(pre, v.name@, pad + val + ","@ + b.nl());
    lemma_occurs_in_part(v.name@, line, text);
    match v.value {
        Some(x) => {
            assert(line =~= (pre + v.name@ + pad) + (" = "@ + x@ + ","@ + b.nl()) + Seq::empty());
            lemma_occurs_between(pre + v.name@ + pad, " = "@ + x@ + ","@ + b.nl(), Seq::empty());
            lemma_occurs_in_part(" = "@ + x@ + ","@ + b.nl(), line, text);
        },
        None => {
            if !vo.align_value {
                assert(line =~= pre + (v.name@ + ","@ + b.nl()) + Seq::empty());
                lemma_occurs_between(pre, v.name@ + ","@ + b.nl(), Seq::empty());
                lemma_occurs_in_part(v.name@ + ","@ + b.nl(), line, text);
            }
        },
    }
}

/// The padding after a variant's name when names are aligned to `width`.
spec fn pad_of_name(v: CppEnumVariant, width: nat) -> Seq<char> {
    repeat_char(' ', (width - byte_len(v.name@)) as nat)
}

/// A function's `is_extern_c` flag is written as `extern "C"`: setting it on a function that lacks it
/// inserts the specifier into the function's text and changes nothing else.
#[verifier::spinoff_prover]
pub proof fn function_extern_c_flag_adds_specifier(
    b: CppBackend,
    f: CppFunction,
    o: CppFunctionRenderOptions,
    level: int,
    before: Seq<char>,
    after: Seq<char>,
)
    requires
        !f.is_extern_c,
    ensures
        exists|pre: Seq<char>, post: Seq<char>|
            b.function_text(f, o, level, before, after) == pre + post && b.function_text(
                CppFunction { is_extern_c: true, ..f },
                o,
                level,
                before,
                after,
            ) == pre + "extern \"C\" "@ + post,
{
    let x = CppFunction { is_extern_c: true, ..f };
    function_same_outside_flags(b, f, x, o, level);
    assert(CppBackend::fn_qualifiers_text(x) == CppBackend::fn_qualifiers_text(f)) by {
        reveal(CppBackend::fn_qualifiers_text);
    }
    let a = Seq::<char>::empty();
    let z = (if !o.render_definition { only_if(f.is_friend, "friend "@) + only_if(f.is_inline, "inline "@) + only_if(f.is_static, "static "@) + only_if(f.is_virtual, "/* virtual */ "@) } else { only_if(o.inline_definition, "inline "@) });
    assert(CppBackend::fn_modifiers_text(f, o) == a + z) by {
        reveal(CppBackend::fn_modifiers_text);
        assert(only_if(f.is_extern_c, "extern \"C\" "@) == Seq::<char>::empty()) by {
            reveal(only_if);
        }
        assert(CppBackend::fn_modifiers_text(f, o) =~= a + z);
    }
    assert(CppBackend::fn_modifiers_text(x, o) == a + "extern \"C\" "@ + z) by {
        reveal(CppBackend::fn_modifiers_text);
        assert(only_if(x.is_extern_c, "extern \"C\" "@) == "extern \"C\" "@) by {
            reveal(only_if);
        }
        assert(CppBackend::fn_modifiers_text(x, o) =~= a + "extern \"C\" "@ + z);
    }
    let head = before + b.fn_docs_text(f, o, level) + b.ind(level) + b.fn_template_text(f, o, level);
    let tail = CppBackend::fn_name_text(f, o) + CppBackend::fn_params_text(f) + CppBackend::fn_qualifiers_text(f)
        + b.fn_end_text(f, o, level) + after;
    assert(b.function_text(f, o, level, before, after) =~= (head + a) + (z + tail));
    assert(b.function_text(x, o, level, before, after) =~= (head + a) + "extern \"C\" "@ + (z + tail));
}

/// A function's `is_static` flag is written as `static` (in a declaration): setting it on a function that lacks it
/// inserts the specifier into the function's text and changes nothing else.
#[verifier::spinoff_prover]
pub proof fn function_static_flag_adds_specifier(
    b: CppBackend,
    f: CppFunction,
    o: CppFunctionRenderOptions,
    level: int,
    before: Seq<char>,
    after: Seq<char>,
)
    requires
        !f.is_static,
        !o.render_definition,
    ensures
        exists|pre: Seq<char>, post: Seq<char>|
            b.function_text(f, o, level, before, after) == pre + post && b.function_text(
                CppFunction { is_static: true, ..f },
                o,
                level,
                before,
                after,
            ) == pre + "static "@ + post,
{
    let x = CppFunction { is_static: true, ..f };
    function_same_outside_flags(b, f, x, o, level);
    assert(CppBackend::fn_qualifiers_text(x) == CppBackend::fn_qualifiers_text(f)) by {
        reveal(CppBackend::fn_qualifiers_text);
    }
    let a = only_if(f.is_extern_c, "extern \"C\" "@) + only_if(f.is_friend, "friend "@) + only_if(f.is_inline, "inline "@);
    let z = only_if(f.is_virtual, "/* virtual */ "@);
    assert(CppBackend::fn_modifiers_text(f, o) == a + z) by {
        reveal(CppBackend::fn_modifiers_text);
        assert(only_if(f.is_static, "static "@) == Seq::<char>::empty()) by {
            reveal(only_if);
        }
        assert(CppBackend::fn_modifiers_text(f, o) =~= a + z);
    }
    assert(CppBackend::fn_modifiers_text(x, o) == a + "static "@ + z) by {
        reveal(CppBackend::fn_modifiers_text);
        assert(only_if(x.is_static, "static "@) == "static "@) by {
            reveal(only_if);
        }
        assert(CppBackend::fn_modifiers_text(x, o) =~= a + "static "@ + z);
    }
    let head = before + b.fn_docs_text(f, o, level) + b.ind(level) + b.fn_template_text(f, o, level);
    let tail = CppBackend::fn_name_text(f, o) + CppBackend::fn_params_text(f) + CppBackend::fn_qualifiers_text(f)
        + b.fn_end_text(f, o, level) + after;
    assert(b.function_text(f, o, level, before, after) =~= (head + a) + (z + tail));
    assert(b.function_text(x, o, level, before, after) =~= (head + a) + "static "@ + (z + tail));
}

/// A function's `is_inline` flag is written as `inline` (in a declaration): setting it on a function that lacks it
/// inserts the specifier into the function's text and changes nothing else.
#[verifier::spinoff_prover]
pub proof fn function_inline_flag_adds_specifier(
    b: CppBackend,
    f: CppFunction,
    o: CppFunctionRenderOptions,
    level: int,
    before: Seq<char>,
    after: Seq<char>,
)
    requires
        !f.is_inline,
        !o.render_definition,
    ensures
        exists|pre: Seq<char>, post: Seq<char>|
            b.function_text(f, o, level, before, after) == pre + post && b.function_text(
                CppFunction { is_inline: true, ..f },
                o,
                level,
                before,
                after,
            ) == pre + "inline "@ + post,
{
    let x = CppFunction { is_inline: true, ..f };
    function_same_outside_flags(b, f, x, o, level);
    assert(CppBackend::fn_qualifiers_text(x) == CppBackend::fn_qualifiers_text(f)) by {
        reveal(CppBackend::fn_qualifiers_text);
    }
    let a = only_if(f.is_extern_c, "extern \"C\" "@) + only_if(f.is_friend, "friend "@);
    let z = only_if(f.is_static, "static "@) + only_if(f.is_virtual, "/* virtual */ "@);
    assert(CppBackend::fn_modifiers_text(f, o) == a + z) by {
        reveal(CppBackend::fn_modifiers_text);
        assert(only_if(f.is_inline, "inline "@) == Seq::<char>::empty()) by {
            reveal(only_if);
        }
        assert(CppBackend::fn_modifiers_text(f, o) =~= a + z);
    }
    assert(CppBackend::fn_modifiers_text(x, o) == a + "inline "@ + z) by {
        reveal(CppBackend::fn_modifiers_text);
        assert(only_if(x.is_inline, "inline "@) == "inline "@) by {
            reveal(only_if);
        }
        assert(CppBackend::fn_modifiers_text(x, o) =~= a + "inline "@ + z);
    }
    let head = before + b.fn_docs_text(f, o, level) + b.ind(level) + b.fn_template_text(f, o, level);
    let tail = CppBackend::fn_name_text(f, o) + CppBackend::fn_params_text(f) + CppBackend::fn_qualifiers_text(f)
        + b.fn_end_text(f, o, level) + after;
    assert(b.function_text(f, o, level, before, after) =~= (head + a) + (z + tail));
    assert(b.function_text(x, o, level, before, after) =~= (head + a) + "inline "@ + (z + tail));
}

/// A struct's head line names its kind and name (`final` right after the name when the struct
/// is final), and each of its bases as `access Name`, after ` : ` for the first one and `, `
/// for the others.
pub proof fn struct_writes_its_head(
    b: CppBackend,
    s: CppStruct,
    o: CppStructRenderOptions,
    level: int,
    before: Seq<char>,
    after: Seq<char>,
)
    ensures
        occurs_in(
            CppBackend::struct_kind_text(s.struct_kind) + alignas_text(s.alignment) + s.name@,
            b.struct_text(s, o, level, before, after),
        ),
        s.is_final ==> occurs_in(s.name@ + " final"@, b.struct_text(s, o, level, before, after)),
        forall|k: int|
            0 <= k < s.bases@.len() ==> occurs_in(
                (if k == 0 { " : "@ } else { ", "@ }) + base_access((#[trigger] s.bases@[k]).visibility, s.struct_kind).text()
                    + " "@ + s.bases@[k].name@,
                b.struct_text(s, o, level, before, after),
            ),
{
    let text = b.struct_text(s, o, level, before, after);
    let pre = before + b.opt_docs_text(o.render_docs, s.docs, level) + b.struct_template_text(s, o, level) + b.ind(level);
    let kn = CppBackend::struct_kind_text(s.struct_kind) + alignas_text(s.alignment) + s.name@;
    let fin = only_if(s.is_final, " final"@);
    let bt = CppBackend::bases_text(s);
    let post = b.brace_open_text(level) + b.fields_text(s, o, level) + b.methods_text(s, o, level) + b.nl() + b.ind(level)
        + "};"@ + b.nl() + after;
    assert(b.struct_head_text(s, level) == b.ind(level) + kn + fin + bt) by {
        reveal(CppBackend::struct_head_text);
        assert(b.struct_head_text(s, level) =~= b.ind(level) + kn + fin + bt);
    }
    assert(text =~= pre + kn + (fin + bt + post));
    lemma_occurs_between(pre, kn, fin + bt + post);
    if s.is_final {
        assert(fin == " final"@) by {
            reveal(only_if);
        }
        let pre2 = pre + CppBackend::struct_kind_text(s.struct_kind) + alignas_text(s.alignment);
        assert(text =~= pre2 + (s.name@ + " final"@) + (bt + post));
        lemma_occurs_between(pre2, s.name@ + " final"@, bt + post);
    }
    if s.bases@.len() > 0 {
        let parts = Seq::new(s.bases@.len(), |i: int| CppBackend::base_text(s.bases@[i], s.struct_kind));
        let bl = " : "@ + join(parts, ", "@);
        assert(bt == bl) by {
            reveal(only_if);
        }
        lemma_occurs_between(pre + kn + fin, bl, post);
        assert((pre + kn + fin) + bl + post =~= text);
        assert forall|k: int| 0 <= k < s.bases@.len() implies occurs_in(
            (if k == 0 { " : "@ } else { ", "@ }) + base_access((#[trigger] s.bases@[k]).visibility, s.struct_kind).text()
                + " "@ + s.bases@[k].name@,
            text,
        ) by {
            lemma_join_occurs_after(parts, ", "@, " : "@, k);
            assert((if k == 0 { " : "@ } else { ", "@ }) + parts[k] =~= (if k == 0 { " : "@ } else { ", "@ })
                + base_access(s.bases@[k].visibility, s.struct_kind).text() + " "@ + s.bases@[k].name@);
            lemma_occurs_in_part((if k == 0 { " : "@ } else { ", "@ }) + parts[k], bl, text);
        }
    }
}

} // verus!
