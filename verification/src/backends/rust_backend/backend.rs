use vstd::prelude::*;

use super::{
    generic_types::{generic_decls_text, generic_uses_text, render_generic_decls, render_generic_uses},
    RustConstant, RustConstantRenderOptions, RustDefinition, RustDefinitionRenderOptions, RustEnum,
    RustEnumRenderOptions, RustEnumVariantValue, RustExternBlock, RustField, RustFunction,
    RustFunctionRenderOptions, RustStruct, RustStructRenderOptions, RustTrait,
};
use super::{RustEnumVariant, RustEnumVariantRenderOptions, RustModule, RustModuleRenderOptions, RustSelfKind};
use crate::backends::{BackendFeature, BackendMetadata};
use crate::conversion::opt_seq;
use crate::text::{
    indent, indent_text, join, join_body, joined_body, lemma_assoc, lemma_join_done, lemma_join_loop, lemma_join_start,
    lemma_trim_six_groups, only_if, opt_str, opt_wrap, push_joined, push_lines, push_opt, push_opt_str, push_str,
    push_trimmed, push_when, texts, trim_blocks, trim_end, wrap_each, ends_with, lemma_ends_with_concat, IndentStyle, NewLineStyle,
    occurs_in, lemma_occurs_between, lemma_join_first, lemma_occurs_widen, lemma_join_occurs, lemma_occurs_shorten, lemma_occurs_in_part, lemma_occurs_empty,
};

verus! {

/// Backend that renders the neutral declaration model as idiomatic Rust source.
#[derive(Debug, Clone, Copy)]
pub struct RustBackend {
    /// The newline style to use.
    pub new_line: NewLineStyle,
    /// The indentation style to use.
    pub indent_style: IndentStyle,
    /// The number of spaces per indentation level (when using spaces).
    pub indent_size: i32,
}

impl Default for RustBackend {
    fn default() -> (r: Self)
        ensures
            r.new_line == NewLineStyle::LF,
            r.indent_style == IndentStyle::Spaces,
            r.indent_size == 4,
    {
        RustBackend { new_line: NewLineStyle::LF, indent_style: IndentStyle::Spaces, indent_size: 4 }
    }
}

impl BackendMetadata for RustBackend {
    fn language_name(&self) -> (r: &'static str)
        ensures
            r@ == "Rust"@,
    {
        "Rust"
    }

    fn supported_features(&self) -> (r: &'static [BackendFeature])
        ensures
            r@ == seq![
                BackendFeature::Constant,
                BackendFeature::Function,
                BackendFeature::Enum,
                BackendFeature::Struct,
            ],
    {
        &[BackendFeature::Constant, BackendFeature::Function, BackendFeature::Enum, BackendFeature::Struct]
    }
}

/// Whether rendering `f` at `level` stays within the range of `i32` (its body is one level deeper).
pub open spec fn fn_fits(f: RustFunction, level: int) -> bool {
    f.body is Some ==> level < i32::MAX
}

/// Whether rendering all of `fs` at `level` stays within the range of `i32`.
pub open spec fn fns_fit(fs: Seq<RustFunction>, level: int) -> bool {
    forall|i: int| 0 <= i < fs.len() ==> fn_fits(#[trigger] fs[i], level)
}

impl RustBackend {
    /// The indentation for `level`.
    pub open spec fn ind(self, level: int) -> Seq<char> {
        indent_text(level, self.indent_size as int, self.indent_style)
    }

    /// The line ending.
    pub open spec fn nl(self) -> Seq<char> {
        self.new_line.text()
    }

    /// `///` doc lines.
    pub open spec fn docs_text(self, docs: Seq<String>, level: int) -> Seq<char> {
        wrap_each(self.ind(level) + "/// "@, docs, self.nl())
    }

    /// Doc lines when rendering is on and there are docs.
    #[verifier::opaque]
    pub open spec fn opt_docs_text(self, render: bool, docs: Option<Vec<String>>, level: int) -> Seq<char> {
        if render && docs is Some {
            self.docs_text(docs->0@, level)
        } else {
            Seq::empty()
        }
    }

    /// `//` comment lines.
    #[verifier::opaque]
    pub open spec fn comments_text(self, comments: Seq<String>, level: int) -> Seq<char> {
        wrap_each(self.ind(level) + "// "@, comments, self.nl())
    }

    /// `#[...]` attribute lines.
    #[verifier::opaque]
    pub open spec fn attributes_text(self, attributes: Seq<String>, level: int) -> Seq<char> {
        wrap_each(self.ind(level) + "#["@, attributes, "]"@ + self.nl())
    }

    /// One `#[derive(...)]` line, or nothing when there are no derives.
    #[verifier::opaque]
    pub open spec fn derives_text(self, derives: Seq<String>, level: int) -> Seq<char> {
        if derives.len() == 0 {
            Seq::empty()
        } else {
            self.ind(level) + "#[derive("@ + join(texts(derives), ", "@) + ")]"@ + self.nl()
        }
    }

    /// A parameter: its attributes, then `name: type`.
    pub open spec fn param_text(p: super::RustParameter) -> Seq<char> {
        wrap_each("#["@, p.attributes@, "] "@) + p.name@ + ": "@ + p.param_type@
    }

    /// The entries of a parameter list: the receiver, if any, then the parameters.
    pub open spec fn param_parts(f: RustFunction) -> Seq<Seq<char>> {
        (match f.self_kind.receiver() {
            Some(r) => seq![r],
            None => Seq::empty(),
        }) + Seq::new(f.parameters@.len(), |i: int| Self::param_text(f.parameters@[i]))
    }

    /// Everything of a function's signature line before the parameter list.
    #[verifier::opaque]
    pub open spec fn fn_head_text(self, f: RustFunction, level: int) -> Seq<char> {
        self.ind(level) + f.visibility.prefix_text()
            + only_if(f.is_const, "const "@) + only_if(f.is_async, "async "@) + only_if(f.is_unsafe, "unsafe "@)
            + opt_wrap("extern \""@, f.abi, "\" "@)
            + "fn "@ + f.name@ + generic_decls_text(f.generic_args@) + "("@
    }

    /// ` -> type` when the function has a non-empty return type.
    pub open spec fn ret_text(f: RustFunction) -> Seq<char> {
        match f.return_type {
            Some(t) => only_if(t@.len() > 0, " -> "@ + t@),
            None => Seq::empty(),
        }
    }

    /// The body in braces, or `;` for a bare signature.
    pub open spec fn body_text(self, f: RustFunction, level: int) -> Seq<char> {
        match f.body {
            Some(lines) => " {"@ + self.nl() + wrap_each(self.ind(level + 1), lines@, self.nl())
                + self.ind(level) + "}"@ + self.nl(),
            None => ";"@ + self.nl(),
        }
    }

    /// The return type and the body (or `;`) of a function.
    #[verifier::opaque]
    pub open spec fn fn_tail_text(self, f: RustFunction, level: int) -> Seq<char> {
        ")"@ + Self::ret_text(f) + self.body_text(f, level)
    }

    /// The function's attribute lines, when attributes are rendered.
    #[verifier::opaque]
    pub open spec fn fn_attributes_text(self, f: RustFunction, o: RustFunctionRenderOptions, level: int) -> Seq<char> {
        only_if(
            o.render_attributes,
            self.attributes_text(f.return_attributes@, level) + self.attributes_text(f.attributes@, level),
        )
    }

    /// A function or method rendered at `level`.
    pub open spec fn fn_text(self, f: RustFunction, o: RustFunctionRenderOptions, level: int) -> Seq<char> {
        self.opt_docs_text(o.render_docs, f.docs, level) + self.comments_text(f.comments@, level)
            + self.fn_attributes_text(f, o, level) + self.fn_head_text(f, level) + join(Self::param_parts(f), ", "@) + self.fn_tail_text(f, level)
    }

    /// Functions rendered one after the other at `level`.
    #[verifier::opaque]
    pub open spec fn fns_text(self, fs: Seq<RustFunction>, o: RustFunctionRenderOptions, level: int) -> Seq<char>
        decreases fs.len(),
    {
        if fs.len() == 0 {
            Seq::empty()
        } else {
            self.fns_text(fs.drop_last(), o, level) + self.fn_text(fs.last(), o, level)
        }
    }

    /// The indentation string for `level`.
    pub fn indent(&self, level: i32) -> (r: String)
        ensures
            r@ == self.ind(level as int),
    {
        indent(level, self.indent_size, self.indent_style)
    }

    fn write_docs(&self, docs: &Vec<String>, indent_level: i32, out: &mut String)
        ensures
            final(out)@ == old(out)@ + self.docs_text(docs@, indent_level as int),
    {
        let mut pre = self.indent(indent_level);
        push_str(&mut pre, "/// ");
        push_lines(out, pre.as_str(), docs, self.new_line.as_str());
    }

    fn write_comments(&self, comments: &Vec<String>, indent_level: i32, out: &mut String)
        ensures
            final(out)@ == old(out)@ + self.comments_text(comments@, indent_level as int),
    {
        proof {
            reveal(RustBackend::comments_text);
        }
        let mut pre = self.indent(indent_level);
        push_str(&mut pre, "// ");
        push_lines(out, pre.as_str(), comments, self.new_line.as_str());
    }

    fn write_attributes(&self, attributes: &Vec<String>, indent_level: i32, out: &mut String)
        ensures
            final(out)@ == old(out)@ + self.attributes_text(attributes@, indent_level as int),
    {
        proof {
            reveal(RustBackend::attributes_text);
        }
        let mut pre = self.indent(indent_level);
        push_str(&mut pre, "#[");
        let mut post = String::new();
        push_str(&mut post, "]");
        push_str(&mut post, self.new_line.as_str());
        assert(post@ =~= "]"@ + self.nl());
        push_lines(out, pre.as_str(), attributes, post.as_str());
    }

    fn write_derives(&self, derives: &Vec<String>, indent_level: i32, out: &mut String)
        ensures
            final(out)@ == old(out)@ + self.derives_text(derives@, indent_level as int),
    {
        proof {
            reveal(RustBackend::derives_text);
        }
        if derives.len() == 0 {
            assert(out@ =~= old(out)@ + self.derives_text(derives@, indent_level as int));
            return;
        }
        let ghost start = out@;
        push_str(out, self.indent(indent_level).as_str());
        push_str(out, "#[derive(");
        push_joined(out, derives, ", ");
        push_str(out, ")]");
        push_str(out, self.new_line.as_str());
        assert(out@ =~= start + self.derives_text(derives@, indent_level as int));
    }

    fn write_param(p: &super::RustParameter, out: &mut String)
        ensures
            final(out)@ == old(out)@ + Self::param_text(*p),
    {
        let ghost start = out@;
        push_lines(out, "#[", &p.attributes, "] ");
        push_str(out, p.name.as_str());
        push_str(out, ": ");
        push_str(out, p.param_type.as_str());
        assert(out@ =~= start + Self::param_text(*p));
    }

    fn write_params(input: &RustFunction, out: &mut String)
        ensures
            final(out)@ == old(out)@ + join(Self::param_parts(*input), ", "@),
    {
        let ghost start = out@;
        let ghost parts = Self::param_parts(*input);
        proof {
            lemma_join_start(start, parts, ", "@);
        }
        let mut first = true;
        let mut k: usize = 0;
        if let Some(receiver) = input.self_kind.render() {
            push_str(out, receiver);
            first = false;
            k = 1;
            proof {
                lemma_join_loop(start, parts, ", "@, 0, start, out@);
            }
        }
        let mut i: usize = 0;
        while i < input.parameters.len()
            invariant
                i <= input.parameters@.len(),
                parts == Self::param_parts(*input),
                parts.len() == k + input.parameters@.len(),
                k <= 1,
                first == (k + i == 0),
                out@ == start + join(parts.take(k + i), ", "@),
                forall|j: int| 0 <= j < input.parameters@.len() ==> parts[k + j] == Self::param_text(input.parameters@[j]),
            decreases input.parameters@.len() - i,
        {
            let ghost prev = out@;
            if !first {
                push_str(out, ", ");
            }
            Self::write_param(&input.parameters[i], out);
            first = false;
            proof {
                lemma_join_loop(start, parts, ", "@, k + i, prev, out@);
            }
            i = i + 1;
        }
        proof {
            lemma_join_done(start, parts, ", "@, k + i);
        }
    }

    #[verifier::rlimit(30)]
    fn write_fn_head(&self, input: &RustFunction, indent_level: i32, out: &mut String)
        ensures
            final(out)@ == old(out)@ + self.fn_head_text(*input, indent_level as int),
    {
        proof {
            reveal(RustBackend::fn_head_text);
        }
        let ghost start = out@;
        push_str(out, self.indent(indent_level).as_str());
        push_str(out, input.visibility.prefix().as_str());
        push_when(out, input.is_const, "const ");
        push_when(out, input.is_async, "async ");
        push_when(out, input.is_unsafe, "unsafe ");
        push_opt(out, "extern \"", &input.abi, "\" ");
        push_str(out, "fn ");
        push_str(out, input.name.as_str());
        push_str(out, render_generic_decls(&input.generic_args).as_str());
        push_str(out, "(");
        assert(out@ =~= start + self.fn_head_text(*input, indent_level as int));
    }

    fn write_ret(input: &RustFunction, out: &mut String)
        ensures
            final(out)@ == old(out)@ + Self::ret_text(*input),
    {
        proof {
            reveal(only_if);
        }
        let ghost start = out@;
        if let Some(return_type) = &input.return_type {
            if !return_type.as_str().is_empty() {
                push_str(out, " -> ");
                push_str(out, return_type.as_str());
            }
        }
        assert(out@ =~= start + Self::ret_text(*input));
    }

    #[verifier::rlimit(30)]
    fn write_body(&self, input: &RustFunction, indent_level: i32, out: &mut String)
        requires
            fn_fits(*input, indent_level as int),
        ensures
            final(out)@ == old(out)@ + self.body_text(*input, indent_level as int),
    {
        let ghost start = out@;
        match &input.body {
            Some(lines) => {
                push_str(out, " {");
                push_str(out, self.new_line.as_str());
                push_lines(out, self.indent(indent_level + 1).as_str(), lines, self.new_line.as_str());
                push_str(out, self.indent(indent_level).as_str());
                push_str(out, "}");
                push_str(out, self.new_line.as_str());
            },
            None => {
                push_str(out, ";");
                push_str(out, self.new_line.as_str());
            },
        }
        assert(out@ =~= start + self.body_text(*input, indent_level as int));
    }

    fn write_fn_tail(&self, input: &RustFunction, indent_level: i32, out: &mut String)
        requires
            fn_fits(*input, indent_level as int),
        ensures
            final(out)@ == old(out)@ + self.fn_tail_text(*input, indent_level as int),
    {
        proof {
            reveal(RustBackend::fn_tail_text);
        }
        let ghost start = out@;
        push_str(out, ")");
        Self::write_ret(input, out);
        self.write_body(input, indent_level, out);
        assert(out@ =~= start + self.fn_tail_text(*input, indent_level as int));
    }

    /// Render a function/method at the given indentation level (used by both the function
    /// renderer and the struct's `impl` block).
    fn write_function(
        &self,
        input: &RustFunction,
        options: &RustFunctionRenderOptions,
        indent_level: i32,
        out: &mut String,
    )
        requires
            fn_fits(*input, indent_level as int),
        ensures
            final(out)@ == old(out)@ + self.fn_text(*input, *options, indent_level as int),
    {
        let ghost start = out@;
        self.write_opt_docs(options.render_docs, &input.docs, indent_level, out);
        self.write_comments(&input.comments, indent_level, out);
        self.write_fn_attributes(input, options, indent_level, out);
        self.write_fn_head(input, indent_level, out);
        Self::write_params(input, out);
        self.write_fn_tail(input, indent_level, out);
        assert(out@ =~= start + self.fn_text(*input, *options, indent_level as int));
    }

    fn write_fn_attributes(
        &self,
        input: &RustFunction,
        options: &RustFunctionRenderOptions,
        indent_level: i32,
        out: &mut String,
    )
        ensures
            final(out)@ == old(out)@ + self.fn_attributes_text(*input, *options, indent_level as int),
    {
        proof {
            reveal(only_if);
        }
        proof {
            reveal(RustBackend::fn_attributes_text);
        }
        let ghost start = out@;
        if options.render_attributes {
            self.write_attributes(&input.return_attributes, indent_level, out);
            self.write_attributes(&input.attributes, indent_level, out);
        }
        assert(out@ =~= start + self.fn_attributes_text(*input, *options, indent_level as int));
    }

    fn write_opt_docs(&self, render: bool, docs: &Option<Vec<String>>, indent_level: i32, out: &mut String)
        ensures
            final(out)@ == old(out)@ + self.opt_docs_text(render, *docs, indent_level as int),
    {
        proof {
            reveal(RustBackend::opt_docs_text);
        }
        let ghost start = out@;
        if render {
            if let Some(docs) = docs {
                self.write_docs(docs, indent_level, out);
            }
        }
        assert(out@ =~= start + self.opt_docs_text(render, *docs, indent_level as int));
    }

    fn write_functions(
        &self,
        fs: &Vec<RustFunction>,
        options: &RustFunctionRenderOptions,
        indent_level: i32,
        out: &mut String,
    )
        requires
            fns_fit(fs@, indent_level as int),
        ensures
            final(out)@ == old(out)@ + self.fns_text(fs@, *options, indent_level as int),
    {
        let ghost start = out@;
        proof {
            reveal(RustBackend::fns_text);
            assert(fs@.take(0) =~= Seq::<RustFunction>::empty());
            assert(start =~= start + self.fns_text(fs@.take(0), *options, indent_level as int));
        }
        let mut i: usize = 0;
        while i < fs.len()
            invariant
                i <= fs@.len(),
                fns_fit(fs@, indent_level as int),
                out@ == start + self.fns_text(fs@.take(i as int), *options, indent_level as int),
            decreases fs@.len() - i,
        {
            self.write_function(&fs[i], options, indent_level, out);
            proof {
                reveal(RustBackend::fns_text);
                assert(fs@.take(i + 1).drop_last() =~= fs@.take(i as int));
                lemma_assoc(start, self.fns_text(fs@.take(i as int), *options, indent_level as int),
                    self.fn_text(fs@[i as int], *options, indent_level as int));
            }
            i = i + 1;
        }
        assert(fs@.take(i as int) =~= fs@);
    }
}


/// Whether rendering the trait at `level` stays within the range of `i32`.
pub open spec fn trait_fits(t: RustTrait, level: int) -> bool {
    t.methods@.len() > 0 ==> level < i32::MAX && fns_fit(t.methods@, level + 1)
}

/// Whether rendering the extern block at `level` stays within the range of `i32`.
pub open spec fn extern_block_fits(b: RustExternBlock, level: int) -> bool {
    level < i32::MAX && fns_fit(b.items@, level + 1)
}

/// Whether rendering the struct at `level` stays within the range of `i32`.
pub open spec fn struct_fits(st: RustStruct, o: RustStructRenderOptions, level: int) -> bool {
    &&& !st.is_tuple ==> level < i32::MAX
    &&& (o.render_impl && st.methods@.len() > 0) ==> level < i32::MAX && fns_fit(st.methods@, level + 1)
}

impl RustBackend {
    /// The body of a trait: `{}` when it has no methods, else the methods one level deeper.
    #[verifier::opaque]
    pub open spec fn trait_body_text(self, t: RustTrait, o: RustFunctionRenderOptions, level: int) -> Seq<char> {
        if t.methods@.len() == 0 {
            " {}"@ + self.nl()
        } else {
            " {"@ + self.nl() + self.fns_text(t.methods@, o, level + 1) + self.ind(level) + "}"@ + self.nl()
        }
    }

    /// A `trait` declaration rendered at `level`.
    pub open spec fn trait_text(self, t: RustTrait, o: RustFunctionRenderOptions, level: int) -> Seq<char> {
        self.opt_docs_text(o.render_docs, t.docs, level)
            + only_if(o.render_attributes, self.attributes_text(t.attributes@, level))
            + self.ind(level) + t.visibility.prefix_text() + "trait "@ + t.name@
            + generic_decls_text(t.generic_args@)
            + only_if(t.supertraits@.len() > 0, ": "@ + join(texts(t.supertraits@), " + "@))
            + self.trait_body_text(t, o, level)
    }

    /// An `extern` block rendered at `level`.
    pub open spec fn extern_block_text(self, b: RustExternBlock, o: RustFunctionRenderOptions, level: int) -> Seq<char> {
        self.opt_docs_text(o.render_docs, b.docs, level) + self.ind(level) + only_if(b.is_unsafe, "unsafe "@)
            + "extern \""@ + b.abi@ + "\" {"@ + self.nl() + self.fns_text(b.items@, o, level + 1)
            + self.ind(level) + "}"@ + self.nl()
    }

    /// The `const` a define is lowered to.
    #[verifier::opaque]
    pub open spec fn definition_line(self, d: RustDefinition, const_type: Seq<char>, level: int) -> Seq<char> {
        match d.value {
            Some(v) => self.ind(level) + "pub const "@ + d.name@ + ": "@ + const_type + " = "@ + v@ + ";"@ + self.nl(),
            None => self.ind(level) + "pub const "@ + d.name@ + ": () = ();"@ + self.nl(),
        }
    }

    /// A define rendered at `level`, with the given constant type and docs switch.
    pub open spec fn definition_text(self, d: RustDefinition, const_type: Seq<char>, render_docs: bool, level: int) -> Seq<char> {
        self.opt_docs_text(render_docs, d.docs, level) + self.definition_line(d, const_type, level)
    }

    /// A constant rendered at `level`.
    pub open spec fn constant_text(self, c: RustConstant, o: RustConstantRenderOptions, level: int) -> Seq<char> {
        self.opt_docs_text(o.render_docs, c.docs, level) + self.ind(level) + c.visibility.prefix_text()
            + (if c.is_static { "static"@ } else { "const"@ }) + " "@ + c.name@ + ": "@ + c.data_type@
            + " = "@ + c.value@ + ";"@ + self.nl()
    }

    /// The `#[repr(...)]` line, when the enum has a representation.
    #[verifier::opaque]
    pub open spec fn repr_text(self, e: RustEnum, level: int) -> Seq<char> {
        opt_wrap(self.ind(level) + "#[repr("@, e.repr, ")]"@ + self.nl())
    }

    /// The payload of a variant as written after its name.
    #[verifier::opaque]
    pub open spec fn payload_text(v: RustEnumVariantValue) -> Seq<char> {
        match v {
            RustEnumVariantValue::Unit => Seq::empty(),
            RustEnumVariantValue::Discriminant(d) => " = "@ + d@,
            RustEnumVariantValue::Tuple(types) => "("@ + join(texts(types@), ", "@) + ")"@,
            RustEnumVariantValue::Struct(fields) => " { "@ + join(
                Seq::new(fields@.len(), |i: int| fields@[i].0@ + ": "@ + fields@[i].1@),
                ", "@,
            ) + " }"@,
        }
    }

    /// One variant line (with its docs) at `level`.
    pub open spec fn variant_text(self, v: super::RustEnumVariant, o: super::RustEnumVariantRenderOptions, level: int) -> Seq<char> {
        self.opt_docs_text(o.render_docs, v.docs, level) + self.ind(level) + v.name@ + Self::payload_text(v.value)
            + ","@ + self.nl()
    }

    /// The variants, one after the other, at `level`.
    #[verifier::opaque]
    pub open spec fn variants_text(self, vs: Seq<super::RustEnumVariant>, o: super::RustEnumVariantRenderOptions, level: int) -> Seq<char>
        decreases vs.len(),
    {
        if vs.len() == 0 {
            Seq::empty()
        } else {
            self.variants_text(vs.drop_last(), o, level) + self.variant_text(vs.last(), o, level)
        }
    }

    /// The derive and repr lines of an enum, in the configured order, when attributes are rendered.
    #[verifier::opaque]
    pub open spec fn enum_attributes_text(self, e: RustEnum, o: RustEnumRenderOptions, level: int) -> Seq<char> {
        only_if(
            o.render_attributes,
            if o.attributes_before_derives {
                self.repr_text(e, level) + self.derives_text(e.derives@, level)
            } else {
                self.derives_text(e.derives@, level) + self.repr_text(e, level)
            },
        )
    }

    /// An enum rendered at `level`.
    pub open spec fn enum_text(self, e: RustEnum, o: RustEnumRenderOptions, level: int) -> Seq<char> {
        self.opt_docs_text(o.render_docs, e.docs, level) + self.enum_attributes_text(e, o, level)
            + self.ind(level) + e.visibility.prefix_text() + "enum "@ + e.name@ + " {"@ + self.nl()
            + self.variants_text(e.variants@, o.variant, level + 1) + self.ind(level) + "}"@ + self.nl()
    }

    /// A struct field line (with docs and attributes) at `level`.
    pub open spec fn field_text(self, f: RustField, o: RustStructRenderOptions, level: int) -> Seq<char> {
        self.opt_docs_text(o.render_docs, f.docs, level)
            + only_if(o.render_attributes, self.attributes_text(f.attributes@, level))
            + self.ind(level) + f.visibility.prefix_text() + f.name@ + ": "@ + f.field_type@ + ","@ + self.nl()
    }

    /// The fields, one after the other, at `level`.
    #[verifier::opaque]
    pub open spec fn fields_text(self, fs: Seq<RustField>, o: RustStructRenderOptions, level: int) -> Seq<char>
        decreases fs.len(),
    {
        if fs.len() == 0 {
            Seq::empty()
        } else {
            self.fields_text(fs.drop_last(), o, level) + self.field_text(fs.last(), o, level)
        }
    }

    /// The attribute and derive lines of a struct, in the configured order, when rendered.
    #[verifier::opaque]
    pub open spec fn struct_attributes_text(self, st: RustStruct, o: RustStructRenderOptions, level: int) -> Seq<char> {
        only_if(
            o.render_attributes,
            if o.attributes_before_derives {
                self.attributes_text(st.attributes@, level) + self.derives_text(st.derives@, level)
            } else {
                self.derives_text(st.derives@, level) + self.attributes_text(st.attributes@, level)
            },
        )
    }

    /// The field list: `(A, B);` for a tuple struct, else the fields in braces.
    #[verifier::opaque]
    pub open spec fn struct_body_text(self, st: RustStruct, o: RustStructRenderOptions, level: int) -> Seq<char> {
        if st.is_tuple {
            "("@ + join(
                Seq::new(st.fields@.len(), |i: int| st.fields@[i].visibility.prefix_text() + st.fields@[i].field_type@),
                ", "@,
            ) + ");"@ + self.nl()
        } else {
            " {"@ + self.nl() + self.fields_text(st.fields@, o, level + 1) + self.ind(level) + "}"@ + self.nl()
        }
    }

    /// The inherent `impl` block holding the methods, separated by blank lines.
    #[verifier::opaque]
    pub open spec fn impl_text(self, st: RustStruct, level: int) -> Seq<char> {
        self.nl() + self.ind(level) + "impl"@ + generic_decls_text(st.generic_args@) + " "@ + st.name@
            + generic_uses_text(st.generic_args@) + " {"@ + self.nl()
            + join(
                Seq::new(
                    st.methods@.len(),
                    |i: int| self.fn_text(st.methods@[i], RustFunctionRenderOptions::spec_default(), level + 1),
                ),
                self.nl(),
            ) + self.ind(level) + "}"@ + self.nl()
    }

    /// A struct (and its `impl` block, when enabled and there are methods) rendered at `level`.
    pub open spec fn struct_text(self, st: RustStruct, o: RustStructRenderOptions, level: int) -> Seq<char> {
        self.opt_docs_text(o.render_docs, st.docs, level) + self.struct_attributes_text(st, o, level)
            + self.ind(level) + st.visibility.prefix_text() + "struct "@ + st.name@
            + generic_decls_text(st.generic_args@) + self.struct_body_text(st, o, level)
            + only_if(o.render_impl && st.methods@.len() > 0, self.impl_text(st, level))
    }

    #[verifier::rlimit(30)]
    fn write_trait_body(
        &self,
        input: &RustTrait,
        options: &RustFunctionRenderOptions,
        indent_level: i32,
        out: &mut String,
    )
        requires
            trait_fits(*input, indent_level as int),
        ensures
            final(out)@ == old(out)@ + self.trait_body_text(*input, *options, indent_level as int),
    {
        proof {
            reveal(RustBackend::trait_body_text);
        }
        let ghost start = out@;
        if input.methods.len() == 0 {
            push_str(out, " {}");
            push_str(out, self.new_line.as_str());
        } else {
            push_str(out, " {");
            push_str(out, self.new_line.as_str());
            self.write_functions(&input.methods, options, indent_level + 1, out);
            push_str(out, self.indent(indent_level).as_str());
            push_str(out, "}");
            push_str(out, self.new_line.as_str());
        }
        assert(out@ =~= start + self.trait_body_text(*input, *options, indent_level as int));
    }

    fn write_supertraits(input: &RustTrait, out: &mut String)
        ensures
            final(out)@ == old(out)@ + only_if(input.supertraits@.len() > 0, ": "@ + join(texts(input.supertraits@), " + "@)),
    {
        proof {
            reveal(only_if);
        }
        let ghost start = out@;
        if input.supertraits.len() > 0 {
            push_str(out, ": ");
            push_joined(out, &input.supertraits, " + ");
        }
        assert(out@ =~= start + only_if(input.supertraits@.len() > 0, ": "@ + join(texts(input.supertraits@), " + "@)));
    }

    fn write_opt_attributes(&self, render: bool, attributes: &Vec<String>, indent_level: i32, out: &mut String)
        ensures
            final(out)@ == old(out)@ + only_if(render, self.attributes_text(attributes@, indent_level as int)),
    {
        proof {
            reveal(only_if);
        }
        let ghost start = out@;
        if render {
            self.write_attributes(attributes, indent_level, out);
        }
        assert(out@ =~= start + only_if(render, self.attributes_text(attributes@, indent_level as int)));
    }

    /// Render a `trait` declaration. Each method is a bodyless [`RustFunction`]
    /// (`body: None`), so it renders as a `fn …;` signature. `options` gates doc/attribute
    /// rendering for the trait and its methods.
    #[verifier::rlimit(30)]
    pub fn render_trait_to(
        &self,
        input: &RustTrait,
        options: Option<&RustFunctionRenderOptions>,
        indent_level: &mut i32,
        out: &mut String,
    )
        requires
            trait_fits(*input, *old(indent_level) as int),
        ensures
            final(out)@ == old(out)@ + self.trait_text(
                *input,
                RustFunctionRenderOptions::or_default(options),
                *old(indent_level) as int,
            ),
            *final(indent_level) == *old(indent_level),
    {
        let binding = RustFunctionRenderOptions::default();
        let options: &RustFunctionRenderOptions = match options {
            Some(o) => o,
            None => &binding,
        };
        let level = *indent_level;
        let ghost start = out@;
        self.write_opt_docs(options.render_docs, &input.docs, level, out);
        self.write_opt_attributes(options.render_attributes, &input.attributes, level, out);
        push_str(out, self.indent(level).as_str());
        push_str(out, input.visibility.prefix().as_str());
        push_str(out, "trait ");
        push_str(out, input.name.as_str());
        push_str(out, render_generic_decls(&input.generic_args).as_str());
        Self::write_supertraits(input, out);
        self.write_trait_body(input, options, level, out);
        assert(out@ =~= start + self.trait_text(*input, *options, level as int));
    }

    /// Render a `trait` declaration to a string.
    pub fn render_trait(
        &self,
        input: &RustTrait,
        options: Option<&RustFunctionRenderOptions>,
        indent_level: &mut i32,
    ) -> (r: String)
        requires
            trait_fits(*input, *old(indent_level) as int),
        ensures
            r@ == self.trait_text(*input, RustFunctionRenderOptions::or_default(options), *old(indent_level) as int),
            *final(indent_level) == *old(indent_level),
    {
        let mut out = String::new();
        self.render_trait_to(input, options, indent_level, &mut out);
        assert(out@ =~= self.trait_text(*input, RustFunctionRenderOptions::or_default(options), *old(indent_level) as int));
        out
    }

    /// Render an `extern` block. Each item is a bodyless [`RustFunction`]; the block
    /// owns the ABI, so items carry no `abi` of their own.
    #[verifier::rlimit(30)]
    pub fn render_extern_block_to(
        &self,
        input: &RustExternBlock,
        options: Option<&RustFunctionRenderOptions>,
        indent_level: &mut i32,
        out: &mut String,
    )
        requires
            extern_block_fits(*input, *old(indent_level) as int),
        ensures
            final(out)@ == old(out)@ + self.extern_block_text(
                *input,
                RustFunctionRenderOptions::or_default(options),
                *old(indent_level) as int,
            ),
            *final(indent_level) == *old(indent_level),
    {
        let binding = RustFunctionRenderOptions::default();
        let options: &RustFunctionRenderOptions = match options {
            Some(o) => o,
            None => &binding,
        };
        let level = *indent_level;
        let ghost start = out@;
        self.write_opt_docs(options.render_docs, &input.docs, level, out);
        push_str(out, self.indent(level).as_str());
        push_when(out, input.is_unsafe, "unsafe ");
        push_str(out, "extern \"");
        push_str(out, input.abi.as_str());
        push_str(out, "\" {");
        push_str(out, self.new_line.as_str());
        self.write_functions(&input.items, options, level + 1, out);
        push_str(out, self.indent(level).as_str());
        push_str(out, "}");
        push_str(out, self.new_line.as_str());
        assert(out@ =~= start + self.extern_block_text(*input, *options, level as int));
    }

    /// Render an `extern` block to a string.
    pub fn render_extern_block(
        &self,
        input: &RustExternBlock,
        options: Option<&RustFunctionRenderOptions>,
        indent_level: &mut i32,
    ) -> (r: String)
        requires
            extern_block_fits(*input, *old(indent_level) as int),
        ensures
            r@ == self.extern_block_text(*input, RustFunctionRenderOptions::or_default(options), *old(indent_level) as int),
            *final(indent_level) == *old(indent_level),
    {
        let mut out = String::new();
        self.render_extern_block_to(input, options, indent_level, &mut out);
        assert(out@ =~= self.extern_block_text(*input, RustFunctionRenderOptions::or_default(options), *old(indent_level) as int));
        out
    }
}


/// Whether rendering the enum at `level` stays within the range of `i32`.
pub open spec fn enum_fits(level: int) -> bool {
    level < i32::MAX
}

impl RustBackend {
    #[verifier::rlimit(30)]
    fn write_definition_line(&self, input: &RustDefinition, const_type: &str, indent_level: i32, out: &mut String)
        ensures
            final(out)@ == old(out)@ + self.definition_line(*input, const_type@, indent_level as int),
    {
        proof {
            reveal(RustBackend::definition_line);
        }
        let ghost start = out@;
        push_str(out, self.indent(indent_level).as_str());
        push_str(out, "pub const ");
        push_str(out, input.name.as_str());
        match &input.value {
            Some(value) => {
                push_str(out, ": ");
                push_str(out, const_type);
                push_str(out, " = ");
                push_str(out, value.as_str());
                push_str(out, ";");
            },
            None => {
                push_str(out, ": () = ();");
            },
        }
        push_str(out, self.new_line.as_str());
        assert(out@ =~= start + self.definition_line(*input, const_type@, indent_level as int));
    }

    /// Render a define, lowered to a `pub const` item.
    pub fn render_definition_to(
        &self,
        input: &RustDefinition,
        before: Option<&str>,
        after: Option<&str>,
        options: Option<&RustDefinitionRenderOptions>,
        indent_level: &mut i32,
        out: &mut String,
    )
        ensures
            final(out)@ == old(out)@ + opt_str(before) + self.definition_text(
                *input,
                RustDefinitionRenderOptions::const_type_or_default(options),
                RustDefinitionRenderOptions::render_docs_or_default(options),
                *old(indent_level) as int,
            ) + opt_str(after),
            *final(indent_level) == *old(indent_level),
    {
        let binding = RustDefinitionRenderOptions::default();
        let options: &RustDefinitionRenderOptions = match options {
            Some(o) => o,
            None => &binding,
        };
        let level = *indent_level;
        let ghost start = out@;
        push_opt_str(out, before);
        self.write_opt_docs(options.render_docs, &input.docs, level, out);
        self.write_definition_line(input, options.const_type.as_str(), level, out);
        push_opt_str(out, after);
        assert(out@ =~= start + opt_str(before) + self.definition_text(
            *input,
            options.const_type@,
            options.render_docs,
            level as int,
        ) + opt_str(after));
    }

    /// Render a define to a string.
    pub fn render_definition(
        &self,
        input: &RustDefinition,
        before: Option<&str>,
        after: Option<&str>,
        options: Option<&RustDefinitionRenderOptions>,
        indent_level: &mut i32,
    ) -> (r: String)
        ensures
            r@ == opt_str(before) + self.definition_text(
                *input,
                RustDefinitionRenderOptions::const_type_or_default(options),
                RustDefinitionRenderOptions::render_docs_or_default(options),
                *old(indent_level) as int,
            ) + opt_str(after),
            *final(indent_level) == *old(indent_level),
    {
        let mut out = String::new();
        self.render_definition_to(input, before, after, options, indent_level, &mut out);
        assert(out@ =~= opt_str(before) + self.definition_text(
            *input,
            RustDefinitionRenderOptions::const_type_or_default(options),
            RustDefinitionRenderOptions::render_docs_or_default(options),
            *old(indent_level) as int,
        ) + opt_str(after));
        out
    }

    /// Render a `const` or `static` item.
    #[verifier::rlimit(30)]
    pub fn render_constant_to(
        &self,
        input: &RustConstant,
        before: Option<&str>,
        after: Option<&str>,
        options: Option<&RustConstantRenderOptions>,
        indent_level: &mut i32,
        out: &mut String,
    )
        ensures
            final(out)@ == old(out)@ + opt_str(before) + self.constant_text(
                *input,
                RustConstantRenderOptions::or_default(options),
                *old(indent_level) as int,
            ) + opt_str(after),
            *final(indent_level) == *old(indent_level),
    {
        let binding = RustConstantRenderOptions::default();
        let options: &RustConstantRenderOptions = match options {
            Some(o) => o,
            None => &binding,
        };
        let level = *indent_level;
        let ghost start = out@;
        push_opt_str(out, before);
        self.write_opt_docs(options.render_docs, &input.docs, level, out);
        let keyword: &str = if input.is_static { "static" } else { "const" };
        push_str(out, self.indent(level).as_str());
        push_str(out, input.visibility.prefix().as_str());
        push_str(out, keyword);
        push_str(out, " ");
        push_str(out, input.name.as_str());
        push_str(out, ": ");
        push_str(out, input.data_type.as_str());
        push_str(out, " = ");
        push_str(out, input.value.as_str());
        push_str(out, ";");
        push_str(out, self.new_line.as_str());
        push_opt_str(out, after);
        assert(out@ =~= start + opt_str(before) + self.constant_text(*input, *options, level as int) + opt_str(after));
    }

    /// Render a `const` or `static` item to a string.
    pub fn render_constant(
        &self,
        input: &RustConstant,
        before: Option<&str>,
        after: Option<&str>,
        options: Option<&RustConstantRenderOptions>,
        indent_level: &mut i32,
    ) -> (r: String)
        ensures
            r@ == opt_str(before) + self.constant_text(
                *input,
                RustConstantRenderOptions::or_default(options),
                *old(indent_level) as int,
            ) + opt_str(after),
            *final(indent_level) == *old(indent_level),
    {
        let mut out = String::new();
        self.render_constant_to(input, before, after, options, indent_level, &mut out);
        assert(out@ =~= opt_str(before) + self.constant_text(
            *input,
            RustConstantRenderOptions::or_default(options),
            *old(indent_level) as int,
        ) + opt_str(after));
        out
    }

    fn write_repr(&self, input: &RustEnum, indent_level: i32, out: &mut String)
        ensures
            final(out)@ == old(out)@ + self.repr_text(*input, indent_level as int),
    {
        proof {
            reveal(RustBackend::repr_text);
        }
        let mut pre = self.indent(indent_level);
        push_str(&mut pre, "#[repr(");
        let mut post = String::new();
        push_str(&mut post, ")]");
        push_str(&mut post, self.new_line.as_str());
        assert(post@ =~= ")]"@ + self.nl());
        push_opt(out, pre.as_str(), &input.repr, post.as_str());
    }

    fn write_enum_attributes(&self, input: &RustEnum, options: &RustEnumRenderOptions, indent_level: i32, out: &mut String)
        ensures
            final(out)@ == old(out)@ + self.enum_attributes_text(*input, *options, indent_level as int),
    {
        proof {
            reveal(RustBackend::enum_attributes_text);
            reveal(only_if);
        }
        let ghost start = out@;
        if options.render_attributes {
            if options.attributes_before_derives {
                self.write_repr(input, indent_level, out);
                self.write_derives(&input.derives, indent_level, out);
            } else {
                self.write_derives(&input.derives, indent_level, out);
                self.write_repr(input, indent_level, out);
            }
        }
        assert(out@ =~= start + self.enum_attributes_text(*input, *options, indent_level as int));
    }

    #[verifier::rlimit(30)]
    fn write_payload(value: &RustEnumVariantValue, out: &mut String)
        ensures
            final(out)@ == old(out)@ + Self::payload_text(*value),
    {
        proof {
            reveal(RustBackend::payload_text);
        }
        let ghost start = out@;
        match value {
            RustEnumVariantValue::Unit => {},
            RustEnumVariantValue::Discriminant(d) => {
                push_str(out, " = ");
                push_str(out, d.as_str());
            },
            RustEnumVariantValue::Tuple(types) => {
                push_str(out, "(");
                push_joined(out, types, ", ");
                push_str(out, ")");
            },
            RustEnumVariantValue::Struct(fields) => {
                push_str(out, " { ");
                let ghost parts = Seq::new(fields@.len(), |i: int| fields@[i].0@ + ": "@ + fields@[i].1@);
                let ghost jstart = out@;
                proof {
                    lemma_join_start(jstart, parts, ", "@);
                }
                let mut i: usize = 0;
                while i < fields.len()
                    invariant
                        i <= fields@.len(),
                        parts == Seq::new(fields@.len(), |i: int| fields@[i].0@ + ": "@ + fields@[i].1@),
                        out@ == jstart + join(parts.take(i as int), ", "@),
                    decreases fields@.len() - i,
                {
                    let ghost prev = out@;
                    if i > 0 {
                        push_str(out, ", ");
                    }
                    let ghost p = out@;
                    push_str(out, fields[i].0.as_str());
                    push_str(out, ": ");
                    push_str(out, fields[i].1.as_str());
                    proof {
                        assert(out@ =~= p + parts[i as int]);
                        lemma_join_loop(jstart, parts, ", "@, i as int, prev, out@);
                    }
                    i = i + 1;
                }
                proof {
                    lemma_join_done(jstart, parts, ", "@, i as int);
                }
                push_str(out, " }");
            },
        }
        assert(out@ =~= start + Self::payload_text(*value));
    }

    fn write_variant(
        &self,
        v: &super::RustEnumVariant,
        options: &super::RustEnumVariantRenderOptions,
        indent_level: i32,
        out: &mut String,
    )
        ensures
            final(out)@ == old(out)@ + self.variant_text(*v, *options, indent_level as int),
    {
        let ghost start = out@;
        self.write_opt_docs(options.render_docs, &v.docs, indent_level, out);
        push_str(out, self.indent(indent_level).as_str());
        push_str(out, v.name.as_str());
        Self::write_payload(&v.value, out);
        push_str(out, ",");
        push_str(out, self.new_line.as_str());
        assert(out@ =~= start + self.variant_text(*v, *options, indent_level as int));
    }

    fn write_variants(
        &self,
        vs: &Vec<super::RustEnumVariant>,
        options: &super::RustEnumVariantRenderOptions,
        indent_level: i32,
        out: &mut String,
    )
        ensures
            final(out)@ == old(out)@ + self.variants_text(vs@, *options, indent_level as int),
    {
        let ghost start = out@;
        proof {
            reveal(RustBackend::variants_text);
            assert(vs@.take(0) =~= Seq::<super::RustEnumVariant>::empty());
            assert(start =~= start + self.variants_text(vs@.take(0), *options, indent_level as int));
        }
        let mut i: usize = 0;
        while i < vs.len()
            invariant
                i <= vs@.len(),
                out@ == start + self.variants_text(vs@.take(i as int), *options, indent_level as int),
            decreases vs@.len() - i,
        {
            self.write_variant(&vs[i], options, indent_level, out);
            proof {
                reveal(RustBackend::variants_text);
                assert(vs@.take(i + 1).drop_last() =~= vs@.take(i as int));
                lemma_assoc(start, self.variants_text(vs@.take(i as int), *options, indent_level as int),
                    self.variant_text(vs@[i as int], *options, indent_level as int));
            }
            i = i + 1;
        }
        assert(vs@.take(i as int) =~= vs@);
    }

    /// Render an enum.
    #[verifier::rlimit(30)]
    pub fn render_enum_to(
        &self,
        input: &RustEnum,
        before: Option<&str>,
        after: Option<&str>,
        options: Option<&RustEnumRenderOptions>,
        indent_level: &mut i32,
        out: &mut String,
    )
        requires
            enum_fits(*old(indent_level) as int),
        ensures
            final(out)@ == old(out)@ + opt_str(before) + self.enum_text(
                *input,
                RustEnumRenderOptions::or_default(options),
                *old(indent_level) as int,
            ) + opt_str(after),
            *final(indent_level) == *old(indent_level),
    {
        let binding = RustEnumRenderOptions::default();
        let options: &RustEnumRenderOptions = match options {
            Some(o) => o,
            None => &binding,
        };
        let level = *indent_level;
        let ghost start = out@;
        push_opt_str(out, before);
        self.write_opt_docs(options.render_docs, &input.docs, level, out);
        self.write_enum_attributes(input, options, level, out);
        push_str(out, self.indent(level).as_str());
        push_str(out, input.visibility.prefix().as_str());
        push_str(out, "enum ");
        push_str(out, input.name.as_str());
        push_str(out, " {");
        push_str(out, self.new_line.as_str());
        *indent_level = level + 1;
        self.write_variants(&input.variants, &options.variant, level + 1, out);
        *indent_level = level;
        push_str(out, self.indent(level).as_str());
        push_str(out, "}");
        push_str(out, self.new_line.as_str());
        push_opt_str(out, after);
        assert(out@ =~= start + opt_str(before) + self.enum_text(*input, *options, level as int) + opt_str(after));
    }

    /// Render an enum to a string.
    pub fn render_enum(
        &self,
        input: &RustEnum,
        before: Option<&str>,
        after: Option<&str>,
        options: Option<&RustEnumRenderOptions>,
        indent_level: &mut i32,
    ) -> (r: String)
        requires
            enum_fits(*old(indent_level) as int),
        ensures
            r@ == opt_str(before) + self.enum_text(
                *input,
                RustEnumRenderOptions::or_default(options),
                *old(indent_level) as int,
            ) + opt_str(after),
            *final(indent_level) == *old(indent_level),
    {
        let mut out = String::new();
        self.render_enum_to(input, before, after, options, indent_level, &mut out);
        assert(out@ =~= opt_str(before) + self.enum_text(
            *input,
            RustEnumRenderOptions::or_default(options),
            *old(indent_level) as int,
        ) + opt_str(after));
        out
    }

    /// Render a function.
    pub fn render_function_to(
        &self,
        input: &RustFunction,
        before: Option<&str>,
        after: Option<&str>,
        options: Option<&RustFunctionRenderOptions>,
        indent_level: &mut i32,
        out: &mut String,
    )
        requires
            fn_fits(*input, *old(indent_level) as int),
        ensures
            final(out)@ == old(out)@ + opt_str(before) + self.fn_text(
                *input,
                RustFunctionRenderOptions::or_default(options),
                *old(indent_level) as int,
            ) + opt_str(after),
            *final(indent_level) == *old(indent_level),
    {
        let binding = RustFunctionRenderOptions::default();
        let options: &RustFunctionRenderOptions = match options {
            Some(o) => o,
            None => &binding,
        };
        let ghost start = out@;
        push_opt_str(out, before);
        self.write_function(input, options, *indent_level, out);
        push_opt_str(out, after);
        assert(out@ =~= start + opt_str(before) + self.fn_text(*input, *options, *indent_level as int) + opt_str(after));
    }

    /// Render a function to a string.
    pub fn render_function(
        &self,
        input: &RustFunction,
        before: Option<&str>,
        after: Option<&str>,
        options: Option<&RustFunctionRenderOptions>,
        indent_level: &mut i32,
    ) -> (r: String)
        requires
            fn_fits(*input, *old(indent_level) as int),
        ensures
            r@ == opt_str(before) + self.fn_text(
                *input,
                RustFunctionRenderOptions::or_default(options),
                *old(indent_level) as int,
            ) + opt_str(after),
            *final(indent_level) == *old(indent_level),
    {
        let mut out = String::new();
        self.render_function_to(input, before, after, options, indent_level, &mut out);
        assert(out@ =~= opt_str(before) + self.fn_text(
            *input,
            RustFunctionRenderOptions::or_default(options),
            *old(indent_level) as int,
        ) + opt_str(after));
        out
    }
}


impl RustBackend {
    #[verifier::rlimit(30)]
    fn write_field(&self, field: &RustField, options: &RustStructRenderOptions, indent_level: i32, out: &mut String)
        ensures
            final(out)@ == old(out)@ + self.field_text(*field, *options, indent_level as int),
    {
        let ghost start = out@;
        self.write_opt_docs(options.render_docs, &field.docs, indent_level, out);
        self.write_opt_attributes(options.render_attributes, &field.attributes, indent_level, out);
        push_str(out, self.indent(indent_level).as_str());
        push_str(out, field.visibility.prefix().as_str());
        push_str(out, field.name.as_str());
        push_str(out, ": ");
        push_str(out, field.field_type.as_str());
        push_str(out, ",");
        push_str(out, self.new_line.as_str());
        assert(out@ =~= start + self.field_text(*field, *options, indent_level as int));
    }

    fn write_fields(&self, fs: &Vec<RustField>, options: &RustStructRenderOptions, indent_level: i32, out: &mut String)
        ensures
            final(out)@ == old(out)@ + self.fields_text(fs@, *options, indent_level as int),
    {
        let ghost start = out@;
        proof {
            reveal(RustBackend::fields_text);
            assert(fs@.take(0) =~= Seq::<RustField>::empty());
            assert(start =~= start + self.fields_text(fs@.take(0), *options, indent_level as int));
        }
        let mut i: usize = 0;
        while i < fs.len()
            invariant
                i <= fs@.len(),
                out@ == start + self.fields_text(fs@.take(i as int), *options, indent_level as int),
            decreases fs@.len() - i,
        {
            self.write_field(&fs[i], options, indent_level, out);
            proof {
                reveal(RustBackend::fields_text);
                assert(fs@.take(i + 1).drop_last() =~= fs@.take(i as int));
                lemma_assoc(start, self.fields_text(fs@.take(i as int), *options, indent_level as int),
                    self.field_text(fs@[i as int], *options, indent_level as int));
            }
            i = i + 1;
        }
        assert(fs@.take(i as int) =~= fs@);
    }

    fn write_struct_attributes(&self, input: &RustStruct, options: &RustStructRenderOptions, indent_level: i32, out: &mut String)
        ensures
            final(out)@ == old(out)@ + self.struct_attributes_text(*input, *options, indent_level as int),
    {
        proof {
            reveal(RustBackend::struct_attributes_text);
            reveal(only_if);
        }
        let ghost start = out@;
        if options.render_attributes {
            if options.attributes_before_derives {
                self.write_attributes(&input.attributes, indent_level, out);
                self.write_derives(&input.derives, indent_level, out);
            } else {
                self.write_derives(&input.derives, indent_level, out);
                self.write_attributes(&input.attributes, indent_level, out);
            }
        }
        assert(out@ =~= start + self.struct_attributes_text(*input, *options, indent_level as int));
    }

    fn write_tuple_fields(input: &RustStruct, out: &mut String)
        ensures
            final(out)@ == old(out)@ + join(
                Seq::new(input.fields@.len(), |i: int| input.fields@[i].visibility.prefix_text() + input.fields@[i].field_type@),
                ", "@,
            ),
    {
        let ghost parts = Seq::new(input.fields@.len(), |i: int| input.fields@[i].visibility.prefix_text() + input.fields@[i].field_type@);
        let ghost start = out@;
        proof {
            lemma_join_start(start, parts, ", "@);
        }
        let mut i: usize = 0;
        while i < input.fields.len()
            invariant
                i <= input.fields@.len(),
                parts == Seq::new(input.fields@.len(), |i: int| input.fields@[i].visibility.prefix_text() + input.fields@[i].field_type@),
                out@ == start + join(parts.take(i as int), ", "@),
            decreases input.fields@.len() - i,
        {
            let ghost prev = out@;
            if i > 0 {
                push_str(out, ", ");
            }
            let ghost p = out@;
            push_str(out, input.fields[i].visibility.prefix().as_str());
            push_str(out, input.fields[i].field_type.as_str());
            proof {
                assert(out@ =~= p + parts[i as int]);
                lemma_join_loop(start, parts, ", "@, i as int, prev, out@);
            }
            i = i + 1;
        }
        proof {
            lemma_join_done(start, parts, ", "@, i as int);
        }
    }

    #[verifier::rlimit(30)]
    fn write_struct_body(&self, input: &RustStruct, options: &RustStructRenderOptions, indent_level: i32, out: &mut String)
        requires
            !input.is_tuple ==> indent_level < i32::MAX,
        ensures
            final(out)@ == old(out)@ + self.struct_body_text(*input, *options, indent_level as int),
    {
        proof {
            reveal(RustBackend::struct_body_text);
        }
        let ghost start = out@;
        if input.is_tuple {
            push_str(out, "(");
            Self::write_tuple_fields(input, out);
            push_str(out, ");");
            push_str(out, self.new_line.as_str());
        } else {
            push_str(out, " {");
            push_str(out, self.new_line.as_str());
            self.write_fields(&input.fields, options, indent_level + 1, out);
            push_str(out, self.indent(indent_level).as_str());
            push_str(out, "}");
            push_str(out, self.new_line.as_str());
        }
        assert(out@ =~= start + self.struct_body_text(*input, *options, indent_level as int));
    }

    fn write_methods_separated(&self, input: &RustStruct, indent_level: i32, out: &mut String)
        requires
            fns_fit(input.methods@, indent_level as int),
        ensures
            final(out)@ == old(out)@ + join(
                Seq::new(
                    input.methods@.len(),
                    |i: int| self.fn_text(input.methods@[i], RustFunctionRenderOptions::spec_default(), indent_level as int),
                ),
                self.nl(),
            ),
    {
        let fn_options = RustFunctionRenderOptions::default();
        let ghost parts = Seq::new(
            input.methods@.len(),
            |i: int| self.fn_text(input.methods@[i], RustFunctionRenderOptions::spec_default(), indent_level as int),
        );
        let ghost start = out@;
        proof {
            lemma_join_start(start, parts, self.nl());
        }
        let mut i: usize = 0;
        while i < input.methods.len()
            invariant
                i <= input.methods@.len(),
                fns_fit(input.methods@, indent_level as int),
                fn_options == RustFunctionRenderOptions::spec_default(),
                parts == Seq::new(
                    input.methods@.len(),
                    |i: int| self.fn_text(input.methods@[i], RustFunctionRenderOptions::spec_default(), indent_level as int),
                ),
                out@ == start + join(parts.take(i as int), self.nl()),
            decreases input.methods@.len() - i,
        {
            let ghost prev = out@;
            if i > 0 {
                push_str(out, self.new_line.as_str());
            }
            self.write_function(&input.methods[i], &fn_options, indent_level, out);
            proof {
                lemma_join_loop(start, parts, self.nl(), i as int, prev, out@);
            }
            i = i + 1;
        }
        proof {
            lemma_join_done(start, parts, self.nl(), i as int);
        }
    }

    #[verifier::rlimit(30)]
    fn write_impl(&self, input: &RustStruct, indent_level: i32, out: &mut String)
        requires
            indent_level < i32::MAX,
            fns_fit(input.methods@, indent_level + 1),
        ensures
            final(out)@ == old(out)@ + self.impl_text(*input, indent_level as int),
    {
        proof {
            reveal(RustBackend::impl_text);
        }
        let ghost start = out@;
        push_str(out, self.new_line.as_str());
        push_str(out, self.indent(indent_level).as_str());
        push_str(out, "impl");
        push_str(out, render_generic_decls(&input.generic_args).as_str());
        push_str(out, " ");
        push_str(out, input.name.as_str());
        push_str(out, render_generic_uses(&input.generic_args).as_str());
        push_str(out, " {");
        push_str(out, self.new_line.as_str());
        self.write_methods_separated(input, indent_level + 1, out);
        push_str(out, self.indent(indent_level).as_str());
        push_str(out, "}");
        push_str(out, self.new_line.as_str());
        assert(out@ =~= start + self.impl_text(*input, indent_level as int));
    }

    fn write_opt_impl(&self, input: &RustStruct, options: &RustStructRenderOptions, indent_level: i32, out: &mut String)
        requires
            struct_fits(*input, *options, indent_level as int),
        ensures
            final(out)@ == old(out)@ + only_if(options.render_impl && input.methods@.len() > 0, self.impl_text(*input, indent_level as int)),
    {
        proof {
            reveal(only_if);
        }
        let ghost start = out@;
        if options.render_impl && input.methods.len() > 0 {
            self.write_impl(input, indent_level, out);
        }
        assert(out@ =~= start + only_if(options.render_impl && input.methods@.len() > 0, self.impl_text(*input, indent_level as int)));
    }

    /// Render a struct, followed by an `impl` block for its methods when enabled.
    #[verifier::rlimit(30)]
    pub fn render_struct_to(
        &self,
        input: &RustStruct,
        before: Option<&str>,
        after: Option<&str>,
        options: Option<&RustStructRenderOptions>,
        indent_level: &mut i32,
        out: &mut String,
    )
        requires
            struct_fits(*input, RustStructRenderOptions::or_default(options), *old(indent_level) as int),
        ensures
            final(out)@ == old(out)@ + opt_str(before) + self.struct_text(
                *input,
                RustStructRenderOptions::or_default(options),
                *old(indent_level) as int,
            ) + opt_str(after),
            *final(indent_level) == *old(indent_level),
    {
        let binding = RustStructRenderOptions::default();
        let options: &RustStructRenderOptions = match options {
            Some(o) => o,
            None => &binding,
        };
        let level = *indent_level;
        let ghost start = out@;
        push_opt_str(out, before);
        self.write_opt_docs(options.render_docs, &input.docs, level, out);
        self.write_struct_attributes(input, options, level, out);
        push_str(out, self.indent(level).as_str());
        push_str(out, input.visibility.prefix().as_str());
        push_str(out, "struct ");
        push_str(out, input.name.as_str());
        push_str(out, render_generic_decls(&input.generic_args).as_str());
        self.write_struct_body(input, options, level, out);
        self.write_opt_impl(input, options, level, out);
        push_opt_str(out, after);
        assert(out@ =~= start + opt_str(before) + self.struct_text(*input, *options, level as int) + opt_str(after));
    }

    /// Render a struct to a string.
    pub fn render_struct(
        &self,
        input: &RustStruct,
        before: Option<&str>,
        after: Option<&str>,
        options: Option<&RustStructRenderOptions>,
        indent_level: &mut i32,
    ) -> (r: String)
        requires
            struct_fits(*input, RustStructRenderOptions::or_default(options), *old(indent_level) as int),
        ensures
            r@ == opt_str(before) + self.struct_text(
                *input,
                RustStructRenderOptions::or_default(options),
                *old(indent_level) as int,
            ) + opt_str(after),
            *final(indent_level) == *old(indent_level),
    {
        let mut out = String::new();
        self.render_struct_to(input, before, after, options, indent_level, &mut out);
        assert(out@ =~= opt_str(before) + self.struct_text(
            *input,
            RustStructRenderOptions::or_default(options),
            *old(indent_level) as int,
        ) + opt_str(after));
        out
    }
}


/// The view of module render options: define constant type, define docs, and the per-kind options.
pub type ModuleOptionsView = (
    Seq<char>,
    bool,
    RustConstantRenderOptions,
    RustEnumRenderOptions,
    RustStructRenderOptions,
    RustFunctionRenderOptions,
);

/// Whether rendering every struct of `sts` at `level` stays within the range of `i32`.
pub open spec fn structs_fit(sts: Seq<RustStruct>, o: RustStructRenderOptions, level: int) -> bool {
    forall|i: int| 0 <= i < sts.len() ==> struct_fits(#[trigger] sts[i], o, level)
}

/// Whether rendering the module at `level` stays within the range of `i32`.
pub open spec fn module_fits(m: RustModule, o: ModuleOptionsView, level: int) -> bool
    decreases m,
{
    &&& level < i32::MAX
    &&& (m.enums matches Some(es) && es@.len() > 0 ==> enum_fits(level + 1))
    &&& (m.structs matches Some(sts) ==> structs_fit(sts@, o.4, level + 1))
    &&& (m.functions matches Some(fs) ==> fns_fit(fs@, level + 1))
    &&& (m.modules matches Some(ms) ==> forall|i: int|
        0 <= i < ms@.len() ==> module_fits(#[trigger] ms@[i], o, level + 1))
}

impl RustBackend {
    /// The blocks of a module's body, each rendered at `level`: defines, constants, enums,
    /// structs, functions, then submodules.
    pub open spec fn module_blocks(self, m: RustModule, o: ModuleOptionsView, level: int) -> Seq<Seq<char>>
        decreases m, 1int,
    {
        self.define_blocks(m.defines, o.0, o.1, level) + self.constant_blocks(m.constants, o.2, level)
            + self.enum_blocks(m.enums, o.3, level) + self.struct_blocks(m.structs, o.4, level)
            + self.function_blocks(m.functions, o.5, level) + self.sub_blocks(m, o, level)
    }

    /// The submodules, each rendered at `level`.
    pub open spec fn sub_blocks(self, m: RustModule, o: ModuleOptionsView, level: int) -> Seq<Seq<char>>
        decreases m, 0int,
    {
        match m.modules {
            Some(ms) => self.modules_texts(ms@, o, level),
            None => Seq::empty(),
        }
    }

    /// The defines, each rendered at `level`.
    pub open spec fn define_blocks(self, items: Option<Vec<RustDefinition>>, const_type: Seq<char>, render_docs: bool, level: int) -> Seq<Seq<char>> {
        match items {
            Some(xs) => Seq::new(xs@.len(), |i: int| self.definition_text(xs@[i], const_type, render_docs, level)),
            None => Seq::empty(),
        }
    }

    /// The constants, each rendered at `level`.
    pub open spec fn constant_blocks(self, items: Option<Vec<RustConstant>>, o: RustConstantRenderOptions, level: int) -> Seq<Seq<char>> {
        match items {
            Some(xs) => Seq::new(xs@.len(), |i: int| self.constant_text(xs@[i], o, level)),
            None => Seq::empty(),
        }
    }

    /// The enums, each rendered at `level`.
    pub open spec fn enum_blocks(self, items: Option<Vec<RustEnum>>, o: RustEnumRenderOptions, level: int) -> Seq<Seq<char>> {
        match items {
            Some(xs) => Seq::new(xs@.len(), |i: int| self.enum_text(xs@[i], o, level)),
            None => Seq::empty(),
        }
    }

    /// The structs, each rendered at `level`.
    pub open spec fn struct_blocks(self, items: Option<Vec<RustStruct>>, o: RustStructRenderOptions, level: int) -> Seq<Seq<char>> {
        match items {
            Some(xs) => Seq::new(xs@.len(), |i: int| self.struct_text(xs@[i], o, level)),
            None => Seq::empty(),
        }
    }

    /// The functions, each rendered at `level`.
    pub open spec fn function_blocks(self, items: Option<Vec<RustFunction>>, o: RustFunctionRenderOptions, level: int) -> Seq<Seq<char>> {
        match items {
            Some(xs) => Seq::new(xs@.len(), |i: int| self.fn_text(xs@[i], o, level)),
            None => Seq::empty(),
        }
    }

    /// Each module of `ms` rendered at `level`.
    pub open spec fn modules_texts(self, ms: Seq<RustModule>, o: ModuleOptionsView, level: int) -> Seq<Seq<char>>
        decreases ms, 0int,
    {
        if ms.len() == 0 {
            Seq::empty()
        } else {
            self.modules_texts(ms.drop_last(), o, level).push(self.module_text(ms.last(), o, level))
        }
    }

    /// The blocks without their trailing line endings, separated by blank lines, then a line
    /// ending; nothing when that is empty.
    pub open spec fn blocks_body_text(self, blocks: Seq<Seq<char>>) -> Seq<char> {
        joined_body(trim_blocks(blocks, self.nl()), self.nl())
    }

    /// A `mod` with its docs and body rendered at `level`.
    pub open spec fn module_text(self, m: RustModule, o: ModuleOptionsView, level: int) -> Seq<char>
        decreases m, 2int,
    {
        self.opt_docs_text(true, m.docs, level) + self.ind(level) + m.visibility.prefix_text() + "mod "@ + m.name@
            + " {"@ + self.nl() + self.blocks_body_text(self.module_blocks(m, o, level + 1)) + self.ind(level)
            + "}"@ + self.nl()
    }
}


impl RustBackend {
    fn push_definition_blocks(
        &self,
        items: &Option<Vec<RustDefinition>>,
        options: &RustDefinitionRenderOptions,
        level: i32,
        blocks: &mut Vec<String>,
    )
        ensures
            texts(final(blocks)@) == texts(old(blocks)@) + trim_blocks(self.define_blocks(*items, options.const_type@, options.render_docs, level as int), self.nl()),
    {
        let ghost b0 = texts(blocks@);
        if let Some(xs) = items {
            let ghost all = Seq::new(xs@.len(), |i: int| self.definition_text(xs@[i], options.const_type@, options.render_docs, level as int));
            assert(b0 =~= b0 + trim_blocks(all.take(0), self.nl()));
            let mut i: usize = 0;
            while i < xs.len()
                invariant
                    i <= xs@.len(),
                    all == Seq::new(xs@.len(), |i: int| self.definition_text(xs@[i], options.const_type@, options.render_docs, level as int)),
                    texts(blocks@) == b0 + trim_blocks(all.take(i as int), self.nl()),
                decreases xs@.len() - i,
            {
                let mut lvl = level;
                let r = self.render_definition(&xs[i], None, None, Some(options), &mut lvl);
                proof {
                    reveal(opt_str);
                    assert(r@ =~= all[i as int]);
                }
                push_trimmed(blocks, r, self.new_line.as_str());
                assert(texts(blocks@) =~= b0 + trim_blocks(all.take(i + 1), self.nl()));
                i = i + 1;
            }
            assert(all.take(i as int) =~= all);
        } else {
            assert(b0 =~= b0 + trim_blocks(Seq::empty(), self.nl()));
        }
    }

    fn push_constant_blocks(
        &self,
        items: &Option<Vec<RustConstant>>,
        options: &RustConstantRenderOptions,
        level: i32,
        blocks: &mut Vec<String>,
    )
        ensures
            texts(final(blocks)@) == texts(old(blocks)@) + trim_blocks(self.constant_blocks(*items, *options, level as int), self.nl()),
    {
        let ghost b0 = texts(blocks@);
        if let Some(xs) = items {
            let ghost all = Seq::new(xs@.len(), |i: int| self.constant_text(xs@[i], *options, level as int));
            assert(b0 =~= b0 + trim_blocks(all.take(0), self.nl()));
            let mut i: usize = 0;
            while i < xs.len()
                invariant
                    i <= xs@.len(),
                    all == Seq::new(xs@.len(), |i: int| self.constant_text(xs@[i], *options, level as int)),
                    texts(blocks@) == b0 + trim_blocks(all.take(i as int), self.nl()),
                decreases xs@.len() - i,
            {
                let mut lvl = level;
                let r = self.render_constant(&xs[i], None, None, Some(options), &mut lvl);
                proof {
                    reveal(opt_str);
                    assert(r@ =~= all[i as int]);
                }
                push_trimmed(blocks, r, self.new_line.as_str());
                assert(texts(blocks@) =~= b0 + trim_blocks(all.take(i + 1), self.nl()));
                i = i + 1;
            }
            assert(all.take(i as int) =~= all);
        } else {
            assert(b0 =~= b0 + trim_blocks(Seq::empty(), self.nl()));
        }
    }

    fn push_enum_blocks(
        &self,
        items: &Option<Vec<RustEnum>>,
        options: &RustEnumRenderOptions,
        level: i32,
        blocks: &mut Vec<String>,
    )
        requires
            items matches Some(es) && es@.len() > 0 ==> enum_fits(level as int),
        ensures
            texts(final(blocks)@) == texts(old(blocks)@) + trim_blocks(self.enum_blocks(*items, *options, level as int), self.nl()),
    {
        let ghost b0 = texts(blocks@);
        if let Some(xs) = items {
            let ghost all = Seq::new(xs@.len(), |i: int| self.enum_text(xs@[i], *options, level as int));
            assert(b0 =~= b0 + trim_blocks(all.take(0), self.nl()));
            let mut i: usize = 0;
            while i < xs.len()
                invariant
                    i <= xs@.len(),
                    xs@.len() > 0 ==> enum_fits(level as int),
                    all == Seq::new(xs@.len(), |i: int| self.enum_text(xs@[i], *options, level as int)),
                    texts(blocks@) == b0 + trim_blocks(all.take(i as int), self.nl()),
                decreases xs@.len() - i,
            {
                let mut lvl = level;
                let r = self.render_enum(&xs[i], None, None, Some(options), &mut lvl);
                proof {
                    reveal(opt_str);
                    assert(r@ =~= all[i as int]);
                }
                push_trimmed(blocks, r, self.new_line.as_str());
                assert(texts(blocks@) =~= b0 + trim_blocks(all.take(i + 1), self.nl()));
                i = i + 1;
            }
            assert(all.take(i as int) =~= all);
        } else {
            assert(b0 =~= b0 + trim_blocks(Seq::empty(), self.nl()));
        }
    }

    fn push_struct_blocks(
        &self,
        items: &Option<Vec<RustStruct>>,
        options: &RustStructRenderOptions,
        level: i32,
        blocks: &mut Vec<String>,
    )
        requires
            items matches Some(sts) ==> structs_fit(sts@, *options, level as int),
        ensures
            texts(final(blocks)@) == texts(old(blocks)@) + trim_blocks(self.struct_blocks(*items, *options, level as int), self.nl()),
    {
        let ghost b0 = texts(blocks@);
        if let Some(xs) = items {
            let ghost all = Seq::new(xs@.len(), |i: int| self.struct_text(xs@[i], *options, level as int));
            assert(b0 =~= b0 + trim_blocks(all.take(0), self.nl()));
            let mut i: usize = 0;
            while i < xs.len()
                invariant
                    i <= xs@.len(),
                    structs_fit(xs@, *options, level as int),
                    all == Seq::new(xs@.len(), |i: int| self.struct_text(xs@[i], *options, level as int)),
                    texts(blocks@) == b0 + trim_blocks(all.take(i as int), self.nl()),
                decreases xs@.len() - i,
            {
                let mut lvl = level;
                assert(struct_fits(xs@[i as int], *options, level as int));
                let r = self.render_struct(&xs[i], None, None, Some(options), &mut lvl);
                proof {
                    reveal(opt_str);
                    assert(r@ =~= all[i as int]);
                }
                push_trimmed(blocks, r, self.new_line.as_str());
                assert(texts(blocks@) =~= b0 + trim_blocks(all.take(i + 1), self.nl()));
                i = i + 1;
            }
            assert(all.take(i as int) =~= all);
        } else {
            assert(b0 =~= b0 + trim_blocks(Seq::empty(), self.nl()));
        }
    }

    fn push_function_blocks(
        &self,
        items: &Option<Vec<RustFunction>>,
        options: &RustFunctionRenderOptions,
        level: i32,
        blocks: &mut Vec<String>,
    )
        requires
            items matches Some(fs) ==> fns_fit(fs@, level as int),
        ensures
            texts(final(blocks)@) == texts(old(blocks)@) + trim_blocks(self.function_blocks(*items, *options, level as int), self.nl()),
    {
        let ghost b0 = texts(blocks@);
        if let Some(xs) = items {
            let ghost all = Seq::new(xs@.len(), |i: int| self.fn_text(xs@[i], *options, level as int));
            assert(b0 =~= b0 + trim_blocks(all.take(0), self.nl()));
            let mut i: usize = 0;
            while i < xs.len()
                invariant
                    i <= xs@.len(),
                    fns_fit(xs@, level as int),
                    all == Seq::new(xs@.len(), |i: int| self.fn_text(xs@[i], *options, level as int)),
                    texts(blocks@) == b0 + trim_blocks(all.take(i as int), self.nl()),
                decreases xs@.len() - i,
            {
                let mut lvl = level;
                assert(fn_fits(xs@[i as int], level as int));
                let r = self.render_function(&xs[i], None, None, Some(options), &mut lvl);
                proof {
                    reveal(opt_str);
                    assert(r@ =~= all[i as int]);
                }
                push_trimmed(blocks, r, self.new_line.as_str());
                assert(texts(blocks@) =~= b0 + trim_blocks(all.take(i + 1), self.nl()));
                i = i + 1;
            }
            assert(all.take(i as int) =~= all);
        } else {
            assert(b0 =~= b0 + trim_blocks(Seq::empty(), self.nl()));
        }
    }

    fn push_module_blocks(
        &self,
        parent: &RustModule,
        options: &RustModuleRenderOptions,
        level: i32,
        blocks: &mut Vec<String>,
    )
        requires
            parent.modules matches Some(ms) ==> forall|i: int| 0 <= i < ms@.len() ==> module_fits(#[trigger] ms@[i], options@, level as int),
        ensures
            texts(final(blocks)@) == texts(old(blocks)@) + trim_blocks(self.sub_blocks(*parent, options@, level as int), self.nl()),
        decreases *parent, 0int,
    {
        let ghost b0 = texts(blocks@);
        if let Some(xs) = &parent.modules {
            proof {
                reveal_with_fuel(RustBackend::modules_texts, 1);
                assert(xs@.take(0) =~= Seq::<RustModule>::empty());
            }
            assert(b0 =~= b0 + trim_blocks(self.modules_texts(xs@.take(0), options@, level as int), self.nl()));
            let mut i: usize = 0;
            while i < xs.len()
                invariant
                    i <= xs@.len(),
                    parent.modules == Some(*xs),
                    forall|i: int| 0 <= i < xs@.len() ==> module_fits(#[trigger] xs@[i], options@, level as int),
                    texts(blocks@) == b0 + trim_blocks(self.modules_texts(xs@.take(i as int), options@, level as int), self.nl()),
                decreases xs@.len() - i,
            {
                let mut lvl = level;
                assert(module_fits(xs@[i as int], options@, level as int));
                assert(decreases_to!(*parent => xs@[i as int])) by {
                    assert(decreases_to!(*parent => parent.modules));
                    assert(decreases_to!(parent.modules => parent.modules->0));
                    assert(decreases_to!(parent.modules->0 => parent.modules->0@));
                    assert(decreases_to!(parent.modules->0@ => parent.modules->0@[i as int]));
                }
                let r = self.render_namespace(&xs[i], None, None, Some(options), &mut lvl);
                proof {
                    reveal(opt_str);
                    assert(r@ =~= self.module_text(xs@[i as int], options@, level as int));
                    assert(xs@.take(i + 1).drop_last() =~= xs@.take(i as int));
                }
                push_trimmed(blocks, r, self.new_line.as_str());
                assert(texts(blocks@) =~= b0 + trim_blocks(self.modules_texts(xs@.take(i + 1), options@, level as int), self.nl()));
                i = i + 1;
            }
            assert(xs@.take(i as int) =~= xs@);
        } else {
            assert(b0 =~= b0 + trim_blocks(Seq::empty(), self.nl()));
        }
    }

    fn module_body(&self, input: &RustModule, options: &RustModuleRenderOptions, body_level: i32) -> (r: String)
        requires
            body_level > i32::MIN,
            module_fits(*input, options@, body_level - 1),
        ensures
            r@ == self.blocks_body_text(self.module_blocks(*input, options@, body_level as int)),
        decreases *input, 1int,
    {
        let mut blocks: Vec<String> = Vec::new();
        let ghost o = options@;
        proof {
            assert(texts(blocks@) =~= Seq::<Seq<char>>::empty());
        }
        let ghost l = body_level as int;
        let ghost b1 = self.define_blocks(input.defines, o.0, o.1, l);
        let ghost b2 = self.constant_blocks(input.constants, o.2, l);
        let ghost b3 = self.enum_blocks(input.enums, o.3, l);
        let ghost b4 = self.struct_blocks(input.structs, o.4, l);
        let ghost b5 = self.function_blocks(input.functions, o.5, l);
        let ghost b6 = self.sub_blocks(*input, o, l);
        self.push_definition_blocks(&input.defines, &options.define_options, body_level, &mut blocks);
        self.push_constant_blocks(&input.constants, &options.constant_options, body_level, &mut blocks);
        self.push_enum_blocks(&input.enums, &options.enum_options, body_level, &mut blocks);
        self.push_struct_blocks(&input.structs, &options.struct_options, body_level, &mut blocks);
        self.push_function_blocks(&input.functions, &options.function_options, body_level, &mut blocks);
        self.push_module_blocks(input, options, body_level, &mut blocks);
        proof {
            lemma_trim_six_groups(b1, b2, b3, b4, b5, b6, self.nl());
            assert(self.module_blocks(*input, o, l) == b1 + b2 + b3 + b4 + b5 + b6);
            assert(texts(blocks@) =~= trim_blocks(b1 + b2 + b3 + b4 + b5 + b6, self.nl()));
        }
        let out = join_body(&blocks, self.new_line.as_str());
        proof {
            let bs = self.module_blocks(*input, o, body_level as int);
            assert(trim_blocks(bs, self.nl()) =~= Seq::new(bs.len(), |i: int| trim_end(bs[i], self.nl())));
        }
        out
    }

    /// Render a module: its docs, `mod name {`, its items separated by blank lines, `}`.
    #[verifier::rlimit(30)]
    pub fn render_namespace_to(
        &self,
        input: &RustModule,
        before: Option<&str>,
        after: Option<&str>,
        options: Option<&RustModuleRenderOptions>,
        indent_level: &mut i32,
        out: &mut String,
    )
        requires
            module_fits(*input, RustModuleRenderOptions::view_or_default(options), *old(indent_level) as int),
        ensures
            final(out)@ == old(out)@ + opt_str(before) + self.module_text(
                *input,
                RustModuleRenderOptions::view_or_default(options),
                *old(indent_level) as int,
            ) + opt_str(after),
            *final(indent_level) == *old(indent_level),
        decreases *input, 2int,
    {
        let binding = RustModuleRenderOptions::default();
        let options: &RustModuleRenderOptions = match options {
            Some(o) => o,
            None => &binding,
        };
        let level = *indent_level;
        let ghost start = out@;
        push_opt_str(out, before);
        self.write_opt_docs(true, &input.docs, level, out);
        push_str(out, self.indent(level).as_str());
        push_str(out, input.visibility.prefix().as_str());
        push_str(out, "mod ");
        push_str(out, input.name.as_str());
        push_str(out, " {");
        push_str(out, self.new_line.as_str());
        *indent_level = level + 1;
        let ghost o = options@;
        let body = self.module_body(input, options, level + 1);
        *indent_level = level;
        push_str(out, body.as_str());
        push_str(out, self.indent(level).as_str());
        push_str(out, "}");
        push_str(out, self.new_line.as_str());
        push_opt_str(out, after);
        assert(out@ =~= start + opt_str(before) + self.module_text(*input, o, level as int) + opt_str(after));
    }

    /// Render a module to a string.
    pub fn render_namespace(
        &self,
        input: &RustModule,
        before: Option<&str>,
        after: Option<&str>,
        options: Option<&RustModuleRenderOptions>,
        indent_level: &mut i32,
    ) -> (r: String)
        requires
            module_fits(*input, RustModuleRenderOptions::view_or_default(options), *old(indent_level) as int),
        ensures
            r@ == opt_str(before) + self.module_text(
                *input,
                RustModuleRenderOptions::view_or_default(options),
                *old(indent_level) as int,
            ) + opt_str(after),
            *final(indent_level) == *old(indent_level),
        decreases *input, 3int,
    {
        let mut out = String::new();
        self.render_namespace_to(input, before, after, options, indent_level, &mut out);
        assert(out@ =~= opt_str(before) + self.module_text(
            *input,
            RustModuleRenderOptions::view_or_default(options),
            *old(indent_level) as int,
        ) + opt_str(after));
        out
    }
}


/// A define without a value becomes the unit constant `pub const NAME: () = ();`, whatever
/// constant type is configured.
pub proof fn valueless_define_is_unit_constant(
    b: RustBackend,
    d: RustDefinition,
    const_type: Seq<char>,
    render_docs: bool,
    level: int,
)
    requires
        d.value is None,
    ensures
        b.definition_text(d, const_type, render_docs, level) == b.opt_docs_text(render_docs, d.docs, level) + b.ind(
            level,
        ) + "pub const "@ + d.name@ + ": () = ();"@ + b.nl(),
{
    reveal(RustBackend::definition_line);
    assert(b.definition_text(d, const_type, render_docs, level) =~= b.opt_docs_text(render_docs, d.docs, level)
        + b.ind(level) + "pub const "@ + d.name@ + ": () = ();"@ + b.nl());
}

/// A function without a body renders as a bare signature ending in `;`.
pub proof fn bodyless_function_is_signature(b: RustBackend, f: RustFunction, level: int)
    requires
        f.body is None,
    ensures
        b.fn_tail_text(f, level) == ")"@ + RustBackend::ret_text(f) + ";"@ + b.nl(),
{
    reveal(RustBackend::fn_tail_text);
    assert(b.fn_tail_text(f, level) =~= ")"@ + RustBackend::ret_text(f) + ";"@ + b.nl());
}

/// A function without a body ends with `;` and a line ending; one with a body ends with ` {`,
/// a line ending, each body line one level deeper, and the closing `}` on its own line.
pub proof fn function_ends_with_body_or_semicolon(b: RustBackend, f: RustFunction, o: RustFunctionRenderOptions, level: int)
    ensures
        f.body is None ==> ends_with(b.fn_text(f, o, level), ";"@ + b.nl()),
        f.body matches Some(lines) ==> ends_with(
            b.fn_text(f, o, level),
            " {"@ + b.nl() + wrap_each(b.ind(level + 1), lines@, b.nl()) + b.ind(level) + "}"@ + b.nl(),
        ),
{
    reveal(RustBackend::fn_tail_text);
    let t = b.fn_text(f, o, level);
    let pre = b.opt_docs_text(o.render_docs, f.docs, level) + b.comments_text(f.comments@, level)
        + b.fn_attributes_text(f, o, level) + b.fn_head_text(f, level) + join(RustBackend::param_parts(f), ", "@)
        + ")"@ + RustBackend::ret_text(f);
    assert(t =~= pre + b.body_text(f, level));
    lemma_ends_with_concat(pre, b.body_text(f, level));
}

/// Whether `f` and `g` differ at most in what `o` does not render: their docs when docs are
/// off, their attributes and return attributes when attributes are off.
pub open spec fn same_fn_under(f: RustFunction, g: RustFunction, o: RustFunctionRenderOptions) -> bool {
    &&& f.name == g.name
    &&& f.visibility == g.visibility
    &&& f.self_kind == g.self_kind
    &&& f.parameters == g.parameters
    &&& f.generic_args == g.generic_args
    &&& f.return_type == g.return_type
    &&& f.is_unsafe == g.is_unsafe
    &&& f.is_async == g.is_async
    &&& f.is_const == g.is_const
    &&& f.abi == g.abi
    &&& f.body == g.body
    &&& f.comments == g.comments
    &&& o.render_docs ==> f.docs == g.docs
    &&& o.render_attributes ==> f.attributes == g.attributes && f.return_attributes == g.return_attributes
}

/// Whether `t` and `u` differ at most in what `o` does not render, on the trait and on each
/// method.
pub open spec fn same_trait_under(t: RustTrait, u: RustTrait, o: RustFunctionRenderOptions) -> bool {
    &&& t.name == u.name
    &&& t.visibility == u.visibility
    &&& t.generic_args == u.generic_args
    &&& t.supertraits == u.supertraits
    &&& o.render_docs ==> t.docs == u.docs
    &&& o.render_attributes ==> t.attributes == u.attributes
    &&& t.methods@.len() == u.methods@.len()
    &&& forall|i: int| 0 <= i < t.methods@.len() ==> same_fn_under(#[trigger] t.methods@[i], u.methods@[i], o)
}

proof fn lemma_fn_text_under(b: RustBackend, f: RustFunction, g: RustFunction, o: RustFunctionRenderOptions, level: int)
    requires
        same_fn_under(f, g, o),
    ensures
        b.fn_text(f, o, level) == b.fn_text(g, o, level),
{
    reveal(RustBackend::opt_docs_text);
    reveal(RustBackend::fn_attributes_text);
    reveal(RustBackend::fn_head_text);
    reveal(RustBackend::fn_tail_text);
    reveal(only_if);
    assert(RustBackend::param_parts(f) =~= RustBackend::param_parts(g));
    assert(b.fn_head_text(f, level) == b.fn_head_text(g, level));
    assert(b.fn_tail_text(f, level) == b.fn_tail_text(g, level));
    assert(b.fn_attributes_text(f, o, level) == b.fn_attributes_text(g, o, level));
    assert(b.opt_docs_text(o.render_docs, f.docs, level) == b.opt_docs_text(o.render_docs, g.docs, level));
    assert(b.comments_text(f.comments@, level) == b.comments_text(g.comments@, level));
    assert(join(RustBackend::param_parts(f), ", "@) == join(RustBackend::param_parts(g), ", "@));
}

proof fn lemma_fns_text_under(
    b: RustBackend,
    fs: Seq<RustFunction>,
    gs: Seq<RustFunction>,
    o: RustFunctionRenderOptions,
    level: int,
)
    requires
        fs.len() == gs.len(),
        forall|i: int| 0 <= i < fs.len() ==> same_fn_under(#[trigger] fs[i], gs[i], o),
    ensures
        b.fns_text(fs, o, level) == b.fns_text(gs, o, level),
    decreases fs.len(),
{
    reveal(RustBackend::fns_text);
    if fs.len() > 0 {
        lemma_fns_text_under(b, fs.drop_last(), gs.drop_last(), o, level);
        lemma_fn_text_under(b, fs.last(), gs.last(), o, level);
    }
}

/// A trait renders the same text when docs or attributes that the options switch off are
/// removed from it or from its methods.
pub proof fn trait_ignores_what_options_switch_off(b: RustBackend, t: RustTrait, u: RustTrait, o: RustFunctionRenderOptions, level: int)
    requires
        same_trait_under(t, u, o),
    ensures
        b.trait_text(t, o, level) == b.trait_text(u, o, level),
{
    reveal(only_if);
    reveal(RustBackend::trait_body_text);
    reveal(RustBackend::opt_docs_text);
    lemma_fns_text_under(b, t.methods@, u.methods@, o, level + 1);
    assert(b.trait_body_text(t, o, level) == b.trait_body_text(u, o, level));
}

/// A method's parameter list opens with its receiver as Rust spells it (`&self`, `&mut self`
/// or `self`), followed by `, ` when parameters follow and by `)` otherwise.
pub proof fn method_writes_its_receiver(b: RustBackend, f: RustFunction, o: RustFunctionRenderOptions, level: int)
    ensures
        ({
            let text = b.fn_text(f, o, level);
            let follow = if f.parameters@.len() > 0 { ", "@ } else { ")"@ };
            &&& f.self_kind == RustSelfKind::Ref ==> occurs_in("(&self"@ + follow, text)
            &&& f.self_kind == RustSelfKind::RefMut ==> occurs_in("(&mut self"@ + follow, text)
            &&& f.self_kind == RustSelfKind::Owned ==> occurs_in("(self"@ + follow, text)
        }),
{
    reveal(RustBackend::fn_head_text);
    reveal(RustBackend::fn_tail_text);
    reveal_strlit("(&self");
    reveal_strlit("(&mut self");
    reveal_strlit("(self");
    reveal_strlit("&self");
    reveal_strlit("&mut self");
    reveal_strlit("self");
    reveal_strlit("(");
    reveal_strlit(")");
    reveal_strlit(", ");
    if f.self_kind != RustSelfKind::NoSelf {
        let r = f.self_kind.receiver()->0;
        let parts = RustBackend::param_parts(f);
        assert(parts[0] == r);
        let head = b.ind(level) + f.visibility.prefix_text() + only_if(f.is_const, "const "@) + only_if(
            f.is_async,
            "async "@,
        ) + only_if(f.is_unsafe, "unsafe "@) + opt_wrap("extern \""@, f.abi, "\" "@) + "fn "@ + f.name@
            + generic_decls_text(f.generic_args@);
        let pre = b.opt_docs_text(o.render_docs, f.docs, level) + b.comments_text(f.comments@, level)
            + b.fn_attributes_text(f, o, level) + head;
        let tail_rest = RustBackend::ret_text(f) + b.body_text(f, level);
        let text = b.fn_text(f, o, level);
        match f.self_kind {
            RustSelfKind::Ref => assert("("@ + r =~= "(&self"@),
            RustSelfKind::RefMut => assert("("@ + r =~= "(&mut self"@),
            RustSelfKind::Owned => assert("("@ + r =~= "(self"@),
            RustSelfKind::NoSelf => {},
        }
        if f.parameters@.len() > 0 {
            lemma_join_first(parts, ", "@);
            let rest = join(parts.drop_first(), ", "@) + ")"@ + tail_rest;
            assert(text =~= pre + ("("@ + r + ", "@) + rest);
            lemma_occurs_between(pre, "("@ + r + ", "@, rest);
            assert("("@ + r + ", "@ == ("("@ + r) + ", "@);
        } else {
            assert(parts.len() == 1);
            assert(join(parts, ", "@) == r) by {
                reveal(join);
            }
            assert(text =~= pre + ("("@ + r + ")"@) + tail_rest);
            lemma_occurs_between(pre, "("@ + r + ")"@, tail_rest);
            assert("("@ + r + ")"@ == ("("@ + r) + ")"@);
        }
    }
}

/// Two functions that differ only in their `const`, `async` and `unsafe` flags have the same
/// text before their visibility's end and after the `fn ` keyword.
proof fn fn_same_outside_qualifiers(b: RustBackend, f: RustFunction, x: RustFunction, o: RustFunctionRenderOptions, level: int)
    requires
        x.name == f.name && x.visibility == f.visibility && x.self_kind == f.self_kind && x.parameters == f.parameters,
        x.generic_args == f.generic_args && x.return_type == f.return_type && x.abi == f.abi && x.body == f.body,
        x.comments == f.comments && x.return_attributes == f.return_attributes && x.attributes == f.attributes,
        x.docs == f.docs,
    ensures
        b.fn_attributes_text(x, o, level) == b.fn_attributes_text(f, o, level),
        RustBackend::param_parts(x) == RustBackend::param_parts(f),
        b.fn_tail_text(x, level) == b.fn_tail_text(f, level),
{
    reveal(RustBackend::fn_attributes_text);
    reveal(RustBackend::fn_tail_text);
    assert(RustBackend::param_parts(x) =~= RustBackend::param_parts(f));
}

/// A function's text: what precedes its signature line, the signature line up to the
/// parameter list, and the rest.
proof fn fn_text_split(b: RustBackend, f: RustFunction, o: RustFunctionRenderOptions, level: int)
    ensures
        b.fn_text(f, o, level) == (b.opt_docs_text(o.render_docs, f.docs, level) + b.comments_text(f.comments@, level)
            + b.fn_attributes_text(f, o, level)) + b.fn_head_text(f, level) + (join(RustBackend::param_parts(f), ", "@)
            + b.fn_tail_text(f, level)),
{
}

/// A function's `is_const` flag is written as its keyword: setting it on a function that lacks it
/// inserts `const ` before `fn` and changes nothing else.
#[verifier::spinoff_prover]
pub proof fn fn_const_flag_adds_keyword(b: RustBackend, f: RustFunction, o: RustFunctionRenderOptions, level: int)
    requires
        !f.is_const,
    ensures
        exists|pre: Seq<char>, post: Seq<char>|
            b.fn_text(f, o, level) == pre + post && b.fn_text(RustFunction { is_const: true, ..f }, o, level) == pre
                + "const "@ + post,
{
    let x = RustFunction { is_const: true, ..f };
    fn_same_outside_qualifiers(b, f, x, o, level);
    fn_text_split(b, f, o, level);
    fn_text_split(b, x, o, level);
    let h1 = b.ind(level) + f.visibility.prefix_text();
    let h2 = only_if(f.is_async, "async "@) + only_if(f.is_unsafe, "unsafe "@) + opt_wrap("extern \""@, f.abi, "\" "@) + "fn "@ + f.name@ + generic_decls_text(f.generic_args@) + "("@;
    assert(b.fn_head_text(f, level) == h1 + h2) by {
        reveal(RustBackend::fn_head_text);
        assert(only_if(f.is_const, "const "@) == Seq::<char>::empty()) by {
            reveal(only_if);
        }
        assert(b.fn_head_text(f, level) =~= h1 + h2);
    }
    assert(b.fn_head_text(x, level) == h1 + "const "@ + h2) by {
        reveal(RustBackend::fn_head_text);
        assert(only_if(x.is_const, "const "@) == "const "@) by {
            reveal(only_if);
        }
        assert(b.fn_head_text(x, level) =~= h1 + "const "@ + h2);
    }
    let a = b.opt_docs_text(o.render_docs, f.docs, level) + b.comments_text(f.comments@, level) + b.fn_attributes_text(
        f,
        o,
        level,
    );
    let r = join(RustBackend::param_parts(f), ", "@) + b.fn_tail_text(f, level);
    assert(b.fn_text(f, o, level) =~= (a + h1) + (h2 + r));
    assert(b.fn_text(x, o, level) =~= (a + h1) + "const "@ + (h2 + r));
}

/// A function's `is_async` flag is written as its keyword: setting it on a function that lacks it
/// inserts `async ` before `fn` and changes nothing else.
#[verifier::spinoff_prover]
pub proof fn fn_async_flag_adds_keyword(b: RustBackend, f: RustFunction, o: RustFunctionRenderOptions, level: int)
    requires
        !f.is_async,
    ensures
        exists|pre: Seq<char>, post: Seq<char>|
            b.fn_text(f, o, level) == pre + post && b.fn_text(RustFunction { is_async: true, ..f }, o, level) == pre
                + "async "@ + post,
{
    let x = RustFunction { is_async: true, ..f };
    fn_same_outside_qualifiers(b, f, x, o, level);
    fn_text_split(b, f, o, level);
    fn_text_split(b, x, o, level);
    let h1 = b.ind(level) + f.visibility.prefix_text() + only_if(f.is_const, "const "@);
    let h2 = only_if(f.is_unsafe, "unsafe "@) + opt_wrap("extern \""@, f.abi, "\" "@) + "fn "@ + f.name@ + generic_decls_text(f.generic_args@) + "("@;
    assert(b.fn_head_text(f, level) == h1 + h2) by {
        reveal(RustBackend::fn_head_text);
        assert(only_if(f.is_async, "async "@) == Seq::<char>::empty()) by {
            reveal(only_if);
        }
        assert(b.fn_head_text(f, level) =~= h1 + h2);
    }
    assert(b.fn_head_text(x, level) == h1 + "async "@ + h2) by {
        reveal(RustBackend::fn_head_text);
        assert(only_if(x.is_async, "async "@) == "async "@) by {
            reveal(only_if);
        }
        assert(b.fn_head_text(x, level) =~= h1 + "async "@ + h2);
    }
    let a = b.opt_docs_text(o.render_docs, f.docs, level) + b.comments_text(f.comments@, level) + b.fn_attributes_text(
        f,
        o,
        level,
    );
    let r = join(RustBackend::param_parts(f), ", "@) + b.fn_tail_text(f, level);
    assert(b.fn_text(f, o, level) =~= (a + h1) + (h2 + r));
    assert(b.fn_text(x, o, level) =~= (a + h1) + "async "@ + (h2 + r));
}

/// A function's `is_unsafe` flag is written as its keyword: setting it on a function that lacks it
/// inserts `unsafe ` before `fn` and changes nothing else.
#[verifier::spinoff_prover]
pub proof fn fn_unsafe_flag_adds_keyword(b: RustBackend, f: RustFunction, o: RustFunctionRenderOptions, level: int)
    requires
        !f.is_unsafe,
    ensures
        exists|pre: Seq<char>, post: Seq<char>|
            b.fn_text(f, o, level) == pre + post && b.fn_text(RustFunction { is_unsafe: true, ..f }, o, level) == pre
                + "unsafe "@ + post,
{
    let x = RustFunction { is_unsafe: true, ..f };
    fn_same_outside_qualifiers(b, f, x, o, level);
    fn_text_split(b, f, o, level);
    fn_text_split(b, x, o, level);
    let h1 = b.ind(level) + f.visibility.prefix_text() + only_if(f.is_const, "const "@) + only_if(f.is_async, "async "@);
    let h2 = opt_wrap("extern \""@, f.abi, "\" "@) + "fn "@ + f.name@ + generic_decls_text(f.generic_args@) + "("@;
    assert(b.fn_head_text(f, level) == h1 + h2) by {
        reveal(RustBackend::fn_head_text);
        assert(only_if(f.is_unsafe, "unsafe "@) == Seq::<char>::empty()) by {
            reveal(only_if);
        }
        assert(b.fn_head_text(f, level) =~= h1 + h2);
    }
    assert(b.fn_head_text(x, level) == h1 + "unsafe "@ + h2) by {
        reveal(RustBackend::fn_head_text);
        assert(only_if(x.is_unsafe, "unsafe "@) == "unsafe "@) by {
            reveal(only_if);
        }
        assert(b.fn_head_text(x, level) =~= h1 + "unsafe "@ + h2);
    }
    let a = b.opt_docs_text(o.render_docs, f.docs, level) + b.comments_text(f.comments@, level) + b.fn_attributes_text(
        f,
        o,
        level,
    );
    let r = join(RustBackend::param_parts(f), ", "@) + b.fn_tail_text(f, level);
    assert(b.fn_text(f, o, level) =~= (a + h1) + (h2 + r));
    assert(b.fn_text(x, o, level) =~= (a + h1) + "unsafe "@ + (h2 + r));
}

/// The fields of a list, written one after the other, hold each field's line.
proof fn fields_text_holds_each(b: RustBackend, fs: Seq<RustField>, o: RustStructRenderOptions, level: int, k: int)
    requires
        0 <= k < fs.len(),
    ensures
        occurs_in(b.field_text(fs[k], o, level), b.fields_text(fs, o, level)),
    decreases fs.len(),
{
    reveal(RustBackend::fields_text);
    let prev = b.fields_text(fs.drop_last(), o, level);
    let last = b.field_text(fs.last(), o, level);
    assert(b.fields_text(fs, o, level) == prev + last);
    if k == fs.len() - 1 {
        lemma_occurs_between(prev, last, Seq::empty());
        assert(prev + last + Seq::<char>::empty() =~= prev + last);
    } else {
        fields_text_holds_each(b, fs.drop_last(), o, level, k);
        assert(fs.drop_last()[k] == fs[k]);
        lemma_occurs_widen(Seq::empty(), prev, last, b.field_text(fs[k], o, level));
        assert(Seq::<char>::empty() + prev + last =~= prev + last);
    }
}

/// What a struct's text is made of, one part after the other.
spec fn struct_name_text(b: RustBackend, st: RustStruct, level: int) -> Seq<char> {
    b.ind(level) + st.visibility.prefix_text() + "struct "@ + st.name@ + generic_decls_text(st.generic_args@)
}

/// What a struct's `impl` block adds, when it is rendered.
spec fn struct_impl_part(b: RustBackend, st: RustStruct, o: RustStructRenderOptions, level: int) -> Seq<char> {
    only_if(o.render_impl && st.methods@.len() > 0, b.impl_text(st, level))
}

/// Every field of a struct with named fields is written in the struct's text as a field line one
/// level deeper.
pub proof fn struct_writes_each_field(b: RustBackend, st: RustStruct, o: RustStructRenderOptions, level: int, k: int)
    requires
        !st.is_tuple,
        0 <= k < st.fields@.len(),
    ensures
        occurs_in(b.field_text(st.fields@[k], o, level + 1), b.struct_text(st, o, level)),
{
    let l = level + 1;
    let pre = b.opt_docs_text(o.render_docs, st.docs, level) + b.struct_attributes_text(st, o, level)
        + struct_name_text(b, st, level);
    let ft = b.fields_text(st.fields@, o, l);
    let close = b.ind(level) + "}"@ + b.nl();
    assert(b.struct_body_text(st, o, level) == " {"@ + b.nl() + ft + close) by {
        reveal(RustBackend::struct_body_text);
    }
    fields_text_holds_each(b, st.fields@, o, l, k);
    lemma_occurs_widen(pre + " {"@ + b.nl(), ft, close + struct_impl_part(b, st, o, level), b.field_text(st.fields@[k], o, l));
    assert((pre + " {"@ + b.nl()) + ft + (close + struct_impl_part(b, st, o, level)) =~= b.struct_text(st, o, level));
}

/// Every method of a struct is written in the struct's `impl` block, as rendered on its own one
/// level deeper, when the `impl` block is rendered.
pub proof fn struct_writes_each_method(b: RustBackend, st: RustStruct, o: RustStructRenderOptions, level: int, k: int)
    requires
        o.render_impl,
        0 <= k < st.methods@.len(),
    ensures
        occurs_in(
            b.fn_text(st.methods@[k], RustFunctionRenderOptions::spec_default(), level + 1),
            b.struct_text(st, o, level),
        ),
{
    let l = level + 1;
    let pre = b.opt_docs_text(o.render_docs, st.docs, level) + b.struct_attributes_text(st, o, level)
        + struct_name_text(b, st, level) + b.struct_body_text(st, o, level);
    let parts = Seq::new(
        st.methods@.len(),
        |i: int| b.fn_text(st.methods@[i], RustFunctionRenderOptions::spec_default(), l),
    );
    let open = b.nl() + b.ind(level) + "impl"@ + generic_decls_text(st.generic_args@) + " "@ + st.name@
        + generic_uses_text(st.generic_args@) + " {"@ + b.nl();
    let end = b.ind(level) + "}"@ + b.nl();
    assert(struct_impl_part(b, st, o, level) == open + join(parts, b.nl()) + end) by {
        reveal(only_if);
        reveal(RustBackend::impl_text);
    }
    lemma_join_occurs(parts, b.nl(), end, k);
    let follow = if k + 1 < parts.len() { b.nl() } else { end };
    lemma_occurs_shorten(parts[k], follow, join(parts, b.nl()) + end);
    lemma_occurs_widen(pre + open, join(parts, b.nl()) + end, Seq::empty(), parts[k]);
    assert((pre + open) + (join(parts, b.nl()) + end) + Seq::<char>::empty() =~= b.struct_text(st, o, level));
}

/// Every derive of a struct is written in its `#[derive(..)]` line, followed by `, ` or, after
/// the last one, by `)]`, when attributes are rendered.
#[verifier::spinoff_prover]
#[verifier::rlimit(40)]
pub proof fn struct_writes_each_derive(b: RustBackend, st: RustStruct, o: RustStructRenderOptions, level: int, k: int)
    requires
        o.render_attributes,
        0 <= k < st.derives@.len(),
    ensures
        occurs_in(
            st.derives@[k]@ + (if k + 1 < st.derives@.len() { ", "@ } else { ")]"@ }),
            b.struct_text(st, o, level),
        ),
{
    let docs = b.opt_docs_text(o.render_docs, st.docs, level);
    let rest = struct_name_text(b, st, level) + b.struct_body_text(st, o, level) + struct_impl_part(b, st, o, level);
    let ds = texts(st.derives@);
    let join_d = join(ds, ", "@) + ")]"@;
    let pre_d = b.ind(level) + "#[derive("@;
    let dt = pre_d + join_d + b.nl();
    assert(b.derives_text(st.derives@, level) =~= dt) by {
        reveal(RustBackend::derives_text);
    }
    let at = b.attributes_text(st.attributes@, level);
    lemma_join_occurs(ds, ", "@, ")]"@, k);
    assert(ds[k] == st.derives@[k]@);
    let piece = ds[k] + (if k + 1 < ds.len() { ", "@ } else { ")]"@ });
    if o.attributes_before_derives {
        assert(b.struct_attributes_text(st, o, level) == at + dt) by {
            reveal(only_if);
            reveal(RustBackend::struct_attributes_text);
        }
        lemma_occurs_widen(docs + at + pre_d, join_d, b.nl() + rest, piece);
        assert((docs + at + pre_d) + join_d + (b.nl() + rest) =~= b.struct_text(st, o, level));
    } else {
        assert(b.struct_attributes_text(st, o, level) == dt + at) by {
            reveal(only_if);
            reveal(RustBackend::struct_attributes_text);
        }
        lemma_occurs_widen(docs + pre_d, join_d, b.nl() + at + rest, piece);
        assert((docs + pre_d) + join_d + (b.nl() + at + rest) =~= b.struct_text(st, o, level));
    }
}

/// Functions written one after the other hold each function's text.
proof fn fns_text_holds_each(b: RustBackend, fs: Seq<RustFunction>, o: RustFunctionRenderOptions, level: int, k: int)
    requires
        0 <= k < fs.len(),
    ensures
        occurs_in(b.fn_text(fs[k], o, level), b.fns_text(fs, o, level)),
    decreases fs.len(),
{
    reveal(RustBackend::fns_text);
    let prev = b.fns_text(fs.drop_last(), o, level);
    let last = b.fn_text(fs.last(), o, level);
    assert(b.fns_text(fs, o, level) == prev + last);
    if k == fs.len() - 1 {
        lemma_occurs_between(prev, last, Seq::empty());
        assert(prev + last + Seq::<char>::empty() =~= prev + last);
    } else {
        fns_text_holds_each(b, fs.drop_last(), o, level, k);
        assert(fs.drop_last()[k] == fs[k]);
        lemma_occurs_widen(Seq::empty(), prev, last, b.fn_text(fs[k], o, level));
        assert(Seq::<char>::empty() + prev + last =~= prev + last);
    }
}

/// Every method of a trait is written in the trait's body, as rendered on its own one level
/// deeper.
pub proof fn trait_writes_each_method(b: RustBackend, t: RustTrait, o: RustFunctionRenderOptions, level: int, k: int)
    requires
        0 <= k < t.methods@.len(),
    ensures
        occurs_in(b.fn_text(t.methods@[k], o, level + 1), b.trait_text(t, o, level)),
{
    let ft = b.fns_text(t.methods@, o, level + 1);
    let pre = b.opt_docs_text(o.render_docs, t.docs, level) + only_if(
        o.render_attributes,
        b.attributes_text(t.attributes@, level),
    ) + b.ind(level) + t.visibility.prefix_text() + "trait "@ + t.name@ + generic_decls_text(t.generic_args@)
        + only_if(t.supertraits@.len() > 0, ": "@ + join(texts(t.supertraits@), " + "@)) + " {"@ + b.nl();
    let post = b.ind(level) + "}"@ + b.nl();
    assert(b.trait_body_text(t, o, level) == " {"@ + b.nl() + ft + post) by {
        reveal(RustBackend::trait_body_text);
    }
    assert(b.trait_text(t, o, level) =~= pre + ft + post);
    fns_text_holds_each(b, t.methods@, o, level + 1, k);
    lemma_occurs_widen(pre, ft, post, b.fn_text(t.methods@[k], o, level + 1));
}

/// Every item of an `extern` block is written in the block, as rendered on its own one level
/// deeper.
pub proof fn extern_block_writes_each_item(b: RustBackend, x: RustExternBlock, o: RustFunctionRenderOptions, level: int, k: int)
    requires
        0 <= k < x.items@.len(),
    ensures
        occurs_in(b.fn_text(x.items@[k], o, level + 1), b.extern_block_text(x, o, level)),
{
    let ft = b.fns_text(x.items@, o, level + 1);
    let pre = b.opt_docs_text(o.render_docs, x.docs, level) + b.ind(level) + only_if(x.is_unsafe, "unsafe "@)
        + "extern \""@ + x.abi@ + "\" {"@ + b.nl();
    let post = b.ind(level) + "}"@ + b.nl();
    assert(b.extern_block_text(x, o, level) =~= pre + ft + post);
    fns_text_holds_each(b, x.items@, o, level + 1, k);
    lemma_occurs_widen(pre, ft, post, b.fn_text(x.items@[k], o, level + 1));
}

/// Variants written one after the other hold each variant's line.
proof fn variants_text_holds_each(b: RustBackend, vs: Seq<RustEnumVariant>, o: RustEnumVariantRenderOptions, level: int, k: int)
    requires
        0 <= k < vs.len(),
    ensures
        occurs_in(b.variant_text(vs[k], o, level), b.variants_text(vs, o, level)),
    decreases vs.len(),
{
    reveal(RustBackend::variants_text);
    let prev = b.variants_text(vs.drop_last(), o, level);
    let last = b.variant_text(vs.last(), o, level);
    assert(b.variants_text(vs, o, level) == prev + last);
    if k == vs.len() - 1 {
        lemma_occurs_between(prev, last, Seq::empty());
        assert(prev + last + Seq::<char>::empty() =~= prev + last);
    } else {
        variants_text_holds_each(b, vs.drop_last(), o, level, k);
        assert(vs.drop_last()[k] == vs[k]);
        lemma_occurs_widen(Seq::empty(), prev, last, b.variant_text(vs[k], o, level));
        assert(Seq::<char>::empty() + prev + last =~= prev + last);
    }
}

/// Every variant of an enum is written on a line of its own one level deeper: `Name,` for a
/// unit variant, `Name = value,` for one with a discriminant, `Name(` then its types for a tuple
/// variant, `Name { ` then its fields for a struct variant.
pub proof fn enum_writes_each_variant(b: RustBackend, e: RustEnum, o: RustEnumRenderOptions, level: int, k: int)
    requires
        0 <= k < e.variants@.len(),
    ensures
        ({
            let v = e.variants@[k];
            let text = b.enum_text(e, o, level);
            let lead = b.ind(level + 1) + v.name@;
            &&& v.value matches RustEnumVariantValue::Unit ==> occurs_in(lead + ","@ + b.nl(), text)
            &&& v.value matches RustEnumVariantValue::Discriminant(d) ==> occurs_in(lead + " = "@ + d@ + ","@ + b.nl(), text)
            &&& v.value matches RustEnumVariantValue::Tuple(_) ==> occurs_in(lead + "("@, text)
            &&& v.value matches RustEnumVariantValue::Struct(_) ==> occurs_in(lead + " { "@, text)
        }),
{
    let v = e.variants@[k];
    let l = level + 1;
    let vt = b.variants_text(e.variants@, o.variant, l);
    let pre = b.opt_docs_text(o.render_docs, e.docs, level) + b.enum_attributes_text(e, o, level) + b.ind(level)
        + e.visibility.prefix_text() + "enum "@ + e.name@ + " {"@ + b.nl();
    let post = b.ind(level) + "}"@ + b.nl();
    let text = b.enum_text(e, o, level);
    assert(text =~= pre + vt + post);
    variants_text_holds_each(b, e.variants@, o.variant, l, k);
    let line = b.variant_text(v, o.variant, l);
    lemma_occurs_widen(pre, vt, post, line);
    let docs = b.opt_docs_text(o.variant.render_docs, v.docs, l);
    let lead = b.ind(l) + v.name@;
    let pay = RustBackend::payload_text(v.value);
    assert(line =~= docs + lead + pay + ","@ + b.nl());
    match v.value {
        RustEnumVariantValue::Unit => {
            assert(pay =~= Seq::<char>::empty()) by {
                reveal(RustBackend::payload_text);
            }
            lemma_occurs_between(docs, lead + ","@ + b.nl(), Seq::empty());
            assert(docs + (lead + ","@ + b.nl()) + Seq::<char>::empty() =~= line);
            lemma_occurs_in_part(lead + ","@ + b.nl(), line, text);
        },
        RustEnumVariantValue::Discriminant(d) => {
            assert(pay == " = "@ + d@) by {
                reveal(RustBackend::payload_text);
            }
            lemma_occurs_between(docs, lead + " = "@ + d@ + ","@ + b.nl(), Seq::empty());
            assert(docs + (lead + " = "@ + d@ + ","@ + b.nl()) + Seq::<char>::empty() =~= line);
            lemma_occurs_in_part(lead + " = "@ + d@ + ","@ + b.nl(), line, text);
        },
        RustEnumVariantValue::Tuple(ts) => {
            let rest = join(texts(ts@), ", "@) + ")"@;
            assert(pay == "("@ + rest) by {
                reveal(RustBackend::payload_text);
            }
            lemma_occurs_between(docs, lead + "("@, rest + ","@ + b.nl());
            assert(docs + (lead + "("@) + (rest + ","@ + b.nl()) =~= line);
            lemma_occurs_in_part(lead + "("@, line, text);
        },
        RustEnumVariantValue::Struct(fs) => {
            let rest = join(Seq::new(fs@.len(), |i: int| fs@[i].0@ + ": "@ + fs@[i].1@), ", "@) + " }"@;
            assert(pay == " { "@ + rest) by {
                reveal(RustBackend::payload_text);
            }
            lemma_occurs_between(docs, lead + " { "@, rest + ","@ + b.nl());
            assert(docs + (lead + " { "@) + (rest + ","@ + b.nl()) =~= line);
            lemma_occurs_in_part(lead + " { "@, line, text);
        },
    }
}

/// Each block of a module's body, without its trailing line endings, is written in the
/// module's text.
proof fn module_writes_each_block(b: RustBackend, m: RustModule, o: ModuleOptionsView, level: int, j: int)
    requires
        0 <= j < b.module_blocks(m, o, level + 1).len(),
    ensures
        occurs_in(trim_end(b.module_blocks(m, o, level + 1)[j], b.nl()), b.module_text(m, o, level)),
{
    reveal(joined_body);
    let nl = b.nl();
    let blocks = b.module_blocks(m, o, level + 1);
    let pieces = trim_blocks(blocks, nl);
    let piece = pieces[j];
    let text = b.module_text(m, o, level);
    if piece.len() == 0 {
        lemma_occurs_empty(text);
        assert(piece =~= Seq::<char>::empty());
    } else {
        let sep = nl + nl;
        let body = join(pieces, sep);
        lemma_join_occurs(pieces, sep, nl, j);
        let follow = if j + 1 < pieces.len() { sep } else { nl };
        lemma_occurs_shorten(piece, follow, body + nl);
        assert(b.blocks_body_text(blocks) == body + nl) by {
            reveal(only_if);
        }
        let pre = b.opt_docs_text(true, m.docs, level) + b.ind(level) + m.visibility.prefix_text() + "mod "@ + m.name@
            + " {"@ + nl;
        let post = b.ind(level) + "}"@ + nl;
        lemma_occurs_widen(pre, body + nl, post, piece);
        assert(pre + (body + nl) + post =~= text);
    }
}

/// The `k`-th of the texts of submodules is the `k`-th submodule's text.
proof fn lemma_modules_texts_index(b: RustBackend, ms: Seq<RustModule>, o: ModuleOptionsView, level: int, k: int)
    requires
        0 <= k < ms.len(),
    ensures
        b.modules_texts(ms, o, level).len() == ms.len(),
        b.modules_texts(ms, o, level)[k] == b.module_text(ms[k], o, level),
    decreases ms.len(),
{
    lemma_modules_texts_len(b, ms, o, level);
    if k < ms.len() - 1 {
        lemma_modules_texts_index(b, ms.drop_last(), o, level, k);
    }
}

/// There is one text of a submodule for each submodule.
proof fn lemma_modules_texts_len(b: RustBackend, ms: Seq<RustModule>, o: ModuleOptionsView, level: int)
    ensures
        b.modules_texts(ms, o, level).len() == ms.len(),
    decreases ms.len(),
{
    if ms.len() > 0 {
        lemma_modules_texts_len(b, ms.drop_last(), o, level);
    }
}

/// Nothing of a module is lost: each of its constants, enums, structs, functions and
/// submodules, as rendered on its own one level deeper (without its trailing line endings),
/// is written in the module's text.
pub proof fn module_writes_each_member(b: RustBackend, m: RustModule, o: ModuleOptionsView, level: int)
    ensures
        ({
            let text = b.module_text(m, o, level);
            let l = level + 1;
            let nl = b.nl();
            &&& forall|k: int| #![trigger opt_seq(m.constants)[k]] 0 <= k < opt_seq(m.constants).len() ==> occurs_in(
                trim_end(b.constant_text(opt_seq(m.constants)[k], o.2, l), nl),
                text,
            )
            &&& forall|k: int| #![trigger opt_seq(m.enums)[k]] 0 <= k < opt_seq(m.enums).len() ==> occurs_in(
                trim_end(b.enum_text(opt_seq(m.enums)[k], o.3, l), nl),
                text,
            )
            &&& forall|k: int| #![trigger opt_seq(m.structs)[k]] 0 <= k < opt_seq(m.structs).len() ==> occurs_in(
                trim_end(b.struct_text(opt_seq(m.structs)[k], o.4, l), nl),
                text,
            )
            &&& forall|k: int| #![trigger opt_seq(m.functions)[k]] 0 <= k < opt_seq(m.functions).len() ==> occurs_in(
                trim_end(b.fn_text(opt_seq(m.functions)[k], o.5, l), nl),
                text,
            )
            &&& forall|k: int| #![trigger opt_seq(m.modules)[k]] 0 <= k < opt_seq(m.modules).len() ==> occurs_in(
                trim_end(b.module_text(opt_seq(m.modules)[k], o, l), nl),
                text,
            )
        }),
{
    let l = level + 1;
    let d = b.define_blocks(m.defines, o.0, o.1, l);
    let c = b.constant_blocks(m.constants, o.2, l);
    let e = b.enum_blocks(m.enums, o.3, l);
    let s = b.struct_blocks(m.structs, o.4, l);
    let f = b.function_blocks(m.functions, o.5, l);
    let ms = b.sub_blocks(m, o, l);
    let blocks = b.module_blocks(m, o, l);
    assert(blocks == d + c + e + s + f + ms);
    assert forall|k: int| 0 <= k < opt_seq(m.constants).len() implies occurs_in(
        trim_end(b.constant_text(#[trigger] opt_seq(m.constants)[k], o.2, l), b.nl()),
        b.module_text(m, o, level),
    ) by {
        assert(blocks[d.len() + k] == c[k]);
        module_writes_each_block(b, m, o, level, d.len() + k);
    }
    assert forall|k: int| 0 <= k < opt_seq(m.enums).len() implies occurs_in(
        trim_end(b.enum_text(#[trigger] opt_seq(m.enums)[k], o.3, l), b.nl()),
        b.module_text(m, o, level),
    ) by {
        assert(blocks[d.len() + c.len() + k] == e[k]);
        module_writes_each_block(b, m, o, level, d.len() + c.len() + k);
    }
    assert forall|k: int| 0 <= k < opt_seq(m.structs).len() implies occurs_in(
        trim_end(b.struct_text(#[trigger] opt_seq(m.structs)[k], o.4, l), b.nl()),
        b.module_text(m, o, level),
    ) by {
        assert(blocks[d.len() + c.len() + e.len() + k] == s[k]);
        module_writes_each_block(b, m, o, level, d.len() + c.len() + e.len() + k);
    }
    assert forall|k: int| 0 <= k < opt_seq(m.functions).len() implies occurs_in(
        trim_end(b.fn_text(#[trigger] opt_seq(m.functions)[k], o.5, l), b.nl()),
        b.module_text(m, o, level),
    ) by {
        assert(blocks[d.len() + c.len() + e.len() + s.len() + k] == f[k]);
        module_writes_each_block(b, m, o, level, d.len() + c.len() + e.len() + s.len() + k);
    }
    assert forall|k: int| 0 <= k < opt_seq(m.modules).len() implies occurs_in(
        trim_end(b.module_text(#[trigger] opt_seq(m.modules)[k], o, l), b.nl()),
        b.module_text(m, o, level),
    ) by {
        lemma_modules_texts_index(b, m.modules->0@, o, l, k);
        assert(blocks[d.len() + c.len() + e.len() + s.len() + f.len() + k] == ms[k]);
        module_writes_each_block(b, m, o, level, d.len() + c.len() + e.len() + s.len() + f.len() + k);
    }
}

} // verus!
