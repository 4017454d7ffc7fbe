use vstd::prelude::*;

use super::{
    JsClass, JsClassRenderOptions, JsEnum, JsEnumRenderOptions, JsFunction, JsFunctionRenderOptions, JsParameter,
};
use crate::backends::{BackendFeature, BackendMetadata};
use crate::text::{
    concat, indent, indent_text, join, lemma_join_done, lemma_join_loop, lemma_join_start, only_if, opt_str, opt_wrap,
    push_lines, push_opt, push_opt_str, push_replacing, push_str, push_when, replace_char, wrap_each, IndentStyle,
    NewLineStyle, occurs_in, lemma_occurs_between, lemma_concat_split, lemma_concat_take_step, lemma_join_occurs, lemma_occurs_widen, lemma_occurs_in_part,
};

verus! {

/// Backend that renders the neutral declaration model as idiomatic JavaScript source.
///
/// Only form is emitted, and JavaScript carries no type annotations in its surface syntax, so
/// a plain JavaScript signature is untyped. Type information, when the consumer supplies it,
/// surfaces inside an optional JSDoc block. Every function/method whose `body` is `None`
/// renders an empty `{}` block (JavaScript has no declaration-only function form), and a
/// `body` of `Some(lines)` renders each line verbatim one level deeper. The consumer owns the
/// body content.
#[derive(Debug, Clone, Copy)]
pub struct JsBackend {
    /// The newline style to use.
    pub new_line: NewLineStyle,
    /// The indentation style to use.
    pub indent_style: IndentStyle,
    /// The number of spaces per indentation level (when using spaces).
    pub indent_size: i32,
}

impl Default for JsBackend {
    fn default() -> (r: Self)
        ensures
            r.new_line == NewLineStyle::LF,
            r.indent_style == IndentStyle::Spaces,
            r.indent_size == 2,
    {
        JsBackend { new_line: NewLineStyle::LF, indent_style: IndentStyle::Spaces, indent_size: 2 }
    }
}

impl BackendMetadata for JsBackend {
    fn language_name(&self) -> (r: &'static str)
        ensures
            r@ == "JavaScript"@,
    {
        "JavaScript"
    }

    fn supported_features(&self) -> (r: &'static [BackendFeature])
        ensures
            r@ == seq![BackendFeature::Function, BackendFeature::Class, BackendFeature::Enum],
    {
        &[BackendFeature::Function, BackendFeature::Class, BackendFeature::Enum]
    }
}

/// Whether the function carries genuine type or description information worth a JSDoc block.
pub open spec fn js_doc_info(f: JsFunction) -> bool {
    f.doc is Some || f.return_type is Some || exists|i: int|
        0 <= i < f.parameters@.len() && (#[trigger] f.parameters@[i]).type_doc is Some
}

/// Whether rendering the function at `level` stays within the range of `i32` (a body is one
/// level deeper).
pub open spec fn js_fn_fits(f: JsFunction, level: int) -> bool {
    f.body is Some ==> level < i32::MAX
}

/// Whether rendering the class at `level` stays within the range of `i32`: its members are one
/// level deeper, and a method's body one more.
pub open spec fn js_class_fits(c: JsClass, level: int) -> bool {
    &&& level < i32::MAX
    &&& forall|i: int| 0 <= i < c.methods@.len() ==> js_fn_fits(#[trigger] c.methods@[i], level + 1)
}

impl JsBackend {
    /// The indentation for `level`.
    pub open spec fn ind(self, level: int) -> Seq<char> {
        indent_text(level, self.indent_size as int, self.indent_style)
    }

    /// The line ending.
    pub open spec fn nl(self) -> Seq<char> {
        self.new_line.text()
    }

    /// The lines of a free-form description as ` * line` lines of a JSDoc block at `level`.
    #[verifier::opaque]
    pub open spec fn doc_lines_text(self, doc: Seq<char>, level: int) -> Seq<char> {
        self.ind(level) + " * "@ + replace_char(doc, '\n', self.nl() + self.ind(level) + " * "@) + self.nl()
    }

    /// The `@param` tag of a parameter with a type.
    pub open spec fn param_tag_text(self, p: JsParameter, level: int) -> Seq<char> {
        match p.type_doc {
            Some(t) => self.ind(level) + " * @param {"@ + t@ + "} "@ + p.name@ + self.nl(),
            None => Seq::empty(),
        }
    }

    /// A JSDoc block for a function: its description, `@param` tags for typed parameters and
    /// a `@returns` tag.
    #[verifier::opaque]
    pub open spec fn jsdoc_text(self, f: JsFunction, level: int) -> Seq<char> {
        self.ind(level) + "/**"@ + self.nl() + (match f.doc {
            Some(d) => self.doc_lines_text(d@, level),
            None => Seq::empty(),
        }) + concat(Seq::new(f.parameters@.len(), |i: int| self.param_tag_text(f.parameters@[i], level))) + (match f.return_type {
            Some(t) => self.ind(level) + " * @returns {"@ + t@ + "}"@ + self.nl(),
            None => Seq::empty(),
        }) + self.ind(level) + " */"@ + self.nl()
    }

    /// A parameter: its name and ` = default`; its type goes to JSDoc only.
    pub open spec fn param_text(p: JsParameter) -> Seq<char> {
        p.name@ + opt_wrap(" = "@, p.default, ""@)
    }

    /// The parameters, separated by `, `.
    pub open spec fn params_text(ps: Seq<JsParameter>) -> Seq<char> {
        join(Seq::new(ps.len(), |i: int| Self::param_text(ps[i])), ", "@)
    }

    /// The signature: `function name(` (or `[static ]name(` for a method), the untyped
    /// parameters and `)`.
    #[verifier::opaque]
    pub open spec fn fn_signature_text(f: JsFunction, as_method: bool) -> Seq<char> {
        (if as_method {
            only_if(f.is_static, "static "@) + f.name@ + "("@
        } else {
            "function "@ + f.name@ + "("@
        }) + Self::params_text(f.parameters@) + ")"@
    }

    /// The body: `{}` when there is none, else its lines one level deeper in braces.
    #[verifier::opaque]
    pub open spec fn fn_body_text(self, f: JsFunction, level: int) -> Seq<char> {
        match f.body {
            None => " {}"@ + self.nl(),
            Some(lines) => " {"@ + self.nl() + wrap_each(self.ind(level + 1), lines@, self.nl()) + self.ind(level)
                + "}"@ + self.nl(),
        }
    }

    /// A function or method at `level`, after its JSDoc block when there is one to render.
    pub open spec fn function_text(self, f: JsFunction, o: JsFunctionRenderOptions, as_method: bool, level: int) -> Seq<char> {
        only_if(o.render_jsdoc && js_doc_info(f), self.jsdoc_text(f, level)) + self.ind(level)
            + Self::fn_signature_text(f, as_method) + self.fn_body_text(f, level)
    }

    /// The `Name: value,` lines of an enum's members at `level`.
    pub open spec fn enum_members_text(self, e: JsEnum, level: int) -> Seq<char> {
        concat(
            Seq::new(
                e.members@.len(),
                |i: int| self.ind(level) + e.members@[i].name@ + ": "@ + e.members@[i].value@ + ","@ + self.nl(),
            ),
        )
    }

    /// The head of an enum: its JSDoc line and `[export ]const Name = Object.freeze({`.
    #[verifier::opaque]
    pub open spec fn enum_head_text(self, e: JsEnum, o: JsEnumRenderOptions, level: int) -> Seq<char> {
        only_if(
            o.render_jsdoc && e.doc is Some,
            self.ind(level) + "/** "@ + e.doc->0@ + " */"@ + self.nl(),
        ) + self.ind(level) + only_if(e.export, "export "@) + "const "@ + e.name@ + " = Object.freeze({"@
            + self.nl()
    }

    /// The tail of an enum: `} as const);` and the companion `type`.
    #[verifier::opaque]
    pub open spec fn enum_tail_text(self, e: JsEnum, level: int) -> Seq<char> {
        self.ind(level) + "} as const);"@ + self.nl() + self.ind(level) + only_if(e.export, "export "@) + "type "@
            + e.name@ + " = typeof "@ + e.name@ + "[keyof typeof "@ + e.name@ + "];"@ + self.nl()
    }

    /// A const-object enum with `before` and `after` around it.
    pub open spec fn enum_text(
        self,
        e: JsEnum,
        o: JsEnumRenderOptions,
        level: int,
        before: Seq<char>,
        after: Seq<char>,
    ) -> Seq<char> {
        before + self.enum_head_text(e, o, level) + self.enum_members_text(e, level + 1) + self.enum_tail_text(
            e,
            level,
        ) + after
    }

    /// The head of a class: its JSDoc block and `class Name[ extends Base] {`.
    #[verifier::opaque]
    pub open spec fn class_head_text(self, c: JsClass, o: JsClassRenderOptions, level: int) -> Seq<char> {
        only_if(
            o.render_jsdoc && c.doc is Some,
            self.ind(level) + "/**"@ + self.nl() + self.doc_lines_text(c.doc->0@, level) + self.ind(level) + " */"@
                + self.nl(),
        ) + self.ind(level) + "class "@ + c.name@ + opt_wrap(" extends "@, c.extends, ""@) + " {"@ + self.nl()
    }

    /// The `[static ]name = value;` lines of a class's fields at `level`.
    pub open spec fn class_fields_text(self, c: JsClass, level: int) -> Seq<char> {
        concat(
            Seq::new(
                c.fields@.len(),
                |i: int| self.ind(level) + only_if(c.fields@[i].is_static, "static "@) + c.fields@[i].name@ + " = "@
                    + c.fields@[i].value@ + ";"@ + self.nl(),
            ),
        )
    }

    /// The first `n` methods at `level`, each after a blank line when something came before it.
    #[verifier::opaque]
    pub open spec fn class_methods_upto(self, c: JsClass, o: JsClassRenderOptions, level: int, n: int) -> Seq<char>
        decreases n,
    {
        if n <= 0 {
            Seq::empty()
        } else {
            self.class_methods_upto(c, o, level, n - 1) + only_if(c.fields@.len() > 0 || n - 1 > 0, self.nl())
                + self.function_text(
                c.methods@[n - 1],
                JsFunctionRenderOptions { render_jsdoc: o.render_jsdoc },
                true,
                level,
            )
        }
    }

    /// A class: head, fields and methods one level deeper, `}`, with `before` and `after`
    /// around it.
    pub open spec fn class_text(
        self,
        c: JsClass,
        o: JsClassRenderOptions,
        level: int,
        before: Seq<char>,
        after: Seq<char>,
    ) -> Seq<char> {
        before + self.class_head_text(c, o, level) + self.class_fields_text(c, level + 1) + self.class_methods_upto(
            c,
            o,
            level + 1,
            c.methods@.len() as int,
        ) + self.ind(level) + "}"@ + self.nl() + after
    }
}


impl JsBackend {
    fn indent(&self, level: i32) -> (r: String)
        ensures
            r@ == self.ind(level as int),
    {
        indent(level, self.indent_size, self.indent_style)
    }

    /// `true` when the function carries genuine type/description info worth a JSDoc block.
    fn has_doc_info(input: &JsFunction) -> (r: bool)
        ensures
            r == js_doc_info(*input),
    {
        if input.doc.is_some() || input.return_type.is_some() {
            return true;
        }
        let mut i: usize = 0;
        while i < input.parameters.len()
            invariant
                i <= input.parameters@.len(),
                forall|j: int| 0 <= j < i ==> (#[trigger] input.parameters@[j]).type_doc is None,
            decreases input.parameters@.len() - i,
        {
            if input.parameters[i].type_doc.is_some() {
                return true;
            }
            i = i + 1;
        }
        false
    }

    fn write_doc_lines(&self, doc: &str, pad: &str, level: i32, out: &mut String)
        requires
            pad@ == self.ind(level as int),
        ensures
            final(out)@ == old(out)@ + self.doc_lines_text(doc@, level as int),
    {
        proof {
            reveal(JsBackend::doc_lines_text);
        }
        let ghost start = out@;
        push_str(out, pad);
        push_str(out, " * ");
        let mut line_break = String::new();
        push_str(&mut line_break, self.new_line.as_str());
        push_str(&mut line_break, pad);
        push_str(&mut line_break, " * ");
        push_replacing(out, doc, '\n', line_break.as_str());
        push_str(out, self.new_line.as_str());
        assert(out@ =~= start + self.doc_lines_text(doc@, level as int));
    }

    fn write_param_tags(&self, params: &Vec<JsParameter>, pad: &str, level: i32, out: &mut String)
        requires
            pad@ == self.ind(level as int),
        ensures
            final(out)@ == old(out)@ + concat(
                Seq::new(params@.len(), |i: int| self.param_tag_text(params@[i], level as int)),
            ),
    {
        let ghost parts = Seq::new(params@.len(), |i: int| self.param_tag_text(params@[i], level as int));
        let ghost start = out@;
        let mut i: usize = 0;
        assert(parts.take(0) =~= Seq::<Seq<char>>::empty());
        while i < params.len()
            invariant
                i <= params@.len(),
                pad@ == self.ind(level as int),
                parts == Seq::new(params@.len(), |i: int| self.param_tag_text(params@[i], level as int)),
                out@ == start + concat(parts.take(i as int)),
            decreases params@.len() - i,
        {
            let ghost prev = out@;
            let param = &params[i];
            if let Some(type_doc) = &param.type_doc {
                push_str(out, pad);
                push_str(out, " * @param {");
                push_str(out, type_doc.as_str());
                push_str(out, "} ");
                push_str(out, param.name.as_str());
                push_str(out, self.new_line.as_str());
            }
            assert(parts.take(i + 1).drop_last() =~= parts.take(i as int));
            assert(out@ =~= prev + parts[i as int]);
            i = i + 1;
        }
        assert(parts.take(i as int) =~= parts);
    }

    /// Render a JSDoc block from the type information that genuinely exists on the model.
    #[verifier::rlimit(30)]
    fn write_jsdoc(&self, input: &JsFunction, indent_level: i32, out: &mut String)
        ensures
            final(out)@ == old(out)@ + self.jsdoc_text(*input, indent_level as int),
    {
        proof {
            reveal(JsBackend::jsdoc_text);
        }
        let ghost start = out@;
        let pad = self.indent(indent_level);
        push_str(out, pad.as_str());
        push_str(out, "/**");
        push_str(out, self.new_line.as_str());
        let ghost mid = out@;
        if let Some(doc) = &input.doc {
            self.write_doc_lines(doc.as_str(), pad.as_str(), indent_level, out);
        }
        let ghost mid2 = out@;
        self.write_param_tags(&input.parameters, pad.as_str(), indent_level, out);
        if let Some(return_type) = &input.return_type {
            push_str(out, pad.as_str());
            push_str(out, " * @returns {");
            push_str(out, return_type.as_str());
            push_str(out, "}");
            push_str(out, self.new_line.as_str());
        }
        push_str(out, pad.as_str());
        push_str(out, " */");
        push_str(out, self.new_line.as_str());
        assert(out@ =~= start + self.jsdoc_text(*input, indent_level as int));
    }

    fn write_params(params: &Vec<JsParameter>, out: &mut String)
        ensures
            final(out)@ == old(out)@ + Self::params_text(params@),
    {
        let ghost parts = Seq::new(params@.len(), |i: int| Self::param_text(params@[i]));
        let ghost start = out@;
        proof {
            lemma_join_start(start, parts, ", "@);
            reveal(only_if);
        }
        let mut i: usize = 0;
        while i < params.len()
            invariant
                i <= params@.len(),
                parts == Seq::new(params@.len(), |i: int| Self::param_text(params@[i])),
                out@ == start + join(parts.take(i as int), ", "@),
            decreases params@.len() - i,
        {
            let ghost prev = out@;
            if i > 0 {
                push_str(out, ", ");
            }
            let ghost p = out@;
            let param = &params[i];
            push_str(out, param.name.as_str());
            push_opt(out, " = ", &param.default, "");
            proof {
                reveal(only_if);
                assert(out@ =~= p + parts[i as int]);
                lemma_join_loop(start, parts, ", "@, i as int, prev, out@);
            }
            i = i + 1;
        }
        proof {
            lemma_join_done(start, parts, ", "@, i as int);
        }
    }

    #[verifier::rlimit(30)]
    fn write_signature(input: &JsFunction, options: &JsFunctionRenderOptions, as_method: bool, out: &mut String)
        ensures
            final(out)@ == old(out)@ + Self::fn_signature_text(*input, as_method),
    {
        proof {
            reveal(JsBackend::fn_signature_text);
            reveal(only_if);
        }
        let ghost start = out@;
        if as_method {
            push_when(out, input.is_static, "static ");
            push_str(out, input.name.as_str());
            push_str(out, "(");
        } else {
            push_str(out, "function ");
            push_str(out, input.name.as_str());
            push_str(out, "(");
        }
        let ghost mid = out@;
        Self::write_params(&input.parameters, out);
        push_str(out, ")");
        assert(out@ =~= start + Self::fn_signature_text(*input, as_method));
    }

    #[verifier::rlimit(30)]
    fn write_body(&self, input: &JsFunction, indent_level: i32, out: &mut String)
        requires
            js_fn_fits(*input, indent_level as int),
        ensures
            final(out)@ == old(out)@ + self.fn_body_text(*input, indent_level as int),
    {
        proof {
            reveal(JsBackend::fn_body_text);
        }
        let ghost start = out@;
        match &input.body {
            None => {
                push_str(out, " {}");
                push_str(out, self.new_line.as_str());
            },
            Some(lines) => {
                push_str(out, " {");
                push_str(out, self.new_line.as_str());
                push_lines(out, self.indent(indent_level + 1).as_str(), lines, self.new_line.as_str());
                push_str(out, self.indent(indent_level).as_str());
                push_str(out, "}");
                push_str(out, self.new_line.as_str());
            },
        }
        assert(out@ =~= start + self.fn_body_text(*input, indent_level as int));
    }

    /// Render a function or method at the given indentation level.
    ///
    /// `as_method` controls the keyword: free functions are prefixed with
    /// `function`, methods omit it (and may carry a leading `static`).
    fn write_function(
        &self,
        input: &JsFunction,
        options: &JsFunctionRenderOptions,
        as_method: bool,
        indent_level: i32,
        out: &mut String,
    )
        requires
            js_fn_fits(*input, indent_level as int),
        ensures
            final(out)@ == old(out)@ + self.function_text(*input, *options, as_method, indent_level as int),
    {
        proof {
            reveal(only_if);
        }
        let ghost start = out@;
        if options.render_jsdoc && Self::has_doc_info(input) {
            self.write_jsdoc(input, indent_level, out);
        }
        let ghost mid = out@;
        push_str(out, self.indent(indent_level).as_str());
        Self::write_signature(input, options, as_method, out);
        self.write_body(input, indent_level, out);
        assert(out@ =~= start + self.function_text(*input, *options, as_method, indent_level as int));
    }

    /// Render a free function.
    pub fn render_function_to(
        &self,
        input: &JsFunction,
        before: Option<&str>,
        after: Option<&str>,
        options: Option<&JsFunctionRenderOptions>,
        indent_level: &mut i32,
        out: &mut String,
    )
        requires
            js_fn_fits(*input, *old(indent_level) as int),
        ensures
            final(out)@ == old(out)@ + opt_str(before) + self.function_text(
                *input,
                JsFunctionRenderOptions::or_default(options),
                false,
                *old(indent_level) as int,
            ) + opt_str(after),
            *final(indent_level) == *old(indent_level),
    {
        let binding = JsFunctionRenderOptions::default();
        let options: &JsFunctionRenderOptions = match options {
            Some(o) => o,
            None => &binding,
        };
        let ghost start = out@;
        push_opt_str(out, before);
        self.write_function(input, options, false, *indent_level, out);
        push_opt_str(out, after);
        assert(out@ =~= start + opt_str(before) + self.function_text(*input, *options, false, *indent_level as int)
            + opt_str(after));
    }

    /// Render a free function to a string.
    pub fn render_function(
        &self,
        input: &JsFunction,
        before: Option<&str>,
        after: Option<&str>,
        options: Option<&JsFunctionRenderOptions>,
        indent_level: &mut i32,
    ) -> (r: String)
        requires
            js_fn_fits(*input, *old(indent_level) as int),
        ensures
            r@ == opt_str(before) + self.function_text(
                *input,
                JsFunctionRenderOptions::or_default(options),
                false,
                *old(indent_level) as int,
            ) + opt_str(after),
            *final(indent_level) == *old(indent_level),
    {
        let mut out = String::new();
        self.render_function_to(input, before, after, options, indent_level, &mut out);
        assert(out@ =~= opt_str(before) + self.function_text(
            *input,
            JsFunctionRenderOptions::or_default(options),
            false,
            *old(indent_level) as int,
        ) + opt_str(after));
        out
    }
}


impl JsBackend {
    #[verifier::rlimit(30)]
    fn write_enum_head(&self, input: &JsEnum, options: &JsEnumRenderOptions, level: i32, out: &mut String)
        ensures
            final(out)@ == old(out)@ + self.enum_head_text(*input, *options, level as int),
    {
        proof {
            reveal(JsBackend::enum_head_text);
            reveal(only_if);
        }
        let ghost start = out@;
        let pad = self.indent(level);
        if options.render_jsdoc {
            if let Some(doc) = &input.doc {
                push_str(out, pad.as_str());
                push_str(out, "/** ");
                push_str(out, doc.as_str());
                push_str(out, " */");
                push_str(out, self.new_line.as_str());
            }
        }
        push_str(out, pad.as_str());
        push_when(out, input.export, "export ");
        push_str(out, "const ");
        push_str(out, input.name.as_str());
        push_str(out, " = Object.freeze({");
        push_str(out, self.new_line.as_str());
        assert(out@ =~= start + self.enum_head_text(*input, *options, level as int));
    }

    fn write_enum_members(&self, input: &JsEnum, level: i32, out: &mut String)
        ensures
            final(out)@ == old(out)@ + self.enum_members_text(*input, level as int),
    {
        let ghost parts = Seq::new(
            input.members@.len(),
            |i: int| self.ind(level as int) + input.members@[i].name@ + ": "@ + input.members@[i].value@ + ","@
                + self.nl(),
        );
        let ghost start = out@;
        let pad = self.indent(level);
        let mut i: usize = 0;
        assert(parts.take(0) =~= Seq::<Seq<char>>::empty());
        while i < input.members.len()
            invariant
                i <= input.members@.len(),
                pad@ == self.ind(level as int),
                parts == Seq::new(
                    input.members@.len(),
                    |i: int| self.ind(level as int) + input.members@[i].name@ + ": "@ + input.members@[i].value@
                        + ","@ + self.nl(),
                ),
                out@ == start + concat(parts.take(i as int)),
            decreases input.members@.len() - i,
        {
            let ghost prev = out@;
            let member = &input.members[i];
            push_str(out, pad.as_str());
            push_str(out, member.name.as_str());
            push_str(out, ": ");
            push_str(out, member.value.as_str());
            push_str(out, ",");
            push_str(out, self.new_line.as_str());
            assert(parts.take(i + 1).drop_last() =~= parts.take(i as int));
            assert(out@ =~= prev + parts[i as int]);
            i = i + 1;
        }
        assert(parts.take(i as int) =~= parts);
    }

    #[verifier::rlimit(30)]
    fn write_enum_tail(&self, input: &JsEnum, level: i32, out: &mut String)
        ensures
            final(out)@ == old(out)@ + self.enum_tail_text(*input, level as int),
    {
        proof {
            reveal(JsBackend::enum_tail_text);
        }
        let ghost start = out@;
        let pad = self.indent(level);
        push_str(out, pad.as_str());
        push_str(out, "} as const);");
        push_str(out, self.new_line.as_str());
        push_str(out, pad.as_str());
        push_when(out, input.export, "export ");
        push_str(out, "type ");
        push_str(out, input.name.as_str());
        push_str(out, " = typeof ");
        push_str(out, input.name.as_str());
        push_str(out, "[keyof typeof ");
        push_str(out, input.name.as_str());
        push_str(out, "];");
        push_str(out, self.new_line.as_str());
        assert(out@ =~= start + self.enum_tail_text(*input, level as int));
    }

    /// Render a const-object enum with its companion `type`.
    pub fn render_enum_to(
        &self,
        input: &JsEnum,
        before: Option<&str>,
        after: Option<&str>,
        options: Option<&JsEnumRenderOptions>,
        indent_level: &mut i32,
        out: &mut String,
    )
        requires
            input.members@.len() > 0 ==> *old(indent_level) < i32::MAX,
        ensures
            final(out)@ == old(out)@ + self.enum_text(
                *input,
                JsEnumRenderOptions::or_default(options),
                *old(indent_level) as int,
                opt_str(before),
                opt_str(after),
            ),
            *final(indent_level) == *old(indent_level),
    {
        let binding = JsEnumRenderOptions::default();
        let options: &JsEnumRenderOptions = match options {
            Some(o) => o,
            None => &binding,
        };
        let level = *indent_level;
        let ghost start = out@;
        push_opt_str(out, before);
        self.write_enum_head(input, options, level, out);
        if input.members.len() > 0 {
            self.write_enum_members(input, level + 1, out);
        }
        assert(input.members@.len() == 0 ==> self.enum_members_text(*input, level + 1) =~= Seq::<char>::empty());
        self.write_enum_tail(input, level, out);
        push_opt_str(out, after);
        assert(out@ =~= start + self.enum_text(*input, *options, level as int, opt_str(before), opt_str(after)));
    }

    /// Render a const-object enum to a string.
    pub fn render_enum(
        &self,
        input: &JsEnum,
        before: Option<&str>,
        after: Option<&str>,
        options: Option<&JsEnumRenderOptions>,
        indent_level: &mut i32,
    ) -> (r: String)
        requires
            input.members@.len() > 0 ==> *old(indent_level) < i32::MAX,
        ensures
            r@ == self.enum_text(
                *input,
                JsEnumRenderOptions::or_default(options),
                *old(indent_level) as int,
                opt_str(before),
                opt_str(after),
            ),
            *final(indent_level) == *old(indent_level),
    {
        let mut out = String::new();
        self.render_enum_to(input, before, after, options, indent_level, &mut out);
        assert(out@ =~= self.enum_text(
            *input,
            JsEnumRenderOptions::or_default(options),
            *old(indent_level) as int,
            opt_str(before),
            opt_str(after),
        ));
        out
    }

    #[verifier::rlimit(30)]
    fn write_class_head(&self, input: &JsClass, options: &JsClassRenderOptions, level: i32, out: &mut String)
        ensures
            final(out)@ == old(out)@ + self.class_head_text(*input, *options, level as int),
    {
        proof {
            reveal(JsBackend::class_head_text);
            reveal(only_if);
        }
        let ghost start = out@;
        let pad = self.indent(level);
        if options.render_jsdoc {
            if let Some(doc) = &input.doc {
                push_str(out, pad.as_str());
                push_str(out, "/**");
                push_str(out, self.new_line.as_str());
                self.write_doc_lines(doc.as_str(), pad.as_str(), level, out);
                push_str(out, pad.as_str());
                push_str(out, " */");
                push_str(out, self.new_line.as_str());
            }
        }
        push_str(out, pad.as_str());
        push_str(out, "class ");
        push_str(out, input.name.as_str());
        push_opt(out, " extends ", &input.extends, "");
        push_str(out, " {");
        push_str(out, self.new_line.as_str());
        assert(out@ =~= start + self.class_head_text(*input, *options, level as int));
    }

    fn write_class_fields(&self, input: &JsClass, level: i32, out: &mut String)
        ensures
            final(out)@ == old(out)@ + self.class_fields_text(*input, level as int),
    {
        let ghost parts = Seq::new(
            input.fields@.len(),
            |i: int| self.ind(level as int) + only_if(input.fields@[i].is_static, "static "@) + input.fields@[i].name@
                + " = "@ + input.fields@[i].value@ + ";"@ + self.nl(),
        );
        let ghost start = out@;
        let pad = self.indent(level);
        let mut i: usize = 0;
        assert(parts.take(0) =~= Seq::<Seq<char>>::empty());
        while i < input.fields.len()
            invariant
                i <= input.fields@.len(),
                pad@ == self.ind(level as int),
                parts == Seq::new(
                    input.fields@.len(),
                    |i: int| self.ind(level as int) + only_if(input.fields@[i].is_static, "static "@)
                        + input.fields@[i].name@ + " = "@ + input.fields@[i].value@ + ";"@ + self.nl(),
                ),
                out@ == start + concat(parts.take(i as int)),
            decreases input.fields@.len() - i,
        {
            let ghost prev = out@;
            let field = &input.fields[i];
            push_str(out, pad.as_str());
            push_when(out, field.is_static, "static ");
            push_str(out, field.name.as_str());
            push_str(out, " = ");
            push_str(out, field.value.as_str());
            push_str(out, ";");
            push_str(out, self.new_line.as_str());
            assert(parts.take(i + 1).drop_last() =~= parts.take(i as int));
            assert(out@ =~= prev + parts[i as int]);
            i = i + 1;
        }
        assert(parts.take(i as int) =~= parts);
    }

    fn write_class_methods(&self, input: &JsClass, options: &JsClassRenderOptions, level: i32, out: &mut String)
        requires
            js_class_fits(*input, level - 1),
        ensures
            final(out)@ == old(out)@ + self.class_methods_upto(*input, *options, level as int, input.methods@.len() as int),
    {
        proof {
            reveal(JsBackend::class_methods_upto);
        }
        let ghost start = out@;
        let method_options = JsFunctionRenderOptions { render_jsdoc: options.render_jsdoc };
        let mut i: usize = 0;
        while i < input.methods.len()
            invariant
                i <= input.methods@.len(),
                js_class_fits(*input, level - 1),
                method_options == (JsFunctionRenderOptions { render_jsdoc: options.render_jsdoc }),
                out@ == start + self.class_methods_upto(*input, *options, level as int, i as int),
            decreases input.methods@.len() - i,
        {
            push_when(out, input.fields.len() > 0 || i > 0, self.new_line.as_str());
            assert(js_fn_fits(input.methods@[i as int], level as int));
            self.write_function(&input.methods[i], &method_options, true, level, out);
            proof {
                reveal(JsBackend::class_methods_upto);
            }
            assert(out@ =~= start + self.class_methods_upto(*input, *options, level as int, i + 1));
            i = i + 1;
        }
    }

    /// Render a `class` (`class Name {` / `class Name extends Base {`).
    ///
    /// Classes carry both fields and methods, so they have an entry point of their own.
    #[verifier::rlimit(30)]
    pub fn render_class_to(
        &self,
        input: &JsClass,
        before: Option<&str>,
        after: Option<&str>,
        options: Option<&JsClassRenderOptions>,
        indent_level: &mut i32,
        out: &mut String,
    )
        requires
            js_class_fits(*input, *old(indent_level) as int),
        ensures
            final(out)@ == old(out)@ + self.class_text(
                *input,
                JsClassRenderOptions::or_default(options),
                *old(indent_level) as int,
                opt_str(before),
                opt_str(after),
            ),
            *final(indent_level) == *old(indent_level),
    {
        let binding = JsClassRenderOptions::default();
        let options: &JsClassRenderOptions = match options {
            Some(o) => o,
            None => &binding,
        };
        let level = *indent_level;
        let ghost start = out@;
        push_opt_str(out, before);
        self.write_class_head(input, options, level, out);
        *indent_level = level + 1;
        self.write_class_fields(input, level + 1, out);
        self.write_class_methods(input, options, level + 1, out);
        *indent_level = level;
        push_str(out, self.indent(level).as_str());
        push_str(out, "}");
        push_str(out, self.new_line.as_str());
        push_opt_str(out, after);
        assert(out@ =~= start + self.class_text(*input, *options, level as int, opt_str(before), opt_str(after)));
    }

    /// Render a `class` to a string.
    pub fn render_class(
        &self,
        input: &JsClass,
        before: Option<&str>,
        after: Option<&str>,
        options: Option<&JsClassRenderOptions>,
        indent_level: &mut i32,
    ) -> (r: String)
        requires
            js_class_fits(*input, *old(indent_level) as int),
        ensures
            r@ == self.class_text(
                *input,
                JsClassRenderOptions::or_default(options),
                *old(indent_level) as int,
                opt_str(before),
                opt_str(after),
            ),
            *final(indent_level) == *old(indent_level),
    {
        let mut out = String::new();
        self.render_class_to(input, before, after, options, indent_level, &mut out);
        assert(out@ =~= self.class_text(
            *input,
            JsClassRenderOptions::or_default(options),
            *old(indent_level) as int,
            opt_str(before),
            opt_str(after),
        ));
        out
    }
}


/// Without type or description information no JSDoc block is written, whatever the options
/// say about JSDoc.
pub proof fn no_jsdoc_without_doc_info(b: JsBackend, f: JsFunction, o: JsFunctionRenderOptions, as_method: bool, level: int)
    requires
        !js_doc_info(f),
    ensures
        b.function_text(f, o, as_method, level) == b.function_text(
            f,
            JsFunctionRenderOptions { render_jsdoc: !o.render_jsdoc, ..o },
            as_method,
            level,
        ),
        b.function_text(f, o, as_method, level) == b.ind(level) + JsBackend::fn_signature_text(f, as_method)
            + b.fn_body_text(f, level),
{
    reveal(only_if);
    reveal(JsBackend::fn_signature_text);
    assert(b.function_text(f, o, as_method, level) =~= b.ind(level) + JsBackend::fn_signature_text(f, as_method)
        + b.fn_body_text(f, level));
}

/// The signature is always untyped: two functions that differ only in their type information
/// (parameter types, return type, description) have the same signature.
pub proof fn plain_signature_ignores_types(f: JsFunction, g: JsFunction, as_method: bool)
    requires
        f.name == g.name,
        f.is_static == g.is_static,
        f.parameters@.len() == g.parameters@.len(),
        forall|i: int|
            0 <= i < f.parameters@.len() ==> (#[trigger] f.parameters@[i]).name == g.parameters@[i].name
                && f.parameters@[i].default == g.parameters@[i].default,
    ensures
        JsBackend::fn_signature_text(f, as_method) == JsBackend::fn_signature_text(g, as_method),
{
    reveal(JsBackend::fn_signature_text);
    reveal(only_if);
    let pf = Seq::new(f.parameters@.len(), |i: int| JsBackend::param_text(f.parameters@[i]));
    let pg = Seq::new(g.parameters@.len(), |i: int| JsBackend::param_text(g.parameters@[i]));
    assert(pf =~= pg) by {
        assert forall|i: int| 0 <= i < pf.len() implies pf[i] == pg[i] by {
            assert(f.parameters@[i].name == g.parameters@[i].name);
        }
    }
}

/// A function without a body renders the empty block `{}`.
pub proof fn missing_body_is_empty_block(b: JsBackend, f: JsFunction, level: int)
    requires
        f.body is None,
    ensures
        b.fn_body_text(f, level) == " {}"@ + b.nl(),
{
    reveal(JsBackend::fn_body_text);
}

/// The lines of a class's fields at `level`, in order.
spec fn field_lines(b: JsBackend, c: JsClass, level: int) -> Seq<Seq<char>> {
    Seq::new(
        c.fields@.len(),
        |k: int| b.ind(level) + only_if(c.fields@[k].is_static, "static "@) + c.fields@[k].name@ + " = "@
            + c.fields@[k].value@ + ";"@ + b.nl(),
    )
}

/// A class's head is its first line, ending with a line ending.
proof fn class_head_ends_line(b: JsBackend, c: JsClass, o: JsClassRenderOptions, level: int) -> (h: Seq<char>)
    ensures
        b.class_head_text(c, o, level) == h + b.nl(),
{
    reveal(JsBackend::class_head_text);
    let nl = b.nl();
    let docs = only_if(
        o.render_jsdoc && c.doc is Some,
        b.ind(level) + "/**"@ + nl + b.doc_lines_text(c.doc->0@, level) + b.ind(level) + " */"@ + nl,
    );
    let h = docs + b.ind(level) + "class "@ + c.name@ + opt_wrap(" extends "@, c.extends, ""@) + " {"@;
    assert(b.class_head_text(c, o, level) =~= h + nl);
    h
}

/// Each line of a class's fields ends with a line ending.
proof fn field_line_ends_line(b: JsBackend, c: JsClass, level: int, k: int) -> (t: Seq<char>)
    requires
        0 <= k < c.fields@.len(),
    ensures
        field_lines(b, c, level)[k] == t + b.nl(),
{
    let f = c.fields@[k];
    let t = b.ind(level) + only_if(f.is_static, "static "@) + f.name@ + " = "@ + f.value@ + ";"@;
    assert(field_lines(b, c, level)[k] =~= t + b.nl());
    t
}

/// A class's text is what comes before the `i`-th field's line, a line ending, that line, and
/// the rest.
proof fn class_text_around_field(
    b: JsBackend,
    c: JsClass,
    o: JsClassRenderOptions,
    level: int,
    before: Seq<char>,
    after: Seq<char>,
    i: int,
) -> (r: (Seq<char>, Seq<char>))
    requires
        0 <= i < c.fields@.len(),
    ensures
        b.class_text(c, o, level, before, after) == r.0 + b.nl() + field_lines(b, c, level + 1)[i] + r.1,
{
    let nl = b.nl();
    let l = level + 1;
    let lines = field_lines(b, c, l);
    assert(b.class_fields_text(c, l) == concat(lines));
    lemma_concat_split(lines, i);
    let rest = concat(lines.skip(i + 1)) + b.class_methods_upto(c, o, l, c.methods@.len() as int) + b.ind(level)
        + "}"@ + nl + after;
    let head = b.class_head_text(c, o, level);
    let front = before + head + concat(lines.take(i));
    let pre = if i == 0 {
        let h = class_head_ends_line(b, c, o, level);
        assert(lines.take(0) =~= Seq::<Seq<char>>::empty());
        assert(front =~= (before + h) + nl);
        before + h
    } else {
        let t = field_line_ends_line(b, c, l, i - 1);
        lemma_concat_take_step(lines, i);
        assert(front =~= (before + head + concat(lines.take(i - 1)) + t) + nl);
        before + head + concat(lines.take(i - 1)) + t
    };
    assert(b.class_text(c, o, level, before, after) =~= front + lines[i] + rest);
    (pre, rest)
}

/// Every field of a class is written on a line of its own, one level deeper than the class:
/// `static name = value;` for a static field, `name = value;` for an instance field.
pub proof fn class_writes_each_field(
    b: JsBackend,
    c: JsClass,
    o: JsClassRenderOptions,
    level: int,
    before: Seq<char>,
    after: Seq<char>,
    i: int,
)
    requires
        0 <= i < c.fields@.len(),
    ensures
        ({
            let f = c.fields@[i];
            let text = b.class_text(c, o, level, before, after);
            let start = b.nl() + b.ind(level + 1);
            let end = " = "@ + f.value@ + ";"@ + b.nl();
            &&& f.is_static ==> occurs_in(start + "static "@ + f.name@ + end, text)
            &&& !f.is_static ==> occurs_in(start + f.name@ + end, text)
        }),
{
    let f = c.fields@[i];
    let (pre, rest) = class_text_around_field(b, c, o, level, before, after, i);
    let line = field_lines(b, c, level + 1)[i];
    let text = b.class_text(c, o, level, before, after);
    lemma_occurs_between(pre, b.nl() + line, rest);
    assert(pre + (b.nl() + line) + rest =~= text);
    let start = b.nl() + b.ind(level + 1);
    let end = " = "@ + f.value@ + ";"@ + b.nl();
    if f.is_static {
        assert(b.nl() + line =~= start + "static "@ + f.name@ + end) by {
            reveal(only_if);
        }
    } else {
        assert(b.nl() + line =~= start + f.name@ + end) by {
            reveal(only_if);
        }
    }
}

/// A method is written with `static ` before its name exactly when it is static: making an
/// instance method static inserts `static ` into its text and changes nothing else.
pub proof fn static_method_adds_static(b: JsBackend, f: JsFunction, o: JsFunctionRenderOptions, level: int)
    requires
        !f.is_static,
    ensures
        exists|pre: Seq<char>, post: Seq<char>|
            b.function_text(f, o, true, level) == pre + post && b.function_text(
                JsFunction { is_static: true, ..f },
                o,
                true,
                level,
            ) == pre + "static "@ + post,
{
    let x = JsFunction { is_static: true, ..f };
    reveal(JsBackend::fn_signature_text);
    reveal(JsBackend::fn_body_text);
    reveal(only_if);
    assert(js_doc_info(x) == js_doc_info(f));
    assert(b.jsdoc_text(x, level) == b.jsdoc_text(f, level)) by {
        reveal(JsBackend::jsdoc_text);
        assert(Seq::new(x.parameters@.len(), |i: int| b.param_tag_text(x.parameters@[i], level)) =~= Seq::new(
            f.parameters@.len(),
            |i: int| b.param_tag_text(f.parameters@[i], level),
        ));
    }
    let pre = only_if(o.render_jsdoc && js_doc_info(f), b.jsdoc_text(f, level)) + b.ind(level);
    let post = f.name@ + "("@ + JsBackend::params_text(f.parameters@) + ")"@ + b.fn_body_text(f, level);
    assert(b.function_text(f, o, true, level) =~= pre + post);
    assert(b.function_text(x, o, true, level) =~= pre + "static "@ + post);
}

/// Every parameter of a function is written as its name, followed by ` = default` exactly when
/// it has a default value, then by `, ` or, after the last one, by `)`.
pub proof fn function_writes_each_parameter(b: JsBackend, f: JsFunction, o: JsFunctionRenderOptions, as_method: bool, level: int, i: int)
    requires
        0 <= i < f.parameters@.len(),
    ensures
        ({
            let p = f.parameters@[i];
            let follow = if i + 1 < f.parameters@.len() { ", "@ } else { ")"@ };
            let text = b.function_text(f, o, as_method, level);
            &&& p.default matches Some(d) ==> occurs_in(p.name@ + " = "@ + d@ + follow, text)
            &&& p.default is None ==> occurs_in(p.name@ + follow, text)
        }),
{
    reveal(JsBackend::fn_signature_text);
    reveal(opt_wrap);
    reveal_strlit("");
    let p = f.parameters@[i];
    let items = Seq::new(f.parameters@.len(), |k: int| JsBackend::param_text(f.parameters@[k]));
    let follow = if i + 1 < f.parameters@.len() { ", "@ } else { ")"@ };
    lemma_join_occurs(items, ", "@, ")"@, i);
    let opening = if as_method {
        only_if(f.is_static, "static "@) + f.name@ + "("@
    } else {
        "function "@ + f.name@ + "("@
    };
    let pre = only_if(o.render_jsdoc && js_doc_info(f), b.jsdoc_text(f, level)) + b.ind(level) + opening;
    let post = b.fn_body_text(f, level);
    lemma_occurs_widen(pre, join(items, ", "@) + ")"@, post, items[i] + follow);
    assert(pre + (join(items, ", "@) + ")"@) + post =~= b.function_text(f, o, as_method, level));
    match p.default {
        Some(d) => {
            assert(items[i] + follow =~= p.name@ + " = "@ + d@ + follow);
        },
        None => {
            assert(items[i] + follow =~= p.name@ + follow);
        },
    }
}

/// Every member of an enum is written on a line of its own, one level deeper than the enum, as
/// `Name: value,`.
pub proof fn enum_writes_each_member(
    b: JsBackend,
    e: JsEnum,
    o: JsEnumRenderOptions,
    level: int,
    before: Seq<char>,
    after: Seq<char>,
    i: int,
)
    requires
        0 <= i < e.members@.len(),
    ensures
        occurs_in(
            b.ind(level + 1) + e.members@[i].name@ + ": "@ + e.members@[i].value@ + ","@ + b.nl(),
            b.enum_text(e, o, level, before, after),
        ),
{
    let l = level + 1;
    let lines = Seq::new(
        e.members@.len(),
        |k: int| b.ind(l) + e.members@[k].name@ + ": "@ + e.members@[k].value@ + ","@ + b.nl(),
    );
    assert(b.enum_members_text(e, l) == concat(lines));
    lemma_concat_split(lines, i);
    let pre = before + b.enum_head_text(e, o, level) + concat(lines.take(i));
    let post = concat(lines.skip(i + 1)) + b.enum_tail_text(e, level) + after;
    assert(b.enum_text(e, o, level, before, after) =~= pre + lines[i] + post);
    lemma_occurs_between(pre, lines[i], post);
}

/// The first `n` methods of a class hold each of those methods, rendered as a method.
proof fn class_methods_upto_holds_each(b: JsBackend, c: JsClass, o: JsClassRenderOptions, level: int, n: int, k: int)
    requires
        0 <= k < n <= c.methods@.len(),
    ensures
        occurs_in(
            b.function_text(c.methods@[k], JsFunctionRenderOptions { render_jsdoc: o.render_jsdoc }, true, level),
            b.class_methods_upto(c, o, level, n),
        ),
    decreases n,
{
    reveal(JsBackend::class_methods_upto);
    let fo = JsFunctionRenderOptions { render_jsdoc: o.render_jsdoc };
    let prev = b.class_methods_upto(c, o, level, n - 1);
    let sep = only_if(c.fields@.len() > 0 || n - 1 > 0, b.nl());
    let last = b.function_text(c.methods@[n - 1], fo, true, level);
    assert(b.class_methods_upto(c, o, level, n) == prev + sep + last);
    if k == n - 1 {
        lemma_occurs_between(prev + sep, last, Seq::empty());
        assert((prev + sep) + last + Seq::<char>::empty() =~= prev + sep + last);
    } else {
        class_methods_upto_holds_each(b, c, o, level, n - 1, k);
        lemma_occurs_widen(Seq::empty(), prev, sep + last, b.function_text(c.methods@[k], fo, true, level));
        assert(Seq::<char>::empty() + prev + (sep + last) =~= prev + sep + last);
    }
}

/// Every method of a class is written in the class, rendered as a method one level deeper.
pub proof fn class_writes_each_method(
    b: JsBackend,
    c: JsClass,
    o: JsClassRenderOptions,
    level: int,
    before: Seq<char>,
    after: Seq<char>,
    k: int,
)
    requires
        0 <= k < c.methods@.len(),
    ensures
        occurs_in(
            b.function_text(c.methods@[k], JsFunctionRenderOptions { render_jsdoc: o.render_jsdoc }, true, level + 1),
            b.class_text(c, o, level, before, after),
        ),
{
    let l = level + 1;
    let mt = b.class_methods_upto(c, o, l, c.methods@.len() as int);
    let pre = before + b.class_head_text(c, o, level) + b.class_fields_text(c, l);
    let post = b.ind(level) + "}"@ + b.nl() + after;
    assert(b.class_text(c, o, level, before, after) =~= pre + mt + post);
    class_methods_upto_holds_each(b, c, o, l, c.methods@.len() as int, k);
    lemma_occurs_widen(
        pre,
        mt,
        post,
        b.function_text(c.methods@[k], JsFunctionRenderOptions { render_jsdoc: o.render_jsdoc }, true, l),
    );
}

/// An exported enum is declared with `export const Name`, and its companion type with
/// `export type Name`.
pub proof fn exported_enum_is_exported(b: JsBackend, e: JsEnum, o: JsEnumRenderOptions, level: int, before: Seq<char>, after: Seq<char>)
    requires
        e.export,
    ensures
        occurs_in("export const "@ + e.name@ + " = Object.freeze({"@, b.enum_text(e, o, level, before, after)),
        occurs_in("export type "@ + e.name@, b.enum_text(e, o, level, before, after)),
{
    let text = b.enum_text(e, o, level, before, after);
    let head = b.enum_head_text(e, o, level);
    let tail = b.enum_tail_text(e, level);
    let mid = b.enum_members_text(e, level + 1);
    assert(text =~= before + head + mid + tail + after);
    let docs = only_if(o.render_jsdoc && e.doc is Some, b.ind(level) + "/** "@ + e.doc->0@ + " */"@ + b.nl());
    let t1 = "export const "@ + e.name@ + " = Object.freeze({"@;
    assert(only_if(e.export, "export "@) == "export "@) by {
        reveal(only_if);
    }
    assert(head =~= (docs + b.ind(level)) + t1 + b.nl()) by {
        reveal(JsBackend::enum_head_text);
        reveal_strlit("export ");
        reveal_strlit("const ");
        reveal_strlit("export const ");
    }
    lemma_occurs_between(docs + b.ind(level), t1, b.nl());
    lemma_occurs_between(before, head, mid + tail + after);
    assert(before + head + (mid + tail + after) =~= text);
    lemma_occurs_in_part(t1, head, text);
    let t2 = "export type "@ + e.name@;
    let pre2 = b.ind(level) + "} as const);"@ + b.nl() + b.ind(level);
    let post2 = " = typeof "@ + e.name@ + "[keyof typeof "@ + e.name@ + "];"@ + b.nl();
    assert(tail =~= pre2 + t2 + post2) by {
        reveal(JsBackend::enum_tail_text);
        reveal_strlit("export ");
        reveal_strlit("type ");
        reveal_strlit("export type ");
    }
    lemma_occurs_between(pre2, t2, post2);
    lemma_occurs_between(before + head + mid, tail, after);
    assert((before + head + mid) + tail + after =~= text);
    lemma_occurs_in_part(t2, tail, text);
}

} // verus!
