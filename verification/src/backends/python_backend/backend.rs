use vstd::prelude::*;

use super::{
    PythonClass, PythonClassRenderOptions, PythonEnum, PythonEnumRenderOptions, PythonFunction,
    PythonFunctionRenderOptions, PythonParameter, PythonStruct, PythonStructRenderOptions,
};
use crate::backends::{BackendFeature, BackendMetadata};
use crate::text::{
    concat, indent, indent_text, join, lemma_join_done, lemma_join_loop, lemma_join_start, only_if, opt_str, opt_wrap,
    push_joined, push_lines, push_opt, push_opt_str, push_replacing, push_str, push_when, replace_char,
    str_contains_char, texts, wrap_each, split_char, lemma_replace_char_is_join, IndentStyle, NewLineStyle,
};

verus! {

/// Backend that renders the neutral declaration model as idiomatic Python source.
///
/// Only form is emitted: every `def` whose `body` is `None` renders a single `pass` (Python's
/// declaration form, since there is no empty block), and a `body` of `Some(lines)` renders
/// each line verbatim one level deeper. The consumer owns the body content.
#[derive(Debug, Clone, Copy)]
pub struct PythonBackend {
    /// The newline style to use.
    pub new_line: NewLineStyle,
    /// The indentation style to use.
    pub indent_style: IndentStyle,
    /// The number of spaces per indentation level (when using spaces).
    pub indent_size: i32,
    /// When `true`, a multi-line docstring's closing `"""` is written on its own
    /// indented line (PEP 257 style) instead of being appended to the last
    /// content line. Single-line docstrings are unaffected. Defaults to `false`
    /// to preserve the compact appended form.
    pub docstring_close_on_own_line: bool,
    /// When `true`, a docstring whose content contains a backslash is rendered as
    /// a raw string (`r"""…"""`), so an embedded escape sequence does not raise a
    /// `SyntaxWarning` on import. Defaults to `false`.
    pub docstring_raw_on_backslash: bool,
}

impl Default for PythonBackend {
    fn default() -> (r: Self)
        ensures
            r.new_line == NewLineStyle::LF,
            r.indent_style == IndentStyle::Spaces,
            r.indent_size == 4,
            !r.docstring_close_on_own_line,
            !r.docstring_raw_on_backslash,
    {
        PythonBackend {
            new_line: NewLineStyle::LF,
            indent_style: IndentStyle::Spaces,
            indent_size: 4,
            docstring_close_on_own_line: false,
            docstring_raw_on_backslash: false,
        }
    }
}

impl BackendMetadata for PythonBackend {
    fn language_name(&self) -> (r: &'static str)
        ensures
            r@ == "Python"@,
    {
        "Python"
    }

    fn supported_features(&self) -> (r: &'static [BackendFeature])
        ensures
            r@ == seq![BackendFeature::Function, BackendFeature::Enum, BackendFeature::Struct, BackendFeature::Class],
    {
        &[BackendFeature::Function, BackendFeature::Enum, BackendFeature::Struct, BackendFeature::Class]
    }
}

/// Whether a plain class gets anything in its body before its methods: a rendered docstring or
/// a class-level assignment.
pub open spec fn class_body_before_methods(c: PythonClass, o: PythonClassRenderOptions) -> bool {
    (o.render_docstring && c.docstring is Some) || c.fields@.len() > 0
}

/// Whether rendering the class at `level` stays within the range of `i32`: its body is one
/// level deeper, and a method's body one more.
pub open spec fn py_class_fits(c: PythonClass, level: int) -> bool {
    level < i32::MAX && (c.methods@.len() > 0 ==> level + 1 < i32::MAX)
}

impl PythonBackend {
    /// The indentation for `level`.
    pub open spec fn ind(self, level: int) -> Seq<char> {
        indent_text(level, self.indent_size as int, self.indent_style)
    }

    /// The line ending.
    pub open spec fn nl(self) -> Seq<char> {
        self.new_line.text()
    }

    /// A docstring at `level`: its first line after the opening quotes (`r"""` when it holds a
    /// backslash and raw docstrings are on), each further line on its own indented line, and
    /// the closing quotes after the last line, or on their own line when the docstring spans
    /// several lines and that is configured.
    #[verifier::opaque]
    pub open spec fn docstring_text(self, d: Seq<char>, level: int) -> Seq<char> {
        self.ind(level) + (if self.docstring_raw_on_backslash && d.contains('\\') {
            "r"@
        } else {
            Seq::empty()
        }) + "\"\"\""@ + replace_char(d, '\n', self.nl() + self.ind(level)) + if d.contains('\n')
            && self.docstring_close_on_own_line {
            self.nl() + self.ind(level) + "\"\"\""@ + self.nl()
        } else {
            "\"\"\""@ + self.nl()
        }
    }

    /// The docstring when rendering is on and there is one.
    pub open spec fn opt_docstring_text(self, render: bool, d: Option<String>, level: int) -> Seq<char> {
        if render && d is Some {
            self.docstring_text(d->0@, level)
        } else {
            Seq::empty()
        }
    }

    /// A parameter: its name, `: hint`, and its default after `=` (spaced when hinted).
    pub open spec fn param_text(p: PythonParameter) -> Seq<char> {
        p.name@ + opt_wrap(": "@, p.type_hint, ""@) + match p.default {
            Some(d) => if p.type_hint is Some {
                " = "@ + d@
            } else {
                "="@ + d@
            },
            None => Seq::empty(),
        }
    }

    /// The parameters, separated by `, `.
    pub open spec fn params_text(ps: Seq<PythonParameter>) -> Seq<char> {
        join(Seq::new(ps.len(), |i: int| Self::param_text(ps[i])), ", "@)
    }

    /// The `def` line of a function.
    #[verifier::opaque]
    pub open spec fn fn_head_text(self, f: PythonFunction, level: int) -> Seq<char> {
        self.ind(level) + "def "@ + f.name@ + "("@ + Self::params_text(f.parameters@) + ")"@ + opt_wrap(
            " -> "@,
            f.return_type,
            ""@,
        ) + ":"@ + self.nl()
    }

    /// Whether a function's body gets a docstring or a line.
    pub open spec fn fn_writes_body(f: PythonFunction, o: PythonFunctionRenderOptions) -> bool {
        (o.render_docstring && f.docstring is Some) || (f.body matches Some(lines) && lines@.len() > 0)
    }

    /// Whether a function's body ends with `pass`: it has no body, or nothing else was written.
    pub open spec fn fn_needs_pass(f: PythonFunction, o: PythonFunctionRenderOptions) -> bool {
        f.body is None || !Self::fn_writes_body(f, o)
    }

    /// The body of a function at `level`: its docstring, its lines (indented unless verbatim),
    /// and `pass` when there is no body or nothing else was written.
    #[verifier::opaque]
    pub open spec fn fn_body_text(self, f: PythonFunction, o: PythonFunctionRenderOptions, level: int) -> Seq<char> {
        self.opt_docstring_text(o.render_docstring, f.docstring, level) + (match f.body {
            Some(lines) => wrap_each(
                if o.verbatim_body {
                    Seq::empty()
                } else {
                    self.ind(level)
                },
                lines@,
                self.nl(),
            ),
            None => Seq::empty(),
        }) + only_if(Self::fn_needs_pass(f, o), self.ind(level) + "pass"@ + self.nl())
    }

    /// A `def` at `level` with its body one level deeper.
    pub open spec fn function_text(self, f: PythonFunction, o: PythonFunctionRenderOptions, level: int) -> Seq<char> {
        self.fn_head_text(f, level) + self.fn_body_text(f, o, level + 1)
    }

    /// The head of a ctypes structure: `class Name(ctypes.Structure):`, its docstring and the
    /// opening of `_fields_`, one level deeper.
    #[verifier::opaque]
    pub open spec fn struct_head_text(self, s: PythonStruct, o: PythonStructRenderOptions, level: int) -> Seq<char> {
        self.ind(level) + "class "@ + s.name@ + "(ctypes.Structure):"@ + self.nl() + self.opt_docstring_text(
            o.render_docstring,
            s.docstring,
            level + 1,
        ) + self.ind(level + 1) + "_fields_ = ["@ + self.nl()
    }

    /// The `("name", ctype),` lines of a structure's fields at `level`.
    pub open spec fn struct_fields_text(self, s: PythonStruct, level: int) -> Seq<char> {
        concat(
            Seq::new(
                s.fields@.len(),
                |i: int| self.ind(level) + "(\""@ + s.fields@[i].name@ + "\", "@ + s.fields@[i].ctype@ + "),"@
                    + self.nl(),
            ),
        )
    }

    /// A ctypes structure with `before` and `after` around it.
    pub open spec fn struct_text(
        self,
        s: PythonStruct,
        o: PythonStructRenderOptions,
        level: int,
        before: Seq<char>,
        after: Seq<char>,
    ) -> Seq<char> {
        before + self.struct_head_text(s, o, level) + self.struct_fields_text(s, level + 2) + self.ind(level + 1)
            + "]"@ + self.nl() + after
    }

    /// The head of an enum: `class Name(enum.IntEnum):` and its docstring one level deeper.
    #[verifier::opaque]
    pub open spec fn enum_head_text(self, e: PythonEnum, o: PythonEnumRenderOptions, level: int) -> Seq<char> {
        self.ind(level) + "class "@ + e.name@ + "(enum.IntEnum):"@ + self.nl() + self.opt_docstring_text(
            o.render_docstring,
            e.docstring,
            level + 1,
        )
    }

    /// The `NAME = value` lines of an enum's members at `level`, or `pass` when there are none.
    pub open spec fn enum_members_text(self, e: PythonEnum, level: int) -> Seq<char> {
        if e.members@.len() == 0 {
            self.ind(level) + "pass"@ + self.nl()
        } else {
            concat(
                Seq::new(
                    e.members@.len(),
                    |i: int| self.ind(level) + e.members@[i].name@ + " = "@ + e.members@[i].value@ + self.nl(),
                ),
            )
        }
    }

    /// An enum with `before` and `after` around it.
    pub open spec fn enum_text(
        self,
        e: PythonEnum,
        o: PythonEnumRenderOptions,
        level: int,
        before: Seq<char>,
        after: Seq<char>,
    ) -> Seq<char> {
        before + self.enum_head_text(e, o, level) + self.enum_members_text(e, level + 1) + after
    }

    /// The head of a plain class: `class Name(Bases):` and its docstring one level deeper.
    #[verifier::opaque]
    pub open spec fn class_head_text(self, c: PythonClass, o: PythonClassRenderOptions, level: int) -> Seq<char> {
        self.ind(level) + "class "@ + c.name@ + only_if(
            c.bases@.len() > 0,
            "("@ + join(texts(c.bases@), ", "@) + ")"@,
        ) + ":"@ + self.nl() + self.opt_docstring_text(o.render_docstring, c.docstring, level + 1)
    }

    /// The `name = value` lines of a class's assignments at `level`.
    pub open spec fn class_fields_text(self, c: PythonClass, level: int) -> Seq<char> {
        concat(
            Seq::new(
                c.fields@.len(),
                |i: int| self.ind(level) + c.fields@[i].name@ + " = "@ + c.fields@[i].value@ + self.nl(),
            ),
        )
    }

    /// The first `n` methods at `level`, each after a blank line when something came before it.
    #[verifier::opaque]
    pub open spec fn class_methods_upto(self, c: PythonClass, o: PythonClassRenderOptions, level: int, n: int) -> Seq<char>
        decreases n,
    {
        if n <= 0 {
            Seq::empty()
        } else {
            self.class_methods_upto(c, o, level, n - 1) + only_if(
                class_body_before_methods(c, o) || n - 1 > 0,
                self.nl(),
            ) + self.function_text(c.methods@[n - 1], PythonFunctionRenderOptions::spec_default(), level)
        }
    }

    /// A plain class: head, assignments and methods one level deeper (`pass` when the body
    /// would be empty), with `before` and `after` around it.
    pub open spec fn class_text(
        self,
        c: PythonClass,
        o: PythonClassRenderOptions,
        level: int,
        before: Seq<char>,
        after: Seq<char>,
    ) -> Seq<char> {
        before + self.class_head_text(c, o, level) + self.class_fields_text(c, level + 1) + self.class_methods_upto(
            c,
            o,
            level + 1,
            c.methods@.len() as int,
        ) + only_if(
            !(class_body_before_methods(c, o) || c.methods@.len() > 0),
            self.ind(level + 1) + "pass"@ + self.nl(),
        ) + after
    }
}


impl PythonBackend {
    fn indent(&self, level: i32) -> (r: String)
        ensures
            r@ == self.ind(level as int),
    {
        indent(level, self.indent_size, self.indent_style)
    }

    #[verifier::rlimit(30)]
    fn write_docstring(&self, docstring: &str, indent_level: i32, out: &mut String)
        ensures
            final(out)@ == old(out)@ + self.docstring_text(docstring@, indent_level as int),
    {
        proof {
            reveal(PythonBackend::docstring_text);
        }
        let ghost start = out@;
        let ind = self.indent(indent_level);
        let prefix: &str = if self.docstring_raw_on_backslash && str_contains_char(docstring, '\\') {
            "r"
        } else {
            ""
        };
        proof {
            reveal_strlit("");
        }
        push_str(out, ind.as_str());
        push_str(out, prefix);
        push_str(out, "\"\"\"");
        let mut line_break = String::new();
        push_str(&mut line_break, self.new_line.as_str());
        push_str(&mut line_break, ind.as_str());
        push_replacing(out, docstring, '\n', line_break.as_str());
        let multiline: bool = str_contains_char(docstring, '\n');
        if multiline && self.docstring_close_on_own_line {
            push_str(out, line_break.as_str());
            push_str(out, "\"\"\"");
            push_str(out, self.new_line.as_str());
        } else {
            push_str(out, "\"\"\"");
            push_str(out, self.new_line.as_str());
        }
        assert(out@ =~= start + self.docstring_text(docstring@, indent_level as int));
    }

    fn write_opt_docstring(&self, render: bool, docstring: &Option<String>, indent_level: i32, out: &mut String)
        ensures
            final(out)@ == old(out)@ + self.opt_docstring_text(render, *docstring, indent_level as int),
    {
        let ghost start = out@;
        if render {
            if let Some(d) = docstring {
                self.write_docstring(d.as_str(), indent_level, out);
            }
        }
        assert(out@ =~= start + self.opt_docstring_text(render, *docstring, indent_level as int));
    }

    fn write_params(params: &Vec<PythonParameter>, out: &mut String)
        ensures
            final(out)@ == old(out)@ + Self::params_text(params@),
    {
        let ghost parts = Seq::new(params@.len(), |i: int| Self::param_text(params@[i]));
        let ghost start = out@;
        proof {
            lemma_join_start(start, parts, ", "@);
        }
        let mut i: usize = 0;
        while i < params.len()
            invariant
                i <= params@.len(),
                parts == Seq::new(params@.len(), |i: int| Self::param_text(params@[i])),
                out@ == start + join(parts.take(i as int), ", "@),
            decreases params@.len() - i,
        {
            let ghost prev = out@;
            if i > 0 {
                push_str(out, ", ");
            }
            let ghost p = out@;
            let param = &params[i];
            push_str(out, param.name.as_str());
            push_opt(out, ": ", &param.type_hint, "");
            if let Some(default) = &param.default {
                if param.type_hint.is_some() {
                    push_str(out, " = ");
                } else {
                    push_str(out, "=");
                }
                push_str(out, default.as_str());
            }
            proof {
                assert(out@ =~= p + parts[i as int]);
                lemma_join_loop(start, parts, ", "@, i as int, prev, out@);
            }
            i = i + 1;
        }
        proof {
            lemma_join_done(start, parts, ", "@, i as int);
        }
    }

    #[verifier::rlimit(30)]
    fn write_function_head(&self, input: &PythonFunction, indent_level: i32, out: &mut String)
        ensures
            final(out)@ == old(out)@ + self.fn_head_text(*input, indent_level as int),
    {
        proof {
            reveal(PythonBackend::fn_head_text);
        }
        let ghost start = out@;
        push_str(out, self.indent(indent_level).as_str());
        push_str(out, "def ");
        push_str(out, input.name.as_str());
        push_str(out, "(");
        Self::write_params(&input.parameters, out);
        push_str(out, ")");
        push_opt(out, " -> ", &input.return_type, "");
        push_str(out, ":");
        push_str(out, self.new_line.as_str());
        assert(out@ =~= start + self.fn_head_text(*input, indent_level as int));
    }

    fn write_function_body(&self, input: &PythonFunction, options: &PythonFunctionRenderOptions, body_level: i32, out: &mut String)
        ensures
            final(out)@ == old(out)@ + self.fn_body_text(*input, *options, body_level as int),
    {
        proof {
            reveal(PythonBackend::fn_body_text);
            reveal(only_if);
        }
        let ghost start = out@;
        let mut wrote_body: bool = false;
        self.write_opt_docstring(options.render_docstring, &input.docstring, body_level, out);
        if options.render_docstring && input.docstring.is_some() {
            wrote_body = true;
        }
        if let Some(lines) = &input.body {
            let body_indent: String = if options.verbatim_body { String::new() } else { self.indent(body_level) };
            push_lines(out, body_indent.as_str(), lines, self.new_line.as_str());
            if lines.len() > 0 {
                wrote_body = true;
            }
        }
        assert(wrote_body == Self::fn_writes_body(*input, *options));
        if input.body.is_none() || !wrote_body {
            push_str(out, self.indent(body_level).as_str());
            push_str(out, "pass");
            push_str(out, self.new_line.as_str());
        }
        assert(out@ =~= start + self.fn_body_text(*input, *options, body_level as int));
    }

    /// Render a `def` (function or method) at the given indentation level.
    fn write_function(&self, input: &PythonFunction, options: &PythonFunctionRenderOptions, indent_level: i32, out: &mut String)
        requires
            indent_level < i32::MAX,
        ensures
            final(out)@ == old(out)@ + self.function_text(*input, *options, indent_level as int),
    {
        self.write_function_head(input, indent_level, out);
        self.write_function_body(input, options, indent_level + 1, out);
    }

    /// Render a `def`.
    pub fn render_function_to(
        &self,
        input: &PythonFunction,
        before: Option<&str>,
        after: Option<&str>,
        options: Option<&PythonFunctionRenderOptions>,
        indent_level: &mut i32,
        out: &mut String,
    )
        requires
            *old(indent_level) < i32::MAX,
        ensures
            final(out)@ == old(out)@ + opt_str(before) + self.function_text(
                *input,
                PythonFunctionRenderOptions::or_default(options),
                *old(indent_level) as int,
            ) + opt_str(after),
            *final(indent_level) == *old(indent_level),
    {
        let binding = PythonFunctionRenderOptions::default();
        let options: &PythonFunctionRenderOptions = match options {
            Some(o) => o,
            None => &binding,
        };
        let ghost start = out@;
        push_opt_str(out, before);
        self.write_function(input, options, *indent_level, out);
        push_opt_str(out, after);
        assert(out@ =~= start + opt_str(before) + self.function_text(*input, *options, *indent_level as int)
            + opt_str(after));
    }

    /// Render a `def` to a string.
    pub fn render_function(
        &self,
        input: &PythonFunction,
        before: Option<&str>,
        after: Option<&str>,
        options: Option<&PythonFunctionRenderOptions>,
        indent_level: &mut i32,
    ) -> (r: String)
        requires
            *old(indent_level) < i32::MAX,
        ensures
            r@ == opt_str(before) + self.function_text(
                *input,
                PythonFunctionRenderOptions::or_default(options),
                *old(indent_level) as int,
            ) + opt_str(after),
            *final(indent_level) == *old(indent_level),
    {
        let mut out = String::new();
        self.render_function_to(input, before, after, options, indent_level, &mut out);
        assert(out@ =~= opt_str(before) + self.function_text(
            *input,
            PythonFunctionRenderOptions::or_default(options),
            *old(indent_level) as int,
        ) + opt_str(after));
        out
    }
}


impl PythonBackend {
    #[verifier::rlimit(30)]
    fn write_struct_head(&self, input: &PythonStruct, options: &PythonStructRenderOptions, level: i32, out: &mut String)
        requires
            level < i32::MAX,
        ensures
            final(out)@ == old(out)@ + self.struct_head_text(*input, *options, level as int),
    {
        proof {
            reveal(PythonBackend::struct_head_text);
        }
        let ghost start = out@;
        push_str(out, self.indent(level).as_str());
        push_str(out, "class ");
        push_str(out, input.name.as_str());
        push_str(out, "(ctypes.Structure):");
        push_str(out, self.new_line.as_str());
        self.write_opt_docstring(options.render_docstring, &input.docstring, level + 1, out);
        push_str(out, self.indent(level + 1).as_str());
        push_str(out, "_fields_ = [");
        push_str(out, self.new_line.as_str());
        assert(out@ =~= start + self.struct_head_text(*input, *options, level as int));
    }

    fn write_struct_fields(&self, input: &PythonStruct, level: i32, out: &mut String)
        ensures
            final(out)@ == old(out)@ + self.struct_fields_text(*input, level as int),
    {
        let ghost parts = Seq::new(
            input.fields@.len(),
            |i: int| self.ind(level as int) + "(\""@ + input.fields@[i].name@ + "\", "@ + input.fields@[i].ctype@
                + "),"@ + self.nl(),
        );
        let ghost start = out@;
        let ind = self.indent(level);
        let mut i: usize = 0;
        assert(parts.take(0) =~= Seq::<Seq<char>>::empty());
        while i < input.fields.len()
            invariant
                i <= input.fields@.len(),
                ind@ == self.ind(level as int),
                parts == Seq::new(
                    input.fields@.len(),
                    |i: int| self.ind(level as int) + "(\""@ + input.fields@[i].name@ + "\", "@
                        + input.fields@[i].ctype@ + "),"@ + self.nl(),
                ),
                out@ == start + concat(parts.take(i as int)),
            decreases input.fields@.len() - i,
        {
            let ghost prev = out@;
            let field = &input.fields[i];
            push_str(out, ind.as_str());
            push_str(out, "(\"");
            push_str(out, field.name.as_str());
            push_str(out, "\", ");
            push_str(out, field.ctype.as_str());
            push_str(out, "),");
            push_str(out, self.new_line.as_str());
            assert(parts.take(i + 1).drop_last() =~= parts.take(i as int));
            assert(out@ =~= prev + parts[i as int]);
            i = i + 1;
        }
        assert(parts.take(i as int) =~= parts);
    }

    /// Render a ctypes structure: `class Name(ctypes.Structure):` with its `_fields_` list.
    pub fn render_struct_to(
        &self,
        input: &PythonStruct,
        before: Option<&str>,
        after: Option<&str>,
        options: Option<&PythonStructRenderOptions>,
        indent_level: &mut i32,
        out: &mut String,
    )
        requires
            *old(indent_level) + 1 < i32::MAX,
        ensures
            final(out)@ == old(out)@ + self.struct_text(
                *input,
                PythonStructRenderOptions::or_default(options),
                *old(indent_level) as int,
                opt_str(before),
                opt_str(after),
            ),
            *final(indent_level) == *old(indent_level),
    {
        let binding = PythonStructRenderOptions::default();
        let options: &PythonStructRenderOptions = match options {
            Some(o) => o,
            None => &binding,
        };
        let level = *indent_level;
        let ghost start = out@;
        push_opt_str(out, before);
        self.write_struct_head(input, options, level, out);
        *indent_level = level + 2;
        self.write_struct_fields(input, level + 2, out);
        *indent_level = level;
        push_str(out, self.indent(level + 1).as_str());
        push_str(out, "]");
        push_str(out, self.new_line.as_str());
        push_opt_str(out, after);
        assert(out@ =~= start + self.struct_text(*input, *options, level as int, opt_str(before), opt_str(after)));
    }

    /// Render a ctypes structure to a string.
    pub fn render_struct(
        &self,
        input: &PythonStruct,
        before: Option<&str>,
        after: Option<&str>,
        options: Option<&PythonStructRenderOptions>,
        indent_level: &mut i32,
    ) -> (r: String)
        requires
            *old(indent_level) + 1 < i32::MAX,
        ensures
            r@ == self.struct_text(
                *input,
                PythonStructRenderOptions::or_default(options),
                *old(indent_level) as int,
                opt_str(before),
                opt_str(after),
            ),
            *final(indent_level) == *old(indent_level),
    {
        let mut out = String::new();
        self.render_struct_to(input, before, after, options, indent_level, &mut out);
        assert(out@ =~= self.struct_text(
            *input,
            PythonStructRenderOptions::or_default(options),
            *old(indent_level) as int,
            opt_str(before),
            opt_str(after),
        ));
        out
    }

    fn write_enum_head(&self, input: &PythonEnum, options: &PythonEnumRenderOptions, level: i32, out: &mut String)
        requires
            level < i32::MAX,
        ensures
            final(out)@ == old(out)@ + self.enum_head_text(*input, *options, level as int),
    {
        proof {
            reveal(PythonBackend::enum_head_text);
        }
        let ghost start = out@;
        push_str(out, self.indent(level).as_str());
        push_str(out, "class ");
        push_str(out, input.name.as_str());
        push_str(out, "(enum.IntEnum):");
        push_str(out, self.new_line.as_str());
        self.write_opt_docstring(options.render_docstring, &input.docstring, level + 1, out);
        assert(out@ =~= start + self.enum_head_text(*input, *options, level as int));
    }

    #[verifier::rlimit(30)]
    fn write_enum_members(&self, input: &PythonEnum, level: i32, out: &mut String)
        ensures
            final(out)@ == old(out)@ + self.enum_members_text(*input, level as int),
    {
        let ghost start = out@;
        let ind = self.indent(level);
        if input.members.len() == 0 {
            push_str(out, ind.as_str());
            push_str(out, "pass");
            push_str(out, self.new_line.as_str());
            return;
        }
        let ghost parts = Seq::new(
            input.members@.len(),
            |i: int| self.ind(level as int) + input.members@[i].name@ + " = "@ + input.members@[i].value@ + self.nl(),
        );
        let mut i: usize = 0;
        assert(parts.take(0) =~= Seq::<Seq<char>>::empty());
        while i < input.members.len()
            invariant
                i <= input.members@.len(),
                input.members@.len() > 0,
                ind@ == self.ind(level as int),
                parts == Seq::new(
                    input.members@.len(),
                    |i: int| self.ind(level as int) + input.members@[i].name@ + " = "@ + input.members@[i].value@
                        + self.nl(),
                ),
                out@ == start + concat(parts.take(i as int)),
            decreases input.members@.len() - i,
        {
            let ghost prev = out@;
            let member = &input.members[i];
            push_str(out, ind.as_str());
            push_str(out, member.name.as_str());
            push_str(out, " = ");
            push_str(out, member.value.as_str());
            push_str(out, self.new_line.as_str());
            assert(parts.take(i + 1).drop_last() =~= parts.take(i as int));
            assert(out@ =~= prev + parts[i as int]);
            i = i + 1;
        }
        assert(parts.take(i as int) =~= parts);
    }

    /// Render an `enum.IntEnum` class.
    pub fn render_enum_to(
        &self,
        input: &PythonEnum,
        before: Option<&str>,
        after: Option<&str>,
        options: Option<&PythonEnumRenderOptions>,
        indent_level: &mut i32,
        out: &mut String,
    )
        requires
            *old(indent_level) < i32::MAX,
        ensures
            final(out)@ == old(out)@ + self.enum_text(
                *input,
                PythonEnumRenderOptions::or_default(options),
                *old(indent_level) as int,
                opt_str(before),
                opt_str(after),
            ),
            *final(indent_level) == *old(indent_level),
    {
        let binding = PythonEnumRenderOptions::default();
        let options: &PythonEnumRenderOptions = match options {
            Some(o) => o,
            None => &binding,
        };
        let level = *indent_level;
        let ghost start = out@;
        push_opt_str(out, before);
        self.write_enum_head(input, options, level, out);
        *indent_level = level + 1;
        self.write_enum_members(input, level + 1, out);
        *indent_level = level;
        push_opt_str(out, after);
        assert(out@ =~= start + self.enum_text(*input, *options, level as int, opt_str(before), opt_str(after)));
    }

    /// Render an `enum.IntEnum` class to a string.
    pub fn render_enum(
        &self,
        input: &PythonEnum,
        before: Option<&str>,
        after: Option<&str>,
        options: Option<&PythonEnumRenderOptions>,
        indent_level: &mut i32,
    ) -> (r: String)
        requires
            *old(indent_level) < i32::MAX,
        ensures
            r@ == self.enum_text(
                *input,
                PythonEnumRenderOptions::or_default(options),
                *old(indent_level) as int,
                opt_str(before),
                opt_str(after),
            ),
            *final(indent_level) == *old(indent_level),
    {
        let mut out = String::new();
        self.render_enum_to(input, before, after, options, indent_level, &mut out);
        assert(out@ =~= self.enum_text(
            *input,
            PythonEnumRenderOptions::or_default(options),
            *old(indent_level) as int,
            opt_str(before),
            opt_str(after),
        ));
        out
    }

    #[verifier::rlimit(30)]
    fn write_class_head(&self, input: &PythonClass, options: &PythonClassRenderOptions, level: i32, out: &mut String)
        requires
            level < i32::MAX,
        ensures
            final(out)@ == old(out)@ + self.class_head_text(*input, *options, level as int),
    {
        proof {
            reveal(PythonBackend::class_head_text);
            reveal(only_if);
        }
        let ghost start = out@;
        push_str(out, self.indent(level).as_str());
        push_str(out, "class ");
        push_str(out, input.name.as_str());
        if input.bases.len() > 0 {
            push_str(out, "(");
            push_joined(out, &input.bases, ", ");
            push_str(out, ")");
        }
        push_str(out, ":");
        push_str(out, self.new_line.as_str());
        self.write_opt_docstring(options.render_docstring, &input.docstring, level + 1, out);
        assert(out@ =~= start + self.class_head_text(*input, *options, level as int));
    }

    fn write_class_fields(&self, input: &PythonClass, level: i32, out: &mut String)
        ensures
            final(out)@ == old(out)@ + self.class_fields_text(*input, level as int),
    {
        let ghost parts = Seq::new(
            input.fields@.len(),
            |i: int| self.ind(level as int) + input.fields@[i].name@ + " = "@ + input.fields@[i].value@ + self.nl(),
        );
        let ghost start = out@;
        let ind = self.indent(level);
        let mut i: usize = 0;
        assert(parts.take(0) =~= Seq::<Seq<char>>::empty());
        while i < input.fields.len()
            invariant
                i <= input.fields@.len(),
                ind@ == self.ind(level as int),
                parts == Seq::new(
                    input.fields@.len(),
                    |i: int| self.ind(level as int) + input.fields@[i].name@ + " = "@ + input.fields@[i].value@
                        + self.nl(),
                ),
                out@ == start + concat(parts.take(i as int)),
            decreases input.fields@.len() - i,
        {
            let ghost prev = out@;
            let field = &input.fields[i];
            push_str(out, ind.as_str());
            push_str(out, field.name.as_str());
            push_str(out, " = ");
            push_str(out, field.value.as_str());
            push_str(out, self.new_line.as_str());
            assert(parts.take(i + 1).drop_last() =~= parts.take(i as int));
            assert(out@ =~= prev + parts[i as int]);
            i = i + 1;
        }
        assert(parts.take(i as int) =~= parts);
    }

    fn write_class_methods(&self, input: &PythonClass, options: &PythonClassRenderOptions, level: i32, out: &mut String)
        requires
            input.methods@.len() > 0 ==> level < i32::MAX,
        ensures
            final(out)@ == old(out)@ + self.class_methods_upto(*input, *options, level as int, input.methods@.len() as int),
    {
        proof {
            reveal(PythonBackend::class_methods_upto);
        }
        let ghost start = out@;
        let method_options = PythonFunctionRenderOptions::default();
        let wrote_before: bool = (options.render_docstring && input.docstring.is_some()) || input.fields.len() > 0;
        let mut i: usize = 0;
        while i < input.methods.len()
            invariant
                i <= input.methods@.len(),
                input.methods@.len() > 0 ==> level < i32::MAX,
                method_options == PythonFunctionRenderOptions::spec_default(),
                wrote_before == class_body_before_methods(*input, *options),
                out@ == start + self.class_methods_upto(*input, *options, level as int, i as int),
            decreases input.methods@.len() - i,
        {
            push_when(out, wrote_before || i > 0, self.new_line.as_str());
            self.write_function(&input.methods[i], &method_options, level, out);
            proof {
                reveal(PythonBackend::class_methods_upto);
            }
            assert(out@ =~= start + self.class_methods_upto(*input, *options, level as int, i + 1));
            i = i + 1;
        }
    }

    /// Render a plain `class` (`class Name:` / `class Name(Base):`).
    ///
    /// Plain classes carry both class-level assignments and `def` methods, so they have an
    /// entry point of their own.
    #[verifier::rlimit(30)]
    pub fn render_class_to(
        &self,
        input: &PythonClass,
        before: Option<&str>,
        after: Option<&str>,
        options: Option<&PythonClassRenderOptions>,
        indent_level: &mut i32,
        out: &mut String,
    )
        requires
            py_class_fits(*input, *old(indent_level) as int),
        ensures
            final(out)@ == old(out)@ + self.class_text(
                *input,
                PythonClassRenderOptions::or_default(options),
                *old(indent_level) as int,
                opt_str(before),
                opt_str(after),
            ),
            *final(indent_level) == *old(indent_level),
    {
        proof {
            reveal(only_if);
        }
        let binding = PythonClassRenderOptions::default();
        let options: &PythonClassRenderOptions = match options {
            Some(o) => o,
            None => &binding,
        };
        let level = *indent_level;
        let ghost start = out@;
        push_opt_str(out, before);
        self.write_class_head(input, options, level, out);
        *indent_level = level + 1;
        self.write_class_fields(input, level + 1, out);
        self.write_class_methods(input, options, level + 1, out);
        let wrote_body: bool = (options.render_docstring && input.docstring.is_some()) || input.fields.len() > 0
            || input.methods.len() > 0;
        if !wrote_body {
            push_str(out, self.indent(level + 1).as_str());
            push_str(out, "pass");
            push_str(out, self.new_line.as_str());
        }
        *indent_level = level;
        push_opt_str(out, after);
        assert(out@ =~= start + self.class_text(*input, *options, level as int, opt_str(before), opt_str(after)));
    }

    /// Render a plain `class` to a string.
    pub fn render_class(
        &self,
        input: &PythonClass,
        before: Option<&str>,
        after: Option<&str>,
        options: Option<&PythonClassRenderOptions>,
        indent_level: &mut i32,
    ) -> (r: String)
        requires
            py_class_fits(*input, *old(indent_level) as int),
        ensures
            r@ == self.class_text(
                *input,
                PythonClassRenderOptions::or_default(options),
                *old(indent_level) as int,
                opt_str(before),
                opt_str(after),
            ),
            *final(indent_level) == *old(indent_level),
    {
        let mut out = String::new();
        self.render_class_to(input, before, after, options, indent_level, &mut out);
        assert(out@ =~= self.class_text(
            *input,
            PythonClassRenderOptions::or_default(options),
            *old(indent_level) as int,
            opt_str(before),
            opt_str(after),
        ));
        out
    }
}


/// A single-line docstring is rendered the same whether or not the closing quotes of
/// multi-line docstrings go on their own line.
pub proof fn single_line_docstring_ignores_close_style(b: PythonBackend, d: Seq<char>, level: int)
    requires
        !d.contains('\n'),
    ensures
        b.docstring_text(d, level) == (PythonBackend {
            docstring_close_on_own_line: !b.docstring_close_on_own_line,
            ..b
        }).docstring_text(d, level),
{
    reveal(PythonBackend::docstring_text);
}

/// The layout of a docstring: indentation, `r` when raw, the opening quotes, the lines of the
/// docstring separated by a line ending and the indentation, and the closing quotes, on their
/// own indented line when there are several lines and that is configured.
pub proof fn docstring_layout(b: PythonBackend, d: Seq<char>, level: int)
    ensures
        b.docstring_text(d, level) == b.ind(level) + (if b.docstring_raw_on_backslash && d.contains('\\') {
            "r"@
        } else {
            Seq::empty()
        }) + "\"\"\""@ + join(split_char(d, '\n'), b.nl() + b.ind(level)) + (if split_char(d, '\n').len() > 1
            && b.docstring_close_on_own_line {
            b.nl() + b.ind(level) + "\"\"\""@ + b.nl()
        } else {
            "\"\"\""@ + b.nl()
        }),
{
    reveal(PythonBackend::docstring_text);
    lemma_replace_char_is_join(d, '\n', b.nl() + b.ind(level));
}

/// A docstring opens with `r"""` exactly when raw docstrings are on and it holds a backslash,
/// and with `"""` otherwise.
pub proof fn docstring_is_raw_exactly_on_backslash(b: PythonBackend, d: Seq<char>, level: int)
    ensures
        b.docstring_raw_on_backslash && d.contains('\\') ==> b.docstring_text(d, level).take(
            (b.ind(level) + "r"@ + "\"\"\""@).len() as int,
        ) == b.ind(level) + "r"@ + "\"\"\""@,
        !(b.docstring_raw_on_backslash && d.contains('\\')) ==> b.docstring_text(d, level).take(
            (b.ind(level) + "\"\"\""@).len() as int,
        ) == b.ind(level) + "\"\"\""@,
{
    reveal(PythonBackend::docstring_text);
    let t = b.docstring_text(d, level);
    let rest = replace_char(d, '\n', b.nl() + b.ind(level)) + if d.contains('\n') && b.docstring_close_on_own_line {
        b.nl() + b.ind(level) + "\"\"\""@ + b.nl()
    } else {
        "\"\"\""@ + b.nl()
    };
    if b.docstring_raw_on_backslash && d.contains('\\') {
        assert(t =~= (b.ind(level) + "r"@ + "\"\"\""@) + rest);
        assert(t.take((b.ind(level) + "r"@ + "\"\"\""@).len() as int) =~= b.ind(level) + "r"@ + "\"\"\""@);
    } else {
        assert(t =~= (b.ind(level) + "\"\"\""@) + rest);
        assert(t.take((b.ind(level) + "\"\"\""@).len() as int) =~= b.ind(level) + "\"\"\""@);
    }
}

/// A `def` with no body lines and no rendered docstring has the single body line `pass`.
pub proof fn empty_def_body_is_pass(b: PythonBackend, f: PythonFunction, o: PythonFunctionRenderOptions, level: int)
    requires
        f.body is None || f.body->0@.len() == 0,
        !(o.render_docstring && f.docstring is Some),
    ensures
        b.fn_body_text(f, o, level) == b.ind(level) + "pass"@ + b.nl(),
{
    reveal(PythonBackend::fn_body_text);
    reveal(only_if);
    if f.body is Some {
        reveal(wrap_each);
    }
    assert(b.fn_body_text(f, o, level) =~= b.ind(level) + "pass"@ + b.nl());
}

/// Every `def` whose body is `None` renders a single `pass` after its docstring, if any.
pub proof fn bodyless_def_ends_with_pass(b: PythonBackend, f: PythonFunction, o: PythonFunctionRenderOptions, level: int)
    requires
        f.body is None,
    ensures
        b.fn_body_text(f, o, level) == b.opt_docstring_text(o.render_docstring, f.docstring, level) + b.ind(level)
            + "pass"@ + b.nl(),
{
    reveal(PythonBackend::fn_body_text);
    reveal(only_if);
    assert(b.fn_body_text(f, o, level) =~= b.opt_docstring_text(o.render_docstring, f.docstring, level) + b.ind(level)
        + "pass"@ + b.nl());
}

} // verus!
