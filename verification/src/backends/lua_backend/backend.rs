use vstd::prelude::*;

use super::{LuaEnum, LuaEnumRenderOptions, LuaFunction, LuaFunctionRenderOptions, LuaModule, LuaModuleRenderOptions};
use crate::backends::{BackendFeature, BackendMetadata};
use crate::text::{
    concat, indent, indent_text, join, opt_str, push_joined, push_lines, push_opt_str, push_replacing,
    push_str, replace_char, texts, wrap_each, IndentStyle, NewLineStyle,
};

verus! {

/// Backend that renders the Lua native model as idiomatic Lua source.
///
/// Only form is emitted. Lua has no declaration-only function form (a function always closes
/// with `end`), so the body-slot seam maps as: `body` of `None` renders an empty function
/// body, and `Some(lines)` renders each line verbatim one indent deeper between the signature
/// and `end`. The consumer owns the body content.
#[derive(Debug, Clone, Copy)]
pub struct LuaBackend {
    /// The newline style to use.
    pub new_line: NewLineStyle,
    /// The indentation style to use.
    pub indent_style: IndentStyle,
    /// The number of spaces per indentation level (when using spaces).
    pub indent_size: i32,
}

impl Default for LuaBackend {
    fn default() -> (r: Self)
        ensures
            r.new_line == NewLineStyle::LF,
            r.indent_style == IndentStyle::Spaces,
            r.indent_size == 2,
    {
        LuaBackend { new_line: NewLineStyle::LF, indent_style: IndentStyle::Spaces, indent_size: 2 }
    }
}

impl BackendMetadata for LuaBackend {
    fn language_name(&self) -> (r: &'static str)
        ensures
            r@ == "Lua"@,
    {
        "Lua"
    }

    fn supported_features(&self) -> (r: &'static [BackendFeature])
        ensures
            r@ == seq![BackendFeature::Function, BackendFeature::Namespace, BackendFeature::Enum],
    {
        &[BackendFeature::Function, BackendFeature::Namespace, BackendFeature::Enum]
    }
}

/// Whether rendering the function at `level` stays within the range of `i32` (body lines are
/// one level deeper).
pub open spec fn lua_fn_fits(f: LuaFunction, level: int) -> bool {
    f.body matches Some(lines) && lines@.len() > 0 ==> level < i32::MAX
}

/// Whether rendering every function of the module at `level` stays within the range of `i32`.
pub open spec fn lua_module_fits(m: LuaModule, level: int) -> bool {
    forall|i: int| 0 <= i < m.functions@.len() ==> lua_fn_fits(#[trigger] m.functions@[i], level)
}

impl LuaBackend {
    /// The indentation for `level`.
    pub open spec fn ind(self, level: int) -> Seq<char> {
        indent_text(level, self.indent_size as int, self.indent_style)
    }

    /// The line ending.
    pub open spec fn nl(self) -> Seq<char> {
        self.new_line.text()
    }

    /// Each line of `doc` as a comment line at `level` starting with `marker`.
    #[verifier::opaque]
    pub open spec fn comment_lines_text(self, doc: Seq<char>, marker: Seq<char>, level: int) -> Seq<char> {
        self.ind(level) + marker + replace_char(doc, '\n', self.nl() + self.ind(level) + marker) + self.nl()
    }

    /// The `-- ` doc lines when rendering is on and there is a doc.
    pub open spec fn opt_doc_text(self, render: bool, doc: Option<String>, level: int) -> Seq<char> {
        if render && doc is Some {
            self.comment_lines_text(doc->0@, "-- "@, level)
        } else {
            Seq::empty()
        }
    }

    /// A function at `level`: its doc lines, `function name(params)`, its body lines one level
    /// deeper, `end`.
    #[verifier::opaque]
    pub open spec fn function_text(self, f: LuaFunction, o: LuaFunctionRenderOptions, level: int) -> Seq<char> {
        self.opt_doc_text(o.render_doc, f.doc, level) + self.ind(level) + "function "@ + f.name@ + "("@ + join(
            texts(f.parameters@),
            ", "@,
        ) + ")"@ + self.nl() + (match f.body {
            Some(lines) => wrap_each(self.ind(level + 1), lines@, self.nl()),
            None => Seq::empty(),
        }) + self.ind(level) + "end"@ + self.nl()
    }

    /// The `Name = value,` lines of an enum's members at `level`.
    pub open spec fn enum_members_text(self, e: LuaEnum, level: int) -> Seq<char> {
        concat(
            Seq::new(
                e.members@.len(),
                |i: int| self.ind(level) + e.members@[i].name@ + " = "@ + e.members@[i].value@ + ","@ + self.nl(),
            ),
        )
    }

    /// An enum table: its `--- ` doc lines, `local Name = {`, the members one level deeper, `}`,
    /// with `before` and `after` around it.
    pub open spec fn enum_text(
        self,
        e: LuaEnum,
        o: LuaEnumRenderOptions,
        level: int,
        before: Seq<char>,
        after: Seq<char>,
    ) -> Seq<char> {
        before + self.enum_head_text(e, o, level) + self.enum_members_text(e, level + 1) + self.ind(level) + "}"@
            + self.nl() + after
    }

    /// The head of an enum table: its `--- ` doc lines and `local Name = {`.
    #[verifier::opaque]
    pub open spec fn enum_head_text(self, e: LuaEnum, o: LuaEnumRenderOptions, level: int) -> Seq<char> {
        (if o.render_doc && e.doc is Some {
            self.comment_lines_text(e.doc->0@, "--- "@, level)
        } else {
            Seq::empty()
        }) + self.ind(level) + "local "@ + e.name@ + " = {"@ + self.nl()
    }

    /// The `name = value` lines of a module's fields at `level`.
    pub open spec fn module_fields_text(self, m: LuaModule, level: int) -> Seq<char> {
        concat(
            Seq::new(
                m.fields@.len(),
                |i: int| self.ind(level) + m.fields@[i].name@ + " = "@ + m.fields@[i].value@ + self.nl(),
            ),
        )
    }

    /// The module's functions at `level`, each after a blank line.
    pub open spec fn module_functions_text(self, m: LuaModule, level: int) -> Seq<char> {
        concat(
            Seq::new(
                m.functions@.len(),
                |i: int| self.nl() + self.function_text(
                    m.functions@[i],
                    LuaFunctionRenderOptions { render_doc: true },
                    level,
                ),
            ),
        )
    }

    /// A module table: its doc lines, `local M = {}`, the field assignments, the functions,
    /// a blank line and `return M`, with `before` and `after` around it.
    pub open spec fn module_text(
        self,
        m: LuaModule,
        o: LuaModuleRenderOptions,
        level: int,
        before: Seq<char>,
        after: Seq<char>,
    ) -> Seq<char> {
        before + self.opt_doc_text(o.render_doc, m.doc, level) + self.ind(level) + "local "@ + m.table_name@
            + " = {}"@ + self.nl() + self.module_fields_text(m, level) + self.module_functions_text(m, level)
            + self.nl() + self.ind(level) + "return "@ + m.table_name@ + self.nl() + after
    }
}

impl LuaBackend {
    fn indent(&self, level: i32) -> (r: String)
        ensures
            r@ == self.ind(level as int),
    {
        indent(level, self.indent_size, self.indent_style)
    }

    fn write_comment_lines(&self, doc: &str, marker: &str, indent_level: i32, out: &mut String)
        ensures
            final(out)@ == old(out)@ + self.comment_lines_text(doc@, marker@, indent_level as int),
    {
        proof {
            reveal(LuaBackend::comment_lines_text);
        }
        let ghost start = out@;
        let pad = self.indent(indent_level);
        push_str(out, pad.as_str());
        push_str(out, marker);
        let mut line_break = String::new();
        push_str(&mut line_break, self.new_line.as_str());
        push_str(&mut line_break, pad.as_str());
        push_str(&mut line_break, marker);
        push_replacing(out, doc, '\n', line_break.as_str());
        push_str(out, self.new_line.as_str());
        assert(out@ =~= start + self.comment_lines_text(doc@, marker@, indent_level as int));
    }

    fn write_doc(&self, doc: &str, indent_level: i32, out: &mut String)
        ensures
            final(out)@ == old(out)@ + self.comment_lines_text(doc@, "-- "@, indent_level as int),
    {
        self.write_comment_lines(doc, "-- ", indent_level, out);
    }

    fn write_opt_doc(&self, render: bool, doc: &Option<String>, indent_level: i32, out: &mut String)
        ensures
            final(out)@ == old(out)@ + self.opt_doc_text(render, *doc, indent_level as int),
    {
        let ghost start = out@;
        if render {
            if let Some(d) = doc {
                self.write_doc(d.as_str(), indent_level, out);
            }
        }
        assert(out@ =~= start + self.opt_doc_text(render, *doc, indent_level as int));
    }

    /// Render a Lua function at the given indentation level.
    #[verifier::rlimit(30)]
    fn write_function(&self, input: &LuaFunction, options: &LuaFunctionRenderOptions, indent_level: i32, out: &mut String)
        requires
            lua_fn_fits(*input, indent_level as int),
        ensures
            final(out)@ == old(out)@ + self.function_text(*input, *options, indent_level as int),
    {
        proof {
            reveal(LuaBackend::function_text);
        }
        let ghost start = out@;
        self.write_opt_doc(options.render_doc, &input.doc, indent_level, out);
        let pad = self.indent(indent_level);
        push_str(out, pad.as_str());
        push_str(out, "function ");
        push_str(out, input.name.as_str());
        push_str(out, "(");
        push_joined(out, &input.parameters, ", ");
        push_str(out, ")");
        push_str(out, self.new_line.as_str());
        let ghost mid = out@;
        if let Some(lines) = &input.body {
            if lines.len() > 0 {
                push_lines(out, self.indent(indent_level + 1).as_str(), lines, self.new_line.as_str());
            } else {
                assert(wrap_each(self.ind(indent_level + 1), lines@, self.nl()) =~= Seq::<char>::empty()) by {
                    reveal(wrap_each);
                }
            }
        }
        let ghost mid2 = out@;
        push_str(out, pad.as_str());
        push_str(out, "end");
        push_str(out, self.new_line.as_str());
        assert(out@ =~= start + self.function_text(*input, *options, indent_level as int));
    }

    /// Render a Lua function.
    pub fn render_function_to(
        &self,
        input: &LuaFunction,
        before: Option<&str>,
        after: Option<&str>,
        options: Option<&LuaFunctionRenderOptions>,
        indent_level: &mut i32,
        out: &mut String,
    )
        requires
            lua_fn_fits(*input, *old(indent_level) as int),
        ensures
            final(out)@ == old(out)@ + opt_str(before) + self.function_text(
                *input,
                LuaFunctionRenderOptions::or_default(options),
                *old(indent_level) as int,
            ) + opt_str(after),
            *final(indent_level) == *old(indent_level),
    {
        let binding = LuaFunctionRenderOptions::default();
        let options: &LuaFunctionRenderOptions = match options {
            Some(o) => o,
            None => &binding,
        };
        let ghost start = out@;
        push_opt_str(out, before);
        self.write_function(input, options, *indent_level, out);
        push_opt_str(out, after);
        assert(out@ =~= start + opt_str(before) + self.function_text(*input, *options, *indent_level as int)
            + opt_str(after));
    }

    /// Render a Lua function to a string.
    pub fn render_function(
        &self,
        input: &LuaFunction,
        before: Option<&str>,
        after: Option<&str>,
        options: Option<&LuaFunctionRenderOptions>,
        indent_level: &mut i32,
    ) -> (r: String)
        requires
            lua_fn_fits(*input, *old(indent_level) as int),
        ensures
            r@ == opt_str(before) + self.function_text(
                *input,
                LuaFunctionRenderOptions::or_default(options),
                *old(indent_level) as int,
            ) + opt_str(after),
            *final(indent_level) == *old(indent_level),
    {
        let mut out = String::new();
        self.render_function_to(input, before, after, options, indent_level, &mut out);
        assert(out@ =~= opt_str(before) + self.function_text(
            *input,
            LuaFunctionRenderOptions::or_default(options),
            *old(indent_level) as int,
        ) + opt_str(after));
        out
    }

    fn write_enum_members(&self, input: &LuaEnum, level: i32, out: &mut String)
        ensures
            final(out)@ == old(out)@ + self.enum_members_text(*input, level as int),
    {
        let ghost parts = Seq::new(
            input.members@.len(),
            |i: int| self.ind(level as int) + input.members@[i].name@ + " = "@ + input.members@[i].value@ + ","@
                + self.nl(),
        );
        let ghost start = out@;
        let pad = self.indent(level);
        let mut i: usize = 0;
        assert(parts.take(0) =~= Seq::<Seq<char>>::empty());
        while i < input.members.len()
            invariant
                i <= input.members@.len(),
                pad@ == self.ind(level as int),
                parts == Seq::new(
                    input.members@.len(),
                    |i: int| self.ind(level as int) + input.members@[i].name@ + " = "@ + input.members@[i].value@
                        + ","@ + self.nl(),
                ),
                out@ == start + concat(parts.take(i as int)),
            decreases input.members@.len() - i,
        {
            let ghost prev = out@;
            let member = &input.members[i];
            push_str(out, pad.as_str());
            push_str(out, member.name.as_str());
            push_str(out, " = ");
            push_str(out, member.value.as_str());
            push_str(out, ",");
            push_str(out, self.new_line.as_str());
            assert(parts.take(i + 1).drop_last() =~= parts.take(i as int));
            assert(out@ =~= prev + parts[i as int]);
            i = i + 1;
        }
        assert(parts.take(i as int) =~= parts);
    }

    fn write_enum_head(&self, input: &LuaEnum, options: &LuaEnumRenderOptions, level: i32, out: &mut String)
        ensures
            final(out)@ == old(out)@ + self.enum_head_text(*input, *options, level as int),
    {
        proof {
            reveal(LuaBackend::enum_head_text);
        }
        let ghost start = out@;
        if options.render_doc {
            if let Some(doc) = &input.doc {
                self.write_comment_lines(doc.as_str(), "--- ", level, out);
            }
        }
        let ghost mid = out@;
        push_str(out, self.indent(level).as_str());
        push_str(out, "local ");
        push_str(out, input.name.as_str());
        push_str(out, " = {");
        push_str(out, self.new_line.as_str());
        assert(out@ =~= start + self.enum_head_text(*input, *options, level as int));
    }

    /// Render an enum as a constant table.
    #[verifier::rlimit(30)]
    pub fn render_enum_to(
        &self,
        input: &LuaEnum,
        before: Option<&str>,
        after: Option<&str>,
        options: Option<&LuaEnumRenderOptions>,
        indent_level: &mut i32,
        out: &mut String,
    )
        requires
            input.members@.len() > 0 ==> *old(indent_level) < i32::MAX,
        ensures
            final(out)@ == old(out)@ + self.enum_text(
                *input,
                LuaEnumRenderOptions::or_default(options),
                *old(indent_level) as int,
                opt_str(before),
                opt_str(after),
            ),
            *final(indent_level) == *old(indent_level),
    {
        let binding = LuaEnumRenderOptions::default();
        let options: &LuaEnumRenderOptions = match options {
            Some(o) => o,
            None => &binding,
        };
        let level = *indent_level;
        let ghost start = out@;
        push_opt_str(out, before);
        self.write_enum_head(input, options, level, out);
        let pad = self.indent(level);
        if input.members.len() > 0 {
            self.write_enum_members(input, level + 1, out);
        }
        assert(input.members@.len() == 0 ==> self.enum_members_text(*input, level + 1) =~= Seq::<char>::empty());
        push_str(out, pad.as_str());
        push_str(out, "}");
        push_str(out, self.new_line.as_str());
        push_opt_str(out, after);
        assert(out@ =~= start + self.enum_text(*input, *options, level as int, opt_str(before), opt_str(after)));
    }

    /// Render an enum table to a string.
    pub fn render_enum(
        &self,
        input: &LuaEnum,
        before: Option<&str>,
        after: Option<&str>,
        options: Option<&LuaEnumRenderOptions>,
        indent_level: &mut i32,
    ) -> (r: String)
        requires
            input.members@.len() > 0 ==> *old(indent_level) < i32::MAX,
        ensures
            r@ == self.enum_text(
                *input,
                LuaEnumRenderOptions::or_default(options),
                *old(indent_level) as int,
                opt_str(before),
                opt_str(after),
            ),
            *final(indent_level) == *old(indent_level),
    {
        let mut out = String::new();
        self.render_enum_to(input, before, after, options, indent_level, &mut out);
        assert(out@ =~= self.enum_text(
            *input,
            LuaEnumRenderOptions::or_default(options),
            *old(indent_level) as int,
            opt_str(before),
            opt_str(after),
        ));
        out
    }

    fn write_module_fields(&self, input: &LuaModule, level: i32, out: &mut String)
        ensures
            final(out)@ == old(out)@ + self.module_fields_text(*input, level as int),
    {
        let ghost parts = Seq::new(
            input.fields@.len(),
            |i: int| self.ind(level as int) + input.fields@[i].name@ + " = "@ + input.fields@[i].value@ + self.nl(),
        );
        let ghost start = out@;
        let pad = self.indent(level);
        let mut i: usize = 0;
        assert(parts.take(0) =~= Seq::<Seq<char>>::empty());
        while i < input.fields.len()
            invariant
                i <= input.fields@.len(),
                pad@ == self.ind(level as int),
                parts == Seq::new(
                    input.fields@.len(),
                    |i: int| self.ind(level as int) + input.fields@[i].name@ + " = "@ + input.fields@[i].value@
                        + self.nl(),
                ),
                out@ == start + concat(parts.take(i as int)),
            decreases input.fields@.len() - i,
        {
            let ghost prev = out@;
            let field = &input.fields[i];
            push_str(out, pad.as_str());
            push_str(out, field.name.as_str());
            push_str(out, " = ");
            push_str(out, field.value.as_str());
            push_str(out, self.new_line.as_str());
            assert(parts.take(i + 1).drop_last() =~= parts.take(i as int));
            assert(out@ =~= prev + parts[i as int]);
            i = i + 1;
        }
        assert(parts.take(i as int) =~= parts);
    }

    fn write_module_functions(&self, input: &LuaModule, level: i32, out: &mut String)
        requires
            lua_module_fits(*input, level as int),
        ensures
            final(out)@ == old(out)@ + self.module_functions_text(*input, level as int),
    {
        let function_options = LuaFunctionRenderOptions::default();
        let ghost parts = Seq::new(
            input.functions@.len(),
            |i: int| self.nl() + self.function_text(
                input.functions@[i],
                LuaFunctionRenderOptions { render_doc: true },
                level as int,
            ),
        );
        let ghost start = out@;
        let mut i: usize = 0;
        assert(parts.take(0) =~= Seq::<Seq<char>>::empty());
        while i < input.functions.len()
            invariant
                i <= input.functions@.len(),
                lua_module_fits(*input, level as int),
                function_options == (LuaFunctionRenderOptions { render_doc: true }),
                parts == Seq::new(
                    input.functions@.len(),
                    |i: int| self.nl() + self.function_text(
                        input.functions@[i],
                        LuaFunctionRenderOptions { render_doc: true },
                        level as int,
                    ),
                ),
                out@ == start + concat(parts.take(i as int)),
            decreases input.functions@.len() - i,
        {
            let ghost prev = out@;
            push_str(out, self.new_line.as_str());
            assert(lua_fn_fits(input.functions@[i as int], level as int));
            self.write_function(&input.functions[i], &function_options, level, out);
            assert(parts.take(i + 1).drop_last() =~= parts.take(i as int));
            assert(out@ =~= prev + parts[i as int]);
            i = i + 1;
        }
        assert(parts.take(i as int) =~= parts);
    }

    /// Render a Lua module table (`local M = {}` ... `return M`).
    ///
    /// A module carries both field assignments and functions wrapped in return-table
    /// scaffolding, so it has an entry point of its own.
    #[verifier::rlimit(30)]
    pub fn render_module_to(
        &self,
        input: &LuaModule,
        before: Option<&str>,
        after: Option<&str>,
        options: Option<&LuaModuleRenderOptions>,
        indent_level: &mut i32,
        out: &mut String,
    )
        requires
            lua_module_fits(*input, *old(indent_level) as int),
        ensures
            final(out)@ == old(out)@ + self.module_text(
                *input,
                LuaModuleRenderOptions::or_default(options),
                *old(indent_level) as int,
                opt_str(before),
                opt_str(after),
            ),
            *final(indent_level) == *old(indent_level),
    {
        let binding = LuaModuleRenderOptions::default();
        let options: &LuaModuleRenderOptions = match options {
            Some(o) => o,
            None => &binding,
        };
        let level = *indent_level;
        let ghost start = out@;
        push_opt_str(out, before);
        self.write_opt_doc(options.render_doc, &input.doc, level, out);
        let pad = self.indent(level);
        push_str(out, pad.as_str());
        push_str(out, "local ");
        push_str(out, input.table_name.as_str());
        push_str(out, " = {}");
        push_str(out, self.new_line.as_str());
        self.write_module_fields(input, level, out);
        self.write_module_functions(input, level, out);
        push_str(out, self.new_line.as_str());
        push_str(out, pad.as_str());
        push_str(out, "return ");
        push_str(out, input.table_name.as_str());
        push_str(out, self.new_line.as_str());
        push_opt_str(out, after);
        assert(out@ =~= start + self.module_text(*input, *options, level as int, opt_str(before), opt_str(after)));
    }

    /// Render a Lua module table to a string.
    pub fn render_module(
        &self,
        input: &LuaModule,
        before: Option<&str>,
        after: Option<&str>,
        options: Option<&LuaModuleRenderOptions>,
        indent_level: &mut i32,
    ) -> (r: String)
        requires
            lua_module_fits(*input, *old(indent_level) as int),
        ensures
            r@ == self.module_text(
                *input,
                LuaModuleRenderOptions::or_default(options),
                *old(indent_level) as int,
                opt_str(before),
                opt_str(after),
            ),
            *final(indent_level) == *old(indent_level),
    {
        let mut out = String::new();
        self.render_module_to(input, before, after, options, indent_level, &mut out);
        assert(out@ =~= self.module_text(
            *input,
            LuaModuleRenderOptions::or_default(options),
            *old(indent_level) as int,
            opt_str(before),
            opt_str(after),
        ));
        out
    }
}


/// A function without a body is its signature immediately followed by `end`.
pub proof fn missing_body_closes_at_once(b: LuaBackend, f: LuaFunction, o: LuaFunctionRenderOptions, level: int)
    requires
        f.body is None,
    ensures
        b.function_text(f, o, level) == b.opt_doc_text(o.render_doc, f.doc, level) + b.ind(level) + "function "@
            + f.name@ + "("@ + join(texts(f.parameters@), ", "@) + ")"@ + b.nl() + b.ind(level) + "end"@ + b.nl(),
{
    reveal(LuaBackend::function_text);
    assert(b.function_text(f, o, level) =~= b.opt_doc_text(o.render_doc, f.doc, level) + b.ind(level)
        + "function "@ + f.name@ + "("@ + join(texts(f.parameters@), ", "@) + ")"@ + b.nl() + b.ind(level) + "end"@
        + b.nl());
}

} // verus!
