use vstd::prelude::*;

use super::constant_types::RustConstant;
use super::define_types::RustDefinition;
use super::enum_types::{rust_enum_from_ir_is, rust_enum_from_ir_warnings, rust_enum_names_fit, RustEnum, RustEnumNames};
use super::function_types::{rust_fn_from_ir_is, rust_fn_from_ir_warnings, rust_fn_names_fit, RustFunction, RustFunctionNames};
use super::namespace_types::RustModule;
use super::struct_types::{rust_struct_from_ir_is, rust_struct_from_ir_warnings, rust_struct_names_fit, RustStruct, RustStructNames};
use super::visibility::{rust_visibility_from_ir, rust_visibility_from_ir_warnings};
use super::RustVisibility;
use crate::backends::BackendItem;
use crate::conversion::{flat, lemma_flat_all, lemma_flat_step, opt_seq, ConversionLog, ConversionResult, WarningText};
use crate::ir::{LanguageConstant, LanguageDefinition, LanguageEnum, LanguageFunction, LanguageNamespace, LanguageStruct};

verus! {

/// What the configuration of a conversion made of an IR namespace's names and types: the
/// module's Rust name, the names of each enum, struct and function, and those of each nested
/// module.
pub struct RustModuleNames {
    pub name: ConversionResult<String>,
    pub enums: Vec<RustEnumNames>,
    pub structs: Vec<RustStructNames>,
    pub functions: Vec<RustFunctionNames>,
    pub modules: Vec<RustModuleNames>,
}

/// Whether the names fit the namespace: names for each enum, struct, function and nested
/// namespace, each fitting its item.
pub open spec fn rust_module_names_fit(input: LanguageNamespace, names: RustModuleNames) -> bool
    decreases input,
{
    &&& names.enums@.len() == opt_seq(input.enums).len()
    &&& forall|i: int|
        0 <= i < names.enums@.len() ==> rust_enum_names_fit(#[trigger] opt_seq(input.enums)[i], names.enums@[i])
    &&& names.structs@.len() == opt_seq(input.structs).len()
    &&& forall|i: int|
        0 <= i < names.structs@.len() ==> rust_struct_names_fit(#[trigger] opt_seq(input.structs)[i], names.structs@[i])
    &&& names.functions@.len() == opt_seq(input.functions).len()
    &&& forall|i: int|
        0 <= i < names.functions@.len() ==> rust_fn_names_fit(#[trigger] opt_seq(input.functions)[i], names.functions@[i])
    &&& match input.namespaces {
        Some(v) => names.modules@.len() == v@.len() && forall|i: int|
            0 <= i < v@.len() ==> rust_module_names_fit(#[trigger] v@[i], names.modules@[i]),
        None => names.modules@.len() == 0,
    }
}

/// What converting the IR members of a namespace (all but the nested namespaces) to Rust
/// loses, in order: the visibility of each constant, then what each enum, struct and function
/// loses.
pub open spec fn rust_members_from_ir_warnings(input: LanguageNamespace, names: RustModuleNames) -> Seq<WarningText> {
    let cs = opt_seq(input.constants);
    let es = opt_seq(input.enums);
    let ss = opt_seq(input.structs);
    let fs = opt_seq(input.functions);
    flat(Seq::new(cs.len(), |i: int| rust_visibility_from_ir_warnings(cs[i].visibility))) + flat(
        Seq::new(es.len(), |i: int| rust_enum_from_ir_warnings(es[i], names.enums@[i])),
    ) + flat(Seq::new(ss.len(), |i: int| rust_struct_from_ir_warnings(ss[i], names.structs@[i]))) + flat(
        Seq::new(fs.len(), |i: int| rust_fn_from_ir_warnings(fs[i], names.functions@[i])),
    )
}

/// What converting an IR namespace to a Rust module loses: what its visibility loses, what
/// renaming reports, what its members lose, then what its nested namespaces lose.
pub open spec fn rust_module_from_ir_warnings(input: LanguageNamespace, names: RustModuleNames) -> Seq<WarningText>
    decreases input, 1int,
{
    rust_visibility_from_ir_warnings(input.visibility) + names.name.log@ + rust_members_from_ir_warnings(input, names)
        + match input.namespaces {
        Some(v) => rust_modules_from_ir_warnings(v@, names.modules@),
        None => Seq::empty(),
    }
}

/// What converting each of the namespaces loses, one after the other.
pub open spec fn rust_modules_from_ir_warnings(ns: Seq<LanguageNamespace>, names: Seq<RustModuleNames>) -> Seq<WarningText>
    decreases ns, 0int,
{
    if ns.len() == 0 {
        Seq::empty()
    } else {
        rust_modules_from_ir_warnings(ns.drop_last(), names.take(ns.len() - 1)) + rust_module_from_ir_warnings(
            ns.last(),
            names[ns.len() - 1],
        )
    }
}

/// Whether `r` is the Rust module an IR namespace converts to, given its names: renamed, its
/// visibility converted, each list present exactly when it is, with its items converted, its
/// nested namespaces converted the same way, and the same docs.
pub open spec fn rust_module_from_ir_is(r: RustModule, input: LanguageNamespace, names: RustModuleNames) -> bool
    decreases input,
{
    &&& r.name == names.name.value
    &&& r.visibility == rust_visibility_from_ir(input.visibility)
    &&& match input.defines {
        Some(xs) => r.defines matches Some(ys) && ys@.len() == xs@.len() && forall|i: int|
            0 <= i < xs@.len() ==> define_from_ir_is(#[trigger] ys@[i], xs@[i]),
        None => r.defines is None,
    }
    &&& match input.constants {
        Some(xs) => r.constants matches Some(ys) && ys@.len() == xs@.len() && forall|i: int|
            0 <= i < xs@.len() ==> constant_from_ir_is(#[trigger] ys@[i], xs@[i]),
        None => r.constants is None,
    }
    &&& match input.enums {
        Some(xs) => r.enums matches Some(ys) && ys@.len() == xs@.len() && forall|i: int|
            0 <= i < xs@.len() ==> rust_enum_from_ir_is(#[trigger] ys@[i], xs@[i], names.enums@[i]),
        None => r.enums is None,
    }
    &&& match input.structs {
        Some(xs) => r.structs matches Some(ys) && ys@.len() == xs@.len() && forall|i: int|
            0 <= i < xs@.len() ==> rust_struct_from_ir_is(#[trigger] ys@[i], xs@[i], names.structs@[i]),
        None => r.structs is None,
    }
    &&& match input.functions {
        Some(xs) => r.functions matches Some(ys) && ys@.len() == xs@.len() && forall|i: int|
            0 <= i < xs@.len() ==> rust_fn_from_ir_is(#[trigger] ys@[i], xs@[i], names.functions@[i]),
        None => r.functions is None,
    }
    &&& match input.namespaces {
        Some(xs) => r.modules matches Some(ys) && ys@.len() == xs@.len() && forall|i: int|
            0 <= i < xs@.len() ==> rust_module_from_ir_is(#[trigger] ys@[i], xs@[i], names.modules@[i]),
        None => r.modules is None,
    }
    &&& r.docs == input.docs
}

/// Converts the defines of a namespace, in order.
fn defines_from_ir(items: Option<Vec<LanguageDefinition>>) -> (r: Option<Vec<RustDefinition>>)
    ensures
        match items {
            Some(xs) => r matches Some(ys) && ys@.len() == xs@.len() && forall|i: int|
                0 <= i < xs@.len() ==> define_from_ir_is(#[trigger] ys@[i], xs@[i]),
            None => r is None,
        },
{
    match items {
        None => None,
        Some(v) => {
            let ghost all = v@;
            let mut rest = v;
            let mut out: Vec<RustDefinition> = Vec::new();
            while rest.len() > 0
                invariant
                    out@.len() + rest@.len() == all.len(),
                    rest@ == all.skip(out@.len() as int),
                    forall|i: int| 0 <= i < out@.len() ==> define_from_ir_is(#[trigger] out@[i], all[i]),
                decreases rest@.len(),
            {
                let x = rest.remove(0);
                out.push(RustDefinition::from_ir(x, None).value);
                assert(rest@ =~= all.skip(out@.len() as int));
            }
            Some(out)
        },
    }
}

/// Whether `x` is what an IR define converts to.
pub open spec fn define_from_ir_is(x: RustDefinition, d: LanguageDefinition) -> bool {
    x.name == d.name && x.value == d.value && x.docs == d.docs
}

/// Whether `x` is what an IR constant converts to.
pub open spec fn constant_from_ir_is(x: RustConstant, c: LanguageConstant) -> bool {
    &&& x.name == c.name
    &&& x.visibility == rust_visibility_from_ir(c.visibility)
    &&& x.data_type == c.data_type
    &&& x.value == c.value
    &&& x.docs == c.docs
    &&& !x.is_static
}

/// Converts the constants of a namespace, in order, appending what each loses to `log`.
fn constants_from_ir(items: Option<Vec<LanguageConstant>>, log: &mut ConversionLog) -> (r: Option<Vec<RustConstant>>)
    ensures
        match items {
            Some(xs) => r matches Some(ys) && ys@.len() == xs@.len() && forall|i: int|
                0 <= i < xs@.len() ==> constant_from_ir_is(#[trigger] ys@[i], xs@[i]),
            None => r is None,
        },
        final(log)@ == old(log)@ + flat(
            Seq::new(opt_seq(items).len(), |i: int| rust_visibility_from_ir_warnings(opt_seq(items)[i].visibility)),
        ),
{
    let ghost all = opt_seq(items);
    let ghost parts = Seq::new(all.len(), |i: int| rust_visibility_from_ir_warnings(all[i].visibility));
    let ghost start = log@;
    match items {
        None => {
            assert(log@ =~= start + flat(parts));
            None
        },
        Some(v) => {
            let mut rest = v;
            let mut out: Vec<RustConstant> = Vec::new();
            while rest.len() > 0
                invariant
                    out@.len() + rest@.len() == all.len(),
                    rest@ == all.skip(out@.len() as int),
                    parts == Seq::new(all.len(), |i: int| rust_visibility_from_ir_warnings(all[i].visibility)),
                    forall|i: int| 0 <= i < out@.len() ==> constant_from_ir_is(#[trigger] out@[i], all[i]),
                    log@ == start + flat(parts.take(out@.len() as int)),
                decreases rest@.len(),
            {
                let x = rest.remove(0);
                proof {
                    lemma_flat_step(parts, out@.len() as int);
                }
                let c = RustConstant::from_ir(x, None);
                log.add_warnings(c.log.warnings);
                out.push(c.value);
                assert(rest@ =~= all.skip(out@.len() as int));
            }
            proof {
                lemma_flat_all(parts);
            }
            Some(out)
        },
    }
}

/// Converts the enums of a namespace to Rust, in order, given their names, appending what each loses to `log`.
fn enums_from_ir(items: Option<Vec<LanguageEnum>>, names: Vec<RustEnumNames>, log: &mut ConversionLog) -> (r: Option<Vec<RustEnum>>)
    requires
        names@.len() == opt_seq(items).len(),
        forall|i: int| 0 <= i < names@.len() ==> rust_enum_names_fit(#[trigger] opt_seq(items)[i], names@[i]),
    ensures
        match items {
            Some(xs) => r matches Some(ys) && ys@.len() == xs@.len() && forall|i: int|
                0 <= i < xs@.len() ==> rust_enum_from_ir_is(#[trigger] ys@[i], xs@[i], names@[i]),
            None => r is None,
        },
        final(log)@ == old(log)@ + flat(
            Seq::new(opt_seq(items).len(), |i: int| rust_enum_from_ir_warnings(opt_seq(items)[i], names@[i])),
        ),
{
    let ghost all = opt_seq(items);
    let ghost ns = names@;
    let ghost parts = Seq::new(all.len(), |i: int| rust_enum_from_ir_warnings(all[i], ns[i]));
    let ghost start = log@;
    match items {
        None => {
            assert(log@ =~= start + flat(parts));
            None
        },
        Some(v) => {
            let mut rest = v;
            let mut nrest = names;
            let mut out: Vec<RustEnum> = Vec::new();
            while rest.len() > 0
                invariant
                    all.len() == ns.len(),
                    forall|i: int| 0 <= i < ns.len() ==> rust_enum_names_fit(#[trigger] all[i], ns[i]),
                    out@.len() + rest@.len() == all.len(),
                    rest@ == all.skip(out@.len() as int),
                    nrest@ == ns.skip(out@.len() as int),
                    parts == Seq::new(all.len(), |i: int| rust_enum_from_ir_warnings(all[i], ns[i])),
                    forall|i: int| 0 <= i < out@.len() ==> rust_enum_from_ir_is(#[trigger] out@[i], all[i], ns[i]),
                    log@ == start + flat(parts.take(out@.len() as int)),
                decreases rest@.len(),
            {
                let x = rest.remove(0);
                let n = nrest.remove(0);
                proof {
                    lemma_flat_step(parts, out@.len() as int);
                    assert(rust_enum_names_fit(all[out@.len() as int], ns[out@.len() as int]));
                }
                let c = RustEnum::from_ir(x, n);
                log.add_warnings(c.log.warnings);
                out.push(c.value);
                assert(rest@ =~= all.skip(out@.len() as int));
                assert(nrest@ =~= ns.skip(out@.len() as int));
            }
            proof {
                lemma_flat_all(parts);
            }
            Some(out)
        },
    }
}

/// Converts the structs of a namespace to Rust, in order, given their names, appending what each loses to `log`.
fn structs_from_ir(items: Option<Vec<LanguageStruct>>, names: Vec<RustStructNames>, log: &mut ConversionLog) -> (r: Option<Vec<RustStruct>>)
    requires
        names@.len() == opt_seq(items).len(),
        forall|i: int| 0 <= i < names@.len() ==> rust_struct_names_fit(#[trigger] opt_seq(items)[i], names@[i]),
    ensures
        match items {
            Some(xs) => r matches Some(ys) && ys@.len() == xs@.len() && forall|i: int|
                0 <= i < xs@.len() ==> rust_struct_from_ir_is(#[trigger] ys@[i], xs@[i], names@[i]),
            None => r is None,
        },
        final(log)@ == old(log)@ + flat(
            Seq::new(opt_seq(items).len(), |i: int| rust_struct_from_ir_warnings(opt_seq(items)[i], names@[i])),
        ),
{
    let ghost all = opt_seq(items);
    let ghost ns = names@;
    let ghost parts = Seq::new(all.len(), |i: int| rust_struct_from_ir_warnings(all[i], ns[i]));
    let ghost start = log@;
    match items {
        None => {
            assert(log@ =~= start + flat(parts));
            None
        },
        Some(v) => {
            let mut rest = v;
            let mut nrest = names;
            let mut out: Vec<RustStruct> = Vec::new();
            while rest.len() > 0
                invariant
                    all.len() == ns.len(),
                    forall|i: int| 0 <= i < ns.len() ==> rust_struct_names_fit(#[trigger] all[i], ns[i]),
                    out@.len() + rest@.len() == all.len(),
                    rest@ == all.skip(out@.len() as int),
                    nrest@ == ns.skip(out@.len() as int),
                    parts == Seq::new(all.len(), |i: int| rust_struct_from_ir_warnings(all[i], ns[i])),
                    forall|i: int| 0 <= i < out@.len() ==> rust_struct_from_ir_is(#[trigger] out@[i], all[i], ns[i]),
                    log@ == start + flat(parts.take(out@.len() as int)),
                decreases rest@.len(),
            {
                let x = rest.remove(0);
                let n = nrest.remove(0);
                proof {
                    lemma_flat_step(parts, out@.len() as int);
                    assert(rust_struct_names_fit(all[out@.len() as int], ns[out@.len() as int]));
                }
                let c = RustStruct::from_ir(x, n);
                log.add_warnings(c.log.warnings);
                out.push(c.value);
                assert(rest@ =~= all.skip(out@.len() as int));
                assert(nrest@ =~= ns.skip(out@.len() as int));
            }
            proof {
                lemma_flat_all(parts);
            }
            Some(out)
        },
    }
}

/// Converts the functions of a namespace to Rust, in order, given their names, appending what each loses to `log`.
fn functions_from_ir(items: Option<Vec<LanguageFunction>>, names: Vec<RustFunctionNames>, log: &mut ConversionLog) -> (r: Option<Vec<RustFunction>>)
    requires
        names@.len() == opt_seq(items).len(),
        forall|i: int| 0 <= i < names@.len() ==> rust_fn_names_fit(#[trigger] opt_seq(items)[i], names@[i]),
    ensures
        match items {
            Some(xs) => r matches Some(ys) && ys@.len() == xs@.len() && forall|i: int|
                0 <= i < xs@.len() ==> rust_fn_from_ir_is(#[trigger] ys@[i], xs@[i], names@[i]),
            None => r is None,
        },
        final(log)@ == old(log)@ + flat(
            Seq::new(opt_seq(items).len(), |i: int| rust_fn_from_ir_warnings(opt_seq(items)[i], names@[i])),
        ),
{
    let ghost all = opt_seq(items);
    let ghost ns = names@;
    let ghost parts = Seq::new(all.len(), |i: int| rust_fn_from_ir_warnings(all[i], ns[i]));
    let ghost start = log@;
    match items {
        None => {
            assert(log@ =~= start + flat(parts));
            None
        },
        Some(v) => {
            let mut rest = v;
            let mut nrest = names;
            let mut out: Vec<RustFunction> = Vec::new();
            while rest.len() > 0
                invariant
                    all.len() == ns.len(),
                    forall|i: int| 0 <= i < ns.len() ==> rust_fn_names_fit(#[trigger] all[i], ns[i]),
                    out@.len() + rest@.len() == all.len(),
                    rest@ == all.skip(out@.len() as int),
                    nrest@ == ns.skip(out@.len() as int),
                    parts == Seq::new(all.len(), |i: int| rust_fn_from_ir_warnings(all[i], ns[i])),
                    forall|i: int| 0 <= i < out@.len() ==> rust_fn_from_ir_is(#[trigger] out@[i], all[i], ns[i]),
                    log@ == start + flat(parts.take(out@.len() as int)),
                decreases rest@.len(),
            {
                let x = rest.remove(0);
                let n = nrest.remove(0);
                proof {
                    lemma_flat_step(parts, out@.len() as int);
                    assert(rust_fn_names_fit(all[out@.len() as int], ns[out@.len() as int]));
                }
                let c = RustFunction::from_ir(x, n);
                log.add_warnings(c.log.warnings);
                out.push(c.value);
                assert(rest@ =~= all.skip(out@.len() as int));
                assert(nrest@ =~= ns.skip(out@.len() as int));
            }
            proof {
                lemma_flat_all(parts);
            }
            Some(out)
        },
    }
}

impl RustModule {
    /// Converts an IR namespace to a Rust module, given the names and types of its members as
    /// the conversion's configuration resolved them.
    pub fn from_ir(input: LanguageNamespace, names: RustModuleNames) -> (r: ConversionResult<RustModule>)
        requires
            rust_module_names_fit(input, names),
        ensures
            rust_module_from_ir_is(r.value, input, names),
            r.log@ == rust_module_from_ir_warnings(input, names),
        decreases input,
    {
        let ghost inp = input;
        let ghost nm = names;
        let mut log = ConversionLog::new();
        let RustModuleNames { name, enums: enum_names, structs: struct_names, functions: function_names, modules: module_names } = names;
        let LanguageNamespace { name: _, visibility, defines, constants, enums, structs, functions, namespaces, docs, raw_attributes: _ } = input;
        let visibility = RustVisibility::from_ir(visibility, None);
        log.add_warnings(visibility.log.warnings);
        log.add_warnings(name.log.warnings);
        let ghost head = log@;
        let defines = defines_from_ir(defines);
        let constants = constants_from_ir(constants, &mut log);
        let enums = enums_from_ir(enums, enum_names, &mut log);
        let structs = structs_from_ir(structs, struct_names, &mut log);
        let functions = functions_from_ir(functions, function_names, &mut log);
        assert(log@ =~= head + rust_members_from_ir_warnings(inp, nm));
        let ghost mid = log@;
        let modules = match namespaces {
            None => None,
            Some(v) => {
                let ghost all = v@;
                let ghost nall = module_names@;
                let mut rest = v;
                let mut nrest = module_names;
                let mut out: Vec<RustModule> = Vec::new();
                while rest.len() > 0
                    invariant
                        inp.namespaces == Some(v),
                        inp == input,
                        all == v@,
                        nall == nm.modules@,
                        all.len() == nall.len(),
                        forall|i: int| 0 <= i < all.len() ==> rust_module_names_fit(#[trigger] all[i], nall[i]),
                        out@.len() + rest@.len() == all.len(),
                        rest@ == all.skip(out@.len() as int),
                        nrest@ == nall.skip(out@.len() as int),
                        forall|i: int| 0 <= i < out@.len() ==> rust_module_from_ir_is(#[trigger] out@[i], all[i], nall[i]),
                        log@ == mid + rust_modules_from_ir_warnings(all.take(out@.len() as int), nall.take(out@.len() as int)),
                    decreases rest@.len(),
                {
                    let ghost k = out@.len();
                    let x = rest.remove(0);
                    let n = nrest.remove(0);
                    assert(x == all[k as int]);
                    assert(n == nall[k as int]);
                    assert(rust_module_names_fit(all[k as int], nall[k as int]));
                    assert(decreases_to!(input => x)) by {
                        assert(decreases_to!(inp => inp.namespaces));
                        assert(decreases_to!(inp.namespaces => inp.namespaces->0));
                        assert(decreases_to!(inp.namespaces->0 => inp.namespaces->0@));
                        assert(decreases_to!(inp.namespaces->0@ => inp.namespaces->0@[k as int]));
                    }
                    let c = RustModule::from_ir(x, n);
                    log.add_warnings(c.log.warnings);
                    out.push(c.value);
                    assert(all.take(k as int + 1).drop_last() =~= all.take(k as int));
                    assert(nall.take(k as int + 1).take(k as int) =~= nall.take(k as int));
                    assert(rest@ =~= all.skip(out@.len() as int));
                    assert(nrest@ =~= nall.skip(out@.len() as int));
                }
                assert(all.take(all.len() as int) =~= all);
                assert(nall.take(nall.len() as int) =~= nall);
                Some(out)
            },
        };
        assert(log@ =~= rust_module_from_ir_warnings(inp, nm));
        ConversionResult::with_log(
            RustModule {
                name: name.value,
                visibility: visibility.value,
                defines,
                constants,
                enums,
                structs,
                functions,
                modules,
                docs,
            },
            log,
        )
    }
}

} // verus!
