use vstd::prelude::*;

use super::constant_types::CppConstant;
use super::define_types::CppDefinition;
use super::enum_types::{cpp_enum_from_ir_is, cpp_enum_from_ir_warnings, cpp_enum_underlying_fits, CppEnum};
use super::function_types::{cpp_fn_from_ir_is, cpp_fn_from_ir_warnings, cpp_fn_names_fit, CppFunction, CppFunctionNames};
use super::namespace_types::CppNamespace;
use super::struct_types::{cpp_struct_from_ir_is, cpp_struct_from_ir_warnings, cpp_struct_names_fit, CppStruct, CppStructNames};
use super::visibility::{cpp_visibility_from_ir, cpp_visibility_from_ir_warnings};
use crate::backends::BackendItem;
use crate::conversion::{
    feature_warning, flat, lemma_flat_all, lemma_flat_step, opt_seq, unsupported, ConversionLog, ConversionResult,
    WarningText,
};
use crate::ir::{LanguageConstant, LanguageDefinition, LanguageEnum, LanguageFunction, LanguageNamespace, LanguageStruct, Visibility};

verus! {

/// What the configuration of a conversion made of an IR namespace's names and types: the
/// namespace's C++ name, the underlying type of each enum, the names of each struct and each
/// function, and those of each nested namespace.
pub struct CppNamespaceNames {
    pub name: ConversionResult<String>,
    pub enums: Vec<Option<ConversionResult<String>>>,
    pub structs: Vec<CppStructNames>,
    pub functions: Vec<CppFunctionNames>,
    pub namespaces: Vec<CppNamespaceNames>,
}

/// Whether the names fit the namespace: names for each enum, struct, function and nested
/// namespace, each fitting its item.
pub open spec fn cpp_namespace_names_fit(input: LanguageNamespace, names: CppNamespaceNames) -> bool
    decreases input,
{
    &&& names.enums@.len() == opt_seq(input.enums).len()
    &&& forall|i: int|
        0 <= i < names.enums@.len() ==> cpp_enum_underlying_fits(#[trigger] opt_seq(input.enums)[i], names.enums@[i])
    &&& names.structs@.len() == opt_seq(input.structs).len()
    &&& forall|i: int|
        0 <= i < names.structs@.len() ==> cpp_struct_names_fit(#[trigger] opt_seq(input.structs)[i], names.structs@[i])
    &&& names.functions@.len() == opt_seq(input.functions).len()
    &&& forall|i: int|
        0 <= i < names.functions@.len() ==> cpp_fn_names_fit(#[trigger] opt_seq(input.functions)[i], names.functions@[i])
    &&& match input.namespaces {
        Some(v) => names.namespaces@.len() == v@.len() && forall|i: int|
            0 <= i < v@.len() ==> cpp_namespace_names_fit(#[trigger] v@[i], names.namespaces@[i]),
        None => names.namespaces@.len() == 0,
    }
}

/// What converting the IR members of a namespace (all but the nested namespaces) to C++ loses,
/// in order: the visibility of each constant, then what each enum, struct and function loses.
pub open spec fn cpp_members_from_ir_warnings(input: LanguageNamespace, names: CppNamespaceNames) -> Seq<WarningText> {
    let cs = opt_seq(input.constants);
    let es = opt_seq(input.enums);
    let ss = opt_seq(input.structs);
    let fs = opt_seq(input.functions);
    flat(Seq::new(cs.len(), |i: int| cpp_visibility_from_ir_warnings(cs[i].visibility))) + flat(
        Seq::new(es.len(), |i: int| cpp_enum_from_ir_warnings(es[i], names.enums@[i])),
    ) + flat(Seq::new(ss.len(), |i: int| cpp_struct_from_ir_warnings(ss[i], names.structs@[i]))) + flat(
        Seq::new(fs.len(), |i: int| cpp_fn_from_ir_warnings(fs[i], names.functions@[i])),
    )
}

/// What converting an IR namespace to C++ loses: its visibility and its docs, which C++
/// namespaces have no place for, what renaming reports, what its members lose, then what its
/// nested namespaces lose.
pub open spec fn cpp_namespace_from_ir_warnings(input: LanguageNamespace, names: CppNamespaceNames) -> Seq<WarningText>
    decreases input, 1int,
{
    (if input.visibility is Default {
        Seq::empty()
    } else {
        seq![unsupported(
            "visibility on namespace `"@ + input.name@ + "`"@,
            "C++ namespaces have no visibility specifier; dropped"@,
        )]
    }) + (if input.docs is Some {
        seq![unsupported(
            "documentation on namespace `"@ + input.name@ + "`"@,
            "C++ namespaces carry no documentation; dropped"@,
        )]
    } else {
        Seq::empty()
    }) + names.name.log@ + cpp_members_from_ir_warnings(input, names) + match input.namespaces {
        Some(v) => cpp_namespaces_from_ir_warnings(v@, names.namespaces@),
        None => Seq::empty(),
    }
}

/// What converting each of the namespaces loses, one after the other.
pub open spec fn cpp_namespaces_from_ir_warnings(ns: Seq<LanguageNamespace>, names: Seq<CppNamespaceNames>) -> Seq<
    WarningText,
>
    decreases ns, 0int,
{
    if ns.len() == 0 {
        Seq::empty()
    } else {
        cpp_namespaces_from_ir_warnings(ns.drop_last(), names.take(ns.len() - 1)) + cpp_namespace_from_ir_warnings(
            ns.last(),
            names[ns.len() - 1],
        )
    }
}

/// Whether `x` is the C++ define an IR define converts to.
pub open spec fn cpp_define_from_ir_is(x: CppDefinition, d: LanguageDefinition) -> bool {
    x.name == d.name && x.value == d.value && x.docs == d.docs
}

/// Whether `x` is the C++ constant an IR constant converts to.
pub open spec fn cpp_constant_from_ir_is(x: CppConstant, c: LanguageConstant) -> bool {
    &&& x.name == c.name
    &&& x.visibility == cpp_visibility_from_ir(c.visibility)
    &&& x.data_type == c.data_type
    &&& x.value == c.value
    &&& x.docs == c.docs
}

/// Whether `r` is the C++ namespace an IR namespace converts to, given its names: renamed,
/// each list present exactly when it is, with its items converted (enums as `enum class`),
/// and its nested namespaces converted the same way.
pub open spec fn cpp_namespace_from_ir_is(r: CppNamespace, input: LanguageNamespace, names: CppNamespaceNames) -> bool
    decreases input,
{
    &&& r.name == names.name.value
    &&& match input.defines {
        Some(xs) => r.defines matches Some(ys) && ys@.len() == xs@.len() && forall|i: int|
            0 <= i < xs@.len() ==> cpp_define_from_ir_is(#[trigger] ys@[i], xs@[i]),
        None => r.defines is None,
    }
    &&& match input.constants {
        Some(xs) => r.constants matches Some(ys) && ys@.len() == xs@.len() && forall|i: int|
            0 <= i < xs@.len() ==> cpp_constant_from_ir_is(#[trigger] ys@[i], xs@[i]),
        None => r.constants is None,
    }
    &&& match input.enums {
        Some(xs) => r.enums matches Some(ys) && ys@.len() == xs@.len() && forall|i: int|
            0 <= i < xs@.len() ==> cpp_enum_from_ir_is(#[trigger] ys@[i], xs@[i], true, names.enums@[i]),
        None => r.enums is None,
    }
    &&& match input.structs {
        Some(xs) => r.structs matches Some(ys) && ys@.len() == xs@.len() && forall|i: int|
            0 <= i < xs@.len() ==> cpp_struct_from_ir_is(#[trigger] ys@[i], xs@[i], names.structs@[i]),
        None => r.structs is None,
    }
    &&& match input.functions {
        Some(xs) => r.functions matches Some(ys) && ys@.len() == xs@.len() && forall|i: int|
            0 <= i < xs@.len() ==> cpp_fn_from_ir_is(#[trigger] ys@[i], xs@[i], names.functions@[i]),
        None => r.functions is None,
    }
    &&& match input.namespaces {
        Some(xs) => r.namespaces matches Some(ys) && ys@.len() == xs@.len() && forall|i: int|
            0 <= i < xs@.len() ==> cpp_namespace_from_ir_is(#[trigger] ys@[i], xs@[i], names.namespaces@[i]),
        None => r.namespaces is None,
    }
}


/// Converts the defines of a namespace to C++, in order.
fn defines_from_ir(items: Option<Vec<LanguageDefinition>>) -> (r: Option<Vec<CppDefinition>>)
    ensures
        match items {
            Some(xs) => r matches Some(ys) && ys@.len() == xs@.len() && forall|i: int|
                0 <= i < xs@.len() ==> cpp_define_from_ir_is(#[trigger] ys@[i], xs@[i]),
            None => r is None,
        },
{
    match items {
        None => None,
        Some(v) => {
            let ghost all = v@;
            let mut rest = v;
            let mut out: Vec<CppDefinition> = Vec::new();
            while rest.len() > 0
                invariant
                    out@.len() + rest@.len() == all.len(),
                    rest@ == all.skip(out@.len() as int),
                    forall|i: int| 0 <= i < out@.len() ==> cpp_define_from_ir_is(#[trigger] out@[i], all[i]),
                decreases rest@.len(),
            {
                let x = rest.remove(0);
                out.push(CppDefinition::from_ir(x, None).value);
                assert(rest@ =~= all.skip(out@.len() as int));
            }
            Some(out)
        },
    }
}

/// Converts the constants of a namespace to C++, in order, appending what each loses to `log`.
fn constants_from_ir(items: Option<Vec<LanguageConstant>>, log: &mut ConversionLog) -> (r: Option<Vec<CppConstant>>)
    ensures
        match items {
            Some(xs) => r matches Some(ys) && ys@.len() == xs@.len() && forall|i: int|
                0 <= i < xs@.len() ==> cpp_constant_from_ir_is(#[trigger] ys@[i], xs@[i]),
            None => r is None,
        },
        final(log)@ == old(log)@ + flat(
            Seq::new(opt_seq(items).len(), |i: int| cpp_visibility_from_ir_warnings(opt_seq(items)[i].visibility)),
        ),
{
    let ghost all = opt_seq(items);
    let ghost parts = Seq::new(all.len(), |i: int| cpp_visibility_from_ir_warnings(all[i].visibility));
    let ghost start = log@;
    match items {
        None => {
            assert(log@ =~= start + flat(parts));
            None
        },
        Some(v) => {
            let mut rest = v;
            let mut out: Vec<CppConstant> = Vec::new();
            while rest.len() > 0
                invariant
                    out@.len() + rest@.len() == all.len(),
                    rest@ == all.skip(out@.len() as int),
                    parts == Seq::new(all.len(), |i: int| cpp_visibility_from_ir_warnings(all[i].visibility)),
                    forall|i: int| 0 <= i < out@.len() ==> cpp_constant_from_ir_is(#[trigger] out@[i], all[i]),
                    log@ == start + flat(parts.take(out@.len() as int)),
                decreases rest@.len(),
            {
                let x = rest.remove(0);
                proof {
                    lemma_flat_step(parts, out@.len() as int);
                }
                let c = CppConstant::from_ir(x, None);
                log.add_warnings(c.log.warnings);
                out.push(c.value);
                assert(rest@ =~= all.skip(out@.len() as int));
            }
            proof {
                lemma_flat_all(parts);
            }
            Some(out)
        },
    }
}

/// Converts the enums of a namespace to C++ `enum class`es, in order, given their underlying
/// types, appending what each loses to `log`.
fn enums_from_ir(items: Option<Vec<LanguageEnum>>, names: Vec<Option<ConversionResult<String>>>, log: &mut ConversionLog) -> (r:
    Option<Vec<CppEnum>>)
    requires
        names@.len() == opt_seq(items).len(),
        forall|i: int| 0 <= i < names@.len() ==> cpp_enum_underlying_fits(#[trigger] opt_seq(items)[i], names@[i]),
    ensures
        match items {
            Some(xs) => r matches Some(ys) && ys@.len() == xs@.len() && forall|i: int|
                0 <= i < xs@.len() ==> cpp_enum_from_ir_is(#[trigger] ys@[i], xs@[i], true, names@[i]),
            None => r is None,
        },
        final(log)@ == old(log)@ + flat(
            Seq::new(opt_seq(items).len(), |i: int| cpp_enum_from_ir_warnings(opt_seq(items)[i], names@[i])),
        ),
{
    let ghost all = opt_seq(items);
    let ghost ns = names@;
    let ghost parts = Seq::new(all.len(), |i: int| cpp_enum_from_ir_warnings(all[i], ns[i]));
    let ghost start = log@;
    match items {
        None => {
            assert(log@ =~= start + flat(parts));
            None
        },
        Some(v) => {
            let mut rest = v;
            let mut nrest = names;
            let mut out: Vec<CppEnum> = Vec::new();
            while rest.len() > 0
                invariant
                    all.len() == ns.len(),
                    forall|i: int| 0 <= i < ns.len() ==> cpp_enum_underlying_fits(#[trigger] all[i], ns[i]),
                    out@.len() + rest@.len() == all.len(),
                    rest@ == all.skip(out@.len() as int),
                    nrest@ == ns.skip(out@.len() as int),
                    parts == Seq::new(all.len(), |i: int| cpp_enum_from_ir_warnings(all[i], ns[i])),
                    forall|i: int| 0 <= i < out@.len() ==> cpp_enum_from_ir_is(#[trigger] out@[i], all[i], true, ns[i]),
                    log@ == start + flat(parts.take(out@.len() as int)),
                decreases rest@.len(),
            {
                let x = rest.remove(0);
                let n = nrest.remove(0);
                proof {
                    lemma_flat_step(parts, out@.len() as int);
                    assert(cpp_enum_underlying_fits(all[out@.len() as int], ns[out@.len() as int]));
                }
                let c = CppEnum::from_ir(x, true, n);
                log.add_warnings(c.log.warnings);
                out.push(c.value);
                assert(rest@ =~= all.skip(out@.len() as int));
                assert(nrest@ =~= ns.skip(out@.len() as int));
            }
            proof {
                lemma_flat_all(parts);
            }
            Some(out)
        },
    }
}

/// Converts the structs of a namespace to C++, in order, given their names, appending what
/// each loses to `log`.
fn structs_from_ir(items: Option<Vec<LanguageStruct>>, names: Vec<CppStructNames>, log: &mut ConversionLog) -> (r: Option<
    Vec<CppStruct>,
>)
    requires
        names@.len() == opt_seq(items).len(),
        forall|i: int| 0 <= i < names@.len() ==> cpp_struct_names_fit(#[trigger] opt_seq(items)[i], names@[i]),
    ensures
        match items {
            Some(xs) => r matches Some(ys) && ys@.len() == xs@.len() && forall|i: int|
                0 <= i < xs@.len() ==> cpp_struct_from_ir_is(#[trigger] ys@[i], xs@[i], names@[i]),
            None => r is None,
        },
        final(log)@ == old(log)@ + flat(
            Seq::new(opt_seq(items).len(), |i: int| cpp_struct_from_ir_warnings(opt_seq(items)[i], names@[i])),
        ),
{
    let ghost all = opt_seq(items);
    let ghost ns = names@;
    let ghost parts = Seq::new(all.len(), |i: int| cpp_struct_from_ir_warnings(all[i], ns[i]));
    let ghost start = log@;
    match items {
        None => {
            assert(log@ =~= start + flat(parts));
            None
        },
        Some(v) => {
            let mut rest = v;
            let mut nrest = names;
            let mut out: Vec<CppStruct> = Vec::new();
            while rest.len() > 0
                invariant
                    all.len() == ns.len(),
                    forall|i: int| 0 <= i < ns.len() ==> cpp_struct_names_fit(#[trigger] all[i], ns[i]),
                    out@.len() + rest@.len() == all.len(),
                    rest@ == all.skip(out@.len() as int),
                    nrest@ == ns.skip(out@.len() as int),
                    parts == Seq::new(all.len(), |i: int| cpp_struct_from_ir_warnings(all[i], ns[i])),
                    forall|i: int| 0 <= i < out@.len() ==> cpp_struct_from_ir_is(#[trigger] out@[i], all[i], ns[i]),
                    log@ == start + flat(parts.take(out@.len() as int)),
                decreases rest@.len(),
            {
                let x = rest.remove(0);
                let n = nrest.remove(0);
                proof {
                    lemma_flat_step(parts, out@.len() as int);
                    assert(cpp_struct_names_fit(all[out@.len() as int], ns[out@.len() as int]));
                }
                let c = CppStruct::from_ir(x, n);
                log.add_warnings(c.log.warnings);
                out.push(c.value);
                assert(rest@ =~= all.skip(out@.len() as int));
                assert(nrest@ =~= ns.skip(out@.len() as int));
            }
            proof {
                lemma_flat_all(parts);
            }
            Some(out)
        },
    }
}

/// Converts the functions of a namespace to C++, in order, given their names, appending what
/// each loses to `log`.
fn functions_from_ir(items: Option<Vec<LanguageFunction>>, names: Vec<CppFunctionNames>, log: &mut ConversionLog) -> (r:
    Option<Vec<CppFunction>>)
    requires
        names@.len() == opt_seq(items).len(),
        forall|i: int| 0 <= i < names@.len() ==> cpp_fn_names_fit(#[trigger] opt_seq(items)[i], names@[i]),
    ensures
        match items {
            Some(xs) => r matches Some(ys) && ys@.len() == xs@.len() && forall|i: int|
                0 <= i < xs@.len() ==> cpp_fn_from_ir_is(#[trigger] ys@[i], xs@[i], names@[i]),
            None => r is None,
        },
        final(log)@ == old(log)@ + flat(
            Seq::new(opt_seq(items).len(), |i: int| cpp_fn_from_ir_warnings(opt_seq(items)[i], names@[i])),
        ),
{
    let ghost all = opt_seq(items);
    let ghost ns = names@;
    let ghost parts = Seq::new(all.len(), |i: int| cpp_fn_from_ir_warnings(all[i], ns[i]));
    let ghost start = log@;
    match items {
        None => {
            assert(log@ =~= start + flat(parts));
            None
        },
        Some(v) => {
            let mut rest = v;
            let mut nrest = names;
            let mut out: Vec<CppFunction> = Vec::new();
            while rest.len() > 0
                invariant
                    all.len() == ns.len(),
                    forall|i: int| 0 <= i < ns.len() ==> cpp_fn_names_fit(#[trigger] all[i], ns[i]),
                    out@.len() + rest@.len() == all.len(),
                    rest@ == all.skip(out@.len() as int),
                    nrest@ == ns.skip(out@.len() as int),
                    parts == Seq::new(all.len(), |i: int| cpp_fn_from_ir_warnings(all[i], ns[i])),
                    forall|i: int| 0 <= i < out@.len() ==> cpp_fn_from_ir_is(#[trigger] out@[i], all[i], ns[i]),
                    log@ == start + flat(parts.take(out@.len() as int)),
                decreases rest@.len(),
            {
                let x = rest.remove(0);
                let n = nrest.remove(0);
                proof {
                    lemma_flat_step(parts, out@.len() as int);
                    assert(cpp_fn_names_fit(all[out@.len() as int], ns[out@.len() as int]));
                }
                let c = CppFunction::from_ir(x, n);
                log.add_warnings(c.log.warnings);
                out.push(c.value);
                assert(rest@ =~= all.skip(out@.len() as int));
                assert(nrest@ =~= ns.skip(out@.len() as int));
            }
            proof {
                lemma_flat_all(parts);
            }
            Some(out)
        },
    }
}

impl CppNamespace {
    /// Converts an IR namespace to C++, given the names and types of its members as the
    /// conversion's configuration resolved them; its enums become `enum class`es. C++
    /// namespaces carry no visibility or docs: both are reported when present.
    pub fn from_ir(input: LanguageNamespace, names: CppNamespaceNames) -> (r: ConversionResult<CppNamespace>)
        requires
            cpp_namespace_names_fit(input, names),
        ensures
            cpp_namespace_from_ir_is(r.value, input, names),
            r.log@ == cpp_namespace_from_ir_warnings(input, names),
        decreases input,
    {
        let ghost inp = input;
        let ghost nm = names;
        let mut log = ConversionLog::new();
        let has_visibility = match input.visibility {
            Visibility::Default => false,
            _ => true,
        };
        if has_visibility {
            log.add_warning(feature_warning(
                "visibility on namespace `",
                input.name.as_str(),
                "`",
                "C++ namespaces have no visibility specifier; dropped",
            ));
        }
        if input.docs.is_some() {
            log.add_warning(feature_warning(
                "documentation on namespace `",
                input.name.as_str(),
                "`",
                "C++ namespaces carry no documentation; dropped",
            ));
        }
        let CppNamespaceNames { name, enums: enum_names, structs: struct_names, functions: function_names, namespaces: namespace_names } = names;
        log.add_warnings(name.log.warnings);
        let ghost head = log@;
        let LanguageNamespace { name: _, visibility: _, defines, constants, enums, structs, functions, namespaces, docs: _, raw_attributes: _ } = input;
        let defines = defines_from_ir(defines);
        let constants = constants_from_ir(constants, &mut log);
        let enums = enums_from_ir(enums, enum_names, &mut log);
        let structs = structs_from_ir(structs, struct_names, &mut log);
        let functions = functions_from_ir(functions, function_names, &mut log);
        assert(log@ =~= head + cpp_members_from_ir_warnings(inp, nm));
        let ghost mid = log@;
        let namespaces = match namespaces {
            None => None,
            Some(v) => {
                let ghost all = v@;
                let ghost nall = namespace_names@;
                let mut rest = v;
                let mut nrest = namespace_names;
                let mut out: Vec<CppNamespace> = Vec::new();
                while rest.len() > 0
                    invariant
                        inp.namespaces == Some(v),
                        inp == input,
                        all == v@,
                        nall == nm.namespaces@,
                        all.len() == nall.len(),
                        forall|i: int| 0 <= i < all.len() ==> cpp_namespace_names_fit(#[trigger] all[i], nall[i]),
                        out@.len() + rest@.len() == all.len(),
                        rest@ == all.skip(out@.len() as int),
                        nrest@ == nall.skip(out@.len() as int),
                        forall|i: int| 0 <= i < out@.len() ==> cpp_namespace_from_ir_is(#[trigger] out@[i], all[i], nall[i]),
                        log@ == mid + cpp_namespaces_from_ir_warnings(
                            all.take(out@.len() as int),
                            nall.take(out@.len() as int),
                        ),
                    decreases rest@.len(),
                {
                    let ghost k = out@.len();
                    let x = rest.remove(0);
                    let n = nrest.remove(0);
                    assert(x == all[k as int]);
                    assert(n == nall[k as int]);
                    assert(cpp_namespace_names_fit(all[k as int], nall[k as int]));
                    assert(decreases_to!(input => x)) by {
                        assert(decreases_to!(inp => inp.namespaces));
                        assert(decreases_to!(inp.namespaces => inp.namespaces->0));
                        assert(decreases_to!(inp.namespaces->0 => inp.namespaces->0@));
                        assert(decreases_to!(inp.namespaces->0@ => inp.namespaces->0@[k as int]));
                    }
                    let c = CppNamespace::from_ir(x, n);
                    log.add_warnings(c.log.warnings);
                    out.push(c.value);
                    assert(all.take(k as int + 1).drop_last() =~= all.take(k as int));
                    assert(nall.take(k as int + 1).take(k as int) =~= nall.take(k as int));
                    assert(rest@ =~= all.skip(out@.len() as int));
                    assert(nrest@ =~= nall.skip(out@.len() as int));
                }
                assert(all.take(all.len() as int) =~= all);
                assert(nall.take(nall.len() as int) =~= nall);
                Some(out)
            },
        };
        assert(log@ =~= cpp_namespace_from_ir_warnings(inp, nm));
        ConversionResult::with_log(
            CppNamespace { name: name.value, defines, constants, enums, structs, functions, namespaces },
            log,
        )
    }
}

} // verus!
