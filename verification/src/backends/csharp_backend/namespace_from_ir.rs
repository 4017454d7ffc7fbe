use vstd::prelude::*;

use super::constant_types::CSharpConstant;
use super::define_types::CSharpDefinition;
use super::enum_types::{csharp_enum_from_ir_is, csharp_enum_from_ir_warnings, csharp_enum_names_fit, CSharpEnum, CSharpEnumNames};
use super::namespace_types::CSharpNamespace;
use super::struct_types::{csharp_type_from_ir_is, csharp_type_from_ir_warnings, csharp_type_names_fit, CSharpType, CSharpTypeNames};
use super::visibility::{csharp_visibility_from_ir, csharp_visibility_from_ir_warnings};
use crate::backends::BackendItem;
use crate::conversion::{
    feature_warning, flat, lemma_flat_all, lemma_flat_step, opt_seq, unsupported, ConversionLog, ConversionResult, WarningText,
};
use crate::ir::{LanguageConstant, LanguageDefinition, LanguageEnum, LanguageNamespace, LanguageStruct, Visibility};

verus! {

/// What the configuration of a conversion made of an IR namespace's names and types: the
/// namespace's C# name, the names of each enum and each type, and those of each nested
/// namespace.
pub struct CSharpNamespaceNames {
    pub name: ConversionResult<String>,
    pub enums: Vec<CSharpEnumNames>,
    pub types: Vec<CSharpTypeNames>,
    pub namespaces: Vec<CSharpNamespaceNames>,
}

/// Whether the names fit the namespace: names for each enum, struct and nested namespace, each
/// fitting its item.
pub open spec fn csharp_namespace_names_fit(input: LanguageNamespace, names: CSharpNamespaceNames) -> bool
    decreases input,
{
    &&& names.enums@.len() == opt_seq(input.enums).len()
    &&& forall|i: int|
        0 <= i < names.enums@.len() ==> csharp_enum_names_fit(#[trigger] opt_seq(input.enums)[i], names.enums@[i])
    &&& names.types@.len() == opt_seq(input.structs).len()
    &&& forall|i: int|
        0 <= i < names.types@.len() ==> csharp_type_names_fit(#[trigger] opt_seq(input.structs)[i], names.types@[i])
    &&& match input.namespaces {
        Some(v) => names.namespaces@.len() == v@.len() && forall|i: int|
            0 <= i < v@.len() ==> csharp_namespace_names_fit(#[trigger] v@[i], names.namespaces@[i]),
        None => names.namespaces@.len() == 0,
    }
}

/// What converting the IR members of a namespace (all but the nested namespaces) to C# loses,
/// in order: the visibility of each constant, then what each enum and each type loses.
pub open spec fn csharp_members_from_ir_warnings(input: LanguageNamespace, names: CSharpNamespaceNames) -> Seq<WarningText> {
    let cs = opt_seq(input.constants);
    let es = opt_seq(input.enums);
    let ss = opt_seq(input.structs);
    flat(Seq::new(cs.len(), |i: int| csharp_visibility_from_ir_warnings(cs[i].visibility))) + flat(
        Seq::new(es.len(), |i: int| csharp_enum_from_ir_warnings(es[i], names.enums@[i])),
    ) + flat(Seq::new(ss.len(), |i: int| csharp_type_from_ir_warnings(ss[i], names.types@[i])))
}

/// What converting an IR namespace to C# loses: its visibility, which C# namespaces have no
/// place for, its free functions, which C# has none of, what renaming reports, what its
/// members lose, then what its nested namespaces lose.
pub open spec fn csharp_namespace_from_ir_warnings(input: LanguageNamespace, names: CSharpNamespaceNames) -> Seq<WarningText>
    decreases input, 1int,
{
    (if input.visibility is Default {
        Seq::empty()
    } else {
        seq![unsupported(
            "visibility on namespace `"@ + input.name@ + "`"@,
            "C# namespaces have no visibility specifier; dropped"@,
        )]
    }) + (if input.functions is Some {
        seq![unsupported(
            "free functions in namespace `"@ + input.name@ + "`"@,
            "C# has no namespace-level free functions; dropped"@,
        )]
    } else {
        Seq::empty()
    }) + names.name.log@ + csharp_members_from_ir_warnings(input, names) + match input.namespaces {
        Some(v) => csharp_namespaces_from_ir_warnings(v@, names.namespaces@),
        None => Seq::empty(),
    }
}

/// What converting each of the namespaces loses, one after the other.
pub open spec fn csharp_namespaces_from_ir_warnings(ns: Seq<LanguageNamespace>, names: Seq<CSharpNamespaceNames>) -> Seq<
    WarningText,
>
    decreases ns, 0int,
{
    if ns.len() == 0 {
        Seq::empty()
    } else {
        csharp_namespaces_from_ir_warnings(ns.drop_last(), names.take(ns.len() - 1)) + csharp_namespace_from_ir_warnings(
            ns.last(),
            names[ns.len() - 1],
        )
    }
}

/// Whether `r` is the C# namespace an IR namespace converts to, given its names: renamed,
/// each list present exactly when it is, with its items converted (structs as types), its
/// nested namespaces converted the same way, block-scoped, and the same docs.
pub open spec fn csharp_namespace_from_ir_is(r: CSharpNamespace, input: LanguageNamespace, names: CSharpNamespaceNames) -> bool
    decreases input,
{
    &&& r.name == names.name.value
    &&& match input.defines {
        Some(xs) => r.defines matches Some(ys) && ys@.len() == xs@.len() && forall|i: int|
            0 <= i < xs@.len() ==> define_from_ir_is(#[trigger] ys@[i], xs@[i]),
        None => r.defines is None,
    }
    &&& match input.constants {
        Some(xs) => r.constants matches Some(ys) && ys@.len() == xs@.len() && forall|i: int|
            0 <= i < xs@.len() ==> constant_from_ir_is(#[trigger] ys@[i], xs@[i]),
        None => r.constants is None,
    }
    &&& match input.enums {
        Some(xs) => r.enums matches Some(ys) && ys@.len() == xs@.len() && forall|i: int|
            0 <= i < xs@.len() ==> csharp_enum_from_ir_is(#[trigger] ys@[i], xs@[i], names.enums@[i]),
        None => r.enums is None,
    }
    &&& match input.structs {
        Some(xs) => r.types matches Some(ys) && ys@.len() == xs@.len() && forall|i: int|
            0 <= i < xs@.len() ==> csharp_type_from_ir_is(#[trigger] ys@[i], xs@[i], names.types@[i]),
        None => r.types is None,
    }
    &&& match input.namespaces {
        Some(xs) => r.namespaces matches Some(ys) && ys@.len() == xs@.len() && forall|i: int|
            0 <= i < xs@.len() ==> csharp_namespace_from_ir_is(#[trigger] ys@[i], xs@[i], names.namespaces@[i]),
        None => r.namespaces is None,
    }
    &&& !r.file_scoped
    &&& r.docs == input.docs
}

/// Converts the defines of a namespace, in order.
fn defines_from_ir(items: Option<Vec<LanguageDefinition>>) -> (r: Option<Vec<CSharpDefinition>>)
    ensures
        match items {
            Some(xs) => r matches Some(ys) && ys@.len() == xs@.len() && forall|i: int|
                0 <= i < xs@.len() ==> define_from_ir_is(#[trigger] ys@[i], xs@[i]),
            None => r is None,
        },
{
    match items {
        None => None,
        Some(v) => {
            let ghost all = v@;
            let mut rest = v;
            let mut out: Vec<CSharpDefinition> = Vec::new();
            while rest.len() > 0
                invariant
                    out@.len() + rest@.len() == all.len(),
                    rest@ == all.skip(out@.len() as int),
                    forall|i: int| 0 <= i < out@.len() ==> define_from_ir_is(#[trigger] out@[i], all[i]),
                decreases rest@.len(),
            {
                let x = rest.remove(0);
                out.push(CSharpDefinition::from_ir(x, None).value);
                assert(rest@ =~= all.skip(out@.len() as int));
            }
            Some(out)
        },
    }
}

/// Whether `x` is what an IR define converts to.
pub open spec fn define_from_ir_is(x: CSharpDefinition, d: LanguageDefinition) -> bool {
    x.name == d.name && x.value == d.value && x.docs == d.docs
}

/// Whether `x` is what an IR constant converts to.
pub open spec fn constant_from_ir_is(x: CSharpConstant, c: LanguageConstant) -> bool {
    &&& x.name == c.name
    &&& x.visibility == csharp_visibility_from_ir(c.visibility)
    &&& x.data_type == c.data_type
    &&& x.value == c.value
    &&& x.docs == c.docs
}

/// Converts the constants of a namespace, in order, appending what each loses to `log`.
fn constants_from_ir(items: Option<Vec<LanguageConstant>>, log: &mut ConversionLog) -> (r: Option<Vec<CSharpConstant>>)
    ensures
        match items {
            Some(xs) => r matches Some(ys) && ys@.len() == xs@.len() && forall|i: int|
                0 <= i < xs@.len() ==> constant_from_ir_is(#[trigger] ys@[i], xs@[i]),
            None => r is None,
        },
        final(log)@ == old(log)@ + flat(
            Seq::new(opt_seq(items).len(), |i: int| csharp_visibility_from_ir_warnings(opt_seq(items)[i].visibility)),
        ),
{
    let ghost all = opt_seq(items);
    let ghost parts = Seq::new(all.len(), |i: int| csharp_visibility_from_ir_warnings(all[i].visibility));
    let ghost start = log@;
    match items {
        None => {
            assert(log@ =~= start + flat(parts));
            None
        },
        Some(v) => {
            let mut rest = v;
            let mut out: Vec<CSharpConstant> = Vec::new();
            while rest.len() > 0
                invariant
                    out@.len() + rest@.len() == all.len(),
                    rest@ == all.skip(out@.len() as int),
                    parts == Seq::new(all.len(), |i: int| csharp_visibility_from_ir_warnings(all[i].visibility)),
                    forall|i: int| 0 <= i < out@.len() ==> constant_from_ir_is(#[trigger] out@[i], all[i]),
                    log@ == start + flat(parts.take(out@.len() as int)),
                decreases rest@.len(),
            {
                let x = rest.remove(0);
                proof {
                    lemma_flat_step(parts, out@.len() as int);
                }
                let c = CSharpConstant::from_ir(x, None);
                log.add_warnings(c.log.warnings);
                out.push(c.value);
                assert(rest@ =~= all.skip(out@.len() as int));
            }
            proof {
                lemma_flat_all(parts);
            }
            Some(out)
        },
    }
}

/// Converts the enums of a namespace to C#, in order, given their names, appending what each loses to `log`.
fn enums_from_ir(items: Option<Vec<LanguageEnum>>, names: Vec<CSharpEnumNames>, log: &mut ConversionLog) -> (r: Option<Vec<CSharpEnum>>)
    requires
        names@.len() == opt_seq(items).len(),
        forall|i: int| 0 <= i < names@.len() ==> csharp_enum_names_fit(#[trigger] opt_seq(items)[i], names@[i]),
    ensures
        match items {
            Some(xs) => r matches Some(ys) && ys@.len() == xs@.len() && forall|i: int|
                0 <= i < xs@.len() ==> csharp_enum_from_ir_is(#[trigger] ys@[i], xs@[i], names@[i]),
            None => r is None,
        },
        final(log)@ == old(log)@ + flat(
            Seq::new(opt_seq(items).len(), |i: int| csharp_enum_from_ir_warnings(opt_seq(items)[i], names@[i])),
        ),
{
    let ghost all = opt_seq(items);
    let ghost ns = names@;
    let ghost parts = Seq::new(all.len(), |i: int| csharp_enum_from_ir_warnings(all[i], ns[i]));
    let ghost start = log@;
    match items {
        None => {
            assert(log@ =~= start + flat(parts));
            None
        },
        Some(v) => {
            let mut rest = v;
            let mut nrest = names;
            let mut out: Vec<CSharpEnum> = Vec::new();
            while rest.len() > 0
                invariant
                    all.len() == ns.len(),
                    forall|i: int| 0 <= i < ns.len() ==> csharp_enum_names_fit(#[trigger] all[i], ns[i]),
                    out@.len() + rest@.len() == all.len(),
                    rest@ == all.skip(out@.len() as int),
                    nrest@ == ns.skip(out@.len() as int),
                    parts == Seq::new(all.len(), |i: int| csharp_enum_from_ir_warnings(all[i], ns[i])),
                    forall|i: int| 0 <= i < out@.len() ==> csharp_enum_from_ir_is(#[trigger] out@[i], all[i], ns[i]),
                    log@ == start + flat(parts.take(out@.len() as int)),
                decreases rest@.len(),
            {
                let x = rest.remove(0);
                let n = nrest.remove(0);
                proof {
                    lemma_flat_step(parts, out@.len() as int);
                    assert(csharp_enum_names_fit(all[out@.len() as int], ns[out@.len() as int]));
                }
                let c = CSharpEnum::from_ir(x, n);
                log.add_warnings(c.log.warnings);
                out.push(c.value);
                assert(rest@ =~= all.skip(out@.len() as int));
                assert(nrest@ =~= ns.skip(out@.len() as int));
            }
            proof {
                lemma_flat_all(parts);
            }
            Some(out)
        },
    }
}

/// Converts the structs of a namespace to C# types, in order, given their names, appending what each loses to `log`.
fn types_from_ir(items: Option<Vec<LanguageStruct>>, names: Vec<CSharpTypeNames>, log: &mut ConversionLog) -> (r: Option<Vec<CSharpType>>)
    requires
        names@.len() == opt_seq(items).len(),
        forall|i: int| 0 <= i < names@.len() ==> csharp_type_names_fit(#[trigger] opt_seq(items)[i], names@[i]),
    ensures
        match items {
            Some(xs) => r matches Some(ys) && ys@.len() == xs@.len() && forall|i: int|
                0 <= i < xs@.len() ==> csharp_type_from_ir_is(#[trigger] ys@[i], xs@[i], names@[i]),
            None => r is None,
        },
        final(log)@ == old(log)@ + flat(
            Seq::new(opt_seq(items).len(), |i: int| csharp_type_from_ir_warnings(opt_seq(items)[i], names@[i])),
        ),
{
    let ghost all = opt_seq(items);
    let ghost ns = names@;
    let ghost parts = Seq::new(all.len(), |i: int| csharp_type_from_ir_warnings(all[i], ns[i]));
    let ghost start = log@;
    match items {
        None => {
            assert(log@ =~= start + flat(parts));
            None
        },
        Some(v) => {
            let mut rest = v;
            let mut nrest = names;
            let mut out: Vec<CSharpType> = Vec::new();
            while rest.len() > 0
                invariant
                    all.len() == ns.len(),
                    forall|i: int| 0 <= i < ns.len() ==> csharp_type_names_fit(#[trigger] all[i], ns[i]),
                    out@.len() + rest@.len() == all.len(),
                    rest@ == all.skip(out@.len() as int),
                    nrest@ == ns.skip(out@.len() as int),
                    parts == Seq::new(all.len(), |i: int| csharp_type_from_ir_warnings(all[i], ns[i])),
                    forall|i: int| 0 <= i < out@.len() ==> csharp_type_from_ir_is(#[trigger] out@[i], all[i], ns[i]),
                    log@ == start + flat(parts.take(out@.len() as int)),
                decreases rest@.len(),
            {
                let x = rest.remove(0);
                let n = nrest.remove(0);
                proof {
                    lemma_flat_step(parts, out@.len() as int);
                    assert(csharp_type_names_fit(all[out@.len() as int], ns[out@.len() as int]));
                }
                let c = CSharpType::from_ir(x, n);
                log.add_warnings(c.log.warnings);
                out.push(c.value);
                assert(rest@ =~= all.skip(out@.len() as int));
                assert(nrest@ =~= ns.skip(out@.len() as int));
            }
            proof {
                lemma_flat_all(parts);
            }
            Some(out)
        },
    }
}

impl CSharpNamespace {
    /// Converts an IR namespace to C#, given the names and types of its members as the
    /// conversion's configuration resolved them. C# namespaces carry no visibility and hold no
    /// free functions: both are reported when present, and the functions are dropped.
    pub fn from_ir(input: LanguageNamespace, names: CSharpNamespaceNames) -> (r: ConversionResult<CSharpNamespace>)
        requires
            csharp_namespace_names_fit(input, names),
        ensures
            csharp_namespace_from_ir_is(r.value, input, names),
            r.log@ == csharp_namespace_from_ir_warnings(input, names),
        decreases input,
    {
        let ghost inp = input;
        let ghost nm = names;
        let mut log = ConversionLog::new();
        let has_visibility = match input.visibility {
            Visibility::Default => false,
            _ => true,
        };
        if has_visibility {
            log.add_warning(feature_warning(
                "visibility on namespace `",
                input.name.as_str(),
                "`",
                "C# namespaces have no visibility specifier; dropped",
            ));
        }
        if input.functions.is_some() {
            log.add_warning(feature_warning(
                "free functions in namespace `",
                input.name.as_str(),
                "`",
                "C# has no namespace-level free functions; dropped",
            ));
        }
        let CSharpNamespaceNames { name, enums: enum_names, types: type_names, namespaces: namespace_names } = names;
        log.add_warnings(name.log.warnings);
        let ghost head = log@;
        let LanguageNamespace { name: _, visibility: _, defines, constants, enums, structs, functions: _, namespaces, docs, raw_attributes: _ } = input;
        let defines = defines_from_ir(defines);
        let constants = constants_from_ir(constants, &mut log);
        let enums = enums_from_ir(enums, enum_names, &mut log);
        let types = types_from_ir(structs, type_names, &mut log);
        assert(log@ =~= head + csharp_members_from_ir_warnings(inp, nm));
        let ghost mid = log@;
        let namespaces = match namespaces {
            None => None,
            Some(v) => {
                let ghost all = v@;
                let ghost nall = namespace_names@;
                let mut rest = v;
                let mut nrest = namespace_names;
                let mut out: Vec<CSharpNamespace> = Vec::new();
                while rest.len() > 0
                    invariant
                        inp.namespaces == Some(v),
                        inp == input,
                        all == v@,
                        nall == nm.namespaces@,
                        all.len() == nall.len(),
                        forall|i: int| 0 <= i < all.len() ==> csharp_namespace_names_fit(#[trigger] all[i], nall[i]),
                        out@.len() + rest@.len() == all.len(),
                        rest@ == all.skip(out@.len() as int),
                        nrest@ == nall.skip(out@.len() as int),
                        forall|i: int| 0 <= i < out@.len() ==> csharp_namespace_from_ir_is(#[trigger] out@[i], all[i], nall[i]),
                        log@ == mid + csharp_namespaces_from_ir_warnings(all.take(out@.len() as int), nall.take(out@.len() as int)),
                    decreases rest@.len(),
                {
                    let ghost k = out@.len();
                    let x = rest.remove(0);
                    let n = nrest.remove(0);
                    assert(x == all[k as int]);
                    assert(n == nall[k as int]);
                    assert(csharp_namespace_names_fit(all[k as int], nall[k as int]));
                    assert(decreases_to!(input => x)) by {
                        assert(decreases_to!(inp => inp.namespaces));
                        assert(decreases_to!(inp.namespaces => inp.namespaces->0));
                        assert(decreases_to!(inp.namespaces->0 => inp.namespaces->0@));
                        assert(decreases_to!(inp.namespaces->0@ => inp.namespaces->0@[k as int]));
                    }
                    let c = CSharpNamespace::from_ir(x, n);
                    log.add_warnings(c.log.warnings);
                    out.push(c.value);
                    assert(all.take(k as int + 1).drop_last() =~= all.take(k as int));
                    assert(nall.take(k as int + 1).take(k as int) =~= nall.take(k as int));
                    assert(rest@ =~= all.skip(out@.len() as int));
                    assert(nrest@ =~= nall.skip(out@.len() as int));
                }
                assert(all.take(all.len() as int) =~= all);
                assert(nall.take(nall.len() as int) =~= nall);
                Some(out)
            },
        };
        assert(log@ =~= csharp_namespace_from_ir_warnings(inp, nm));
        ConversionResult::with_log(
            CSharpNamespace { name: name.value, defines, constants, enums, types, namespaces, file_scoped: false, docs },
            log,
        )
    }
}

} // verus!
