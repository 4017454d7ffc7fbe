use langprint::backends::cpp_backend::{
    CppBase, CppConstant, CppEnum, CppEnumVariant, CppField, CppFunction, CppGenericArgument, CppStruct, CppStructKind,
    CppVisibility,
};
use langprint::backends::cpp_backend::CppNamespace;
use langprint::backends::csharp_backend::CSharpNamespace;
use langprint::backends::rust_backend::RustModule;
use langprint::backends::js_backend::{JsClass, JsField, JsFunction, JsParameter};
use langprint::backends::lua_backend::{LuaField, LuaFunction, LuaModule};
use langprint::backends::python_backend::ctypes_type_map;
use langprint::backends::python_backend::{PythonClass, PythonClassField, PythonFunction, PythonParameter};
use langprint::backends::csharp_backend::enum_types::CSharpEnumNames;
use langprint::backends::csharp_backend::field_types::CSharpFieldNames;
use langprint::backends::csharp_backend::function_types::CSharpMethodNames;
use langprint::backends::csharp_backend::struct_types::{CSharpTypeConversionOptions, CSharpTypeNames};
use langprint::backends::csharp_backend::{
    CSharpEnum, CSharpEnumMember, CSharpField, CSharpGenericArgument, CSharpMethod, CSharpProperty, CSharpType,
    CSharpTypeKind, CSharpVisibility,
};
use langprint::backends::rust_backend::{
    RustConstant, RustDefinition, RustEnum, RustEnumVariant, RustEnumVariantValue, RustField, RustFunction,
    RustGenericArgument, RustSelfKind, RustStruct, RustVisibility,
};
use langprint::backends::rust_backend::field_types::RustFieldNames;
use langprint::backends::rust_backend::function_types::RustFunctionNames;
use langprint::backends::rust_backend::struct_types::RustStructNames;
use langprint::backends::cpp_backend::field_types::CppFieldNames;
use langprint::backends::cpp_backend::function_types::CppFunctionNames;
use langprint::backends::cpp_backend::struct_types::CppStructNames;
use langprint::backends::rust_backend::enum_types::RustEnumNames;
use langprint::backends::python_backend::struct_types::PythonStructNames;
use langprint::backends::python_backend::function_types::PythonParameterNames;
use langprint::backends::js_backend::function_types::JsParameterNames;
use langprint::backends::python_backend::PythonStruct;
use langprint::backends::cpp_backend::namespace_from_ir::CppNamespaceNames;
use langprint::backends::rust_backend::module_from_ir::RustModuleNames;
use langprint::backends::csharp_backend::namespace_from_ir::CSharpNamespaceNames;
use langprint::backends::python_backend::class_types::PythonClassNames;
use langprint::backends::python_backend::function_types::PythonFunctionNames;
use langprint::backends::js_backend::class_types::JsClassNames;
use langprint::backends::js_backend::enum_types::JsEnumNames;
use langprint::backends::js_backend::function_types::JsFunctionNames;
use langprint::backends::js_backend::JsEnum;
use langprint::backends::lua_backend::enum_types::LuaEnumNames;
use langprint::backends::lua_backend::LuaEnum;
use langprint::backends::python_backend::enum_types::PythonEnumNames;
use langprint::backends::python_backend::PythonEnum;
use langprint::backends::BackendItem;
use langprint::conversion::{ConversionConfig, ConversionResult, ConversionHooks, ConversionLog, ConversionWarning};
use langprint::type_map::PrimitiveType;
use std::sync::Arc;
use langprint::ir::{
    LanguageDefinition, LanguageNamespace, Annotation, EnumVariant, LanguageBase, LanguageEnum, LanguageField, LanguageStruct, RawAttribute, EnumVariantValue, LanguageConstant, LanguageFunction, LanguageFunctionParameter, LanguageGenericArgument, LanguageStructKind, TargetLanguage,
    Visibility,
};

fn warning_texts(log: &ConversionLog) -> Vec<String> {
    log.warnings
        .iter()
        .map(|w| match w {
            ConversionWarning::UnsupportedFeature { feature, resolution } => format!("{feature} | {resolution}"),
            ConversionWarning::VisibilityApproximated { original, approximated } => {
                format!("{original} ~ {approximated}")
            }
            ConversionWarning::Other(message) => message.clone(),
        })
        .collect()
}

fn is_vis(v: &Visibility, expected: &str) -> bool {
    format!("{v:?}") == expected
}

#[test]
fn csharp_visibility_conversions() {
    let r = CSharpVisibility::Internal.to_ir(None);
    assert!(is_vis(&r.value, "Package"));
    assert!(r.log.warnings.is_empty());
    let r = CSharpVisibility::ProtectedInternal.to_ir(None);
    assert!(is_vis(&r.value, "Protected"));
    assert_eq!(warning_texts(&r.log), vec!["protected internal ~ Protected".to_string()]);
    let back = CSharpVisibility::from_ir(Visibility::Scoped("pkg".to_string()), None);
    assert_eq!(back.value, CSharpVisibility::Internal);
    assert_eq!(warning_texts(&back.log), vec!["Scoped(pkg) ~ internal".to_string()]);
    let back = CSharpVisibility::from_ir(Visibility::Namespace, None);
    assert_eq!(back.value, CSharpVisibility::Internal);
    assert!(back.log.warnings.is_empty());
}

#[test]
fn cpp_and_rust_visibility_conversions() {
    let r = CppVisibility::from_ir(Visibility::Scoped("ns".to_string()), None);
    assert_eq!(r.value, CppVisibility::Public);
    assert_eq!(warning_texts(&r.log), vec!["scoped to ns ~ public in namespace".to_string()]);
    let r = CppVisibility::from_ir(Visibility::Package, None);
    assert_eq!(r.value, CppVisibility::Default);
    assert_eq!(warning_texts(&r.log), vec!["package ~ default".to_string()]);
    let r = RustVisibility::PubSuper.to_ir(None);
    assert!(is_vis(&r.value, "ParentModule"));
    let r = RustVisibility::from_ir(Visibility::Protected, None);
    assert_eq!(r.value, RustVisibility::Pub);
    assert_eq!(warning_texts(&r.log), vec!["Protected ~ pub".to_string()]);
    let r = RustVisibility::from_ir(Visibility::Default, None);
    assert_eq!(r.value, RustVisibility::Private);
    assert!(r.log.warnings.is_empty());
}

#[test]
fn generic_argument_conversions() {
    let g = RustGenericArgument {
        name: "N".to_string(),
        is_lifetime: false,
        const_type: Some("usize".to_string()),
        bounds: None,
        default_value: Some("4".to_string()),
    };
    let ir = g.to_ir(None).value;
    assert_eq!(ir.keyword, "const usize");
    let back = RustGenericArgument::from_ir(ir.clone(), None).value;
    assert_eq!(back.const_type, Some("usize".to_string()));
    assert!(!back.is_lifetime);
    let r = CSharpGenericArgument::from_ir(ir, None);
    assert_eq!(r.value.name, "N");
    assert_eq!(
        warning_texts(&r.log),
        vec![
            "default on generic parameter `N` | C# has no generic parameter defaults; the default was dropped"
                .to_string(),
            "`const usize` generic parameter `N` | C# has no lifetime/const-generic parameters; the kind was dropped"
                .to_string(),
        ]
    );
    let t = LanguageGenericArgument {
        name: "T".to_string(),
        keyword: "typename".to_string(),
        default_value: None,
        where_clause: Some("T: Copy".to_string()),
    };
    let r = CppGenericArgument::from_ir(t, None);
    assert_eq!(r.value.keyword, "typename");
    assert_eq!(
        warning_texts(&r.log),
        vec![
            "`where` clause on template parameter `T` | C++ has no `where` clauses on template parameters; the constraint was dropped"
                .to_string()
        ]
    );
}

#[test]
fn constant_and_define_conversions() {
    let c = RustConstant {
        name: "MAX".to_string(),
        visibility: RustVisibility::Pub,
        data_type: "u32".to_string(),
        value: "7".to_string(),
        is_static: true,
        docs: None,
    };
    let r = c.to_ir(None);
    assert_eq!(r.value.value, "7");
    assert_eq!(
        warning_texts(&r.log),
        vec!["`static` item `MAX` | lowered to a plain constant in the language-agnostic IR".to_string()]
    );
    let ir = LanguageConstant {
        name: "K".to_string(),
        visibility: Visibility::Package,
        data_type: "int".to_string(),
        value: "1".to_string(),
        docs: None,
    };
    let cpp = CppConstant::from_ir(ir, None);
    assert_eq!(cpp.value.visibility, CppVisibility::Default);
    assert_eq!(warning_texts(&cpp.log), vec!["package ~ default".to_string()]);
    let d = RustDefinition { name: "X".to_string(), value: Some("1".to_string()), docs: None };
    let back = RustDefinition::from_ir(d.to_ir(None).value, None).value;
    assert_eq!(back, RustDefinition { name: "X".to_string(), value: Some("1".to_string()), docs: None });
}

fn method(name: &str) -> CSharpMethod {
    CSharpMethod {
        name: name.to_string(),
        visibility: CSharpVisibility::Public,
        parameters: Vec::new(),
        generic_args: Vec::new(),
        return_type: None,
        is_static: false,
        is_abstract: false,
        is_virtual: false,
        is_override: false,
        is_sealed: true,
        is_async: true,
        is_unsafe: false,
        body: None,
        attributes: vec!["Obsolete".to_string()],
        docs: None,
    }
}

#[test]
fn csharp_type_to_ir_reports_every_loss() {
    let input = CSharpType {
        kind: CSharpTypeKind::Interface,
        name: "IShape".to_string(),
        visibility: CSharpVisibility::Public,
        is_abstract: false,
        is_sealed: false,
        is_static: true,
        is_unsafe: false,
        is_partial: true,
        generic_args: vec![CSharpGenericArgument { name: "T".to_string(), constraints: Some("struct".to_string()) }],
        base_class: Some("Base".to_string()),
        interfaces: vec!["IOne".to_string()],
        fields: vec![CSharpField {
            name: "count".to_string(),
            field_type: "int".to_string(),
            visibility: CSharpVisibility::Private,
            is_static: false,
            is_const: false,
            is_readonly: true,
            initializer: None,
            attributes: Vec::new(),
            docs: None,
        }],
        properties: vec![CSharpProperty {
            name: "Area".to_string(),
            prop_type: "double".to_string(),
            visibility: CSharpVisibility::PrivateProtected,
            is_static: false,
            has_getter: true,
            has_setter: false,
            getter_body: None,
            setter_body: None,
            docs: None,
        }],
        methods: vec![method("Draw")],
        attributes: vec!["StructLayout( LayoutKind.Sequential )".to_string(), "Serializable".to_string()],
        docs: None,
    };
    let r = input.to_ir(None);
    assert_eq!(r.value.struct_kind, LanguageStructKind::Class);
    assert_eq!(r.value.annotations, vec![Annotation::ReprC]);
    assert_eq!(r.value.raw_attributes.len(), 1);
    assert_eq!(r.value.raw_attributes[0].source, TargetLanguage::CSharp);
    assert_eq!(r.value.raw_attributes[0].text, "Serializable");
    assert_eq!(r.value.bases.iter().map(|b| b.name.clone()).collect::<Vec<_>>(), vec!["Base", "IOne"]);
    assert_eq!(r.value.fields.iter().map(|f| f.name.clone()).collect::<Vec<_>>(), vec!["count", "Area"]);
    assert!(r.value.methods[0].is_final);
    assert_eq!(r.value.generic_args[0].where_clause, Some("struct".to_string()));
    assert_eq!(
        warning_texts(&r.log),
        vec![
            "`interface` kind on type `IShape` | interface flattened to a class in the language-agnostic IR",
            "`static` on type `IShape` | static modifier dropped from the language-agnostic IR",
            "`partial` on type `IShape` | partial modifier dropped from the language-agnostic IR",
            "`readonly` on field `count` | readonly modifier dropped from the language-agnostic IR",
            "property `Area` on type `IShape` | property lowered to a field in the language-agnostic IR",
            "private protected ~ Protected",
            "`async` on method `Draw` | async modifier dropped from the language-agnostic IR",
            "attribute `[Obsolete]` on method `Draw` | C# attributes dropped from the language-agnostic IR",
        ]
    );
}

#[test]
fn csharp_enum_to_ir() {
    let input = CSharpEnum {
        name: "Color".to_string(),
        visibility: CSharpVisibility::Internal,
        underlying_type: Some("byte".to_string()),
        members: vec![
            CSharpEnumMember { name: "Red".to_string(), value: Some("1".to_string()), docs: None },
            CSharpEnumMember { name: "Green".to_string(), value: None, docs: None },
        ],
        is_flags: true,
        attributes: vec!["Serializable".to_string()],
        docs: None,
    };
    let r = input.to_ir(None);
    assert!(r.log.warnings.is_empty());
    assert!(is_vis(&r.value.visibility, "Package"));
    assert_eq!(r.value.raw_attributes.iter().map(|a| a.text.clone()).collect::<Vec<_>>(), vec!["Flags", "Serializable"]);
    assert!(matches!(&r.value.variants[0].value, EnumVariantValue::Value(v) if v == "1"));
    assert!(matches!(r.value.variants[1].value, EnumVariantValue::NoValue));
}

#[test]
fn rust_struct_to_ir() {
    let method = RustFunction {
        name: "take".to_string(),
        visibility: RustVisibility::Pub,
        self_kind: RustSelfKind::Owned,
        parameters: Vec::new(),
        generic_args: Vec::new(),
        return_type: None,
        is_unsafe: true,
        is_async: false,
        is_const: false,
        abi: None,
        body: None,
        attributes: vec!["inline".to_string()],
        docs: None,
        comments: Vec::new(),
        return_attributes: Vec::new(),
    };
    let input = RustStruct {
        name: "Pair".to_string(),
        visibility: RustVisibility::PubCrate,
        generic_args: Vec::new(),
        fields: vec![RustField {
            name: "a".to_string(),
            field_type: "u8".to_string(),
            visibility: RustVisibility::Pub,
            attributes: vec!["serde(skip)".to_string()],
            docs: None,
        }],
        methods: vec![method],
        derives: vec!["Debug".to_string()],
        attributes: vec!["repr(C)".to_string(), "non_exhaustive".to_string()],
        is_tuple: true,
        docs: None,
    };
    let r = input.to_ir(None);
    assert!(is_vis(&r.value.visibility, "Package"));
    assert!(r.value.is_final);
    assert_eq!(r.value.annotations, vec![Annotation::ReprC]);
    assert_eq!(
        r.value.raw_attributes.iter().map(|a| a.text.clone()).collect::<Vec<_>>(),
        vec!["derive(Debug)", "non_exhaustive"]
    );
    assert!(!r.value.methods[0].is_static);
    assert_eq!(
        warning_texts(&r.log),
        vec![
            "tuple struct `Pair` | lowered to a named-field struct in the language-agnostic IR",
            "attribute `#[serde(skip)]` on field `a` | Rust attributes are dropped from the language-agnostic IR",
            "`unsafe` on function `take` | the `unsafe` qualifier is dropped from the language-agnostic IR",
            "attribute `#[inline]` on function `take` | Rust attributes are dropped from the language-agnostic IR",
            "`self` receiver on method `take` | the IR carries only instance-vs-static; lowered to `&self`",
        ]
    );
}

#[test]
fn rust_enum_to_ir() {
    let input = RustEnum {
        name: "E".to_string(),
        visibility: RustVisibility::Pub,
        variants: vec![
            RustEnumVariant { name: "A".to_string(), value: RustEnumVariantValue::Discriminant("1".to_string()), docs: None },
            RustEnumVariant { name: "B".to_string(), value: RustEnumVariantValue::Tuple(vec!["u8".to_string()]), docs: None },
        ],
        repr: Some("u8".to_string()),
        derives: vec!["Clone".to_string()],
        docs: None,
    };
    let r = input.to_ir(None);
    assert_eq!(r.value.underlying_type, Some("u8".to_string()));
    assert!(r.value.annotations.is_empty());
    assert!(matches!(&r.value.variants[0].value, EnumVariantValue::Value(v) if v == "1"));
    assert!(matches!(&r.value.variants[1].value, EnumVariantValue::Tuple(t) if t == &vec!["u8".to_string()]));
    let c = RustEnum {
        name: "F".to_string(),
        visibility: RustVisibility::Pub,
        variants: Vec::new(),
        repr: Some("C".to_string()),
        derives: Vec::new(),
        docs: None,
    };
    let r = c.to_ir(None);
    assert_eq!(r.value.underlying_type, None);
    assert_eq!(r.value.annotations, vec![Annotation::ReprC]);
}

fn cpp_field(name: &str) -> CppField {
    CppField {
        name: name.to_string(),
        field_type: "int".to_string(),
        visibility: CppVisibility::Private,
        array_size: Some("4".to_string()),
        bit_field_size: None,
        alignment: Some(16),
        is_static: false,
        is_const: false,
        is_inline: false,
        initialization_value: Some("0".to_string()),
        inline_comment: None,
        docs: None,
    }
}

fn cpp_method(name: &str, pure: bool) -> CppFunction {
    CppFunction {
        name: name.to_string(),
        parent_name: None,
        visibility: CppVisibility::Public,
        parameters: Vec::new(),
        template_params: Vec::new(),
        return_type: Some("void".to_string()),
        is_static: false,
        is_const: true,
        is_virtual: true,
        is_pure_virtual: pure,
        is_inline: false,
        is_noexcept: true,
        is_extern_c: false,
        is_override: false,
        is_final: false,
        is_friend: false,
        is_deleted: false,
        is_default: false,
        body: None,
        docs: None,
    }
}

#[test]
fn cpp_struct_to_ir() {
    let input = CppStruct {
        struct_kind: CppStructKind::Class,
        is_final: true,
        alignment: Some(8),
        name: "Shape".to_string(),
        template_params: vec![CppGenericArgument { name: "T".to_string(), keyword: "typename".to_string(), default_value: None }],
        bases: vec![CppBase { name: "Base".to_string(), visibility: CppVisibility::Protected }],
        fields: vec![cpp_field("data")],
        methods: vec![cpp_method("area", true)],
        docs: None,
    };
    let r = input.to_ir(None);
    assert_eq!(r.value.struct_kind, LanguageStructKind::Class);
    assert!(r.value.is_abstract);
    assert!(r.value.is_final);
    assert_eq!(r.value.annotations, vec![Annotation::Aligned(8)]);
    assert_eq!(r.value.fields[0].annotations, vec![Annotation::Aligned(16)]);
    assert!(is_vis(&r.value.bases[0].visibility, "Protected"));
    assert!(r.value.methods[0].is_abstract);
    assert_eq!(r.value.generic_args[0].keyword, "typename");
    assert_eq!(
        warning_texts(&r.log),
        vec![
            "C array dimension on field `data` | array size dropped; encode it in the field type if needed",
            "initializer on field `data` | field initializer dropped from the language-agnostic IR",
            "C++ `const` member function on `area` | modifier dropped from the language-agnostic IR",
            "C++ `noexcept` specifier on `area` | modifier dropped from the language-agnostic IR",
        ]
    );
}

#[test]
fn cpp_enum_conversions() {
    let input = CppEnum {
        name: "Mode".to_string(),
        variants: vec![CppEnumVariant { name: "On".to_string(), value: Some("1".to_string()), docs: None }],
        is_enum_class: false,
        underlying_type: Some("uint8_t".to_string()),
        docs: None,
    };
    let r = input.to_ir(None);
    assert!(is_vis(&r.value.visibility, "Default"));
    assert_eq!(
        warning_texts(&r.log),
        vec!["unscoped C++ enum `Mode` | represented as a scoped enum in the language-agnostic IR"]
    );
    let v = EnumVariant {
        name: "Pair".to_string(),
        value: EnumVariantValue::Tuple(vec!["int".to_string()]),
        docs: None,
        raw_attributes: Vec::new(),
    };
    let back = CppEnumVariant::from_ir(v, None);
    assert_eq!(back.value.value, None);
    assert_eq!(
        warning_texts(&back.log),
        vec!["data-carrying payload on enum variant `Pair` | C++ enums hold no per-variant data; payload dropped"]
    );
}

#[test]
fn script_language_conversions() {
    let f = PythonFunction {
        name: "area".to_string(),
        parameters: vec![PythonParameter { name: "r".to_string(), type_hint: None, default: Some("1".to_string()) }],
        return_type: Some("float".to_string()),
        docstring: Some("Area.".to_string()),
        body: None,
    };
    let class = PythonClass {
        name: "Circle".to_string(),
        bases: vec!["Shape".to_string()],
        fields: vec![PythonClassField { name: "count".to_string(), value: "0".to_string() }],
        methods: vec![f],
        docstring: None,
    };
    let r = class.to_ir(None);
    assert!(r.log.warnings.is_empty());
    assert_eq!(r.value.bases[0].name, "Shape");
    assert!(r.value.fields[0].is_static);
    assert_eq!(r.value.methods[0].parameters[0].param_type, "");
    assert_eq!(r.value.methods[0].docs, Some(vec!["Area.".to_string()]));

    let js = JsClass {
        name: "A".to_string(),
        extends: Some("B".to_string()),
        fields: vec![JsField { name: "x".to_string(), value: "1".to_string(), is_static: false }],
        methods: vec![JsFunction {
            name: "m".to_string(),
            parameters: vec![JsParameter { name: "n".to_string(), default: None, type_doc: Some("number".to_string()) }],
            return_type: Some("string".to_string()),
            doc: None,
            is_static: true,
            body: None,
        }],
        doc: None,
    };
    let r = js.to_ir(None);
    assert_eq!(r.value.bases.len(), 1);
    assert_eq!(r.value.methods[0].parameters[0].param_type, "number");
    assert!(r.value.methods[0].is_static);

    let lua = LuaFunction {
        name: "f".to_string(),
        parameters: vec!["a".to_string()],
        doc: Some("Doc.".to_string()),
        body: None,
    };
    let ir = lua.to_ir(None).value;
    assert_eq!(ir.parameters[0].name, "a");
    let with_types = LanguageFunction {
        return_type: Some("int".to_string()),
        docs: Some(vec!["One.".to_string(), "Two.".to_string()]),
        parameters: vec![LanguageFunctionParameter { name: "x".to_string(), param_type: "int".to_string(), default_value: None }],
        ..ir
    };
    let back = LuaFunction::from_ir(with_types);
    assert_eq!(back.value.parameters, vec!["x".to_string()]);
    assert_eq!(back.value.doc, Some("One.\nTwo.".to_string()));
    assert_eq!(warning_texts(&back.log), vec!["Lua functions are untyped; dropping return type".to_string()]);
}

#[test]
fn namespace_conversions_report_nested_losses() {
    let inner = CppNamespace {
        name: "inner".to_string(),
        defines: None,
        constants: None,
        enums: Some(vec![CppEnum {
            name: "Mode".to_string(),
            variants: Vec::new(),
            is_enum_class: false,
            underlying_type: None,
            docs: None,
        }]),
        structs: None,
        functions: None,
        namespaces: None,
    };
    let outer = CppNamespace {
        name: "outer".to_string(),
        defines: None,
        constants: None,
        enums: None,
        structs: None,
        functions: Some(vec![cpp_method("f", false)]),
        namespaces: Some(vec![inner]),
    };
    let r = outer.to_ir(None);
    assert_eq!(r.value.name, "outer");
    assert!(r.value.enums.is_none());
    let nested = r.value.namespaces.as_ref().unwrap();
    assert_eq!(nested[0].name, "inner");
    assert_eq!(nested[0].enums.as_ref().unwrap()[0].name, "Mode");
    assert_eq!(
        warning_texts(&r.log),
        vec![
            "C++ `const` member function on `f` | modifier dropped from the language-agnostic IR",
            "C++ `noexcept` specifier on `f` | modifier dropped from the language-agnostic IR",
            "unscoped C++ enum `Mode` | represented as a scoped enum in the language-agnostic IR",
        ]
    );

    let cs = CSharpNamespace {
        name: "App".to_string(),
        defines: None,
        constants: None,
        enums: None,
        types: None,
        namespaces: Some(Vec::new()),
        file_scoped: true,
        docs: None,
    };
    let r = cs.to_ir(None);
    assert!(r.value.functions.is_none());
    assert_eq!(r.value.namespaces.as_ref().map(|v| v.len()), Some(0));
    assert_eq!(
        warning_texts(&r.log),
        vec!["file-scoped namespace `App` | file-scoped flag dropped from the language-agnostic IR"]
    );

    let m = RustModule {
        name: "util".to_string(),
        visibility: RustVisibility::PubCrate,
        defines: None,
        constants: Some(vec![RustConstant {
            name: "N".to_string(),
            visibility: RustVisibility::Pub,
            data_type: "u8".to_string(),
            value: "1".to_string(),
            is_static: true,
            docs: None,
        }]),
        enums: None,
        structs: None,
        functions: None,
        modules: None,
        docs: Some(vec!["Helpers.".to_string()]),
    };
    let r = m.to_ir(None);
    assert!(is_vis(&r.value.visibility, "Package"));
    assert_eq!(r.value.docs, Some(vec!["Helpers.".to_string()]));
    assert_eq!(
        warning_texts(&r.log),
        vec!["`static` item `N` | lowered to a plain constant in the language-agnostic IR"]
    );
}

#[test]
fn integral_reprs_are_recognized() {
    assert!(langprint::backends::rust_backend::enum_types::is_integral_repr("u8"));
    assert!(langprint::backends::rust_backend::enum_types::is_integral_repr("isize"));
    assert!(!langprint::backends::rust_backend::enum_types::is_integral_repr("C"));
    assert!(!langprint::backends::rust_backend::enum_types::is_integral_repr("u256"));
}

struct RenameStructs;

impl ConversionHooks for RenameStructs {
    fn after_to_ir_struct(&self, item: &mut LanguageStruct) {
        item.name = format!("{}Dto", item.name);
    }
}

#[test]
fn to_ir_applies_the_users_struct_hook() {
    let make = || CSharpType {
        kind: CSharpTypeKind::Class,
        name: "User".to_string(),
        visibility: CSharpVisibility::Public,
        is_abstract: false,
        is_sealed: false,
        is_static: false,
        is_unsafe: false,
        is_partial: false,
        generic_args: Vec::new(),
        base_class: None,
        interfaces: Vec::new(),
        fields: Vec::new(),
        properties: Vec::new(),
        methods: Vec::new(),
        attributes: Vec::new(),
        docs: None,
    };
    assert_eq!(make().to_ir(None).value.name, "User");
    let plain = CSharpTypeConversionOptions::default();
    assert_eq!(make().to_ir(Some(&plain)).value.name, "User");
    let hooked = CSharpTypeConversionOptions { config: ConversionConfig { hooks: Some(Arc::new(RenameStructs)) } };
    let r = make().to_ir(Some(&hooked));
    assert_eq!(r.value.name, "UserDto");
    assert!(r.log.warnings.is_empty());
}

fn mapped(text: &str) -> ConversionResult<String> {
    ConversionResult::new(text.to_string())
}

#[test]
fn csharp_type_from_ir_with_resolved_names() {
    let field = LanguageField {
        name: "count".to_string(),
        field_type: "i32".to_string(),
        visibility: Visibility::Private,
        is_static: false,
        is_const: false,
        docs: None,
        annotations: Vec::new(),
        raw_attributes: vec![
            RawAttribute { source: TargetLanguage::Rust, text: "serde(skip)".to_string() },
            RawAttribute { source: TargetLanguage::CSharp, text: "NonSerialized".to_string() },
        ],
    };
    let method = LanguageFunction {
        name: "area".to_string(),
        visibility: Visibility::Public,
        parameters: vec![LanguageFunctionParameter { name: "scale".to_string(), param_type: "f64".to_string(), default_value: None }],
        generic_args: Vec::new(),
        return_type: Some("f64".to_string()),
        is_static: false,
        is_abstract: false,
        is_virtual: false,
        is_override: false,
        is_final: true,
        body: None,
        docs: None,
        annotations: Vec::new(),
        raw_attributes: Vec::new(),
    };
    let input = LanguageStruct {
        visibility: Visibility::Package,
        struct_kind: LanguageStructKind::Union,
        is_abstract: true,
        is_final: false,
        name: "shape".to_string(),
        generic_args: Vec::new(),
        bases: vec![
            LanguageBase { name: "Base".to_string(), visibility: Visibility::Public },
            LanguageBase { name: "IOne".to_string(), visibility: Visibility::Public },
        ],
        fields: vec![field],
        methods: vec![method],
        docs: None,
        annotations: vec![Annotation::ReprC],
        raw_attributes: Vec::new(),
    };
    let names = CSharpTypeNames {
        name: mapped("Shape"),
        annotation_attributes: vec![Some("StructLayout(LayoutKind.Sequential)".to_string())],
        fields: vec![CSharpFieldNames { name: mapped("Count"), field_type: mapped("int"), annotation_attributes: Vec::new() }],
        methods: vec![CSharpMethodNames {
            name: mapped("Area"),
            param_types: vec![mapped("double")],
            return_type: Some(mapped("double")),
        }],
    };
    let r = CSharpType::from_ir(input, names);
    assert_eq!(r.value.kind, CSharpTypeKind::Class);
    assert_eq!(r.value.name, "Shape");
    assert_eq!(r.value.visibility, CSharpVisibility::Internal);
    assert_eq!(r.value.base_class, Some("Base".to_string()));
    assert_eq!(r.value.interfaces, vec!["IOne".to_string()]);
    assert_eq!(r.value.attributes, vec!["StructLayout(LayoutKind.Sequential)".to_string()]);
    assert_eq!(r.value.fields[0].name, "Count");
    assert_eq!(r.value.fields[0].attributes, vec!["NonSerialized".to_string()]);
    assert_eq!(r.value.methods[0].parameters[0].param_type, "double");
    assert!(r.value.methods[0].is_sealed);
    assert_eq!(
        warning_texts(&r.log),
        vec![
            "union `shape` | C# has no union; rendered as a struct",
            "abstract value type `shape` | C# structs cannot be abstract; lowered to a class",
            "opaque Rust attribute `serde(skip)` | cannot translate to C#; dropped",
        ]
    );
}

#[test]
fn csharp_enum_from_ir_with_resolved_names() {
    let input = LanguageEnum {
        name: "color".to_string(),
        visibility: Visibility::Public,
        variants: vec![
            EnumVariant { name: "red".to_string(), value: EnumVariantValue::Value("1".to_string()), docs: None, raw_attributes: Vec::new() },
            EnumVariant { name: "rgb".to_string(), value: EnumVariantValue::Tuple(vec!["u8".to_string()]), docs: None, raw_attributes: Vec::new() },
        ],
        underlying_type: Some("u8".to_string()),
        docs: None,
        annotations: Vec::new(),
        raw_attributes: vec![
            RawAttribute { source: TargetLanguage::CSharp, text: "Flags".to_string() },
            RawAttribute { source: TargetLanguage::CSharp, text: "Serializable".to_string() },
        ],
    };
    let names = CSharpEnumNames {
        name: mapped("Color"),
        underlying_type: Some(mapped("byte")),
        members: vec![mapped("Red"), mapped("Rgb")],
    };
    let r = CSharpEnum::from_ir(input, names);
    assert!(r.value.is_flags);
    assert_eq!(r.value.attributes, vec!["Serializable".to_string()]);
    assert_eq!(r.value.underlying_type, Some("byte".to_string()));
    assert_eq!(r.value.members[0].value, Some("1".to_string()));
    assert_eq!(r.value.members[1].value, None);
    assert_eq!(
        warning_texts(&r.log),
        vec!["data-carrying variant `rgb` on enum `color` | C# enums cannot carry data; rendered as a plain member"]
    );
}

#[test]
fn ctypes_spellings() {
    let map = ctypes_type_map();
    assert_eq!(map.output(PrimitiveType::I32, TargetLanguage::Python), Some("ctypes.c_int32"));
    assert_eq!(map.output(PrimitiveType::Str, TargetLanguage::Python), Some("ctypes.c_char_p"));
    assert_eq!(map.output(PrimitiveType::USize, TargetLanguage::Python), Some("ctypes.c_size_t"));
    assert_eq!(map.output(PrimitiveType::I128, TargetLanguage::Python), None);
    assert_eq!(map.output(PrimitiveType::Void, TargetLanguage::Python), None);
    assert_eq!(map.output(PrimitiveType::I32, TargetLanguage::Rust), None);
}

#[test]
fn rust_struct_from_ir_with_resolved_names() {
    let field = LanguageField {
        name: "Count".to_string(),
        field_type: "int".to_string(),
        visibility: Visibility::Protected,
        is_static: true,
        is_const: false,
        docs: None,
        annotations: Vec::new(),
        raw_attributes: Vec::new(),
    };
    let method = LanguageFunction {
        name: "Area".to_string(),
        visibility: Visibility::Public,
        parameters: vec![LanguageFunctionParameter {
            name: "scale".to_string(),
            param_type: "double".to_string(),
            default_value: Some("1.0".to_string()),
        }],
        generic_args: Vec::new(),
        return_type: Some("double".to_string()),
        is_static: false,
        is_abstract: false,
        is_virtual: true,
        is_override: false,
        is_final: false,
        body: None,
        docs: None,
        annotations: Vec::new(),
        raw_attributes: Vec::new(),
    };
    let input = LanguageStruct {
        visibility: Visibility::Package,
        struct_kind: LanguageStructKind::Struct,
        is_abstract: false,
        is_final: false,
        name: "Shape".to_string(),
        generic_args: Vec::new(),
        bases: vec![LanguageBase { name: "Base".to_string(), visibility: Visibility::Public }],
        fields: vec![field],
        methods: vec![method],
        docs: None,
        annotations: vec![Annotation::ReprC],
        raw_attributes: vec![
            RawAttribute { source: TargetLanguage::Rust, text: "derive(Debug)".to_string() },
            RawAttribute { source: TargetLanguage::Rust, text: "non_exhaustive".to_string() },
            RawAttribute { source: TargetLanguage::CSharp, text: "Serializable".to_string() },
        ],
    };
    let names = RustStructNames {
        annotation_attributes: vec![Some("repr(C)".to_string())],
        fields: vec![RustFieldNames { name: mapped("count"), field_type: mapped("i32") }],
        methods: vec![RustFunctionNames {
            name: mapped("area"),
            param_types: vec![mapped("f64")],
            return_type: Some(mapped("f64")),
        }],
    };
    let r = RustStruct::from_ir(input, names);
    assert_eq!(r.value.name, "Shape");
    assert_eq!(r.value.visibility, RustVisibility::PubCrate);
    assert_eq!(r.value.derives, vec!["Debug".to_string()]);
    assert_eq!(r.value.attributes, vec!["repr(C)".to_string(), "non_exhaustive".to_string()]);
    assert_eq!(r.value.fields[0].name, "count");
    assert_eq!(r.value.fields[0].field_type, "i32");
    assert_eq!(r.value.fields[0].visibility, RustVisibility::Pub);
    assert_eq!(r.value.methods[0].name, "area");
    assert_eq!(r.value.methods[0].parameters[0].param_type, "f64");
    assert_eq!(r.value.methods[0].return_type, Some("f64".to_string()));
    assert_eq!(r.value.methods[0].self_kind, RustSelfKind::Ref);
    assert!(!r.value.is_tuple);
    assert_eq!(
        warning_texts(&r.log),
        vec![
            "base `Base` of `Shape` | Rust has no inheritance; the base was dropped (use composition/traits)",
            "opaque CSharp attribute `Serializable` | cannot translate to Rust; dropped",
            "static field `Count` | Rust struct fields cannot be static; the modifier was dropped",
            "Protected ~ pub",
            "virtual method `Area` | Rust has no virtual methods; lowered to an inherent method",
            "default value on parameter `scale` | Rust has no default parameters; the default was dropped",
        ]
    );
}

#[test]
fn cpp_struct_from_ir_with_resolved_names() {
    let field = LanguageField {
        name: "count".to_string(),
        field_type: "i32".to_string(),
        visibility: Visibility::Package,
        is_static: true,
        is_const: false,
        docs: None,
        annotations: vec![Annotation::Aligned(8), Annotation::Packed, Annotation::Aligned(16)],
        raw_attributes: vec![RawAttribute { source: TargetLanguage::Rust, text: "serde(skip)".to_string() }],
    };
    let method = LanguageFunction {
        name: "area".to_string(),
        visibility: Visibility::Public,
        parameters: vec![LanguageFunctionParameter {
            name: "scale".to_string(),
            param_type: "f64".to_string(),
            default_value: Some("1.0".to_string()),
        }],
        generic_args: vec![LanguageGenericArgument {
            name: "T".to_string(),
            keyword: "typename".to_string(),
            default_value: None,
            where_clause: Some("T: Copy".to_string()),
        }],
        return_type: Some("f64".to_string()),
        is_static: false,
        is_abstract: true,
        is_virtual: false,
        is_override: false,
        is_final: false,
        body: None,
        docs: None,
        annotations: Vec::new(),
        raw_attributes: Vec::new(),
    };
    let input = LanguageStruct {
        visibility: Visibility::Namespace,
        struct_kind: LanguageStructKind::Class,
        is_abstract: true,
        is_final: true,
        name: "Shape".to_string(),
        generic_args: Vec::new(),
        bases: vec![LanguageBase { name: "Base".to_string(), visibility: Visibility::ParentModule }],
        fields: vec![field],
        methods: vec![method],
        docs: None,
        annotations: vec![Annotation::Aligned(4)],
        raw_attributes: vec![RawAttribute { source: TargetLanguage::Cpp, text: "[[nodiscard]]".to_string() }],
    };
    let names = CppStructNames {
        fields: vec![CppFieldNames { name: mapped("count_"), field_type: mapped("int32_t") }],
        methods: vec![CppFunctionNames {
            name: mapped("Area"),
            param_types: vec![mapped("double")],
            return_type: Some(mapped("double")),
        }],
    };
    let r = CppStruct::from_ir(input, names);
    assert_eq!(r.value.struct_kind, CppStructKind::Class);
    assert_eq!(r.value.name, "Shape");
    assert!(r.value.is_final);
    assert_eq!(r.value.alignment, Some(4));
    assert_eq!(r.value.bases[0].visibility, CppVisibility::Default);
    assert_eq!(r.value.fields[0].name, "count_");
    assert_eq!(r.value.fields[0].field_type, "int32_t");
    assert_eq!(r.value.fields[0].alignment, Some(16));
    assert_eq!(r.value.fields[0].visibility, CppVisibility::Default);
    assert!(r.value.fields[0].is_static);
    let m = &r.value.methods[0];
    assert_eq!(m.name, "Area");
    assert!(m.is_virtual && m.is_pure_virtual);
    assert_eq!(m.parameters[0].param_type, "double");
    assert_eq!(m.parameters[0].default_value, Some("1.0".to_string()));
    assert_eq!(m.return_type, Some("double".to_string()));
    assert_eq!(m.template_params[0].keyword, "typename");
    assert_eq!(
        warning_texts(&r.log),
        vec![
            "package ~ default",
            "opaque Rust attribute `serde(skip)` | cannot translate to C++; dropped",
            "`where` clause on template parameter `T` | C++ has no `where` clauses on template parameters; the constraint was dropped",
            "parent module ~ default",
            "namespace ~ public in namespace",
        ]
    );
}

#[test]
fn cpp_enum_from_ir_with_resolved_names() {
    let input = LanguageEnum {
        name: "Color".to_string(),
        visibility: Visibility::Package,
        variants: vec![
            EnumVariant { name: "Red".to_string(), value: EnumVariantValue::Value("1".to_string()), docs: None, raw_attributes: Vec::new() },
            EnumVariant { name: "Rgb".to_string(), value: EnumVariantValue::Tuple(vec!["u8".to_string()]), docs: None, raw_attributes: Vec::new() },
        ],
        underlying_type: Some("u8".to_string()),
        docs: None,
        annotations: Vec::new(),
        raw_attributes: vec![RawAttribute { source: TargetLanguage::CSharp, text: "Flags".to_string() }],
    };
    let r = CppEnum::from_ir(input, true, Some(mapped("uint8_t")));
    assert!(r.value.is_enum_class);
    assert_eq!(r.value.underlying_type, Some("uint8_t".to_string()));
    assert_eq!(r.value.variants[0].value, Some("1".to_string()));
    assert_eq!(r.value.variants[1].value, None);
    assert_eq!(
        warning_texts(&r.log),
        vec![
            "package ~ default",
            "data-carrying payload on enum variant `Rgb` | C++ enums hold no per-variant data; payload dropped",
            "opaque CSharp attribute `Flags` | cannot translate to C++; dropped",
        ]
    );
}

fn renamed(text: &str, note: &str) -> ConversionResult<String> {
    ConversionResult::with_warning(text.to_string(), ConversionWarning::Other(note.to_string()))
}

#[test]
fn rust_enum_from_ir_with_resolved_names() {
    let input = LanguageEnum {
        name: "color".to_string(),
        visibility: Visibility::Namespace,
        variants: vec![
            EnumVariant { name: "RED".to_string(), value: EnumVariantValue::Value("1".to_string()), docs: None, raw_attributes: Vec::new() },
            EnumVariant { name: "RGB".to_string(), value: EnumVariantValue::Tuple(vec!["u8".to_string()]), docs: None, raw_attributes: Vec::new() },
            EnumVariant { name: "NONE".to_string(), value: EnumVariantValue::NoValue, docs: None, raw_attributes: Vec::new() },
        ],
        underlying_type: Some("byte".to_string()),
        docs: Some(vec!["A colour.".to_string()]),
        annotations: Vec::new(),
        raw_attributes: vec![
            RawAttribute { source: TargetLanguage::Rust, text: "derive(Clone)".to_string() },
            RawAttribute { source: TargetLanguage::Rust, text: "non_exhaustive".to_string() },
            RawAttribute { source: TargetLanguage::Python, text: "unique".to_string() },
        ],
    };
    let names = RustEnumNames {
        name: renamed("Color", "color -> Color"),
        repr: Some(mapped("u8")),
        variants: vec![mapped("Red"), mapped("Rgb"), renamed("None_", "NONE -> None_")],
    };
    let r = RustEnum::from_ir(input, names);
    assert_eq!(r.value.name, "Color");
    assert_eq!(r.value.visibility, RustVisibility::PubCrate);
    assert_eq!(r.value.repr, Some("u8".to_string()));
    assert_eq!(r.value.derives, vec!["Clone".to_string()]);
    assert_eq!(r.value.variants[0].value, RustEnumVariantValue::Discriminant("1".to_string()));
    assert_eq!(r.value.variants[1].value, RustEnumVariantValue::Tuple(vec!["u8".to_string()]));
    assert_eq!(r.value.variants[2].name, "None_");
    assert_eq!(r.value.variants[2].value, RustEnumVariantValue::Unit);
    assert_eq!(r.value.docs, Some(vec!["A colour.".to_string()]));
    assert_eq!(
        warning_texts(&r.log),
        vec![
            "color -> Color",
            "Namespace ~ pub(crate)",
            "opaque Python attribute `unique` | cannot translate to Rust; dropped",
            "NONE -> None_",
        ]
    );
}

#[test]
fn python_struct_from_ir_with_resolved_names() {
    let field = |name: &str, ty: &str| LanguageField {
        name: name.to_string(),
        field_type: ty.to_string(),
        visibility: Visibility::Public,
        is_static: false,
        is_const: false,
        docs: None,
        annotations: Vec::new(),
        raw_attributes: Vec::new(),
    };
    let input = LanguageStruct {
        visibility: Visibility::Public,
        struct_kind: LanguageStructKind::Struct,
        is_abstract: false,
        is_final: false,
        name: "Point".to_string(),
        generic_args: Vec::new(),
        bases: Vec::new(),
        fields: vec![field("X", "ctypes.c_int32"), field("Y", "ctypes.c_int32")],
        methods: Vec::new(),
        docs: Some(vec!["A point.".to_string(), "In 2D.".to_string()]),
        annotations: Vec::new(),
        raw_attributes: Vec::new(),
    };
    let names = PythonStructNames { name: mapped("Point"), fields: vec![renamed("x", "X -> x"), mapped("y")] };
    let r = PythonStruct::from_ir(input, names);
    assert_eq!(r.value.name, "Point");
    assert_eq!(r.value.fields[0].name, "x");
    assert_eq!(r.value.fields[1].ctype, "ctypes.c_int32");
    assert_eq!(r.value.docstring, Some("A point.\nIn 2D.".to_string()));
    assert_eq!(warning_texts(&r.log), vec!["X -> x"]);
}

#[test]
fn script_parameters_from_ir_with_resolved_names() {
    let typed = LanguageFunctionParameter {
        name: "count".to_string(),
        param_type: "i32".to_string(),
        default_value: Some("0".to_string()),
    };
    let r = PythonParameter::from_ir(
        typed.clone(),
        PythonParameterNames { name: mapped("count"), type_hint: Some(renamed("int", "i32 -> int")) },
    );
    assert_eq!(r.value.type_hint, Some("int".to_string()));
    assert_eq!(r.value.default, Some("0".to_string()));
    assert_eq!(warning_texts(&r.log), vec!["i32 -> int"]);
    let untyped = LanguageFunctionParameter { name: "x".to_string(), param_type: String::new(), default_value: None };
    let r = JsParameter::from_ir(untyped, JsParameterNames { name: renamed("xValue", "x -> xValue"), type_doc: None });
    assert_eq!(r.value.name, "xValue");
    assert_eq!(r.value.type_doc, None);
    assert_eq!(warning_texts(&r.log), vec!["x -> xValue"]);
    let r = JsParameter::from_ir(typed, JsParameterNames { name: mapped("count"), type_doc: Some(mapped("number")) });
    assert_eq!(r.value.type_doc, Some("number".to_string()));
    assert!(r.log.warnings.is_empty());
}

#[test]
fn lua_module_to_ir_with_renamed_fields() {
    let module = LuaModule {
        table_name: "M".to_string(),
        fields: vec![LuaField { name: "version".to_string(), value: "\"1.0\"".to_string() }],
        functions: vec![LuaFunction {
            name: "greet".to_string(),
            parameters: vec!["who".to_string()],
            doc: None,
            body: Some(vec!["print(who)".to_string()]),
        }],
        doc: Some("Greetings.".to_string()),
    };
    let r = module.to_ir(None, vec!["VERSION".to_string()]);
    assert_eq!(r.value.name, "M");
    assert!(is_vis(&r.value.visibility, "Public"));
    let constants = r.value.constants.as_ref().unwrap();
    assert_eq!(constants[0].name, "VERSION");
    assert_eq!(constants[0].value, "\"1.0\"");
    assert_eq!(constants[0].data_type, "");
    let functions = r.value.functions.as_ref().unwrap();
    assert_eq!(functions[0].name, "greet");
    assert_eq!(functions[0].parameters[0].name, "who");
    assert!(functions[0].is_static);
    assert_eq!(r.value.docs, Some(vec!["Greetings.".to_string()]));
    assert!(r.value.enums.is_none() && r.value.structs.is_none() && r.value.namespaces.is_none());
    assert!(r.log.warnings.is_empty());
    let empty = LuaModule { table_name: "M".to_string(), fields: Vec::new(), functions: Vec::new(), doc: None };
    let r = empty.to_ir(None, Vec::new());
    assert!(r.value.constants.is_none());
    assert_eq!(r.value.functions.map(|f| f.len()), Some(0));
    assert!(r.value.docs.is_none());
}

fn empty_namespace(name: &str) -> LanguageNamespace {
    LanguageNamespace {
        name: name.to_string(),
        visibility: Visibility::Default,
        defines: None,
        constants: None,
        enums: None,
        structs: None,
        functions: None,
        namespaces: None,
        docs: None,
        raw_attributes: Vec::new(),
    }
}

fn no_names(name: ConversionResult<String>) -> CppNamespaceNames {
    CppNamespaceNames { name, enums: Vec::new(), structs: Vec::new(), functions: Vec::new(), namespaces: Vec::new() }
}

#[test]
fn cpp_namespace_from_ir_with_resolved_names() {
    let mut input = empty_namespace("geometry");
    input.visibility = Visibility::Public;
    input.docs = Some(vec!["Shapes.".to_string()]);
    input.constants = Some(vec![LanguageConstant {
        name: "PI".to_string(),
        visibility: Visibility::Package,
        data_type: "double".to_string(),
        value: "3.14".to_string(),
        docs: None,
    }]);
    input.enums = Some(vec![LanguageEnum {
        name: "Kind".to_string(),
        visibility: Visibility::Default,
        variants: vec![EnumVariant { name: "Round".to_string(), value: EnumVariantValue::NoValue, docs: None, raw_attributes: Vec::new() }],
        underlying_type: None,
        docs: None,
        annotations: Vec::new(),
        raw_attributes: Vec::new(),
    }]);
    let mut inner = empty_namespace("detail");
    inner.docs = Some(vec!["Internal.".to_string()]);
    input.namespaces = Some(vec![inner]);
    let names = CppNamespaceNames {
        name: renamed("Geometry", "geometry -> Geometry"),
        enums: vec![None],
        structs: Vec::new(),
        functions: Vec::new(),
        namespaces: vec![no_names(mapped("detail"))],
    };
    let r = CppNamespace::from_ir(input, names);
    assert_eq!(r.value.name, "Geometry");
    assert!(r.value.defines.is_none() && r.value.structs.is_none() && r.value.functions.is_none());
    let constants = r.value.constants.as_ref().unwrap();
    assert_eq!(constants[0].visibility, CppVisibility::Default);
    assert_eq!(constants[0].value, "3.14");
    let enums = r.value.enums.as_ref().unwrap();
    assert!(enums[0].is_enum_class);
    assert_eq!(enums[0].underlying_type, None);
    let nested = r.value.namespaces.as_ref().unwrap();
    assert_eq!(nested[0].name, "detail");
    assert_eq!(
        warning_texts(&r.log),
        vec![
            "visibility on namespace `geometry` | C++ namespaces have no visibility specifier; dropped",
            "documentation on namespace `geometry` | C++ namespaces carry no documentation; dropped",
            "geometry -> Geometry",
            "package ~ default",
            "documentation on namespace `detail` | C++ namespaces carry no documentation; dropped",
        ]
    );
}

#[test]
fn rust_module_from_ir_with_resolved_names() {
    let mut input = empty_namespace("Geometry");
    input.visibility = Visibility::Protected;
    input.docs = Some(vec!["Shapes.".to_string()]);
    input.defines = Some(vec![LanguageDefinition { name: "DEBUG".to_string(), value: None, docs: None }]);
    input.constants = Some(vec![LanguageConstant {
        name: "PI".to_string(),
        visibility: Visibility::Public,
        data_type: "f64".to_string(),
        value: "3.14".to_string(),
        docs: None,
    }]);
    let mut inner = empty_namespace("Detail");
    inner.visibility = Visibility::Namespace;
    input.namespaces = Some(vec![inner]);
    let names = RustModuleNames {
        name: renamed("geometry", "Geometry -> geometry"),
        enums: Vec::new(),
        structs: Vec::new(),
        functions: Vec::new(),
        modules: vec![RustModuleNames {
            name: mapped("detail"),
            enums: Vec::new(),
            structs: Vec::new(),
            functions: Vec::new(),
            modules: Vec::new(),
        }],
    };
    let r = RustModule::from_ir(input, names);
    assert_eq!(r.value.name, "geometry");
    assert_eq!(r.value.visibility, RustVisibility::Pub);
    assert_eq!(r.value.docs, Some(vec!["Shapes.".to_string()]));
    assert_eq!(r.value.defines.as_ref().unwrap()[0].name, "DEBUG");
    let constants = r.value.constants.as_ref().unwrap();
    assert_eq!(constants[0].visibility, RustVisibility::Pub);
    assert!(!constants[0].is_static);
    assert!(r.value.enums.is_none() && r.value.structs.is_none() && r.value.functions.is_none());
    let modules = r.value.modules.as_ref().unwrap();
    assert_eq!(modules[0].name, "detail");
    assert_eq!(modules[0].visibility, RustVisibility::PubCrate);
    assert_eq!(
        warning_texts(&r.log),
        vec!["Protected ~ pub", "Geometry -> geometry", "Namespace ~ pub(crate)"]
    );
}

#[test]
fn csharp_namespace_from_ir_with_resolved_names() {
    let mut input = empty_namespace("geometry");
    input.visibility = Visibility::Public;
    input.functions = Some(Vec::new());
    input.constants = Some(vec![LanguageConstant {
        name: "Pi".to_string(),
        visibility: Visibility::Public,
        data_type: "double".to_string(),
        value: "3.14".to_string(),
        docs: None,
    }]);
    input.namespaces = Some(vec![empty_namespace("detail")]);
    let names = CSharpNamespaceNames {
        name: renamed("Geometry", "geometry -> Geometry"),
        enums: Vec::new(),
        types: Vec::new(),
        namespaces: vec![CSharpNamespaceNames {
            name: renamed("Detail", "detail -> Detail"),
            enums: Vec::new(),
            types: Vec::new(),
            namespaces: Vec::new(),
        }],
    };
    let r = CSharpNamespace::from_ir(input, names);
    assert_eq!(r.value.name, "Geometry");
    assert!(!r.value.file_scoped);
    assert_eq!(r.value.constants.as_ref().unwrap()[0].visibility, CSharpVisibility::Public);
    assert!(r.value.types.is_none() && r.value.enums.is_none());
    assert_eq!(r.value.namespaces.as_ref().unwrap()[0].name, "Detail");
    assert_eq!(
        warning_texts(&r.log),
        vec![
            "visibility on namespace `geometry` | C# namespaces have no visibility specifier; dropped",
            "free functions in namespace `geometry` | C# has no namespace-level free functions; dropped",
            "geometry -> Geometry",
            "detail -> Detail",
        ]
    );
}

#[test]
fn python_class_from_ir_with_resolved_names() {
    let method = LanguageFunction {
        name: "GetArea".to_string(),
        visibility: Visibility::Public,
        parameters: vec![
            LanguageFunctionParameter { name: "self".to_string(), param_type: String::new(), default_value: None },
            LanguageFunctionParameter { name: "Scale".to_string(), param_type: "f64".to_string(), default_value: Some("1.0".to_string()) },
        ],
        generic_args: vec![LanguageGenericArgument { name: "T".to_string(), keyword: String::new(), default_value: None, where_clause: None }],
        return_type: Some("void".to_string()),
        is_static: false,
        is_abstract: false,
        is_virtual: false,
        is_override: false,
        is_final: false,
        body: Some(vec!["return 0".to_string()]),
        docs: Some(vec!["The area.".to_string()]),
        annotations: Vec::new(),
        raw_attributes: vec![RawAttribute { source: TargetLanguage::Rust, text: "inline".to_string() }],
    };
    let field = LanguageField {
        name: "Count".to_string(),
        field_type: "i32".to_string(),
        visibility: Visibility::Public,
        is_static: false,
        is_const: false,
        docs: None,
        annotations: Vec::new(),
        raw_attributes: Vec::new(),
    };
    let input = LanguageStruct {
        visibility: Visibility::Public,
        struct_kind: LanguageStructKind::Class,
        is_abstract: false,
        is_final: false,
        name: "Shape".to_string(),
        generic_args: Vec::new(),
        bases: vec![LanguageBase { name: "Base".to_string(), visibility: Visibility::Public }],
        fields: vec![field],
        methods: vec![method],
        docs: Some(vec!["A shape.".to_string(), "Abstract.".to_string()]),
        annotations: vec![Annotation::ReprC, Annotation::Packed],
        raw_attributes: Vec::new(),
    };
    let names = PythonClassNames {
        name: mapped("Shape"),
        fields: vec![renamed("count", "Count -> count")],
        methods: vec![PythonFunctionNames {
            name: renamed("get_area", "GetArea -> get_area"),
            parameters: vec![
                PythonParameterNames { name: mapped("self"), type_hint: None },
                PythonParameterNames { name: mapped("scale"), type_hint: Some(mapped("float")) },
            ],
            return_type: None,
        }],
    };
    let r = PythonClass::from_ir(input, names);
    assert_eq!(r.value.name, "Shape");
    assert_eq!(r.value.bases, vec!["Base".to_string()]);
    assert_eq!(r.value.fields[0].name, "count");
    assert_eq!(r.value.fields[0].value, "None");
    assert_eq!(r.value.docstring, Some("A shape.\nAbstract.".to_string()));
    let m = &r.value.methods[0];
    assert_eq!(m.name, "get_area");
    assert_eq!(m.parameters[1].type_hint, Some("float".to_string()));
    assert_eq!(m.parameters[1].default, Some("1.0".to_string()));
    assert_eq!(m.return_type, None);
    assert_eq!(m.docstring, Some("The area.".to_string()));
    assert_eq!(m.body, Some(vec!["return 0".to_string()]));
    assert_eq!(
        warning_texts(&r.log),
        vec![
            "2 attribute(s) on class `Shape` | Python has no attributes; dropped",
            "field values on `Shape` | Python has no equivalent; dropped",
            "Count -> count",
            "GetArea -> get_area",
            "generic arguments on `GetArea` | Python has no equivalent; dropped",
            "1 attribute(s) on function `GetArea` | Python has no attributes; dropped",
        ]
    );
}

#[test]
fn lua_module_from_ir_with_table_name() {
    let mut input = empty_namespace("greetings");
    input.constants = Some(vec![LanguageConstant {
        name: "version".to_string(),
        visibility: Visibility::Public,
        data_type: "string".to_string(),
        value: "\"1.0\"".to_string(),
        docs: None,
    }]);
    input.functions = Some(vec![LanguageFunction {
        name: "greet".to_string(),
        visibility: Visibility::Public,
        parameters: vec![LanguageFunctionParameter { name: "who".to_string(), param_type: "string".to_string(), default_value: None }],
        generic_args: Vec::new(),
        return_type: Some("string".to_string()),
        is_static: true,
        is_abstract: false,
        is_virtual: false,
        is_override: false,
        is_final: false,
        body: None,
        docs: None,
        annotations: Vec::new(),
        raw_attributes: Vec::new(),
    }]);
    input.structs = Some(Vec::new());
    input.namespaces = Some(vec![empty_namespace("inner")]);
    input.docs = Some(vec!["Greetings.".to_string()]);
    let r = LuaModule::from_ir(input, renamed("M", "greetings -> M"));
    assert_eq!(r.value.table_name, "M");
    assert_eq!(r.value.fields, vec![LuaField { name: "version".to_string(), value: "\"1.0\"".to_string() }]);
    assert_eq!(r.value.functions[0].parameters, vec!["who".to_string()]);
    assert_eq!(r.value.doc, Some("Greetings.".to_string()));
    assert_eq!(
        warning_texts(&r.log),
        vec![
            "greetings -> M",
            "Lua functions are untyped; dropping return type",
            "nested namespaces on `greetings` | Lua has no equivalent; dropped",
        ]
    );
}

fn sample_enum() -> LanguageEnum {
    LanguageEnum {
        name: "Color".to_string(),
        visibility: Visibility::Public,
        variants: vec![
            EnumVariant { name: "Red".to_string(), value: EnumVariantValue::NoValue, docs: None, raw_attributes: Vec::new() },
            EnumVariant { name: "Green".to_string(), value: EnumVariantValue::Value("7".to_string()), docs: None, raw_attributes: Vec::new() },
            EnumVariant { name: "Rgb".to_string(), value: EnumVariantValue::Tuple(vec!["u8".to_string()]), docs: None, raw_attributes: Vec::new() },
        ],
        underlying_type: None,
        docs: Some(vec!["Colours.".to_string()]),
        annotations: vec![Annotation::ReprC],
        raw_attributes: Vec::new(),
    }
}

#[test]
fn script_enums_from_ir_with_resolved_names() {
    let r = PythonEnum::from_ir(
        sample_enum(),
        PythonEnumNames { name: mapped("Color"), members: vec![renamed("RED", "Red -> RED"), mapped("GREEN"), mapped("RGB")] },
    );
    let values: Vec<String> = r.value.members.iter().map(|m| m.value.clone()).collect();
    assert_eq!(values, vec!["0".to_string(), "7".to_string(), "2".to_string()]);
    assert_eq!(r.value.members[0].name, "RED");
    assert_eq!(r.value.docstring, Some("Colours.".to_string()));
    assert_eq!(
        warning_texts(&r.log),
        vec!["1 attribute(s) on enum `Color` | Python has no attributes; dropped", "Red -> RED"]
    );
    let r = JsEnum::from_ir(
        sample_enum(),
        JsEnumNames { name: mapped("Color"), members: vec![mapped("Red"), mapped("Green"), mapped("Rgb")] },
    );
    assert!(r.value.export);
    assert_eq!(r.value.members[2].value, "2");
    assert_eq!(r.value.doc, Some("Colours.".to_string()));
    assert_eq!(warning_texts(&r.log), vec!["1 attribute(s) on enum `Color` | JavaScript has no attributes; dropped"]);
    let r = LuaEnum::from_ir(
        sample_enum(),
        LuaEnumNames { name: mapped("Color"), members: vec![mapped("Red"), mapped("Green"), mapped("Rgb")] },
    );
    assert_eq!(r.value.members[1].value, "7");
    assert_eq!(r.value.members[0].value, "0");
    assert_eq!(warning_texts(&r.log), vec!["1 attribute(s) on enum `Color` | Lua has no attributes; dropped"]);
}

#[test]
fn js_class_from_ir_with_resolved_names() {
    let method = LanguageFunction {
        name: "get_area".to_string(),
        visibility: Visibility::Public,
        parameters: vec![LanguageFunctionParameter { name: "scale".to_string(), param_type: "f64".to_string(), default_value: None }],
        generic_args: Vec::new(),
        return_type: Some("f64".to_string()),
        is_static: true,
        is_abstract: false,
        is_virtual: false,
        is_override: false,
        is_final: false,
        body: None,
        docs: None,
        annotations: vec![Annotation::Packed],
        raw_attributes: Vec::new(),
    };
    let field = LanguageField {
        name: "count".to_string(),
        field_type: "i32".to_string(),
        visibility: Visibility::Public,
        is_static: true,
        is_const: false,
        docs: None,
        annotations: Vec::new(),
        raw_attributes: Vec::new(),
    };
    let input = LanguageStruct {
        visibility: Visibility::Public,
        struct_kind: LanguageStructKind::Class,
        is_abstract: false,
        is_final: false,
        name: "Shape".to_string(),
        generic_args: Vec::new(),
        bases: vec![
            LanguageBase { name: "Base".to_string(), visibility: Visibility::Public },
            LanguageBase { name: "Mixin".to_string(), visibility: Visibility::Public },
        ],
        fields: vec![field],
        methods: vec![method],
        docs: None,
        annotations: Vec::new(),
        raw_attributes: Vec::new(),
    };
    let names = JsClassNames {
        name: mapped("Shape"),
        fields: vec![mapped("count")],
        methods: vec![JsFunctionNames {
            name: renamed("getArea", "get_area -> getArea"),
            parameters: vec![JsParameterNames { name: mapped("scale"), type_doc: Some(mapped("number")) }],
            return_type: Some(mapped("number")),
        }],
    };
    let r = JsClass::from_ir(input, names);
    assert_eq!(r.value.extends, Some("Base".to_string()));
    assert_eq!(r.value.fields[0].value, "null");
    assert!(r.value.fields[0].is_static);
    let m = &r.value.methods[0];
    assert_eq!(m.name, "getArea");
    assert!(m.is_static);
    assert_eq!(m.return_type, Some("number".to_string()));
    assert_eq!(m.parameters[0].type_doc, Some("number".to_string()));
    assert_eq!(r.value.doc, None);
    assert_eq!(
        warning_texts(&r.log),
        vec![
            "get_area -> getArea",
            "1 attribute(s) on function `get_area` | JavaScript has no attributes; dropped",
            "2 base classes on `Shape` | JavaScript has single inheritance; kept the first base, dropped the rest",
        ]
    );
}

#[test]
fn csharp_class_to_rust_reports_each_dropped_base() {
    let entity = CSharpType {
        kind: CSharpTypeKind::Class,
        name: "Boss".to_string(),
        visibility: CSharpVisibility::Public,
        is_abstract: false,
        is_sealed: false,
        is_static: false,
        is_unsafe: false,
        is_partial: false,
        generic_args: Vec::new(),
        base_class: Some("Entity".to_string()),
        interfaces: vec!["IDamageable".to_string()],
        fields: vec![CSharpField {
            name: "health".to_string(),
            field_type: "float".to_string(),
            visibility: CSharpVisibility::Public,
            is_static: false,
            is_const: false,
            is_readonly: false,
            initializer: None,
            attributes: Vec::new(),
            docs: None,
        }],
        properties: Vec::new(),
        methods: Vec::new(),
        attributes: Vec::new(),
        docs: None,
    };
    let ir = entity.to_ir(None);
    assert!(ir.log.warnings.is_empty());
    let names = RustStructNames {
        annotation_attributes: Vec::new(),
        fields: vec![RustFieldNames { name: mapped("health"), field_type: mapped("f32") }],
        methods: Vec::new(),
    };
    let boss = RustStruct::from_ir(ir.value, names);
    assert_eq!(boss.value.name, "Boss");
    assert_eq!(boss.value.fields[0].field_type, "f32");
    assert_eq!(boss.value.fields[0].visibility, RustVisibility::Pub);
    assert_eq!(
        warning_texts(&boss.log),
        vec![
            "base `Entity` of `Boss` | Rust has no inheritance; the base was dropped (use composition/traits)",
            "base `IDamageable` of `Boss` | Rust has no inheritance; the base was dropped (use composition/traits)",
        ]
    );
}

#[test]
fn rust_struct_from_ir_without_loss_logs_nothing() {
    let input = LanguageStruct {
        visibility: Visibility::Public,
        struct_kind: LanguageStructKind::Struct,
        is_abstract: false,
        is_final: false,
        name: "Player".to_string(),
        generic_args: Vec::new(),
        bases: Vec::new(),
        fields: Vec::new(),
        methods: Vec::new(),
        docs: None,
        annotations: Vec::new(),
        raw_attributes: vec![RawAttribute { source: TargetLanguage::Rust, text: "derive(Clone)".to_string() }],
    };
    let names = RustStructNames { annotation_attributes: Vec::new(), fields: Vec::new(), methods: Vec::new() };
    let r = RustStruct::from_ir(input, names);
    assert!(r.log.warnings.is_empty());
    assert_eq!(r.value.derives, vec!["Clone".to_string()]);
}

#[test]
fn cpp_field_from_ir_without_loss_logs_nothing() {
    let input = LanguageField {
        name: "count".to_string(),
        field_type: "int".to_string(),
        visibility: Visibility::Protected,
        is_static: false,
        is_const: true,
        docs: None,
        annotations: Vec::new(),
        raw_attributes: vec![RawAttribute { source: TargetLanguage::Cpp, text: "[[no_unique_address]]".to_string() }],
    };
    let r = CppField::from_ir(input, CppFieldNames { name: mapped("count"), field_type: mapped("int") });
    assert!(r.log.warnings.is_empty());
    assert_eq!(r.value.visibility, CppVisibility::Protected);
    assert!(r.value.is_const);
    assert_eq!(r.value.alignment, None);
}
