use langprint::backends::cpp_backend::{
    CppBackend, CppBase, CppConstant, CppDefinition, CppEnum, CppEnumVariant, CppEnumVariantRenderOptions, CppField,
    CppFunction, CppFunctionRenderOptions, CppNamespace, CppParameter, CppStruct, CppStructKind,
    CppStructRenderOptions, CppVisibility, DocsStyle,
};
use langprint::backends::BackendMetadata;
use langprint::text::{IndentStyle, NewLineStyle};

fn test_backend() -> CppBackend {
    CppBackend {
        new_line: NewLineStyle::LF,
        open_brace_on_new_line: false,
        docs_style: DocsStyle::DoubleSlash,
        indent_style: IndentStyle::Spaces,
        indent_size: 4,
    }
}

fn plain_field(name: &str, field_type: &str, alignment: Option<u32>) -> CppField {
    CppField {
        name: name.to_string(),
        field_type: field_type.to_string(),
        visibility: CppVisibility::Public,
        array_size: None,
        bit_field_size: None,
        alignment,
        is_static: false,
        is_const: false,
        is_inline: false,
        initialization_value: None,
        inline_comment: None,
        docs: None,
    }
}

fn struct_with(alignment: Option<u32>, fields: Vec<CppField>) -> CppStruct {
    CppStruct {
        struct_kind: CppStructKind::Struct,
        is_final: false,
        alignment,
        name: "Foo".to_string(),
        template_params: Vec::new(),
        bases: Vec::new(),
        fields,
        methods: Vec::new(),
        docs: None,
    }
}

fn free_function(name: &str, is_extern_c: bool) -> CppFunction {
    CppFunction {
        name: name.to_string(),
        parent_name: None,
        visibility: CppVisibility::Public,
        parameters: Vec::new(),
        template_params: Vec::new(),
        return_type: Some("void".to_string()),
        is_static: false,
        is_const: false,
        is_virtual: false,
        is_pure_virtual: false,
        is_inline: false,
        is_noexcept: false,
        is_extern_c,
        is_override: false,
        is_final: false,
        is_friend: false,
        is_deleted: false,
        is_default: false,
        body: None,
        docs: None,
    }
}

#[test]
fn renders_alignas_on_field() {
    let backend: CppBackend = test_backend();
    let input: CppStruct = struct_with(
        None,
        vec![plain_field("normal", "int", None), plain_field("cctor_thread", "size_t", Some(8))],
    );

    let mut indent_level: i32 = 0;
    let output: String = backend.render_struct(&input, None, None, None, &mut indent_level);

    assert!(output.contains("alignas(8) size_t cctor_thread;"), "output was: {output}");
}

#[test]
fn renders_alignas_on_struct() {
    let backend: CppBackend = test_backend();
    let input: CppStruct = struct_with(Some(16), vec![plain_field("normal", "int", None)]);

    let mut indent_level: i32 = 0;
    let output: String = backend.render_struct(&input, None, None, None, &mut indent_level);

    assert!(output.contains("struct alignas(16) Foo"), "output was: {output}");
}

#[test]
fn renders_extern_c_specifier() {
    let backend: CppBackend = test_backend();
    let input = free_function("polyplug_init", true);

    let mut indent_level: i32 = 0;
    let output: String = backend.render_function(&input, None, None, None, &mut indent_level);

    assert!(output.contains("extern \"C\" void polyplug_init("), "output was: {output}");
}

#[test]
fn normal_function_omits_extern_c() {
    let backend: CppBackend = test_backend();
    let input = free_function("plain", false);

    let mut indent_level: i32 = 0;
    let output: String = backend.render_function(&input, None, None, None, &mut indent_level);

    assert!(!output.contains("extern"), "output was: {output}");
}

#[test]
fn cpp_metadata() {
    let backend = test_backend();
    assert_eq!(backend.language_name(), "C++");
    assert_eq!(backend.supported_features().len(), 7);
}

#[test]
fn cpp_struct_exact_output() {
    let backend = test_backend();
    let input = struct_with(Some(16), vec![plain_field("normal", "int", None)]);
    let mut indent_level: i32 = 0;
    let output = backend.render_struct(&input, None, None, None, &mut indent_level);
    assert_eq!(output, "struct alignas(16) Foo {\npublic:\n    int normal;\n\n};\n");
    assert_eq!(indent_level, 0);
}

#[test]
fn cpp_struct_labels_only_on_change() {
    let backend = test_backend();
    let mut a = plain_field("a", "int", None);
    a.visibility = CppVisibility::Default;
    let b = plain_field("b", "int", None);
    let mut c = plain_field("c", "int", None);
    c.visibility = CppVisibility::Private;
    let mut input = struct_with(None, vec![a, b, c]);
    input.struct_kind = CppStructKind::Class;
    let options = CppStructRenderOptions { render_default_visibility: false, ..CppStructRenderOptions::default() };
    let mut indent_level: i32 = 0;
    let output = backend.render_struct(&input, None, None, Some(&options), &mut indent_level);
    assert_eq!(
        output,
        "class Foo {\n    int a;\n\npublic:\n    int b;\n\nprivate:\n    int c;\n\n};\n"
    );
}

#[test]
fn cpp_class_default_label_is_private() {
    let backend = test_backend();
    let mut a = plain_field("a", "int", None);
    a.visibility = CppVisibility::Default;
    let mut input = struct_with(None, vec![a]);
    input.struct_kind = CppStructKind::Class;
    let mut indent_level: i32 = 0;
    let output = backend.render_struct(&input, None, None, None, &mut indent_level);
    assert_eq!(output, "class Foo {\nprivate:\n    int a;\n\n};\n");
}

#[test]
fn cpp_struct_aligned_fields() {
    let backend = test_backend();
    let mut b = plain_field("bb", "unsigned long", None);
    b.bit_field_size = Some("3".to_string());
    b.inline_comment = Some("flags".to_string());
    let input = struct_with(None, vec![plain_field("a", "int", None), b]);
    let options = CppStructRenderOptions { align_fields: true, ..CppStructRenderOptions::default() };
    let mut indent_level: i32 = 0;
    let output = backend.render_struct(&input, None, None, Some(&options), &mut indent_level);
    assert_eq!(
        output,
        "struct Foo {\npublic:\n    int           a;    \n    unsigned long bb: 3; // flags\n\n};\n"
    );
}

#[test]
fn cpp_struct_unaligned_field_parts() {
    let backend = test_backend();
    let mut f = plain_field("buf", "char", None);
    f.array_size = Some("16".to_string());
    f.bit_field_size = Some("4".to_string());
    f.initialization_value = Some("0".to_string());
    f.is_static = true;
    f.is_const = true;
    f.is_inline = true;
    let input = struct_with(None, vec![f]);
    let mut indent_level: i32 = 0;
    let output = backend.render_struct(&input, None, None, None, &mut indent_level);
    assert!(output.contains("    inline static const char buf[16] : 4 = 0;\n"), "output was: {output}");
}

#[test]
fn cpp_struct_bases_and_methods() {
    let backend = test_backend();
    let mut method = free_function("run", false);
    method.visibility = CppVisibility::Protected;
    method.is_virtual = true;
    let mut input = struct_with(None, vec![plain_field("x", "int", None)]);
    input.struct_kind = CppStructKind::Class;
    input.is_final = true;
    input.bases = vec![
        CppBase { name: "Base".to_string(), visibility: CppVisibility::Default },
        CppBase { name: "Other".to_string(), visibility: CppVisibility::Public },
    ];
    input.methods = vec![method];
    let mut indent_level: i32 = 0;
    let output = backend.render_struct(&input, None, None, None, &mut indent_level);
    assert_eq!(
        output,
        "class Foo final : private Base, public Other {\npublic:\n    int x;\n\nprotected:\n    /* virtual */ void run();\n};\n"
    );
}

#[test]
fn cpp_function_definition_with_body() {
    let backend = test_backend();
    let mut f = free_function("area", false);
    f.parent_name = Some("Shape".to_string());
    f.return_type = Some("double".to_string());
    f.is_const = true;
    f.parameters = vec![CppParameter { name: "scale".to_string(), param_type: "int".to_string(), default_value: None }];
    f.body = Some(vec!["return w * h;".to_string(), "   ".to_string()]);
    let options = CppFunctionRenderOptions { render_definition: true, ..CppFunctionRenderOptions::default() };
    let mut indent_level: i32 = 1;
    let output = backend.render_function(&f, Some("<"), Some(">"), Some(&options), &mut indent_level);
    assert_eq!(
        output,
        "<    double Shape::area(int scale) const {\n        return w * h;\n\n    }>"
    );
    assert_eq!(indent_level, 1);
}

#[test]
fn cpp_function_placeholder_body() {
    let backend = test_backend();
    let f = free_function("todo", false);
    let options = CppFunctionRenderOptions { force_render_body: true, ..CppFunctionRenderOptions::default() };
    let mut indent_level: i32 = 0;
    let output = backend.render_function(&f, None, None, Some(&options), &mut indent_level);
    assert_eq!(output, "void todo() {\n    // Function body\n}");
}

#[test]
fn cpp_enum_aligned_values() {
    let backend = test_backend();
    let input = CppEnum {
        name: "Color".to_string(),
        variants: vec![
            CppEnumVariant { name: "Red".to_string(), value: Some("0".to_string()), docs: None },
            CppEnumVariant { name: "Green".to_string(), value: None, docs: Some(vec!["the green one".to_string()]) },
        ],
        is_enum_class: true,
        underlying_type: Some("uint8_t".to_string()),
        docs: None,
    };
    let variant_options = CppEnumVariantRenderOptions { align_value: true, render_docs: true };
    let mut indent_level: i32 = 0;
    let output = backend.render_enum(&input, None, None, None, Some(&variant_options), &mut indent_level);
    assert_eq!(
        output,
        "enum class Color: uint8_t {\n    Red   = 0,\n    // the green one\n    Green,\n};\n"
    );
}

#[test]
fn cpp_definition_and_constant() {
    let backend = test_backend();
    let define = CppDefinition { name: "MAX".to_string(), value: Some("8".to_string()), docs: None };
    let mut indent_level: i32 = 0;
    assert_eq!(backend.render_definition(&define, None, None, None, &mut indent_level), "#define MAX 8");
    let constant = CppConstant {
        name: "kLimit".to_string(),
        visibility: CppVisibility::Public,
        data_type: "int".to_string(),
        value: "3".to_string(),
        docs: None,
    };
    assert_eq!(
        backend.render_constant(&constant, None, None, None, &mut indent_level),
        "public:\nconst int kLimit = 3;\n"
    );
}

#[test]
fn cpp_namespace_blocks() {
    let backend = test_backend();
    let inner = CppNamespace {
        name: "detail".to_string(),
        defines: None,
        constants: None,
        enums: None,
        structs: None,
        functions: Some(vec![free_function("helper", false)]),
        namespaces: None,
    };
    let outer = CppNamespace {
        name: "app".to_string(),
        defines: Some(vec![CppDefinition { name: "ON".to_string(), value: None, docs: None }]),
        constants: None,
        enums: None,
        structs: None,
        functions: None,
        namespaces: Some(vec![inner]),
    };
    let mut indent_level: i32 = 0;
    let output = backend.render_namespace(&outer, None, None, None, &mut indent_level);
    assert_eq!(
        output,
        "namespace app {\n    #define ON\n\n    namespace detail {\n        void helper();\n    }\n}\n"
    );
    assert_eq!(indent_level, 0);
}

#[test]
fn cpp_empty_namespace() {
    let backend = test_backend();
    let ns = CppNamespace {
        name: "empty".to_string(),
        defines: None,
        constants: None,
        enums: None,
        structs: None,
        functions: None,
        namespaces: None,
    };
    let mut indent_level: i32 = 0;
    assert_eq!(backend.render_namespace(&ns, None, None, None, &mut indent_level), "namespace empty {\n}\n");
}

#[test]
fn cpp_definition_drops_declaration_specifiers() {
    let backend = test_backend();
    let mut f = free_function("tick", false);
    f.is_friend = true;
    f.is_static = true;
    f.is_virtual = true;
    f.is_inline = true;
    f.parent_name = Some("Clock".to_string());
    let options = CppFunctionRenderOptions { render_definition: true, render_body_if_friend: false, ..CppFunctionRenderOptions::default() };
    let mut indent_level: i32 = 0;
    assert_eq!(
        backend.render_function(&f, None, None, Some(&options), &mut indent_level),
        "void Clock::tick() {\n    // Function body\n}"
    );
    let declaration = backend.render_function(&f, None, None, None, &mut indent_level);
    assert_eq!(declaration, "friend inline static /* virtual */ void tick() {\n    // Function body\n}");
}

#[test]
fn cpp_union_default_base_is_public() {
    let backend = test_backend();
    let mut input = struct_with(None, Vec::new());
    input.struct_kind = CppStructKind::Union;
    input.bases = vec![CppBase { name: "B".to_string(), visibility: CppVisibility::Default }];
    let mut indent_level: i32 = 0;
    assert_eq!(backend.render_struct(&input, None, None, None, &mut indent_level), "union Foo : public B {\n\n};\n");
}

fn template_param(name: &str, keyword: &str, default_value: Option<&str>) -> langprint::backends::cpp_backend::CppGenericArgument {
    langprint::backends::cpp_backend::CppGenericArgument {
        name: name.to_string(),
        keyword: keyword.to_string(),
        default_value: default_value.map(|d| d.to_string()),
    }
}

#[test]
fn cpp_function_template_renders_body() {
    let backend = test_backend();
    let mut f = free_function("tmpl", false);
    f.template_params = vec![template_param("T", "", None), template_param("U", "class", Some("int"))];
    let mut indent_level: i32 = 0;
    assert_eq!(
        backend.render_function(&f, None, None, None, &mut indent_level),
        "template<typename T, class U = int>\nvoid tmpl() {\n    // Function body\n}"
    );
}

#[test]
fn cpp_struct_template_line() {
    let backend = test_backend();
    let mut input = struct_with(None, Vec::new());
    input.template_params = vec![template_param("T", "", None)];
    let mut indent_level: i32 = 0;
    assert_eq!(
        backend.render_struct(&input, None, None, None, &mut indent_level),
        "template<typename T>\nstruct Foo {\n\n};\n"
    );
    let options = CppStructRenderOptions { render_template_param_keywords: false, ..CppStructRenderOptions::default() };
    assert_eq!(
        backend.render_struct(&input, None, None, Some(&options), &mut indent_level),
        "template<T>\nstruct Foo {\n\n};\n"
    );
}

#[test]
fn cpp_crlf_and_tabs() {
    let backend = CppBackend {
        new_line: NewLineStyle::CRLF,
        open_brace_on_new_line: true,
        docs_style: DocsStyle::TripleSlash,
        indent_style: IndentStyle::Tabs,
        indent_size: 4,
    };
    let input = CppEnum {
        name: "E".to_string(),
        variants: vec![CppEnumVariant { name: "A".to_string(), value: None, docs: None }],
        is_enum_class: false,
        underlying_type: None,
        docs: Some(vec!["Doc.".to_string()]),
    };
    let mut indent_level: i32 = 1;
    assert_eq!(
        backend.render_enum(&input, None, None, None, None, &mut indent_level),
        "\t/// Doc.\r\n\tenum E\r\n\t{\r\n\t\tA,\r\n\t};\r\n"
    );
}
