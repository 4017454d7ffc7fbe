use langprint::backends::csharp_backend::attributes::csharp_attribute_to_annotation;
use langprint::backends::csharp_backend::generic_types::{render_generic_decls, render_where_clauses};
use langprint::backends::csharp_backend::{
    infer_const_type, CSharpBackend, CSharpConstant, CSharpDefinition, CSharpDefinitionRenderOptions, CSharpEnum,
    CSharpEnumMember, CSharpField, CSharpGenericArgument, CSharpMethod, CSharpParameter, CSharpProperty, CSharpType,
    CSharpTypeKind, CSharpVisibility,
};
use langprint::backends::BackendMetadata;
use langprint::ir::Annotation;

fn method(name: &str) -> CSharpMethod {
    CSharpMethod {
        name: name.to_string(),
        visibility: CSharpVisibility::Public,
        parameters: Vec::new(),
        generic_args: Vec::new(),
        return_type: None,
        is_static: false,
        is_abstract: false,
        is_virtual: false,
        is_override: false,
        is_sealed: false,
        is_async: false,
        is_unsafe: false,
        body: None,
        attributes: Vec::new(),
        docs: None,
    }
}

fn field(name: &str, field_type: &str) -> CSharpField {
    CSharpField {
        name: name.to_string(),
        field_type: field_type.to_string(),
        visibility: CSharpVisibility::Private,
        is_static: false,
        is_const: false,
        is_readonly: false,
        initializer: None,
        attributes: Vec::new(),
        docs: None,
    }
}

fn property(name: &str) -> CSharpProperty {
    CSharpProperty {
        name: name.to_string(),
        prop_type: "int".to_string(),
        visibility: CSharpVisibility::Public,
        is_static: false,
        has_getter: true,
        has_setter: true,
        getter_body: None,
        setter_body: None,
        docs: None,
    }
}

fn class(name: &str) -> CSharpType {
    CSharpType {
        kind: CSharpTypeKind::Class,
        name: name.to_string(),
        visibility: CSharpVisibility::Public,
        is_abstract: false,
        is_sealed: false,
        is_static: false,
        is_unsafe: false,
        is_partial: false,
        generic_args: Vec::new(),
        base_class: None,
        interfaces: Vec::new(),
        fields: Vec::new(),
        properties: Vec::new(),
        methods: Vec::new(),
        attributes: Vec::new(),
        docs: None,
    }
}

#[test]
fn csharp_metadata_and_visibility() {
    let backend = CSharpBackend::default();
    assert_eq!(backend.language_name(), "C#");
    assert_eq!(backend.supported_features().len(), 6);
    assert_eq!(CSharpVisibility::Default.prefix(), "");
    assert_eq!(CSharpVisibility::ProtectedInternal.prefix(), "protected internal ");
    assert_eq!(CSharpVisibility::PrivateProtected.as_str(), "private protected");
}

#[test]
fn csharp_kind_rules() {
    assert_eq!(CSharpTypeKind::Interface.keyword(), "interface");
    assert_eq!(CSharpTypeKind::Record.keyword(), "record");
    assert!(CSharpTypeKind::Class.can_be_sealed());
    assert!(CSharpTypeKind::Record.can_be_abstract());
    assert!(!CSharpTypeKind::Struct.can_be_sealed());
    assert!(!CSharpTypeKind::Interface.can_be_abstract());
    assert!(!CSharpTypeKind::Struct.can_be_unsafe());
    assert!(CSharpTypeKind::Interface.can_be_unsafe());
}

#[test]
fn csharp_infer_const_type() {
    assert_eq!(infer_const_type(" true "), Some("bool"));
    assert_eq!(infer_const_type("false"), Some("bool"));
    assert_eq!(infer_const_type("\"hi\""), Some("string"));
    assert_eq!(infer_const_type("\""), None);
    assert_eq!(infer_const_type("'a'"), Some("char"));
    assert_eq!(infer_const_type("0xFF"), Some("int"));
    assert_eq!(infer_const_type("0X1f"), Some("int"));
    assert_eq!(infer_const_type("0x-1"), Some("int"));
    assert_eq!(infer_const_type("0x10000000000000000"), None);
    assert_eq!(infer_const_type("-2147483648"), Some("int"));
    assert_eq!(infer_const_type("2147483648"), Some("long"));
    assert_eq!(infer_const_type("+12"), Some("int"));
    assert_eq!(infer_const_type("9223372036854775808"), Some("double"));
    assert_eq!(infer_const_type("1.5"), Some("double"));
    assert_eq!(infer_const_type(".5e-3"), Some("double"));
    assert_eq!(infer_const_type("1."), Some("double"));
    assert_eq!(infer_const_type("-inf"), Some("double"));
    assert_eq!(infer_const_type("NaN"), Some("double"));
    assert_eq!(infer_const_type("Infinity"), Some("double"));
    assert_eq!(infer_const_type("."), None);
    assert_eq!(infer_const_type("1e"), None);
    assert_eq!(infer_const_type("abc"), None);
    assert_eq!(infer_const_type(""), None);
}

#[test]
fn csharp_attribute_annotations() {
    assert_eq!(
        csharp_attribute_to_annotation("StructLayout(LayoutKind.Sequential)"),
        Some(Annotation::ReprC)
    );
    assert_eq!(
        csharp_attribute_to_annotation("StructLayout( LayoutKind.Sequential, Pack = 1 )"),
        Some(Annotation::Packed)
    );
    assert_eq!(csharp_attribute_to_annotation("Serializable"), None);
}

#[test]
fn csharp_generic_helpers() {
    let params = vec![
        CSharpGenericArgument { name: "T".to_string(), constraints: Some("class, new()".to_string()) },
        CSharpGenericArgument { name: "U".to_string(), constraints: None },
    ];
    assert_eq!(render_generic_decls(&params), "<T, U>");
    assert_eq!(render_where_clauses(&params), " where T : class, new()");
    assert_eq!(render_generic_decls(&Vec::new()), "");
}

#[test]
fn csharp_definitions_and_constants() {
    let backend = CSharpBackend::default();
    let mut indent_level: i32 = 0;
    let flag = CSharpDefinition { name: "DEBUG".to_string(), value: None, docs: None };
    assert_eq!(
        backend.render_definition(&flag, None, None, None, &mut indent_level),
        "public const bool DEBUG = true;\n"
    );
    let name = CSharpDefinition { name: "NAME".to_string(), value: Some("\"x\"".to_string()), docs: None };
    assert_eq!(
        backend.render_definition(&name, None, None, None, &mut indent_level),
        "public const string NAME = \"x\";\n"
    );
    let expr = CSharpDefinition { name: "SIZE".to_string(), value: Some("A + B".to_string()), docs: None };
    let options = CSharpDefinitionRenderOptions { const_type: "uint", render_docs: true };
    assert_eq!(
        backend.render_definition(&expr, None, None, Some(&options), &mut indent_level),
        "public const uint SIZE = A + B;\n"
    );
    let constant = CSharpConstant {
        name: "Limit".to_string(),
        visibility: CSharpVisibility::Internal,
        data_type: "int".to_string(),
        value: "4".to_string(),
        docs: Some(vec!["The limit.".to_string()]),
    };
    assert_eq!(
        backend.render_constant(&constant, None, None, None, &mut indent_level),
        "/// The limit.\ninternal const int Limit = 4;\n"
    );
}

#[test]
fn csharp_enum() {
    let backend = CSharpBackend::default();
    let input = CSharpEnum {
        name: "Mode".to_string(),
        visibility: CSharpVisibility::Public,
        underlying_type: Some("byte".to_string()),
        members: vec![
            CSharpEnumMember { name: "None".to_string(), value: Some("0".to_string()), docs: None },
            CSharpEnumMember { name: "Read".to_string(), value: Some("1".to_string()), docs: None },
        ],
        is_flags: true,
        attributes: vec!["Serializable".to_string()],
        docs: None,
    };
    let mut indent_level: i32 = 0;
    assert_eq!(
        backend.render_enum(&input, None, None, None, None, &mut indent_level),
        "[Flags]\n[Serializable]\npublic enum Mode : byte\n{\n    None = 0,\n    Read = 1,\n}\n"
    );
}

#[test]
fn csharp_method_signature() {
    let backend = CSharpBackend::default();
    let mut m = method("Load");
    m.is_async = true;
    m.is_override = true;
    m.is_sealed = true;
    m.generic_args = vec![CSharpGenericArgument { name: "T".to_string(), constraints: Some("struct".to_string()) }];
    m.parameters = vec![CSharpParameter {
        name: "path".to_string(),
        param_type: "string".to_string(),
        default_value: Some("null".to_string()),
    }];
    m.body = Some(vec!["await Task.Yield();".to_string()]);
    let mut indent_level: i32 = 0;
    assert_eq!(
        backend.render_function(&m, None, None, None, &mut indent_level),
        "public override sealed async void Load<T>(string path = null) where T : struct\n{\n    await Task.Yield();\n}\n"
    );
    let mut plain = method("Stop");
    plain.is_sealed = true;
    assert_eq!(backend.render_function(&plain, None, None, None, &mut indent_level), "public void Stop();\n");
}

#[test]
fn csharp_class_members() {
    let backend = CSharpBackend::default();
    let mut input = class("Counter");
    input.is_sealed = true;
    input.is_abstract = true;
    input.base_class = Some("Base".to_string());
    input.interfaces = vec!["IDisposable".to_string()];
    let mut count = field("count", "int");
    count.initializer = Some("0".to_string());
    count.is_readonly = true;
    input.fields = vec![count];
    let mut total = property("Total");
    total.getter_body = Some(vec!["return count;".to_string()]);
    total.has_setter = false;
    input.properties = vec![property("Value"), total];
    input.methods = vec![method("Dispose")];
    let mut indent_level: i32 = 0;
    assert_eq!(
        backend.render_struct(&input, None, None, None, &mut indent_level),
        "public abstract sealed class Counter : Base, IDisposable\n{\n    private readonly int count = 0;\n\n    public int Value { get; set; }\n\n    public int Total\n    {\n        get\n        {\n            return count;\n        }\n    }\n\n    public void Dispose();\n}\n"
    );
}

#[test]
fn csharp_struct_kind_drops_sealed() {
    let backend = CSharpBackend::default();
    let mut input = class("Point");
    input.kind = CSharpTypeKind::Struct;
    input.is_sealed = true;
    input.is_partial = true;
    let mut indent_level: i32 = 0;
    assert_eq!(
        backend.render_struct(&input, None, None, None, &mut indent_level),
        "public partial struct Point\n{\n}\n"
    );
}

#[test]
fn csharp_interface_drops_abstract_and_sealed() {
    let backend = CSharpBackend::default();
    let mut input = class("IShape");
    input.kind = CSharpTypeKind::Interface;
    input.is_abstract = true;
    input.is_sealed = true;
    input.is_static = true;
    let mut indent_level: i32 = 0;
    assert_eq!(
        backend.render_struct(&input, None, None, None, &mut indent_level),
        "public static interface IShape\n{\n}\n"
    );
}

#[test]
fn csharp_integer_literal_types() {
    assert_eq!(infer_const_type("0"), Some("int"));
    assert_eq!(infer_const_type("2147483647"), Some("int"));
    assert_eq!(infer_const_type("-2147483649"), Some("long"));
    assert_eq!(infer_const_type("-9223372036854775808"), Some("long"));
    assert_eq!(infer_const_type("9223372036854775807"), Some("long"));
}

#[test]
fn csharp_unsafe_on_classes_but_not_structs() {
    let backend = CSharpBackend::default();
    let mut input = class("Buffer");
    input.is_unsafe = true;
    input.is_partial = true;
    let mut indent_level: i32 = 0;
    assert_eq!(
        backend.render_struct(&input, None, None, None, &mut indent_level),
        "public unsafe partial class Buffer\n{\n}\n"
    );
    input.kind = CSharpTypeKind::Struct;
    assert_eq!(
        backend.render_struct(&input, None, None, None, &mut indent_level),
        "public partial struct Buffer\n{\n}\n"
    );
}

#[test]
fn csharp_async_method_without_return_type_is_void() {
    let backend = CSharpBackend::default();
    let mut input = class("Job");
    let mut run = method("Run");
    run.is_async = true;
    run.is_sealed = true;
    input.methods = vec![run];
    let mut indent_level: i32 = 0;
    assert_eq!(
        backend.render_struct(&input, None, None, None, &mut indent_level),
        "public class Job\n{\n    public async void Run();\n}\n"
    );
}

#[test]
fn csharp_hex_literals_follow_int_then_long() {
    assert_eq!(infer_const_type("0x7FFFFFFF"), Some("int"));
    assert_eq!(infer_const_type("0xFFFFFFFFFF"), Some("long"));
    assert_eq!(infer_const_type(" 0X80000000 "), Some("long"));
    assert_eq!(infer_const_type("0x10000000000000000"), None);
}
