use langprint::backends::rust_backend::attributes::rust_attribute_to_annotation;
use langprint::backends::rust_backend::generic_types::{render_generic_decls, render_generic_uses};
use langprint::backends::rust_backend::{
    RustBackend, RustConstant, RustDefinition, RustEnum, RustEnumRenderOptions, RustEnumVariant, RustEnumVariantValue,
    RustExternBlock, RustField, RustFunction, RustGenericArgument, RustModule, RustParameter, RustSelfKind, RustStruct,
    RustTrait, RustVisibility,
};
use langprint::backends::BackendMetadata;
use langprint::ir::Annotation;

fn function(name: &str) -> RustFunction {
    RustFunction {
        name: name.to_string(),
        visibility: RustVisibility::Pub,
        self_kind: RustSelfKind::NoSelf,
        parameters: Vec::new(),
        generic_args: Vec::new(),
        return_type: None,
        is_unsafe: false,
        is_async: false,
        is_const: false,
        abi: None,
        body: None,
        comments: Vec::new(),
        return_attributes: Vec::new(),
        attributes: Vec::new(),
        docs: None,
    }
}

fn field(name: &str, field_type: &str) -> RustField {
    RustField {
        name: name.to_string(),
        field_type: field_type.to_string(),
        visibility: RustVisibility::Pub,
        attributes: Vec::new(),
        docs: None,
    }
}

fn generic(name: &str) -> RustGenericArgument {
    RustGenericArgument { name: name.to_string(), is_lifetime: false, const_type: None, bounds: None, default_value: None }
}

#[test]
fn rust_metadata() {
    let backend = RustBackend::default();
    assert_eq!(backend.language_name(), "Rust");
    assert_eq!(backend.indent(2), "        ");
}

#[test]
fn rust_visibility_prefix() {
    assert_eq!(RustVisibility::Private.prefix(), "");
    assert_eq!(RustVisibility::Pub.prefix(), "pub ");
    assert_eq!(RustVisibility::PubCrate.prefix(), "pub(crate) ");
    assert_eq!(RustVisibility::PubSuper.prefix(), "pub(super) ");
}

#[test]
fn rust_generic_lists() {
    let mut lifetime = generic("''a");
    lifetime.is_lifetime = true;
    let mut bounded = generic("T");
    bounded.bounds = Some("Clone".to_string());
    bounded.default_value = Some("u8".to_string());
    let mut constant = generic("N");
    constant.const_type = Some("usize".to_string());
    let params = vec![lifetime, bounded, constant];
    assert_eq!(render_generic_decls(&params), "<'a, T: Clone = u8, const N: usize>");
    assert_eq!(render_generic_uses(&params), "<'a, T, N>");
    assert_eq!(render_generic_decls(&Vec::new()), "");
}

#[test]
fn rust_function_full_signature() {
    let backend = RustBackend::default();
    let mut f = function("get");
    f.self_kind = RustSelfKind::Ref;
    f.is_const = true;
    f.is_unsafe = true;
    f.abi = Some("C".to_string());
    f.generic_args = vec![generic("T")];
    f.parameters = vec![RustParameter {
        name: "x".to_string(),
        param_type: "T".to_string(),
        attributes: vec!["inline".to_string()],
    }];
    f.return_type = Some("T".to_string());
    f.body = Some(vec!["x".to_string()]);
    f.comments = vec!["note".to_string()];
    f.docs = Some(vec!["Gets it.".to_string()]);
    let mut indent_level: i32 = 0;
    let output = backend.render_function(&f, None, None, None, &mut indent_level);
    assert_eq!(
        output,
        "/// Gets it.\n// note\npub const unsafe extern \"C\" fn get<T>(&self, #[inline] x: T) -> T {\n    x\n}\n"
    );
}

#[test]
fn rust_struct_with_impl() {
    let backend = RustBackend::default();
    let mut method = function("new");
    method.return_type = Some("Self".to_string());
    method.body = Some(vec!["todo!()".to_string()]);
    let input = RustStruct {
        name: "Point".to_string(),
        visibility: RustVisibility::Pub,
        generic_args: vec![generic("T")],
        fields: vec![field("x", "T"), field("y", "T")],
        methods: vec![method],
        derives: vec!["Debug".to_string(), "Clone".to_string()],
        attributes: vec!["repr(C)".to_string()],
        is_tuple: false,
        docs: None,
    };
    let mut indent_level: i32 = 0;
    let output = backend.render_struct(&input, None, None, None, &mut indent_level);
    assert_eq!(
        output,
        "#[derive(Debug, Clone)]\n#[repr(C)]\npub struct Point<T> {\n    pub x: T,\n    pub y: T,\n}\n\nimpl<T> Point<T> {\n    pub fn new() -> Self {\n        todo!()\n    }\n}\n"
    );
}

#[test]
fn rust_tuple_struct() {
    let backend = RustBackend::default();
    let mut hidden = field("0", "u8");
    hidden.visibility = RustVisibility::Private;
    let input = RustStruct {
        name: "Pair".to_string(),
        visibility: RustVisibility::PubCrate,
        generic_args: Vec::new(),
        fields: vec![field("0", "u32"), hidden],
        methods: Vec::new(),
        derives: Vec::new(),
        attributes: Vec::new(),
        is_tuple: true,
        docs: None,
    };
    let mut indent_level: i32 = 0;
    assert_eq!(
        backend.render_struct(&input, None, None, None, &mut indent_level),
        "pub(crate) struct Pair(pub u32, u8);\n"
    );
}

#[test]
fn rust_enum_variants() {
    let backend = RustBackend::default();
    let input = RustEnum {
        name: "Shape".to_string(),
        visibility: RustVisibility::Pub,
        variants: vec![
            RustEnumVariant { name: "Empty".to_string(), value: RustEnumVariantValue::Unit, docs: None },
            RustEnumVariant {
                name: "Code".to_string(),
                value: RustEnumVariantValue::Discriminant("3".to_string()),
                docs: None,
            },
            RustEnumVariant {
                name: "Pair".to_string(),
                value: RustEnumVariantValue::Tuple(vec!["u8".to_string(), "u16".to_string()]),
                docs: None,
            },
            RustEnumVariant {
                name: "Rect".to_string(),
                value: RustEnumVariantValue::Struct(vec![
                    ("w".to_string(), "u32".to_string()),
                    ("h".to_string(), "u32".to_string()),
                ]),
                docs: None,
            },
        ],
        repr: Some("u8".to_string()),
        derives: vec!["Debug".to_string()],
        docs: None,
    };
    let options = RustEnumRenderOptions { attributes_before_derives: true, ..RustEnumRenderOptions::default() };
    let mut indent_level: i32 = 0;
    assert_eq!(
        backend.render_enum(&input, None, None, Some(&options), &mut indent_level),
        "#[repr(u8)]\n#[derive(Debug)]\npub enum Shape {\n    Empty,\n    Code = 3,\n    Pair(u8, u16),\n    Rect { w: u32, h: u32 },\n}\n"
    );
}

#[test]
fn rust_definition_and_constant() {
    let backend = RustBackend::default();
    let mut indent_level: i32 = 0;
    let with_value = RustDefinition { name: "MAX".to_string(), value: Some("8".to_string()), docs: None };
    assert_eq!(
        backend.render_definition(&with_value, None, None, None, &mut indent_level),
        "pub const MAX: i64 = 8;\n"
    );
    let marker = RustDefinition { name: "ON".to_string(), value: None, docs: None };
    assert_eq!(backend.render_definition(&marker, None, None, None, &mut indent_level), "pub const ON: () = ();\n");
    let constant = RustConstant {
        name: "COUNT".to_string(),
        visibility: RustVisibility::Private,
        data_type: "usize".to_string(),
        value: "2".to_string(),
        is_static: true,
        docs: None,
    };
    assert_eq!(
        backend.render_constant(&constant, Some("// x\n"), None, None, &mut indent_level),
        "// x\nstatic COUNT: usize = 2;\n"
    );
}

#[test]
fn rust_trait_and_extern_block() {
    let backend = RustBackend::default();
    let mut method = function("area");
    method.visibility = RustVisibility::Private;
    method.self_kind = RustSelfKind::Ref;
    method.return_type = Some("f64".to_string());
    let shape = RustTrait {
        name: "Shape".to_string(),
        visibility: RustVisibility::Pub,
        generic_args: Vec::new(),
        supertraits: vec!["Debug".to_string(), "Clone".to_string()],
        methods: vec![method],
        attributes: Vec::new(),
        docs: None,
    };
    let mut indent_level: i32 = 0;
    assert_eq!(
        backend.render_trait(&shape, None, &mut indent_level),
        "pub trait Shape: Debug + Clone {\n    fn area(&self) -> f64;\n}\n"
    );
    let marker = RustTrait {
        name: "Marker".to_string(),
        visibility: RustVisibility::Private,
        generic_args: Vec::new(),
        supertraits: Vec::new(),
        methods: Vec::new(),
        attributes: Vec::new(),
        docs: None,
    };
    assert_eq!(backend.render_trait(&marker, None, &mut indent_level), "trait Marker {}\n");
    let mut item = function("abs");
    item.parameters = vec![RustParameter { name: "x".to_string(), param_type: "i32".to_string(), attributes: Vec::new() }];
    item.return_type = Some("i32".to_string());
    let block = RustExternBlock { abi: "C".to_string(), is_unsafe: true, items: vec![item], docs: None };
    assert_eq!(
        backend.render_extern_block(&block, None, &mut indent_level),
        "unsafe extern \"C\" {\n    pub fn abs(x: i32) -> i32;\n}\n"
    );
}

#[test]
fn rust_module_blocks() {
    let backend = RustBackend::default();
    let inner = RustModule {
        name: "inner".to_string(),
        visibility: RustVisibility::Private,
        defines: None,
        constants: None,
        enums: None,
        structs: None,
        functions: Some(vec![function("f")]),
        modules: None,
        docs: None,
    };
    let outer = RustModule {
        name: "outer".to_string(),
        visibility: RustVisibility::Pub,
        defines: Some(vec![RustDefinition { name: "ON".to_string(), value: None, docs: None }]),
        constants: None,
        enums: None,
        structs: None,
        functions: None,
        modules: Some(vec![inner]),
        docs: Some(vec!["Outer.".to_string()]),
    };
    let mut indent_level: i32 = 0;
    assert_eq!(
        backend.render_namespace(&outer, None, None, None, &mut indent_level),
        "/// Outer.\npub mod outer {\n    pub const ON: () = ();\n\n    mod inner {\n        pub fn f();\n    }\n}\n"
    );
    assert_eq!(indent_level, 0);
}

#[test]
fn rust_attribute_annotations() {
    assert_eq!(rust_attribute_to_annotation("repr(C)"), Some(Annotation::ReprC));
    assert_eq!(rust_attribute_to_annotation("  repr(packed) "), Some(Annotation::Packed));
    assert_eq!(rust_attribute_to_annotation("repr(align(16))"), Some(Annotation::Aligned(16)));
    assert_eq!(rust_attribute_to_annotation("repr(align( +8 ))"), Some(Annotation::Aligned(8)));
    assert_eq!(rust_attribute_to_annotation("repr(align(4294967296))"), None);
    assert_eq!(rust_attribute_to_annotation("repr(align(-1))"), None);
    assert_eq!(rust_attribute_to_annotation("repr(align())"), None);
    assert_eq!(rust_attribute_to_annotation("derive(Debug)"), None);
}

#[test]
fn rust_repr_align_round_trip() {
    for n in [0u32, 1, 8, 4096, u32::MAX] {
        let attribute = format!("repr(align({}))", n);
        assert_eq!(rust_attribute_to_annotation(&attribute), Some(Annotation::Aligned(n)));
    }
}

#[test]
fn rust_valueless_define_ignores_const_type() {
    let backend = RustBackend::default();
    let marker = RustDefinition { name: "FLAG".to_string(), value: None, docs: None };
    let options = langprint::backends::rust_backend::RustDefinitionRenderOptions {
        const_type: "u32".to_string(),
        render_docs: true,
    };
    let mut indent_level: i32 = 0;
    assert_eq!(
        backend.render_definition(&marker, None, None, Some(&options), &mut indent_level),
        "pub const FLAG: () = ();\n"
    );
}

fn signature(
    name: &str,
    self_kind: RustSelfKind,
    parameters: Vec<RustParameter>,
    return_type: Option<&str>,
    docs: Option<Vec<String>>,
) -> RustFunction {
    let mut f = function(name);
    f.visibility = RustVisibility::Private;
    f.self_kind = self_kind;
    f.parameters = parameters;
    f.return_type = return_type.map(|s| s.to_string());
    f.docs = docs;
    f
}

fn plain_param(name: &str, ty: &str) -> RustParameter {
    RustParameter { attributes: Vec::new(), name: name.to_string(), param_type: ty.to_string() }
}

#[test]
fn guest_contract_trait_is_byte_exact() {
    let backend = RustBackend::default();
    let input = RustTrait {
        name: "PipelineDecoderGuestContract".to_string(),
        visibility: RustVisibility::Pub,
        generic_args: Vec::new(),
        supertraits: vec!["Send".to_string(), "Sync".to_string()],
        methods: vec![signature(
            "decode",
            RustSelfKind::Ref,
            vec![plain_param("input", "StringView")],
            Some("Result<StringView, GuestError>"),
            None,
        )],
        attributes: Vec::new(),
        docs: Some(vec!["Guest trait for contract `pipeline.Decoder` (id=0xE1D7DE773BE6E7F7)".to_string()]),
    };
    let expected = "\
/// Guest trait for contract `pipeline.Decoder` (id=0xE1D7DE773BE6E7F7)
pub trait PipelineDecoderGuestContract: Send + Sync {
    fn decode(&self, input: StringView) -> Result<StringView, GuestError>;
}
";
    assert_eq!(backend.render_trait(&input, None, &mut 0), expected);
}

#[test]
fn author_factory_extern_block_is_byte_exact() {
    let backend = RustBackend::default();
    let input = RustExternBlock {
        abi: "Rust".to_string(),
        is_unsafe: true,
        items: vec![signature(
            "polyplug_create_decoder",
            RustSelfKind::NoSelf,
            vec![plain_param("host", "HostContext")],
            Some("Box<dyn PipelineDecoderGuestContract>"),
            Some(vec![
                "Author-provided factory \u{2014} define it in the plugin crate as:".to_string(),
                "`#[unsafe(no_mangle)]`".to_string(),
                "`pub fn polyplug_create_decoder(host: HostContext) -> Box<dyn PipelineDecoderGuestContract> { ... }`"
                    .to_string(),
            ]),
        )],
        docs: None,
    };
    let expected = "\
unsafe extern \"Rust\" {
    /// Author-provided factory \u{2014} define it in the plugin crate as:
    /// `#[unsafe(no_mangle)]`
    /// `pub fn polyplug_create_decoder(host: HostContext) -> Box<dyn PipelineDecoderGuestContract> { ... }`
    fn polyplug_create_decoder(host: HostContext) -> Box<dyn PipelineDecoderGuestContract>;
}
";
    assert_eq!(backend.render_extern_block(&input, None, &mut 0), expected);
}
