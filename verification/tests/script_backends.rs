use langprint::backends::js_backend::{
    JsBackend, JsClass, JsClassRenderOptions, JsEnum, JsEnumMember, JsField, JsFunction, JsFunctionRenderOptions,
    JsParameter,
};
use langprint::backends::lua_backend::{LuaBackend, LuaEnum, LuaEnumMember, LuaField, LuaFunction, LuaModule};
use langprint::backends::python_backend::{
    PythonBackend, PythonClass, PythonClassField, PythonEnum, PythonEnumMember, PythonFunction,
    PythonFunctionRenderOptions, PythonParameter, PythonStruct, PythonStructField,
};
use langprint::backends::BackendMetadata;

fn py_function(name: &str) -> PythonFunction {
    PythonFunction { name: name.to_string(), parameters: Vec::new(), return_type: None, docstring: None, body: None }
}

fn js_function(name: &str) -> JsFunction {
    JsFunction {
        name: name.to_string(),
        parameters: Vec::new(),
        return_type: None,
        doc: None,
        is_static: false,
        body: None,
    }
}

fn lua_function(name: &str) -> LuaFunction {
    LuaFunction { name: name.to_string(), parameters: Vec::new(), doc: None, body: None }
}

#[test]
fn python_metadata() {
    let backend = PythonBackend::default();
    assert_eq!(backend.language_name(), "Python");
    assert_eq!(backend.supported_features().len(), 4);
}

#[test]
fn python_function_empty_body_is_pass() {
    let backend = PythonBackend::default();
    let mut f = py_function("noop");
    f.parameters = vec![
        PythonParameter { name: "a".to_string(), type_hint: Some("int".to_string()), default: Some("1".to_string()) },
        PythonParameter { name: "b".to_string(), type_hint: None, default: Some("2".to_string()) },
    ];
    f.return_type = Some("None".to_string());
    let mut indent_level: i32 = 0;
    assert_eq!(
        backend.render_function(&f, None, None, None, &mut indent_level),
        "def noop(a: int = 1, b=2) -> None:\n    pass\n"
    );
    f.body = Some(Vec::new());
    assert_eq!(
        backend.render_function(&f, None, None, None, &mut indent_level),
        "def noop(a: int = 1, b=2) -> None:\n    pass\n"
    );
}

#[test]
fn python_function_docstring_and_body() {
    let mut backend = PythonBackend::default();
    let mut f = py_function("run");
    f.docstring = Some("Run it.\nTwice.".to_string());
    f.body = Some(vec!["return 1".to_string()]);
    let mut indent_level: i32 = 0;
    assert_eq!(
        backend.render_function(&f, None, None, None, &mut indent_level),
        "def run():\n    \"\"\"Run it.\n    Twice.\"\"\"\n    return 1\n"
    );
    backend.docstring_close_on_own_line = true;
    assert_eq!(
        backend.render_function(&f, None, None, None, &mut indent_level),
        "def run():\n    \"\"\"Run it.\n    Twice.\n    \"\"\"\n    return 1\n"
    );
    backend.docstring_raw_on_backslash = true;
    f.docstring = Some("a\\b".to_string());
    let verbatim = PythonFunctionRenderOptions { render_docstring: true, verbatim_body: true };
    assert_eq!(
        backend.render_function(&f, None, None, Some(&verbatim), &mut indent_level),
        "def run():\n    r\"\"\"a\\b\"\"\"\nreturn 1\n"
    );
}

#[test]
fn python_struct_enum_class() {
    let backend = PythonBackend::default();
    let mut indent_level: i32 = 0;
    let s = PythonStruct {
        name: "Point".to_string(),
        fields: vec![PythonStructField { name: "x".to_string(), ctype: "ctypes.c_int32".to_string() }],
        docstring: None,
    };
    assert_eq!(
        backend.render_struct(&s, None, None, None, &mut indent_level),
        "class Point(ctypes.Structure):\n    _fields_ = [\n        (\"x\", ctypes.c_int32),\n    ]\n"
    );
    let empty = PythonEnum { name: "Empty".to_string(), members: Vec::new(), docstring: None };
    assert_eq!(
        backend.render_enum(&empty, None, None, None, &mut indent_level),
        "class Empty(enum.IntEnum):\n    pass\n"
    );
    let e = PythonEnum {
        name: "Level".to_string(),
        members: vec![PythonEnumMember { name: "LOW".to_string(), value: "0".to_string() }],
        docstring: Some("Levels.".to_string()),
    };
    assert_eq!(
        backend.render_enum(&e, None, None, None, &mut indent_level),
        "class Level(enum.IntEnum):\n    \"\"\"Levels.\"\"\"\n    LOW = 0\n"
    );
    let c = PythonClass {
        name: "Greeter".to_string(),
        bases: vec!["Base".to_string(), "Mixin".to_string()],
        fields: vec![PythonClassField { name: "count".to_string(), value: "0".to_string() }],
        methods: vec![py_function("greet"), py_function("leave")],
        docstring: None,
    };
    assert_eq!(
        backend.render_class(&c, None, None, None, &mut indent_level),
        "class Greeter(Base, Mixin):\n    count = 0\n\n    def greet():\n        pass\n\n    def leave():\n        pass\n"
    );
    let bare = PythonClass { name: "Bare".to_string(), bases: Vec::new(), fields: Vec::new(), methods: Vec::new(), docstring: None };
    assert_eq!(backend.render_class(&bare, None, None, None, &mut indent_level), "class Bare:\n    pass\n");
    assert_eq!(indent_level, 0);
}

#[test]
fn js_function_jsdoc_and_untyped_signature() {
    let backend = JsBackend::default();
    assert_eq!(backend.language_name(), "JavaScript");
    let mut f = js_function("add");
    f.parameters = vec![
        JsParameter { name: "a".to_string(), default: None, type_doc: Some("number".to_string()) },
        JsParameter { name: "b".to_string(), default: Some("0".to_string()), type_doc: None },
    ];
    f.return_type = Some("number".to_string());
    f.body = Some(vec!["return a + b;".to_string()]);
    let mut indent_level: i32 = 0;
    assert_eq!(
        backend.render_function(&f, None, None, None, &mut indent_level),
        "/**\n * @param {number} a\n * @returns {number}\n */\nfunction add(a, b = 0) {\n  return a + b;\n}\n"
    );
    let no_doc = JsFunctionRenderOptions { render_jsdoc: false };
    assert_eq!(
        backend.render_function(&f, None, None, Some(&no_doc), &mut indent_level),
        "function add(a, b = 0) {\n  return a + b;\n}\n"
    );
    let plain = js_function("noop");
    assert_eq!(backend.render_function(&plain, None, None, None, &mut indent_level), "function noop() {}\n");
}

#[test]
fn js_enum_and_class() {
    let backend = JsBackend::default();
    let mut indent_level: i32 = 0;
    let e = JsEnum {
        name: "Level".to_string(),
        members: vec![JsEnumMember { name: "Low".to_string(), value: "0".to_string() }],
        doc: Some("Enum Level".to_string()),
        export: true,
    };
    assert_eq!(
        backend.render_enum(&e, None, None, None, &mut indent_level),
        "/** Enum Level */\nexport const Level = Object.freeze({\n  Low: 0,\n} as const);\nexport type Level = typeof Level[keyof typeof Level];\n"
    );
    let mut method = js_function("create");
    method.is_static = true;
    let c = JsClass {
        name: "Widget".to_string(),
        extends: Some("Base".to_string()),
        fields: vec![JsField { name: "count".to_string(), value: "0".to_string(), is_static: true }],
        methods: vec![method, js_function("render")],
        doc: Some("A widget.\nReusable.".to_string()),
    };
    assert_eq!(
        backend.render_class(&c, None, None, Some(&JsClassRenderOptions::default()), &mut indent_level),
        "/**\n * A widget.\n * Reusable.\n */\nclass Widget extends Base {\n  static count = 0;\n\n  static create() {}\n\n  render() {}\n}\n"
    );
}

#[test]
fn lua_function_enum_module() {
    let backend = LuaBackend::default();
    assert_eq!(backend.language_name(), "Lua");
    let mut indent_level: i32 = 0;
    let mut f = lua_function("M.greet");
    f.parameters = vec!["name".to_string(), "punct".to_string()];
    f.doc = Some("Greets.\nPolitely.".to_string());
    f.body = Some(vec!["print(name)".to_string()]);
    assert_eq!(
        backend.render_function(&f, None, None, None, &mut indent_level),
        "-- Greets.\n-- Politely.\nfunction M.greet(name, punct)\n  print(name)\nend\n"
    );
    let e = LuaEnum {
        name: "Color".to_string(),
        members: vec![LuaEnumMember { name: "Red".to_string(), value: "1".to_string() }],
        doc: Some("Enum Color".to_string()),
    };
    assert_eq!(
        backend.render_enum(&e, None, None, None, &mut indent_level),
        "--- Enum Color\nlocal Color = {\n  Red = 1,\n}\n"
    );
    let m = LuaModule {
        table_name: "M".to_string(),
        fields: vec![LuaField { name: "M.version".to_string(), value: "\"1.0\"".to_string() }],
        functions: vec![lua_function("M.init")],
        doc: None,
    };
    assert_eq!(
        backend.render_module(&m, None, None, None, &mut indent_level),
        "local M = {}\nM.version = \"1.0\"\n\nfunction M.init()\nend\n\nreturn M\n"
    );
}

#[test]
fn python_single_line_docstring_ignores_close_style() {
    let mut backend = PythonBackend::default();
    let mut f = py_function("one");
    f.docstring = Some("Only line.".to_string());
    let mut indent_level: i32 = 0;
    let compact = backend.render_function(&f, None, None, None, &mut indent_level);
    backend.docstring_close_on_own_line = true;
    let own_line = backend.render_function(&f, None, None, None, &mut indent_level);
    assert_eq!(compact, own_line);
    assert_eq!(compact, "def one():\n    \"\"\"Only line.\"\"\"\n    pass\n");
}

#[test]
fn python_raw_docstring_only_with_backslash() {
    let mut backend = PythonBackend::default();
    backend.docstring_raw_on_backslash = true;
    let mut f = py_function("plain");
    f.docstring = Some("no escapes".to_string());
    let mut indent_level: i32 = 0;
    assert_eq!(
        backend.render_function(&f, None, None, None, &mut indent_level),
        "def plain():\n    \"\"\"no escapes\"\"\"\n    pass\n"
    );
}

#[test]
fn js_no_jsdoc_without_doc_info() {
    let backend = JsBackend::default();
    let mut f = js_function("f");
    f.parameters = vec![JsParameter { name: "x".to_string(), default: None, type_doc: None }];
    let with = JsFunctionRenderOptions { render_jsdoc: true };
    let without = JsFunctionRenderOptions { render_jsdoc: false };
    let mut indent_level: i32 = 0;
    let a = backend.render_function(&f, None, None, Some(&with), &mut indent_level);
    let b = backend.render_function(&f, None, None, Some(&without), &mut indent_level);
    assert_eq!(a, b);
    assert_eq!(a, "function f(x) {}\n");
}

#[test]
fn js_plain_signature_ignores_types() {
    let backend = JsBackend::default();
    let mut typed = js_function("f");
    typed.parameters = vec![JsParameter { name: "x".to_string(), default: None, type_doc: Some("number".to_string()) }];
    typed.return_type = Some("string".to_string());
    let mut untyped = js_function("f");
    untyped.parameters = vec![JsParameter { name: "x".to_string(), default: None, type_doc: None }];
    let options = JsFunctionRenderOptions { render_jsdoc: false };
    let mut indent_level: i32 = 0;
    assert_eq!(
        backend.render_function(&typed, None, None, Some(&options), &mut indent_level),
        backend.render_function(&untyped, None, None, Some(&options), &mut indent_level)
    );
}

#[test]
fn lua_missing_body_closes_at_once() {
    let backend = LuaBackend::default();
    let mut f = lua_function("noop");
    f.parameters = vec!["a".to_string()];
    let mut indent_level: i32 = 1;
    assert_eq!(
        backend.render_function(&f, Some("x"), Some("y"), None, &mut indent_level),
        "x  function noop(a)\n  end\ny"
    );
    assert_eq!(indent_level, 1);
}
