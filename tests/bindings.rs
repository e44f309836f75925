use tauri_bindgen_ts_macro::descriptor::{func_metadata, types, ArgPattern, BindingError, FnInput, Func, Param, TypeRef};
use tauri_bindgen_ts_macro::dir::{entity, parse_dir_arg, trim_quotes_of};
use tauri_bindgen_ts_macro::emit::{
    argument_list, command, generate_binding, parameter_list, resolve_params, HEADER, IMPORT,
};
use tauri_bindgen_ts_macro::registry::TypeRegistry;

fn typed(name: &str, ty: &str) -> FnInput {
    FnInput::Typed(ArgPattern::Ident(name.to_string()), TypeRef::Path(ty.to_string()))
}

fn func(name: &str, params: &[(&str, &str)]) -> Func {
    Func {
        name: name.to_string(),
        args: params
            .iter()
            .map(|(n, t)| Param { name: n.to_string(), ty: t.to_string() })
            .collect(),
    }
}

fn expected(binding: &str) -> String {
    format!("{}\n{}\n\n{}", HEADER, IMPORT, binding)
}

#[test]
fn header_and_import_are_fixed() {
    assert_eq!(
        HEADER,
        "// This file was generated by [tauri-bindgen-ts](https://github.com/antoniusnaumann/tauri-bindgen-ts). Do not edit this file manually."
    );
    assert_eq!(IMPORT, "import { invoke } from \"@tauri-apps/api/tauri\"");
}

#[test]
fn greet_with_default_dir() {
    let reg = TypeRegistry::with_builtins();
    let g = command("greet".to_string(), vec![typed("name", "String")], "", &reg).unwrap();
    assert_eq!(g.path, "../src-gen/greet.ts");
    assert_eq!(
        g.content,
        expected("export async function greet(name: string) { return await invoke('greet', { name }); }")
    );
}

#[test]
fn zero_params_give_empty_lists() {
    let reg = TypeRegistry::with_builtins();
    let g = command("ping".to_string(), vec![], "", &reg).unwrap();
    assert_eq!(g.path, "../src-gen/ping.ts");
    assert_eq!(
        g.content,
        expected("export async function ping() { return await invoke('ping', {  }); }")
    );
}

#[test]
fn two_params_keep_declared_order() {
    let reg = TypeRegistry::with_builtins();
    let g = command(
        "add".to_string(),
        vec![typed("a", "i32"), typed("b", "i32")],
        "",
        &reg,
    )
    .unwrap();
    assert_eq!(
        g.content,
        expected("export async function add(a: number, b: number) { return await invoke('add', { a, b }); }")
    );
    let rs = vec![
        ("a".to_string(), "number".to_string()),
        ("b".to_string(), "number".to_string()),
    ];
    assert_eq!(parameter_list(&rs), "a: number, b: number");
    assert_eq!(argument_list(&rs), "a, b");
}

#[test]
fn emission_twice_is_identical() {
    let reg = TypeRegistry::with_builtins();
    let f = func("save", &[("id", "u64"), ("title", "String"), ("done", "bool")]);
    let a = generate_binding(&f, "./out", &reg).unwrap();
    let b = generate_binding(&f, "./out", &reg).unwrap();
    assert_eq!(a.path, b.path);
    assert_eq!(a.content, b.content);
    assert_eq!(a.path, "./out/save.ts");
    assert_eq!(
        a.content,
        expected("export async function save(id: bigint, title: string, done: boolean) { return await invoke('save', { id, title, done }); }")
    );
}

#[test]
fn dir_argument_with_and_without_quotes() {
    assert_eq!(parse_dir_arg("\"./custom\""), "./custom");
    assert_eq!(parse_dir_arg("'./custom'"), "./custom");
    assert_eq!(parse_dir_arg("./custom"), "./custom");
    assert_eq!(parse_dir_arg(""), "../src-gen");
    assert_eq!(parse_dir_arg("\"\""), "../src-gen");
    assert_eq!(parse_dir_arg("\"'a\"b'\""), "a\"b");
    assert_eq!(trim_quotes_of("''x''"), "x");
}

#[test]
fn custom_dir_reaches_the_path() {
    let reg = TypeRegistry::with_builtins();
    let g = command("greet".to_string(), vec![typed("name", "String")], "\"./custom\"", &reg).unwrap();
    assert_eq!(g.path, "./custom/greet.ts");
}

#[test]
fn entity_dir_ends_with_separator() {
    assert_eq!(entity(""), "../src-gen/");
    assert_eq!(entity("\"./models\""), "./models/");
}

#[test]
fn unresolved_type_aborts_generation() {
    let reg = TypeRegistry::with_builtins();
    let r = command(
        "store".to_string(),
        vec![typed("name", "String"), typed("user", "User")],
        "",
        &reg,
    );
    assert!(matches!(r, Err(BindingError::UnresolvedType { index: 1 })));
    let f = func("store", &[("user", "User")]);
    assert!(matches!(
        generate_binding(&f, "dir", &reg),
        Err(BindingError::UnresolvedType { index: 0 })
    ));
}

#[test]
fn registered_entity_type_resolves() {
    let mut reg = TypeRegistry::with_builtins();
    reg.register("User".to_string(), "User".to_string());
    let g = command("store".to_string(), vec![typed("user", "User")], "", &reg).unwrap();
    assert_eq!(
        g.content,
        expected("export async function store(user: User) { return await invoke('store', { user }); }")
    );
}

#[test]
fn later_registration_wins() {
    let mut reg = TypeRegistry::new();
    assert_eq!(reg.ts_name(&"u64".to_string()), None);
    reg.register("u64".to_string(), "bigint".to_string());
    reg.register("u64".to_string(), "number".to_string());
    assert_eq!(reg.ts_name(&"u64".to_string()), Some("number".to_string()));
}

#[test]
fn builtin_names_come_from_ts_rs() {
    let reg = TypeRegistry::with_builtins();
    let name = |t: &str| reg.ts_name(&t.to_string());
    assert_eq!(name("String"), Some("string".to_string()));
    assert_eq!(name("bool"), Some("boolean".to_string()));
    assert_eq!(name("u8"), Some("number".to_string()));
    assert_eq!(name("i32"), Some("number".to_string()));
    assert_eq!(name("u32"), Some("number".to_string()));
    assert_eq!(name("usize"), Some("number".to_string()));
    assert_eq!(name("i64"), Some("bigint".to_string()));
    assert_eq!(name("u64"), Some("bigint".to_string()));
    assert_eq!(name("f64"), None);
}

#[test]
fn receiver_is_rejected() {
    let r = func_metadata("m".to_string(), vec![FnInput::Receiver, typed("a", "i32")]);
    assert!(matches!(r, Err(BindingError::NotAFreeFunction)));
    let reg = TypeRegistry::with_builtins();
    let r = command("m".to_string(), vec![typed("a", "Vec<i32>"), FnInput::Receiver], "", &reg);
    assert!(matches!(r, Err(BindingError::NotAFreeFunction)));
}

#[test]
fn unsupported_pattern_is_rejected() {
    let r = types(&vec![
        typed("a", "i32"),
        FnInput::Typed(ArgPattern::Unsupported("(x, y)".to_string()), TypeRef::Path("i32".to_string())),
    ]);
    assert!(matches!(r, Err(BindingError::UnsupportedPattern { index: 1 })));
}

#[test]
fn unsupported_type_is_rejected() {
    let r = types(&vec![
        FnInput::Typed(ArgPattern::Ident("s".to_string()), TypeRef::Unsupported("&str".to_string())),
        FnInput::Typed(ArgPattern::Unsupported("_".to_string()), TypeRef::Path("i32".to_string())),
    ]);
    assert!(matches!(r, Err(BindingError::UnsupportedType { index: 0 })));
}

#[test]
fn metadata_keeps_names_and_types() {
    let f = func_metadata("f".to_string(), vec![typed("x", "u8"), typed("y", "String")]).unwrap();
    assert_eq!(f.name, "f");
    assert_eq!(f.args.len(), 2);
    assert_eq!((f.args[0].name.as_str(), f.args[0].ty.as_str()), ("x", "u8"));
    assert_eq!((f.args[1].name.as_str(), f.args[1].ty.as_str()), ("y", "String"));
}

#[test]
fn resolve_params_maps_each_type() {
    let reg = TypeRegistry::with_builtins();
    let f = func("f", &[("x", "u8"), ("y", "String")]);
    let rs = resolve_params(&f.args, &reg).unwrap();
    assert_eq!(
        rs,
        vec![
            ("x".to_string(), "number".to_string()),
            ("y".to_string(), "string".to_string())
        ]
    );
}

#[test]
fn distinct_names_give_distinct_files() {
    let reg = TypeRegistry::with_builtins();
    let a = command("first".to_string(), vec![], "./same", &reg).unwrap();
    let b = command("second".to_string(), vec![], "./same", &reg).unwrap();
    assert_eq!(a.path, "./same/first.ts");
    assert_eq!(b.path, "./same/second.ts");
    assert_ne!(a.path, b.path);
}
