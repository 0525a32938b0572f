use cel_cxx::{
    select_overload, Code, FunctionBindings, FunctionDeclOrImpl, FunctionRegistry, FunctionType, Kind,
    ListType, ValueType,
};

fn sig(args: Vec<ValueType>) -> FunctionType {
    FunctionType::new(ValueType::Int, args)
}

#[test]
fn registry_register_and_declare() {
    let mut registry: FunctionRegistry<&str> = FunctionRegistry::new();
    assert!(registry.is_empty());
    registry.register_member("f1", sig(vec![ValueType::Int]), "f1 impl").unwrap();
    registry.register_member("f11", sig(vec![ValueType::Int, ValueType::Int]), "f11 impl").unwrap();
    registry.register_global("lifetime_closure", sig(vec![ValueType::Int, ValueType::Int]), "closure").unwrap();
    registry.declare_global::<fn(String) -> i64, _, _>("f3").unwrap();
    registry.declare_member::<fn(String, bool) -> bool, _, _>("f4").unwrap();
    assert_eq!(registry.len(), 5);
    assert!(!registry.is_empty());

    let f1 = registry.find("f1").unwrap();
    let entry = f1.find(true, &[Kind::Int]).unwrap().find(&[ValueType::Int]).unwrap();
    assert_eq!(entry.implementation(), Some(&"f1 impl"));
    let f3 = registry.find("f3").unwrap();
    let decl = f3.find(false, &[Kind::String]).unwrap().find(&[ValueType::String]).unwrap();
    assert!(!decl.is_impl());
    assert_eq!(decl.decl(), &FunctionType::new(ValueType::Int, vec![ValueType::String]));
    assert!(registry.find("missing").is_none());
}

#[test]
fn registry_errors() {
    let mut registry: FunctionRegistry<u8> = FunctionRegistry::new();
    registry.declare_type("g", false, sig(vec![ValueType::Bool])).unwrap();
    let err = registry.register("g", false, sig(vec![ValueType::Bool]), 1).unwrap_err();
    assert_eq!(err.code(), Code::InvalidArgument);
    assert_eq!(err.message(), "Function already exists");
    // A failed registration still leaves the name in the registry.
    let err = registry.declare::<fn() -> bool, _, _>("h", true).unwrap_err();
    assert_eq!(err.message(), "Member functions cannot have zero arguments");
    assert_eq!(registry.len(), 2);
    assert!(registry.find("h").unwrap().entries().is_empty());
    let err = registry.remove("nope").unwrap_err();
    assert_eq!(err.code(), Code::NotFound);
    assert_eq!(err.message(), "Function 'nope' not found");
    registry.remove("h").unwrap();
    assert!(registry.find("h").is_none());
    assert_eq!(registry.entries().len(), 1);
    registry.find_mut("g").unwrap().clear();
    assert!(registry.find("g").unwrap().entries().is_empty());
    registry.clear();
    assert_eq!(registry.len(), 0);
}

#[test]
fn bindings_bind_find_remove() {
    let mut bindings: FunctionBindings<FunctionDeclOrImpl<u8>> = FunctionBindings::new();
    bindings.bind_global("add", FunctionDeclOrImpl::new_impl(sig(vec![ValueType::Int, ValueType::Int]), 1)).unwrap();
    bindings.bind_member("len", FunctionDeclOrImpl::new_impl(sig(vec![]), 2)).unwrap();
    assert!(bindings.find("len").unwrap().find(true, &[]).is_some());
    let err = bindings.bind("add", false, FunctionDeclOrImpl::new(sig(vec![ValueType::Int, ValueType::Int]))).unwrap_err();
    assert_eq!(err.message(), "Function already exists");
    let err = bindings.remove("sub").unwrap_err();
    assert_eq!(err.message(), "Function sub not found");
    bindings.remove("add").unwrap();
    assert!(bindings.find("add").is_none());
    assert_eq!(bindings.entries().len(), 1);
    assert!(bindings.find_mut("len").is_some());
    bindings.clear();
    assert!(bindings.entries().is_empty());
}

#[test]
fn registry_plans() {
    let mut registry: FunctionRegistry<u8> = FunctionRegistry::new();
    registry.register_member("size", sig(vec![ValueType::String]), 1).unwrap();
    registry.declare_type("size", false, sig(vec![ValueType::Bytes])).unwrap();
    registry.declare_type("size", false, FunctionType::new(ValueType::Int, vec![ValueType::String])).unwrap();
    registry.declare_type("max", false, sig(vec![ValueType::Int, ValueType::Int])).unwrap();

    let decls = registry.checker_declarations();
    assert_eq!(decls.len(), 2);
    assert_eq!(decls[0].0, "size");
    let ids: Vec<&str> = decls[0].1.iter().map(|d| d.id.as_str()).collect();
    assert_eq!(ids, vec!["(string).size()", "size(bytes)", "size(string)"]);
    assert!(decls[0].1[0].member);
    assert!(!decls[0].1[1].member);
    assert_eq!(decls[0].1[1].result, ValueType::Int);
    assert_eq!(decls[0].1[1].arguments, vec![ValueType::Bytes]);
    assert_eq!(decls[1].0, "max");
    assert_eq!(decls[1].1[0].id, "max(int, int)");

    let descriptors = registry.runtime_descriptors();
    let summary: Vec<(String, bool, Vec<Kind>)> = descriptors
        .iter()
        .map(|d| (d.name.clone(), d.receiver_style, d.kinds.clone()))
        .collect();
    assert_eq!(
        summary,
        vec![
            ("size".to_string(), true, vec![Kind::String]),
            ("size".to_string(), false, vec![Kind::Bytes]),
            ("size".to_string(), false, vec![Kind::String]),
            ("max".to_string(), false, vec![Kind::Int, Kind::Int]),
        ]
    );
}

#[test]
fn registry_calls_chain() {
    let mut registry: FunctionRegistry<u8> = FunctionRegistry::new();
    let r = registry
        .register_member("a", sig(vec![ValueType::String]), 1)
        .unwrap()
        .register_global("b", sig(vec![ValueType::Int]), 2)
        .unwrap()
        .declare_type("c", false, sig(vec![]))
        .unwrap();
    assert_eq!(r.len(), 3);
    let mut bindings: FunctionBindings<FunctionDeclOrImpl<u8>> = FunctionBindings::new();
    let b = bindings
        .bind_global("x", FunctionDeclOrImpl::new_impl(sig(vec![]), 1))
        .unwrap()
        .bind_member("y", FunctionDeclOrImpl::new_impl(sig(vec![ValueType::Int]), 2))
        .unwrap();
    assert_eq!(b.entries().len(), 2);
}

#[test]
fn activation_plan_prefers_bindings() {
    let list_of = |t: ValueType| ValueType::List(ListType::new(t));
    let mut registry: FunctionRegistry<u8> = FunctionRegistry::new();
    registry.register_member("size", sig(vec![ValueType::String]), 1).unwrap();
    registry.declare_type("size", false, sig(vec![list_of(ValueType::Int)])).unwrap();
    registry.register_global("size", sig(vec![list_of(ValueType::String)]), 2).unwrap();
    registry.register_global("max", sig(vec![ValueType::Int, ValueType::Int]), 5).unwrap();

    let mut bindings: FunctionBindings<FunctionDeclOrImpl<u8>> = FunctionBindings::new();
    bindings.bind_global("other", FunctionDeclOrImpl::new_impl(sig(vec![]), 7)).unwrap();
    bindings
        .bind_global("max", FunctionDeclOrImpl::new_impl(sig(vec![ValueType::Int, ValueType::Int]), 9))
        .unwrap();
    bindings
        .bind_global("max", FunctionDeclOrImpl::new_impl(sig(vec![ValueType::Uint, ValueType::Uint]), 8))
        .unwrap();

    let plan = registry.activation_plan(&bindings);
    let summary: Vec<(String, bool, Vec<Kind>, bool, usize, usize, Vec<usize>)> = plan
        .iter()
        .map(|g| {
            (g.name.clone(), g.receiver_style, g.kinds.clone(), g.from_bindings, g.table, g.group, g.entries.clone())
        })
        .collect();
    assert_eq!(
        summary,
        vec![
            ("size".to_string(), true, vec![Kind::String], false, 0, 0, vec![0]),
            ("size".to_string(), false, vec![Kind::List], false, 0, 1, vec![1]),
            ("max".to_string(), false, vec![Kind::Int, Kind::Int], true, 1, 0, vec![0]),
            ("max".to_string(), false, vec![Kind::Uint, Kind::Uint], true, 1, 1, vec![0]),
        ]
    );
    let empty: FunctionBindings<FunctionDeclOrImpl<u8>> = FunctionBindings::new();
    let plain = registry.activation_plan(&empty);
    assert_eq!(plain.len(), 3);
    assert!(!plain[2].from_bindings);
    assert_eq!(plain[2].entries, vec![0]);
}

#[test]
fn overload_selection_by_id() {
    let types = vec![sig(vec![ValueType::Int]), sig(vec![ValueType::String])];
    let ids = vec!["f(string)".to_string(), "g(int)".to_string()];
    assert_eq!(select_overload("f", false, &types, &ids).unwrap(), 1);
    let member_ids = vec!["(int).f()".to_string()];
    assert_eq!(select_overload("f", true, &types, &member_ids).unwrap(), 0);
    let err = select_overload("f", false, &types, &member_ids).unwrap_err();
    assert_eq!(err.code(), Code::InvalidArgument);
    assert_eq!(err.message(), "No matching overload found");
}
