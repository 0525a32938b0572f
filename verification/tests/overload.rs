use cel_cxx::{
    Code, FunctionDeclOrImpl, FunctionKindOverload, FunctionOverloads, FunctionType,
    FunctionTypeOverload, Kind, ListType, ValueType,
};

fn sig(args: Vec<ValueType>) -> FunctionType {
    FunctionType::new(ValueType::String, args)
}

#[test]
fn add_and_find_declarations() {
    let mut overloads: FunctionOverloads<FunctionDeclOrImpl<u32>> = FunctionOverloads::new();
    assert!(overloads.add_decl(false, sig(vec![ValueType::String])).is_ok());
    assert!(overloads.add_decl(false, sig(vec![ValueType::String, ValueType::String])).is_ok());
    assert!(overloads.add_decl(false, sig(vec![ValueType::Int])).is_ok());
    assert_eq!(overloads.entries().len(), 3);

    let group = overloads.find(false, &[Kind::String]).unwrap();
    assert!(!group.member());
    assert_eq!(group.argument_kinds(), &vec![Kind::String]);
    let entry = group.find(&[ValueType::String]).unwrap();
    assert_eq!(entry.decl(), &sig(vec![ValueType::String]));
    assert!(!entry.is_impl());
    assert!(entry.implementation().is_none());
    assert!(overloads.find(true, &[Kind::String]).is_none());
    assert!(overloads.find(false, &[Kind::Bool]).is_none());
}

#[test]
fn same_kinds_share_a_group() {
    let mut overloads: FunctionOverloads<FunctionDeclOrImpl<u32>> = FunctionOverloads::new();
    let l1 = ValueType::List(ListType::new(ValueType::Int));
    let l2 = ValueType::List(ListType::new(ValueType::String));
    overloads.add_decl(false, sig(vec![l1.clone()])).unwrap();
    overloads.add_impl(false, sig(vec![l2.clone()]), 7).unwrap();
    assert_eq!(overloads.entries().len(), 1);
    let group = overloads.find(false, &[Kind::List]).unwrap();
    assert_eq!(group.entries().len(), 2);
    let second = group.find(&[l2.clone()]).unwrap();
    assert!(second.is_impl());
    assert_eq!(second.implementation(), Some(&7));
    assert_eq!(second.arguments(), vec![l2]);
}

#[test]
fn duplicate_signature_is_refused() {
    let mut overloads: FunctionOverloads<FunctionDeclOrImpl<u32>> = FunctionOverloads::new();
    overloads.add_decl(true, sig(vec![ValueType::String, ValueType::Int])).unwrap();
    let err = overloads.add_impl(true, sig(vec![ValueType::String, ValueType::Int]), 1).unwrap_err();
    assert_eq!(err.code(), Code::InvalidArgument);
    assert_eq!(err.message(), "Function already exists");
    assert_eq!(overloads.find(true, &[Kind::String, Kind::Int]).unwrap().entries().len(), 1);
    // The same signature as a global function is another group.
    overloads.add_decl(false, sig(vec![ValueType::String, ValueType::Int])).unwrap();
    assert_eq!(overloads.entries().len(), 2);
}

#[test]
fn member_functions_need_arguments() {
    let mut overloads: FunctionOverloads<FunctionDeclOrImpl<u32>> = FunctionOverloads::new();
    let err = overloads.add_decl(true, sig(vec![])).unwrap_err();
    assert_eq!(err.code(), Code::InvalidArgument);
    assert_eq!(err.message(), "Member functions cannot have zero arguments");
    let err = overloads.add_impl(true, sig(vec![]), 3).unwrap_err();
    assert_eq!(err.message(), "Member functions cannot have zero arguments");
    assert!(overloads.add_decl(false, sig(vec![])).is_ok());
    assert!(overloads.find(false, &[]).is_some());
}

#[test]
fn removing_groups() {
    let mut overloads: FunctionOverloads<FunctionDeclOrImpl<u32>> = FunctionOverloads::new();
    overloads.add_decl(false, sig(vec![ValueType::Int, ValueType::String])).unwrap();
    overloads.add_decl(true, sig(vec![ValueType::Int])).unwrap();
    assert!(overloads.remove(false, &[Kind::Int, Kind::String]).is_ok());
    assert!(overloads.find(false, &[Kind::Int, Kind::String]).is_none());
    let err = overloads.remove(false, &[Kind::Int, Kind::String]).unwrap_err();
    assert_eq!(err.code(), Code::NotFound);
    assert_eq!(err.message(), "Overload [global] (int, string) not found");
    let err = overloads.remove(true, &[Kind::Mapping]).unwrap_err();
    assert_eq!(err.message(), "Overload [member] (map) not found");
    assert_eq!(overloads.entries().len(), 1);
    overloads.clear();
    assert_eq!(overloads.entries().len(), 0);
}

#[test]
fn law_remove_undoes_add_example() {
    let mut overloads: FunctionOverloads<FunctionDeclOrImpl<u32>> = FunctionOverloads::new();
    overloads.add_decl(false, sig(vec![ValueType::Int])).unwrap();
    overloads.add_decl(false, sig(vec![ValueType::Bool])).unwrap();
    overloads.remove(false, &[Kind::Bool]).unwrap();
    assert_eq!(overloads.entries().len(), 1);
    assert!(overloads.find(false, &[Kind::Int]).is_some());
}

#[test]
fn kind_overload_group_operations() {
    let mut group: FunctionKindOverload<FunctionDeclOrImpl<u32>> =
        FunctionKindOverload::new(false, vec![Kind::Int]);
    assert!(group.add_decl(sig(vec![ValueType::Int])).is_ok());
    let err = group.add_decl(sig(vec![ValueType::Int])).unwrap_err();
    assert_eq!(err.message(), "Function already exists");
    assert!(group.find(&[ValueType::Int]).is_some());
    let err = group.remove(&[ValueType::Uint, ValueType::Bool]).unwrap_err();
    assert_eq!(err.code(), Code::NotFound);
    assert_eq!(err.message(), "Overload [global] (uint, bool) not found");
    assert!(group.remove(&[ValueType::Int]).is_ok());
    assert!(group.find(&[ValueType::Int]).is_none());
    group.add_impl(sig(vec![ValueType::Int]), 9).unwrap();
    assert_eq!(group.entries().len(), 1);
    group.clear();
    assert_eq!(group.entries().len(), 0);
}

#[test]
fn mutable_access() {
    let mut overloads: FunctionOverloads<FunctionDeclOrImpl<u32>> = FunctionOverloads::new();
    overloads.add_decl(false, sig(vec![ValueType::Int])).unwrap();
    {
        let group = overloads.find_mut(false, &[Kind::Int]).unwrap();
        group.add_decl(sig(vec![ValueType::Int])).unwrap_err();
        assert_eq!(group.entries_mut().len(), 1);
    }
    assert!(overloads.find_mut(true, &[Kind::Int]).is_none());
    assert_eq!(overloads.entries_mut().len(), 1);
}

#[test]
fn generic_add_of_entries() {
    let mut overloads: FunctionOverloads<FunctionDeclOrImpl<&str>> = FunctionOverloads::new();
    overloads.add(false, FunctionDeclOrImpl::new_impl(sig(vec![ValueType::Bytes]), "impl")).unwrap();
    assert!(overloads.add(false, FunctionDeclOrImpl::new(sig(vec![ValueType::Bytes]))).is_err());
    let found = overloads.find(false, &[Kind::Bytes]).unwrap().find(&[ValueType::Bytes]).unwrap();
    assert_eq!(found.implementation(), Some(&"impl"));
}
