use cel_cxx::{CallExpr, Constant, Expr, ExprKind, IdentExpr, ListExpr, ListExprElement, MapExpr, SelectExpr};

#[test]
fn expression_nodes() {
    let mut e = Expr::default();
    assert_eq!(e.id(), 0);
    assert!(e.kind().is_none());
    e.set_id(7);
    e.set_kind(ExprKind::Ident(IdentExpr { name: "x".to_string() }));
    assert_eq!(e.id(), 7);
    let k = e.kind().unwrap();
    assert!(k.is_ident());
    assert!(!k.is_call());
    assert_eq!(k.as_ident().unwrap().name, "x");
    assert!(k.as_constant().is_none());
    e.clear_kind();
    assert!(e.kind().is_none());
    assert_eq!(e.id(), 7);
}

#[test]
fn expression_kinds() {
    let mut call = ExprKind::Call(CallExpr {
        function: "size".to_string(),
        target: Expr::default(),
        args: vec![],
    });
    assert!(call.is_call());
    if let Some(c) = call.as_call_mut() {
        c.function = "len".to_string();
    }
    assert_eq!(call.as_call().unwrap().function, "len");
    assert!(call.as_list_mut().is_none());
    let mut list = ExprKind::List(ListExpr {
        elements: vec![ListExprElement { expr: Expr::default(), optional: true }],
    });
    assert!(list.is_list());
    list.as_list_mut().unwrap().elements.clear();
    assert_eq!(list.as_list().unwrap().elements.len(), 0);
    let c = ExprKind::Constant(Constant::Int(3));
    assert!(c.is_constant());
    assert!(matches!(c.as_constant(), Some(Constant::Int(3))));
    let m = ExprKind::Mapping(MapExpr { entries: vec![] });
    assert!(m.is_map());
    assert!(m.as_map().is_some());
    let s = ExprKind::Select(SelectExpr { operand: Expr::default(), field: "f".to_string(), test_only: true });
    assert!(s.is_select());
    assert!(s.as_select().unwrap().test_only);
    assert!(!s.is_struct() && !s.is_comprehension());
}
