use cel_cxx::{FunctionDecl, ValueType};

#[test]
fn decl_test_zero_parameter_function() {
    type ConstantFn = fn() -> i64;

    assert_eq!(ConstantFn::arguments(), vec![]);
    assert_eq!(ConstantFn::result(), ValueType::Int);
}

#[test]
fn test_single_parameter_function() {
    type SquareFn = fn(i64) -> i64;

    assert_eq!(SquareFn::arguments(), vec![ValueType::Int]);
    assert_eq!(SquareFn::result(), ValueType::Int);
}

#[test]
fn decl_test_multiple_parameter_function() {
    type AddFn = fn(i64, i64, i64) -> i64;

    assert_eq!(
        AddFn::arguments(),
        vec![ValueType::Int, ValueType::Int, ValueType::Int]
    );
    assert_eq!(AddFn::result(), ValueType::Int);
}

#[test]
fn test_mixed_type_function() {
    type FormatFn = fn(String, i64, bool) -> String;

    assert_eq!(
        FormatFn::arguments(),
        vec![ValueType::String, ValueType::Int, ValueType::Bool]
    );
    assert_eq!(FormatFn::result(), ValueType::String);
}

#[test]
fn test_string_function() {
    type ConcatFn = fn(String, String) -> String;

    assert_eq!(
        ConcatFn::arguments(),
        vec![ValueType::String, ValueType::String]
    );
    assert_eq!(ConcatFn::result(), ValueType::String);
}

#[test]
fn test_boolean_function() {
    type LogicFn = fn(bool, bool) -> bool;

    assert_eq!(LogicFn::arguments(), vec![ValueType::Bool, ValueType::Bool]);
    assert_eq!(LogicFn::result(), ValueType::Bool);
}

#[test]
fn test_maximum_parameters() {
    type MaxParamFn = fn(i64, i64, i64, i64, i64, i64, i64, i64, i64, i64) -> i64;

    let expected_args = vec![ValueType::Int; 10];
    assert_eq!(MaxParamFn::arguments(), expected_args);
    assert_eq!(MaxParamFn::result(), ValueType::Int);
}

#[test]
fn decl_function_type_and_length() {
    type F = fn(u64, &'static str) -> Option<bool>;

    let ft = F::function_type();
    assert_eq!(ft.arguments(), &[ValueType::Uint, ValueType::String][..]);
    assert_eq!(ft.result().to_string(), "optional<bool>");
    assert_eq!(F::arguments_len(), 2);
    assert_eq!(<fn() -> ()>::arguments_len(), 0);
    assert_eq!(<fn() -> ()>::result(), ValueType::Null);
}

#[test]
fn decl_closure_signature() {
    let add = |a: i64, b: i64| -> i64 { a + b };
    fn args_of<F: FunctionDecl<R, A>, R, A>(_f: &F) -> Vec<ValueType> {
        F::arguments()
    }
    assert_eq!(args_of(&add), vec![ValueType::Int, ValueType::Int]);
}
