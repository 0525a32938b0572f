//! A verified core of a Common Expression Language (CEL) library: the type
//! system and its display text, error statuses, the argument types of function
//! signatures, function overload tables, the expression trees of macro
//! expansion, and the markers of synchronous and asynchronous evaluation.
use vstd::prelude::*;

pub mod kind;
pub mod text;
pub mod seq_search;
pub mod error;
pub mod types;
pub mod values;
pub mod function;
pub mod macros;
pub mod marker;
pub mod rt;
pub mod env_options;
pub mod program;

pub use kind::Kind;
pub use error::{Code, Error, ErrorSource};
pub use types::{
    EnumType, FunctionType, InvalidMapKeyType, ListType, MapKeyType, MapType, OpaqueType,
    OptionalType, StructType, TypeParamType, TypeType, ValueType,
};
pub use values::{Constant, TypedValue};
pub use function::decl::{Arguments, FunctionDecl};
pub use function::overload::{
    FunctionDeclOrImpl, FunctionKindOverload, FunctionOverloads, FunctionTypeOverload,
};
pub use function::registry::{FunctionBindings, FunctionRegistry};
pub use function::plan::{FunctionDescriptor, OverloadDecl};
pub use function::activation::{select_overload, ActivationGroup};
pub use macros::expr::{
    CallExpr, ComprehensionExpr, Expr, ExprKind, IdentExpr, ListExpr, ListExprElement, MapExpr,
    MapExprEntry, SelectExpr, StructExpr, StructExprField,
};
pub use marker::{Async, FnMarker, FnMarkerAggr, FnMarkerAsync, FnResult, RuntimeMarker};
pub use rt::{
    AsyncStd, AsyncStdBlockingRunner, Smol, SmolBlockingRunner, SmolScopedSpawner, Tokio,
    TokioBlockingRunner,
};
pub use env_options::{CompilerLibrary, EnvInnerOptions, RuntimeExtension};
pub use program::EvalDispatcher;

verus! {
} // verus!
