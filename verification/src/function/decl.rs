//! Argument and result types of function signatures.
use vstd::prelude::*;
use crate::types::{lemma_view_types, view_types, FunctionType, TypeView, ValueType};
use crate::values::TypedValue;

verus! {

/// A function signature from which the CEL argument and result types are read.
///
/// It holds for every function type `F` that takes arguments of types `Args`
/// (a tuple) and returns `R`, each of which has a CEL type; the two parameters
/// are found by inference, so `<fn(i64) -> bool>::arguments()` needs no
/// annotation.
pub trait FunctionDecl<R, Args>: Sealed<R, Args> {
    /// The models of the argument types.
    spec fn spec_arguments() -> Seq<TypeView>;

    /// The model of the result type.
    spec fn spec_result() -> TypeView;

    /// Returns the argument types, in order.
    fn arguments() -> (r: Vec<ValueType>)
        ensures
            view_types(r@) == Self::spec_arguments(),
    ;

    /// Returns the result type.
    fn result() -> (r: ValueType)
        ensures
            r@ == Self::spec_result(),
    ;

    /// Returns the signature `(arguments) -> result`.
    fn function_type() -> (r: FunctionType)
        ensures
            view_types(r.arguments@) == Self::spec_arguments(),
            r.result@ == Self::spec_result(),
    {
        FunctionType::new(Self::result(), Self::arguments())
    }

    /// Returns the number of arguments.
    fn arguments_len() -> (r: usize)
        ensures
            r == Self::spec_arguments().len(),
    {
        let args = Self::arguments();
        proof {
            lemma_view_types(args@);
        }
        args.len()
    }
}

/// Keeps [`FunctionDecl`] to the implementations of this crate.
pub trait Sealed<R, Args> {}

/// Appends a type to a sequence of types, whose models gain the model of `t`.
fn push_type(v: &mut Vec<ValueType>, t: ValueType)
    ensures
        view_types(final(v)@) == view_types(old(v)@).push(t@),
{
    v.push(t);
    proof {
        assert(final(v)@.drop_last() =~= old(v)@);
    }
}

impl<F: Fn() -> R, R: TypedValue> Sealed<R, ()> for F {}

impl<F: Fn() -> R, R: TypedValue> FunctionDecl<R, ()> for F {
    open spec fn spec_arguments() -> Seq<TypeView> {
        Seq::empty()
    }

    open spec fn spec_result() -> TypeView {
        R::spec_value_type()
    }

    fn arguments() -> (r: Vec<ValueType>) {
        let r: Vec<ValueType> = Vec::new();
        assert(view_types(r@) =~= Seq::empty());
        r
    }

    fn result() -> (r: ValueType) {
        R::value_type()
    }
}

impl<F: Fn(A1) -> R, R: TypedValue, A1: TypedValue> Sealed<R, (A1,)> for F {}

impl<F: Fn(A1) -> R, R: TypedValue, A1: TypedValue> FunctionDecl<R, (A1,)> for F {
    open spec fn spec_arguments() -> Seq<TypeView> {
        seq![A1::spec_value_type()]
    }

    open spec fn spec_result() -> TypeView {
        R::spec_value_type()
    }

    fn arguments() -> (r: Vec<ValueType>) {
        let mut r: Vec<ValueType> = Vec::new();
        assert(view_types(r@) =~= Seq::empty());
        push_type(&mut r, A1::value_type());
        assert(view_types(r@) =~= seq![A1::spec_value_type()]);
        r
    }

    fn result() -> (r: ValueType) {
        R::value_type()
    }
}

impl<F: Fn(A1, A2) -> R, R: TypedValue, A1: TypedValue, A2: TypedValue> Sealed<R, (A1, A2)> for F {}

impl<F: Fn(A1, A2) -> R, R: TypedValue, A1: TypedValue, A2: TypedValue> FunctionDecl<R, (A1, A2)> for F {
    open spec fn spec_arguments() -> Seq<TypeView> {
        seq![A1::spec_value_type(), A2::spec_value_type()]
    }

    open spec fn spec_result() -> TypeView {
        R::spec_value_type()
    }

    fn arguments() -> (r: Vec<ValueType>) {
        let mut r: Vec<ValueType> = Vec::new();
        assert(view_types(r@) =~= Seq::empty());
        push_type(&mut r, A1::value_type());
        push_type(&mut r, A2::value_type());
        assert(view_types(r@) =~= seq![A1::spec_value_type(), A2::spec_value_type()]);
        r
    }

    fn result() -> (r: ValueType) {
        R::value_type()
    }
}

impl<F: Fn(A1, A2, A3) -> R, R: TypedValue, A1: TypedValue, A2: TypedValue, A3: TypedValue> Sealed<R, (A1, A2, A3)> for F {}

impl<F: Fn(A1, A2, A3) -> R, R: TypedValue, A1: TypedValue, A2: TypedValue, A3: TypedValue> FunctionDecl<R, (A1, A2, A3)> for F {
    open spec fn spec_arguments() -> Seq<TypeView> {
        seq![A1::spec_value_type(), A2::spec_value_type(), A3::spec_value_type()]
    }

    open spec fn spec_result() -> TypeView {
        R::spec_value_type()
    }

    fn arguments() -> (r: Vec<ValueType>) {
        let mut r: Vec<ValueType> = Vec::new();
        assert(view_types(r@) =~= Seq::empty());
        push_type(&mut r, A1::value_type());
        push_type(&mut r, A2::value_type());
        push_type(&mut r, A3::value_type());
        assert(view_types(r@) =~= seq![A1::spec_value_type(), A2::spec_value_type(), A3::spec_value_type()]);
        r
    }

    fn result() -> (r: ValueType) {
        R::value_type()
    }
}

impl<F: Fn(A1, A2, A3, A4) -> R, R: TypedValue, A1: TypedValue, A2: TypedValue, A3: TypedValue, A4: TypedValue> Sealed<R, (A1, A2, A3, A4)> for F {}

impl<F: Fn(A1, A2, A3, A4) -> R, R: TypedValue, A1: TypedValue, A2: TypedValue, A3: TypedValue, A4: TypedValue> FunctionDecl<R, (A1, A2, A3, A4)> for F {
    open spec fn spec_arguments() -> Seq<TypeView> {
        seq![A1::spec_value_type(), A2::spec_value_type(), A3::spec_value_type(), A4::spec_value_type()]
    }

    open spec fn spec_result() -> TypeView {
        R::spec_value_type()
    }

    fn arguments() -> (r: Vec<ValueType>) {
        let mut r: Vec<ValueType> = Vec::new();
        assert(view_types(r@) =~= Seq::empty());
        push_type(&mut r, A1::value_type());
        push_type(&mut r, A2::value_type());
        push_type(&mut r, A3::value_type());
        push_type(&mut r, A4::value_type());
        assert(view_types(r@) =~= seq![A1::spec_value_type(), A2::spec_value_type(), A3::spec_value_type(), A4::spec_value_type()]);
        r
    }

    fn result() -> (r: ValueType) {
        R::value_type()
    }
}

impl<F: Fn(A1, A2, A3, A4, A5) -> R, R: TypedValue, A1: TypedValue, A2: TypedValue, A3: TypedValue, A4: TypedValue, A5: TypedValue> Sealed<R, (A1, A2, A3, A4, A5)> for F {}

impl<F: Fn(A1, A2, A3, A4, A5) -> R, R: TypedValue, A1: TypedValue, A2: TypedValue, A3: TypedValue, A4: TypedValue, A5: TypedValue> FunctionDecl<R, (A1, A2, A3, A4, A5)> for F {
    open spec fn spec_arguments() -> Seq<TypeView> {
        seq![A1::spec_value_type(), A2::spec_value_type(), A3::spec_value_type(), A4::spec_value_type(), A5::spec_value_type()]
    }

    open spec fn spec_result() -> TypeView {
        R::spec_value_type()
    }

    fn arguments() -> (r: Vec<ValueType>) {
        let mut r: Vec<ValueType> = Vec::new();
        assert(view_types(r@) =~= Seq::empty());
        push_type(&mut r, A1::value_type());
        push_type(&mut r, A2::value_type());
        push_type(&mut r, A3::value_type());
        push_type(&mut r, A4::value_type());
        push_type(&mut r, A5::value_type());
        assert(view_types(r@) =~= seq![A1::spec_value_type(), A2::spec_value_type(), A3::spec_value_type(), A4::spec_value_type(), A5::spec_value_type()]);
        r
    }

    fn result() -> (r: ValueType) {
        R::value_type()
    }
}

impl<F: Fn(A1, A2, A3, A4, A5, A6) -> R, R: TypedValue, A1: TypedValue, A2: TypedValue, A3: TypedValue, A4: TypedValue, A5: TypedValue, A6: TypedValue> Sealed<R, (A1, A2, A3, A4, A5, A6)> for F {}

impl<F: Fn(A1, A2, A3, A4, A5, A6) -> R, R: TypedValue, A1: TypedValue, A2: TypedValue, A3: TypedValue, A4: TypedValue, A5: TypedValue, A6: TypedValue> FunctionDecl<R, (A1, A2, A3, A4, A5, A6)> for F {
    open spec fn spec_arguments() -> Seq<TypeView> {
        seq![A1::spec_value_type(), A2::spec_value_type(), A3::spec_value_type(), A4::spec_value_type(), A5::spec_value_type(), A6::spec_value_type()]
    }

    open spec fn spec_result() -> TypeView {
        R::spec_value_type()
    }

    fn arguments() -> (r: Vec<ValueType>) {
        let mut r: Vec<ValueType> = Vec::new();
        assert(view_types(r@) =~= Seq::empty());
        push_type(&mut r, A1::value_type());
        push_type(&mut r, A2::value_type());
        push_type(&mut r, A3::value_type());
        push_type(&mut r, A4::value_type());
        push_type(&mut r, A5::value_type());
        push_type(&mut r, A6::value_type());
        assert(view_types(r@) =~= seq![A1::spec_value_type(), A2::spec_value_type(), A3::spec_value_type(), A4::spec_value_type(), A5::spec_value_type(), A6::spec_value_type()]);
        r
    }

    fn result() -> (r: ValueType) {
        R::value_type()
    }
}

impl<F: Fn(A1, A2, A3, A4, A5, A6, A7) -> R, R: TypedValue, A1: TypedValue, A2: TypedValue, A3: TypedValue, A4: TypedValue, A5: TypedValue, A6: TypedValue, A7: TypedValue> Sealed<R, (A1, A2, A3, A4, A5, A6, A7)> for F {}

impl<F: Fn(A1, A2, A3, A4, A5, A6, A7) -> R, R: TypedValue, A1: TypedValue, A2: TypedValue, A3: TypedValue, A4: TypedValue, A5: TypedValue, A6: TypedValue, A7: TypedValue> FunctionDecl<R, (A1, A2, A3, A4, A5, A6, A7)> for F {
    open spec fn spec_arguments() -> Seq<TypeView> {
        seq![A1::spec_value_type(), A2::spec_value_type(), A3::spec_value_type(), A4::spec_value_type(), A5::spec_value_type(), A6::spec_value_type(), A7::spec_value_type()]
    }

    open spec fn spec_result() -> TypeView {
        R::spec_value_type()
    }

    fn arguments() -> (r: Vec<ValueType>) {
        let mut r: Vec<ValueType> = Vec::new();
        assert(view_types(r@) =~= Seq::empty());
        push_type(&mut r, A1::value_type());
        push_type(&mut r, A2::value_type());
        push_type(&mut r, A3::value_type());
        push_type(&mut r, A4::value_type());
        push_type(&mut r, A5::value_type());
        push_type(&mut r, A6::value_type());
        push_type(&mut r, A7::value_type());
        assert(view_types(r@) =~= seq![A1::spec_value_type(), A2::spec_value_type(), A3::spec_value_type(), A4::spec_value_type(), A5::spec_value_type(), A6::spec_value_type(), A7::spec_value_type()]);
        r
    }

    fn result() -> (r: ValueType) {
        R::value_type()
    }
}

impl<F: Fn(A1, A2, A3, A4, A5, A6, A7, A8) -> R, R: TypedValue, A1: TypedValue, A2: TypedValue, A3: TypedValue, A4: TypedValue, A5: TypedValue, A6: TypedValue, A7: TypedValue, A8: TypedValue> Sealed<R, (A1, A2, A3, A4, A5, A6, A7, A8)> for F {}

impl<F: Fn(A1, A2, A3, A4, A5, A6, A7, A8) -> R, R: TypedValue, A1: TypedValue, A2: TypedValue, A3: TypedValue, A4: TypedValue, A5: TypedValue, A6: TypedValue, A7: TypedValue, A8: TypedValue> FunctionDecl<R, (A1, A2, A3, A4, A5, A6, A7, A8)> for F {
    open spec fn spec_arguments() -> Seq<TypeView> {
        seq![A1::spec_value_type(), A2::spec_value_type(), A3::spec_value_type(), A4::spec_value_type(), A5::spec_value_type(), A6::spec_value_type(), A7::spec_value_type(), A8::spec_value_type()]
    }

    open spec fn spec_result() -> TypeView {
        R::spec_value_type()
    }

    fn arguments() -> (r: Vec<ValueType>) {
        let mut r: Vec<ValueType> = Vec::new();
        assert(view_types(r@) =~= Seq::empty());
        push_type(&mut r, A1::value_type());
        push_type(&mut r, A2::value_type());
        push_type(&mut r, A3::value_type());
        push_type(&mut r, A4::value_type());
        push_type(&mut r, A5::value_type());
        push_type(&mut r, A6::value_type());
        push_type(&mut r, A7::value_type());
        push_type(&mut r, A8::value_type());
        assert(view_types(r@) =~= seq![A1::spec_value_type(), A2::spec_value_type(), A3::spec_value_type(), A4::spec_value_type(), A5::spec_value_type(), A6::spec_value_type(), A7::spec_value_type(), A8::spec_value_type()]);
        r
    }

    fn result() -> (r: ValueType) {
        R::value_type()
    }
}

impl<F: Fn(A1, A2, A3, A4, A5, A6, A7, A8, A9) -> R, R: TypedValue, A1: TypedValue, A2: TypedValue, A3: TypedValue, A4: TypedValue, A5: TypedValue, A6: TypedValue, A7: TypedValue, A8: TypedValue, A9: TypedValue> Sealed<R, (A1, A2, A3, A4, A5, A6, A7, A8, A9)> for F {}

impl<F: Fn(A1, A2, A3, A4, A5, A6, A7, A8, A9) -> R, R: TypedValue, A1: TypedValue, A2: TypedValue, A3: TypedValue, A4: TypedValue, A5: TypedValue, A6: TypedValue, A7: TypedValue, A8: TypedValue, A9: TypedValue> FunctionDecl<R, (A1, A2, A3, A4, A5, A6, A7, A8, A9)> for F {
    open spec fn spec_arguments() -> Seq<TypeView> {
        seq![A1::spec_value_type(), A2::spec_value_type(), A3::spec_value_type(), A4::spec_value_type(), A5::spec_value_type(), A6::spec_value_type(), A7::spec_value_type(), A8::spec_value_type(), A9::spec_value_type()]
    }

    open spec fn spec_result() -> TypeView {
        R::spec_value_type()
    }

    fn arguments() -> (r: Vec<ValueType>) {
        let mut r: Vec<ValueType> = Vec::new();
        assert(view_types(r@) =~= Seq::empty());
        push_type(&mut r, A1::value_type());
        push_type(&mut r, A2::value_type());
        push_type(&mut r, A3::value_type());
        push_type(&mut r, A4::value_type());
        push_type(&mut r, A5::value_type());
        push_type(&mut r, A6::value_type());
        push_type(&mut r, A7::value_type());
        push_type(&mut r, A8::value_type());
        push_type(&mut r, A9::value_type());
        assert(view_types(r@) =~= seq![A1::spec_value_type(), A2::spec_value_type(), A3::spec_value_type(), A4::spec_value_type(), A5::spec_value_type(), A6::spec_value_type(), A7::spec_value_type(), A8::spec_value_type(), A9::spec_value_type()]);
        r
    }

    fn result() -> (r: ValueType) {
        R::value_type()
    }
}

impl<F: Fn(A1, A2, A3, A4, A5, A6, A7, A8, A9, A10) -> R, R: TypedValue, A1: TypedValue, A2: TypedValue, A3: TypedValue, A4: TypedValue, A5: TypedValue, A6: TypedValue, A7: TypedValue, A8: TypedValue, A9: TypedValue, A10: TypedValue> Sealed<R, (A1, A2, A3, A4, A5, A6, A7, A8, A9, A10)> for F {}

impl<F: Fn(A1, A2, A3, A4, A5, A6, A7, A8, A9, A10) -> R, R: TypedValue, A1: TypedValue, A2: TypedValue, A3: TypedValue, A4: TypedValue, A5: TypedValue, A6: TypedValue, A7: TypedValue, A8: TypedValue, A9: TypedValue, A10: TypedValue> FunctionDecl<R, (A1, A2, A3, A4, A5, A6, A7, A8, A9, A10)> for F {
    open spec fn spec_arguments() -> Seq<TypeView> {
        seq![A1::spec_value_type(), A2::spec_value_type(), A3::spec_value_type(), A4::spec_value_type(), A5::spec_value_type(), A6::spec_value_type(), A7::spec_value_type(), A8::spec_value_type(), A9::spec_value_type(), A10::spec_value_type()]
    }

    open spec fn spec_result() -> TypeView {
        R::spec_value_type()
    }

    fn arguments() -> (r: Vec<ValueType>) {
        let mut r: Vec<ValueType> = Vec::new();
        assert(view_types(r@) =~= Seq::empty());
        push_type(&mut r, A1::value_type());
        push_type(&mut r, A2::value_type());
        push_type(&mut r, A3::value_type());
        push_type(&mut r, A4::value_type());
        push_type(&mut r, A5::value_type());
        push_type(&mut r, A6::value_type());
        push_type(&mut r, A7::value_type());
        push_type(&mut r, A8::value_type());
        push_type(&mut r, A9::value_type());
        push_type(&mut r, A10::value_type());
        assert(view_types(r@) =~= seq![A1::spec_value_type(), A2::spec_value_type(), A3::spec_value_type(), A4::spec_value_type(), A5::spec_value_type(), A6::spec_value_type(), A7::spec_value_type(), A8::spec_value_type(), A9::spec_value_type(), A10::spec_value_type()]);
        r
    }

    fn result() -> (r: ValueType) {
        R::value_type()
    }
}

/// Tuples of argument types that each have a CEL type: the argument lists a
/// function may have, with zero to ten arguments.
pub trait Arguments: Sized + ArgumentsSealed {}

/// Keeps [`Arguments`] to the tuples of this crate.
pub trait ArgumentsSealed {}

impl ArgumentsSealed for () {}

impl Arguments for () {}

impl<A1: TypedValue> ArgumentsSealed for (A1,) {}

impl<A1: TypedValue> Arguments for (A1,) {}

impl<A1: TypedValue, A2: TypedValue> ArgumentsSealed for (A1, A2) {}

impl<A1: TypedValue, A2: TypedValue> Arguments for (A1, A2) {}

impl<A1: TypedValue, A2: TypedValue, A3: TypedValue> ArgumentsSealed for (A1, A2, A3) {}

impl<A1: TypedValue, A2: TypedValue, A3: TypedValue> Arguments for (A1, A2, A3) {}

impl<A1: TypedValue, A2: TypedValue, A3: TypedValue, A4: TypedValue> ArgumentsSealed for (A1, A2, A3, A4) {}

impl<A1: TypedValue, A2: TypedValue, A3: TypedValue, A4: TypedValue> Arguments for (A1, A2, A3, A4) {}

impl<A1: TypedValue, A2: TypedValue, A3: TypedValue, A4: TypedValue, A5: TypedValue> ArgumentsSealed for (A1, A2, A3, A4, A5) {}

impl<A1: TypedValue, A2: TypedValue, A3: TypedValue, A4: TypedValue, A5: TypedValue> Arguments for (A1, A2, A3, A4, A5) {}

impl<A1: TypedValue, A2: TypedValue, A3: TypedValue, A4: TypedValue, A5: TypedValue, A6: TypedValue> ArgumentsSealed for (A1, A2, A3, A4, A5, A6) {}

impl<A1: TypedValue, A2: TypedValue, A3: TypedValue, A4: TypedValue, A5: TypedValue, A6: TypedValue> Arguments for (A1, A2, A3, A4, A5, A6) {}

impl<A1: TypedValue, A2: TypedValue, A3: TypedValue, A4: TypedValue, A5: TypedValue, A6: TypedValue, A7: TypedValue> ArgumentsSealed for (A1, A2, A3, A4, A5, A6, A7) {}

impl<A1: TypedValue, A2: TypedValue, A3: TypedValue, A4: TypedValue, A5: TypedValue, A6: TypedValue, A7: TypedValue> Arguments for (A1, A2, A3, A4, A5, A6, A7) {}

impl<A1: TypedValue, A2: TypedValue, A3: TypedValue, A4: TypedValue, A5: TypedValue, A6: TypedValue, A7: TypedValue, A8: TypedValue> ArgumentsSealed for (A1, A2, A3, A4, A5, A6, A7, A8) {}

impl<A1: TypedValue, A2: TypedValue, A3: TypedValue, A4: TypedValue, A5: TypedValue, A6: TypedValue, A7: TypedValue, A8: TypedValue> Arguments for (A1, A2, A3, A4, A5, A6, A7, A8) {}

impl<A1: TypedValue, A2: TypedValue, A3: TypedValue, A4: TypedValue, A5: TypedValue, A6: TypedValue, A7: TypedValue, A8: TypedValue, A9: TypedValue> ArgumentsSealed for (A1, A2, A3, A4, A5, A6, A7, A8, A9) {}

impl<A1: TypedValue, A2: TypedValue, A3: TypedValue, A4: TypedValue, A5: TypedValue, A6: TypedValue, A7: TypedValue, A8: TypedValue, A9: TypedValue> Arguments for (A1, A2, A3, A4, A5, A6, A7, A8, A9) {}

impl<A1: TypedValue, A2: TypedValue, A3: TypedValue, A4: TypedValue, A5: TypedValue, A6: TypedValue, A7: TypedValue, A8: TypedValue, A9: TypedValue, A10: TypedValue> ArgumentsSealed for (A1, A2, A3, A4, A5, A6, A7, A8, A9, A10) {}

impl<A1: TypedValue, A2: TypedValue, A3: TypedValue, A4: TypedValue, A5: TypedValue, A6: TypedValue, A7: TypedValue, A8: TypedValue, A9: TypedValue, A10: TypedValue> Arguments for (A1, A2, A3, A4, A5, A6, A7, A8, A9, A10) {}

/// A function of no parameters has no argument types, and its result type is
/// the CEL type of its result.
pub proof fn law_signature_of_0_parameters<F: Fn() -> R, R: TypedValue>()
    ensures
        <F as FunctionDecl<R, ()>>::spec_arguments().len() == 0,
        <F as FunctionDecl<R, ()>>::spec_result() == R::spec_value_type(),
{
}

/// A function of one parameter has one argument type: the CEL type of each
/// parameter, in parameter order; its result type is the CEL type of its result.
pub proof fn law_signature_of_1_parameters<F: Fn(A1) -> R, R: TypedValue, A1: TypedValue>()
    ensures
        <F as FunctionDecl<R, (A1,)>>::spec_arguments().len() == 1,
        <F as FunctionDecl<R, (A1,)>>::spec_arguments()[0] == A1::spec_value_type(),
        <F as FunctionDecl<R, (A1,)>>::spec_result() == R::spec_value_type(),
{
}

/// A function of two parameters has two argument types: the CEL type of each
/// parameter, in parameter order; its result type is the CEL type of its result.
pub proof fn law_signature_of_2_parameters<F: Fn(A1, A2) -> R, R: TypedValue, A1: TypedValue, A2: TypedValue>()
    ensures
        <F as FunctionDecl<R, (A1, A2)>>::spec_arguments().len() == 2,
        <F as FunctionDecl<R, (A1, A2)>>::spec_arguments()[0] == A1::spec_value_type(),
        <F as FunctionDecl<R, (A1, A2)>>::spec_arguments()[1] == A2::spec_value_type(),
        <F as FunctionDecl<R, (A1, A2)>>::spec_result() == R::spec_value_type(),
{
}

/// A function of three parameters has three argument types: the CEL type of each
/// parameter, in parameter order; its result type is the CEL type of its result.
pub proof fn law_signature_of_3_parameters<F: Fn(A1, A2, A3) -> R, R: TypedValue, A1: TypedValue, A2: TypedValue, A3: TypedValue>()
    ensures
        <F as FunctionDecl<R, (A1, A2, A3)>>::spec_arguments().len() == 3,
        <F as FunctionDecl<R, (A1, A2, A3)>>::spec_arguments()[0] == A1::spec_value_type(),
        <F as FunctionDecl<R, (A1, A2, A3)>>::spec_arguments()[1] == A2::spec_value_type(),
        <F as FunctionDecl<R, (A1, A2, A3)>>::spec_arguments()[2] == A3::spec_value_type(),
        <F as FunctionDecl<R, (A1, A2, A3)>>::spec_result() == R::spec_value_type(),
{
}

/// A function of four parameters has four argument types: the CEL type of each
/// parameter, in parameter order; its result type is the CEL type of its result.
pub proof fn law_signature_of_4_parameters<F: Fn(A1, A2, A3, A4) -> R, R: TypedValue, A1: TypedValue, A2: TypedValue, A3: TypedValue, A4: TypedValue>()
    ensures
        <F as FunctionDecl<R, (A1, A2, A3, A4)>>::spec_arguments().len() == 4,
        <F as FunctionDecl<R, (A1, A2, A3, A4)>>::spec_arguments()[0] == A1::spec_value_type(),
        <F as FunctionDecl<R, (A1, A2, A3, A4)>>::spec_arguments()[1] == A2::spec_value_type(),
        <F as FunctionDecl<R, (A1, A2, A3, A4)>>::spec_arguments()[2] == A3::spec_value_type(),
        <F as FunctionDecl<R, (A1, A2, A3, A4)>>::spec_arguments()[3] == A4::spec_value_type(),
        <F as FunctionDecl<R, (A1, A2, A3, A4)>>::spec_result() == R::spec_value_type(),
{
}

/// A function of five parameters has five argument types: the CEL type of each
/// parameter, in parameter order; its result type is the CEL type of its result.
pub proof fn law_signature_of_5_parameters<F: Fn(A1, A2, A3, A4, A5) -> R, R: TypedValue, A1: TypedValue, A2: TypedValue, A3: TypedValue, A4: TypedValue, A5: TypedValue>()
    ensures
        <F as FunctionDecl<R, (A1, A2, A3, A4, A5)>>::spec_arguments().len() == 5,
        <F as FunctionDecl<R, (A1, A2, A3, A4, A5)>>::spec_arguments()[0] == A1::spec_value_type(),
        <F as FunctionDecl<R, (A1, A2, A3, A4, A5)>>::spec_arguments()[1] == A2::spec_value_type(),
        <F as FunctionDecl<R, (A1, A2, A3, A4, A5)>>::spec_arguments()[2] == A3::spec_value_type(),
        <F as FunctionDecl<R, (A1, A2, A3, A4, A5)>>::spec_arguments()[3] == A4::spec_value_type(),
        <F as FunctionDecl<R, (A1, A2, A3, A4, A5)>>::spec_arguments()[4] == A5::spec_value_type(),
        <F as FunctionDecl<R, (A1, A2, A3, A4, A5)>>::spec_result() == R::spec_value_type(),
{
}

/// A function of six parameters has six argument types: the CEL type of each
/// parameter, in parameter order; its result type is the CEL type of its result.
pub proof fn law_signature_of_6_parameters<F: Fn(A1, A2, A3, A4, A5, A6) -> R, R: TypedValue, A1: TypedValue, A2: TypedValue, A3: TypedValue, A4: TypedValue, A5: TypedValue, A6: TypedValue>()
    ensures
        <F as FunctionDecl<R, (A1, A2, A3, A4, A5, A6)>>::spec_arguments().len() == 6,
        <F as FunctionDecl<R, (A1, A2, A3, A4, A5, A6)>>::spec_arguments()[0] == A1::spec_value_type(),
        <F as FunctionDecl<R, (A1, A2, A3, A4, A5, A6)>>::spec_arguments()[1] == A2::spec_value_type(),
        <F as FunctionDecl<R, (A1, A2, A3, A4, A5, A6)>>::spec_arguments()[2] == A3::spec_value_type(),
        <F as FunctionDecl<R, (A1, A2, A3, A4, A5, A6)>>::spec_arguments()[3] == A4::spec_value_type(),
        <F as FunctionDecl<R, (A1, A2, A3, A4, A5, A6)>>::spec_arguments()[4] == A5::spec_value_type(),
        <F as FunctionDecl<R, (A1, A2, A3, A4, A5, A6)>>::spec_arguments()[5] == A6::spec_value_type(),
        <F as FunctionDecl<R, (A1, A2, A3, A4, A5, A6)>>::spec_result() == R::spec_value_type(),
{
}

/// A function of seven parameters has seven argument types: the CEL type of each
/// parameter, in parameter order; its result type is the CEL type of its result.
pub proof fn law_signature_of_7_parameters<F: Fn(A1, A2, A3, A4, A5, A6, A7) -> R, R: TypedValue, A1: TypedValue, A2: TypedValue, A3: TypedValue, A4: TypedValue, A5: TypedValue, A6: TypedValue, A7: TypedValue>()
    ensures
        <F as FunctionDecl<R, (A1, A2, A3, A4, A5, A6, A7)>>::spec_arguments().len() == 7,
        <F as FunctionDecl<R, (A1, A2, A3, A4, A5, A6, A7)>>::spec_arguments()[0] == A1::spec_value_type(),
        <F as FunctionDecl<R, (A1, A2, A3, A4, A5, A6, A7)>>::spec_arguments()[1] == A2::spec_value_type(),
        <F as FunctionDecl<R, (A1, A2, A3, A4, A5, A6, A7)>>::spec_arguments()[2] == A3::spec_value_type(),
        <F as FunctionDecl<R, (A1, A2, A3, A4, A5, A6, A7)>>::spec_arguments()[3] == A4::spec_value_type(),
        <F as FunctionDecl<R, (A1, A2, A3, A4, A5, A6, A7)>>::spec_arguments()[4] == A5::spec_value_type(),
        <F as FunctionDecl<R, (A1, A2, A3, A4, A5, A6, A7)>>::spec_arguments()[5] == A6::spec_value_type(),
        <F as FunctionDecl<R, (A1, A2, A3, A4, A5, A6, A7)>>::spec_arguments()[6] == A7::spec_value_type(),
        <F as FunctionDecl<R, (A1, A2, A3, A4, A5, A6, A7)>>::spec_result() == R::spec_value_type(),
{
}

/// A function of eight parameters has eight argument types: the CEL type of each
/// parameter, in parameter order; its result type is the CEL type of its result.
pub proof fn law_signature_of_8_parameters<F: Fn(A1, A2, A3, A4, A5, A6, A7, A8) -> R, R: TypedValue, A1: TypedValue, A2: TypedValue, A3: TypedValue, A4: TypedValue, A5: TypedValue, A6: TypedValue, A7: TypedValue, A8: TypedValue>()
    ensures
        <F as FunctionDecl<R, (A1, A2, A3, A4, A5, A6, A7, A8)>>::spec_arguments().len() == 8,
        <F as FunctionDecl<R, (A1, A2, A3, A4, A5, A6, A7, A8)>>::spec_arguments()[0] == A1::spec_value_type(),
        <F as FunctionDecl<R, (A1, A2, A3, A4, A5, A6, A7, A8)>>::spec_arguments()[1] == A2::spec_value_type(),
        <F as FunctionDecl<R, (A1, A2, A3, A4, A5, A6, A7, A8)>>::spec_arguments()[2] == A3::spec_value_type(),
        <F as FunctionDecl<R, (A1, A2, A3, A4, A5, A6, A7, A8)>>::spec_arguments()[3] == A4::spec_value_type(),
        <F as FunctionDecl<R, (A1, A2, A3, A4, A5, A6, A7, A8)>>::spec_arguments()[4] == A5::spec_value_type(),
        <F as FunctionDecl<R, (A1, A2, A3, A4, A5, A6, A7, A8)>>::spec_arguments()[5] == A6::spec_value_type(),
        <F as FunctionDecl<R, (A1, A2, A3, A4, A5, A6, A7, A8)>>::spec_arguments()[6] == A7::spec_value_type(),
        <F as FunctionDecl<R, (A1, A2, A3, A4, A5, A6, A7, A8)>>::spec_arguments()[7] == A8::spec_value_type(),
        <F as FunctionDecl<R, (A1, A2, A3, A4, A5, A6, A7, A8)>>::spec_result() == R::spec_value_type(),
{
}

/// A function of nine parameters has nine argument types: the CEL type of each
/// parameter, in parameter order; its result type is the CEL type of its result.
pub proof fn law_signature_of_9_parameters<F: Fn(A1, A2, A3, A4, A5, A6, A7, A8, A9) -> R, R: TypedValue, A1: TypedValue, A2: TypedValue, A3: TypedValue, A4: TypedValue, A5: TypedValue, A6: TypedValue, A7: TypedValue, A8: TypedValue, A9: TypedValue>()
    ensures
        <F as FunctionDecl<R, (A1, A2, A3, A4, A5, A6, A7, A8, A9)>>::spec_arguments().len() == 9,
        <F as FunctionDecl<R, (A1, A2, A3, A4, A5, A6, A7, A8, A9)>>::spec_arguments()[0] == A1::spec_value_type(),
        <F as FunctionDecl<R, (A1, A2, A3, A4, A5, A6, A7, A8, A9)>>::spec_arguments()[1] == A2::spec_value_type(),
        <F as FunctionDecl<R, (A1, A2, A3, A4, A5, A6, A7, A8, A9)>>::spec_arguments()[2] == A3::spec_value_type(),
        <F as FunctionDecl<R, (A1, A2, A3, A4, A5, A6, A7, A8, A9)>>::spec_arguments()[3] == A4::spec_value_type(),
        <F as FunctionDecl<R, (A1, A2, A3, A4, A5, A6, A7, A8, A9)>>::spec_arguments()[4] == A5::spec_value_type(),
        <F as FunctionDecl<R, (A1, A2, A3, A4, A5, A6, A7, A8, A9)>>::spec_arguments()[5] == A6::spec_value_type(),
        <F as FunctionDecl<R, (A1, A2, A3, A4, A5, A6, A7, A8, A9)>>::spec_arguments()[6] == A7::spec_value_type(),
        <F as FunctionDecl<R, (A1, A2, A3, A4, A5, A6, A7, A8, A9)>>::spec_arguments()[7] == A8::spec_value_type(),
        <F as FunctionDecl<R, (A1, A2, A3, A4, A5, A6, A7, A8, A9)>>::spec_arguments()[8] == A9::spec_value_type(),
        <F as FunctionDecl<R, (A1, A2, A3, A4, A5, A6, A7, A8, A9)>>::spec_result() == R::spec_value_type(),
{
}

/// A function of ten parameters has ten argument types: the CEL type of each
/// parameter, in parameter order; its result type is the CEL type of its result.
pub proof fn law_signature_of_10_parameters<F: Fn(A1, A2, A3, A4, A5, A6, A7, A8, A9, A10) -> R, R: TypedValue, A1: TypedValue, A2: TypedValue, A3: TypedValue, A4: TypedValue, A5: TypedValue, A6: TypedValue, A7: TypedValue, A8: TypedValue, A9: TypedValue, A10: TypedValue>()
    ensures
        <F as FunctionDecl<R, (A1, A2, A3, A4, A5, A6, A7, A8, A9, A10)>>::spec_arguments().len() == 10,
        <F as FunctionDecl<R, (A1, A2, A3, A4, A5, A6, A7, A8, A9, A10)>>::spec_arguments()[0] == A1::spec_value_type(),
        <F as FunctionDecl<R, (A1, A2, A3, A4, A5, A6, A7, A8, A9, A10)>>::spec_arguments()[1] == A2::spec_value_type(),
        <F as FunctionDecl<R, (A1, A2, A3, A4, A5, A6, A7, A8, A9, A10)>>::spec_arguments()[2] == A3::spec_value_type(),
        <F as FunctionDecl<R, (A1, A2, A3, A4, A5, A6, A7, A8, A9, A10)>>::spec_arguments()[3] == A4::spec_value_type(),
        <F as FunctionDecl<R, (A1, A2, A3, A4, A5, A6, A7, A8, A9, A10)>>::spec_arguments()[4] == A5::spec_value_type(),
        <F as FunctionDecl<R, (A1, A2, A3, A4, A5, A6, A7, A8, A9, A10)>>::spec_arguments()[5] == A6::spec_value_type(),
        <F as FunctionDecl<R, (A1, A2, A3, A4, A5, A6, A7, A8, A9, A10)>>::spec_arguments()[6] == A7::spec_value_type(),
        <F as FunctionDecl<R, (A1, A2, A3, A4, A5, A6, A7, A8, A9, A10)>>::spec_arguments()[7] == A8::spec_value_type(),
        <F as FunctionDecl<R, (A1, A2, A3, A4, A5, A6, A7, A8, A9, A10)>>::spec_arguments()[8] == A9::spec_value_type(),
        <F as FunctionDecl<R, (A1, A2, A3, A4, A5, A6, A7, A8, A9, A10)>>::spec_arguments()[9] == A10::spec_value_type(),
        <F as FunctionDecl<R, (A1, A2, A3, A4, A5, A6, A7, A8, A9, A10)>>::spec_result() == R::spec_value_type(),
{
}

} // verus!
