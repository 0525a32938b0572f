//! Marker types and traits that tell synchronous from asynchronous functions
//! and runtimes.
use vstd::prelude::*;
use crate::rt::{AsyncStd, Smol, Tokio};

verus! {

/// Keeps the marker traits to the types of this crate.
pub trait Sealed {}

/// A runtime marker: `()` for no asynchronous runtime, or one of the
/// asynchronous runtimes.
pub trait RuntimeMarker: Sealed {}

/// A function marker: `()` for synchronous functions, [`Async`] for
/// asynchronous ones.
pub trait FnMarker: Sealed {}

/// The function marker of a context that combines two function markers: it is
/// asynchronous when either is.
pub trait FnMarkerAggr<Other: FnMarker>: FnMarker {
    /// The combined marker.
    type Output: FnMarker;
}

/// The type of a function's result under a function marker.
pub trait FnResult<'a, T>: FnMarker {
    /// The result type.
    type Output;
}

/// A function marker of asynchronous functions.
pub trait FnMarkerAsync: FnMarker {}

/// The marker of asynchronous functions; a type-level marker of which no
/// value is made outside this crate.
#[derive(Debug)]
pub struct Async(());

impl Sealed for () {}

impl Sealed for Async {}

impl Sealed for Tokio {}

impl Sealed for AsyncStd {}

impl Sealed for Smol {}

impl RuntimeMarker for () {}

impl RuntimeMarker for Tokio {}

impl RuntimeMarker for AsyncStd {}

impl RuntimeMarker for Smol {}

impl FnMarker for () {}

impl FnMarker for Async {}

impl FnMarkerAsync for Async {}

impl FnMarkerAggr<()> for () {
    type Output = ();
}

impl FnMarkerAggr<()> for Async {
    type Output = Async;
}

impl FnMarkerAggr<Async> for () {
    type Output = Async;
}

impl FnMarkerAggr<Async> for Async {
    type Output = Async;
}

impl<'a, T> FnResult<'a, T> for () {
    type Output = T;
}

} // verus!
