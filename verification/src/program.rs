//! Dispatch of evaluation by function and runtime markers.
use vstd::prelude::*;
use std::marker::PhantomData;

verus! {

/// Chooses synchronous or asynchronous evaluation by the function marker `Fm`
/// and the runtime marker `Rm`.
#[derive(Debug)]
pub struct EvalDispatcher<Fm, Rm> {
    _fn_marker: PhantomData<Fm>,
    _rt_marker: PhantomData<Rm>,
}

impl<Fm, Rm> EvalDispatcher<Fm, Rm> {
    /// Creates a dispatcher.
    pub fn new() -> (r: Self) {
        EvalDispatcher { _fn_marker: PhantomData, _rt_marker: PhantomData }
    }
}

impl<Fm, Rm> Default for EvalDispatcher<Fm, Rm> {
    fn default() -> (r: Self) {
        Self::new()
    }
}

} // verus!
