//! The asynchronous runtimes that evaluation can run on.
use vstd::prelude::*;

verus! {

/// The Tokio runtime (a type-level marker of which no value is made outside
/// this crate).
#[derive(Debug)]
pub struct Tokio(());

/// Blocks on futures on the current Tokio runtime.
#[derive(Debug)]
pub struct TokioBlockingRunner;

/// The async-std runtime (a type-level marker).
#[derive(Debug)]
pub struct AsyncStd(());

/// Blocks on futures with async-std.
#[derive(Debug)]
pub struct AsyncStdBlockingRunner;

/// The smol runtime (a type-level marker).
#[derive(Debug)]
pub struct Smol(());

/// Spawns scoped tasks on smol.
#[derive(Debug, Default)]
pub struct SmolScopedSpawner;

/// Blocks on futures with smol.
#[derive(Debug)]
pub struct SmolBlockingRunner;

} // verus!
