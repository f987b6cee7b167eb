//! Entry points of a staking program.
//!
//! The program answers three instructions: one that sets up its configuration,
//! one that registers a user, and one that adds a stake. Each entry point hands
//! its call to the handler of that instruction and gives back what the handler
//! gave. What a handler does with the accounts is the handler's own business:
//! an entry point is stated, and proved, for every handler.

use vstd::prelude::*;

pub mod error;

pub use error::StakingError;

verus! {

/// Sets up the program's configuration: runs `handler` once on the instruction's
/// context and arguments, and returns the handler's outcome unchanged.
pub fn init_config<C, A, E, H>(ctx: C, args: A, handler: H) -> (outcome: Result<(), E>) where
    H: FnOnce(C, A) -> Result<(), E>,

    requires
        handler.requires((ctx, args)),
    ensures
        handler.ensures((ctx, args), outcome),
{
    handler(ctx, args)
}

/// Registers a user: runs `handler` once on the instruction's context, and
/// returns the handler's outcome unchanged.
pub fn register_user<C, E, H>(ctx: C, handler: H) -> (outcome: Result<(), E>) where
    H: FnOnce(C) -> Result<(), E>,

    requires
        handler.requires((ctx,)),
    ensures
        handler.ensures((ctx,), outcome),
{
    handler(ctx)
}

/// Adds a stake: runs `handler` once on the instruction's context, and returns
/// the handler's outcome unchanged. A handler that finds the stake limit
/// exceeded fails, and so does this call, with the same error.
pub fn add_stake<C, E, H>(ctx: C, handler: H) -> (outcome: Result<(), E>) where
    H: FnOnce(C) -> Result<(), E>,

    requires
        handler.requires((ctx,)),
    ensures
        handler.ensures((ctx,), outcome),
{
    handler(ctx)
}

} // verus!
