//! The admin's switches: the pause of purchases and the flag of the later
//! phase.

use crate::address::Address;
use crate::error::PresaleError;
use crate::state::Presale;
use vstd::prelude::*;

verus! {

/// What an admin operation works on: who calls, and the sale record.
#[derive(Clone, Copy, Debug, PartialEq, Eq)]
pub struct AdminOnly {
    /// Who calls.
    pub admin: Address,
    /// The sale record.
    pub presale: Presale,
}

impl AdminOnly {
    /// The caller is the admin of the sale.
    pub open spec fn authorized(self) -> bool {
        self.admin@ == self.presale.admin@
    }

    /// Whether the caller is the admin of the sale.
    pub fn is_authorized(&self) -> (authorized: bool)
        ensures
            authorized == self.authorized(),
    {
        self.admin == self.presale.admin
    }
}

/// Pauses or resumes purchases. Only the admin may; for anyone else the call
/// fails with `Unauthorized` and changes nothing.
pub fn set_paused(ctx: &mut AdminOnly, paused: bool) -> (set: Result<(), PresaleError>)
    ensures
        match set {
            Ok(()) => {
                &&& old(ctx).authorized()
                &&& *final(ctx) == (AdminOnly {
                    presale: Presale { paused, ..old(ctx).presale },
                    ..*old(ctx)
                })
            },
            Err(error) => {
                &&& !old(ctx).authorized()
                &&& error == PresaleError::Unauthorized
                &&& *final(ctx) == *old(ctx)
            },
        },        set is Ok ==> final(ctx).presale.paused == paused,
        old(ctx).authorized() && old(ctx).presale.paused == paused ==> *final(ctx) == *old(ctx),
{
    if !ctx.is_authorized() {
        return Err(PresaleError::Unauthorized);
    }
    ctx.presale.paused = paused;
    Ok(())
}

/// Switches the flag of the later phase. Only the admin may; for anyone else
/// the call fails with `Unauthorized` and changes nothing.
pub fn set_tge(ctx: &mut AdminOnly, live: bool) -> (set: Result<(), PresaleError>)
    ensures
        match set {
            Ok(()) => {
                &&& old(ctx).authorized()
                &&& *final(ctx) == (AdminOnly {
                    presale: Presale { tge_live: live, ..old(ctx).presale },
                    ..*old(ctx)
                })
            },
            Err(error) => {
                &&& !old(ctx).authorized()
                &&& error == PresaleError::Unauthorized
                &&& *final(ctx) == *old(ctx)
            },
        },        set is Ok ==> final(ctx).presale.tge_live == live,
        old(ctx).authorized() && old(ctx).presale.tge_live == live ==> *final(ctx) == *old(ctx),
{
    if !ctx.is_authorized() {
        return Err(PresaleError::Unauthorized);
    }
    ctx.presale.tge_live = live;
    Ok(())
}

} // verus!
