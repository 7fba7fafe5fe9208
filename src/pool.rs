//! The pool record: fee schedule, curve variant and canonical token identities.

use crate::calculator::CurveCalculator;
use crate::error::ErrorCode;
use crate::fees::Fees;
use crate::swap_curve::SwapCurve;
use crate::utils::{key_lt, Pubkey};
use vstd::prelude::*;

verus! {

/// Marker for the pool-token mint, whose address is derived from the pool's seed.
pub struct LPMint {
    pub unused: u8,
}

/// The durable configuration of a pool, as the ledger stores it.
#[derive(Clone, Copy, Debug)]
pub struct Pool {
    pub seed: [u8; 32],
    pub bump: u8,
    pub lp_bump: u8,
    pub admin: Pubkey,
    /// The lower of the two token mints.
    pub token_mint_1: Pubkey,
    /// The higher of the two token mints.
    pub token_mint_2: Pubkey,
    /// Reserve account of `token_mint_1`.
    pub token_vault_1: Pubkey,
    /// Reserve account of `token_mint_2`.
    pub token_vault_2: Pubkey,
    /// The pool-token mint.
    pub mint: Pubkey,
    /// Account collecting owner and withdraw fees, in pool tokens.
    pub fee_vault: Pubkey,
    pub fees: Fees,
    pub curve: SwapCurve,
    pub suspended: bool,
}

/// Optional new values of a pool's admin-managed fields.
#[derive(Clone, Copy, Debug)]
pub struct PoolConfig {
    pub admin: Option<Pubkey>,
    pub fees: Option<Fees>,
    pub suspended: Option<bool>,
}

impl Pool {
    /// The pool's invariant: its mints are in strictly increasing order, and its fee schedule
    /// and curve parameters are acceptable.
    pub open spec fn well_formed(self) -> bool {
        &&& key_lt(self.token_mint_1, self.token_mint_2)
        &&& self.fees.valid()
        &&& self.curve.spec_valid()
    }

    /// Whether the pool trades the token of mint `acc`.
    pub fn swaps(&self, acc: &Pubkey) -> (r: bool)
        ensures
            r == (*acc == self.token_mint_1 || *acc == self.token_mint_2),
    {
        *acc == self.token_mint_1 || *acc == self.token_mint_2
    }

    /// Applies the fields that `config` sets. A new fee schedule is validated first; when it
    /// is invalid nothing changes.
    pub fn config(&mut self, config: &PoolConfig) -> (r: Result<(), ErrorCode>)
        ensures
            (config.fees matches Some(f) && !f.valid()) ==> r == Err::<(), ErrorCode>(ErrorCode::InvalidFee)
                && *final(self) == *old(self),
            !(config.fees matches Some(f) && !f.valid()) ==> {
                &&& r is Ok
                &&& final(self).admin == (match config.admin {
                    Some(a) => a,
                    None => old(self).admin,
                })
                &&& final(self).fees == (match config.fees {
                    Some(f) => f,
                    None => old(self).fees,
                })
                &&& final(self).suspended == (match config.suspended {
                    Some(s) => s,
                    None => old(self).suspended,
                })
                &&& final(self).seed == old(self).seed
                &&& final(self).bump == old(self).bump
                &&& final(self).lp_bump == old(self).lp_bump
                &&& final(self).token_mint_1 == old(self).token_mint_1
                &&& final(self).token_mint_2 == old(self).token_mint_2
                &&& final(self).token_vault_1 == old(self).token_vault_1
                &&& final(self).token_vault_2 == old(self).token_vault_2
                &&& final(self).mint == old(self).mint
                &&& final(self).fee_vault == old(self).fee_vault
                &&& final(self).curve == old(self).curve
            },
            old(self).well_formed() && r is Ok ==> final(self).well_formed(),
    {
        if let Some(fees) = config.fees {
            fees.validate()?;
        }
        if let Some(admin) = config.admin {
            self.admin = admin;
        }
        if let Some(fees) = config.fees {
            self.fees = fees;
        }
        if let Some(suspended) = config.suspended {
            self.suspended = suspended;
        }
        Ok(())
    }
}

/// Rejects trading on a suspended pool; every user-facing operation checks this first.
pub fn suspended(pool: &Pool) -> (r: Result<(), ErrorCode>)
    ensures
        pool.suspended ==> r == Err::<(), ErrorCode>(ErrorCode::Suspended),
        !pool.suspended ==> r is Ok,
{
    if pool.suspended {
        Err(ErrorCode::Suspended)
    } else {
        Ok(())
    }
}

} // verus!
