//! Parameters of a Meteora DAMM v2 trade.
use vstd::prelude::*;
use crate::address::Address;

verus! {

/// The accounts of a Meteora DAMM v2 pool that a trade passes.
#[derive(Clone, Copy, Debug, PartialEq, Eq)]
pub struct MeteoraDammV2Params {
    pub pool: Address,
    pub token_a_vault: Address,
    pub token_b_vault: Address,
    pub token_a_mint: Address,
    pub token_b_mint: Address,
    pub token_a_program: Address,
    pub token_b_program: Address,
}

/// The vaults and mints read from a pool account.
#[derive(Clone, Copy, Debug, PartialEq, Eq)]
pub struct PoolState {
    pub token_a_vault: Address,
    pub token_b_vault: Address,
    pub token_a_mint: Address,
    pub token_b_mint: Address,
}

/// Why pool parameters could not be assembled.
#[derive(Clone, Copy, Debug, PartialEq, Eq, Structural)]
pub enum PoolParamsError {
    /// The token A mint account was not found.
    TokenAMintNotFound,
    /// The token B mint account was not found.
    TokenBMintNotFound,
}

/// The owner found at position `i` of the fetched mint accounts, if any.
pub open spec fn spec_owner_at(owners: Seq<Option<Address>>, i: int) -> Option<Address> {
    if 0 <= i < owners.len() {
        owners[i]
    } else {
        None
    }
}

impl MeteoraDammV2Params {
    pub fn new(
        pool: Address,
        token_a_vault: Address,
        token_b_vault: Address,
        token_a_mint: Address,
        token_b_mint: Address,
        token_a_program: Address,
        token_b_program: Address,
    ) -> (p: Self)
        ensures
            p == (MeteoraDammV2Params {
                pool,
                token_a_vault,
                token_b_vault,
                token_a_mint,
                token_b_mint,
                token_a_program,
                token_b_program,
            }),
    {
        MeteoraDammV2Params {
            pool,
            token_a_vault,
            token_b_vault,
            token_a_mint,
            token_b_mint,
            token_a_program,
            token_b_program,
        }
    }

    /// Parameters for `pool_address` from its fetched state and the owners of the mint
    /// accounts fetched for `[token_a_mint, token_b_mint]` (`None` where an account is
    /// missing). Token A's program is the owner at position 0, token B's at position 1.
    pub fn from_fetched_pool(
        pool_address: Address,
        pool: PoolState,
        mint_owners: &Vec<Option<Address>>,
    ) -> (r: Result<Self, PoolParamsError>)
        ensures
            spec_owner_at(mint_owners@, 0) is None ==> r == Err::<Self, PoolParamsError>(
                PoolParamsError::TokenAMintNotFound,
            ),
            spec_owner_at(mint_owners@, 0) is Some && spec_owner_at(mint_owners@, 1) is None ==> r
                == Err::<Self, PoolParamsError>(PoolParamsError::TokenBMintNotFound),
            spec_owner_at(mint_owners@, 0) matches Some(a) ==> spec_owner_at(mint_owners@, 1) matches Some(b)
                ==> r == Ok::<Self, PoolParamsError>(
                MeteoraDammV2Params {
                    pool: pool_address,
                    token_a_vault: pool.token_a_vault,
                    token_b_vault: pool.token_b_vault,
                    token_a_mint: pool.token_a_mint,
                    token_b_mint: pool.token_b_mint,
                    token_a_program: a,
                    token_b_program: b,
                },
            ),
    {
        let token_a_program = if mint_owners.len() > 0 {
            match mint_owners[0] {
                Some(a) => a,
                None => { return Err(PoolParamsError::TokenAMintNotFound) },
            }
        } else {
            return Err(PoolParamsError::TokenAMintNotFound);
        };
        let token_b_program = if mint_owners.len() > 1 {
            match mint_owners[1] {
                Some(b) => b,
                None => { return Err(PoolParamsError::TokenBMintNotFound) },
            }
        } else {
            return Err(PoolParamsError::TokenBMintNotFound);
        };
        Ok(MeteoraDammV2Params {
            pool: pool_address,
            token_a_vault: pool.token_a_vault,
            token_b_vault: pool.token_b_vault,
            token_a_mint: pool.token_a_mint,
            token_b_mint: pool.token_b_mint,
            token_a_program,
            token_b_program,
        })
    }
}

} // verus!
