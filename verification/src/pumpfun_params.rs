//! Parameters of a pump.fun bonding-curve trade.
use vstd::prelude::*;
use crate::address::{Address, zero_address};

verus! {

/// The fields of an on-chain bonding-curve account, as decoded from its data.
#[derive(Clone, Copy, Debug, PartialEq, Eq)]
pub struct BondingCurveState {
    pub virtual_token_reserves: u64,
    pub virtual_sol_reserves: u64,
    pub real_token_reserves: u64,
    pub real_sol_reserves: u64,
    pub token_total_supply: u64,
    pub complete: bool,
    pub creator: Address,
    pub is_mayhem_mode: bool,
    pub is_cashback_coin: bool,
}

/// A bonding curve: its address and its state.
#[derive(Clone, Copy, Debug, PartialEq, Eq)]
pub struct BondingCurveAccount {
    pub discriminator: u64,
    pub account: Address,
    pub virtual_token_reserves: u64,
    pub virtual_sol_reserves: u64,
    pub real_token_reserves: u64,
    pub real_sol_reserves: u64,
    pub token_total_supply: u64,
    pub complete: bool,
    pub creator: Address,
    pub is_mayhem_mode: bool,
    pub is_cashback_coin: bool,
}

/// The curve with every number zero, every flag off and every address zero.
pub open spec fn spec_empty_curve() -> BondingCurveAccount {
    BondingCurveAccount {
        discriminator: 0,
        account: zero_address(),
        virtual_token_reserves: 0,
        virtual_sol_reserves: 0,
        real_token_reserves: 0,
        real_sol_reserves: 0,
        token_total_supply: 0,
        complete: false,
        creator: zero_address(),
        is_mayhem_mode: false,
        is_cashback_coin: false,
    }
}

/// The curve account built from a fetched state at `account`, with discriminator 0.
pub open spec fn spec_curve_from_state(state: BondingCurveState, account: Address) -> BondingCurveAccount {
    BondingCurveAccount {
        discriminator: 0,
        account,
        virtual_token_reserves: state.virtual_token_reserves,
        virtual_sol_reserves: state.virtual_sol_reserves,
        real_token_reserves: state.real_token_reserves,
        real_sol_reserves: state.real_sol_reserves,
        token_total_supply: state.token_total_supply,
        complete: state.complete,
        creator: state.creator,
        is_mayhem_mode: state.is_mayhem_mode,
        is_cashback_coin: state.is_cashback_coin,
    }
}

impl Default for BondingCurveAccount {
    fn default() -> (c: Self)
        ensures
            c == spec_empty_curve(),
    {
        BondingCurveAccount {
            discriminator: 0,
            account: Address::zeroed(),
            virtual_token_reserves: 0,
            virtual_sol_reserves: 0,
            real_token_reserves: 0,
            real_sol_reserves: 0,
            token_total_supply: 0,
            complete: false,
            creator: Address::zeroed(),
            is_mayhem_mode: false,
            is_cashback_coin: false,
        }
    }
}

impl BondingCurveAccount {
    /// The curve account for a fetched state at `account`.
    pub fn from_state(state: BondingCurveState, account: Address) -> (c: Self)
        ensures
            c == spec_curve_from_state(state, account),
            c.discriminator == 0,
            c.account == account,
            c.virtual_token_reserves == state.virtual_token_reserves,
            c.virtual_sol_reserves == state.virtual_sol_reserves,
            c.real_token_reserves == state.real_token_reserves,
            c.real_sol_reserves == state.real_sol_reserves,
            c.token_total_supply == state.token_total_supply,
            c.complete == state.complete,
            c.creator == state.creator,
            c.is_mayhem_mode == state.is_mayhem_mode,
            c.is_cashback_coin == state.is_cashback_coin,
    {
        BondingCurveAccount {
            discriminator: 0,
            account,
            virtual_token_reserves: state.virtual_token_reserves,
            virtual_sol_reserves: state.virtual_sol_reserves,
            real_token_reserves: state.real_token_reserves,
            real_sol_reserves: state.real_sol_reserves,
            token_total_supply: state.token_total_supply,
            complete: state.complete,
            creator: state.creator,
            is_mayhem_mode: state.is_mayhem_mode,
            is_cashback_coin: state.is_cashback_coin,
        }
    }
}

/// Parameters of a pump.fun trade.
///
/// `creator_vault` is the vault that buy and sell pass; `fee_sharing_creator_vault_if_active`
/// is the fee-sharing vault when creator-reward sharing is active; `fee_recipient` is the
/// fee account of buys and sells (zero: pick one from the static pool).
#[derive(Clone, Copy, Debug, PartialEq, Eq)]
pub struct PumpFunParams {
    pub bonding_curve: BondingCurveAccount,
    pub associated_bonding_curve: Address,
    pub creator_vault: Address,
    pub fee_sharing_creator_vault_if_active: Option<Address>,
    pub token_program: Address,
    pub close_token_account_when_sell: Option<bool>,
    pub fee_recipient: Address,
}

/// The creator vault a trade uses: the resolved vault if there is one, else the vault
/// derived from the creator if that derivation succeeded, else the zero address.
pub open spec fn spec_pick_creator_vault(resolved: Option<Address>, derived: Option<Address>) -> Address {
    match resolved {
        Some(v) => v,
        None => match derived {
            Some(v) => v,
            None => zero_address(),
        },
    }
}

/// Law: the creator vault is the resolved vault whenever there is one, else the derived
/// vault whenever there is one, else the zero address; a hint equal to the derived vault is
/// kept for a trade.
pub proof fn law_creator_vault_choice(hint: Address, resolved: Option<Address>, derived: Option<Address>)
    ensures
        resolved matches Some(v) ==> spec_pick_creator_vault(resolved, derived) == v,
        resolved is None && derived is Some ==> spec_pick_creator_vault(resolved, derived)
            == derived->0,
        resolved is None && derived is None ==> spec_pick_creator_vault(resolved, derived).is_zero(),
        derived == Some(hint) ==> spec_trade_creator_vault(hint, resolved, derived) == hint,
        derived != Some(hint) ==> spec_trade_creator_vault(hint, resolved, derived)
            == spec_pick_creator_vault(resolved, derived),
{
    broadcast use vstd::array::group_array_axioms;
}

/// Picks the creator vault: `resolved`, or else `derived`, or else the zero address.
pub fn pick_creator_vault(resolved: Option<Address>, derived: Option<Address>) -> (v: Address)
    ensures
        v == spec_pick_creator_vault(resolved, derived),
{
    match resolved {
        Some(v) => v,
        None => match derived {
            Some(v) => v,
            None => Address::zeroed(),
        },
    }
}

/// A non-empty list of fee-recipient addresses.
#[derive(Clone, Debug, PartialEq, Eq)]
pub struct FeeRecipientPool {
    pub first: Address,
    pub rest: Vec<Address>,
}

/// The static fee-recipient pools: the normal one and the Mayhem one.
#[derive(Clone, Debug, PartialEq, Eq)]
pub struct FeeRecipientPools {
    pub normal: FeeRecipientPool,
    pub mayhem: FeeRecipientPool,
}

impl FeeRecipientPool {
    /// The pool's addresses, in order.
    pub open spec fn members(&self) -> Seq<Address> {
        seq![self.first] + self.rest@
    }

    /// The member at position `draw` modulo the pool's size.
    pub open spec fn spec_pick(&self, draw: u64) -> Address {
        self.members()[(draw as int) % (self.members().len() as int)]
    }

    /// Whether `a` is in the pool.
    pub fn contains(&self, a: &Address) -> (r: bool)
        ensures
            r == self.members().contains(*a),
    {
        if self.first.same(a) {
            assert(self.members()[0] == *a);
            return true;
        }
        let mut i: usize = 0;
        while i < self.rest.len()
            invariant
                0 <= i <= self.rest@.len(),
                self.first != *a,
                forall|j: int| 0 <= j < i ==> self.rest@[j] != *a,
            decreases self.rest@.len() - i,
        {
            if self.rest[i].same(a) {
                assert(self.members()[i + 1] == *a);
                return true;
            }
            i = i + 1;
        }
        assert(!self.members().contains(*a)) by {
            if self.members().contains(*a) {
                let k = choose|k: int| 0 <= k < self.members().len() && self.members()[k] == *a;
                if k > 0 {
                    assert(self.rest@[k - 1] == *a);
                }
            }
        }
        false
    }

    /// The member at position `draw` modulo the pool's size.
    pub fn pick(&self, draw: u64) -> (a: Address)
        ensures
            a == self.spec_pick(draw),
            self.members().contains(a),
    {
        let n = self.rest.len();
        let size: u128 = n as u128 + 1;
        let i = ((draw as u128) % size) as usize;
        assert(self.members().len() == size);
        if i == 0 {
            assert(self.members()[0] == self.first);
            self.first
        } else {
            assert(self.members()[i as int] == self.rest@[i - 1]);
            self.rest[i - 1]
        }
    }
}

/// Whether a trade's curve is in Mayhem mode: with no hint, exactly when the fee recipient is
/// one of the reserved Mayhem fee recipients; with a hint, the hint, unless the fee recipient
/// belongs to one pool, whose mode then wins (Mayhem pool: on, normal pool: off).
pub open spec fn spec_reconcile_mayhem_mode(
    mayhem_mode: Option<bool>,
    fee_recipient: Address,
    pools: FeeRecipientPools,
) -> bool {
    let in_mayhem = pools.mayhem.members().contains(fee_recipient);
    let in_normal = pools.normal.members().contains(fee_recipient);
    match mayhem_mode {
        None => in_mayhem,
        Some(v) => if in_mayhem {
            true
        } else if in_normal {
            false
        } else {
            v
        },
    }
}

/// Law: a fee recipient in the Mayhem pool gives Mayhem mode whatever the hint; one only in
/// the normal pool gives normal mode whatever the hint; with no hint Mayhem mode is exactly
/// membership of the Mayhem pool; a hint is kept when it agrees with the fee recipient's pool
/// or the fee recipient is in neither pool.
pub proof fn law_reconcile_mayhem_mode(
    mayhem_mode: Option<bool>,
    fee_recipient: Address,
    pools: FeeRecipientPools,
)
    ensures
        pools.mayhem.members().contains(fee_recipient) ==> spec_reconcile_mayhem_mode(
            mayhem_mode,
            fee_recipient,
            pools,
        ),
        !pools.mayhem.members().contains(fee_recipient) && pools.normal.members().contains(
            fee_recipient,
        ) ==> !spec_reconcile_mayhem_mode(mayhem_mode, fee_recipient, pools),
        mayhem_mode is None ==> (spec_reconcile_mayhem_mode(mayhem_mode, fee_recipient, pools)
            <==> pools.mayhem.members().contains(fee_recipient)),
        mayhem_mode == Some(true) && pools.mayhem.members().contains(fee_recipient)
            ==> spec_reconcile_mayhem_mode(mayhem_mode, fee_recipient, pools),
        mayhem_mode == Some(false) && !pools.mayhem.members().contains(fee_recipient)
            ==> !spec_reconcile_mayhem_mode(mayhem_mode, fee_recipient, pools),
        mayhem_mode is Some && !pools.mayhem.members().contains(fee_recipient)
            && !pools.normal.members().contains(fee_recipient) ==> spec_reconcile_mayhem_mode(
            mayhem_mode,
            fee_recipient,
            pools,
        ) == mayhem_mode->0,
{
}

/// Law: the curve built from a fetched state has each field of that state, the given
/// address and discriminator 0.
pub proof fn law_curve_keeps_fetched_state(state: BondingCurveState, account: Address)
    ensures
        ({
            let c = spec_curve_from_state(state, account);
            &&& c.discriminator == 0
            &&& c.account == account
            &&& c.virtual_token_reserves == state.virtual_token_reserves
            &&& c.virtual_sol_reserves == state.virtual_sol_reserves
            &&& c.real_token_reserves == state.real_token_reserves
            &&& c.real_sol_reserves == state.real_sol_reserves
            &&& c.token_total_supply == state.token_total_supply
            &&& c.complete == state.complete
            &&& c.creator == state.creator
            &&& c.is_mayhem_mode == state.is_mayhem_mode
            &&& c.is_cashback_coin == state.is_cashback_coin
        }),
{
}

/// Reconciles a trade's Mayhem-mode hint with the pool its fee recipient belongs to.
pub fn reconcile_mayhem_mode_for_trade(
    mayhem_mode: Option<bool>,
    fee_recipient: &Address,
    pools: &FeeRecipientPools,
) -> (m: bool)
    ensures
        m == spec_reconcile_mayhem_mode(mayhem_mode, *fee_recipient, *pools),
        pools.mayhem.members().contains(*fee_recipient) ==> m,
        !pools.mayhem.members().contains(*fee_recipient) && pools.normal.members().contains(
            *fee_recipient,
        ) ==> !m,
        mayhem_mode is None ==> (m <==> pools.mayhem.members().contains(*fee_recipient)),
        !pools.mayhem.members().contains(*fee_recipient) && !pools.normal.members().contains(
            *fee_recipient,
        ) ==> m == mayhem_mode.unwrap_or(false),
{
    let in_mayhem = pools.mayhem.contains(fee_recipient);
    match mayhem_mode {
        None => in_mayhem,
        Some(v) => if in_mayhem {
            true
        } else if pools.normal.contains(fee_recipient) {
            false
        } else {
            v
        },
    }
}

/// The creator vault of params built from a trade: the hint where it is the vault derived
/// from the creator, else the resolved vault, else the derived one, else the zero address.
pub open spec fn spec_trade_creator_vault(
    hint: Address,
    resolved: Option<Address>,
    derived: Option<Address>,
) -> Address {
    if derived == Some(hint) {
        hint
    } else {
        spec_pick_creator_vault(resolved, derived)
    }
}

/// Picks the creator vault of params built from a trade (see `spec_trade_creator_vault`).
pub fn trade_creator_vault(hint: Address, resolved: Option<Address>, derived: Option<Address>) -> (v:
    Address)
    ensures
        v == spec_trade_creator_vault(hint, resolved, derived),
{
    match derived {
        Some(d) => if d.same(&hint) {
            hint
        } else {
            pick_creator_vault(resolved, derived)
        },
        None => pick_creator_vault(resolved, derived),
    }
}

impl PumpFunParams {
    /// Parameters for selling right away: an empty curve, zero addresses, no fee-sharing
    /// vault and no fixed fee recipient.
    pub fn immediate_sell(
        creator_vault: Address,
        token_program: Address,
        close_token_account_when_sell: bool,
    ) -> (p: Self)
        ensures
            p == (PumpFunParams {
                bonding_curve: spec_empty_curve(),
                associated_bonding_curve: zero_address(),
                creator_vault,
                fee_sharing_creator_vault_if_active: None,
                token_program,
                close_token_account_when_sell: Some(close_token_account_when_sell),
                fee_recipient: zero_address(),
            }),
    {
        PumpFunParams {
            bonding_curve: BondingCurveAccount::default(),
            associated_bonding_curve: Address::zeroed(),
            creator_vault,
            fee_sharing_creator_vault_if_active: None,
            token_program,
            close_token_account_when_sell: Some(close_token_account_when_sell),
            fee_recipient: Address::zeroed(),
        }
    }

    /// Parameters from the creator's own first buy. `bonding_curve` is the curve after that
    /// buy; its mayhem flag is reconciled from `mayhem_mode` and the fee recipient, its
    /// cashback flag is `is_cashback_coin`. `creator_vault` is the vault hint,
    /// `resolved_creator_vault` the vault resolved for the instructions from the curve's
    /// creator, the hint and the mint (with no fee-sharing vault), and `creator_vault_pda` the
    /// vault derived from the curve's creator.
    pub fn from_dev_trade(
        bonding_curve: BondingCurveAccount,
        associated_bonding_curve: Address,
        creator_vault: Address,
        resolved_creator_vault: Option<Address>,
        creator_vault_pda: Option<Address>,
        close_token_account_when_sell: Option<bool>,
        fee_recipient: Address,
        token_program: Address,
        is_cashback_coin: bool,
        mayhem_mode: Option<bool>,
        fee_pools: &FeeRecipientPools,
    ) -> (p: Self)
        ensures
            p == (PumpFunParams {
                bonding_curve: BondingCurveAccount {
                    is_mayhem_mode: spec_reconcile_mayhem_mode(mayhem_mode, fee_recipient, *fee_pools),
                    is_cashback_coin,
                    ..bonding_curve
                },
                associated_bonding_curve,
                creator_vault: spec_trade_creator_vault(
                    creator_vault,
                    resolved_creator_vault,
                    creator_vault_pda,
                ),
                fee_sharing_creator_vault_if_active: None,
                token_program,
                close_token_account_when_sell,
                fee_recipient,
            }),
            creator_vault_pda == Some(creator_vault) ==> p.creator_vault == creator_vault,
    {
        let is_mayhem_mode = reconcile_mayhem_mode_for_trade(mayhem_mode, &fee_recipient, fee_pools);
        let bonding_curve = BondingCurveAccount { is_mayhem_mode, is_cashback_coin, ..bonding_curve };
        let creator_vault = trade_creator_vault(creator_vault, resolved_creator_vault, creator_vault_pda);
        PumpFunParams {
            bonding_curve,
            associated_bonding_curve,
            creator_vault,
            fee_sharing_creator_vault_if_active: None,
            close_token_account_when_sell,
            token_program,
            fee_recipient,
        }
    }

    /// Parameters from a trade event. `bonding_curve` is the curve the event describes; its
    /// mayhem flag is reconciled from `mayhem_mode` and the fee recipient, its cashback flag is
    /// `is_cashback_coin`. The vault arguments are as for `from_dev_trade`.
    pub fn from_trade(
        bonding_curve: BondingCurveAccount,
        associated_bonding_curve: Address,
        creator_vault: Address,
        resolved_creator_vault: Option<Address>,
        creator_vault_pda: Option<Address>,
        close_token_account_when_sell: Option<bool>,
        fee_recipient: Address,
        token_program: Address,
        is_cashback_coin: bool,
        mayhem_mode: Option<bool>,
        fee_pools: &FeeRecipientPools,
    ) -> (p: Self)
        ensures
            p == (PumpFunParams {
                bonding_curve: BondingCurveAccount {
                    is_mayhem_mode: spec_reconcile_mayhem_mode(mayhem_mode, fee_recipient, *fee_pools),
                    is_cashback_coin,
                    ..bonding_curve
                },
                associated_bonding_curve,
                creator_vault: spec_trade_creator_vault(
                    creator_vault,
                    resolved_creator_vault,
                    creator_vault_pda,
                ),
                fee_sharing_creator_vault_if_active: None,
                token_program,
                close_token_account_when_sell,
                fee_recipient,
            }),
            creator_vault_pda == Some(creator_vault) ==> p.creator_vault == creator_vault,
    {
        let is_mayhem_mode = reconcile_mayhem_mode_for_trade(mayhem_mode, &fee_recipient, fee_pools);
        let bonding_curve = BondingCurveAccount { is_mayhem_mode, is_cashback_coin, ..bonding_curve };
        let creator_vault = trade_creator_vault(creator_vault, resolved_creator_vault, creator_vault_pda);
        PumpFunParams {
            bonding_curve,
            associated_bonding_curve,
            creator_vault,
            fee_sharing_creator_vault_if_active: None,
            close_token_account_when_sell,
            token_program,
            fee_recipient,
        }
    }

    /// Parameters from the accounts fetched for a mint: the curve `state` at `curve_address`,
    /// the mint's owner program, the curve's token account, the active fee-sharing vault,
    /// and the vault resolved with it (`resolved_creator_vault`) or derived from the creator.
    pub fn from_fetched_accounts(
        state: BondingCurveState,
        curve_address: Address,
        associated_bonding_curve: Address,
        mint_owner: Address,
        fee_sharing_creator_vault_if_active: Option<Address>,
        resolved_creator_vault: Option<Address>,
        creator_vault_pda: Option<Address>,
    ) -> (p: Self)
        ensures
            p == (PumpFunParams {
                bonding_curve: spec_curve_from_state(state, curve_address),
                associated_bonding_curve,
                creator_vault: spec_pick_creator_vault(resolved_creator_vault, creator_vault_pda),
                fee_sharing_creator_vault_if_active,
                token_program: mint_owner,
                close_token_account_when_sell: None,
                fee_recipient: zero_address(),
            }),
            p.bonding_curve.account == curve_address,
            p.bonding_curve.virtual_token_reserves == state.virtual_token_reserves,
            p.bonding_curve.virtual_sol_reserves == state.virtual_sol_reserves,
            p.bonding_curve.real_token_reserves == state.real_token_reserves,
            p.bonding_curve.real_sol_reserves == state.real_sol_reserves,
            p.bonding_curve.token_total_supply == state.token_total_supply,
            p.bonding_curve.complete == state.complete,
            p.bonding_curve.creator == state.creator,
            p.bonding_curve.is_mayhem_mode == state.is_mayhem_mode,
            p.bonding_curve.is_cashback_coin == state.is_cashback_coin,
            p.token_program == mint_owner,
    {
        let bonding_curve = BondingCurveAccount::from_state(state, curve_address);
        let creator_vault = pick_creator_vault(resolved_creator_vault, creator_vault_pda);
        PumpFunParams {
            bonding_curve,
            associated_bonding_curve,
            creator_vault,
            fee_sharing_creator_vault_if_active,
            close_token_account_when_sell: None,
            token_program: mint_owner,
            fee_recipient: Address::zeroed(),
        }
    }

    /// Records a freshly fetched fee-sharing vault, and takes `resolved_creator_vault` (the
    /// vault resolved with it) as the creator vault when there is one.
    pub fn apply_fee_sharing_refresh(
        self,
        fee_sharing_creator_vault_if_active: Option<Address>,
        resolved_creator_vault: Option<Address>,
    ) -> (p: Self)
        ensures
            p == (PumpFunParams {
                fee_sharing_creator_vault_if_active,
                creator_vault: match resolved_creator_vault {
                    Some(v) => v,
                    None => self.creator_vault,
                },
                ..self
            }),
    {
        let mut p = self;
        p.fee_sharing_creator_vault_if_active = fee_sharing_creator_vault_if_active;
        if let Some(v) = resolved_creator_vault {
            p.creator_vault = v;
        }
        p
    }

    /// Replaces the creator vault only.
    pub fn with_creator_vault(self, creator_vault: Address) -> (p: Self)
        ensures
            p == (PumpFunParams { creator_vault, ..self }),
    {
        let mut p = self;
        p.creator_vault = creator_vault;
        p
    }

    /// Replaces the fee-sharing vault hint only; `None` clears it.
    pub fn with_fee_sharing_creator_vault_if_active(
        self,
        fee_sharing_creator_vault_if_active: Option<Address>,
    ) -> (p: Self)
        ensures
            p == (PumpFunParams { fee_sharing_creator_vault_if_active, ..self }),
    {
        let mut p = self;
        p.fee_sharing_creator_vault_if_active = fee_sharing_creator_vault_if_active;
        p
    }
}

} // verus!
