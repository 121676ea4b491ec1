//! Assembly of the pump.fun bonding-curve buy, sell and cashback-claim instructions.
//!
//! Addresses derived from seeds, prices from the curve, the fee recipient, the token
//! accounts and the fixed program accounts come in as values: `PumpFunProgram` holds the
//! fixed accounts, `BuyDerivations` and `SellDerivations` what was derived for one trade.
//! This module decides, from the trade's parameters, which of them go where, in what order,
//! with what data, and which failure is reported first.
use vstd::prelude::*;
use crate::address::Address;
use crate::instruction::{
    AccountMeta, Instruction, InstructionView, instruction_views, readonly_meta, writable_meta,
};
use crate::meteora_damm_v2_params::MeteoraDammV2Params;
use crate::pumpfun_ix_data::{
    encode_pumpfun_buy_exact_sol_in_ix_data, encode_pumpfun_buy_ix_data,
    encode_pumpfun_sell_ix_data, spec_buy_exact_sol_in_ix_data, spec_buy_ix_data,
    spec_sell_ix_data, TRACK_VOLUME_TRUE, spec_decode_buy_ix_data,
    spec_decode_buy_exact_sol_in_ix_data, spec_decode_sell_ix_data, law_buy_ix_data_roundtrip,
    law_sell_ix_data_roundtrip,
};
use crate::pumpfun_params::{FeeRecipientPool, FeeRecipientPools, PumpFunParams};

verus! {

/// Anchor discriminator of `claim_cashback`.
pub const CLAIM_CASHBACK_DISCRIMINATOR: [u8; 8] = [37, 58, 35, 126, 190, 53, 228, 197];

pub open spec fn claim_cashback_discriminator() -> Seq<u8> {
    seq![37u8, 58u8, 35u8, 126u8, 190u8, 53u8, 228u8, 197u8]
}

/// The protocol-specific parameters of a swap.
#[derive(Clone, Copy, Debug)]
pub enum ProtocolParams {
    PumpFun(PumpFunParams),
    MeteoraDammV2(MeteoraDammV2Params),
}

/// The parameters of one swap that the pump.fun builder reads.
#[derive(Clone, Copy, Debug)]
pub struct SwapParams {
    /// The payer's address; it signs.
    pub payer: Address,
    pub input_mint: Address,
    pub output_mint: Address,
    /// Lamports to spend (buy) or tokens to sell (sell).
    pub input_amount: Option<u64>,
    /// The slippage in basis points (`None`: the default). The builders do not read it: it
    /// enters the derived amounts (`max_sol_cost`, `min_tokens_out`, `quoted_min_sol_output`).
    pub slippage_basis_points: Option<u64>,
    /// An output amount fixed by the caller in place of the quoted one.
    pub fixed_output_amount: Option<u64>,
    pub protocol_params: ProtocolParams,
    pub create_output_mint_ata: bool,
    pub close_input_mint_ata: bool,
    /// Buy with an exact SOL input (`None` counts as yes).
    pub use_exact_sol_amount: Option<bool>,
    /// Derive the payer's token account with the seed-optimized scheme. The builders do not
    /// read it: it enters the derived `user_token_account` and `create_ata`.
    pub open_seed_optimize: bool,
}

/// The fixed accounts of the pump.fun program and of the programs it calls, and the static
/// fee-recipient pools.
#[derive(Clone, Debug)]
pub struct PumpFunProgram {
    pub program_id: Address,
    pub program: AccountMeta,
    pub global: AccountMeta,
    pub event_authority: AccountMeta,
    pub global_volume_accumulator: AccountMeta,
    pub fee_config: AccountMeta,
    pub fee_program: AccountMeta,
    pub system_program: AccountMeta,
    pub token_program: AccountMeta,
    pub token_program_2022: AccountMeta,
    pub token_program_2022_id: Address,
    pub fee_recipients: FeeRecipientPools,
}

/// What was derived for one buy of `output_mint` (`None` where a derivation failed). The
/// caller computes each field as follows; the builder does not check it.
///
/// Let the slippage be `slippage_basis_points`, or the default where it is `None`, and let
/// the token program be `effective_pump_mint_token_program` of the params.
/// - `creator_vault`: resolved from the trade creator, the params' `creator_vault`, the mint
///   and the params' fee-sharing vault.
/// - `curve_token_amount`: tokens the curve's reserves give for the input lamports.
/// - `max_sol_cost`: the input lamports raised by the slippage.
/// - `min_tokens_out`: the bought token amount (`fixed_output_amount` where given, else
///   `curve_token_amount`) lowered by the slippage.
/// - `bonding_curve`, `bonding_curve_v2`: the curve addresses of the mint.
/// - `associated_bonding_curve`, `user_token_account`: the token accounts of the curve and of
///   the payer for the mint under the token program (the payer's with `open_seed_optimize`).
/// - `user_volume_accumulator`: the payer's volume account.
/// - `create_ata`: the instructions that create the payer's token account if missing.
/// - `fee_recipient_draw`: a random draw; where the params' `fee_recipient` is the zero
///   address, the fee account is the member at this position (modulo the size) of the
///   static pool for the curve's mayhem mode.
/// - `extra_fee_recipient`: the protocol's extra fee account.
#[derive(Debug)]
pub struct BuyDerivations {
    pub creator_vault: Option<Address>,
    pub curve_token_amount: u64,
    pub max_sol_cost: u64,
    pub min_tokens_out: u64,
    pub bonding_curve: Option<Address>,
    pub associated_bonding_curve: Address,
    pub user_token_account: Address,
    pub user_volume_accumulator: Option<Address>,
    pub create_ata: Vec<Instruction>,
    pub fee_recipient_draw: u64,
    pub bonding_curve_v2: Option<Address>,
    pub extra_fee_recipient: Address,
}

/// What was derived for one sell of `input_mint` (`None` where a derivation failed). The
/// caller computes each field; the builder does not check it.
///
/// - `quoted_min_sol_output`: the lamports the curve's reserves pay for the tokens, lowered by
///   the slippage (`slippage_basis_points`, or the default).
/// - `close_account`: the instruction closing the payer's token account under the token
///   program, or the message of the failure building it.
/// - The other fields are as for a buy, for `input_mint`.
#[derive(Debug)]
pub struct SellDerivations {
    pub creator_vault: Option<Address>,
    pub quoted_min_sol_output: u64,
    pub bonding_curve: Option<Address>,
    pub associated_bonding_curve: Address,
    pub user_token_account: Address,
    pub fee_recipient_draw: u64,
    pub user_volume_accumulator: Option<Address>,
    pub bonding_curve_v2: Option<Address>,
    pub extra_fee_recipient: Address,
    pub close_account: Result<Instruction, String>,
}

/// Why no instructions were built.
#[derive(Clone, Debug, PartialEq, Eq)]
pub enum PumpFunIxError {
    /// The protocol parameters are not pump.fun's.
    InvalidProtocolParams,
    /// The amount is zero.
    AmountZero,
    /// A sell was asked for without a token amount.
    AmountRequired,
    /// The creator vault could not be derived.
    CreatorVaultUnresolved,
    /// The bonding curve address could not be derived.
    BondingCurveUnresolved,
    /// The user volume accumulator could not be derived.
    UserVolumeAccumulatorUnresolved,
    /// The second bonding curve address could not be derived.
    BondingCurveV2Unresolved,
    /// The close-account instruction could not be built; the message says why.
    CloseAccountFailed(String),
}

/// The static pool for a curve's mayhem mode.
pub open spec fn spec_fee_pool(p: PumpFunParams, pools: FeeRecipientPools) -> FeeRecipientPool {
    if p.bonding_curve.is_mayhem_mode {
        pools.mayhem
    } else {
        pools.normal
    }
}

/// The fee account a trade passes second, writable: the params' fee recipient where it is
/// set, else the member at position `draw` of the static pool for the curve's mayhem mode.
pub open spec fn spec_fee_recipient_meta(p: PumpFunParams, pools: FeeRecipientPools, draw: u64) -> AccountMeta {
    if p.fee_recipient.is_zero() {
        writable_meta(spec_fee_pool(p, pools).spec_pick(draw), false)
    } else {
        writable_meta(p.fee_recipient, false)
    }
}

/// The mint's token program: the params' program, or Token-2022 where it is zero.
pub open spec fn spec_token_program(p: PumpFunParams, token_program_2022: Address) -> Address {
    if p.token_program.is_zero() {
        token_program_2022
    } else {
        p.token_program
    }
}

/// The token program's account: Token-2022's where the program is Token-2022, else the
/// legacy token program's.
pub open spec fn spec_token_program_meta(program: PumpFunProgram, token_program: Address) -> AccountMeta {
    if token_program == program.token_program_2022_id {
        program.token_program_2022
    } else {
        program.token_program
    }
}

/// Whether a buy spends an exact SOL amount.
pub open spec fn spec_uses_exact_sol(swap: SwapParams) -> bool {
    swap.use_exact_sol_amount != Some(false)
}

/// The token amount a buy asks for: the fixed one, else the curve's quote.
pub open spec fn spec_buy_token_amount(swap: SwapParams, d: BuyDerivations) -> u64 {
    match swap.fixed_output_amount {
        Some(a) => a,
        None => d.curve_token_amount,
    }
}

/// The data of the buy instruction for `lamports_in`.
pub open spec fn spec_buy_data(swap: SwapParams, d: BuyDerivations, lamports_in: u64) -> Seq<u8> {
    if spec_uses_exact_sol(swap) {
        spec_buy_exact_sol_in_ix_data(lamports_in, d.min_tokens_out, 1)
    } else {
        spec_buy_ix_data(spec_buy_token_amount(swap, d), d.max_sol_cost, 1)
    }
}

/// The accounts of the buy instruction, in the program's order.
pub open spec fn spec_buy_accounts(
    swap: SwapParams,
    p: PumpFunParams,
    program: PumpFunProgram,
    d: BuyDerivations,
    creator_vault: Address,
    bonding_curve: Address,
    user_volume_accumulator: Address,
    bonding_curve_v2: Address,
) -> Seq<AccountMeta> {
    seq![
        program.global,
        spec_fee_recipient_meta(p, program.fee_recipients, d.fee_recipient_draw),
        readonly_meta(swap.output_mint, false),
        writable_meta(bonding_curve, false),
        writable_meta(d.associated_bonding_curve, false),
        writable_meta(d.user_token_account, false),
        writable_meta(swap.payer, true),
        program.system_program,
        spec_token_program_meta(program, spec_token_program(p, program.token_program_2022_id)),
        writable_meta(creator_vault, false),
        program.event_authority,
        program.program,
        program.global_volume_accumulator,
        writable_meta(user_volume_accumulator, false),
        program.fee_config,
        program.fee_program,
        readonly_meta(bonding_curve_v2, false),
        writable_meta(d.extra_fee_recipient, false),
    ]
}

/// What building a buy gives: the instructions, or the first failure.
pub open spec fn spec_build_buy(swap: SwapParams, program: PumpFunProgram, d: BuyDerivations) -> Result<
    Seq<InstructionView>,
    PumpFunIxError,
> {
    match swap.protocol_params {
        ProtocolParams::PumpFun(p) => {
            let lamports_in = match swap.input_amount {
                Some(a) => a,
                None => 0,
            };
            if lamports_in == 0 {
                Err(PumpFunIxError::AmountZero)
            } else if d.creator_vault is None {
                Err(PumpFunIxError::CreatorVaultUnresolved)
            } else if d.bonding_curve is None {
                Err(PumpFunIxError::BondingCurveUnresolved)
            } else if d.user_volume_accumulator is None {
                Err(PumpFunIxError::UserVolumeAccumulatorUnresolved)
            } else if d.bonding_curve_v2 is None {
                Err(PumpFunIxError::BondingCurveV2Unresolved)
            } else {
                let buy = InstructionView {
                    program_id: program.program_id,
                    accounts: spec_buy_accounts(
                        swap,
                        p,
                        program,
                        d,
                        d.creator_vault.unwrap(),
                        d.bonding_curve.unwrap(),
                        d.user_volume_accumulator.unwrap(),
                        d.bonding_curve_v2.unwrap(),
                    ),
                    data: spec_buy_data(swap, d, lamports_in),
                };
                let setup = if swap.create_output_mint_ata {
                    instruction_views(d.create_ata@)
                } else {
                    Seq::empty()
                };
                Ok(setup.push(buy))
            }
        },
        _ => Err(PumpFunIxError::InvalidProtocolParams),
    }
}

/// Whether a sell also closes the payer's token account.
pub open spec fn spec_closes_after_sell(swap: SwapParams, p: PumpFunParams) -> bool {
    p.close_token_account_when_sell == Some(true) || swap.close_input_mint_ata
}

/// The lamports a sell asks for at least: the fixed amount, else the quote.
pub open spec fn spec_min_sol_output(swap: SwapParams, d: SellDerivations) -> u64 {
    match swap.fixed_output_amount {
        Some(a) => a,
        None => d.quoted_min_sol_output,
    }
}

/// Law: a sell passes the payer's volume account exactly for a cashback coin, provided, for
/// a coin without cashback, that account differs from every account the sell passes.
pub proof fn law_sell_cashback_account(swap: SwapParams, program: PumpFunProgram, d: SellDerivations)
    requires
        spec_build_sell(swap, program, d) is Ok,
        d.user_volume_accumulator is Some,
        !swap.protocol_params->PumpFun_0.bonding_curve.is_cashback_coin ==> forall|i: int|
            0 <= i < spec_sell_fixed_accounts(swap, swap.protocol_params->PumpFun_0, program, d).len()
                ==> (#[trigger] spec_sell_fixed_accounts(
                swap,
                swap.protocol_params->PumpFun_0,
                program,
                d,
            )[i]).pubkey != d.user_volume_accumulator.unwrap(),
    ensures
        spec_build_sell(swap, program, d).unwrap()[0].accounts.contains(
            writable_meta(d.user_volume_accumulator.unwrap(), false),
        ) <==> swap.protocol_params->PumpFun_0.bonding_curve.is_cashback_coin,
{
    let p = swap.protocol_params->PumpFun_0;
    let uva = writable_meta(d.user_volume_accumulator.unwrap(), false);
    let accounts = spec_build_sell(swap, program, d).unwrap()[0].accounts;
    let fixed = spec_sell_fixed_accounts(swap, p, program, d);
    if p.bonding_curve.is_cashback_coin {
        assert(accounts[14] == uva);
    } else {
        assert(accounts =~= fixed);
        if accounts.contains(uva) {
            let i = choose|i: int| 0 <= i < accounts.len() && accounts[i] == uva;
            assert(fixed[i].pubkey != d.user_volume_accumulator.unwrap());
        }
    }
}

/// The accounts a sell passes whatever the coin: all but the payer's volume account.
pub open spec fn spec_sell_fixed_accounts(
    swap: SwapParams,
    p: PumpFunParams,
    program: PumpFunProgram,
    d: SellDerivations,
) -> Seq<AccountMeta> {
    spec_sell_base_accounts(swap, p, program, d, d.creator_vault.unwrap(), d.bonding_curve.unwrap())
        + seq![
        readonly_meta(d.bonding_curve_v2.unwrap(), false),
        writable_meta(d.extra_fee_recipient, false),
    ]
}

/// The accounts of the sell instruction that every sell passes, in the program's order.
pub open spec fn spec_sell_base_accounts(
    swap: SwapParams,
    p: PumpFunParams,
    program: PumpFunProgram,
    d: SellDerivations,
    creator_vault: Address,
    bonding_curve: Address,
) -> Seq<AccountMeta> {
    seq![
        program.global,
        spec_fee_recipient_meta(p, program.fee_recipients, d.fee_recipient_draw),
        readonly_meta(swap.input_mint, false),
        writable_meta(bonding_curve, false),
        writable_meta(d.associated_bonding_curve, false),
        writable_meta(d.user_token_account, false),
        writable_meta(swap.payer, true),
        program.system_program,
        writable_meta(creator_vault, false),
        spec_token_program_meta(program, spec_token_program(p, program.token_program_2022_id)),
        program.event_authority,
        program.program,
        program.fee_config,
        program.fee_program,
    ]
}

/// All accounts of the sell instruction: the common ones, the payer's volume account for
/// a cashback coin, the second curve address and the extra fee account.
pub open spec fn spec_sell_accounts(
    swap: SwapParams,
    p: PumpFunParams,
    program: PumpFunProgram,
    d: SellDerivations,
) -> Seq<AccountMeta> {
    let base = spec_sell_base_accounts(
        swap,
        p,
        program,
        d,
        d.creator_vault.unwrap(),
        d.bonding_curve.unwrap(),
    );
    let cashback = if p.bonding_curve.is_cashback_coin {
        seq![writable_meta(d.user_volume_accumulator.unwrap(), false)]
    } else {
        Seq::empty()
    };
    base + cashback + seq![
        readonly_meta(d.bonding_curve_v2.unwrap(), false),
        writable_meta(d.extra_fee_recipient, false),
    ]
}

/// What building a sell gives: the instructions, or the first failure.
pub open spec fn spec_build_sell(swap: SwapParams, program: PumpFunProgram, d: SellDerivations) -> Result<
    Seq<InstructionView>,
    PumpFunIxError,
> {
    match swap.protocol_params {
        ProtocolParams::PumpFun(p) => {
            if swap.input_amount is None {
                Err(PumpFunIxError::AmountRequired)
            } else if swap.input_amount == Some(0u64) {
                Err(PumpFunIxError::AmountZero)
            } else if d.creator_vault is None {
                Err(PumpFunIxError::CreatorVaultUnresolved)
            } else if d.bonding_curve is None {
                Err(PumpFunIxError::BondingCurveUnresolved)
            } else if p.bonding_curve.is_cashback_coin && d.user_volume_accumulator is None {
                Err(PumpFunIxError::UserVolumeAccumulatorUnresolved)
            } else if d.bonding_curve_v2 is None {
                Err(PumpFunIxError::BondingCurveV2Unresolved)
            } else if spec_closes_after_sell(swap, p) && d.close_account is Err {
                Err(PumpFunIxError::CloseAccountFailed(d.close_account->Err_0))
            } else {
                let sell = InstructionView {
                    program_id: program.program_id,
                    accounts: spec_sell_accounts(swap, p, program, d),
                    data: spec_sell_ix_data(swap.input_amount.unwrap(), spec_min_sol_output(swap, d)),
                };
                if spec_closes_after_sell(swap, p) {
                    Ok(seq![sell, d.close_account->Ok_0@])
                } else {
                    Ok(seq![sell])
                }
            }
        },
        _ => Err(PumpFunIxError::InvalidProtocolParams),
    }
}

/// The cashback-claim instruction for `payer`, given its volume account (`None` where that
/// derivation failed).
pub open spec fn spec_claim_cashback(
    payer: Address,
    user_volume_accumulator: Option<Address>,
    program: PumpFunProgram,
) -> Option<InstructionView> {
    match user_volume_accumulator {
        Some(uva) => Some(
            InstructionView {
                program_id: program.program_id,
                accounts: seq![
                    writable_meta(payer, true),
                    writable_meta(uva, false),
                    program.system_program,
                    program.event_authority,
                    program.program,
                ],
                data: claim_cashback_discriminator(),
            },
        ),
        None => None,
    }
}

/// Law: a buy that succeeds ends with one pump.fun instruction whose data reads back, with
/// the volume-tracking flag on, as `buy_exact_sol_in(lamports_in, min_tokens_out)` in exact-SOL
/// mode (the default) and as `buy(token_amount, max_sol_cost)` otherwise; the payer is its
/// seventh account, writable and signing; its second account is the params' fee recipient
/// where that is set, and else a member of the static pool for the curve's mayhem mode.
pub proof fn law_buy_instruction(swap: SwapParams, program: PumpFunProgram, d: BuyDerivations)
    requires
        spec_build_buy(swap, program, d) is Ok,
    ensures
        ({
            let ixs = spec_build_buy(swap, program, d).unwrap();
            let buy = ixs.last();
            let lamports_in = swap.input_amount.unwrap();
            &&& ixs.len() >= 1
            &&& buy.program_id == program.program_id
            &&& buy.accounts.len() == 18
            &&& buy.accounts[6] == writable_meta(swap.payer, true)
            &&& buy.accounts[1] == spec_fee_recipient_meta(
                swap.protocol_params->PumpFun_0,
                program.fee_recipients,
                d.fee_recipient_draw,
            )
            &&& !swap.protocol_params->PumpFun_0.fee_recipient.is_zero() ==> buy.accounts[1].pubkey
                == swap.protocol_params->PumpFun_0.fee_recipient
            &&& swap.protocol_params->PumpFun_0.fee_recipient.is_zero() ==> spec_fee_pool(
                swap.protocol_params->PumpFun_0,
                program.fee_recipients,
            ).members().contains(buy.accounts[1].pubkey)
            &&& swap.use_exact_sol_amount != Some(false) ==> spec_decode_buy_exact_sol_in_ix_data(
                buy.data,
            ) == Some((lamports_in, d.min_tokens_out, 1u8))
            &&& swap.use_exact_sol_amount != Some(false) ==> buy.data.subrange(0, 8)
                == seq![56u8, 252u8, 116u8, 8u8, 158u8, 223u8, 205u8, 95u8]
            &&& swap.use_exact_sol_amount == Some(false) ==> spec_decode_buy_ix_data(buy.data)
                == Some(
                (
                    match swap.fixed_output_amount {
                        Some(a) => a,
                        None => d.curve_token_amount,
                    },
                    d.max_sol_cost,
                    1u8,
                ),
            )
            &&& swap.use_exact_sol_amount == Some(false) ==> buy.data.subrange(0, 8)
                == seq![102u8, 6u8, 61u8, 18u8, 1u8, 218u8, 235u8, 234u8]
            &&& (swap.protocol_params->PumpFun_0.token_program.is_zero()
                || swap.protocol_params->PumpFun_0.token_program == program.token_program_2022_id)
                ==> buy.accounts[8] == program.token_program_2022
            &&& !(swap.protocol_params->PumpFun_0.token_program.is_zero()
                || swap.protocol_params->PumpFun_0.token_program == program.token_program_2022_id)
                ==> buy.accounts[8] == program.token_program
        }),
{
    let lamports_in = swap.input_amount.unwrap();
    law_buy_ix_data_roundtrip(lamports_in, d.min_tokens_out, 1);
    law_buy_ix_data_roundtrip(spec_buy_token_amount(swap, d), d.max_sol_cost, 1);
}

/// Law: the accounts of a successful buy's pump.fun instruction, one by one: the global
/// account, the fee account, the mint (read-only), the curve, the curve's and the payer's token
/// accounts, the payer (signing), the system program, the token program (Token-2022's where
/// the mint's program is Token-2022 or unset), the creator vault, the event authority, the
/// program, the global volume accumulator, the payer's volume account, the fee config, the fee
/// program, the second curve address (read-only) and the extra fee account; and the
/// instructions before it are exactly the token-account creation, when asked for.
pub proof fn law_buy_accounts(swap: SwapParams, program: PumpFunProgram, d: BuyDerivations)
    requires
        spec_build_buy(swap, program, d) is Ok,
    ensures
        ({
            let ixs = spec_build_buy(swap, program, d).unwrap();
            let a = ixs.last().accounts;
            let p = swap.protocol_params->PumpFun_0;
            let pool = if p.bonding_curve.is_mayhem_mode {
                program.fee_recipients.mayhem
            } else {
                program.fee_recipients.normal
            };
            &&& a.len() == 18
            &&& a[0] == program.global
            &&& a[1] == AccountMeta {
                pubkey: if p.fee_recipient.is_zero() {
                    pool.members()[(d.fee_recipient_draw as int) % (pool.members().len() as int)]
                } else {
                    p.fee_recipient
                },
                is_signer: false,
                is_writable: true,
            }
            &&& a[2] == AccountMeta { pubkey: swap.output_mint, is_signer: false, is_writable: false }
            &&& a[3] == AccountMeta { pubkey: d.bonding_curve->0, is_signer: false, is_writable: true }
            &&& a[4] == AccountMeta {
                pubkey: d.associated_bonding_curve,
                is_signer: false,
                is_writable: true,
            }
            &&& a[5] == AccountMeta { pubkey: d.user_token_account, is_signer: false, is_writable: true }
            &&& a[6] == AccountMeta { pubkey: swap.payer, is_signer: true, is_writable: true }
            &&& a[7] == program.system_program
            &&& a[8] == if p.token_program.is_zero() || p.token_program == program.token_program_2022_id {
                program.token_program_2022
            } else {
                program.token_program
            }
            &&& a[9] == AccountMeta { pubkey: d.creator_vault->0, is_signer: false, is_writable: true }
            &&& a[10] == program.event_authority
            &&& a[11] == program.program
            &&& a[12] == program.global_volume_accumulator
            &&& a[13] == AccountMeta {
                pubkey: d.user_volume_accumulator->0,
                is_signer: false,
                is_writable: true,
            }
            &&& a[14] == program.fee_config
            &&& a[15] == program.fee_program
            &&& a[16] == AccountMeta { pubkey: d.bonding_curve_v2->0, is_signer: false, is_writable: false }
            &&& a[17] == AccountMeta { pubkey: d.extra_fee_recipient, is_signer: false, is_writable: true }
            &&& ixs.len() == (if swap.create_output_mint_ata { d.create_ata@.len() + 1 } else { 1 })
            &&& forall|i: int|
                #![trigger ixs[i]]
                0 <= i < ixs.len() - 1 ==> ixs[i] == d.create_ata@[i]@
        }),
{
}

/// Law: the accounts of a successful sell's pump.fun instruction, one by one: as for a buy up
/// to the payer and the system program, with the input mint, then the creator vault, the
/// token program, the event authority, the program, the fee config and the fee program; then
/// the payer's volume account for a cashback coin; then the second curve address (read-only)
/// and the extra fee account.
pub proof fn law_sell_accounts(swap: SwapParams, program: PumpFunProgram, d: SellDerivations)
    requires
        spec_build_sell(swap, program, d) is Ok,
    ensures
        ({
            let a = spec_build_sell(swap, program, d).unwrap()[0].accounts;
            let p = swap.protocol_params->PumpFun_0;
            let pool = if p.bonding_curve.is_mayhem_mode {
                program.fee_recipients.mayhem
            } else {
                program.fee_recipients.normal
            };
            let k: int = if p.bonding_curve.is_cashback_coin { 1 } else { 0 };
            &&& a.len() == 16 + k
            &&& a[0] == program.global
            &&& a[1] == AccountMeta {
                pubkey: if p.fee_recipient.is_zero() {
                    pool.members()[(d.fee_recipient_draw as int) % (pool.members().len() as int)]
                } else {
                    p.fee_recipient
                },
                is_signer: false,
                is_writable: true,
            }
            &&& a[2] == AccountMeta { pubkey: swap.input_mint, is_signer: false, is_writable: false }
            &&& a[3] == AccountMeta { pubkey: d.bonding_curve->0, is_signer: false, is_writable: true }
            &&& a[4] == AccountMeta {
                pubkey: d.associated_bonding_curve,
                is_signer: false,
                is_writable: true,
            }
            &&& a[5] == AccountMeta { pubkey: d.user_token_account, is_signer: false, is_writable: true }
            &&& a[6] == AccountMeta { pubkey: swap.payer, is_signer: true, is_writable: true }
            &&& a[7] == program.system_program
            &&& a[8] == AccountMeta { pubkey: d.creator_vault->0, is_signer: false, is_writable: true }
            &&& a[9] == if p.token_program.is_zero() || p.token_program == program.token_program_2022_id {
                program.token_program_2022
            } else {
                program.token_program
            }
            &&& a[10] == program.event_authority
            &&& a[11] == program.program
            &&& a[12] == program.fee_config
            &&& a[13] == program.fee_program
            &&& p.bonding_curve.is_cashback_coin ==> a[14] == AccountMeta {
                pubkey: d.user_volume_accumulator->0,
                is_signer: false,
                is_writable: true,
            }
            &&& a[14 + k] == AccountMeta {
                pubkey: d.bonding_curve_v2->0,
                is_signer: false,
                is_writable: false,
            }
            &&& a[15 + k] == AccountMeta {
                pubkey: d.extra_fee_recipient,
                is_signer: false,
                is_writable: true,
            }
        }),
{
}

/// Law: the failure a buy reports is the first that applies, in this order: parameters that
/// are not pump.fun's; no lamports or zero lamports; then the creator vault, the curve, the
/// payer's volume account and the second curve address that could not be derived.
pub proof fn law_buy_first_failure(swap: SwapParams, program: PumpFunProgram, d: BuyDerivations)
    ensures
        !(swap.protocol_params is PumpFun) ==> spec_build_buy(swap, program, d) == Err::<
            Seq<InstructionView>,
            PumpFunIxError,
        >(PumpFunIxError::InvalidProtocolParams),
        swap.protocol_params is PumpFun && (swap.input_amount is None || swap.input_amount
            == Some(0u64)) ==> spec_build_buy(swap, program, d) == Err::<
            Seq<InstructionView>,
            PumpFunIxError,
        >(PumpFunIxError::AmountZero),
        swap.protocol_params is PumpFun && swap.input_amount is Some && swap.input_amount != Some(0u64) ==> {
            &&& d.creator_vault is None ==> spec_build_buy(swap, program, d) == Err::<
                Seq<InstructionView>,
                PumpFunIxError,
            >(PumpFunIxError::CreatorVaultUnresolved)
            &&& d.creator_vault is Some && d.bonding_curve is None ==> spec_build_buy(
                swap,
                program,
                d,
            ) == Err::<Seq<InstructionView>, PumpFunIxError>(
                PumpFunIxError::BondingCurveUnresolved,
            )
            &&& d.creator_vault is Some && d.bonding_curve is Some && d.user_volume_accumulator
                is None ==> spec_build_buy(swap, program, d) == Err::<
                Seq<InstructionView>,
                PumpFunIxError,
            >(PumpFunIxError::UserVolumeAccumulatorUnresolved)
            &&& d.creator_vault is Some && d.bonding_curve is Some && d.user_volume_accumulator
                is Some && d.bonding_curve_v2 is None ==> spec_build_buy(swap, program, d)
                == Err::<Seq<InstructionView>, PumpFunIxError>(
                PumpFunIxError::BondingCurveV2Unresolved,
            )
        },
{
}

/// Law: the failure a sell reports is the first that applies, in this order: parameters that
/// are not pump.fun's; no token amount; a zero amount; the creator vault, the curve, the
/// payer's volume account (cashback coins only) and the second curve address that could not
/// be derived; then the close-account instruction's own failure, when closing.
pub proof fn law_sell_first_failure(swap: SwapParams, program: PumpFunProgram, d: SellDerivations)
    ensures
        !(swap.protocol_params is PumpFun) ==> spec_build_sell(swap, program, d) == Err::<
            Seq<InstructionView>,
            PumpFunIxError,
        >(PumpFunIxError::InvalidProtocolParams),
        swap.protocol_params is PumpFun && swap.input_amount is None ==> spec_build_sell(
            swap,
            program,
            d,
        ) == Err::<Seq<InstructionView>, PumpFunIxError>(PumpFunIxError::AmountRequired),
        swap.protocol_params is PumpFun && swap.input_amount == Some(0u64) ==> spec_build_sell(
            swap,
            program,
            d,
        ) == Err::<Seq<InstructionView>, PumpFunIxError>(PumpFunIxError::AmountZero),
        swap.protocol_params is PumpFun && swap.input_amount is Some && swap.input_amount != Some(0u64) ==> {
            let p = swap.protocol_params->PumpFun_0;
            let closes = p.close_token_account_when_sell == Some(true) || swap.close_input_mint_ata;
            &&& d.creator_vault is None ==> spec_build_sell(swap, program, d) == Err::<
                Seq<InstructionView>,
                PumpFunIxError,
            >(PumpFunIxError::CreatorVaultUnresolved)
            &&& d.creator_vault is Some && d.bonding_curve is None ==> spec_build_sell(
                swap,
                program,
                d,
            ) == Err::<Seq<InstructionView>, PumpFunIxError>(
                PumpFunIxError::BondingCurveUnresolved,
            )
            &&& d.creator_vault is Some && d.bonding_curve is Some && p.bonding_curve.is_cashback_coin
                && d.user_volume_accumulator is None ==> spec_build_sell(swap, program, d)
                == Err::<Seq<InstructionView>, PumpFunIxError>(
                PumpFunIxError::UserVolumeAccumulatorUnresolved,
            )
            &&& d.creator_vault is Some && d.bonding_curve is Some && (
            !p.bonding_curve.is_cashback_coin || d.user_volume_accumulator is Some)
                && d.bonding_curve_v2 is None ==> spec_build_sell(swap, program, d) == Err::<
                Seq<InstructionView>,
                PumpFunIxError,
            >(PumpFunIxError::BondingCurveV2Unresolved)
            &&& d.creator_vault is Some && d.bonding_curve is Some && (
            !p.bonding_curve.is_cashback_coin || d.user_volume_accumulator is Some)
                && d.bonding_curve_v2 is Some && closes && d.close_account is Err ==> spec_build_sell(
                swap,
                program,
                d,
            ) == Err::<Seq<InstructionView>, PumpFunIxError>(
                PumpFunIxError::CloseAccountFailed(d.close_account->Err_0),
            )
        },
{
}

/// Law: the cashback claim exists exactly when the payer's volume account was derived; it is
/// a pump.fun instruction with the claim discriminator as its data and, in order, the payer
/// (writable, signing), its volume account (writable), the system program, the event
/// authority and the program.
pub proof fn law_claim_cashback(payer: Address, uva: Option<Address>, program: PumpFunProgram)
    ensures
        spec_claim_cashback(payer, uva, program) is Some <==> uva is Some,
        uva matches Some(u) ==> {
            let ix = spec_claim_cashback(payer, uva, program)->0;
            &&& ix.program_id == program.program_id
            &&& ix.data == seq![37u8, 58u8, 35u8, 126u8, 190u8, 53u8, 228u8, 197u8]
            &&& ix.accounts == seq![
                AccountMeta { pubkey: payer, is_signer: true, is_writable: true },
                AccountMeta { pubkey: u, is_signer: false, is_writable: true },
                program.system_program,
                program.event_authority,
                program.program,
            ]
        },
{
}

/// Law: a buy succeeds exactly when the parameters are pump.fun's, the lamports to spend are
/// given and not zero, and every derivation it needs succeeded; it creates the payer's token
/// account first exactly when asked to.
pub proof fn law_buy_outcome(swap: SwapParams, program: PumpFunProgram, d: BuyDerivations)
    ensures
        spec_build_buy(swap, program, d) is Ok <==> {
            &&& swap.protocol_params is PumpFun
            &&& swap.input_amount matches Some(a) && a != 0
            &&& d.creator_vault is Some
            &&& d.bonding_curve is Some
            &&& d.user_volume_accumulator is Some
            &&& d.bonding_curve_v2 is Some
        },
        spec_build_buy(swap, program, d) is Ok ==> spec_build_buy(swap, program, d).unwrap().len()
            == if swap.create_output_mint_ata {
            d.create_ata@.len() + 1
        } else {
            1
        },
{
}

/// Law: a sell succeeds exactly when the parameters are pump.fun's, a non-zero token amount
/// is given and every derivation it needs succeeded (the volume account only for a cashback
/// coin, the close instruction only when the account is to be closed).
pub proof fn law_sell_outcome(swap: SwapParams, program: PumpFunProgram, d: SellDerivations)
    ensures
        spec_build_sell(swap, program, d) is Ok <==> {
            &&& swap.protocol_params is PumpFun
            &&& swap.input_amount matches Some(a) && a != 0
            &&& d.creator_vault is Some
            &&& d.bonding_curve is Some
            &&& swap.protocol_params->PumpFun_0.bonding_curve.is_cashback_coin
                ==> d.user_volume_accumulator is Some
            &&& d.bonding_curve_v2 is Some
            &&& (swap.protocol_params->PumpFun_0.close_token_account_when_sell == Some(true)
                || swap.close_input_mint_ata) ==> d.close_account is Ok
        },
{
}

/// Law: a sell that succeeds starts with one pump.fun instruction whose data reads back as
/// `sell(amount, min_sol_output)`, whose accounts include the payer's volume account exactly
/// for a cashback coin, whose second account is the params' fee recipient where that is set
/// and else a member of the static pool for the curve's mayhem mode, and which is followed by a close-account instruction exactly when the params or the swap
/// ask for the account to be closed.
pub proof fn law_sell_instructions(swap: SwapParams, program: PumpFunProgram, d: SellDerivations)
    requires
        spec_build_sell(swap, program, d) is Ok,
    ensures
        ({
            let ixs = spec_build_sell(swap, program, d).unwrap();
            let p = swap.protocol_params->PumpFun_0;
            let sell = ixs[0];
            &&& ixs.len() == if p.close_token_account_when_sell == Some(true)
                || swap.close_input_mint_ata {
                2int
            } else {
                1int
            }
            &&& swap.close_input_mint_ata ==> ixs.len() == 2 && ixs[1] == d.close_account->Ok_0@
            &&& sell.program_id == program.program_id
            &&& spec_decode_sell_ix_data(sell.data) == Some(
                (
                    swap.input_amount.unwrap(),
                    match swap.fixed_output_amount {
                        Some(a) => a,
                        None => d.quoted_min_sol_output,
                    },
                ),
            )
            &&& (p.token_program.is_zero() || p.token_program == program.token_program_2022_id)
                ==> sell.accounts[9] == program.token_program_2022
            &&& !(p.token_program.is_zero() || p.token_program == program.token_program_2022_id)
                ==> sell.accounts[9] == program.token_program
            &&& sell.accounts.len() == if p.bonding_curve.is_cashback_coin { 17int } else { 16int }
            &&& sell.accounts[6] == writable_meta(swap.payer, true)
            &&& !p.fee_recipient.is_zero() ==> sell.accounts[1] == writable_meta(p.fee_recipient, false)
            &&& p.fee_recipient.is_zero() ==> spec_fee_pool(p, program.fee_recipients).members().contains(
                sell.accounts[1].pubkey,
            )
            &&& p.bonding_curve.is_cashback_coin ==> sell.accounts[14] == writable_meta(
                d.user_volume_accumulator.unwrap(),
                false,
            )
        }),
{
    law_sell_ix_data_roundtrip(swap.input_amount.unwrap(), spec_min_sol_output(swap, d));
}

/// Law: the token program an instruction passes is never the zero address when Token-2022's
/// id is not, and is the params' own program whenever that is set.
pub proof fn law_token_program(p: PumpFunParams, token_program_2022: Address)
    ensures
        !token_program_2022.is_zero() ==> !spec_token_program(p, token_program_2022).is_zero(),
        !p.token_program.is_zero() ==> spec_token_program(p, token_program_2022)
            == p.token_program,
        p.token_program.is_zero() ==> spec_token_program(p, token_program_2022)
            == token_program_2022,
{
}

/// Law: whether to close the token account after a sell (the params' flag or the swap's)
/// does not change what a buy builds from the same derived values.
pub proof fn law_close_flag_only_for_sells(
    swap: SwapParams,
    program: PumpFunProgram,
    d: BuyDerivations,
    p: PumpFunParams,
    close_token_account_when_sell: Option<bool>,
    close_input_mint_ata: bool,
)
    requires
        swap.protocol_params == ProtocolParams::PumpFun(p),
    ensures
        spec_build_buy(
            SwapParams {
                protocol_params: ProtocolParams::PumpFun(
                    PumpFunParams { close_token_account_when_sell, ..p },
                ),
                close_input_mint_ata,
                ..swap
            },
            program,
            d,
        ) == spec_build_buy(swap, program, d),
{
    let q = PumpFunParams { close_token_account_when_sell, ..p };
    assert(spec_token_program(q, program.token_program_2022_id) == spec_token_program(
        p,
        program.token_program_2022_id,
    ));
}

/// The views of a built result.
pub open spec fn result_views(r: Result<Vec<Instruction>, PumpFunIxError>) -> Result<
    Seq<InstructionView>,
    PumpFunIxError,
> {
    match r {
        Ok(v) => Ok(instruction_views(v@)),
        Err(e) => Err(e),
    }
}

/// The mint's token program: the params' program, or `token_program_2022` where the params'
/// program is the zero address.
pub fn effective_pump_mint_token_program(protocol_params: &PumpFunParams, token_program_2022: Address) -> (tp:
    Address)
    ensures
        tp == spec_token_program(*protocol_params, token_program_2022),
{
    let tp = protocol_params.token_program;
    if tp.is_default() {
        token_program_2022
    } else {
        tp
    }
}

fn fee_recipient_meta(p: &PumpFunParams, pools: &FeeRecipientPools, draw: u64) -> (m: AccountMeta)
    ensures
        m == spec_fee_recipient_meta(*p, *pools, draw),
{
    if p.fee_recipient.is_default() {
        let pool = if p.bonding_curve.is_mayhem_mode {
            &pools.mayhem
        } else {
            &pools.normal
        };
        AccountMeta::new(pool.pick(draw), false)
    } else {
        AccountMeta::new(p.fee_recipient, false)
    }
}

fn token_program_meta(program: &PumpFunProgram, token_program: Address) -> (m: AccountMeta)
    ensures
        m == spec_token_program_meta(*program, token_program),
{
    if token_program.same(&program.token_program_2022_id) {
        program.token_program_2022
    } else {
        program.token_program
    }
}

proof fn lemma_views_push(s: Seq<Instruction>, ix: Instruction)
    ensures
        instruction_views(s.push(ix)) == instruction_views(s).push(ix@),
{
    assert(instruction_views(s.push(ix)) =~= instruction_views(s).push(ix@));
}

/// Builds pump.fun instructions from swap parameters.
#[derive(Clone, Copy, Debug)]
pub struct PumpFunInstructionBuilder;

impl PumpFunInstructionBuilder {
    /// The instructions of a buy: the payer's token-account creation when asked for, then
    /// the buy itself.
    pub fn build_buy_instructions(
        &self,
        params: &SwapParams,
        program: &PumpFunProgram,
        derived: BuyDerivations,
    ) -> (r: Result<Vec<Instruction>, PumpFunIxError>)
        ensures
            result_views(r) == spec_build_buy(*params, *program, derived),
    {
        let ghost d0 = derived;
        let mut derived = derived;
        let protocol_params = match params.protocol_params {
            ProtocolParams::PumpFun(p) => p,
            _ => { return Err(PumpFunIxError::InvalidProtocolParams) },
        };
        let lamports_in = match params.input_amount {
            Some(a) => a,
            None => 0,
        };
        if lamports_in == 0 {
            return Err(PumpFunIxError::AmountZero);
        }
        let creator_vault_account = match derived.creator_vault {
            Some(v) => v,
            None => { return Err(PumpFunIxError::CreatorVaultUnresolved) },
        };
        let buy_token_amount = match params.fixed_output_amount {
            Some(amount) => amount,
            None => derived.curve_token_amount,
        };
        let max_sol_cost = derived.max_sol_cost;
        let bonding_curve_addr = match derived.bonding_curve {
            Some(v) => v,
            None => { return Err(PumpFunIxError::BondingCurveUnresolved) },
        };
        let token_program = effective_pump_mint_token_program(
            &protocol_params,
            program.token_program_2022_id,
        );
        let token_program_meta = token_program_meta(program, token_program);
        let user_volume_accumulator = match derived.user_volume_accumulator {
            Some(v) => v,
            None => { return Err(PumpFunIxError::UserVolumeAccumulatorUnresolved) },
        };
        let mut instructions: Vec<Instruction> = Vec::new();
        if params.create_output_mint_ata {
            instructions.append(&mut derived.create_ata);
        }
        let use_exact = match params.use_exact_sol_amount {
            Some(b) => b,
            None => true,
        };
        let buy_data = if use_exact {
            encode_pumpfun_buy_exact_sol_in_ix_data(
                lamports_in,
                derived.min_tokens_out,
                TRACK_VOLUME_TRUE,
            )
        } else {
            encode_pumpfun_buy_ix_data(buy_token_amount, max_sol_cost, TRACK_VOLUME_TRUE)
        };
        let fee_recipient_meta = fee_recipient_meta(
            &protocol_params,
            &program.fee_recipients,
            derived.fee_recipient_draw,
        );
        let bonding_curve_v2 = match derived.bonding_curve_v2 {
            Some(v) => v,
            None => { return Err(PumpFunIxError::BondingCurveV2Unresolved) },
        };
        let metas: Vec<AccountMeta> = vec![
            program.global,
            fee_recipient_meta,
            AccountMeta::new_readonly(params.output_mint, false),
            AccountMeta::new(bonding_curve_addr, false),
            AccountMeta::new(derived.associated_bonding_curve, false),
            AccountMeta::new(derived.user_token_account, false),
            AccountMeta::new(params.payer, true),
            program.system_program,
            token_program_meta,
            AccountMeta::new(creator_vault_account, false),
            program.event_authority,
            program.program,
            program.global_volume_accumulator,
            AccountMeta::new(user_volume_accumulator, false),
            program.fee_config,
            program.fee_program,
            AccountMeta::new_readonly(bonding_curve_v2, false),
            AccountMeta::new(derived.extra_fee_recipient, false),
        ];
        let ix = Instruction::new_with_bytes(program.program_id, &buy_data, metas);
        let ghost before = instructions@;
        instructions.push(ix);
        proof {
            lemma_views_push(before, ix);
            assert(metas@ =~= spec_buy_accounts(
                *params,
                protocol_params,
                *program,
                d0,
                creator_vault_account,
                bonding_curve_addr,
                user_volume_accumulator,
                bonding_curve_v2,
            ));
            if params.create_output_mint_ata {
                assert(before =~= d0.create_ata@);
            } else {
                assert(instruction_views(before) =~= Seq::<InstructionView>::empty());
            }
        }
        Ok(instructions)
    }
    /// The instructions of a sell: the sell itself, then the closing of the payer's token
    /// account when asked for.
    pub fn build_sell_instructions(
        &self,
        params: &SwapParams,
        program: &PumpFunProgram,
        derived: SellDerivations,
    ) -> (r: Result<Vec<Instruction>, PumpFunIxError>)
        ensures
            result_views(r) == spec_build_sell(*params, *program, derived),
    {
        let ghost d0 = derived;
        let protocol_params = match params.protocol_params {
            ProtocolParams::PumpFun(p) => p,
            _ => { return Err(PumpFunIxError::InvalidProtocolParams) },
        };
        let token_amount = match params.input_amount {
            Some(amount) => {
                if amount == 0 {
                    return Err(PumpFunIxError::AmountZero);
                }
                amount
            },
            None => { return Err(PumpFunIxError::AmountRequired) },
        };
        let creator_vault_account = match derived.creator_vault {
            Some(v) => v,
            None => { return Err(PumpFunIxError::CreatorVaultUnresolved) },
        };
        let min_sol_output = match params.fixed_output_amount {
            Some(fixed) => fixed,
            None => derived.quoted_min_sol_output,
        };
        let bonding_curve_addr = match derived.bonding_curve {
            Some(v) => v,
            None => { return Err(PumpFunIxError::BondingCurveUnresolved) },
        };
        let token_program = effective_pump_mint_token_program(
            &protocol_params,
            program.token_program_2022_id,
        );
        let token_program_meta = token_program_meta(program, token_program);
        let mut instructions: Vec<Instruction> = Vec::new();
        let sell_data = encode_pumpfun_sell_ix_data(token_amount, min_sol_output);
        let fee_recipient_meta = fee_recipient_meta(
            &protocol_params,
            &program.fee_recipients,
            derived.fee_recipient_draw,
        );
        let mut metas: Vec<AccountMeta> = vec![
            program.global,
            fee_recipient_meta,
            AccountMeta::new_readonly(params.input_mint, false),
            AccountMeta::new(bonding_curve_addr, false),
            AccountMeta::new(derived.associated_bonding_curve, false),
            AccountMeta::new(derived.user_token_account, false),
            AccountMeta::new(params.payer, true),
            program.system_program,
            AccountMeta::new(creator_vault_account, false),
            token_program_meta,
            program.event_authority,
            program.program,
            program.fee_config,
            program.fee_program,
        ];
        let ghost base = metas@;
        proof {
            assert(base =~= spec_sell_base_accounts(
                *params,
                protocol_params,
                *program,
                d0,
                creator_vault_account,
                bonding_curve_addr,
            ));
        }
        if protocol_params.bonding_curve.is_cashback_coin {
            let user_volume_accumulator = match derived.user_volume_accumulator {
                Some(v) => v,
                None => { return Err(PumpFunIxError::UserVolumeAccumulatorUnresolved) },
            };
            metas.push(AccountMeta::new(user_volume_accumulator, false));
        }
        let ghost with_cashback = metas@;
        let bonding_curve_v2 = match derived.bonding_curve_v2 {
            Some(v) => v,
            None => { return Err(PumpFunIxError::BondingCurveV2Unresolved) },
        };
        metas.push(AccountMeta::new_readonly(bonding_curve_v2, false));
        metas.push(AccountMeta::new(derived.extra_fee_recipient, false));
        proof {
            if protocol_params.bonding_curve.is_cashback_coin {
                assert(with_cashback =~= base + seq![
                    writable_meta(d0.user_volume_accumulator.unwrap(), false),
                ]);
            } else {
                assert(with_cashback =~= base + Seq::<AccountMeta>::empty());
            }
            assert(metas@ =~= spec_sell_accounts(*params, protocol_params, *program, d0));
        }
        let ix = Instruction::new_with_bytes(program.program_id, &sell_data, metas);
        let ghost sell_view = ix@;
        instructions.push(ix);
        let close = match protocol_params.close_token_account_when_sell {
            Some(b) => b,
            None => false,
        } || params.close_input_mint_ata;
        if close {
            match derived.close_account {
                Ok(c) => {
                    instructions.push(c);
                },
                Err(e) => { return Err(PumpFunIxError::CloseAccountFailed(e)) },
            }
        }
        proof {
            if close {
                assert(instruction_views(instructions@) =~= seq![sell_view, d0.close_account->Ok_0@]);
            } else {
                assert(instruction_views(instructions@) =~= seq![sell_view]);
            }
        }
        Ok(instructions)
    }
}

/// The instruction that claims the payer's cashback into its lamports, or `None` where the
/// payer's volume account could not be derived.
pub fn claim_cashback_pumpfun_instruction(
    payer: &Address,
    user_volume_accumulator: Option<Address>,
    program: &PumpFunProgram,
) -> (r: Option<Instruction>)
    ensures
        match r {
            Some(ix) => spec_claim_cashback(*payer, user_volume_accumulator, *program) == Some(ix@),
            None => spec_claim_cashback(*payer, user_volume_accumulator, *program) is None,
        },
{
    let user_volume_accumulator = match user_volume_accumulator {
        Some(v) => v,
        None => { return None },
    };
    let ix_accounts: Vec<AccountMeta> = vec![
        AccountMeta::new(*payer, true),
        AccountMeta::new(user_volume_accumulator, false),
        program.system_program,
        program.event_authority,
        program.program,
    ];
    let disc = CLAIM_CASHBACK_DISCRIMINATOR;
    let ix = Instruction::new_with_bytes(program.program_id, &disc, ix_accounts);
    proof {
        assert(ix@.accounts =~= spec_claim_cashback(*payer, Some(user_volume_accumulator), *program).unwrap().accounts);
        assert(ix@.data =~= claim_cashback_discriminator());
    }
    Some(ix)
}

} // verus!
