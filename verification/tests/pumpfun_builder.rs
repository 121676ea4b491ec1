use sol_trade_sdk::address::Address;
use sol_trade_sdk::instruction::{AccountMeta, Instruction};
use sol_trade_sdk::meteora_damm_v2_params::MeteoraDammV2Params;
use sol_trade_sdk::pumpfun::{
    claim_cashback_pumpfun_instruction, effective_pump_mint_token_program, BuyDerivations,
    ProtocolParams, PumpFunInstructionBuilder, PumpFunIxError, PumpFunProgram, SellDerivations,
    SwapParams, CLAIM_CASHBACK_DISCRIMINATOR,
};
use sol_trade_sdk::pumpfun_ix_data::{
    encode_pumpfun_buy_exact_sol_in_ix_data, encode_pumpfun_buy_ix_data,
    encode_pumpfun_sell_ix_data,
};
use sol_trade_sdk::pumpfun_params::{FeeRecipientPool, FeeRecipientPools, PumpFunParams};

fn addr(n: u8) -> Address {
    Address { bytes: [n; 32] }
}

fn w(n: u8, signer: bool) -> AccountMeta {
    AccountMeta { pubkey: addr(n), is_signer: signer, is_writable: true }
}

fn r(n: u8) -> AccountMeta {
    AccountMeta { pubkey: addr(n), is_signer: false, is_writable: false }
}

fn program() -> PumpFunProgram {
    PumpFunProgram {
        program_id: addr(100),
        program: r(100),
        global: r(101),
        event_authority: r(102),
        global_volume_accumulator: w(103, false),
        fee_config: r(104),
        fee_program: r(105),
        system_program: r(106),
        token_program: r(107),
        token_program_2022: r(108),
        token_program_2022_id: addr(108),
        fee_recipients: FeeRecipientPools {
            normal: FeeRecipientPool { first: addr(15), rest: vec![addr(18)] },
            mayhem: FeeRecipientPool { first: addr(40), rest: vec![addr(41), addr(42)] },
        },
    }
}

fn pump_params(token_program: Address, cashback: bool, close: Option<bool>) -> PumpFunParams {
    let mut p = PumpFunParams::immediate_sell(addr(50), token_program, false);
    p.close_token_account_when_sell = close;
    p.bonding_curve.is_cashback_coin = cashback;
    p
}

fn swap(amount: Option<u64>, p: PumpFunParams) -> SwapParams {
    SwapParams {
        payer: addr(1),
        input_mint: addr(2),
        output_mint: addr(3),
        input_amount: amount,
        slippage_basis_points: Some(300),
        fixed_output_amount: None,
        protocol_params: ProtocolParams::PumpFun(p),
        create_output_mint_ata: false,
        close_input_mint_ata: false,
        use_exact_sol_amount: None,
        open_seed_optimize: false,
    }
}

fn setup_ix() -> Instruction {
    Instruction { program_id: addr(200), accounts: vec![w(1, true)], data: vec![1, 2, 3] }
}

fn buy_derivations() -> BuyDerivations {
    BuyDerivations {
        creator_vault: Some(addr(10)),
        curve_token_amount: 5_000,
        max_sol_cost: 1_100,
        min_tokens_out: 4_500,
        bonding_curve: Some(addr(11)),
        associated_bonding_curve: addr(12),
        user_token_account: addr(13),
        user_volume_accumulator: Some(addr(14)),
        create_ata: vec![setup_ix()],
        fee_recipient_draw: 0,
        bonding_curve_v2: Some(addr(16)),
        extra_fee_recipient: addr(17),
    }
}

fn sell_derivations() -> SellDerivations {
    SellDerivations {
        creator_vault: Some(addr(10)),
        quoted_min_sol_output: 900,
        bonding_curve: Some(addr(11)),
        associated_bonding_curve: addr(12),
        user_token_account: addr(13),
        fee_recipient_draw: 0,
        user_volume_accumulator: Some(addr(14)),
        bonding_curve_v2: Some(addr(16)),
        extra_fee_recipient: addr(17),
        close_account: Ok(Instruction { program_id: addr(107), accounts: vec![], data: vec![9] }),
    }
}

#[test]
fn buy_exact_sol_default() {
    let s = swap(Some(1_000), pump_params(addr(107), false, None));
    let ixs = PumpFunInstructionBuilder
        .build_buy_instructions(&s, &program(), buy_derivations())
        .unwrap();
    assert_eq!(ixs.len(), 1);
    let ix = &ixs[0];
    assert_eq!(ix.program_id, addr(100));
    assert_eq!(ix.data, encode_pumpfun_buy_exact_sol_in_ix_data(1_000, 4_500, 1).to_vec());
    let expected = vec![
        r(101),
        w(15, false),
        r(3),
        w(11, false),
        w(12, false),
        w(13, false),
        w(1, true),
        r(106),
        r(107),
        w(10, false),
        r(102),
        r(100),
        w(103, false),
        w(14, false),
        r(104),
        r(105),
        r(16),
        w(17, false),
    ];
    assert_eq!(ix.accounts, expected);
}

#[test]
fn buy_plain_with_fixed_output_and_ata() {
    let mut s = swap(Some(1_000), pump_params(Address { bytes: [0; 32] }, false, None));
    s.use_exact_sol_amount = Some(false);
    s.fixed_output_amount = Some(777);
    s.create_output_mint_ata = true;
    let ixs = PumpFunInstructionBuilder
        .build_buy_instructions(&s, &program(), buy_derivations())
        .unwrap();
    assert_eq!(ixs.len(), 2);
    assert_eq!(ixs[0], setup_ix());
    assert_eq!(ixs[1].data, encode_pumpfun_buy_ix_data(777, 1_100, 1).to_vec());
    // zero token program: Token-2022 is used
    assert_eq!(ixs[1].accounts[8], r(108));
}

#[test]
fn buy_quote_used_without_fixed_output() {
    let mut s = swap(Some(1_000), pump_params(addr(107), false, None));
    s.use_exact_sol_amount = Some(false);
    let ixs = PumpFunInstructionBuilder
        .build_buy_instructions(&s, &program(), buy_derivations())
        .unwrap();
    assert_eq!(ixs[0].data, encode_pumpfun_buy_ix_data(5_000, 1_100, 1).to_vec());
}

#[test]
fn buy_errors() {
    let p = pump_params(addr(107), false, None);
    let b = PumpFunInstructionBuilder;
    assert_eq!(
        b.build_buy_instructions(&swap(None, p), &program(), buy_derivations()).unwrap_err(),
        PumpFunIxError::AmountZero
    );
    assert_eq!(
        b.build_buy_instructions(&swap(Some(0), p), &program(), buy_derivations()).unwrap_err(),
        PumpFunIxError::AmountZero
    );
    let mut m = swap(Some(5), p);
    m.protocol_params = ProtocolParams::MeteoraDammV2(MeteoraDammV2Params::new(
        addr(1),
        addr(2),
        addr(3),
        addr(4),
        addr(5),
        addr(6),
        addr(7),
    ));
    assert_eq!(
        b.build_buy_instructions(&m, &program(), buy_derivations()).unwrap_err(),
        PumpFunIxError::InvalidProtocolParams
    );
    let mut d = buy_derivations();
    d.creator_vault = None;
    d.bonding_curve = None;
    assert_eq!(
        b.build_buy_instructions(&swap(Some(5), p), &program(), d).unwrap_err(),
        PumpFunIxError::CreatorVaultUnresolved
    );
    let mut d = buy_derivations();
    d.bonding_curve = None;
    d.user_volume_accumulator = None;
    assert_eq!(
        b.build_buy_instructions(&swap(Some(5), p), &program(), d).unwrap_err(),
        PumpFunIxError::BondingCurveUnresolved
    );
    let mut d = buy_derivations();
    d.user_volume_accumulator = None;
    d.bonding_curve_v2 = None;
    assert_eq!(
        b.build_buy_instructions(&swap(Some(5), p), &program(), d).unwrap_err(),
        PumpFunIxError::UserVolumeAccumulatorUnresolved
    );
    let mut d = buy_derivations();
    d.bonding_curve_v2 = None;
    assert_eq!(
        b.build_buy_instructions(&swap(Some(5), p), &program(), d).unwrap_err(),
        PumpFunIxError::BondingCurveV2Unresolved
    );
}

#[test]
fn sell_plain() {
    let s = swap(Some(2_000), pump_params(addr(107), false, None));
    let ixs = PumpFunInstructionBuilder
        .build_sell_instructions(&s, &program(), sell_derivations())
        .unwrap();
    assert_eq!(ixs.len(), 1);
    assert_eq!(ixs[0].program_id, addr(100));
    assert_eq!(ixs[0].data, encode_pumpfun_sell_ix_data(2_000, 900).to_vec());
    let expected = vec![
        r(101),
        w(15, false),
        r(2),
        w(11, false),
        w(12, false),
        w(13, false),
        w(1, true),
        r(106),
        w(10, false),
        r(107),
        r(102),
        r(100),
        r(104),
        r(105),
        r(16),
        w(17, false),
    ];
    assert_eq!(ixs[0].accounts, expected);
}

#[test]
fn sell_cashback_fixed_output_and_close() {
    let mut s = swap(Some(2_000), pump_params(addr(107), true, Some(true)));
    s.fixed_output_amount = Some(1);
    let ixs = PumpFunInstructionBuilder
        .build_sell_instructions(&s, &program(), sell_derivations())
        .unwrap();
    assert_eq!(ixs.len(), 2);
    assert_eq!(ixs[0].data, encode_pumpfun_sell_ix_data(2_000, 1).to_vec());
    assert_eq!(ixs[0].accounts.len(), 17);
    assert_eq!(ixs[0].accounts[14], w(14, false));
    assert_eq!(ixs[0].accounts[15], r(16));
    assert_eq!(ixs[1], Instruction { program_id: addr(107), accounts: vec![], data: vec![9] });
}

#[test]
fn sell_close_from_swap_flag() {
    let mut s = swap(Some(2_000), pump_params(addr(107), false, Some(false)));
    s.close_input_mint_ata = true;
    let ixs = PumpFunInstructionBuilder
        .build_sell_instructions(&s, &program(), sell_derivations())
        .unwrap();
    assert_eq!(ixs.len(), 2);
}

#[test]
fn sell_errors() {
    let p = pump_params(addr(107), true, Some(true));
    let b = PumpFunInstructionBuilder;
    assert_eq!(
        b.build_sell_instructions(&swap(None, p), &program(), sell_derivations()).unwrap_err(),
        PumpFunIxError::AmountRequired
    );
    assert_eq!(
        b.build_sell_instructions(&swap(Some(0), p), &program(), sell_derivations()).unwrap_err(),
        PumpFunIxError::AmountZero
    );
    let mut d = sell_derivations();
    d.creator_vault = None;
    assert_eq!(
        b.build_sell_instructions(&swap(Some(3), p), &program(), d).unwrap_err(),
        PumpFunIxError::CreatorVaultUnresolved
    );
    let mut d = sell_derivations();
    d.bonding_curve = None;
    assert_eq!(
        b.build_sell_instructions(&swap(Some(3), p), &program(), d).unwrap_err(),
        PumpFunIxError::BondingCurveUnresolved
    );
    let mut d = sell_derivations();
    d.user_volume_accumulator = None;
    assert_eq!(
        b.build_sell_instructions(&swap(Some(3), p), &program(), d).unwrap_err(),
        PumpFunIxError::UserVolumeAccumulatorUnresolved
    );
    let mut d = sell_derivations();
    d.bonding_curve_v2 = None;
    assert_eq!(
        b.build_sell_instructions(&swap(Some(3), p), &program(), d).unwrap_err(),
        PumpFunIxError::BondingCurveV2Unresolved
    );
    let mut d = sell_derivations();
    d.close_account = Err("no token account".to_string());
    assert_eq!(
        b.build_sell_instructions(&swap(Some(3), p), &program(), d).unwrap_err(),
        PumpFunIxError::CloseAccountFailed("no token account".to_string())
    );
}

#[test]
fn sell_without_cashback_ignores_missing_accumulator() {
    let p = pump_params(addr(107), false, None);
    let mut d = sell_derivations();
    d.user_volume_accumulator = None;
    d.close_account = Err("unused".to_string());
    let ixs = PumpFunInstructionBuilder
        .build_sell_instructions(&swap(Some(3), p), &program(), d)
        .unwrap();
    assert_eq!(ixs.len(), 1);
    assert_eq!(ixs[0].accounts.len(), 16);
}

#[test]
fn claim_cashback() {
    let ix = claim_cashback_pumpfun_instruction(&addr(1), Some(addr(14)), &program()).unwrap();
    assert_eq!(ix.program_id, addr(100));
    assert_eq!(ix.data, CLAIM_CASHBACK_DISCRIMINATOR.to_vec());
    assert_eq!(ix.data, vec![37, 58, 35, 126, 190, 53, 228, 197]);
    assert_eq!(ix.accounts, vec![w(1, true), w(14, false), r(106), r(102), r(100)]);
    assert!(claim_cashback_pumpfun_instruction(&addr(1), None, &program()).is_none());
}

#[test]
fn token_program_choice() {
    let zero = Address { bytes: [0; 32] };
    assert_eq!(effective_pump_mint_token_program(&pump_params(zero, false, None), addr(108)), addr(108));
    assert_eq!(effective_pump_mint_token_program(&pump_params(addr(107), false, None), addr(108)), addr(107));
    let mut almost = [0u8; 32];
    almost[31] = 1;
    let a = Address { bytes: almost };
    assert_eq!(effective_pump_mint_token_program(&pump_params(a, false, None), addr(108)), a);
}

#[test]
fn close_flag_does_not_change_buy() {
    let a = PumpFunInstructionBuilder
        .build_buy_instructions(&swap(Some(9), pump_params(addr(107), false, None)), &program(), buy_derivations())
        .unwrap();
    let mut s = swap(Some(9), pump_params(addr(107), false, Some(true)));
    s.close_input_mint_ata = true;
    let b = PumpFunInstructionBuilder
        .build_buy_instructions(&s, &program(), buy_derivations())
        .unwrap();
    assert_eq!(a, b);
}

#[test]
fn payer_signs_buy_and_sell() {
    let s = swap(Some(9), pump_params(addr(107), true, None));
    let buy = PumpFunInstructionBuilder
        .build_buy_instructions(&s, &program(), buy_derivations())
        .unwrap();
    let sell = PumpFunInstructionBuilder
        .build_sell_instructions(&s, &program(), sell_derivations())
        .unwrap();
    for ix in [&buy[0], &sell[0]] {
        assert_eq!(ix.accounts[6], w(1, true));
        assert_eq!(ix.accounts.iter().filter(|m| m.is_signer).count(), 1);
    }
}

#[test]
fn set_fee_recipient_is_second_account() {
    let mut p = pump_params(addr(107), true, None);
    p.fee_recipient = addr(60);
    let s = swap(Some(9), p);
    let buy = PumpFunInstructionBuilder
        .build_buy_instructions(&s, &program(), buy_derivations())
        .unwrap();
    let sell = PumpFunInstructionBuilder
        .build_sell_instructions(&s, &program(), sell_derivations())
        .unwrap();
    assert_eq!(buy[0].accounts[1], w(60, false));
    assert_eq!(sell[0].accounts[1], w(60, false));
}

#[test]
fn cashback_account_only_for_cashback_coins() {
    for cashback in [false, true] {
        let s = swap(Some(9), pump_params(addr(107), cashback, None));
        let sell = PumpFunInstructionBuilder
            .build_sell_instructions(&s, &program(), sell_derivations())
            .unwrap();
        assert_eq!(sell[0].accounts.contains(&w(14, false)), cashback);
    }
}

#[test]
fn zero_fee_recipient_drawn_from_mayhem_pool() {
    let mut p = pump_params(addr(107), false, None);
    p.bonding_curve.is_mayhem_mode = true;
    let s = swap(Some(9), p);
    let mut d = buy_derivations();
    d.fee_recipient_draw = 5; // 5 mod 3 = 2: the third member
    let buy = PumpFunInstructionBuilder.build_buy_instructions(&s, &program(), d).unwrap();
    assert_eq!(buy[0].accounts[1], w(42, false));
    let mut d = sell_derivations();
    d.fee_recipient_draw = 3; // 3 mod 3 = 0
    let sell = PumpFunInstructionBuilder.build_sell_instructions(&s, &program(), d).unwrap();
    assert_eq!(sell[0].accounts[1], w(40, false));
}

#[test]
fn zero_fee_recipient_drawn_from_normal_pool() {
    let s = swap(Some(9), pump_params(addr(107), false, None));
    let mut d = buy_derivations();
    d.fee_recipient_draw = u64::MAX; // odd: position 1
    let buy = PumpFunInstructionBuilder.build_buy_instructions(&s, &program(), d).unwrap();
    assert_eq!(buy[0].accounts[1], w(18, false));
}
