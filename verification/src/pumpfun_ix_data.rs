//! Instruction data of the pump.fun bonding-curve `buy`, `buy_exact_sol_in` and `sell`
//! instructions, laid out as the Anchor instruction coder lays them out: an 8-byte
//! discriminator, then each argument in order, integers little-endian, and the
//! `OptionBool` volume-tracking flag as a single byte.
use vstd::prelude::*;
use vstd::bytes::{spec_u64_from_le_bytes, spec_u64_to_le_bytes};

verus! {

/// Anchor discriminator of `buy` (first 8 bytes of sha256("global:buy")).
pub const BUY_DISCRIMINATOR: [u8; 8] = [102, 6, 61, 18, 1, 218, 235, 234];

/// Anchor discriminator of `buy_exact_sol_in` (first 8 bytes of sha256("global:buy_exact_sol_in")).
pub const BUY_EXACT_SOL_IN_DISCRIMINATOR: [u8; 8] = [56, 252, 116, 8, 158, 223, 205, 95];

/// Anchor discriminator of `sell` (first 8 bytes of sha256("global:sell")).
pub const SELL_DISCRIMINATOR: [u8; 8] = [51, 230, 133, 164, 1, 127, 131, 173];

/// The volume-tracking flag that buys send: `track_volume = true`.
pub const TRACK_VOLUME_TRUE: u8 = 1;

pub open spec fn buy_discriminator() -> Seq<u8> {
    seq![102u8, 6u8, 61u8, 18u8, 1u8, 218u8, 235u8, 234u8]
}

pub open spec fn buy_exact_sol_in_discriminator() -> Seq<u8> {
    seq![56u8, 252u8, 116u8, 8u8, 158u8, 223u8, 205u8, 95u8]
}

pub open spec fn sell_discriminator() -> Seq<u8> {
    seq![51u8, 230u8, 133u8, 164u8, 1u8, 127u8, 131u8, 173u8]
}

/// Data of `buy(amount, max_sol_cost, track_volume)`.
pub open spec fn spec_buy_ix_data(token_amount: u64, max_sol_cost: u64, track_volume: u8) -> Seq<
    u8,
> {
    buy_discriminator() + spec_u64_to_le_bytes(token_amount) + spec_u64_to_le_bytes(max_sol_cost)
        + seq![track_volume]
}

/// Data of `buy_exact_sol_in(spendable_sol_in, min_tokens_out, track_volume)`.
pub open spec fn spec_buy_exact_sol_in_ix_data(
    spendable_sol_in: u64,
    min_tokens_out: u64,
    track_volume: u8,
) -> Seq<u8> {
    buy_exact_sol_in_discriminator() + spec_u64_to_le_bytes(spendable_sol_in)
        + spec_u64_to_le_bytes(min_tokens_out) + seq![track_volume]
}

/// Data of `sell(amount, min_sol_output)`.
pub open spec fn spec_sell_ix_data(token_amount: u64, min_sol_output: u64) -> Seq<u8> {
    sell_discriminator() + spec_u64_to_le_bytes(token_amount) + spec_u64_to_le_bytes(
        min_sol_output,
    )
}

/// Reads back the arguments of a 25-byte instruction whose first 8 bytes are `disc`.
pub open spec fn spec_decode_three(data: Seq<u8>, disc: Seq<u8>) -> Option<(u64, u64, u8)> {
    if data.len() == 25 && data.subrange(0, 8) == disc {
        Some(
            (
                spec_u64_from_le_bytes(data.subrange(8, 16)),
                spec_u64_from_le_bytes(data.subrange(16, 24)),
                data[24],
            ),
        )
    } else {
        None
    }
}

/// Reads back `(amount, max_sol_cost, track_volume)` from `buy` data.
pub open spec fn spec_decode_buy_ix_data(data: Seq<u8>) -> Option<(u64, u64, u8)> {
    spec_decode_three(data, buy_discriminator())
}

/// Reads back `(spendable_sol_in, min_tokens_out, track_volume)` from `buy_exact_sol_in` data.
pub open spec fn spec_decode_buy_exact_sol_in_ix_data(data: Seq<u8>) -> Option<(u64, u64, u8)> {
    spec_decode_three(data, buy_exact_sol_in_discriminator())
}

/// Reads back `(amount, min_sol_output)` from `sell` data.
pub open spec fn spec_decode_sell_ix_data(data: Seq<u8>) -> Option<(u64, u64)> {
    if data.len() == 24 && data.subrange(0, 8) == sell_discriminator() {
        Some(
            (
                spec_u64_from_le_bytes(data.subrange(8, 16)),
                spec_u64_from_le_bytes(data.subrange(16, 24)),
            ),
        )
    } else {
        None
    }
}

/// The little-endian bytes of `x`.
fn u64_le_bytes(x: u64) -> (b: [u8; 8])
    ensures
        b@ == spec_u64_to_le_bytes(x),
{
    let b: [u8; 8] = [
        (x & 0xff) as u8,
        ((x >> 8) & 0xff) as u8,
        ((x >> 16) & 0xff) as u8,
        ((x >> 24) & 0xff) as u8,
        ((x >> 32) & 0xff) as u8,
        ((x >> 40) & 0xff) as u8,
        ((x >> 48) & 0xff) as u8,
        ((x >> 56) & 0xff) as u8,
    ];
    proof {
        vstd::bytes::spec_u64_to_le_bytes_to_open(x);
        assert(b@ =~= vstd::bytes::spec_u64_to_le_bytes_open(x));
    }
    b
}

proof fn lemma_le_len(x: u64)
    ensures
        spec_u64_to_le_bytes(x).len() == 8,
{
    vstd::bytes::spec_u64_to_le_bytes_to_open(x);
}

/// Encodes the data of a `buy` instruction.
pub fn encode_pumpfun_buy_ix_data(token_amount: u64, max_sol_cost: u64, track_volume: u8) -> (d:
    [u8; 25])
    ensures
        d@ == spec_buy_ix_data(token_amount, max_sol_cost, track_volume),
{
    let a = u64_le_bytes(token_amount);
    let c = u64_le_bytes(max_sol_cost);
    let k = BUY_DISCRIMINATOR;
    let d: [u8; 25] = [
        k[0], k[1], k[2], k[3], k[4], k[5], k[6], k[7],
        a[0], a[1], a[2], a[3], a[4], a[5], a[6], a[7],
        c[0], c[1], c[2], c[3], c[4], c[5], c[6], c[7],
        track_volume,
    ];
    proof {
        lemma_le_len(token_amount);
        lemma_le_len(max_sol_cost);
        assert(d@ =~= spec_buy_ix_data(token_amount, max_sol_cost, track_volume));
    }
    d
}

/// Encodes the data of a `buy_exact_sol_in` instruction.
pub fn encode_pumpfun_buy_exact_sol_in_ix_data(
    spendable_sol_in: u64,
    min_tokens_out: u64,
    track_volume: u8,
) -> (d: [u8; 25])
    ensures
        d@ == spec_buy_exact_sol_in_ix_data(spendable_sol_in, min_tokens_out, track_volume),
{
    let a = u64_le_bytes(spendable_sol_in);
    let c = u64_le_bytes(min_tokens_out);
    let k = BUY_EXACT_SOL_IN_DISCRIMINATOR;
    let d: [u8; 25] = [
        k[0], k[1], k[2], k[3], k[4], k[5], k[6], k[7],
        a[0], a[1], a[2], a[3], a[4], a[5], a[6], a[7],
        c[0], c[1], c[2], c[3], c[4], c[5], c[6], c[7],
        track_volume,
    ];
    proof {
        lemma_le_len(spendable_sol_in);
        lemma_le_len(min_tokens_out);
        assert(d@ =~= spec_buy_exact_sol_in_ix_data(spendable_sol_in, min_tokens_out, track_volume));
    }
    d
}

/// Encodes the data of a `sell` instruction.
pub fn encode_pumpfun_sell_ix_data(token_amount: u64, min_sol_output: u64) -> (d: [u8; 24])
    ensures
        d@ == spec_sell_ix_data(token_amount, min_sol_output),
{
    let a = u64_le_bytes(token_amount);
    let c = u64_le_bytes(min_sol_output);
    let k = SELL_DISCRIMINATOR;
    let d: [u8; 24] = [
        k[0], k[1], k[2], k[3], k[4], k[5], k[6], k[7],
        a[0], a[1], a[2], a[3], a[4], a[5], a[6], a[7],
        c[0], c[1], c[2], c[3], c[4], c[5], c[6], c[7],
    ];
    proof {
        lemma_le_len(token_amount);
        lemma_le_len(min_sol_output);
        assert(d@ =~= spec_sell_ix_data(token_amount, min_sol_output));
    }
    d
}

proof fn lemma_three_roundtrip(disc: Seq<u8>, a: u64, b: u64, t: u8)
    requires
        disc.len() == 8,
    ensures
        spec_decode_three(
            disc + spec_u64_to_le_bytes(a) + spec_u64_to_le_bytes(b) + seq![t],
            disc,
        ) == Some((a, b, t)),
{
    vstd::bytes::lemma_auto_spec_u64_to_from_le_bytes();
    let d = disc + spec_u64_to_le_bytes(a) + spec_u64_to_le_bytes(b) + seq![t];
    assert(d.subrange(0, 8) =~= disc);
    assert(d.subrange(8, 16) =~= spec_u64_to_le_bytes(a));
    assert(d.subrange(16, 24) =~= spec_u64_to_le_bytes(b));
}

proof fn lemma_three_canonical(data: Seq<u8>, disc: Seq<u8>)
    requires
        disc.len() == 8,
        spec_decode_three(data, disc) is Some,
    ensures
        ({
            let (a, b, t) = spec_decode_three(data, disc).unwrap();
            data == disc + spec_u64_to_le_bytes(a) + spec_u64_to_le_bytes(b) + seq![t]
        }),
{
    vstd::bytes::lemma_auto_spec_u64_to_from_le_bytes();
    let (a, b, t) = spec_decode_three(data, disc).unwrap();
    assert(spec_u64_to_le_bytes(spec_u64_from_le_bytes(data.subrange(8, 16))) == data.subrange(
        8,
        16,
    ));
    assert(spec_u64_to_le_bytes(spec_u64_from_le_bytes(data.subrange(16, 24))) == data.subrange(
        16,
        24,
    ));
    assert(data =~= disc + spec_u64_to_le_bytes(a) + spec_u64_to_le_bytes(b) + seq![t]);
}

/// Law: the data of each buy instruction reads back as exactly the arguments it was
/// encoded from, and only under its own discriminator.
pub proof fn law_buy_ix_data_roundtrip(amount: u64, sol: u64, track_volume: u8)
    ensures
        spec_decode_buy_ix_data(spec_buy_ix_data(amount, sol, track_volume)) == Some(
            (amount, sol, track_volume),
        ),
        spec_decode_buy_exact_sol_in_ix_data(
            spec_buy_exact_sol_in_ix_data(amount, sol, track_volume),
        ) == Some((amount, sol, track_volume)),
        spec_decode_buy_exact_sol_in_ix_data(spec_buy_ix_data(amount, sol, track_volume)) is None,
        spec_decode_buy_ix_data(spec_buy_exact_sol_in_ix_data(amount, sol, track_volume)) is None,
        spec_decode_sell_ix_data(spec_buy_ix_data(amount, sol, track_volume)) is None,
        spec_decode_sell_ix_data(spec_buy_exact_sol_in_ix_data(amount, sol, track_volume)) is None,
{
    lemma_three_roundtrip(buy_discriminator(), amount, sol, track_volume);
    lemma_three_roundtrip(buy_exact_sol_in_discriminator(), amount, sol, track_volume);
    let d1 = spec_buy_ix_data(amount, sol, track_volume);
    let d2 = spec_buy_exact_sol_in_ix_data(amount, sol, track_volume);
    assert(d1.subrange(0, 8) =~= buy_discriminator());
    assert(d2.subrange(0, 8) =~= buy_exact_sol_in_discriminator());
    assert(d1.subrange(0, 8)[0] != buy_exact_sol_in_discriminator()[0]);
    assert(d2.subrange(0, 8)[0] != buy_discriminator()[0]);
}

/// Law: the data of a `sell` reads back as exactly its arguments, and is not read as
/// the data of either buy instruction.
pub proof fn law_sell_ix_data_roundtrip(amount: u64, min_sol_output: u64)
    ensures
        spec_decode_sell_ix_data(spec_sell_ix_data(amount, min_sol_output)) == Some(
            (amount, min_sol_output),
        ),
        spec_decode_buy_ix_data(spec_sell_ix_data(amount, min_sol_output)) is None,
        spec_decode_buy_exact_sol_in_ix_data(spec_sell_ix_data(amount, min_sol_output)) is None,
{
    vstd::bytes::lemma_auto_spec_u64_to_from_le_bytes();
    let d = spec_sell_ix_data(amount, min_sol_output);
    assert(d.subrange(0, 8) =~= sell_discriminator());
    assert(d.subrange(8, 16) =~= spec_u64_to_le_bytes(amount));
    assert(d.subrange(16, 24) =~= spec_u64_to_le_bytes(min_sol_output));
}

/// Law: buy data that reads back as some arguments is exactly the encoding of those
/// arguments, so equal arguments give equal bytes and different bytes different arguments.
pub proof fn law_buy_ix_data_canonical(data: Seq<u8>)
    ensures
        spec_decode_buy_ix_data(data) matches Some((a, b, t)) ==> data == spec_buy_ix_data(a, b, t),
        spec_decode_buy_exact_sol_in_ix_data(data) matches Some((a, b, t)) ==> data
            == spec_buy_exact_sol_in_ix_data(a, b, t),
{
    if spec_decode_buy_ix_data(data) is Some {
        lemma_three_canonical(data, buy_discriminator());
    }
    if spec_decode_buy_exact_sol_in_ix_data(data) is Some {
        lemma_three_canonical(data, buy_exact_sol_in_discriminator());
    }
}

/// Law: sell data that reads back as some arguments is exactly their encoding.
pub proof fn law_sell_ix_data_canonical(data: Seq<u8>)
    ensures
        spec_decode_sell_ix_data(data) matches Some((a, b)) ==> data == spec_sell_ix_data(a, b),
{
    vstd::bytes::lemma_auto_spec_u64_to_from_le_bytes();
    if let Some((a, b)) = spec_decode_sell_ix_data(data) {
        assert(spec_u64_to_le_bytes(spec_u64_from_le_bytes(data.subrange(8, 16))) == data.subrange(
            8,
            16,
        ));
        assert(spec_u64_to_le_bytes(spec_u64_from_le_bytes(data.subrange(16, 24)))
            == data.subrange(16, 24));
        assert(data =~= sell_discriminator() + spec_u64_to_le_bytes(a) + spec_u64_to_le_bytes(b));
    }
}

/// Law: the bytes of each instruction's data: its 8-byte Anchor discriminator, then each
/// integer argument in 8 little-endian bytes, then (for the buys) the one-byte flag.
pub proof fn law_ix_data_layout(a: u64, b: u64, t: u8)
    ensures
        spec_buy_ix_data(a, b, t) == seq![102u8, 6u8, 61u8, 18u8, 1u8, 218u8, 235u8, 234u8]
            + spec_u64_to_le_bytes(a) + spec_u64_to_le_bytes(b) + seq![t],
        spec_buy_exact_sol_in_ix_data(a, b, t) == seq![
            56u8,
            252u8,
            116u8,
            8u8,
            158u8,
            223u8,
            205u8,
            95u8,
        ] + spec_u64_to_le_bytes(a) + spec_u64_to_le_bytes(b) + seq![t],
        spec_sell_ix_data(a, b) == seq![51u8, 230u8, 133u8, 164u8, 1u8, 127u8, 131u8, 173u8]
            + spec_u64_to_le_bytes(a) + spec_u64_to_le_bytes(b),
        spec_buy_ix_data(a, b, t).len() == 25,
        spec_buy_exact_sol_in_ix_data(a, b, t).len() == 25,
        spec_sell_ix_data(a, b).len() == 24,
{
    lemma_le_len(a);
    lemma_le_len(b);
}

} // verus!
