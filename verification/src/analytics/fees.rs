//! The fee engine: a fee computed from an amount by a flat, a percentage or
//! a tiered model, held between the configured bounds and never above the
//! amount itself.

use vstd::prelude::*;
use crate::account::Account;
use crate::analytics::types::{FeeCalculationResult, FeeConfig, FeeModel, FeeTier, ValidationError};

verus! {

/// The share of `amount` that `bps` basis points are, rounded down.
pub open spec fn share_of(amount: int, bps: int) -> int {
    amount * bps / 10000
}

/// How many tiers, from the first on, have a threshold that `amount`
/// reaches: the length of the longest such run.
pub open spec fn reached_tiers(tiers: Seq<FeeTier>, amount: int) -> nat
    decreases tiers.len(),
{
    if tiers.len() == 0 || amount < tiers[0].threshold {
        0
    } else {
        1 + reached_tiers(tiers.drop_first(), amount)
    }
}

/// The index of the tier that applies to `amount`: the last of the tiers
/// that `amount` reaches, and the first tier where it reaches none.
pub open spec fn tier_index(tiers: Seq<FeeTier>, amount: int) -> int {
    if reached_tiers(tiers, amount) == 0 {
        0
    } else {
        reached_tiers(tiers, amount) - 1
    }
}

/// The share that a tier takes where its model is a share, and nothing
/// where it is flat.
pub open spec fn tier_share(tier: &FeeTier) -> int {
    match tier.fee_model {
        FeeModel::Flat(_) => 0,
        FeeModel::Percentage(bps) => bps as int,
        FeeModel::Tiered(_) => tier.default_percentage_bps as int,
    }
}

/// The fee that a tier asks for `amount`. A tier within a tier is not
/// followed: its default share applies.
pub open spec fn tier_fee(tier: &FeeTier, amount: int) -> int {
    match tier.fee_model {
        FeeModel::Flat(fee) => fee as int,
        _ => share_of(amount, tier_share(tier)),
    }
}

/// The fee of a tiered model: that of the tier which applies, and nothing
/// where there is no tier.
pub open spec fn tiered_fee(tiers: Seq<FeeTier>, amount: int) -> int {
    if tiers.len() == 0 {
        0
    } else {
        tier_fee(&tiers[tier_index(tiers, amount)], amount)
    }
}

/// The share by which the model of `config` multiplies `amount`; zero where
/// it multiplies nothing.
pub open spec fn model_share(model: &FeeModel, amount: int) -> int {
    match *model {
        FeeModel::Flat(_) => 0,
        FeeModel::Percentage(bps) => bps as int,
        FeeModel::Tiered(tiers) => if tiers@.len() == 0 {
            0
        } else {
            tier_share(&tiers@[tier_index(tiers@, amount)])
        },
    }
}

/// The fee that a model asks for `amount`, before any bound.
pub open spec fn model_fee(model: &FeeModel, amount: int) -> int {
    match *model {
        FeeModel::Flat(fee) => fee as int,
        FeeModel::Percentage(bps) => share_of(amount, bps as int),
        FeeModel::Tiered(tiers) => tiered_fee(tiers@, amount),
    }
}

/// A fee raised to the minimum and then lowered to the maximum of
/// `config`, as far as it has them.
pub open spec fn constrained_fee(fee: int, config: &FeeConfig) -> int {
    let raised = if config.min_fee is Some && fee < config.min_fee->Some_0 {
        config.min_fee->Some_0 as int
    } else {
        fee
    };
    if config.max_fee is Some && raised > config.max_fee->Some_0 {
        config.max_fee->Some_0 as int
    } else {
        raised
    }
}

/// The fee that is charged on a positive `amount`: the bounded fee of the
/// model, and at most the amount.
pub open spec fn charged_fee(config: &FeeConfig, amount: int) -> int {
    let bounded = constrained_fee(model_fee(&config.fee_model, amount), config);
    if bounded > amount {
        amount
    } else {
        bounded
    }
}

/// The fee as a share of the gross amount, in basis points, rounded down.
pub open spec fn effective_rate(gross_amount: int, fee_amount: int) -> int {
    if gross_amount == 0 {
        0
    } else {
        fee_amount * 10000 / gross_amount
    }
}

/// Whether the fee of `amount` can be computed in 128 bits and is not
/// negative. This holds of every positive amount up to 10^28 under a
/// configuration whose shares are at most 10000 and whose flat fees are not
/// negative.
pub open spec fn fee_computable(config: &FeeConfig, amount: int) -> bool {
    amount <= 0 || {
        &&& amount * model_share(&config.fee_model, amount) <= i128::MAX
        &&& 0 <= charged_fee(config, amount)
        &&& charged_fee(config, amount) * 10000 <= i128::MAX
    }
}

/// The result of the fee calculation: a non-positive amount is charged
/// nothing.
pub open spec fn fee_result(config: &FeeConfig, amount: int) -> FeeCalculationResult {
    if amount <= 0 {
        FeeCalculationResult {
            gross_amount: amount as i128,
            fee_amount: 0,
            net_amount: amount as i128,
            fee_percentage_bps: 0,
        }
    } else {
        let fee = charged_fee(config, amount);
        FeeCalculationResult {
            gross_amount: amount as i128,
            fee_amount: fee as i128,
            net_amount: (amount - fee) as i128,
            fee_percentage_bps: effective_rate(amount, fee) as u32,
        }
    }
}

/// A fee between zero and its amount is a share of at most 10000 basis
/// points.
proof fn lemma_rate_bounded(gross: int, fee: int)
    requires
        0 < gross,
        0 <= fee <= gross,
    ensures
        0 <= fee * 10000 / gross <= 10000,
{
    assert(0 <= fee * 10000 <= gross * 10000) by (nonlinear_arith)
        requires
            0 <= fee <= gross,
    ;
    assert(fee * 10000 / gross <= 10000) by (nonlinear_arith)
        requires
            0 < gross,
            fee * 10000 <= gross * 10000,
    ;
    assert(0 <= fee * 10000 / gross) by (nonlinear_arith)
        requires
            0 < gross,
            0 <= fee * 10000,
    ;
}

/// The share of a positive amount, rounded down.
fn percentage_of(amount: i128, bps: u32) -> (fee: i128)
    requires
        0 < amount,
        amount * bps <= i128::MAX,
    ensures
        fee == share_of(amount as int, bps as int),
{
    assert(0 <= amount * bps) by (nonlinear_arith)
        requires
            0 < amount,
            0 <= bps,
    ;
    amount * (bps as i128) / 10000
}

/// The index of the tier that applies to `amount`.
fn find_tier(amount: i128, tiers: &Vec<FeeTier>) -> (index: usize)
    requires
        tiers@.len() > 0,
    ensures
        index == tier_index(tiers@, amount as int),
        index < tiers@.len(),
{
    let mut reached: usize = 0;
    assert(tiers@.skip(0) =~= tiers@);
    while reached < tiers.len() && amount >= tiers[reached].threshold
        invariant
            reached <= tiers@.len(),
            reached_tiers(tiers@, amount as int) == reached + reached_tiers(
                tiers@.skip(reached as int),
                amount as int,
            ),
        decreases tiers@.len() - reached,
    {
        proof {
            let rest = tiers@.skip(reached as int);
            assert(rest[0] == tiers@[reached as int]);
            assert(rest.drop_first() =~= tiers@.skip(reached + 1));
        }
        reached += 1;
    }
    proof {
        let rest = tiers@.skip(reached as int);
        if reached < tiers@.len() {
            assert(rest[0] == tiers@[reached as int]);
        }
        assert(reached_tiers(rest, amount as int) == 0);
    }
    if reached == 0 {
        0
    } else {
        reached - 1
    }
}

/// The fee of a tiered model for a positive `amount`.
pub fn calculate_tiered_fee(amount: i128, tiers: &Vec<FeeTier>) -> (fee: i128)
    requires
        0 < amount,
        tiers@.len() > 0 ==> amount * tier_share(&tiers@[tier_index(tiers@, amount as int)]) <= i128::MAX,
    ensures
        fee == tiered_fee(tiers@, amount as int),
{
    if tiers.len() == 0 {
        return 0;
    }
    let tier = &tiers[find_tier(amount, tiers)];
    match &tier.fee_model {
        FeeModel::Flat(flat_fee) => *flat_fee,
        FeeModel::Percentage(percentage_bps) => percentage_of(amount, *percentage_bps),
        FeeModel::Tiered(_) => percentage_of(amount, tier.default_percentage_bps),
    }
}

/// Holds a fee to the bounds of `config`: raised to the minimum, then
/// lowered to the maximum.
pub fn constrain_fee_amount(calculated_fee: i128, config: &FeeConfig) -> (fee: i128)
    ensures
        fee == constrained_fee(calculated_fee as int, config),
{
    let mut constrained = calculated_fee;
    match config.min_fee {
        Some(min_fee) => {
            if constrained < min_fee as i128 {
                constrained = min_fee as i128;
            }
        },
        None => {},
    }
    match config.max_fee {
        Some(max_fee) => {
            if constrained > max_fee as i128 {
                constrained = max_fee as i128;
            }
        },
        None => {},
    }
    constrained
}

/// The fee as a share of the gross amount, in basis points.
pub fn calculate_effective_rate(gross_amount: i128, fee_amount: i128) -> (rate: u32)
    requires
        0 <= gross_amount,
        0 <= fee_amount <= gross_amount,
        fee_amount * 10000 <= i128::MAX,
    ensures
        rate == effective_rate(gross_amount as int, fee_amount as int),
        rate <= 10000,
{
    if gross_amount == 0 {
        return 0;
    }
    proof {
        lemma_rate_bounded(gross_amount as int, fee_amount as int);
    }
    ((fee_amount * 10000) / gross_amount) as u32
}

/// Splits `amount` into fee and rest under `fee_config`.
pub fn calculate_transaction_fee(amount: i128, fee_config: &FeeConfig) -> (result: FeeCalculationResult)
    requires
        fee_computable(fee_config, amount as int),
    ensures
        result == fee_result(fee_config, amount as int),
{
    if amount <= 0 {
        return FeeCalculationResult {
            gross_amount: amount,
            fee_amount: 0,
            net_amount: amount,
            fee_percentage_bps: 0,
        };
    }
    let fee_amount = match &fee_config.fee_model {
        FeeModel::Flat(flat_fee) => *flat_fee,
        FeeModel::Percentage(percentage_bps) => percentage_of(amount, *percentage_bps),
        FeeModel::Tiered(tiers) => calculate_tiered_fee(amount, tiers),
    };
    let constrained = constrain_fee_amount(fee_amount, fee_config);
    let final_fee = if constrained > amount {
        amount
    } else {
        constrained
    };
    FeeCalculationResult {
        gross_amount: amount,
        fee_amount: final_fee,
        net_amount: amount - final_fee,
        fee_percentage_bps: calculate_effective_rate(amount, final_fee),
    }
}

/// Splits each of `amounts` into fee and rest under `fee_config`.
pub fn calculate_batch_fees(amounts: &[i128], fee_config: &FeeConfig) -> (results: Vec<FeeCalculationResult>)
    requires
        forall|i: int| 0 <= i < amounts@.len() ==> fee_computable(fee_config, #[trigger] amounts@[i] as int),
    ensures
        results@.len() == amounts@.len(),
        forall|i: int|
            0 <= i < amounts@.len() ==> #[trigger] results@[i] == fee_result(fee_config, amounts@[i] as int),
{
    let mut results: Vec<FeeCalculationResult> = Vec::new();
    let mut i: usize = 0;
    while i < amounts.len()
        invariant
            i <= amounts@.len(),
            results@.len() == i,
            forall|j: int| 0 <= j < amounts@.len() ==> fee_computable(fee_config, #[trigger] amounts@[j] as int),
            forall|j: int| 0 <= j < i ==> #[trigger] results@[j] == fee_result(fee_config, amounts@[j] as int),
        decreases amounts@.len() - i,
    {
        results.push(calculate_transaction_fee(amounts[i], fee_config));
        i += 1;
    }
    results
}

/// What is wrong with tier `i` by itself: a negative threshold, or a share
/// above the whole.
pub open spec fn tier_error(tier: &FeeTier) -> Option<ValidationError> {
    if tier.threshold < 0 {
        Some(ValidationError::InvalidAmount)
    } else if tier.fee_model is Percentage && tier.fee_model->Percentage_0 > 10000 {
        Some(ValidationError::InvalidPercentage)
    } else {
        None
    }
}

/// Whether the thresholds of `tiers` never fall from one tier to the next.
pub open spec fn thresholds_ascend(tiers: Seq<FeeTier>) -> bool {
    forall|i: int| 0 < i < tiers.len() ==> tiers[i - 1].threshold <= (#[trigger] tiers[i]).threshold
}

/// Whether `result` is what the validation of `tiers` owes: the fault of
/// the first tier that has one; else `InvalidAmount` where a threshold
/// falls; else success.
pub open spec fn tiers_result(tiers: Seq<FeeTier>, result: Result<(), ValidationError>) -> bool {
    if exists|i: int| 0 <= i < tiers.len() && tier_error(&tiers[i]) is Some {
        exists|i: int|
            0 <= i < tiers.len() && result == Err::<(), ValidationError>(
                (#[trigger] tier_error(&tiers[i]))->Some_0,
            ) && tier_error(&tiers[i]) is Some && forall|j: int|
                0 <= j < i ==> (#[trigger] tier_error(&tiers[j])) is None
    } else if !thresholds_ascend(tiers) {
        result == Err::<(), ValidationError>(ValidationError::InvalidAmount)
    } else {
        result is Ok
    }
}

/// Validates the tiers of a tiered model against `tiers_result`.
fn validate_tiers(tiers: &Vec<FeeTier>) -> (result: Result<(), ValidationError>)
    ensures
        tiers_result(tiers@, result),
{
    let mut i: usize = 0;
    while i < tiers.len()
        invariant
            i <= tiers@.len(),
            forall|j: int| 0 <= j < i ==> (#[trigger] tier_error(&tiers@[j])) is None,
        decreases tiers@.len() - i,
    {
        let tier = &tiers[i];
        if tier.threshold < 0 {
            assert(tier_error(&tiers@[i as int]) == Some(ValidationError::InvalidAmount));
            return Err(ValidationError::InvalidAmount);
        }
        match &tier.fee_model {
            FeeModel::Percentage(percentage_bps) => {
                if *percentage_bps > 10000 {
                    assert(tier_error(&tiers@[i as int]) == Some(ValidationError::InvalidPercentage));
                    return Err(ValidationError::InvalidPercentage);
                }
            },
            _ => {},
        }
        i += 1;
    }
    let mut prev_threshold: i128 = 0;
    let mut k: usize = 0;
    while k < tiers.len()
        invariant
            k <= tiers@.len(),
            forall|j: int| 0 <= j < tiers@.len() ==> (#[trigger] tier_error(&tiers@[j])) is None,
            k == 0 ==> prev_threshold == 0,
            k > 0 ==> prev_threshold == tiers@[k - 1].threshold,
            forall|j: int| 0 < j < k ==> tiers@[j - 1].threshold <= (#[trigger] tiers@[j]).threshold,
        decreases tiers@.len() - k,
    {
        if tiers[k].threshold < prev_threshold {
            assert(k > 0) by {
                assert(tier_error(&tiers@[k as int]) is None);
            }
            assert(!thresholds_ascend(tiers@)) by {
                assert(!(tiers@[k - 1].threshold <= tiers@[k as int].threshold));
            }
            return Err(ValidationError::InvalidAmount);
        }
        prev_threshold = tiers[k].threshold;
        k += 1;
    }
    Ok(())
}

/// Whether the bounds of `config` are acceptable: each fits 63 bits, and
/// the minimum is not above the maximum.
pub open spec fn bounds_ok(config: &FeeConfig) -> bool {
    &&& config.min_fee is Some ==> config.min_fee->Some_0 <= i64::MAX
    &&& config.max_fee is Some ==> config.max_fee->Some_0 <= i64::MAX
    &&& config.min_fee is Some && config.max_fee is Some ==> config.min_fee->Some_0
        <= config.max_fee->Some_0
}

/// Whether `result` is what the validation of `config` owes: the fault of
/// its model, else `InvalidAmount` for unacceptable bounds, else success.
pub open spec fn fee_config_result(config: &FeeConfig, result: Result<(), ValidationError>) -> bool {
    match config.fee_model {
        FeeModel::Percentage(bps) if bps > 10000 => result == Err::<(), ValidationError>(
            ValidationError::InvalidPercentage,
        ),
        FeeModel::Tiered(tiers) if !tiers_result(tiers@, Ok(())) => tiers_result(tiers@, result),
        _ => if bounds_ok(config) {
            result is Ok
        } else {
            result == Err::<(), ValidationError>(ValidationError::InvalidAmount)
        },
    }
}

/// Validates a fee configuration: a share is at most 10000 basis points;
/// the tiers of a tiered model are each acceptable and ascend; the bounds
/// are acceptable.
pub fn validate_fee_config(config: &FeeConfig) -> (result: Result<(), ValidationError>)
    ensures
        fee_config_result(config, result),
{
    match &config.fee_model {
        FeeModel::Percentage(percentage_bps) => {
            if *percentage_bps > 10000 {
                return Err(ValidationError::InvalidPercentage);
            }
        },
        FeeModel::Tiered(tiers) => {
            match validate_tiers(tiers) {
                Err(e) => {
                    return Err(e);
                },
                Ok(()) => {},
            }
        },
        _ => {},
    }
    match config.min_fee {
        Some(min_fee) => {
            if min_fee > 0x7fff_ffff_ffff_ffffu64 {
                return Err(ValidationError::InvalidAmount);
            }
        },
        None => {},
    }
    match config.max_fee {
        Some(max_fee) => {
            if max_fee > 0x7fff_ffff_ffff_ffffu64 {
                return Err(ValidationError::InvalidAmount);
            }
        },
        None => {},
    }
    match (config.min_fee, config.max_fee) {
        (Some(min_fee), Some(max_fee)) => {
            if min_fee > max_fee {
                return Err(ValidationError::InvalidAmount);
            }
        },
        _ => {},
    }
    Ok(())
}

/// The configuration that applies where none was stored: a tenth of a
/// percent, and at least 1.
pub fn default_fee_config() -> (config: FeeConfig)
    ensures
        config.fee_model == FeeModel::Percentage(10),
        config.min_fee == Some(1u64),
        config.max_fee is None,
        config.enabled,
        config.description is Some && config.description->Some_0@ == "Default 0.1% fee"@,
{
    FeeConfig {
        fee_model: FeeModel::Percentage(10),
        min_fee: Some(1),
        max_fee: None,
        enabled: true,
        description: Some("Default 0.1% fee".to_owned()),
    }
}

/// The administrator of the fee engine and the configuration in force.
pub struct FeeSettings {
    pub admin: Account,
    pub current: Option<FeeConfig>,
}

/// Stores `config` as the configuration in force, if it is valid; a
/// refused configuration leaves the one in force.
pub fn store_fee_config(settings: &mut FeeSettings, config: FeeConfig) -> (result: Result<(), ValidationError>)
    ensures
        fee_config_result(&config, result),
        result is Ok ==> final(settings).current == Some(config) && final(settings).admin == old(
            settings,
        ).admin,
        result is Err ==> *final(settings) == *old(settings),
{
    match validate_fee_config(&config) {
        Err(e) => Err(e),
        Ok(()) => {
            settings.current = Some(config);
            Ok(())
        },
    }
}

/// The configuration in force, if one was stored.
pub fn get_current_fee_config(settings: &FeeSettings) -> (config: Option<&FeeConfig>)
    ensures
        match config {
            Some(c) => settings.current == Some(*c),
            None => settings.current is None,
        },
{
    settings.current.as_ref()
}

/// The fee under the default configuration: a tenth of a percent, at
/// least 1, and at most the amount.
pub open spec fn default_fee(amount: int) -> int {
    let share = share_of(amount, 10);
    let raised = if share < 1 {
        1
    } else {
        share
    };
    if raised > amount {
        amount
    } else {
        raised
    }
}

/// The split of `amount` under the default configuration.
pub open spec fn default_fee_result(amount: int) -> FeeCalculationResult {
    if amount <= 0 {
        FeeCalculationResult {
            gross_amount: amount as i128,
            fee_amount: 0,
            net_amount: amount as i128,
            fee_percentage_bps: 0,
        }
    } else {
        FeeCalculationResult {
            gross_amount: amount as i128,
            fee_amount: default_fee(amount) as i128,
            net_amount: (amount - default_fee(amount)) as i128,
            fee_percentage_bps: effective_rate(amount, default_fee(amount)) as u32,
        }
    }
}

/// Whether the fee of `amount` can be computed under the configuration
/// that applies to `settings`: the one in force, or the default, which
/// serves every amount up to 10^34.
pub open spec fn deduction_computable(settings: &FeeSettings, amount: int) -> bool {
    match settings.current {
        Some(config) => fee_computable(&config, amount),
        None => amount * 10000 <= i128::MAX,
    }
}

/// Splits `gross_amount` into fee and rest under the configuration in
/// force, or under the default where none was stored.
pub fn deduct_fees(settings: &FeeSettings, gross_amount: i128) -> (result: FeeCalculationResult)
    requires
        deduction_computable(settings, gross_amount as int),
    ensures
        match settings.current {
            Some(config) => result == fee_result(&config, gross_amount as int),
            None => result == default_fee_result(gross_amount as int),
        },
{
    match &settings.current {
        Some(config) => calculate_transaction_fee(gross_amount, config),
        None => {
            let config = default_fee_config();
            proof {
                if gross_amount > 0 {
                    let amount = gross_amount as int;
                    assert(0 <= amount * 10 <= amount * 10000) by (nonlinear_arith)
                        requires
                            0 < amount,
                    ;
                    assert(0 <= amount * 10 / 10000);
                    assert(charged_fee(&config, amount) == default_fee(amount));
                    assert(default_fee(amount) * 10000 <= amount * 10000) by (nonlinear_arith)
                        requires
                            default_fee(amount) <= amount,
                    ;
                }
            }
            calculate_transaction_fee(gross_amount, &config)
        },
    }
}

/// Replaces the configuration in force on behalf of `admin`: refused with
/// `InvalidAddress` for any other account, and as `store_fee_config` is.
pub fn update_fee_config(settings: &mut FeeSettings, admin: &Account, new_config: FeeConfig) -> (result:
    Result<(), ValidationError>)
    ensures
        admin@ != old(settings).admin@ ==> result == Err::<(), ValidationError>(
            ValidationError::InvalidAddress,
        ),
        admin@ == old(settings).admin@ ==> fee_config_result(&new_config, result),
        result is Ok ==> final(settings).current == Some(new_config) && final(settings).admin == old(
            settings,
        ).admin,
        result is Err ==> *final(settings) == *old(settings),
{
    if !admin.same(&settings.admin) {
        return Err(ValidationError::InvalidAddress);
    }
    store_fee_config(settings, new_config)
}

} // verus!
