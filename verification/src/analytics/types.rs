//! The inputs and results of the analytics functions.

use vstd::prelude::*;
use crate::account::Account;

verus! {

/// Why an input of the analytics functions is refused.
#[derive(Clone, Copy, Debug, PartialEq, Eq, Structural)]
pub enum ValidationError {
    InvalidAddress,
    InvalidAmount,
    InvalidTimestamp,
    InvalidCategory,
    EmptyBatch,
    BatchTooLarge,
    InvalidTransactionId,
    InvalidReason,
    DuplicateTransactionId,
    InvalidRating,
    SameAddress,
    InvalidMemo,
    InvalidYear,
    InvalidMonth,
    InvalidPercentage,
}

/// The most items that a batch may hold.
pub const MAX_BATCH_SIZE: usize = 100;

/// The most bytes that a reason or a memo may hold.
pub const MAX_TEXT_LENGTH: usize = 255;

/// Where a recorded transaction stands.
#[derive(Clone, Copy, Debug, PartialEq, Eq, Structural)]
pub enum TransactionStatus {
    Pending,
    Completed,
    Failed,
    Reverted,
}

/// A transaction as it is handed to the analytics functions.
#[derive(Debug, PartialEq, Eq)]
pub struct Transaction {
    pub tx_id: u64,
    pub from: Account,
    pub to: Account,
    pub amount: i128,
    pub timestamp: u64,
    pub category: String,
}

/// A request to refund a transaction.
#[derive(Debug, PartialEq, Eq)]
pub struct RefundRequest {
    pub tx_id: u64,
    pub reason: Option<String>,
}

/// A rating of a transaction, from 1 to 5.
#[derive(Clone, Copy, Debug, PartialEq, Eq)]
pub struct RatingInput {
    pub tx_id: u64,
    pub score: u32,
}

/// A new status for a transaction.
#[derive(Clone, Copy, Debug, PartialEq, Eq)]
pub struct TransactionStatusUpdate {
    pub tx_id: u64,
    pub status: TransactionStatus,
}

/// A transaction with an optional memo.
#[derive(Debug, PartialEq, Eq)]
pub struct BundledTransaction {
    pub transaction: Transaction,
    pub memo: Option<String>,
}

/// How a fee is computed from an amount.
#[derive(Debug, PartialEq, Eq)]
pub enum FeeModel {
    /// The same fee for every amount.
    Flat(i128),
    /// A share of the amount, in basis points: a hundredth of a percent.
    Percentage(u32),
    /// A model for each range of amounts, by ascending threshold.
    Tiered(Vec<FeeTier>),
}

/// One range of a tiered fee: amounts from `threshold` on.
#[derive(Debug, PartialEq, Eq)]
pub struct FeeTier {
    pub threshold: i128,
    pub fee_model: FeeModel,
    /// The share that applies where `fee_model` is itself tiered.
    pub default_percentage_bps: u32,
}

/// A fee model with the bounds that the fee is held to.
#[derive(Debug, PartialEq, Eq)]
pub struct FeeConfig {
    pub fee_model: FeeModel,
    pub min_fee: Option<u64>,
    pub max_fee: Option<u64>,
    pub enabled: bool,
    pub description: Option<String>,
}

/// An amount split into fee and rest.
#[derive(Clone, Copy, Debug, PartialEq, Eq)]
pub struct FeeCalculationResult {
    pub gross_amount: i128,
    pub fee_amount: i128,
    pub net_amount: i128,
    /// The fee as a share of the gross amount, in basis points.
    pub fee_percentage_bps: u32,
}

} // verus!
