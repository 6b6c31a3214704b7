//! Batch minting of tokens: the validation of mint requests and the
//! bookkeeping of a batch, in which a request that fails does not stop the
//! others. Callers are named by the accounts that the host has
//! authenticated them as.

use vstd::prelude::*;
use crate::account::{opt_name, Account};

verus! {

/// The most mint requests that a batch may hold.
pub const MAX_BATCH_SIZE: u32 = 100;

/// The least amount that can be minted: one stroop.
pub const MIN_MINT_AMOUNT: i128 = 1;

/// The largest amount that can be minted at once.
pub const MAX_MINT_AMOUNT: i128 = 1_000_000_000_000_000_000_000;

/// The code for an amount outside the bounds.
pub const INVALID_AMOUNT: u32 = 0;

/// The code for a recipient that cannot receive.
pub const INVALID_RECIPIENT: u32 = 1;

/// The amount from which on a mint is reported as large.
pub const LARGE_MINT_AMOUNT: i128 = 1_000_000_000;

/// A request to mint `amount` for `recipient`.
#[derive(Debug, PartialEq, Eq)]
pub struct TokenMintRequest {
    pub recipient: Account,
    pub amount: i128,
}

/// Whether an amount lies within the bounds of a mint.
pub open spec fn amount_in_bounds(amount: int) -> bool {
    MIN_MINT_AMOUNT <= amount <= MAX_MINT_AMOUNT
}

/// Whether `amount` can be minted: at least `MIN_MINT_AMOUNT` and at most
/// `MAX_MINT_AMOUNT`.
pub fn is_valid_amount(amount: i128) -> (valid: bool)
    ensures
        valid == amount_in_bounds(amount as int),
{
    amount >= MIN_MINT_AMOUNT && amount <= MAX_MINT_AMOUNT
}

/// Whether `recipient` can receive a mint: every account can.
fn is_valid_recipient(recipient: &Account) -> (valid: bool)
    ensures
        valid,
{
    true
}

/// Whether `token` can be minted from: every account can.
pub fn is_valid_token_address(token: &Account) -> (valid: bool)
    ensures
        valid,
{
    true
}

/// Validates one mint request: refused with `INVALID_AMOUNT` when its
/// amount is out of bounds.
pub fn validate_mint_request(request: &TokenMintRequest) -> (result: Result<(), u32>)
    ensures
        amount_in_bounds(request.amount as int) ==> result is Ok,
        !amount_in_bounds(request.amount as int) ==> result == Err::<(), u32>(INVALID_AMOUNT),
{
    if !is_valid_recipient(&request.recipient) {
        return Err(INVALID_RECIPIENT);
    }
    if !is_valid_amount(request.amount) {
        return Err(INVALID_AMOUNT);
    }
    Ok(())
}

/// Validates the shape of a batch: it must hold a request. The requests
/// themselves are validated one by one when they are processed.
pub fn validate_batch(requests: &Vec<TokenMintRequest>) -> (result: Result<(), ()>)
    ensures
        result is Ok <==> requests@.len() > 0,
{
    if requests.len() == 0 {
        return Err(());
    }
    Ok(())
}

/// Why a batch was rejected as a whole.
#[derive(Copy, Clone, Debug, PartialEq, Eq, Structural)]
pub enum BatchTokenMintError {
    NotInitialized,
    Unauthorized,
    InvalidBatch,
    EmptyBatch,
    BatchTooLarge,
}

impl BatchTokenMintError {
    /// The numeric code under which the error is reported.
    pub fn code(&self) -> (code: u32)
        ensures
            code == match *self {
                BatchTokenMintError::NotInitialized => 1u32,
                BatchTokenMintError::Unauthorized => 2u32,
                BatchTokenMintError::InvalidBatch => 3u32,
                BatchTokenMintError::EmptyBatch => 4u32,
                BatchTokenMintError::BatchTooLarge => 5u32,
            },
    {
        match self {
            BatchTokenMintError::NotInitialized => 1,
            BatchTokenMintError::Unauthorized => 2,
            BatchTokenMintError::InvalidBatch => 3,
            BatchTokenMintError::EmptyBatch => 4,
            BatchTokenMintError::BatchTooLarge => 5,
        }
    }
}

/// A mint that was made.
#[derive(Debug, PartialEq, Eq)]
pub struct TokenMinted {
    pub token_address: Account,
    pub recipient: Account,
    pub amount: i128,
    /// The ledger sequence number at which it was made.
    pub minted_at: u64,
}

/// What became of one request: a mint, or a refusal of the recipient with
/// an error code.
#[derive(Debug, PartialEq, Eq)]
pub enum MintResult {
    Success(TokenMinted),
    Failure(Account, u32),
}

/// The figures of one batch.
#[derive(Clone, Copy, Debug, PartialEq, Eq)]
pub struct BatchMintMetrics {
    pub total_requests: u32,
    pub successful_mints: u32,
    pub failed_mints: u32,
    pub total_amount_minted: i128,
    /// The total divided by the number of mints, rounded down; zero where
    /// nothing was minted.
    pub avg_mint_amount: i128,
    pub processed_at: u64,
}

/// What a batch returns: the outcome of each request, in order, and the
/// figures.
#[derive(Debug, PartialEq, Eq)]
pub struct BatchMintResult {
    pub batch_id: u64,
    pub token_address: Account,
    pub total_requests: u32,
    pub successful: u32,
    pub failed: u32,
    pub results: Vec<MintResult>,
    pub metrics: BatchMintMetrics,
}

/// What the mint contract reports, for its host to publish.
#[derive(Debug, PartialEq, Eq)]
pub enum MintEvent {
    BatchStarted { batch_id: u64, token: Account, count: u32 },
    TokensMinted { batch_id: u64, token: Account, recipient: Account, amount: i128 },
    MintFailed { batch_id: u64, token: Account, recipient: Account, error_code: u32 },
    BatchCompleted { batch_id: u64, token: Account, successful: u32, failed: u32, total_amount: i128 },
    LargeMint { batch_id: u64, token: Account, recipient: Account, amount: i128 },
}

/// A mint event as plain values.
pub enum MintEventView {
    BatchStarted { batch_id: u64, token: Seq<char>, count: u32 },
    TokensMinted { batch_id: u64, token: Seq<char>, recipient: Seq<char>, amount: i128 },
    MintFailed { batch_id: u64, token: Seq<char>, recipient: Seq<char>, error_code: u32 },
    BatchCompleted { batch_id: u64, token: Seq<char>, successful: u32, failed: u32, total_amount: i128 },
    LargeMint { batch_id: u64, token: Seq<char>, recipient: Seq<char>, amount: i128 },
}

impl View for MintEvent {
    type V = MintEventView;

    open spec fn view(&self) -> MintEventView {
        match *self {
            MintEvent::BatchStarted { batch_id, token, count } => MintEventView::BatchStarted {
                batch_id,
                token: token@,
                count,
            },
            MintEvent::TokensMinted { batch_id, token, recipient, amount } => MintEventView::TokensMinted {
                batch_id,
                token: token@,
                recipient: recipient@,
                amount,
            },
            MintEvent::MintFailed { batch_id, token, recipient, error_code } => MintEventView::MintFailed {
                batch_id,
                token: token@,
                recipient: recipient@,
                error_code,
            },
            MintEvent::BatchCompleted { batch_id, token, successful, failed, total_amount } =>
                MintEventView::BatchCompleted { batch_id, token: token@, successful, failed, total_amount },
            MintEvent::LargeMint { batch_id, token, recipient, amount } => MintEventView::LargeMint {
                batch_id,
                token: token@,
                recipient: recipient@,
                amount,
            },
        }
    }
}

impl MintEvent {
    /// The pair of topic words under which the event is published.
    pub fn topics(&self) -> (topics: (&'static str, &'static str))
        ensures
            topics.0@ == "mint"@,
            self is BatchStarted ==> topics.1@ == "start"@,
            self is TokensMinted ==> topics.1@ == "success"@,
            self is MintFailed ==> topics.1@ == "failed"@,
            self is BatchCompleted ==> topics.1@ == "done"@,
            self is LargeMint ==> topics.1@ == "large"@,
    {
        match self {
            MintEvent::BatchStarted { .. } => ("mint", "start"),
            MintEvent::TokensMinted { .. } => ("mint", "success"),
            MintEvent::MintFailed { .. } => ("mint", "failed"),
            MintEvent::BatchCompleted { .. } => ("mint", "done"),
            MintEvent::LargeMint { .. } => ("mint", "large"),
        }
    }
}

/// The makers of the mint contract's events.
pub struct MintEvents;

impl MintEvents {
    /// The event for a batch of `count` requests that begins.
    pub fn batch_started(batch_id: u64, token: &Account, count: u32) -> (event: MintEvent)
        ensures
            event@ == (MintEventView::BatchStarted { batch_id, token: token@, count }),
    {
        MintEvent::BatchStarted { batch_id, token: token.clone(), count }
    }

    /// The event for a mint that was made.
    pub fn tokens_minted(batch_id: u64, token: &Account, minted: &TokenMinted) -> (event: MintEvent)
        ensures
            event@ == (MintEventView::TokensMinted {
                batch_id,
                token: token@,
                recipient: minted.recipient@,
                amount: minted.amount,
            }),
    {
        MintEvent::TokensMinted {
            batch_id,
            token: token.clone(),
            recipient: minted.recipient.clone(),
            amount: minted.amount,
        }
    }

    /// The event for a request that was refused.
    pub fn mint_failed(batch_id: u64, token: &Account, recipient: &Account, error_code: u32) -> (event:
        MintEvent)
        ensures
            event@ == (MintEventView::MintFailed { batch_id, token: token@, recipient: recipient@, error_code }),
    {
        MintEvent::MintFailed { batch_id, token: token.clone(), recipient: recipient.clone(), error_code }
    }

    /// The event for a batch that ended.
    pub fn batch_completed(batch_id: u64, token: &Account, successful: u32, failed: u32, total_amount: i128) -> (event:
        MintEvent)
        ensures
            event@ == (MintEventView::BatchCompleted {
                batch_id,
                token: token@,
                successful,
                failed,
                total_amount,
            }),
    {
        MintEvent::BatchCompleted { batch_id, token: token.clone(), successful, failed, total_amount }
    }

    /// The event for a mint of `LARGE_MINT_AMOUNT` or more.
    pub fn large_mint(batch_id: u64, token: &Account, recipient: &Account, amount: i128) -> (event: MintEvent)
        ensures
            event@ == (MintEventView::LargeMint { batch_id, token: token@, recipient: recipient@, amount }),
    {
        MintEvent::LargeMint { batch_id, token: token.clone(), recipient: recipient.clone(), amount }
    }
}

/// The events of a list, as plain values.
pub open spec fn mint_events_of(events: Seq<MintEvent>) -> Seq<MintEventView> {
    Seq::new(events.len(), |i: int| events[i]@)
}

/// The events that report one outcome: the mint, followed by a further
/// event where it is large; or the refusal.
pub open spec fn outcome_events(batch_id: u64, token: Seq<char>, outcome: MintResult) -> Seq<MintEventView> {
    match outcome {
        MintResult::Success(minted) => {
            let made = MintEventView::TokensMinted {
                batch_id,
                token,
                recipient: minted.recipient@,
                amount: minted.amount,
            };
            if minted.amount >= LARGE_MINT_AMOUNT {
                seq![
                    made,
                    MintEventView::LargeMint {
                        batch_id,
                        token,
                        recipient: minted.recipient@,
                        amount: minted.amount,
                    },
                ]
            } else {
                seq![made]
            }
        },
        MintResult::Failure(recipient, error_code) => seq![
            MintEventView::MintFailed { batch_id, token, recipient: recipient@, error_code },
        ],
    }
}

/// The events that report the first `n` outcomes, in order.
pub open spec fn outcomes_events(batch_id: u64, token: Seq<char>, outcomes: Seq<MintResult>, n: int) -> Seq<
    MintEventView,
>
    decreases n,
{
    if n <= 0 {
        Seq::empty()
    } else {
        outcomes_events(batch_id, token, outcomes, n - 1) + outcome_events(batch_id, token, outcomes[n - 1])
    }
}

/// The events that report a batch, in the order of their publication: its
/// start, each outcome, and its end.
pub open spec fn batch_event_list(result: &BatchMintResult) -> Seq<MintEventView> {
    seq![
        MintEventView::BatchStarted {
            batch_id: result.batch_id,
            token: result.token_address@,
            count: result.total_requests,
        },
    ] + outcomes_events(
        result.batch_id,
        result.token_address@,
        result.results@,
        result.results@.len() as int,
    ) + seq![
        MintEventView::BatchCompleted {
            batch_id: result.batch_id,
            token: result.token_address@,
            successful: result.successful,
            failed: result.failed,
            total_amount: result.metrics.total_amount_minted,
        },
    ]
}

/// The sum of the amounts of the first `n` requests that can be minted.
pub open spec fn minted_sum(requests: Seq<TokenMintRequest>, n: int) -> int
    decreases n,
{
    if n <= 0 {
        0
    } else {
        minted_sum(requests, n - 1) + if amount_in_bounds(requests[n - 1].amount as int) {
            requests[n - 1].amount as int
        } else {
            0
        }
    }
}

/// The number of the first `n` requests that can be minted.
pub open spec fn minted_count(requests: Seq<TokenMintRequest>, n: int) -> int
    decreases n,
{
    if n <= 0 {
        0
    } else {
        minted_count(requests, n - 1) + if amount_in_bounds(requests[n - 1].amount as int) {
            1int
        } else {
            0int
        }
    }
}

/// Whether `result` is the outcome that `request` owes in a batch for
/// `token` at ledger sequence `at`.
pub open spec fn outcome_of(result: MintResult, request: TokenMintRequest, token: Seq<char>, at: u64) -> bool {
    if amount_in_bounds(request.amount as int) {
        result matches MintResult::Success(minted) && minted.token_address@ == token && minted.recipient@
            == request.recipient@ && minted.amount == request.amount && minted.minted_at == at
    } else {
        result matches MintResult::Failure(recipient, code) && recipient@ == request.recipient@ && code
            == INVALID_AMOUNT
    }
}

proof fn lemma_minted_bounds(requests: Seq<TokenMintRequest>, n: int)
    requires
        0 <= n <= requests.len(),
    ensures
        0 <= minted_count(requests, n) <= n,
        0 <= minted_sum(requests, n) <= minted_count(requests, n) * MAX_MINT_AMOUNT,
    decreases n,
{
    if n > 0 {
        lemma_minted_bounds(requests, n - 1);
    }
}

/// The state of the mint contract.
pub struct BatchTokenMintContract {
    pub admin: Option<Account>,
    pub last_batch_id: u64,
    pub total_minted: i128,
    pub total_batches_processed: u64,
}

/// The largest total that a batch can add: that of a full batch of
/// requests for the largest amount.
pub const MAX_BATCH_TOTAL: i128 = 100_000_000_000_000_000_000_000;

impl BatchTokenMintContract {
    /// The contract before initialization.
    pub fn new() -> (contract: BatchTokenMintContract)
        ensures
            contract.admin is None,
            contract.last_batch_id == 0,
            contract.total_minted == 0,
            contract.total_batches_processed == 0,
    {
        BatchTokenMintContract { admin: None, last_batch_id: 0, total_minted: 0, total_batches_processed: 0 }
    }

    /// Makes `admin` the administrator of a contract that has none and
    /// resets its counters. A second initialization is refused and changes
    /// nothing.
    pub fn initialize(&mut self, admin: Account) -> (result: Result<(), &'static str>)
        ensures
            old(self).admin is Some ==> result is Err && result->Err_0@ == "Contract already initialized"@
                && *final(self) == *old(self),
            old(self).admin is None ==> result is Ok && opt_name(final(self).admin) == Some(admin@)
                && final(self).last_batch_id == 0 && final(self).total_minted == 0 && final(
                self).total_batches_processed == 0,
    {
        if self.admin.is_some() {
            return Err("Contract already initialized");
        }
        self.admin = Some(admin);
        self.last_batch_id = 0;
        self.total_minted = 0;
        self.total_batches_processed = 0;
        Ok(())
    }

    /// Why `caller` may not administer the contract, if it may not.
    pub open spec fn admin_error(&self, caller: Seq<char>) -> Option<BatchTokenMintError> {
        if self.admin is None {
            Some(BatchTokenMintError::NotInitialized)
        } else if opt_name(self.admin) != Some(caller) {
            Some(BatchTokenMintError::Unauthorized)
        } else {
            None
        }
    }

    /// `NotInitialized` where there is no administrator, `Unauthorized`
    /// where it is not `caller`.
    pub fn require_admin(&self, caller: &Account) -> (result: Result<(), BatchTokenMintError>)
        ensures
            match self.admin_error(caller@) {
                Some(e) => result == Err::<(), BatchTokenMintError>(e),
                None => result is Ok,
            },
    {
        match &self.admin {
            None => Err(BatchTokenMintError::NotInitialized),
            Some(admin) => {
                if admin.same(caller) {
                    Ok(())
                } else {
                    Err(BatchTokenMintError::Unauthorized)
                }
            },
        }
    }

    /// Why a batch of `count` requests from `caller` is rejected as a
    /// whole, if it is.
    pub open spec fn batch_error(&self, caller: Seq<char>, count: nat) -> Option<BatchTokenMintError> {
        if self.admin_error(caller) is Some {
            self.admin_error(caller)
        } else if count == 0 {
            Some(BatchTokenMintError::EmptyBatch)
        } else if count > MAX_BATCH_SIZE {
            Some(BatchTokenMintError::BatchTooLarge)
        } else {
            None
        }
    }

    /// Whether the counters leave room for one more batch.
    pub open spec fn has_room(&self) -> bool {
        &&& self.last_batch_id < u64::MAX
        &&& self.total_batches_processed < u64::MAX
        &&& 0 <= self.total_minted <= i128::MAX - MAX_BATCH_TOTAL
    }

    /// Mints for each request of a batch on behalf of the administrator, at
    /// ledger sequence `current_ledger`.
    ///
    /// A batch that is rejected as a whole changes nothing. In an accepted
    /// batch each request is minted if its amount is in bounds and refused
    /// with `INVALID_AMOUNT` otherwise; the outcomes come in the order of
    /// the requests. The batch gets the next id, and its total is added to
    /// the contract's.
    pub fn batch_mint_tokens(
        &mut self,
        caller: Account,
        token: Account,
        requests: Vec<TokenMintRequest>,
        current_ledger: u64,
    ) -> (result: Result<BatchMintResult, BatchTokenMintError>)
        requires
            old(self).has_room(),
        ensures
            match old(self).batch_error(caller@, requests@.len()) {
                Some(e) => result == Err::<BatchMintResult, BatchTokenMintError>(e) && *final(self) == *old(
                    self,
                ),
                None => {
                    let n = requests@.len() as int;
                    &&& result is Ok
                    &&& final(self).admin == old(self).admin
                    &&& final(self).last_batch_id == old(self).last_batch_id + 1
                    &&& final(self).total_batches_processed == old(self).total_batches_processed + 1
                    &&& final(self).total_minted == old(self).total_minted + minted_sum(requests@, n)
                    &&& result->Ok_0.batch_id == old(self).last_batch_id + 1
                    &&& result->Ok_0.token_address@ == token@
                    &&& result->Ok_0.total_requests == n
                    &&& result->Ok_0.successful == minted_count(requests@, n)
                    &&& result->Ok_0.failed == n - minted_count(requests@, n)
                    &&& result->Ok_0.results@.len() == n
                    &&& forall|i: int|
                        0 <= i < n ==> outcome_of(
                            #[trigger] result->Ok_0.results@[i],
                            requests@[i],
                            token@,
                            current_ledger,
                        )
                    &&& result->Ok_0.metrics == (BatchMintMetrics {
                        total_requests: n as u32,
                        successful_mints: minted_count(requests@, n) as u32,
                        failed_mints: (n - minted_count(requests@, n)) as u32,
                        total_amount_minted: minted_sum(requests@, n) as i128,
                        avg_mint_amount: if minted_count(requests@, n) > 0 {
                            (minted_sum(requests@, n) / minted_count(requests@, n)) as i128
                        } else {
                            0
                        },
                        processed_at: current_ledger,
                    })
                },
            },
    {
        match self.require_admin(&caller) {
            Err(e) => {
                return Err(e);
            },
            Ok(()) => {},
        }
        let request_count = requests.len();
        if request_count == 0 {
            return Err(BatchTokenMintError::EmptyBatch);
        }
        if request_count > MAX_BATCH_SIZE as usize {
            return Err(BatchTokenMintError::BatchTooLarge);
        }
        let batch_id: u64 = self.last_batch_id + 1;
        let mut results: Vec<MintResult> = Vec::new();
        let mut successful_count: u32 = 0;
        let mut failed_count: u32 = 0;
        let mut total_amount_minted: i128 = 0;
        let mut i: usize = 0;
        while i < request_count
            invariant
                request_count == requests@.len(),
                request_count <= MAX_BATCH_SIZE,
                i <= request_count,
                results@.len() == i,
                successful_count == minted_count(requests@, i as int),
                failed_count == i - minted_count(requests@, i as int),
                total_amount_minted == minted_sum(requests@, i as int),
                forall|j: int|
                    0 <= j < i ==> outcome_of(#[trigger] results@[j], requests@[j], token@, current_ledger),
            decreases request_count - i,
        {
            proof {
                lemma_minted_bounds(requests@, i as int);
                assert(minted_count(requests@, i as int) * MAX_MINT_AMOUNT <= 100 * MAX_MINT_AMOUNT)
                    by (nonlinear_arith)
                    requires
                        minted_count(requests@, i as int) <= 100,
                ;
            }
            let request = &requests[i];
            match validate_mint_request(request) {
                Ok(()) => {
                    let minted = TokenMinted {
                        token_address: token.clone(),
                        recipient: request.recipient.clone(),
                        amount: request.amount,
                        minted_at: current_ledger,
                    };
                    total_amount_minted = total_amount_minted + request.amount;
                    successful_count += 1;
                    results.push(MintResult::Success(minted));
                },
                Err(error_code) => {
                    failed_count += 1;
                    results.push(MintResult::Failure(request.recipient.clone(), error_code));
                },
            }
            i += 1;
        }
        proof {
            lemma_minted_bounds(requests@, request_count as int);
            assert(minted_count(requests@, request_count as int) * MAX_MINT_AMOUNT <= 100 * MAX_MINT_AMOUNT)
                by (nonlinear_arith)
                requires
                    minted_count(requests@, request_count as int) <= 100,
            ;
        }
        let avg_mint_amount = if successful_count > 0 {
            total_amount_minted / (successful_count as i128)
        } else {
            0
        };
        let metrics = BatchMintMetrics {
            total_requests: request_count as u32,
            successful_mints: successful_count,
            failed_mints: failed_count,
            total_amount_minted,
            avg_mint_amount,
            processed_at: current_ledger,
        };
        self.last_batch_id = batch_id;
        self.total_minted = self.total_minted + total_amount_minted;
        self.total_batches_processed = self.total_batches_processed + 1;
        Ok(
            BatchMintResult {
                batch_id,
                token_address: token,
                total_requests: request_count as u32,
                successful: successful_count,
                failed: failed_count,
                results,
                metrics,
            },
        )
    }

    /// The events that report a batch, for the host to publish in this
    /// order.
    pub fn batch_events(result: &BatchMintResult) -> (events: Vec<MintEvent>)
        ensures
            mint_events_of(events@) == batch_event_list(result),
    {
        let token = &result.token_address;
        let ghost started = seq![
            MintEventView::BatchStarted {
                batch_id: result.batch_id,
                token: result.token_address@,
                count: result.total_requests,
            },
        ];
        let mut events: Vec<MintEvent> = Vec::new();
        events.push(MintEvents::batch_started(result.batch_id, token, result.total_requests));
        assert(mint_events_of(events@) =~= started);
        let mut i: usize = 0;
        while i < result.results.len()
            invariant
                i <= result.results@.len(),
                token == &result.token_address,
                mint_events_of(events@) == started + outcomes_events(
                    result.batch_id,
                    result.token_address@,
                    result.results@,
                    i as int,
                ),
            decreases result.results@.len() - i,
        {
            let ghost before = mint_events_of(events@);
            match &result.results[i] {
                MintResult::Success(minted) => {
                    events.push(MintEvents::tokens_minted(result.batch_id, token, minted));
                    if minted.amount >= LARGE_MINT_AMOUNT {
                        events.push(
                            MintEvents::large_mint(result.batch_id, token, &minted.recipient, minted.amount),
                        );
                    }
                },
                MintResult::Failure(recipient, error_code) => {
                    events.push(MintEvents::mint_failed(result.batch_id, token, recipient, *error_code));
                },
            }
            assert(mint_events_of(events@) =~= before + outcome_events(
                result.batch_id,
                result.token_address@,
                result.results@[i as int],
            ));
            i += 1;
        }
        let ghost before = mint_events_of(events@);
        events.push(
            MintEvents::batch_completed(
                result.batch_id,
                token,
                result.successful,
                result.failed,
                result.metrics.total_amount_minted,
            ),
        );
        assert(mint_events_of(events@) =~= before + seq![
            MintEventView::BatchCompleted {
                batch_id: result.batch_id,
                token: result.token_address@,
                successful: result.successful,
                failed: result.failed,
                total_amount: result.metrics.total_amount_minted,
            },
        ]);
        events
    }

    /// The administrator; refused where there is none.
    pub fn get_admin(&self) -> (result: Result<Account, &'static str>)
        ensures
            match self.admin {
                Some(admin) => result is Ok && result->Ok_0@ == admin@,
                None => result is Err && result->Err_0@ == "Contract not initialized"@,
            },
    {
        match &self.admin {
            Some(admin) => Ok(admin.clone()),
            None => Err("Contract not initialized"),
        }
    }

    /// Hands the administration over from `current_admin` to `new_admin`.
    pub fn set_admin(&mut self, current_admin: Account, new_admin: Account) -> (result: Result<
        (),
        BatchTokenMintError,
    >)
        ensures
            match old(self).admin_error(current_admin@) {
                Some(e) => result == Err::<(), BatchTokenMintError>(e) && *final(self) == *old(self),
                None => result is Ok && opt_name(final(self).admin) == Some(new_admin@) && final(
                    self).last_batch_id == old(self).last_batch_id && final(self).total_minted == old(
                    self).total_minted && final(self).total_batches_processed == old(
                    self).total_batches_processed,
            },
    {
        match self.require_admin(&current_admin) {
            Err(e) => {
                return Err(e);
            },
            Ok(()) => {},
        }
        self.admin = Some(new_admin);
        Ok(())
    }

    /// The id of the last batch; zero before the first.
    pub fn get_last_batch_id(&self) -> (id: u64)
        ensures
            id == self.last_batch_id,
    {
        self.last_batch_id
    }

    /// The total of all batches.
    pub fn get_total_minted(&self) -> (total: i128)
        ensures
            total == self.total_minted,
    {
        self.total_minted
    }

    /// The number of batches that were processed.
    pub fn get_total_batches_processed(&self) -> (count: u64)
        ensures
            count == self.total_batches_processed,
    {
        self.total_batches_processed
    }
}

} // verus!
