//! The wallet rate limit: a bounded number of transactions for each wallet
//! in each window of time.

use vstd::prelude::*;
use crate::account::Account;
use crate::keyed_map::{KeyedMap, NumberedKey};

verus! {

/// The most transactions of one wallet in one window.
pub const DEFAULT_LIMIT: u32 = 5;

/// The length of a window in seconds: one hour.
pub const WINDOW_SECONDS: u64 = 3600;

/// The limit and the length of the windows it applies to.
#[derive(Clone, Copy, Debug)]
pub struct RateLimitConfig {
    pub max_tx: u32,
    pub window: u64,
}

impl Default for RateLimitConfig {
    fn default() -> (config: RateLimitConfig)
        ensures
            config.max_tx == DEFAULT_LIMIT,
            config.window == WINDOW_SECONDS,
    {
        RateLimitConfig { max_tx: DEFAULT_LIMIT, window: WINDOW_SECONDS }
    }
}

/// The report of a wallet that was turned away with `count` transactions
/// in the window, for the host to publish.
#[derive(Debug, PartialEq, Eq)]
pub struct RateLimitEvent {
    pub wallet: Account,
    pub count: u32,
}

/// The start of the window that holds the time `now`.
pub open spec fn window_start(now: u64) -> u64 {
    (now - now % WINDOW_SECONDS) as u64
}

/// How many transactions `wallet` has made in the window that starts at
/// `start`.
pub open spec fn recorded(counts: Map<(Seq<char>, u64), u32>, wallet: Seq<char>, start: u64) -> u32 {
    if counts.contains_key((wallet, start)) {
        counts[(wallet, start)]
    } else {
        0
    }
}

/// The message with which a transaction beyond the limit is refused.
pub open spec fn exceeded() -> Seq<char> {
    "rate_limit_exceeded"@
}

/// The state of the rate limit: the count of each wallet in each window.
pub struct RateLimitContract {
    /// The count of each wallet in each window, by wallet and window start.
    pub counts: KeyedMap<NumberedKey, u32>,
    /// The reports that were collected and not yet taken.
    pub events: Vec<RateLimitEvent>,
}

impl View for RateLimitContract {
    type V = Map<(Seq<char>, u64), u32>;

    open spec fn view(&self) -> Map<(Seq<char>, u64), u32> {
        self.counts@
    }
}

impl RateLimitContract {
    /// The invariant of the counts.
    pub open spec fn wf(&self) -> bool {
        self.counts.wf()
    }

    /// The state in which no wallet has made a transaction.
    pub fn new() -> (contract: RateLimitContract)
        ensures
            contract.wf(),
            contract@ == Map::<(Seq<char>, u64), u32>::empty(),
            contract.events@.len() == 0,
    {
        RateLimitContract { counts: KeyedMap::new(), events: Vec::new() }
    }

    /// Admits or refuses a transaction of `wallet` at time `now`.
    ///
    /// While the wallet has made fewer than `DEFAULT_LIMIT` transactions in
    /// the window of `now`, the transaction is admitted and counted. Any
    /// further one is refused, reported, and not counted.
    pub fn check_and_record(&mut self, wallet: Account, now: u64) -> (result: Result<(), &'static str>)
        requires
            old(self).wf(),
        ensures
            final(self).wf(),
            recorded(old(self)@, wallet@, window_start(now)) < DEFAULT_LIMIT ==> {
                &&& result is Ok
                &&& final(self)@ == old(self)@.insert(
                    (wallet@, window_start(now)),
                    (recorded(old(self)@, wallet@, window_start(now)) + 1) as u32,
                )
                &&& final(self).events@ == old(self).events@
            },
            recorded(old(self)@, wallet@, window_start(now)) >= DEFAULT_LIMIT ==> {
                &&& result is Err
                &&& result->Err_0@ == exceeded()
                &&& final(self)@ == old(self)@
                &&& final(self).events@.len() == old(self).events@.len() + 1
                &&& final(self).events@.drop_last() == old(self).events@
                &&& final(self).events@.last().wallet@ == wallet@
                &&& final(self).events@.last().count == recorded(old(self)@, wallet@, window_start(now))
            },
    {
        let config = RateLimitConfig { max_tx: DEFAULT_LIMIT, window: WINDOW_SECONDS };
        let start = now - (now % config.window);
        let key = NumberedKey { account: wallet, number: start };
        let count: u32 = match self.counts.get(&key) {
            Some(count) => *count,
            None => 0,
        };
        if count >= config.max_tx {
            self.events.push(RateLimitEvent { wallet: key.account, count });
            assert(self.events@.drop_last() =~= old(self).events@);
            return Err("rate_limit_exceeded");
        }
        self.counts.insert(&key, count + 1);
        Ok(())
    }

    /// How many transactions `wallet` has made in the window of `now`.
    pub fn count_in_window(&self, wallet: Account, now: u64) -> (count: u32)
        requires
            self.wf(),
        ensures
            count == recorded(self@, wallet@, window_start(now)),
    {
        let key = NumberedKey { account: wallet, number: now - (now % WINDOW_SECONDS) };
        match self.counts.get(&key) {
            Some(count) => *count,
            None => 0,
        }
    }

    /// Accepts a new configuration from an administrator without applying
    /// it: the limit and the window are fixed.
    pub fn set_config(&self, admin: Account, max_tx: u32, window: u64) {
    }

    /// Hands out the collected reports, oldest first, and forgets them.
    pub fn take_events(&mut self) -> (events: Vec<RateLimitEvent>)
        requires
            old(self).wf(),
        ensures
            final(self).wf(),
            events@ == old(self).events@,
            final(self).events@.len() == 0,
            final(self)@ == old(self)@,
    {
        let mut events: Vec<RateLimitEvent> = Vec::new();
        std::mem::swap(&mut self.events, &mut events);
        events
    }
}

} // verus!
