//! Pending transactions: transfers that wait for a quorum, their approval
//! marks, and the counter that numbers them.

use std::collections::HashMap;
use vstd::prelude::*;
use crate::account::{
    accounts_distinct, clone_accounts, clone_opt_account, contains_account, names_of, opt_name, Account,
};
use crate::multisig::MultiSigError;

verus! {

broadcast use vstd::std_specs::hash::group_hash_axioms;

/// A transfer request as it is kept while it waits for approvals, and
/// afterwards as a record of what was executed.
#[derive(Debug, PartialEq, Eq)]
pub struct PendingTx {
    pub id: u64,
    pub from: Account,
    pub to: Account,
    pub amount: i128,
    pub payload: String,
    pub asset: Option<Account>,
    pub created_at: u64,
    pub executed: bool,
}

/// A transaction as plain values.
pub struct TxView {
    pub id: u64,
    pub from: Seq<char>,
    pub to: Seq<char>,
    pub amount: int,
    pub payload: Seq<char>,
    pub asset: Option<Seq<char>>,
    pub created_at: u64,
    pub executed: bool,
}

impl View for PendingTx {
    type V = TxView;

    open spec fn view(&self) -> TxView {
        TxView {
            id: self.id,
            from: self.from@,
            to: self.to@,
            amount: self.amount as int,
            payload: self.payload@,
            asset: opt_name(self.asset),
            created_at: self.created_at,
            executed: self.executed,
        }
    }
}

impl Clone for PendingTx {
    fn clone(&self) -> (copy: PendingTx)
        ensures
            copy@ == self@,
    {
        PendingTx {
            id: self.id,
            from: self.from.clone(),
            to: self.to.clone(),
            amount: self.amount,
            payload: self.payload.clone(),
            asset: clone_opt_account(&self.asset),
            created_at: self.created_at,
            executed: self.executed,
        }
    }
}

/// A stored transaction with its approval marks, as plain values. The
/// approval count of a record is the number of its marks.
pub struct RecordView {
    pub tx: TxView,
    /// The signers who approved, in the order of their approvals.
    pub approvers: Seq<Seq<char>>,
}

/// The store as plain values.
pub struct StoreView {
    /// The id that was issued last; zero before the first.
    pub last_id: nat,
    pub records: Map<u64, RecordView>,
}

/// The invariant of a store's values: a record sits under its own id, that
/// id was issued, and no signer has two marks on one record.
pub open spec fn store_valid(s: StoreView) -> bool {
    &&& s.last_id <= u64::MAX
    &&& forall|id: u64| #[trigger]
        s.records.contains_key(id) ==> {
            &&& s.records[id].tx.id == id
            &&& 1 <= id <= s.last_id
            &&& s.records[id].approvers.no_duplicates()
            &&& s.records[id].approvers.len() <= u32::MAX
        }
}

/// The approval count of `id`: zero where nothing is stored.
pub open spec fn count_in(s: StoreView, id: u64) -> nat {
    if s.records.contains_key(id) {
        s.records[id].approvers.len()
    } else {
        0
    }
}

/// Whether `signer` has a mark on `id`.
pub open spec fn approved_in(s: StoreView, id: u64, signer: Seq<char>) -> bool {
    s.records.contains_key(id) && s.records[id].approvers.contains(signer)
}

/// The record that `create` stores for `tx` under `id`: not executed, and
/// without approvals.
pub open spec fn fresh_record(id: u64, tx: TxView) -> RecordView {
    RecordView { tx: TxView { id, executed: false, ..tx }, approvers: Seq::empty() }
}

/// The store after `signer` put a mark on `id`.
pub open spec fn with_mark(s: StoreView, id: u64, signer: Seq<char>) -> StoreView {
    StoreView {
        records: s.records.insert(
            id,
            RecordView { approvers: s.records[id].approvers.push(signer), ..s.records[id] },
        ),
        ..s
    }
}

/// The store after `id` was marked executed.
pub open spec fn with_executed(s: StoreView, id: u64) -> StoreView {
    StoreView {
        records: s.records.insert(
            id,
            RecordView { tx: TxView { executed: true, ..s.records[id].tx }, ..s.records[id] },
        ),
        ..s
    }
}

/// Why a mark of `signer` on `id` is refused, if it is.
pub open spec fn mark_error(s: StoreView, id: u64, signer: Seq<char>) -> Option<MultiSigError> {
    if !s.records.contains_key(id) {
        Some(MultiSigError::PendingTxNotFound)
    } else if s.records[id].approvers.contains(signer) {
        Some(MultiSigError::DuplicateApproval)
    } else if s.records[id].approvers.len() + 1 > u32::MAX {
        Some(MultiSigError::Overflow)
    } else {
        None
    }
}

/// A transaction with its approvers, as it is handed in by a host that has
/// kept it.
pub struct StoredRecord {
    pub tx: PendingTx,
    /// The signers who approved, in the order of their approvals.
    pub approvers: Vec<Account>,
}

impl View for StoredRecord {
    type V = RecordView;

    open spec fn view(&self) -> RecordView {
        RecordView { tx: self.tx@, approvers: names_of(self.approvers@) }
    }
}

/// Whether records that a host has kept can be a store that has issued
/// `last_id` ids: each id was issued, no id has two records, and no signer
/// has two marks on one record.
pub open spec fn stored_valid(last_id: u64, records: Seq<StoredRecord>) -> bool {
    &&& forall|i: int|
        0 <= i < records.len() ==> {
            &&& 1 <= (#[trigger] records[i]).tx.id <= last_id
            &&& records[i]@.approvers.no_duplicates()
            &&& records[i]@.approvers.len() <= u32::MAX
        }
    &&& forall|i: int, j: int|
        0 <= i < j < records.len() ==> (#[trigger] records[i]).tx.id != (#[trigger] records[j]).tx.id
}

/// The records of a host as a map by id.
pub open spec fn stored_map(records: Seq<StoredRecord>) -> Map<u64, RecordView> {
    Map::new(
        |id: u64| exists|i: int| 0 <= i < records.len() && (#[trigger] records[i]).tx.id == id,
        |id: u64| records[choose|i: int| 0 <= i < records.len() && (#[trigger] records[i]).tx.id == id]@,
    )
}

struct PendingRecord {
    tx: PendingTx,
    approvers: Vec<Account>,
    approvals: u32,
}

impl View for PendingRecord {
    type V = RecordView;

    closed spec fn view(&self) -> RecordView {
        RecordView { tx: self.tx@, approvers: names_of(self.approvers@) }
    }
}

/// The keyed store of pending transactions. A record is never removed; once
/// executed it is never changed again by the engine.
pub struct PendingTransactionStore {
    last_id: u64,
    records: HashMap<u64, PendingRecord>,
}

impl View for PendingTransactionStore {
    type V = StoreView;

    closed spec fn view(&self) -> StoreView {
        StoreView {
            last_id: self.last_id as nat,
            records: Map::new(
                |id: u64| self.records@.contains_key(id),
                |id: u64| self.records@[id]@,
            ),
        }
    }
}

impl PendingTransactionStore {
    /// The store's invariant: its values are valid, and each kept count is
    /// the number of marks beside it.
    pub closed spec fn wf(&self) -> bool {
        &&& store_valid(self@)
        &&& forall|id: u64| #[trigger]
            self.records@.contains_key(id) ==> self.records@[id].approvals
                == self.records@[id].approvers.len()
    }

    /// A well-formed store holds valid values.
    pub proof fn lemma_valid(&self)
        requires
            self.wf(),
        ensures
            store_valid(self@),
    {
    }

    /// The empty store, which has issued no id.
    pub fn new() -> (store: PendingTransactionStore)
        ensures
            store.wf(),
            store@ == (StoreView { last_id: 0, records: Map::empty() }),
    {
        let store = PendingTransactionStore { last_id: 0, records: HashMap::new() };
        assert(store@.records =~= Map::empty());
        store
    }

    /// The store that a host has kept: `None` where `records` cannot be the
    /// records of a store that has issued `last_id` ids.
    pub fn restore(last_id: u64, records: Vec<StoredRecord>) -> (restored: Option<PendingTransactionStore>)
        ensures
            match restored {
                Some(store) => {
                    &&& stored_valid(last_id, records@)
                    &&& store.wf()
                    &&& store@ == (StoreView { last_id: last_id as nat, records: stored_map(records@) })
                },
                None => !stored_valid(last_id, records@),
            },
    {
        let ghost all = records@;
        let mut pending = records;
        let mut store = PendingTransactionStore { last_id, records: HashMap::new() };
        assert(store@.records =~= Map::empty());
        while pending.len() > 0
            invariant
                all == records@,
                pending@.len() <= all.len(),
                pending@ == all.subrange(0, pending@.len() as int),
                store.last_id == last_id,
                store.wf(),
                forall|i: int|
                    pending@.len() <= i < all.len() ==> {
                        &&& 1 <= (#[trigger] all[i]).tx.id <= last_id
                        &&& all[i]@.approvers.no_duplicates()
                        &&& all[i]@.approvers.len() <= u32::MAX
                        &&& store@.records.contains_key(all[i].tx.id)
                        &&& store@.records[all[i].tx.id] == all[i]@
                    },
                forall|i: int, j: int|
                    pending@.len() <= i < j < all.len() ==> (#[trigger] all[i]).tx.id != (
                    #[trigger] all[j]).tx.id,
                forall|id: u64| #[trigger]
                    store@.records.contains_key(id) ==> exists|i: int|
                        pending@.len() <= i < all.len() && (#[trigger] all[i]).tx.id == id,
            decreases pending@.len(),
        {
            let ghost k = pending@.len() - 1;
            let record = pending.pop().unwrap();
            assert(record == all[k]);
            let id = record.tx.id;
            if id < 1 || id > last_id || store.records.contains_key(&id) || record.approvers.len()
                > u32::MAX as usize || !accounts_distinct(&record.approvers) {
                proof {
                    if store@.records.contains_key(id) {
                        let j = choose|j: int| k < j < all.len() && (#[trigger] all[j]).tx.id == id;
                        assert(all[k].tx.id == all[j].tx.id);
                    }
                    assert(!stored_valid(last_id, all));
                }
                return None;
            }
            let approvals = record.approvers.len() as u32;
            let kept = PendingRecord { tx: record.tx, approvers: record.approvers, approvals };
            assert(kept@ == all[k]@);
            let ghost before = store@.records;
            store.records.insert(id, kept);
            proof {
                assert(store@.records =~= before.insert(id, all[k]@));
                assert(pending@ =~= all.subrange(0, k));
                assert forall|i: int| pending@.len() <= i < all.len() implies {
                    &&& store@.records.contains_key((#[trigger] all[i]).tx.id)
                    &&& store@.records[all[i].tx.id] == all[i]@
                } by {
                    if i > k {
                        assert(all[i].tx.id != id);
                    }
                }
                assert forall|x: u64| #[trigger] store@.records.contains_key(x) implies exists|i: int|
                    pending@.len() <= i < all.len() && (#[trigger] all[i]).tx.id == x by {
                    if x == id {
                        assert(all[k].tx.id == x);
                    } else {
                        assert(before.contains_key(x));
                        let j = choose|j: int| k < j < all.len() && (#[trigger] all[j]).tx.id == x;
                        assert(pending@.len() <= j < all.len() && all[j].tx.id == x);
                    }
                }
            }
        }
        proof {
            assert forall|id: u64| store@.records.contains_key(id) <==> stored_map(all).contains_key(
                id,
            ) by {
                if store@.records.contains_key(id) {
                    let i = choose|i: int| 0 <= i < all.len() && (#[trigger] all[i]).tx.id == id;
                }
                if stored_map(all).contains_key(id) {
                    let i = choose|i: int| 0 <= i < all.len() && (#[trigger] all[i]).tx.id == id;
                    assert(store@.records.contains_key(all[i].tx.id));
                }
            }
            assert forall|id: u64| store@.records.contains_key(id) implies store@.records[id] == stored_map(
                all,
            )[id] by {
                let i = choose|i: int| 0 <= i < all.len() && (#[trigger] all[i]).tx.id == id;
                assert(store@.records[all[i].tx.id] == all[i]@);
            }
            assert(store@.records =~= stored_map(all));
        }
        Some(store)
    }

    /// The id that was issued last; zero before the first.
    pub fn last_id(&self) -> (id: u64)
        ensures
            id == self@.last_id,
    {
        self.last_id
    }

    /// The signers who approved the transaction under `id`, in the order
    /// of their approvals; none where nothing is stored.
    pub fn approvers(&self, id: u64) -> (approvers: Vec<Account>)
        ensures
            self@.records.contains_key(id) ==> names_of(approvers@) == self@.records[id].approvers,
            !self@.records.contains_key(id) ==> approvers@.len() == 0,
    {
        match self.records.get(&id) {
            Some(record) => clone_accounts(&record.approvers),
            None => Vec::new(),
        }
    }

    /// Issues the next id: one more than the last, starting at 1.
    ///
    /// Refused with `Overflow`, and without effect, when the ids are used up.
    pub fn next_id(&mut self) -> (result: Result<u64, MultiSigError>)
        requires
            old(self).wf(),
        ensures
            final(self).wf(),
            final(self)@.records == old(self)@.records,
            old(self)@.last_id < u64::MAX ==> result == Ok::<u64, MultiSigError>(
                (old(self)@.last_id + 1) as u64,
            ) && final(self)@.last_id == old(self)@.last_id + 1,
            old(self)@.last_id >= u64::MAX ==> result == Err::<u64, MultiSigError>(
                MultiSigError::Overflow,
            ) && final(self)@ == old(self)@,
    {
        match self.last_id.checked_add(1) {
            None => Err(MultiSigError::Overflow),
            Some(next) => {
                self.last_id = next;
                Ok(next)
            },
        }
    }

    /// Stores `tx` under `id`, not executed and with no approvals. The id is
    /// one that `next_id` issued and that holds no record yet.
    pub fn create(&mut self, id: u64, tx: PendingTx)
        requires
            old(self).wf(),
            1 <= id <= old(self)@.last_id,
            !old(self)@.records.contains_key(id),
        ensures
            final(self).wf(),
            final(self)@ == (StoreView {
                records: old(self)@.records.insert(id, fresh_record(id, tx@)),
                ..old(self)@
            }),
    {
        let mut stored = tx;
        stored.id = id;
        stored.executed = false;
        let record = PendingRecord { tx: stored, approvers: Vec::new(), approvals: 0 };
        assert(record@ == fresh_record(id, tx@)) by {
            assert(names_of(record.approvers@) =~= Seq::empty());
        }
        self.records.insert(id, record);
        assert(self@.records =~= old(self)@.records.insert(id, fresh_record(id, tx@)));
    }

    /// The transaction stored under `id`, if there is one.
    pub fn get(&self, id: u64) -> (found: Option<PendingTx>)
        ensures
            match found {
                Some(tx) => self@.records.contains_key(id) && tx@ == self@.records[id].tx,
                None => !self@.records.contains_key(id),
            },
    {
        match self.records.get(&id) {
            Some(record) => Some(record.tx.clone()),
            None => None,
        }
    }

    /// Marks the transaction under `id` as executed.
    ///
    /// Refused with `PendingTxNotFound`, and without effect, when nothing is
    /// stored under `id`.
    pub fn mark_executed(&mut self, id: u64) -> (result: Result<(), MultiSigError>)
        requires
            old(self).wf(),
        ensures
            final(self).wf(),
            old(self)@.records.contains_key(id) ==> result is Ok && final(self)@ == with_executed(
                old(self)@,
                id,
            ),
            !old(self)@.records.contains_key(id) ==> result == Err::<(), MultiSigError>(
                MultiSigError::PendingTxNotFound,
            ) && final(self)@ == old(self)@,
    {
        match self.records.remove(&id) {
            None => {
                assert(self.records@ =~= old(self).records@);
                assert(self@.records =~= old(self)@.records);
                Err(MultiSigError::PendingTxNotFound)
            },
            Some(record) => {
                let mut record = record;
                record.tx.executed = true;
                self.records.insert(id, record);
                assert(self@.records =~= with_executed(old(self)@, id).records);
                Ok(())
            },
        }
    }

    /// Whether `signer` has approved the transaction under `id`.
    pub fn has_approval(&self, id: u64, signer: &Account) -> (approved: bool)
        ensures
            approved == approved_in(self@, id, signer@),
    {
        match self.records.get(&id) {
            Some(record) => contains_account(&record.approvers, signer),
            None => false,
        }
    }

    /// The number of approvals of the transaction under `id`: zero where
    /// nothing is stored.
    pub fn approval_count(&self, id: u64) -> (count: u32)
        requires
            self.wf(),
        ensures
            count == count_in(self@, id),
    {
        match self.records.get(&id) {
            Some(record) => record.approvals,
            None => 0,
        }
    }

    /// Puts the mark of `signer` on the transaction under `id` and returns
    /// the new approval count.
    ///
    /// Refused as `mark_error` says; a refused mark changes nothing.
    pub fn record_approval(&mut self, id: u64, signer: &Account) -> (result: Result<
        u32,
        MultiSigError,
    >)
        requires
            old(self).wf(),
        ensures
            final(self).wf(),
            match mark_error(old(self)@, id, signer@) {
                Some(e) => result == Err::<u32, MultiSigError>(e) && final(self)@ == old(self)@,
                None => result == Ok::<u32, MultiSigError>((count_in(old(self)@, id) + 1) as u32)
                    && final(self)@ == with_mark(old(self)@, id, signer@),
            },
    {
        match self.records.remove(&id) {
            None => {
                assert(self.records@ =~= old(self).records@);
                assert(self@.records =~= old(self)@.records);
                Err(MultiSigError::PendingTxNotFound)
            },
            Some(record) => {
                let mut record = record;
                let ghost before = record@.approvers;
                if contains_account(&record.approvers, signer) {
                    self.records.insert(id, record);
                    assert(self.records@ =~= old(self).records@);
                    assert(self@.records =~= old(self)@.records);
                    return Err(MultiSigError::DuplicateApproval);
                }
                match record.approvals.checked_add(1) {
                    None => {
                        self.records.insert(id, record);
                        assert(self.records@ =~= old(self).records@);
                        assert(self@.records =~= old(self)@.records);
                        Err(MultiSigError::Overflow)
                    },
                    Some(count) => {
                        record.approvers.push(signer.clone());
                        record.approvals = count;
                        assert(record@.approvers =~= before.push(signer@));
                        assert(record@.approvers.no_duplicates());
                        self.records.insert(id, record);
                        assert(self@.records =~= with_mark(old(self)@, id, signer@).records);
                        Ok(count)
                    },
                }
            },
        }
    }
}

} // verus!
