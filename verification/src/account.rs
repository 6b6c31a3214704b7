//! Account identifiers.

use vstd::prelude::*;

verus! {

/// An account identifier: the canonical textual form of an address.
///
/// Two accounts are the same account exactly when their names are equal.
#[derive(Debug, PartialEq, Eq, Hash)]
pub struct Account {
    name: String,
}

impl View for Account {
    type V = Seq<char>;

    closed spec fn view(&self) -> Seq<char> {
        self.name@
    }
}

impl Account {
    /// The account named `name`.
    pub fn new(name: &str) -> (account: Account)
        ensures
            account@ == name@,
    {
        Account { name: name.to_owned() }
    }

    /// The account's name.
    pub fn name(&self) -> (name: &str)
        ensures
            name@ == self@,
    {
        self.name.as_str()
    }

    /// Whether `self` and `other` identify the same account.
    pub fn same(&self, other: &Account) -> (equal: bool)
        ensures
            equal == (self@ == other@),
    {
        self.name == other.name
    }
}

impl Clone for Account {
    fn clone(&self) -> (copy: Account)
        ensures
            copy@ == self@,
    {
        Account { name: self.name.clone() }
    }
}

/// The name of an optional account.
pub open spec fn opt_name(account: Option<Account>) -> Option<Seq<char>> {
    match account {
        Some(a) => Some(a@),
        None => None,
    }
}

/// A copy of an optional account.
pub fn clone_opt_account(account: &Option<Account>) -> (copy: Option<Account>)
    ensures
        opt_name(copy) == opt_name(*account),
{
    match account {
        Some(a) => Some(a.clone()),
        None => None,
    }
}

/// The names of a list of accounts, in order.
pub open spec fn names_of(accounts: Seq<Account>) -> Seq<Seq<char>> {
    Seq::new(accounts.len(), |i: int| accounts[i]@)
}

/// A copy of a list of accounts.
pub fn clone_accounts(accounts: &Vec<Account>) -> (copy: Vec<Account>)
    ensures
        names_of(copy@) == names_of(accounts@),
{
    let mut copy: Vec<Account> = Vec::new();
    let mut i: usize = 0;
    while i < accounts.len()
        invariant
            i <= accounts.len(),
            copy.len() == i,
            forall|j: int| 0 <= j < i ==> copy[j]@ == accounts[j]@,
        decreases accounts.len() - i,
    {
        copy.push(accounts[i].clone());
        i += 1;
    }
    assert(names_of(copy@) =~= names_of(accounts@));
    copy
}

/// Whether `who` is one of `accounts`.
pub fn contains_account(accounts: &Vec<Account>, who: &Account) -> (found: bool)
    ensures
        found == names_of(accounts@).contains(who@),
{
    let mut i: usize = 0;
    while i < accounts.len()
        invariant
            i <= accounts.len(),
            forall|j: int| 0 <= j < i ==> accounts[j]@ != who@,
        decreases accounts.len() - i,
    {
        if accounts[i].same(who) {
            assert(names_of(accounts@)[i as int] == who@);
            return true;
        }
        i += 1;
    }
    assert forall|j: int| 0 <= j < names_of(accounts@).len() implies names_of(accounts@)[j]
        != who@ by {
        assert(accounts[j]@ != who@);
    }
    false
}

/// Whether no account occurs twice among `accounts`.
pub fn accounts_distinct(accounts: &Vec<Account>) -> (distinct: bool)
    ensures
        distinct == names_of(accounts@).no_duplicates(),
{
    let ghost names = names_of(accounts@);
    let count = accounts.len();
    let mut i: usize = 0;
    while i < count
        invariant
            count == accounts.len(),
            names == names_of(accounts@),
            i <= count,
            forall|a: int, b: int| 0 <= a < i && a < b < count ==> names[a] != names[b],
        decreases count - i,
    {
        let mut j: usize = i + 1;
        while j < count
            invariant
                count == accounts.len(),
                names == names_of(accounts@),
                i < count,
                i < j <= count,
                forall|b: int| i < b < j ==> names[i as int] != names[b],
            decreases count - j,
        {
            if accounts[i].same(&accounts[j]) {
                assert(names[i as int] == names[j as int]);
                return false;
            }
            j += 1;
        }
        i += 1;
    }
    assert forall|a: int, b: int| 0 <= a < names.len() && 0 <= b < names.len() && a != b implies names[a]
        != names[b] by {
        if a < b {
            assert(names[a] != names[b]);
        } else {
            assert(names[b] != names[a]);
        }
    }
    true
}

} // verus!
