//! The signer registry: who may approve, how many approvals make a quorum,
//! and from which amount on a transfer needs one.

use vstd::prelude::*;
use crate::account::{accounts_distinct, clone_accounts, contains_account, names_of, Account};
use crate::multisig::MultiSigError;

verus! {

/// The registry as plain values.
pub struct RegistryView {
    /// The co-signers, in the order they were configured.
    pub signers: Seq<Seq<char>>,
    /// How many distinct approvals execute a pending transaction.
    pub threshold: nat,
    /// The amount from which on a transfer waits for a quorum.
    pub high_value_threshold: int,
}

/// Whether a quorum can be formed: there are signers, and the threshold is
/// at least one and at most their number.
pub open spec fn quorum_configured(signers: Seq<Seq<char>>, threshold: nat) -> bool {
    signers.len() > 0 && 0 < threshold <= signers.len()
}

/// Why a signer configuration is refused, if it is: a threshold that no
/// quorum can meet comes first, a repeated signer second.
pub open spec fn config_error(signers: Seq<Seq<char>>, threshold: nat) -> Option<MultiSigError> {
    if !quorum_configured(signers, threshold) {
        Some(MultiSigError::InvalidThreshold)
    } else if !signers.no_duplicates() {
        Some(MultiSigError::DuplicateSigner)
    } else {
        None
    }
}

/// Checks a signer list and threshold against the rules of `config_error`.
pub fn validate_signer_config(signers: &Vec<Account>, threshold: u32) -> (result: Result<
    (),
    MultiSigError,
>)
    ensures
        match config_error(names_of(signers@), threshold as nat) {
            Some(e) => result == Err::<(), MultiSigError>(e),
            None => result is Ok,
        },
{
    let count = signers.len();
    if count == 0 || threshold == 0 || threshold as usize > count {
        return Err(MultiSigError::InvalidThreshold);
    }
    if !accounts_distinct(signers) {
        return Err(MultiSigError::DuplicateSigner);
    }
    Ok(())
}

/// The signer set, the approval threshold and the high-value threshold.
///
/// A registry is either unconfigured (no signers, threshold zero) or holds
/// distinct signers and a threshold between one and their number.
pub struct SignerRegistry {
    signers: Vec<Account>,
    threshold: u32,
    high_value_threshold: i128,
}

impl View for SignerRegistry {
    type V = RegistryView;

    closed spec fn view(&self) -> RegistryView {
        RegistryView {
            signers: names_of(self.signers@),
            threshold: self.threshold as nat,
            high_value_threshold: self.high_value_threshold as int,
        }
    }
}

/// The invariant of a registry's values.
pub open spec fn registry_valid(r: RegistryView) -> bool {
    &&& r.threshold <= u32::MAX
    &&& 0 <= r.high_value_threshold <= i128::MAX
    &&& (r.signers.len() == 0 && r.threshold == 0) || config_error(r.signers, r.threshold) is None
}

impl SignerRegistry {
    /// The registry's invariant.
    pub open spec fn wf(&self) -> bool {
        registry_valid(self@)
    }

    /// The unconfigured registry. Its high-value threshold is the largest
    /// amount, so that no transfer waits for a quorum until it is lowered.
    pub fn new() -> (registry: SignerRegistry)
        ensures
            registry.wf(),
            registry@ == (RegistryView {
                signers: Seq::empty(),
                threshold: 0,
                high_value_threshold: i128::MAX as int,
            }),
    {
        let registry = SignerRegistry { signers: Vec::new(), threshold: 0, high_value_threshold: i128::MAX };
        assert(names_of(registry.signers@) =~= Seq::empty());
        registry
    }

    /// Replaces the signer list and the threshold, both or neither.
    ///
    /// Refused as `config_error` says; a refused configuration changes
    /// nothing. Callers reach this through `set_signers`, which lets only
    /// the administrator pass.
    pub(crate) fn configure(&mut self, signers: Vec<Account>, threshold: u32) -> (result: Result<
        (),
        MultiSigError,
    >)
        requires
            old(self).wf(),
        ensures
            final(self).wf(),
            match config_error(names_of(signers@), threshold as nat) {
                Some(e) => result == Err::<(), MultiSigError>(e) && final(self)@ == old(self)@,
                None => result is Ok && final(self)@ == (RegistryView {
                    signers: names_of(signers@),
                    threshold: threshold as nat,
                    high_value_threshold: old(self)@.high_value_threshold,
                }),
            },
    {
        match validate_signer_config(&signers, threshold) {
            Err(e) => Err(e),
            Ok(()) => {
                self.signers = signers;
                self.threshold = threshold;
                Ok(())
            },
        }
    }

    /// Replaces the high-value threshold; a negative amount is refused with
    /// `InvalidAmount` and changes nothing. Callers reach this through the
    /// function of the same name that lets only the administrator pass.
    pub(crate) fn set_high_value_threshold(&mut self, amount: i128) -> (result: Result<(), MultiSigError>)
        requires
            old(self).wf(),
        ensures
            final(self).wf(),
            amount < 0 ==> final(self)@ == old(self)@ && result == Err::<(), MultiSigError>(
                MultiSigError::InvalidAmount,
            ),
            amount >= 0 ==> result is Ok && final(self)@ == (RegistryView {
                high_value_threshold: amount as int,
                ..old(self)@
            }),
    {
        if amount < 0 {
            return Err(MultiSigError::InvalidAmount);
        }
        self.high_value_threshold = amount;
        Ok(())
    }

    /// Whether `account` is one of the signers.
    pub fn is_signer(&self, account: &Account) -> (found: bool)
        ensures
            found == self@.signers.contains(account@),
    {
        contains_account(&self.signers, account)
    }

    /// `UnauthorizedSigner` unless `account` is one of the signers.
    pub fn require_signer(&self, account: &Account) -> (result: Result<(), MultiSigError>)
        ensures
            self@.signers.contains(account@) ==> result is Ok,
            !self@.signers.contains(account@) ==> result == Err::<(), MultiSigError>(
                MultiSigError::UnauthorizedSigner,
            ),
    {
        if self.is_signer(account) {
            Ok(())
        } else {
            Err(MultiSigError::UnauthorizedSigner)
        }
    }

    /// `MultisigNotConfigured` unless a quorum can be formed.
    pub fn ensure_configured(&self) -> (result: Result<(), MultiSigError>)
        ensures
            quorum_configured(self@.signers, self@.threshold) ==> result is Ok,
            !quorum_configured(self@.signers, self@.threshold) ==> result == Err::<(), MultiSigError>(
                MultiSigError::MultisigNotConfigured,
            ),
    {
        let count = self.signers.len();
        if count == 0 || self.threshold == 0 || self.threshold as usize > count {
            Err(MultiSigError::MultisigNotConfigured)
        } else {
            Ok(())
        }
    }

    /// The signers, in the order they were configured.
    pub fn signers(&self) -> (signers: Vec<Account>)
        ensures
            names_of(signers@) == self@.signers,
    {
        clone_accounts(&self.signers)
    }

    /// The approval threshold; zero while unconfigured.
    pub fn threshold(&self) -> (threshold: u32)
        ensures
            threshold == self@.threshold,
    {
        self.threshold
    }

    /// The high-value threshold.
    pub fn high_value_threshold(&self) -> (amount: i128)
        ensures
            amount == self@.high_value_threshold,
    {
        self.high_value_threshold
    }
}

} // verus!
