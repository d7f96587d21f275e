//! The consuming half of the dispatch pipeline.
//!
//! Validated records travel from the producer to the consumer through a
//! bounded crossbeam channel. The [`Writer`] owns the ledger registry and
//! the receiving end of that channel; one call of
//! [`Writer::process_transaction`] receives one record and applies it to
//! the ledger, and the caller repeats the call until the channel is closed
//! and empty. Receiving itself is trusted; every decision taken on a
//! received record is verified.

use vstd::prelude::*;

use crate::account::registry::all_balanced;
use crate::account::registry::AccountRegistry;
use crate::error::Error;
use crate::transaction::account::lemma_step_keeps_balance;
use crate::transaction::account::AccountView;
use crate::transaction::transaction_data::TransactionData;
use crate::transaction::transaction_type::TransactionType;

verus! {

/// crossbeam's channel receiver, opaque to the verifier.
#[verifier::external_type_specification]
#[verifier::external_body]
#[verifier::reject_recursive_types(T)]
pub struct ExReceiver<T>(crossbeam::channel::Receiver<T>);

/// The ledger after one record: unchanged for a record that breaks the
/// amount-presence rule; otherwise the account of the record's client,
/// fresh when the client is new, stepped by the event.
pub open spec fn apply_record(m: Map<u16, AccountView>, data: TransactionData) -> Map<
    u16,
    AccountView,
> {
    if data.wf() {
        let a0 = if m.dom().contains(data.client@) {
            m[data.client@]
        } else {
            AccountView::initial()
        };
        m.insert(data.client@, a0.step(data).0)
    } else {
        m
    }
}

/// Applies one record to the ledger: the account of the record's client is
/// looked up, or created on first reference, and the event is applied to it
/// atomically. A record that breaks the amount-presence rule is refused
/// without touching, or creating, any account.
pub fn process_record(registry: &mut AccountRegistry, data: TransactionData) -> (r: Result<
    (),
    Error,
>)
    requires
        old(registry).inv(),
    ensures
        final(registry).inv(),
        final(registry)@ == apply_record(old(registry)@, data),
        !data.wf() ==> r == Err::<(), Error>(Error::InvalidTransaction),
        data.wf() ==> r == ({
            let a0 = if old(registry)@.dom().contains(data.client@) {
                old(registry)@[data.client@]
            } else {
                AccountView::initial()
            };
            a0.step(data).1
        }),
        all_balanced(old(registry)@) ==> all_balanced(final(registry)@),
{
    if !data.is_valid() {
        return Err(Error::InvalidTransaction);
    }
    let ghost a0 = if registry@.dom().contains(data.client@) {
        registry@[data.client@]
    } else {
        AccountView::initial()
    };
    let account = registry.get_mut_or_insert(data.client);
    let r = match data.tx_type {
        TransactionType::Deposit => account.make_deposit(data),
        TransactionType::Withdrawal => account.withdraw(data),
        TransactionType::Dispute => account.dispute(data.id),
        TransactionType::Resolve => account.resolve(data.id),
        TransactionType::ChargeBack => account.charge_back(data.id),
    };
    proof {
        if all_balanced(old(registry)@) {
            lemma_step_keeps_balance(a0, data);
            assert forall|c: u16|
                registry@.dom().contains(c) implies (#[trigger] registry@[c]).balanced() by {
                if c != data.client@ {
                    assert(registry@[c] == old(registry)@[c]);
                }
            }
        }
    }
    r
}

/// The consumer: owns the ledger registry and the receiving end of the
/// dispatch channel.
pub struct Writer {
    registry: AccountRegistry,
    incoming: crossbeam::channel::Receiver<TransactionData>,
}

impl Writer {
    /// Representation well-formedness: established by [`Writer::from_receiver`]
    /// and kept by every method.
    pub closed spec fn wf(self) -> bool {
        self.registry.inv()
    }

    /// The ledger built so far.
    pub closed spec fn ledger(self) -> Map<u16, AccountView> {
        self.registry@
    }

    /// Creates a consumer over the receiving end of the dispatch channel,
    /// with an empty ledger.
    pub fn from_receiver(incoming: crossbeam::channel::Receiver<TransactionData>) -> (r: Writer)
        ensures
            r.wf(),
            r.ledger() == Map::<u16, AccountView>::empty(),
    {
        Writer { registry: AccountRegistry::new(), incoming }
    }

    /// Relies on crossbeam::channel::Receiver::recv: blocks until a record
    /// arrives, or reports the end of the stream with [`Error::RecvError`]
    /// once the channel is disconnected and drained. Nothing is assumed
    /// about which record arrives; the consumer handles every outcome.
    #[verifier::external_body]
    pub fn recv(&self) -> (r: Result<TransactionData, Error>)
        ensures
            r matches Err(e) ==> e == Error::RecvError,
    {
        match self.incoming.recv() {
            Ok(data) => Ok(data),
            Err(_) => Err(Error::RecvError),
        }
    }

    /// Receives one record and applies it to the ledger; returns whether
    /// the channel may still yield records, so the caller repeats the call
    /// until it first returns false. Every failure is local to its record:
    /// the record is dropped and the ledger keeps every account's total
    /// equal to available plus held.
    pub fn process_transaction(&mut self) -> (more: bool)
        requires
            old(self).wf(),
        ensures
            final(self).wf(),
            more ==> exists|d: TransactionData|
                final(self).ledger() == #[trigger] apply_record(old(self).ledger(), d),
            !more ==> final(self).ledger() == old(self).ledger(),
            all_balanced(old(self).ledger()) ==> all_balanced(final(self).ledger()),
    {
        match self.recv() {
            Ok(data) => {
                let _ = process_record(&mut self.registry, data);
                proof {
                    assert(self.ledger() == apply_record(old(self).ledger(), data));
                }
                true
            },
            Err(_) => false,
        }
    }

    /// The ledger registry, for the final report.
    pub fn registry(&self) -> (r: &AccountRegistry)
        requires
            self.wf(),
        ensures
            r@ == self.ledger(),
            r.inv(),
    {
        &self.registry
    }
}

} // verus!
