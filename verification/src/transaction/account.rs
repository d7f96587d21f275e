//! The per-client account state machine.
//!
//! An [`Account`] holds the available, held and total balances, the lock
//! flag, and the permanent history of recorded deposits and withdrawals.
//! Its mathematical reading is an [`AccountView`]; every operation is
//! specified as a transition on views ([`AccountView::step`]) and the
//! executable methods are proved to follow those transitions exactly.

use vstd::prelude::*;

use crate::assoc::assoc_map;
use crate::assoc::lemma_assoc_map_dom;
use crate::assoc::lemma_assoc_map_index;
use crate::assoc::lemma_assoc_map_push;
use crate::assoc::lemma_assoc_map_update;
use crate::assoc::unique_keys;
use crate::error::Error;
use crate::money::representable;
use crate::money::Money;
use crate::transaction::transaction_data::TransactionData;
use crate::transaction::transaction_id::TransactionId;
use crate::transaction::transaction_type::TransactionType;

verus! {

/// Dispute status of a recorded operation.
///
/// The lifecycle is `Undisputed -> Disputed -> {Resolved, ChargedBack}`,
/// except that a dispute overwrites whatever status an entry has.
#[derive(Clone, Copy, Debug, PartialEq, Eq, Structural)]
pub enum State {
    Undisputed,
    Disputed,
    Resolved,
    ChargedBack,
}

/// A recorded past deposit or withdrawal and its dispute status.
#[derive(Clone, Copy, Debug)]
pub struct Operation {
    amount: Money,
    state: State,
}

/// Mathematical reading of an [`Operation`].
pub ghost struct OperationView {
    pub amount: int,
    pub state: State,
}

impl View for Operation {
    type V = OperationView;

    closed spec fn view(&self) -> OperationView {
        OperationView { amount: self.amount@, state: self.state }
    }
}

/// Mathematical reading of an [`Account`]: unbounded-integer balances and a
/// map from transaction identifier to recorded operation.
#[verifier::ext_equal]
pub ghost struct AccountView {
    pub available: int,
    pub held: int,
    pub total: int,
    pub locked: bool,
    pub history: Map<u32, OperationView>,
}

impl AccountView {
    /// The state of a freshly created account.
    pub open spec fn initial() -> AccountView {
        AccountView { available: 0, held: 0, total: 0, locked: false, history: Map::empty() }
    }

    /// The fund-movement invariant: the total is what is available plus what
    /// is held under dispute.
    pub open spec fn balanced(self) -> bool {
        self.total == self.available + self.held
    }

    /// Transition for a deposit: both balances grow by the amount and the
    /// history records the operation; refused only when a balance would
    /// leave the representable range.
    pub open spec fn step_deposit(self, id: u32, amount: int) -> (AccountView, Result<(), Error>) {
        if representable(self.total + amount) && representable(self.available + amount) {
            (
                AccountView {
                    total: self.total + amount,
                    available: self.available + amount,
                    history: self.history.insert(
                        id,
                        OperationView { amount, state: State::Undisputed },
                    ),
                    ..self
                },
                Ok(()),
            )
        } else {
            (self, Err(Error::AmountOutOfRange))
        }
    }

    /// Transition for a withdrawal: refused outright when the amount exceeds
    /// the available funds; otherwise both balances shrink by the amount and
    /// the history records the operation.
    pub open spec fn step_withdrawal(self, id: u32, amount: int) -> (
        AccountView,
        Result<(), Error>,
    ) {
        if amount > self.available {
            (self, Err(Error::WithdrawalError))
        } else if representable(self.total - amount) && representable(self.available - amount) {
            (
                AccountView {
                    total: self.total - amount,
                    available: self.available - amount,
                    history: self.history.insert(
                        id,
                        OperationView { amount, state: State::Undisputed },
                    ),
                    ..self
                },
                Ok(()),
            )
        } else {
            (self, Err(Error::AmountOutOfRange))
        }
    }

    /// Transition for a dispute: the referenced operation (whatever its
    /// status) becomes disputed, and its amount is added to both the held
    /// and the total balance; the available balance is deliberately not
    /// touched. A dispute of an unknown transaction is refused.
    pub open spec fn step_dispute(self, id: u32) -> (AccountView, Result<(), Error>) {
        if self.history.dom().contains(id) {
            let op = self.history[id];
            if representable(self.held + op.amount) && representable(self.total + op.amount) {
                (
                    AccountView {
                        held: self.held + op.amount,
                        total: self.total + op.amount,
                        history: self.history.insert(
                            id,
                            OperationView { amount: op.amount, state: State::Disputed },
                        ),
                        ..self
                    },
                    Ok(()),
                )
            } else {
                (self, Err(Error::AmountOutOfRange))
            }
        } else {
            (self, Err(Error::DisputeStateError))
        }
    }

    /// Transition for a resolve: only a currently disputed operation can be
    /// resolved; its amount moves from held back to available and the total
    /// is unchanged.
    pub open spec fn step_resolve(self, id: u32) -> (AccountView, Result<(), Error>) {
        if self.history.dom().contains(id) && self.history[id].state == State::Disputed {
            let op = self.history[id];
            if representable(self.held - op.amount) && representable(self.available + op.amount) {
                (
                    AccountView {
                        held: self.held - op.amount,
                        available: self.available + op.amount,
                        history: self.history.insert(
                            id,
                            OperationView { amount: op.amount, state: State::Resolved },
                        ),
                        ..self
                    },
                    Ok(()),
                )
            } else {
                (self, Err(Error::AmountOutOfRange))
            }
        } else {
            (self, Err(Error::DisputeStateError))
        }
    }

    /// Transition for a chargeback: only a currently disputed operation can
    /// be charged back; its amount leaves both the held and the total
    /// balance and the account is locked permanently.
    pub open spec fn step_charge_back(self, id: u32) -> (AccountView, Result<(), Error>) {
        if self.history.dom().contains(id) && self.history[id].state == State::Disputed {
            let op = self.history[id];
            if representable(self.held - op.amount) && representable(self.total - op.amount) {
                (
                    AccountView {
                        held: self.held - op.amount,
                        total: self.total - op.amount,
                        locked: true,
                        history: self.history.insert(
                            id,
                            OperationView { amount: op.amount, state: State::ChargedBack },
                        ),
                        ..self
                    },
                    Ok(()),
                )
            } else {
                (self, Err(Error::AmountOutOfRange))
            }
        } else {
            (self, Err(Error::DisputeStateError))
        }
    }

    /// The one-event transition: dispatch on the operation kind.
    pub open spec fn step(self, t: TransactionData) -> (AccountView, Result<(), Error>) {
        match t.tx_type {
            TransactionType::Deposit => self.step_deposit(t.id@, t.spec_amount()),
            TransactionType::Withdrawal => self.step_withdrawal(t.id@, t.spec_amount()),
            TransactionType::Dispute => self.step_dispute(t.id@),
            TransactionType::Resolve => self.step_resolve(t.id@),
            TransactionType::ChargeBack => self.step_charge_back(t.id@),
        }
    }
}

/// Every transition keeps the fund-movement invariant: whenever the total
/// equalled available plus held before an event, it does after it, whether
/// the event was applied or refused.
pub proof fn lemma_step_keeps_balance(a: AccountView, t: TransactionData)
    requires
        a.balanced(),
    ensures
        a.step(t).0.balanced(),
{
}

/// A dispute, resolve or chargeback that references a transaction absent
/// from the history always fails and leaves the account exactly as it was.
pub proof fn lemma_unknown_transaction_rejected(a: AccountView, t: TransactionData)
    requires
        !t.tx_type.moves_funds(),
        !a.history.dom().contains(t.id@),
    ensures
        a.step(t) == (a, Err::<(), Error>(Error::DisputeStateError)),
{
}

/// The history is a permanent audit log: every operation recorded before an
/// event is still recorded after it, and an event of the dispute lifecycle
/// never creates an entry nor changes a recorded amount, only a status.
pub proof fn lemma_history_is_permanent(a: AccountView, t: TransactionData)
    ensures
        forall|id: u32|
            a.history.dom().contains(id) ==> #[trigger] a.step(t).0.history.dom().contains(id),
        !t.tx_type.moves_funds() ==> a.step(t).0.history.dom() =~= a.history.dom(),
        !t.tx_type.moves_funds() ==> forall|id: u32|
            a.history.dom().contains(id) ==> #[trigger] a.step(t).0.history[id].amount
                == a.history[id].amount,
{
}

/// The account after a sequence of events, applied in order.
pub open spec fn run_account(a: AccountView, evs: Seq<TransactionData>) -> AccountView
    decreases evs.len(),
{
    if evs.len() == 0 {
        a
    } else {
        run_account(a.step(evs[0]).0, evs.drop_first())
    }
}

/// The signed value of a fund-moving event: a deposit counts positive, any
/// other kind negative.
pub open spec fn signed_amount(t: TransactionData) -> int {
    if t.tx_type is Deposit {
        t.spec_amount()
    } else {
        -t.spec_amount()
    }
}

/// The algebraic sum of the events of a sequence that are applied, each
/// taken at its signed value; a refused event contributes nothing.
pub open spec fn applied_net(a: AccountView, evs: Seq<TransactionData>) -> int
    decreases evs.len(),
{
    if evs.len() == 0 {
        0
    } else {
        let s = a.step(evs[0]);
        (if s.1 is Ok {
            signed_amount(evs[0])
        } else {
            0
        }) + applied_net(s.0, evs.drop_first())
    }
}

/// Feeding any stream of well-formed deposit and withdrawal events to an
/// account, in order, leaves its total equal to the starting total plus the
/// algebraic sum of the applied events: deposits added, withdrawals
/// subtracted, and every refused event contributing nothing.
pub proof fn lemma_total_is_net_of_applied(a: AccountView, evs: Seq<TransactionData>)
    requires
        forall|i: int|
            0 <= i < evs.len() ==> (#[trigger] evs[i]).wf() && evs[i].tx_type.moves_funds(),
    ensures
        run_account(a, evs).total == a.total + applied_net(a, evs),
    decreases evs.len(),
{
    if evs.len() > 0 {
        assert(evs[0].wf() && evs[0].tx_type.moves_funds());
        let s = a.step(evs[0]);
        assert(forall|i: int|
            0 <= i < evs.drop_first().len() ==> #[trigger] evs.drop_first()[i] == evs[i + 1]);
        lemma_total_is_net_of_applied(s.0, evs.drop_first());
    }
}

/// A client account.
///
/// The balances and the lock flag are read through the getters; the history
/// is a permanent audit log keyed by transaction identifier.
pub struct Account {
    available: Money,
    held: Money,
    total: Money,
    locked: bool,
    histories: Vec<(TransactionId, Operation)>,
}

impl Account {
    /// The history as a sequence of raw-identifier, operation-view pairs.
    pub closed spec fn hist_pairs(self) -> Seq<(u32, OperationView)> {
        self.histories@.map_values(|p: (TransactionId, Operation)| (p.0@, p.1@))
    }

    /// Representation invariant: at most one history entry per transaction
    /// identifier.
    pub closed spec fn inv(self) -> bool {
        unique_keys(self.hist_pairs())
    }
}

impl View for Account {
    type V = AccountView;

    closed spec fn view(&self) -> AccountView {
        AccountView {
            available: self.available@,
            held: self.held@,
            total: self.total@,
            locked: self.locked,
            history: assoc_map(self.hist_pairs()),
        }
    }
}

impl Account {
    /// Creates a new account with zero balances and an empty history.
    pub fn new() -> (r: Account)
        ensures
            r.inv(),
            r@ == AccountView::initial(),
    {
        let r = Account {
            available: Money::zero(),
            held: Money::zero(),
            total: Money::zero(),
            locked: false,
            histories: Vec::new(),
        };
        proof {
            assert(r.hist_pairs() =~= Seq::<(u32, OperationView)>::empty());
            assert(r@ =~= AccountView::initial());
        }
        r
    }

    /// The funds available for withdrawal.
    pub fn available(&self) -> (r: Money)
        ensures
            r@ == self@.available,
    {
        self.available
    }

    /// The funds held under dispute.
    pub fn held(&self) -> (r: Money)
        ensures
            r@ == self@.held,
    {
        self.held
    }

    /// The total funds: available plus held.
    pub fn total(&self) -> (r: Money)
        ensures
            r@ == self@.total,
    {
        self.total
    }

    /// Whether a chargeback has locked the account.
    pub fn locked(&self) -> (r: bool)
        ensures
            r == self@.locked,
    {
        self.locked
    }

    /// The index of the history entry for `id`, if there is one.
    fn find_history(&self, id: &TransactionId) -> (r: Option<usize>)
        ensures
            match r {
                Some(i) => i < self.histories@.len() && self.histories@[i as int].0@ == id@,
                None => forall|j: int|
                    0 <= j < self.histories@.len() ==> self.histories@[j].0@ != id@,
            },
    {
        let mut i: usize = 0;
        while i < self.histories.len()
            invariant
                i <= self.histories@.len(),
                forall|j: int| 0 <= j < i ==> self.histories@[j].0@ != id@,
            decreases self.histories@.len() - i,
        {
            if self.histories[i].0.equals(id) {
                return Some(i);
            }
            i = i + 1;
        }
        None
    }

    /// Whether the history holds an entry for `id`.
    pub fn contains_operation(&self, id: &TransactionId) -> (r: bool)
        requires
            self.inv(),
        ensures
            r == self@.history.dom().contains(id@),
    {
        proof {
            lemma_assoc_map_dom(self.hist_pairs(), id@);
        }
        match self.find_history(id) {
            Some(i) => {
                proof {
                    assert(self.hist_pairs()[i as int].0 == id@);
                }
                true
            },
            None => {
                proof {
                    assert(forall|j: int|
                        0 <= j < self.hist_pairs().len() ==> self.hist_pairs()[j].0 != id@);
                }
                false
            },
        }
    }

    /// The dispute status of the history entry for `id`, if there is one.
    pub fn operation_state(&self, id: &TransactionId) -> (r: Option<State>)
        requires
            self.inv(),
        ensures
            match r {
                Some(s) => self@.history.dom().contains(id@) && self@.history[id@].state == s,
                None => !self@.history.dom().contains(id@),
            },
    {
        proof {
            lemma_assoc_map_dom(self.hist_pairs(), id@);
        }
        match self.find_history(id) {
            Some(i) => {
                proof {
                    assert(self.hist_pairs()[i as int].0 == id@);
                    lemma_assoc_map_index(self.hist_pairs(), i as int);
                }
                Some(self.histories[i].1.state)
            },
            None => {
                proof {
                    assert(forall|j: int|
                        0 <= j < self.hist_pairs().len() ==> self.hist_pairs()[j].0 != id@);
                }
                None
            },
        }
    }

    /// Records a deposit or withdrawal under `id`, replacing any entry that
    /// already carries that identifier, and touches nothing else.
    fn update_history(&mut self, id: TransactionId, amount: Money)
        requires
            old(self).inv(),
        ensures
            final(self).inv(),
            final(self)@ =~= (AccountView {
                history: old(self)@.history.insert(
                    id@,
                    OperationView { amount: amount@, state: State::Undisputed },
                ),
                ..old(self)@
            }),
    {
        let op = Operation { amount, state: State::Undisputed };
        let ghost pairs = self.hist_pairs();
        match self.find_history(&id) {
            Some(i) => {
                self.histories[i] = (id, op);
                proof {
                    assert(self.hist_pairs() =~= pairs.update(i as int, (pairs[i as int].0, op@)));
                    lemma_assoc_map_update(pairs, i as int, op@);
                }
            },
            None => {
                self.histories.push((id, op));
                proof {
                    assert(self.hist_pairs() =~= pairs.push((id@, op@)));
                    lemma_assoc_map_push(pairs, (id@, op@));
                    assert(forall|j: int| 0 <= j < pairs.len() ==> pairs[j].0 != id@);
                }
            },
        }
    }

    /// Applies a deposit: both balances grow by the amount and the history
    /// records it. Follows [`AccountView::step_deposit`] exactly.
    pub fn make_deposit(&mut self, transaction: TransactionData) -> (r: Result<(), Error>)
        requires
            old(self).inv(),
            transaction.tx_type is Deposit,
            transaction.amount is Some,
        ensures
            final(self).inv(),
            ({
                let s = old(self)@.step(transaction);
                final(self)@ == s.0 && r == s.1
            }),
    {
        let amount = transaction.amount.unwrap();
        let new_available = self.available.checked_add(&amount);
        let new_total = self.total.checked_add(&amount);
        match (new_available, new_total) {
            (Some(a), Some(t)) => {
                self.available = a;
                self.total = t;
                self.update_history(transaction.id, amount);
                proof {
                    assert(self@ =~= old(self)@.step(transaction).0);
                }
                Ok(())
            },
            _ => Err(Error::AmountOutOfRange),
        }
    }

    /// Applies a withdrawal: refused with [`Error::WithdrawalError`] when the
    /// amount exceeds the available funds, in which case the account is
    /// untouched. Follows [`AccountView::step_withdrawal`] exactly.
    pub fn withdraw(&mut self, transaction: TransactionData) -> (r: Result<(), Error>)
        requires
            old(self).inv(),
            transaction.tx_type is Withdrawal,
            transaction.amount is Some,
        ensures
            final(self).inv(),
            ({
                let s = old(self)@.step(transaction);
                final(self)@ == s.0 && r == s.1
            }),
    {
        let amount = transaction.amount.unwrap();
        if amount.gt(&self.available) {
            return Err(Error::WithdrawalError);
        }
        let new_available = self.available.checked_sub(&amount);
        let new_total = self.total.checked_sub(&amount);
        match (new_available, new_total) {
            (Some(a), Some(t)) => {
                self.available = a;
                self.total = t;
                self.update_history(transaction.id, amount);
                proof {
                    assert(self@ =~= old(self)@.step(transaction).0);
                }
                Ok(())
            },
            _ => Err(Error::AmountOutOfRange),
        }
    }

    /// Disputes the recorded operation `tx_id`: its amount is added to the
    /// held and total balances and its status becomes disputed, whatever it
    /// was before. Follows [`AccountView::step_dispute`] exactly.
    pub fn dispute(&mut self, tx_id: TransactionId) -> (r: Result<(), Error>)
        requires
            old(self).inv(),
        ensures
            final(self).inv(),
            ({
                let s = old(self)@.step_dispute(tx_id@);
                final(self)@ == s.0 && r == s.1
            }),
    {
        proof {
            lemma_assoc_map_dom(self.hist_pairs(), tx_id@);
        }
        let ghost pairs = self.hist_pairs();
        match self.find_history(&tx_id) {
            None => {
                proof {
                    assert(forall|j: int| 0 <= j < pairs.len() ==> pairs[j].0 != tx_id@);
                }
                Err(Error::DisputeStateError)
            },
            Some(i) => {
                proof {
                    assert(pairs[i as int].0 == tx_id@);
                    lemma_assoc_map_index(pairs, i as int);
                }
                let id = self.histories[i].0;
                let op = self.histories[i].1;
                let new_held = self.held.checked_add(&op.amount);
                let new_total = self.total.checked_add(&op.amount);
                match (new_held, new_total) {
                    (Some(h), Some(t)) => {
                        self.held = h;
                        self.total = t;
                        let new_op = Operation { amount: op.amount, state: State::Disputed };
                        self.histories[i] = (id, new_op);
                        proof {
                            assert(self.hist_pairs() =~= pairs.update(
                                i as int,
                                (pairs[i as int].0, new_op@),
                            ));
                            lemma_assoc_map_update(pairs, i as int, new_op@);
                            assert(self@ =~= old(self)@.step_dispute(tx_id@).0);
                        }
                        Ok(())
                    },
                    _ => Err(Error::AmountOutOfRange),
                }
            },
        }
    }

    /// Resolves the disputed operation `tx_id`: its amount moves from held
    /// back to available. Refused unless the operation is currently
    /// disputed. Follows [`AccountView::step_resolve`] exactly.
    pub fn resolve(&mut self, tx_id: TransactionId) -> (r: Result<(), Error>)
        requires
            old(self).inv(),
        ensures
            final(self).inv(),
            ({
                let s = old(self)@.step_resolve(tx_id@);
                final(self)@ == s.0 && r == s.1
            }),
    {
        proof {
            lemma_assoc_map_dom(self.hist_pairs(), tx_id@);
        }
        let ghost pairs = self.hist_pairs();
        match self.find_history(&tx_id) {
            None => {
                proof {
                    assert(forall|j: int| 0 <= j < pairs.len() ==> pairs[j].0 != tx_id@);
                }
                Err(Error::DisputeStateError)
            },
            Some(i) => {
                proof {
                    assert(pairs[i as int].0 == tx_id@);
                    lemma_assoc_map_index(pairs, i as int);
                }
                let id = self.histories[i].0;
                let op = self.histories[i].1;
                if !matches!(op.state, State::Disputed) {
                    return Err(Error::DisputeStateError);
                }
                let new_held = self.held.checked_sub(&op.amount);
                let new_available = self.available.checked_add(&op.amount);
                match (new_held, new_available) {
                    (Some(h), Some(a)) => {
                        self.held = h;
                        self.available = a;
                        let new_op = Operation { amount: op.amount, state: State::Resolved };
                        self.histories[i] = (id, new_op);
                        proof {
                            assert(self.hist_pairs() =~= pairs.update(
                                i as int,
                                (pairs[i as int].0, new_op@),
                            ));
                            lemma_assoc_map_update(pairs, i as int, new_op@);
                            assert(self@ =~= old(self)@.step_resolve(tx_id@).0);
                        }
                        Ok(())
                    },
                    _ => Err(Error::AmountOutOfRange),
                }
            },
        }
    }

    /// Charges back the disputed operation `tx_id`: its amount leaves both
    /// the held and the total balance and the account is locked. Refused
    /// unless the operation is currently disputed. Follows
    /// [`AccountView::step_charge_back`] exactly.
    pub fn charge_back(&mut self, tx_id: TransactionId) -> (r: Result<(), Error>)
        requires
            old(self).inv(),
        ensures
            final(self).inv(),
            ({
                let s = old(self)@.step_charge_back(tx_id@);
                final(self)@ == s.0 && r == s.1
            }),
    {
        proof {
            lemma_assoc_map_dom(self.hist_pairs(), tx_id@);
        }
        let ghost pairs = self.hist_pairs();
        match self.find_history(&tx_id) {
            None => {
                proof {
                    assert(forall|j: int| 0 <= j < pairs.len() ==> pairs[j].0 != tx_id@);
                }
                Err(Error::DisputeStateError)
            },
            Some(i) => {
                proof {
                    assert(pairs[i as int].0 == tx_id@);
                    lemma_assoc_map_index(pairs, i as int);
                }
                let id = self.histories[i].0;
                let op = self.histories[i].1;
                if !matches!(op.state, State::Disputed) {
                    return Err(Error::DisputeStateError);
                }
                let new_held = self.held.checked_sub(&op.amount);
                let new_total = self.total.checked_sub(&op.amount);
                match (new_held, new_total) {
                    (Some(h), Some(t)) => {
                        self.held = h;
                        self.total = t;
                        self.locked = true;
                        let new_op = Operation { amount: op.amount, state: State::ChargedBack };
                        self.histories[i] = (id, new_op);
                        proof {
                            assert(self.hist_pairs() =~= pairs.update(
                                i as int,
                                (pairs[i as int].0, new_op@),
                            ));
                            lemma_assoc_map_update(pairs, i as int, new_op@);
                            assert(self@ =~= old(self)@.step_charge_back(tx_id@).0);
                        }
                        Ok(())
                    },
                    _ => Err(Error::AmountOutOfRange),
                }
            },
        }
    }
}

} // verus!
