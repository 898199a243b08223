//! Which account is tried next, and what a failed attempt leads to.
//!
//! A [`Delivery`] walks once over the accounts in a shuffled order. It asks
//! its caller for one action at a time and is told how the action ended. As
//! long as no attempt has failed it asks for the message to be sent through
//! the current account. After a failure it first asks for a notice of what
//! went wrong so far to be sent through the next account, disregards what
//! comes of that, and then asks for the message itself to be sent through
//! that account. The first attempt that succeeds ends the walk; when every
//! account has failed, the walk ends with all the causes, oldest first.

use vstd::prelude::*;
use vstd::string::*;

use crate::rand::is_permutation;
use crate::rand::shuffled;
use crate::rand::state_after;
use crate::rand::Rng;
use crate::text::copy_texts;
use crate::text::texts;

verus! {

/// The subject of the notice that reports earlier failures.
pub const NOTICE_SUBJECT: &'static str = "email error";

/// What stands between two causes in the text of a failure.
pub open spec fn cause_separator() -> Seq<char> {
    "\ncaused by: "@
}

/// The text of a failure with the given causes, oldest first: the latest
/// cause, and behind it, one line each, the causes that came before it, from
/// the latest to the oldest.
pub open spec fn rendering(causes: Seq<Seq<char>>) -> Seq<char>
    decreases causes.len(),
{
    if causes.len() == 0 {
        Seq::empty()
    } else if causes.len() == 1 {
        causes[0]
    } else {
        causes.last() + cause_separator() + rendering(causes.drop_last())
    }
}

/// What is left to write once the causes from `done` on are written.
pub open spec fn rendering_rest(causes: Seq<Seq<char>>, done: int) -> Seq<char> {
    if done == 0 {
        Seq::empty()
    } else {
        cause_separator() + rendering(causes.take(done))
    }
}

/// Every account failed: the causes, in the order in which the accounts
/// were tried.
#[derive(Debug, PartialEq, Eq)]
pub struct AggregatedError {
    /// One cause for each account, oldest first.
    pub causes: Vec<String>,
}

impl View for AggregatedError {
    type V = Seq<Seq<char>>;

    open spec fn view(&self) -> Seq<Seq<char>> {
        texts(self.causes@)
    }
}

/// The text of the failure that `causes` add up to.
pub fn render(causes: &Vec<String>) -> (text: String)
    ensures
        text@ == rendering(texts(causes@)),
{
    let ghost all = texts(causes@);
    let mut text = String::new();
    if causes.len() == 0 {
        return text;
    }
    let mut i: usize = causes.len() - 1;
    text.append(causes[i].as_str());
    while i > 0
        invariant
            i < causes.len(),
            all == texts(causes@),
            rendering(all) == text@ + rendering_rest(all, i as int),
        decreases i,
    {
        i = i - 1;
        text.append("\ncaused by: ");
        text.append(causes[i].as_str());
        assert(all.take(i as int + 1).drop_last() =~= all.take(i as int));
    }
    text
}

impl AggregatedError {
    /// The number of causes.
    pub fn len(&self) -> (n: usize)
        ensures
            n == self@.len(),
    {
        self.causes.len()
    }

    /// The text of the failure: the latest cause, and behind it the causes
    /// that came before it.
    pub fn message(&self) -> (text: String)
        ensures
            text@ == rendering(self@),
    {
        render(&self.causes)
    }
}

/// Why a delivery could not be started.
#[derive(Debug, PartialEq, Eq)]
pub enum DeliveryError {
    /// There is no account to send through.
    NoAccounts,
}

/// Where a delivery stands.
#[derive(Clone, Copy, Debug, PartialEq, Eq, Structural)]
pub enum Phase {
    /// Earlier attempts failed; a notice about them is due through the
    /// current account.
    Notifying,
    /// The message is due through the current account.
    Sending,
    /// An attempt succeeded.
    Delivered,
    /// Every account failed.
    Exhausted,
}

/// What a delivery asks its caller to do.
#[derive(Debug, PartialEq, Eq)]
pub enum Action {
    /// Send a notice with the subject [`NOTICE_SUBJECT`] and this body to the
    /// recipients through the account with this index. What comes of it does
    /// not matter.
    Notify { account: usize, body: String },
    /// Send the message to the recipients through the account with this
    /// index.
    Send { account: usize },
    /// Nothing more: the message was delivered.
    Delivered,
    /// Nothing more: every account failed.
    Failed(AggregatedError),
}

/// The mathematical value of an [`Action`].
pub enum ActionView {
    Notify { account: usize, body: Seq<char> },
    Send { account: usize },
    Delivered,
    Failed(Seq<Seq<char>>),
}

impl View for Action {
    type V = ActionView;

    open spec fn view(&self) -> ActionView {
        match self {
            Action::Notify { account, body } => ActionView::Notify {
                account: *account,
                body: body@,
            },
            Action::Send { account } => ActionView::Send { account: *account },
            Action::Delivered => ActionView::Delivered,
            Action::Failed(error) => ActionView::Failed(error@),
        }
    }
}

/// The mathematical value of a [`Delivery`].
pub struct DeliveryView {
    /// The indices of the accounts in the order in which they are tried.
    pub order: Seq<usize>,
    /// How many accounts have failed.
    pub position: nat,
    /// Where the delivery stands.
    pub phase: Phase,
    /// The causes of the failures so far, oldest first.
    pub causes: Seq<Seq<char>>,
}

impl DeliveryView {
    /// A delivery that has not asked for anything yet.
    pub open spec fn fresh(order: Seq<usize>) -> DeliveryView {
        DeliveryView { order, position: 0, phase: Phase::Sending, causes: Seq::empty() }
    }

    /// What holds of every delivery: the order is a permutation of at least
    /// one account, there is one cause for each account that failed, a notice
    /// is only due after a failure, and the walk ends exhausted exactly when
    /// no account is left.
    pub open spec fn well_formed(self) -> bool {
        &&& self.order.len() > 0
        &&& is_permutation(self.order)
        &&& self.causes.len() == self.position
        &&& match self.phase {
            Phase::Notifying => 0 < self.position < self.order.len(),
            Phase::Sending => self.position < self.order.len(),
            Phase::Delivered => self.position < self.order.len(),
            Phase::Exhausted => self.position == self.order.len(),
        }
    }

    /// Whether nothing more will be asked for.
    pub open spec fn finished(self) -> bool {
        self.phase == Phase::Delivered || self.phase == Phase::Exhausted
    }

    /// What the delivery asks for.
    pub open spec fn action(self) -> ActionView {
        match self.phase {
            Phase::Notifying => ActionView::Notify {
                account: self.order[self.position as int],
                body: rendering(self.causes),
            },
            Phase::Sending => ActionView::Send { account: self.order[self.position as int] },
            Phase::Delivered => ActionView::Delivered,
            Phase::Exhausted => ActionView::Failed(self.causes),
        }
    }

    /// The delivery after its action ended with `failure`: `None` where it
    /// succeeded, the cause where it failed.
    ///
    /// A notice leads to the attempt through the same account however it
    /// ended. A successful attempt ends the delivery. A failed one adds its
    /// cause and leads to the notice through the next account, or, where
    /// none is left, ends the delivery.
    pub open spec fn record(self, failure: Option<Seq<char>>) -> DeliveryView {
        match self.phase {
            Phase::Notifying => DeliveryView { phase: Phase::Sending, ..self },
            Phase::Sending => match failure {
                None => DeliveryView { phase: Phase::Delivered, ..self },
                Some(cause) => DeliveryView {
                    order: self.order,
                    position: self.position + 1,
                    phase: if self.position + 1 == self.order.len() {
                        Phase::Exhausted
                    } else {
                        Phase::Notifying
                    },
                    causes: self.causes.push(cause),
                },
            },
            Phase::Delivered => self,
            Phase::Exhausted => self,
        }
    }
}

/// How an action ended, as [`DeliveryView::record`] takes it.
pub open spec fn failure_of(outcome: Result<(), String>) -> Option<Seq<char>> {
    match outcome {
        Ok(_) => None,
        Err(cause) => Some(cause@),
    }
}

/// One walk over the accounts.
#[derive(Debug)]
pub struct Delivery {
    order: Vec<usize>,
    position: usize,
    phase: Phase,
    causes: Vec<String>,
}

impl View for Delivery {
    type V = DeliveryView;

    closed spec fn view(&self) -> DeliveryView {
        DeliveryView {
            order: self.order@,
            position: self.position as nat,
            phase: self.phase,
            causes: texts(self.causes@),
        }
    }
}

impl Delivery {
    #[verifier::type_invariant]
    spec fn inv(self) -> bool {
        self@.well_formed()
    }

    /// Starts a delivery over `accounts` accounts, which are tried in the
    /// order that `rng` shuffles them into.
    ///
    /// Without an account there is nothing to start.
    pub fn new(accounts: usize, rng: &mut Rng) -> (started: Result<Delivery, DeliveryError>)
        ensures
            accounts == 0 ==> started == Err::<Delivery, DeliveryError>(DeliveryError::NoAccounts)
                && final(rng)@ == old(rng)@,
            accounts > 0 ==> started is Ok && started->Ok_0@ == DeliveryView::fresh(
                shuffled(old(rng)@, accounts as nat),
            ) && started->Ok_0@.well_formed() && final(rng)@ == state_after(
                old(rng)@,
                (accounts - 1) as nat,
            ),
    {
        if accounts == 0 {
            return Err(DeliveryError::NoAccounts);
        }
        let order = rng.shuffled_indices(accounts);
        let delivery = Delivery {
            order,
            position: 0,
            phase: Phase::Sending,
            causes: Vec::new(),
        };
        assert(delivery@.causes =~= Seq::empty());
        Ok(delivery)
    }

    /// Whether nothing more will be asked for.
    pub fn is_finished(&self) -> (finished: bool)
        ensures
            finished == self@.finished(),
    {
        match self.phase {
            Phase::Delivered => true,
            Phase::Exhausted => true,
            _ => false,
        }
    }

    /// What the caller is to do now.
    pub fn action(&self) -> (action: Action)
        ensures
            self@.well_formed(),
            action@ == self@.action(),
    {
        proof {
            use_type_invariant(self);
        }
        match self.phase {
            Phase::Notifying => Action::Notify {
                account: self.order[self.position],
                body: render(&self.causes),
            },
            Phase::Sending => Action::Send { account: self.order[self.position] },
            Phase::Delivered => Action::Delivered,
            Phase::Exhausted => {
                let causes = copy_texts(&self.causes);
                Action::Failed(AggregatedError { causes })
            },
        }
    }

    /// The delivery after the action that was asked for ended with `outcome`.
    pub fn record(self, outcome: Result<(), String>) -> (next: Delivery)
        ensures
            self@.well_formed(),
            next@.well_formed(),
            next@ == self@.record(failure_of(outcome)),
    {
        proof {
            use_type_invariant(&self);
        }
        let ghost before = self@;
        let Delivery { order, position, phase, causes } = self;
        let accounts = order.len();
        match phase {
            Phase::Notifying => Delivery { order, position, phase: Phase::Sending, causes },
            Phase::Sending => match outcome {
                Ok(_) => Delivery { order, position, phase: Phase::Delivered, causes },
                Err(cause) => {
                    let mut causes = causes;
                    causes.push(cause);
                    let position = position + 1;
                    let phase = if position == accounts {
                        Phase::Exhausted
                    } else {
                        Phase::Notifying
                    };
                    assert(texts(causes@) =~= before.causes.push(cause@));
                    Delivery { order, position, phase, causes }
                },
            },
            Phase::Delivered => Delivery { order, position, phase, causes },
            Phase::Exhausted => Delivery { order, position, phase, causes },
        }
    }
}

/// The causes of the first `count` attempts, where each of them failed.
pub open spec fn failures(sends: Seq<Option<Seq<char>>>, count: int) -> Seq<Seq<char>> {
    Seq::new(count as nat, |i: int| sends[i]->Some_0)
}

impl DeliveryView {
    /// An upper bound on the number of actions that are still to come.
    pub open spec fn steps_left(self) -> nat {
        match self.phase {
            Phase::Notifying => (2 * (self.order.len() - self.position) + 1) as nat,
            Phase::Sending => (2 * (self.order.len() - self.position)) as nat,
            Phase::Delivered => 0,
            Phase::Exhausted => 0,
        }
    }

    /// Every action that the delivery asks for from here on, the last one
    /// being the one that ends it, when the attempt through the account at
    /// position `i` of the order ends with `sends[i]` and the notice through
    /// it with `notices[i]` (`None` for a success, the cause for a failure).
    pub open spec fn trace(
        self,
        sends: Seq<Option<Seq<char>>>,
        notices: Seq<Option<Seq<char>>>,
    ) -> Seq<ActionView>
        decreases self.steps_left(),
    {
        if !self.well_formed() || self.finished() {
            seq![self.action()]
        } else {
            let failure = if self.phase == Phase::Notifying {
                notices[self.position as int]
            } else {
                sends[self.position as int]
            };
            seq![self.action()] + self.record(failure).trace(sends, notices)
        }
    }
}

/// The action at place `index` of a walk in which the accounts at the
/// positions before `last` fail and the walk ends at position `last`, with a
/// success or with the failure of the last account: the attempts stand at the
/// even places, the notice that goes before the attempt at position `i > 0`
/// at place `2 * i - 1`, and the end at the last place.
pub open spec fn expected_action(
    order: Seq<usize>,
    sends: Seq<Option<Seq<char>>>,
    last: int,
    success: bool,
    index: int,
) -> ActionView {
    if index == 2 * last + 1 {
        if success {
            ActionView::Delivered
        } else {
            ActionView::Failed(failures(sends, last + 1))
        }
    } else if index % 2 == 0 {
        ActionView::Send { account: order[index / 2] }
    } else {
        ActionView::Notify {
            account: order[(index + 1) / 2],
            body: rendering(failures(sends, (index + 1) / 2)),
        }
    }
}

/// The actions of such a walk from the attempt at position `from` on.
pub open spec fn expected_trace(
    order: Seq<usize>,
    sends: Seq<Option<Seq<char>>>,
    from: int,
    last: int,
    success: bool,
) -> Seq<ActionView> {
    Seq::new(
        (2 * (last - from) + 2) as nat,
        |index: int| expected_action(order, sends, last, success, index + 2 * from),
    )
}

/// A delivery that is about to try the account at position `from`, after
/// the accounts before it have failed.
pub open spec fn attempting(
    order: Seq<usize>,
    sends: Seq<Option<Seq<char>>>,
    from: int,
) -> DeliveryView {
    DeliveryView {
        order,
        position: from as nat,
        phase: Phase::Sending,
        causes: failures(sends, from),
    }
}

proof fn lemma_trace_from(
    order: Seq<usize>,
    sends: Seq<Option<Seq<char>>>,
    notices: Seq<Option<Seq<char>>>,
    from: int,
    last: int,
    success: bool,
)
    requires
        order.len() > 0,
        is_permutation(order),
        sends.len() == order.len(),
        notices.len() == order.len(),
        0 <= from <= last < order.len(),
        forall|i: int| 0 <= i < last ==> (#[trigger] sends[i]) is Some,
        success <==> sends[last] is None,
        !success ==> last == order.len() - 1,
    ensures
        attempting(order, sends, from).trace(sends, notices) == expected_trace(
            order,
            sends,
            from,
            last,
            success,
        ),
    decreases last - from,
{
    let after_send = attempting(order, sends, from).record(sends[from]);
    if from == last {
        // The walk ends here, delivered or exhausted.
        assert(after_send.causes =~= failures(sends, from + 1) || success);
        assert(after_send.trace(sends, notices) == seq![after_send.action()]);
    } else {
        // A notice through the next account, then the walk from there on.
        assert(after_send.causes =~= failures(sends, from + 1));
        let after_notice = after_send.record(notices[from + 1]);
        assert(after_send.trace(sends, notices) == seq![after_send.action()]
            + after_notice.trace(sends, notices));
        lemma_trace_from(order, sends, notices, from + 1, last, success);
    }
}

/// When the account at position `first` of the order is the first through
/// which the message goes out, the delivery asks for exactly `first + 1`
/// attempts, through the accounts at the positions `0..=first` in that
/// order; before each attempt but the first it asks for one notice through
/// the same account, whose body is the text of the failures up to then; and
/// it ends delivered. How the notices end changes nothing.
pub proof fn lemma_first_success_ends_delivery(
    order: Seq<usize>,
    sends: Seq<Option<Seq<char>>>,
    notices: Seq<Option<Seq<char>>>,
    first: int,
)
    requires
        order.len() > 0,
        is_permutation(order),
        sends.len() == order.len(),
        notices.len() == order.len(),
        0 <= first < order.len(),
        sends[first] is None,
        forall|i: int| 0 <= i < first ==> (#[trigger] sends[i]) is Some,
    ensures
        DeliveryView::fresh(order).well_formed(),
        DeliveryView::fresh(order).trace(sends, notices) == expected_trace(
            order,
            sends,
            0,
            first,
            true,
        ),
        expected_trace(order, sends, 0, first, true).len() == 2 * first + 2,
        expected_trace(order, sends, 0, first, true).last() == ActionView::Delivered,
{
    assert(failures(sends, 0) =~= Seq::empty());
    lemma_trace_from(order, sends, notices, 0, first, true);
}

/// When every account fails, the delivery asks for exactly one attempt
/// through each account, in the order in which they are tried; before each
/// attempt but the first it asks for one notice through the same account,
/// whose body is the text of the failures up to then; and it ends failed
/// with one cause for each account, in the order in which they were tried.
pub proof fn lemma_all_failures_are_reported(
    order: Seq<usize>,
    sends: Seq<Option<Seq<char>>>,
    notices: Seq<Option<Seq<char>>>,
)
    requires
        order.len() > 0,
        is_permutation(order),
        sends.len() == order.len(),
        notices.len() == order.len(),
        forall|i: int| 0 <= i < sends.len() ==> (#[trigger] sends[i]) is Some,
    ensures
        DeliveryView::fresh(order).well_formed(),
        DeliveryView::fresh(order).trace(sends, notices) == expected_trace(
            order,
            sends,
            0,
            order.len() - 1,
            false,
        ),
        expected_trace(order, sends, 0, order.len() - 1, false).len() == 2 * order.len(),
        expected_trace(order, sends, 0, order.len() - 1, false).last() == ActionView::Failed(
            failures(sends, order.len() as int),
        ),
        failures(sends, order.len() as int).len() == order.len(),
{
    assert(failures(sends, 0) =~= Seq::empty());
    lemma_trace_from(order, sends, notices, 0, order.len() - 1, false);
}

} // verus!
