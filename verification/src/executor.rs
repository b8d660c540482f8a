//! Running the lookups of a project, so many at a time, and judging what they
//! end with.
//!
//! The executor decides and the caller acts. The executor hands out the next
//! lookup to start, as long as fewer than the bound are under way; the caller
//! reports each lookup that has ended, in whatever order they end. Each record
//! is validated as it arrives. A dependency whose record is known without a
//! lookup needs no slot. At the end there is one record for each dependency.

use vstd::prelude::*;
use crate::collector::{Resolution, ResolutionView};
use crate::dependency::{Dependency, DependencyView, RetrievedDependency, RetrievedDependencyView};
use crate::licrc::{LicRc, LicRcView};

verus! {

/// What the caller of an executor does next.
#[derive(Debug, PartialEq, Eq)]
pub enum Step {
    /// Start the lookup of this dependency, and report its end under this
    /// ticket.
    Start {
        /// The ticket of the lookup: the index of the dependency.
        ticket: usize,
        /// The dependency to look up.
        dependency: Dependency,
    },
    /// Nothing: a record that needed no lookup has been taken in.
    Yielded,
    /// Wait for a lookup to end, and report it.
    Wait,
    /// Nothing can be done: a lookup is due, and the bound is zero.
    Stalled,
    /// Nothing: every dependency has its record.
    Finished,
}

/// What a `Step` holds.
pub enum StepView {
    Start { ticket: usize, dependency: DependencyView },
    Yielded,
    Wait,
    Stalled,
    Finished,
}

impl View for Step {
    type V = StepView;

    open spec fn view(&self) -> StepView {
        match self {
            Step::Start { ticket, dependency } => StepView::Start {
                ticket: *ticket,
                dependency: dependency@,
            },
            Step::Yielded => StepView::Yielded,
            Step::Wait => StepView::Wait,
            Step::Stalled => StepView::Stalled,
            Step::Finished => StepView::Finished,
        }
    }
}

/// The lookups of a project: which are still to start, which are under way,
/// and the records of those that have ended.
#[derive(Debug)]
pub struct Executor {
    policy: LicRc,
    tasks: Vec<Resolution>,
    bound: usize,
    next: usize,
    in_flight: Vec<usize>,
    tickets: Vec<usize>,
    records: Vec<RetrievedDependency>,
}

/// What an `Executor` holds.
pub struct ExecutorView {
    /// The policy under which the records are validated.
    pub policy: LicRcView,
    /// What is to be done about each dependency. The index of a dependency
    /// is its ticket.
    pub tasks: Seq<ResolutionView>,
    /// How many lookups may be under way at once.
    pub bound: usize,
    /// The ticket of the next dependency to take up.
    pub next: usize,
    /// The tickets of the lookups under way.
    pub in_flight: Seq<usize>,
    /// The tickets of the records, in the order of the records.
    pub tickets: Seq<usize>,
    /// The validated records, in the order in which they arrived.
    pub records: Seq<RetrievedDependencyView>,
}

impl View for Executor {
    type V = ExecutorView;

    closed spec fn view(&self) -> ExecutorView {
        ExecutorView {
            policy: self.policy@,
            tasks: self.tasks.deep_view(),
            bound: self.bound,
            next: self.next,
            in_flight: self.in_flight@,
            tickets: self.tickets@,
            records: self.records.deep_view(),
        }
    }
}

/// What happens to an executor: its caller takes a step, or reports the end
/// of a lookup.
pub enum Event {
    Step,
    Ended { ticket: usize, record: RetrievedDependencyView },
}

/// The index of `ticket` among the tickets, at or after `from`.
pub open spec fn position_from(tickets: Seq<usize>, ticket: usize, from: int) -> Option<int>
    decreases tickets.len() - from,
{
    if from < 0 || from >= tickets.len() {
        None
    } else if tickets[from] == ticket {
        Some(from)
    } else {
        position_from(tickets, ticket, from + 1)
    }
}

impl ExecutorView {
    /// The executor before anything has been done.
    pub open spec fn start(policy: LicRcView, tasks: Seq<ResolutionView>, bound: usize) -> ExecutorView {
        ExecutorView {
            policy,
            tasks,
            bound,
            next: 0,
            in_flight: Seq::empty(),
            tickets: Seq::empty(),
            records: Seq::empty(),
        }
    }

    /// Every dependency has its record.
    pub open spec fn finished(self) -> bool {
        self.next == self.tasks.len() && self.in_flight.len() == 0
    }

    /// The executor after a step, and what the caller does next. The next
    /// dependency is taken up where there is one: a record that is known is
    /// validated and taken in; a lookup is started where fewer than the
    /// bound are under way. Else the caller waits, where there is anything
    /// to wait for.
    pub open spec fn step(self) -> (ExecutorView, StepView) {
        if self.next < self.tasks.len() {
            match self.tasks[self.next as int] {
                ResolutionView::Resolved(record) => (
                    ExecutorView {
                        next: (self.next + 1) as usize,
                        tickets: self.tickets.push(self.next),
                        records: self.records.push(self.policy.validated(record)),
                        ..self
                    },
                    StepView::Yielded,
                ),
                ResolutionView::Retrieve(dependency) => if self.in_flight.len() < self.bound {
                    (
                        ExecutorView {
                            next: (self.next + 1) as usize,
                            in_flight: self.in_flight.push(self.next),
                            ..self
                        },
                        StepView::Start { ticket: self.next, dependency },
                    )
                } else if self.in_flight.len() > 0 {
                    (self, StepView::Wait)
                } else {
                    (self, StepView::Stalled)
                },
            }
        } else if self.in_flight.len() > 0 {
            (self, StepView::Wait)
        } else {
            (self, StepView::Finished)
        }
    }

    /// The executor after the lookup with this ticket has ended with this
    /// record: the lookup is no longer under way, and the record, validated,
    /// is the last of the records. Nothing where no lookup with this ticket
    /// is under way.
    pub open spec fn complete(self, ticket: usize, record: RetrievedDependencyView) -> Option<
        ExecutorView,
    > {
        match position_from(self.in_flight, ticket, 0) {
            None => None,
            Some(at) => Some(
                ExecutorView {
                    in_flight: self.in_flight.remove(at),
                    tickets: self.tickets.push(ticket),
                    records: self.records.push(self.policy.validated(record)),
                    ..self
                },
            ),
        }
    }

    /// The executor after an event. The report of a lookup that is not under
    /// way changes nothing.
    pub open spec fn after(self, event: Event) -> ExecutorView {
        match event {
            Event::Step => self.step().0,
            Event::Ended { ticket, record } => match self.complete(ticket, record) {
                Some(after) => after,
                None => self,
            },
        }
    }

    /// The executor after the events, one after the other.
    pub open spec fn after_all(self, events: Seq<Event>) -> ExecutorView
        decreases events.len(),
    {
        if events.len() == 0 {
            self
        } else {
            self.after_all(events.drop_last()).after(events.last())
        }
    }

    /// The work that is left: two for each dependency that has not been taken
    /// up, for its lookup is to start and to end, and one for each lookup
    /// under way.
    pub open spec fn work_left(self) -> int {
        2 * (self.tasks.len() - self.next) + self.in_flight.len()
    }

    /// What holds of an executor at all times. No more lookups are under way
    /// than the bound allows. Every dependency that has been taken up is
    /// either under way or has its record, never both and never twice. Only
    /// lookups are under way. Every record has been validated, and the record
    /// of a dependency that needed no lookup is the validated form of what
    /// was known of it.
    pub open spec fn well_formed(self) -> bool {
        &&& self.next <= self.tasks.len() <= usize::MAX
        &&& self.in_flight.len() <= self.bound
        &&& self.tickets.len() == self.records.len()
        &&& self.in_flight.len() + self.tickets.len() == self.next
        &&& self.in_flight.no_duplicates()
        &&& self.tickets.no_duplicates()
        &&& forall|i: int, j: int|
            0 <= i < self.in_flight.len() && 0 <= j < self.tickets.len() ==> self.in_flight[i]
                != self.tickets[j]
        &&& forall|i: int| 0 <= i < self.in_flight.len() ==> self.in_flight[i] < self.next
        &&& forall|j: int| 0 <= j < self.tickets.len() ==> self.tickets[j] < self.next
        &&& forall|t: usize|
            t < self.next ==> self.in_flight.contains(t) || self.tickets.contains(t)
        &&& forall|i: int|
            0 <= i < self.in_flight.len() ==> self.tasks[self.in_flight[i] as int] is Retrieve
        &&& forall|j: int| 0 <= j < self.records.len() ==> (#[trigger] self.records[j]).validated
        &&& forall|j: int|
            0 <= j < self.tickets.len() ==> (self.tasks[(#[trigger] self.tickets[j]) as int] matches ResolutionView::Resolved(
                known,
            ) ==> self.records[j] == self.policy.validated(known))
    }
}

/// Where `position_from` finds a ticket, it stands there; where it finds
/// none, the ticket is not among those that it went through.
pub proof fn lemma_position_from(tickets: Seq<usize>, ticket: usize, from: int)
    requires
        0 <= from,
    ensures
        match position_from(tickets, ticket, from) {
            Some(at) => from <= at < tickets.len() && tickets[at] == ticket,
            None => forall|i: int| from <= i < tickets.len() ==> tickets[i] != ticket,
        },
    decreases tickets.len() - from,
{
    if from < tickets.len() && tickets[from] != ticket {
        lemma_position_from(tickets, ticket, from + 1);
    }
}

/// An executor is well formed before anything has been done.
pub proof fn lemma_start_well_formed(policy: LicRcView, tasks: Seq<ResolutionView>, bound: usize)
    requires
        tasks.len() <= usize::MAX,
    ensures
        ExecutorView::start(policy, tasks, bound).well_formed(),
{
}

/// A step keeps an executor well formed.
pub proof fn lemma_step_well_formed(executor: ExecutorView)
    requires
        executor.well_formed(),
    ensures
        executor.step().0.well_formed(),
{
    let after = executor.step().0;
    if executor.next < executor.tasks.len() {
        let taken = executor.next;
        match executor.tasks[taken as int] {
            ResolutionView::Resolved(record) => {
                assert(after.tickets.last() == taken);
                assert forall|t: usize| t < after.next implies after.in_flight.contains(t)
                    || after.tickets.contains(t) by {
                    if t == taken {
                        assert(after.tickets[after.tickets.len() - 1] == t);
                    } else if executor.tickets.contains(t) {
                        let j = choose|j: int|
                            0 <= j < executor.tickets.len() && executor.tickets[j] == t;
                        assert(after.tickets[j] == t);
                    }
                }
                assert forall|j: int| 0 <= j < after.tickets.len() implies (
                after.tasks[(#[trigger] after.tickets[j]) as int] matches ResolutionView::Resolved(known)
                    ==> after.records[j] == after.policy.validated(known)) by {
                    if j < executor.tickets.len() {
                        assert(after.tickets[j] == executor.tickets[j]);
                        assert(after.records[j] == executor.records[j]);
                    }
                }
            },
            ResolutionView::Retrieve(dependency) => {
                if executor.in_flight.len() < executor.bound {
                    assert(after.in_flight.last() == taken);
                    assert forall|t: usize| t < after.next implies after.in_flight.contains(t)
                        || after.tickets.contains(t) by {
                        if t == taken {
                            assert(after.in_flight[after.in_flight.len() - 1] == t);
                        } else if executor.in_flight.contains(t) {
                            let i = choose|i: int|
                                0 <= i < executor.in_flight.len() && executor.in_flight[i] == t;
                            assert(after.in_flight[i] == t);
                        }
                    }
                }
            },
        }
    }
}

/// The end of a lookup keeps an executor well formed.
pub proof fn lemma_complete_well_formed(
    executor: ExecutorView,
    ticket: usize,
    record: RetrievedDependencyView,
)
    requires
        executor.well_formed(),
        executor.complete(ticket, record) is Some,
    ensures
        executor.complete(ticket, record)->0.well_formed(),
{
    let after = executor.complete(ticket, record)->0;
    lemma_position_from(executor.in_flight, ticket, 0);
    let at = position_from(executor.in_flight, ticket, 0)->0;
    let n = executor.in_flight.len();
    assert(after.in_flight.len() == n - 1);
    assert forall|i: int| 0 <= i < after.in_flight.len() implies after.in_flight[i] == (if i
        < at {
        executor.in_flight[i]
    } else {
        executor.in_flight[i + 1]
    }) by {}
    assert(after.tickets.last() == ticket);
    assert forall|t: usize| t < after.next implies after.in_flight.contains(t)
        || after.tickets.contains(t) by {
        if t == ticket {
            assert(after.tickets[after.tickets.len() - 1] == t);
        } else if executor.tickets.contains(t) {
            let j = choose|j: int| 0 <= j < executor.tickets.len() && executor.tickets[j] == t;
            assert(after.tickets[j] == t);
        } else {
            let i = choose|i: int| 0 <= i < executor.in_flight.len() && executor.in_flight[i] == t;
            if i < at {
                assert(after.in_flight[i] == t);
            } else {
                assert(after.in_flight[i - 1] == t);
            }
        }
    }
    assert forall|j: int| 0 <= j < after.tickets.len() implies (
    after.tasks[(#[trigger] after.tickets[j]) as int] matches ResolutionView::Resolved(known)
        ==> after.records[j] == after.policy.validated(known)) by {
        if j < executor.tickets.len() {
            assert(after.tickets[j] == executor.tickets[j]);
            assert(after.records[j] == executor.records[j]);
        } else {
            assert(executor.tasks[executor.in_flight[at] as int] is Retrieve);
        }
    }
}

/// An executor that has finished holds exactly one record for each
/// dependency: as many records as dependencies, and the ticket of each
/// dependency once among them. This holds whatever the bound.
pub proof fn lemma_finished_yields_each_once(executor: ExecutorView)
    requires
        executor.well_formed(),
        executor.finished(),
    ensures
        executor.records.len() == executor.tasks.len(),
        executor.tickets.len() == executor.tasks.len(),
        executor.tickets.no_duplicates(),
        forall|t: usize| t < executor.tasks.len() ==> executor.tickets.contains(t),
        forall|j: int| 0 <= j < executor.tickets.len() ==> executor.tickets[j] < executor.tasks.len(),
{
    assert forall|t: usize| t < executor.tasks.len() implies executor.tickets.contains(t) by {
        if executor.in_flight.contains(t) {
            let i = choose|i: int| 0 <= i < executor.in_flight.len() && executor.in_flight[i] == t;
            assert(false);
        }
    }
}

/// Whatever happens to an executor, in whatever order, and whatever the
/// bound: never are more lookups under way than the bound allows, and once
/// the executor has finished it holds exactly one record for each
/// dependency.
pub proof fn lemma_every_run_yields_each_once(
    policy: LicRcView,
    tasks: Seq<ResolutionView>,
    bound: usize,
    events: Seq<Event>,
)
    requires
        tasks.len() <= usize::MAX,
    ensures
        ExecutorView::start(policy, tasks, bound).after_all(events).well_formed(),
        ExecutorView::start(policy, tasks, bound).after_all(events).tasks == tasks,
        ExecutorView::start(policy, tasks, bound).after_all(events).bound == bound,
        ExecutorView::start(policy, tasks, bound).after_all(events).in_flight.len() <= bound,
        ExecutorView::start(policy, tasks, bound).after_all(events).finished() ==> ({
            let end = ExecutorView::start(policy, tasks, bound).after_all(events);
            &&& end.records.len() == tasks.len()
            &&& end.tickets.no_duplicates()
            &&& forall|t: usize| t < tasks.len() ==> end.tickets.contains(t)
        }),
    decreases events.len(),
{
    let start = ExecutorView::start(policy, tasks, bound);
    if events.len() > 0 {
        lemma_every_run_yields_each_once(policy, tasks, bound, events.drop_last());
        let before = start.after_all(events.drop_last());
        match events.last() {
            Event::Step => {
                lemma_step_well_formed(before);
            },
            Event::Ended { ticket, record } => {
                if before.complete(ticket, record) is Some {
                    lemma_complete_well_formed(before, ticket, record);
                }
            },
        }
    } else {
        lemma_start_well_formed(policy, tasks, bound);
    }
    let end = start.after_all(events);
    if end.finished() {
        lemma_finished_yields_each_once(end);
    }
}

/// Every step that takes up a dependency, and every end of a lookup, brings
/// an executor nearer to its end: the work that is left grows less, and none
/// is left exactly where the executor has finished.
pub proof fn lemma_work_left_decreases(
    executor: ExecutorView,
    ticket: usize,
    record: RetrievedDependencyView,
)
    requires
        executor.well_formed(),
    ensures
        executor.work_left() == 0 <==> executor.finished(),
        executor.step().1 is Start || executor.step().1 is Yielded ==> executor.step().0.work_left()
            < executor.work_left(),
        executor.complete(ticket, record) matches Some(after) ==> after.work_left()
            < executor.work_left(),
{
    lemma_position_from(executor.in_flight, ticket, 0);
}

/// An executor with a bound of at least one never stalls: as long as it has
/// not finished, a step takes up a dependency, or there is a lookup to wait
/// for.
pub proof fn lemma_progress(executor: ExecutorView)
    requires
        executor.well_formed(),
        executor.bound >= 1,
    ensures
        !(executor.step().1 is Stalled),
        executor.step().1 is Finished <==> executor.finished(),
        executor.step().1 is Wait ==> executor.in_flight.len() > 0 && executor.step().0 == executor,
        executor.step().1 is Start || executor.step().1 is Yielded ==> executor.step().0.next
            == executor.next + 1,
{
}

impl Executor {
    /// An executor for these dependencies, under this policy, with at most
    /// `bound` lookups under way at once.
    pub fn new(policy: LicRc, tasks: Vec<Resolution>, bound: usize) -> (r: Self)
        ensures
            r@ == ExecutorView::start(policy@, tasks.deep_view(), bound),
            r@.well_formed(),
    {
        let r = Executor {
            policy,
            tasks,
            bound,
            next: 0,
            in_flight: Vec::new(),
            tickets: Vec::new(),
            records: Vec::new(),
        };
        assert(r.records.deep_view() =~= Seq::empty());
        assert(r.tasks.deep_view().len() == r.tasks.len());
        r
    }

    /// Takes up the next dependency, where that can be done, and says what
    /// the caller does next.
    pub fn step(&mut self) -> (r: Step)
        requires
            old(self)@.well_formed(),
        ensures
            (final(self)@, r@) == old(self)@.step(),
            final(self)@.well_formed(),
    {
        proof {
            lemma_step_well_formed(self@);
        }
        if self.next < self.tasks.len() {
            assert(self.tasks.deep_view()[self.next as int] == self.tasks@[self.next as int]@);
            match &self.tasks[self.next] {
                Resolution::Resolved(known) => {
                    let mut record = known.clone();
                    self.policy.validate(&mut record);
                    let ghost before = self.records.deep_view();
                    let ghost view = record@;
                    self.records.push(record);
                    assert(self.records.deep_view() =~= before.push(view));
                    self.tickets.push(self.next);
                    self.next = self.next + 1;
                    Step::Yielded
                },
                Resolution::Retrieve(dependency) => {
                    if self.in_flight.len() < self.bound {
                        let dependency = dependency.clone();
                        let ticket = self.next;
                        self.in_flight.push(ticket);
                        self.next = self.next + 1;
                        Step::Start { ticket, dependency }
                    } else if self.in_flight.len() > 0 {
                        Step::Wait
                    } else {
                        Step::Stalled
                    }
                },
            }
        } else if self.in_flight.len() > 0 {
            Step::Wait
        } else {
            Step::Finished
        }
    }

    /// Takes in the record that the lookup with this ticket has ended with,
    /// and validates it. Says whether a lookup with this ticket was under
    /// way; where none was, nothing changes.
    pub fn complete(&mut self, ticket: usize, record: RetrievedDependency) -> (r: bool)
        requires
            old(self)@.well_formed(),
        ensures
            match old(self)@.complete(ticket, record@) {
                Some(after) => r && final(self)@ == after,
                None => !r && final(self)@ == old(self)@,
            },
            final(self)@.well_formed(),
    {
        let mut at: usize = 0;
        while at < self.in_flight.len()
            invariant
                at <= self.in_flight.len(),
                self@ == old(self)@,
                self@.well_formed(),
                position_from(self.in_flight@, ticket, 0) == position_from(
                    self.in_flight@,
                    ticket,
                    at as int,
                ),
            decreases self.in_flight.len() - at,
        {
            if self.in_flight[at] == ticket {
                proof {
                    lemma_complete_well_formed(self@, ticket, record@);
                }
                let mut record = record;
                self.policy.validate(&mut record);
                self.in_flight.remove(at);
                self.tickets.push(ticket);
                let ghost before = self.records.deep_view();
                let ghost view = record@;
                self.records.push(record);
                assert(self.records.deep_view() =~= before.push(view));
                return true;
            }
            at = at + 1;
        }
        false
    }

    /// Whether every dependency has its record.
    pub fn is_finished(&self) -> (r: bool)
        ensures
            r == self@.finished(),
    {
        self.next == self.tasks.len() && self.in_flight.len() == 0
    }

    /// How many lookups are under way.
    pub fn in_flight(&self) -> (r: usize)
        requires
            self@.well_formed(),
        ensures
            r == self@.in_flight.len(),
            r <= self@.bound,
    {
        self.in_flight.len()
    }

    /// The records so far, in the order in which they arrived.
    pub fn into_records(self) -> (r: Vec<RetrievedDependency>)
        ensures
            r.deep_view() == self@.records,
    {
        self.records
    }
}

} // verus!
