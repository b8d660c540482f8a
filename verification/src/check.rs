//! A whole run: every dependency is looked up, and every record judged.

use vstd::prelude::*;
use vstd::string::*;
use crate::collector::{all_pass, Resolution, ResolutionView};
use crate::dependency::{DependencyView, RetrievedDependency, RetrievedDependencyView};
use crate::executor::{Executor, Step};
use crate::licrc::{describes, lemma_validation_only_judges, LicRc, LicRcView};

verus! {

/// What looks up the license of a dependency, by whatever means. A lookup
/// never fails: what goes wrong is written into the record.
pub trait Retriever: Send + Sync + std::fmt::Debug {
    /// The record of the dependency with this name and version.
    fn get_dependency(&self, dep_name: &str, dep_version: &str) -> (r: RetrievedDependency)
        ensures
            r@.name == dep_name@,
            r@.version == dep_version@,
    ;
}

/// A retriever that looks nothing up.
#[derive(Debug, Clone, Copy, PartialEq, Eq)]
pub struct EmptyRetriever;

impl Default for EmptyRetriever {
    fn default() -> (r: Self)
        ensures
            r == EmptyRetriever,
    {
        EmptyRetriever
    }
}

impl Retriever for EmptyRetriever {
    /// A record that holds the name and the version and nothing else.
    fn get_dependency(&self, dep_name: &str, dep_version: &str) -> (r: RetrievedDependency)
        ensures
            r@ == (RetrievedDependencyView {
                name: dep_name@,
                version: dep_version@,
                dependency_type: Seq::empty(),
                url: None,
                licenses: None,
                validated: false,
                is_valid: false,
                is_ignored: false,
                error: None,
                comment: None,
                suggested_licenses: None,
                is_dev: None,
                is_optional: None,
            }),
    {
        let mut r = RetrievedDependency::default();
        r.name = String::from_str(dep_name);
        r.version = String::from_str(dep_version);
        r
    }
}

/// The outcome of a run.
#[derive(Debug)]
pub struct RunResult {
    /// The policy of the run.
    pub licrc: LicRc,
    /// The validated dependencies.
    pub dependencies: Vec<RetrievedDependency>,
}

/// `raw` is a record that the retriever gives for the dependency: what a
/// call of `get_dependency` with its name and version may return.
pub open spec fn looked_up<R: Retriever>(
    retriever: &R,
    dependency: DependencyView,
    raw: RetrievedDependency,
) -> bool {
    exists|name: &str, version: &str|
        name@ == dependency.name && version@ == dependency.version && #[trigger] call_ensures(
            R::get_dependency,
            (retriever, name, version),
            raw,
        )
}

/// The record is the policy's verdict on what was to be done: the validated
/// form of a record that was known, or the validated form of a record that
/// the retriever gives for the dependency that was to be looked up. Such a
/// record bears the name and the version of the dependency; and where the
/// retriever's record describes a dependency that the policy does not
/// ignore, the verdict does not ignore it either.
pub open spec fn judged<R: Retriever>(
    retriever: &R,
    policy: LicRcView,
    task: ResolutionView,
    record: RetrievedDependencyView,
) -> bool {
    match task {
        ResolutionView::Resolved(known) => record == policy.validated(known),
        ResolutionView::Retrieve(dependency) => {
            &&& record.validated
            &&& record.name == dependency.name
            &&& record.version == dependency.version
            &&& exists|raw: RetrievedDependency|
                {
                    &&& #[trigger] looked_up(retriever, dependency, raw)
                    &&& record == policy.validated(raw@)
                    &&& describes(raw@, dependency) && !policy.ignores(
                        dependency.name,
                        dependency.is_dev,
                        dependency.is_optional,
                    ) ==> record.is_ignored == raw@.is_ignored
                }
        },
    }
}

/// The filter before the lookup and the validator agree over a whole run:
/// where the policy lets a dependency pass, and the retriever's records
/// describe the dependency they are asked for and come not ignored, the
/// record that the run gives for it is validated and not ignored.
pub proof fn lemma_run_agrees_with_filter<R: Retriever>(
    retriever: &R,
    policy: LicRcView,
    task: ResolutionView,
    record: RetrievedDependencyView,
)
    requires
        judged(retriever, policy, task, record),
        task.passes(policy),
        task is Retrieve ==> forall|raw: RetrievedDependency| #[trigger]
            looked_up(retriever, task->Retrieve_0, raw) ==> describes(raw@, task->Retrieve_0)
                && !raw@.is_ignored,
    ensures
        record.validated,
        !record.is_ignored,
{
}

/// What the retriever that looks nothing up gives for a dependency
/// describes it, and is neither ignored nor validated.
pub proof fn lemma_empty_retriever_gives_fresh_records(
    retriever: &EmptyRetriever,
    dependency: DependencyView,
    raw: RetrievedDependency,
)
    requires
        looked_up(retriever, dependency, raw),
    ensures
        describes(raw@, dependency),
        !raw@.is_ignored,
        !raw@.validated,
{
}

/// Every record that the retriever gives for one of the dependencies that
/// are to be looked up describes that dependency, and comes not ignored.
pub open spec fn gives_fresh_records<R: Retriever>(retriever: &R, tasks: Seq<ResolutionView>) -> bool {
    forall|i: int, raw: RetrievedDependency|
        0 <= i < tasks.len() && tasks[i] is Retrieve && #[trigger] looked_up(
            retriever,
            (#[trigger] tasks[i])->Retrieve_0,
            raw,
        ) ==> describes(raw@, tasks[i]->Retrieve_0) && !raw@.is_ignored
}

/// A lookup is due: one of the tasks is a dependency to look up.
pub open spec fn lookup_due(tasks: Seq<ResolutionView>) -> bool {
    exists|i: int| 0 <= i < tasks.len() && #[trigger] tasks[i] is Retrieve
}

/// Looks up every dependency, one after the other, and gives the policy's
/// verdict on each. There is one record for each dependency, in their order.
/// Nothing comes of a run in which a lookup is due and the policy allows
/// none at a time; any other run comes to its end. Where the policy has let
/// every dependency pass, and the retriever's records are fresh, no record
/// ends ignored.
pub fn run<R: Retriever>(licrc: LicRc, tasks: Vec<Resolution>, retriever: &R) -> (r: Option<
    RunResult,
>)
    ensures
        r is None <==> licrc@.buffer_size() == 0 && lookup_due(tasks.deep_view()),
        r matches Some(result) ==> {
            &&& result.licrc@ == licrc@
            &&& result.dependencies.len() == tasks.len()
            &&& forall|i: int|
                0 <= i < tasks.len() ==> judged(
                    retriever,
                    licrc@,
                    #[trigger] tasks.deep_view()[i],
                    result.dependencies.deep_view()[i],
                )
            &&& all_pass(tasks.deep_view(), licrc@) && gives_fresh_records(
                retriever,
                tasks.deep_view(),
            ) ==> forall|i: int|
                0 <= i < tasks.len() ==> (#[trigger] result.dependencies.deep_view()[i]).validated
                    && !result.dependencies.deep_view()[i].is_ignored
        },
{
    let ghost all = tasks.deep_view();
    let ghost policy = licrc@;
    let bound = licrc.buffer_size();
    let mut executor = Executor::new(licrc.clone(), tasks, bound);
    loop
        invariant
            executor@.well_formed(),
            executor@.tasks == all,
            all == tasks.deep_view(),
            executor@.policy == policy,
            executor@.bound == bound,
            bound == policy.buffer_size(),
            policy == licrc@,
            executor@.in_flight.len() == 0,
            executor@.records.len() == executor@.next,
            bound == 0 ==> forall|j: int| 0 <= j < executor@.next ==> !(#[trigger] all[j] is Retrieve),
            forall|j: int|
                0 <= j < executor@.records.len() ==> judged(
                    retriever,
                    policy,
                    #[trigger] all[j],
                    executor@.records[j],
                ),
        ensures
            executor@.finished(),
            executor@.tasks == all,
            executor@.records.len() == all.len(),
            bound == 0 ==> !lookup_due(all),
            forall|j: int|
                0 <= j < executor@.records.len() ==> judged(
                    retriever,
                    policy,
                    #[trigger] all[j],
                    executor@.records[j],
                ),
        decreases all.len() - executor@.next,
    {
        let ghost before = executor@;
        match executor.step() {
            Step::Start { ticket, dependency } => {
                let name = dependency.name.as_str();
                let version = dependency.version.as_str();
                let record = retriever.get_dependency(name, version);
                proof {
                    lemma_validation_only_judges(policy, record@);
                    assert(executor@.in_flight =~= seq![ticket]);
                    assert(executor@.in_flight.remove(0) =~= Seq::<usize>::empty());
                    assert(call_ensures(R::get_dependency, (retriever, name, version), record));
                    assert(looked_up(retriever, dependency@, record));
                }
                executor.complete(ticket, record);
            },
            Step::Yielded => {},
            Step::Wait => {
                // No lookup is under way here, so there is none to wait for.
                return None;
            },
            Step::Stalled => {
                assert(all[before.next as int] is Retrieve);
                return None;
            },
            Step::Finished => {
                break ;
            },
        }
    }
    let dependencies = executor.into_records();
    proof {
        if all_pass(all, policy) && gives_fresh_records(retriever, all) {
            assert forall|i: int| 0 <= i < all.len() implies (
            #[trigger] dependencies.deep_view()[i]).validated
                && !dependencies.deep_view()[i].is_ignored by {
                assert(all[i].passes(policy));
                lemma_run_agrees_with_filter(retriever, policy, all[i], dependencies.deep_view()[i]);
            }
        }
    }
    Some(RunResult { licrc, dependencies })
}

} // verus!
