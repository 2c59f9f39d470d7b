//! An import of many repositories at once: keeping the outcomes in the order
//! of the list, reporting each, and telling duplicates within the list.
use vstd::prelude::*;
use crate::download::{DownloadView, TauriDownloadRepository};
use crate::import::{descriptor_views, DescriptorView, TauriRepositoryDescriptor};
use crate::progress::{ProgressCounter, ProgressView};
use crate::string_set::StringSet;

verus! {

/// The id under which an outcome holds a repository, if it holds one.
pub open spec fn success_id(outcome: DownloadView) -> Option<Seq<char>> {
    match outcome {
        DownloadView::Success { value } => Some(value.id),
        _ => None,
    }
}

/// `id` is taken before place `count` of a list: it was known beforehand,
/// or an earlier place of the list holds a repository with that id.
pub open spec fn taken_before(
    outcomes: Seq<DownloadView>,
    known_ids: Set<Seq<char>>,
    count: int,
    id: Seq<char>,
) -> bool {
    known_ids.contains(id) || exists|j: int|
        0 <= j < count && j < outcomes.len() && success_id(#[trigger] outcomes[j]) == Some(id)
}

/// The ids that are taken before place `count` of a list.
spec fn taken_ids(
    outcomes: Seq<DownloadView>,
    known_ids: Set<Seq<char>>,
    count: int,
) -> Set<Seq<char>> {
    Set::new(|id: Seq<char>| taken_before(outcomes, known_ids, count, id))
}

/// One place further, the id of the repository at the place is taken too,
/// if a repository is there.
proof fn lemma_taken_ids_next(outcomes: Seq<DownloadView>, known_ids: Set<Seq<char>>, count: int)
    requires
        0 <= count < outcomes.len(),
    ensures
        taken_ids(outcomes, known_ids, count + 1) == match success_id(outcomes[count]) {
            Some(id) => taken_ids(outcomes, known_ids, count).insert(id),
            None => taken_ids(outcomes, known_ids, count),
        },
{
}

/// The outcome at place `i` of a list once duplicates within the list are
/// told: a repository whose id is taken before `i` is a duplicate, every
/// other outcome stays.
pub open spec fn batch_outcome(
    outcomes: Seq<DownloadView>,
    known_ids: Set<Seq<char>>,
    i: int,
) -> DownloadView {
    match success_id(outcomes[i]) {
        Some(id) => if taken_before(outcomes, known_ids, i, id) {
            DownloadView::Duplicated
        } else {
            outcomes[i]
        },
        None => outcomes[i],
    }
}

/// The outcomes of a list of results, in order.
pub open spec fn outcome_views(
    results: Seq<(TauriRepositoryDescriptor, TauriDownloadRepository)>,
) -> Seq<DownloadView> {
    results.map_values(|result: (TauriRepositoryDescriptor, TauriDownloadRepository)| result.1@)
}

/// The last step of an import, once every repository of the list has its
/// outcome: walks the results in the order of the list and turns into
/// `Duplicated` every repository whose id was known beforehand or stands
/// earlier in the list. What comes out depends on the order of the list
/// alone, not on the order in which the requests ended.
pub fn environment_import_download_repositories(
    results: Vec<(TauriRepositoryDescriptor, TauriDownloadRepository)>,
    user_repo_ids: StringSet,
) -> (deduplicated: Vec<(TauriRepositoryDescriptor, TauriDownloadRepository)>)
    ensures
        deduplicated.len() == results.len(),
        forall|i: int|
            0 <= i < results.len() ==> (#[trigger] deduplicated[i]).0 == results[i].0
                && deduplicated[i].1@ == batch_outcome(
                outcome_views(results@),
                user_repo_ids@,
                i,
            ),
{
    let ghost outcomes = outcome_views(results@);
    let ghost known_ids = user_repo_ids@;
    let mut seen = user_repo_ids;
    let mut deduplicated: Vec<(TauriRepositoryDescriptor, TauriDownloadRepository)> = Vec::new();
    for result in iter: results.into_iter()
        invariant
            outcomes == outcome_views(results@),
            iter.seq() == results@,
            deduplicated.len() == iter.index(),
            seen@ == taken_ids(outcomes, known_ids, iter.index() as int),
            forall|i: int|
                0 <= i < iter.index() ==> (#[trigger] deduplicated[i]).0 == results[i].0
                    && deduplicated[i].1@ == batch_outcome(outcomes, known_ids, i),
    {
        proof {
            lemma_taken_ids_next(outcomes, known_ids, iter.index() as int);
        }
        let (descriptor, downloaded) = result;
        let downloaded = match downloaded {
            TauriDownloadRepository::Success { value } => {
                if seen.contains(&value.id) {
                    TauriDownloadRepository::Duplicated
                } else {
                    seen.insert(value.id.clone());
                    TauriDownloadRepository::Success { value }
                }
            },
            other => other,
        };
        deduplicated.push((descriptor, downloaded));
    }
    deduplicated
}

/// Where two repositories of a list share an id, the later one comes out as
/// a duplicate, whatever was known beforehand.
pub proof fn law_later_of_an_id_is_duplicate(
    outcomes: Seq<DownloadView>,
    known_ids: Set<Seq<char>>,
    earlier: int,
    later: int,
)
    requires
        0 <= earlier < later < outcomes.len(),
        success_id(outcomes[earlier]) is Some,
        success_id(outcomes[earlier]) == success_id(outcomes[later]),
    ensures
        batch_outcome(outcomes, known_ids, later) == DownloadView::Duplicated,
{
}

/// Of the repositories of a list that share an id which was not known
/// beforehand, exactly one stays: the earliest in the list. It comes out as
/// it went in, and no other place of the list holds a repository with that
/// id afterwards.
pub proof fn law_first_of_an_id_stays(
    outcomes: Seq<DownloadView>,
    known_ids: Set<Seq<char>>,
    id: Seq<char>,
    first: int,
)
    requires
        0 <= first < outcomes.len(),
        success_id(outcomes[first]) == Some(id),
        forall|j: int| 0 <= j < first ==> success_id(outcomes[j]) != Some(id),
        !known_ids.contains(id),
    ensures
        batch_outcome(outcomes, known_ids, first) == outcomes[first],
        forall|k: int|
            0 <= k < outcomes.len() && k != first ==> success_id(
                #[trigger] batch_outcome(outcomes, known_ids, k),
            ) != Some(id),
{
}

/// The model of a [`BatchImport`]: the repositories of the list, the outcome
/// of each once it has one, the ids that were known when the import began,
/// and the counter.
pub struct BatchView {
    pub repositories: Seq<DescriptorView>,
    pub outcomes: Seq<Option<DownloadView>>,
    pub known_ids: Set<Seq<char>>,
    pub progress: ProgressView,
}

impl BatchView {
    /// The import of `repositories` before any of them has its outcome.
    pub open spec fn start(repositories: Seq<DescriptorView>, known_ids: Set<Seq<char>>) -> BatchView {
        BatchView {
            repositories,
            outcomes: Seq::new(repositories.len(), |i: int| None::<DownloadView>),
            known_ids,
            progress: ProgressView::start(repositories.len()),
        }
    }

    /// The place `index` is one of the list and has no outcome yet.
    pub open spec fn awaits(self, index: int) -> bool {
        0 <= index < self.outcomes.len() && self.outcomes[index] is None
    }

    /// The import after the repository at `index` got its outcome. An
    /// outcome for a place that has one, or for no place of the list,
    /// changes nothing.
    pub open spec fn complete(self, index: int, outcome: DownloadView) -> BatchView {
        if self.awaits(index) {
            BatchView {
                repositories: self.repositories,
                outcomes: self.outcomes.update(index, Some(outcome)),
                known_ids: self.known_ids,
                progress: self.progress.complete_one(),
            }
        } else {
            self
        }
    }

    /// How many of `outcomes` are there.
    pub open spec fn count_recorded(outcomes: Seq<Option<DownloadView>>) -> nat
        decreases outcomes.len(),
    {
        if outcomes.len() == 0 {
            0
        } else if outcomes.last() is Some {
            BatchView::count_recorded(outcomes.drop_last()) + 1
        } else {
            BatchView::count_recorded(outcomes.drop_last())
        }
    }

    /// What holds of an import at every moment: each repository of the list
    /// has its place for an outcome; the counter is that of the list, it
    /// stands at the number of outcomes that are there, and the values
    /// reported so far are 1, 2, 3 and so on up to that number.
    pub open spec fn wf(self) -> bool {
        &&& self.outcomes.len() == self.repositories.len()
        &&& self.progress.total == self.outcomes.len()
        &&& self.progress.completed == BatchView::count_recorded(self.outcomes)
        &&& self.progress.emitted.len() == self.progress.completed
        &&& forall|i: int|
            0 <= i < self.progress.emitted.len() ==> self.progress.emitted[i] == i + 1
    }

    /// Every repository of the list has its outcome.
    pub open spec fn is_complete(self) -> bool {
        forall|i: int| 0 <= i < self.outcomes.len() ==> (#[trigger] self.outcomes[i]) is Some
    }

    /// The outcomes as they were recorded, in the order of the list.
    pub open spec fn recorded(self) -> Seq<DownloadView> {
        Seq::new(self.outcomes.len(), |i: int| self.outcomes[i]->Some_0)
    }
}

/// An import of a list of repositories under way. It keeps the list in the
/// order in which it was handed in, whatever the order in which the outcomes
/// arrive, and gives the outcomes out only when all are there.
pub struct BatchImport {
    entries: Vec<(TauriRepositoryDescriptor, Option<TauriDownloadRepository>)>,
    known_ids: StringSet,
    progress: ProgressCounter,
}

/// The model of an outcome that may be missing.
pub open spec fn outcome_view(outcome: Option<TauriDownloadRepository>) -> Option<DownloadView> {
    match outcome {
        Some(outcome) => Some(outcome@),
        None => None,
    }
}

/// The repositories of the entries of an import, in order.
pub open spec fn entry_descriptors(
    entries: Seq<(TauriRepositoryDescriptor, Option<TauriDownloadRepository>)>,
) -> Seq<DescriptorView> {
    entries.map_values(
        |entry: (TauriRepositoryDescriptor, Option<TauriDownloadRepository>)| entry.0@,
    )
}

/// The outcomes of the entries of an import, in order.
pub open spec fn entry_outcomes(
    entries: Seq<(TauriRepositoryDescriptor, Option<TauriDownloadRepository>)>,
) -> Seq<Option<DownloadView>> {
    entries.map_values(
        |entry: (TauriRepositoryDescriptor, Option<TauriDownloadRepository>)|
            outcome_view(entry.1),
    )
}

impl View for BatchImport {
    type V = BatchView;

    closed spec fn view(&self) -> BatchView {
        BatchView {
            repositories: entry_descriptors(self.entries@),
            outcomes: entry_outcomes(self.entries@),
            known_ids: self.known_ids@,
            progress: self.progress@,
        }
    }
}

impl BatchImport {
    /// Begins the import of `repositories`. `user_repo_ids` are the ids
    /// that are present now: they are read once, here.
    pub fn new(repositories: Vec<TauriRepositoryDescriptor>, user_repo_ids: StringSet) -> (batch:
        BatchImport)
        ensures
            batch@ == BatchView::start(descriptor_views(repositories@), user_repo_ids@),
            batch@.wf(),
    {
        let progress = ProgressCounter::new(repositories.len());
        let mut entries: Vec<(TauriRepositoryDescriptor, Option<TauriDownloadRepository>)> =
            Vec::new();
        for descriptor in iter: repositories.into_iter()
            invariant
                iter.seq() == repositories@,
                entries.len() == iter.index(),
                forall|j: int|
                    0 <= j < iter.index() ==> (#[trigger] entries[j]).0 == repositories[j]
                        && entries[j].1 is None,
        {
            entries.push((descriptor, None));
        }
        let batch = BatchImport { entries, known_ids: user_repo_ids, progress };
        assert(batch@.repositories =~= descriptor_views(repositories@));
        assert(batch@.outcomes =~= Seq::new(
            descriptor_views(repositories@).len(),
            |i: int| None::<DownloadView>,
        ));
        proof {
            lemma_none_recorded(batch@.outcomes);
        }
        batch
    }

    /// Records the outcome of the repository at `index` and hands back the
    /// value to report: how many repositories have their outcome now.
    /// `None`, and nothing recorded or reported, where `index` is no place
    /// of the list or has its outcome already.
    pub fn complete(&mut self, index: usize, outcome: TauriDownloadRepository) -> (progress: Option<
        usize,
    >)
        ensures
            final(self)@ == old(self)@.complete(index as int, outcome@),
            progress == if old(self)@.awaits(index as int) && old(self)@.progress.completed < old(
                self,
            )@.progress.total {
                Some((old(self)@.progress.completed + 1) as usize)
            } else {
                None::<usize>
            },
            old(self)@.wf() ==> final(self)@.wf() && (progress is Some <==> old(self)@.awaits(
                index as int,
            )),
    {
        proof {
            if self@.wf() {
                law_batch_reports_each_outcome_once(self@, index as int, outcome@);
            }
        }
        if index < self.entries.len() && self.entries[index].1.is_none() {
            let ghost before = self.entries@;
            self.entries[index].1 = Some(outcome);
            assert(entry_outcomes(self.entries@) =~= entry_outcomes(before).update(
                index as int,
                Some(outcome@),
            ));
            assert(entry_descriptors(self.entries@) =~= entry_descriptors(before));
            self.progress.complete_one()
        } else {
            None
        }
    }

    /// Ends the import. While a repository of the list lacks its outcome
    /// there is no result, not even a partial one. Else the result is the
    /// list in the order in which it was handed in, each repository with
    /// its outcome, duplicates within the list told.
    pub fn finish(self) -> (results: Option<Vec<(TauriRepositoryDescriptor, TauriDownloadRepository)>>)
        ensures
            results is Some <==> self@.is_complete(),
            results is Some ==> results->Some_0.len() == self@.repositories.len(),
            results is Some ==> forall|i: int|
                0 <= i < self@.repositories.len() ==> (#[trigger] results->Some_0[i]).0@
                    == self@.repositories[i] && results->Some_0[i].1@ == batch_outcome(
                    self@.recorded(),
                    self@.known_ids,
                    i,
                ),
    {
        let ghost outcomes = self@.outcomes;
        let ghost all = self.entries@;
        let mut joined: Vec<(TauriRepositoryDescriptor, TauriDownloadRepository)> = Vec::new();
        for entry in iter: self.entries.into_iter()
            invariant
                iter.seq() == all,
                outcomes == entry_outcomes(all),
                joined.len() == iter.index(),
                forall|j: int|
                    0 <= j < iter.index() ==> (#[trigger] joined[j]).0 == all[j].0 && all[j].1
                        == Some(joined[j].1),
        {
            let (descriptor, outcome) = entry;
            match outcome {
                Some(outcome) => joined.push((descriptor, outcome)),
                None => {
                    assert(outcomes[iter.index() as int] is None);
                    return None;
                },
            }
        }
        proof {
            assert forall|i: int| 0 <= i < outcomes.len() implies (#[trigger] outcomes[i]) is Some by {
                assert(all[i].1 == Some(joined[i].1));
            }
            assert(outcome_views(joined@) =~= self@.recorded());
        }
        Some(environment_import_download_repositories(joined, self.known_ids))
    }
}

/// No more outcomes are there than places; as many, exactly when none is
/// missing.
proof fn lemma_count_recorded_bounds(outcomes: Seq<Option<DownloadView>>)
    ensures
        BatchView::count_recorded(outcomes) <= outcomes.len(),
        BatchView::count_recorded(outcomes) == outcomes.len() <==> forall|i: int|
            0 <= i < outcomes.len() ==> (#[trigger] outcomes[i]) is Some,
    decreases outcomes.len(),
{
    if outcomes.len() > 0 {
        let rest = outcomes.drop_last();
        lemma_count_recorded_bounds(rest);
        assert(forall|i: int| 0 <= i < rest.len() ==> rest[i] == outcomes[i]);
    }
}

/// An outcome put in a place that had none is one outcome more.
proof fn lemma_count_recorded_update(
    outcomes: Seq<Option<DownloadView>>,
    index: int,
    outcome: DownloadView,
)
    requires
        0 <= index < outcomes.len(),
        outcomes[index] is None,
    ensures
        BatchView::count_recorded(outcomes.update(index, Some(outcome)))
            == BatchView::count_recorded(outcomes) + 1,
    decreases outcomes.len(),
{
    let updated = outcomes.update(index, Some(outcome));
    if index == outcomes.len() - 1 {
        assert(updated.drop_last() =~= outcomes.drop_last());
    } else {
        lemma_count_recorded_update(outcomes.drop_last(), index, outcome);
        assert(updated.drop_last() =~= outcomes.drop_last().update(index, Some(outcome)));
    }
}

/// An import begins well-formed and every outcome keeps it so. In a
/// well-formed import each outcome that is recorded is reported, with the
/// number of outcomes that are there then; so the values reported are
/// strictly increasing, and the size of the list is reported exactly once:
/// with the outcome that makes the import complete.
pub proof fn law_batch_reports_each_outcome_once(
    batch: BatchView,
    index: int,
    outcome: DownloadView,
)
    requires
        batch.wf(),
    ensures
        BatchView::start(batch.repositories, batch.known_ids).wf(),
        batch.complete(index, outcome).wf(),
        batch.is_complete() <==> batch.progress.completed == batch.progress.total,
        batch.awaits(index) ==> batch.progress.completed < batch.progress.total
            && batch.complete(index, outcome).progress.emitted
            == batch.progress.emitted.push(batch.progress.completed + 1),
        forall|i: int, j: int|
            0 <= i < j < batch.progress.emitted.len() ==> batch.progress.emitted[i]
                < batch.progress.emitted[j],
        forall|i: int|
            0 <= i < batch.progress.emitted.len() && batch.progress.emitted[i]
                == batch.progress.total ==> batch.is_complete() && i == batch.progress.total - 1,
{
    lemma_none_recorded(BatchView::start(batch.repositories, batch.known_ids).outcomes);
    lemma_count_recorded_bounds(batch.outcomes);
    if batch.awaits(index) {
        lemma_count_recorded_update(batch.outcomes, index, outcome);
    }
}

/// Where every place lacks its outcome, no outcome is there.
proof fn lemma_none_recorded(outcomes: Seq<Option<DownloadView>>)
    requires
        forall|i: int| 0 <= i < outcomes.len() ==> (#[trigger] outcomes[i]) is None,
    ensures
        BatchView::count_recorded(outcomes) == 0,
    decreases outcomes.len(),
{
    if outcomes.len() > 0 {
        lemma_none_recorded(outcomes.drop_last());
    }
}

/// The order in which two repositories of a list get their outcomes does
/// not matter: the import is the same after both, and so is its result.
pub proof fn law_order_of_completion_does_not_matter(
    batch: BatchView,
    one: int,
    one_outcome: DownloadView,
    other: int,
    other_outcome: DownloadView,
)
    requires
        one != other,
    ensures
        batch.complete(one, one_outcome).complete(other, other_outcome) == batch.complete(
            other,
            other_outcome,
        ).complete(one, one_outcome),
{
    let left = batch.complete(one, one_outcome).complete(other, other_outcome);
    let right = batch.complete(other, other_outcome).complete(one, one_outcome);
    assert(left.outcomes =~= right.outcomes);
}

} // verus!
