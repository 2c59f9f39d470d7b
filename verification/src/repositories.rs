//! Adding and removing a repository: what is decided before and after the
//! settings are written.
use vstd::prelude::*;
use crate::cache::PackagesState;
use crate::download::{parse_repository_url, parsed_url};
use crate::package::{text_of, RepositoryIdentity};

verus! {

/// How adding a repository ended.
#[derive(Clone, Copy, Debug, PartialEq, Eq, Structural)]
pub enum TauriAddRepositoryResult {
    BadUrl,
    Success,
}

/// What is to be done to add a repository: nothing more, or the adding of
/// the repository at `url`.
#[derive(Debug, PartialEq, Eq)]
pub enum AddRepositoryStep {
    Finished(TauriAddRepositoryResult),
    Add { url: String },
}

/// The model of an [`AddRepositoryStep`].
pub enum AddRepositoryStepView {
    Finished(TauriAddRepositoryResult),
    Add { url: Seq<char> },
}

impl View for AddRepositoryStep {
    type V = AddRepositoryStepView;

    open spec fn view(&self) -> AddRepositoryStepView {
        match self {
            AddRepositoryStep::Finished(result) => AddRepositoryStepView::Finished(*result),
            AddRepositoryStep::Add { url } => AddRepositoryStepView::Add { url: url@ },
        }
    }
}

/// The step for a URL text after parsing: `BadUrl` for a text that is no
/// URL, else the adding of the URL.
pub open spec fn add_repository_step(parsed: Option<Seq<char>>) -> AddRepositoryStepView {
    match parsed {
        None => AddRepositoryStepView::Finished(TauriAddRepositoryResult::BadUrl),
        Some(url) => AddRepositoryStepView::Add { url },
    }
}

/// Decides from the result of parsing whether a repository is to be added.
pub fn plan_add_repository(parsed: Option<String>) -> (step: AddRepositoryStep)
    ensures
        step@ == add_repository_step(text_of(parsed)),
{
    match parsed {
        None => AddRepositoryStep::Finished(TauriAddRepositoryResult::BadUrl),
        Some(url) => AddRepositoryStep::Add { url },
    }
}

/// The first half of adding a repository: parses `url`. Nothing is added,
/// and nothing requested, for a text that is no URL.
pub fn environment_add_repository(url: &String) -> (step: AddRepositoryStep)
    ensures
        step@ == add_repository_step(parsed_url(url@)),
{
    plan_add_repository(parse_repository_url(url))
}

/// The second half of adding repositories, once they are added and the
/// settings are written: empties the cache of packages, so that the next
/// load reads the new repositories.
pub fn repositories_changed(packages: &mut PackagesState) -> (result: TauriAddRepositoryResult)
    ensures
        result == TauriAddRepositoryResult::Success,
        final(packages)@ == old(packages)@.clear_cache(),
{
    packages.clear_cache();
    TauriAddRepositoryResult::Success
}

/// Whether a stored repository is the one to remove: it is where it has the
/// id `id`.
pub fn environment_remove_repository(repo: &RepositoryIdentity, id: &String) -> (remove: bool)
    ensures
        remove == (repo@.id == Some(id@)),
{
    match &repo.id {
        Some(own) => *own == *id,
        None => false,
    }
}

} // verus!
