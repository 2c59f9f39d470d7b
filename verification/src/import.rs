//! Importing a list of repositories: reading the list and taking the first
//! step for each of its repositories.
use vstd::prelude::*;
use indexmap::IndexMap;
use crate::download::{download_one_repository, download_step, parsed_url, DownloadStep};
use crate::string_set::{texts, StringSet};

verus! {

/// `indexmap::IndexMap`, a map that keeps the order in which its keys were
/// put in. The headers of a request are carried in one; nothing here reads
/// them.
#[verifier::external_type_specification]
#[verifier::external_body]
#[verifier::reject_recursive_types(K)]
#[verifier::reject_recursive_types(V)]
#[verifier::reject_recursive_types(S)]
pub struct ExIndexMap<K, V, S>(IndexMap<K, V, S>);

/// The headers that an `IndexMap` of headers holds, each as its name and
/// its value, in the order in which they were put in.
pub uninterp spec fn header_pairs(headers: IndexMap<Box<str>, Box<str>>) -> Seq<
    (Seq<char>, Seq<char>),
>;

/// `IndexMap::clone`: the copy holds the same headers in the same order.
#[verifier::external_body]
fn copy_headers(headers: &IndexMap<Box<str>, Box<str>>) -> (copy: IndexMap<Box<str>, Box<str>>)
    ensures
        header_pairs(copy) == header_pairs(*headers),
{
    headers.clone()
}

/// A repository that the user wants to add: its URL and the headers to send
/// with the request. The headers keep their order, and no two of them have
/// the same name.
#[derive(Debug, PartialEq, Eq)]
pub struct TauriRepositoryDescriptor {
    pub url: String,
    pub headers: IndexMap<Box<str>, Box<str>>,
}

/// The model of a [`TauriRepositoryDescriptor`].
pub struct DescriptorView {
    pub url: Seq<char>,
    pub headers: Seq<(Seq<char>, Seq<char>)>,
}

impl View for TauriRepositoryDescriptor {
    type V = DescriptorView;

    open spec fn view(&self) -> DescriptorView {
        DescriptorView { url: self.url@, headers: header_pairs(self.headers) }
    }
}

impl Clone for TauriRepositoryDescriptor {
    fn clone(&self) -> (copy: Self)
        ensures
            copy@ == self@,
    {
        TauriRepositoryDescriptor { url: self.url.clone(), headers: copy_headers(&self.headers) }
    }
}

/// The models of a list of descriptors, in order.
pub open spec fn descriptor_views(repositories: Seq<TauriRepositoryDescriptor>) -> Seq<
    DescriptorView,
> {
    repositories.map_values(|repository: TauriRepositoryDescriptor| repository@)
}

/// What picking a list of repositories gave.
#[derive(Debug, PartialEq, Eq)]
pub enum TauriImportRepositoryPickResult {
    NoFilePicked,
    ParsedRepositories {
        repositories: Vec<TauriRepositoryDescriptor>,
        unparsable_lines: Vec<String>,
    },
}

/// The model of a [`TauriImportRepositoryPickResult`].
pub enum PickView {
    NoFilePicked,
    ParsedRepositories { repositories: Seq<DescriptorView>, unparsable_lines: Seq<Seq<char>> },
}

impl View for TauriImportRepositoryPickResult {
    type V = PickView;

    open spec fn view(&self) -> PickView {
        match self {
            TauriImportRepositoryPickResult::NoFilePicked => PickView::NoFilePicked,
            TauriImportRepositoryPickResult::ParsedRepositories {
                repositories,
                unparsable_lines,
            } => PickView::ParsedRepositories {
                repositories: descriptor_views(repositories@),
                unparsable_lines: texts(unparsable_lines@),
            },
        }
    }
}

/// What a list of repositories holds, as `RepositoriesFile::parse` of
/// `vrc_get_vpm` reads it: the repositories of the lines that could be read,
/// in order, and the lines that could not, in order.
pub uninterp spec fn repositories_file(text: Seq<char>) -> (Seq<DescriptorView>, Seq<Seq<char>>);

/// Calls `vrc_get_vpm::repositories_file::RepositoriesFile::parse` on `text`
/// and hands back its `repositories()`, each with the serialisation of its
/// URL and a copy of its headers, and its `unparseable_lines()`. The
/// contract names that result: it is a function of `text` alone.
#[verifier::external_body]
fn parse_repositories_file(text: &str) -> (parsed: (Vec<TauriRepositoryDescriptor>, Vec<String>))
    ensures
        descriptor_views(parsed.0@) == repositories_file(text@).0,
        texts(parsed.1@) == repositories_file(text@).1,
{
    let result = vrc_get_vpm::repositories_file::RepositoriesFile::parse(text);
    let repositories = result.parsed().repositories().iter().map(
        |x| TauriRepositoryDescriptor {
            url: x.url().to_string(),
            headers: x.headers().clone(),
        },
    ).collect();
    (repositories, result.unparseable_lines().to_vec())
}

/// The result of a pick, given what the list file was read to.
pub open spec fn pick_result(parsed: (Seq<DescriptorView>, Seq<Seq<char>>)) -> PickView {
    PickView::ParsedRepositories { repositories: parsed.0, unparsable_lines: parsed.1 }
}

/// Wraps the repositories and the unreadable lines of a list file as the
/// result of a pick.
pub fn parsed_repositories(
    repositories: Vec<TauriRepositoryDescriptor>,
    unparsable_lines: Vec<String>,
) -> (picked: TauriImportRepositoryPickResult)
    ensures
        picked@ == pick_result((descriptor_views(repositories@), texts(unparsable_lines@))),
{
    TauriImportRepositoryPickResult::ParsedRepositories { repositories, unparsable_lines }
}

/// Reads the list of repositories that the user picked. `file` is the text
/// of the picked file, or `None` where the user picked none. Lines that
/// could not be read are handed back for the user to see; they fail nothing.
pub fn environment_import_repository_pick(file: Option<String>) -> (picked:
    TauriImportRepositoryPickResult)
    ensures
        file is None ==> picked@ == PickView::NoFilePicked,
        file is Some ==> picked@ == pick_result(repositories_file(file->Some_0@)),
{
    match file {
        None => TauriImportRepositoryPickResult::NoFilePicked,
        Some(text) => {
            let parsed = parse_repositories_file(text.as_str());
            parsed_repositories(parsed.0, parsed.1)
        },
    }
}

/// The first step for every repository of a list, in order: each URL is
/// parsed and checked against the known URLs.
pub fn plan_import(repositories: &Vec<TauriRepositoryDescriptor>, user_repo_urls: &StringSet) -> (steps:
    Vec<DownloadStep>)
    ensures
        steps.len() == repositories.len(),
        forall|i: int|
            0 <= i < repositories.len() ==> (#[trigger] steps[i])@ == download_step(
                parsed_url(repositories[i].url@),
                user_repo_urls@,
            ),
{
    let mut steps: Vec<DownloadStep> = Vec::new();
    let mut i: usize = 0;
    while i < repositories.len()
        invariant
            i <= repositories.len(),
            steps.len() == i,
            forall|j: int|
                0 <= j < i ==> (#[trigger] steps[j])@ == download_step(
                    parsed_url(repositories[j].url@),
                    user_repo_urls@,
                ),
        decreases repositories.len() - i,
    {
        steps.push(download_one_repository(&repositories[i].url, user_repo_urls));
        i = i + 1;
    }
    steps
}

} // verus!
