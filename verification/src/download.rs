//! Fetching one repository: the checks before the request and the reading of
//! what came back.
use vstd::prelude::*;
use crate::package::{
    base_views, copy_packages, text_of, BasePackageView, IdentityView, RepositoryIdentity,
    TauriBasePackageInfo,
};
use crate::settings::{user_repo_urls, Settings};
use crate::string_set::StringSet;

verus! {

/// One package of a fetched repository, as far as its preview needs it: the
/// version that the package manager picks as the package's latest, where it
/// picks one.
#[derive(Debug, PartialEq, Eq)]
pub struct RemotePackages {
    pub latest: Option<TauriBasePackageInfo>,
}

/// What `latest` is in a model.
pub open spec fn latest_view(packages: RemotePackages) -> Option<BasePackageView> {
    match packages.latest {
        Some(package) => Some(package@),
        None => None,
    }
}

/// A fetched repository document: what it declares of itself, and its
/// packages in the order of the document.
#[derive(Debug, PartialEq, Eq)]
pub struct RemoteRepository {
    pub declared: RepositoryIdentity,
    pub packages: Vec<RemotePackages>,
}

/// The model of a [`RemoteRepository`].
pub struct RemoteRepositoryView {
    pub declared: IdentityView,
    pub latest: Seq<Option<BasePackageView>>,
}

impl View for RemoteRepository {
    type V = RemoteRepositoryView;

    open spec fn view(&self) -> RemoteRepositoryView {
        RemoteRepositoryView {
            declared: self.declared@,
            latest: latest_views(self.packages@),
        }
    }
}

/// A version is shown in a preview when it is not yanked.
pub open spec fn shown_in_preview(latest: Option<BasePackageView>) -> Option<BasePackageView> {
    match latest {
        Some(package) => if package.is_yanked {
            None
        } else {
            Some(package)
        },
        None => None,
    }
}

/// [`shown_in_preview`] as a function.
pub open spec fn shown() -> spec_fn(Option<BasePackageView>) -> Option<BasePackageView> {
    |package: Option<BasePackageView>| shown_in_preview(package)
}

/// The preview of a repository's packages: the latest version of each
/// package that has one and whose latest version is not yanked, in the order
/// of the document.
pub open spec fn preview_of(latest: Seq<Option<BasePackageView>>) -> Seq<BasePackageView> {
    latest.filter_map(shown())
}

/// The latest versions of the packages of a document, in its order.
pub open spec fn latest_views(packages: Seq<RemotePackages>) -> Seq<Option<BasePackageView>> {
    packages.map_values(|packages: RemotePackages| latest_view(packages))
}

/// A fetched repository as it is shown before it is added.
#[derive(Debug, PartialEq, Eq)]
pub struct TauriRemoteRepositoryInfo {
    pub display_name: String,
    pub id: String,
    pub url: String,
    pub packages: Vec<TauriBasePackageInfo>,
}

/// The model of a [`TauriRemoteRepositoryInfo`].
pub struct RemoteRepositoryInfoView {
    pub display_name: Seq<char>,
    pub id: Seq<char>,
    pub url: Seq<char>,
    pub packages: Seq<BasePackageView>,
}

impl View for TauriRemoteRepositoryInfo {
    type V = RemoteRepositoryInfoView;

    open spec fn view(&self) -> RemoteRepositoryInfoView {
        RemoteRepositoryInfoView {
            display_name: self.display_name@,
            id: self.id@,
            url: self.url@,
            packages: base_views(self.packages@),
        }
    }
}

impl Clone for TauriRemoteRepositoryInfo {
    fn clone(&self) -> (copy: Self)
        ensures
            copy@ == self@,
    {
        TauriRemoteRepositoryInfo {
            display_name: self.display_name.clone(),
            id: self.id.clone(),
            url: self.url.clone(),
            packages: copy_packages(&self.packages),
        }
    }
}

/// How the download of one repository ended.
#[derive(Debug, PartialEq, Eq)]
pub enum TauriDownloadRepository {
    BadUrl,
    Duplicated,
    DownloadError { message: String },
    Success { value: TauriRemoteRepositoryInfo },
}

/// The model of a [`TauriDownloadRepository`].
pub enum DownloadView {
    BadUrl,
    Duplicated,
    DownloadError { message: Seq<char> },
    Success { value: RemoteRepositoryInfoView },
}

impl View for TauriDownloadRepository {
    type V = DownloadView;

    open spec fn view(&self) -> DownloadView {
        match self {
            TauriDownloadRepository::BadUrl => DownloadView::BadUrl,
            TauriDownloadRepository::Duplicated => DownloadView::Duplicated,
            TauriDownloadRepository::DownloadError { message } => DownloadView::DownloadError {
                message: message@,
            },
            TauriDownloadRepository::Success { value } => DownloadView::Success { value: value@ },
        }
    }
}

impl Clone for TauriDownloadRepository {
    fn clone(&self) -> (copy: Self)
        ensures
            copy@ == self@,
    {
        match self {
            TauriDownloadRepository::BadUrl => TauriDownloadRepository::BadUrl,
            TauriDownloadRepository::Duplicated => TauriDownloadRepository::Duplicated,
            TauriDownloadRepository::DownloadError { message } => {
                TauriDownloadRepository::DownloadError { message: message.clone() }
            },
            TauriDownloadRepository::Success { value } => TauriDownloadRepository::Success {
                value: value.clone(),
            },
        }
    }
}

/// What is to be done for one repository after the checks that need no
/// request: nothing more, or the request for `url`.
#[derive(Debug, PartialEq, Eq)]
pub enum DownloadStep {
    Finished(TauriDownloadRepository),
    Fetch { url: String },
}

/// The model of a [`DownloadStep`].
pub enum DownloadStepView {
    Finished(DownloadView),
    Fetch { url: Seq<char> },
}

impl View for DownloadStep {
    type V = DownloadStepView;

    open spec fn view(&self) -> DownloadStepView {
        match self {
            DownloadStep::Finished(outcome) => DownloadStepView::Finished(outcome@),
            DownloadStep::Fetch { url } => DownloadStepView::Fetch { url: url@ },
        }
    }
}

/// What came back from a request: the document, or the message of the
/// failure.
pub type Fetched = Result<RemoteRepository, String>;

/// The model of a [`Fetched`].
pub open spec fn fetched_view(fetched: Fetched) -> Result<RemoteRepositoryView, Seq<char>> {
    match fetched {
        Ok(repository) => Ok(repository@),
        Err(message) => Err(message@),
    }
}

/// The serialisation of the URL that `url::Url::parse` reads `text` as, or
/// `None` where it takes `text` for no URL.
pub uninterp spec fn parsed_url(text: Seq<char>) -> Option<Seq<char>>;

/// Calls `url::Url::parse` on `text` and hands back the serialisation of the
/// URL it returns (`String::from`), or `None` where it returns an error. The
/// contract names that result: it is a function of `text` alone.
#[verifier::external_body]
fn parse_url(text: &str) -> (parsed: Option<String>)
    ensures
        text_of(parsed) == parsed_url(text@),
{
    match url::Url::parse(text) {
        Ok(url) => Some(String::from(url)),
        Err(_) => None,
    }
}

/// The step for a URL text after parsing: `BadUrl` for a text that is no
/// URL, `Duplicated` for a URL that is already known, else the request.
pub open spec fn download_step(
    parsed: Option<Seq<char>>,
    known_urls: Set<Seq<char>>,
) -> DownloadStepView {
    match parsed {
        None => DownloadStepView::Finished(DownloadView::BadUrl),
        Some(url) => if known_urls.contains(url) {
            DownloadStepView::Finished(DownloadView::Duplicated)
        } else {
            DownloadStepView::Fetch { url }
        },
    }
}

/// The outcome of a request for `fetch_url`: the failure's message; or
/// `Duplicated` where the id that the document resolves to is known; or the
/// repository under its resolved names, with the preview of its packages.
pub open spec fn download_outcome(
    fetched: Result<RemoteRepositoryView, Seq<char>>,
    fetch_url: Seq<char>,
    known_ids: Set<Seq<char>>,
) -> DownloadView {
    match fetched {
        Err(message) => DownloadView::DownloadError { message },
        Ok(repository) => if known_ids.contains(repository.declared.resolved_id(fetch_url)) {
            DownloadView::Duplicated
        } else {
            DownloadView::Success {
                value: RemoteRepositoryInfoView {
                    display_name: repository.declared.resolved_display_name(fetch_url),
                    id: repository.declared.resolved_id(fetch_url),
                    url: repository.declared.resolved_url(fetch_url),
                    packages: preview_of(repository.latest),
                },
            }
        },
    }
}

/// Parses the text of a repository URL. `Some` holds the URL in its
/// serialised form, which is what known URLs are compared with.
pub fn parse_repository_url(text: &String) -> (parsed: Option<String>)
    ensures
        text_of(parsed) == parsed_url(text@),
{
    parse_url(text.as_str())
}

/// Decides, from the result of parsing and the known URLs, whether a request
/// is to be made. Nothing is requested for a text that is no URL, nor for a
/// URL that is already known.
pub fn plan_download(parsed: Option<String>, user_repo_urls: &StringSet) -> (step: DownloadStep)
    ensures
        step@ == download_step(text_of(parsed), user_repo_urls@),
        parsed is None ==> step@ == DownloadStepView::Finished(DownloadView::BadUrl),
        parsed is Some && user_repo_urls@.contains(parsed->Some_0@) ==> step@
            == DownloadStepView::Finished(DownloadView::Duplicated),
        step is Fetch <==> parsed is Some && !user_repo_urls@.contains(parsed->Some_0@),
{
    match parsed {
        None => DownloadStep::Finished(TauriDownloadRepository::BadUrl),
        Some(url) => {
            if user_repo_urls.contains(&url) {
                DownloadStep::Finished(TauriDownloadRepository::Duplicated)
            } else {
                DownloadStep::Fetch { url }
            }
        },
    }
}

/// The first half of a download: parses `repository_url` and checks it
/// against the known URLs. A request is asked for only where the text is a
/// URL that is not known yet.
pub fn download_one_repository(repository_url: &String, user_repo_urls: &StringSet) -> (step:
    DownloadStep)
    ensures
        step@ == download_step(parsed_url(repository_url@), user_repo_urls@),
        parsed_url(repository_url@) is None ==> step@ == DownloadStepView::Finished(
            DownloadView::BadUrl,
        ),
        parsed_url(repository_url@) is Some && user_repo_urls@.contains(
            parsed_url(repository_url@)->Some_0,
        ) ==> step@ == DownloadStepView::Finished(DownloadView::Duplicated),
{
    plan_download(parse_repository_url(repository_url), user_repo_urls)
}

/// The first half of the download of the repository at `url`, under
/// `settings`: parses the text and checks it against the URLs that are
/// already present. A request is asked for only where the text is a URL
/// that is not present yet.
pub fn environment_download_repository(url: &String, settings: &Settings) -> (step: DownloadStep)
    ensures
        step@ == download_step(parsed_url(url@), settings@.known_urls()),
        parsed_url(url@) is None ==> step@ == DownloadStepView::Finished(DownloadView::BadUrl),
        parsed_url(url@) is Some && settings@.known_urls().contains(parsed_url(url@)->Some_0)
            ==> step@ == DownloadStepView::Finished(DownloadView::Duplicated),
{
    match parse_repository_url(url) {
        None => DownloadStep::Finished(TauriDownloadRepository::BadUrl),
        Some(url) => {
            let known = user_repo_urls(settings);
            plan_download(Some(url), &known)
        },
    }
}

/// The preview of the packages of a fetched repository.
pub fn preview_packages(packages: &Vec<RemotePackages>) -> (preview: Vec<TauriBasePackageInfo>)
    ensures
        base_views(preview@) == preview_of(latest_views(packages@)),
{
    let ghost latest = latest_views(packages@);
    let mut preview: Vec<TauriBasePackageInfo> = Vec::new();
    let mut i: usize = 0;
    while i < packages.len()
        invariant
            i <= packages.len(),
            latest == latest_views(packages@),
            base_views(preview@) == latest.take(i as int).filter_map(shown()),
        decreases packages.len() - i,
    {
        proof {
            latest.lemma_filter_map_take_succ(shown(), i as int);
        }
        match &packages[i].latest {
            Some(package) => {
                if !package.is_yanked {
                    preview.push(package.clone());
                }
            },
            None => {},
        }
        i = i + 1;
    }
    assert(latest.take(i as int) =~= latest);
    preview
}

/// The second half of a download: reads what the request for
/// `repository_url` brought. A failure is reported with its message; a
/// document whose resolved id is known is a duplicate; any other document is
/// shown under its resolved names with the preview of its packages.
pub fn complete_download(
    fetched: &Fetched,
    repository_url: &String,
    user_repo_ids: &StringSet,
) -> (outcome: TauriDownloadRepository)
    ensures
        outcome@ == download_outcome(fetched_view(*fetched), repository_url@, user_repo_ids@),
{
    match fetched {
        Err(message) => TauriDownloadRepository::DownloadError { message: message.clone() },
        Ok(repository) => {
            let resolved = repository.declared.resolve(repository_url);
            if user_repo_ids.contains(&resolved.id) {
                TauriDownloadRepository::Duplicated
            } else {
                TauriDownloadRepository::Success {
                    value: TauriRemoteRepositoryInfo {
                        display_name: resolved.display_name,
                        id: resolved.id,
                        url: resolved.url,
                        packages: preview_packages(&repository.packages),
                    },
                }
            }
        },
    }
}

} // verus!
