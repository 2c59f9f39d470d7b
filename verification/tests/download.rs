use vrc_get_repos::download::{
    complete_download, download_one_repository, environment_download_repository,
    parse_repository_url, plan_download, preview_packages, DownloadStep, RemotePackages,
    RemoteRepository, TauriDownloadRepository, TauriRemoteRepositoryInfo,
};
use vrc_get_repos::package::{RepositoryIdentity, TauriBasePackageInfo};
use vrc_get_repos::settings::{user_repo_ids, user_repo_urls, Settings};
use vrc_get_repos::string_set::StringSet;

fn text(value: &str) -> String {
    value.to_string()
}

fn version(name: &str, version: &str, is_yanked: bool) -> TauriBasePackageInfo {
    TauriBasePackageInfo { name: text(name), version: text(version), is_yanked }
}

fn declared(id: Option<&str>, url: Option<&str>, name: Option<&str>) -> RepositoryIdentity {
    RepositoryIdentity { id: id.map(text), url: url.map(text), name: name.map(text) }
}

fn set_of(values: &[&str]) -> StringSet {
    let mut set = StringSet::new();
    for value in values {
        set.insert(text(value));
    }
    set
}

fn document(id: Option<&str>, url: Option<&str>, name: Option<&str>) -> RemoteRepository {
    RemoteRepository { declared: declared(id, url, name), packages: vec![] }
}

#[test]
fn string_set_holds_what_was_inserted() {
    let mut set = StringSet::new();
    assert!(!set.contains(&text("a")));
    assert!(set.insert(text("a")));
    assert!(!set.insert(text("a")));
    assert!(set.insert(text("b")));
    assert!(set.contains(&text("a")));
    assert!(set.contains(&text("b")));
    assert!(!set.contains(&text("c")));
}

#[test]
fn url_is_parsed_to_its_serialisation() {
    assert_eq!(parse_repository_url(&text("https://example.com")), Some(text("https://example.com/")));
    assert_eq!(
        parse_repository_url(&text("HTTPS://Example.COM/a/../b?x=1")),
        Some(text("https://example.com/b?x=1"))
    );
}

#[test]
fn malformed_url_is_not_parsed() {
    assert_eq!(parse_repository_url(&text("not a url")), None);
    assert_eq!(parse_repository_url(&text("")), None);
    assert_eq!(parse_repository_url(&text("//missing.scheme/")), None);
}

#[test]
fn malformed_url_is_bad_url_without_request() {
    let known = set_of(&["https://a/repo"]);
    assert_eq!(
        download_one_repository(&text("not a url"), &known),
        DownloadStep::Finished(TauriDownloadRepository::BadUrl)
    );
    assert_eq!(plan_download(None, &known), DownloadStep::Finished(TauriDownloadRepository::BadUrl));
}

#[test]
fn known_url_is_duplicated_without_request() {
    let known = set_of(&["https://a/repo", "https://example.com/"]);
    assert_eq!(
        download_one_repository(&text("https://a/repo"), &known),
        DownloadStep::Finished(TauriDownloadRepository::Duplicated)
    );
    // the serialised URL is what is compared
    assert_eq!(
        download_one_repository(&text("https://example.com"), &known),
        DownloadStep::Finished(TauriDownloadRepository::Duplicated)
    );
}

#[test]
fn unknown_url_is_requested_in_serialised_form() {
    let known = set_of(&["https://a/repo"]);
    assert_eq!(
        download_one_repository(&text("https://example.com"), &known),
        DownloadStep::Fetch { url: text("https://example.com/") }
    );
    assert_eq!(
        plan_download(Some(text("https://b/repo")), &known),
        DownloadStep::Fetch { url: text("https://b/repo") }
    );
}

#[test]
fn download_under_settings_checks_stored_and_built_in_urls() {
    let settings = Settings {
        user_repos: vec![declared(Some("a.repo"), Some("https://a/repo"), None)],
        ignore_curated_repository: false,
        ignore_official_repository: true,
        show_prerelease_packages: false,
    };
    assert_eq!(
        environment_download_repository(&text("https://a/repo"), &settings),
        DownloadStep::Finished(TauriDownloadRepository::Duplicated)
    );
    assert_eq!(
        environment_download_repository(&text("https://packages.vrchat.com/curated?download"), &settings),
        DownloadStep::Finished(TauriDownloadRepository::Duplicated)
    );
    assert_eq!(
        environment_download_repository(&text("https://packages.vrchat.com/official?download"), &settings),
        DownloadStep::Fetch { url: text("https://packages.vrchat.com/official?download") }
    );
    assert_eq!(
        environment_download_repository(&text("::"), &settings),
        DownloadStep::Finished(TauriDownloadRepository::BadUrl)
    );
}

#[test]
fn id_collision_despite_distinct_url_is_duplicated() {
    let settings = Settings {
        user_repos: vec![declared(Some("a.repo"), Some("https://a/repo"), None)],
        ignore_curated_repository: true,
        ignore_official_repository: true,
        show_prerelease_packages: false,
    };
    let urls = user_repo_urls(&settings);
    let ids = user_repo_ids(&settings);
    let step = download_one_repository(&text("https://b/repo"), &urls);
    assert_eq!(step, DownloadStep::Fetch { url: text("https://b/repo") });
    let fetched = Ok(document(Some("a.repo"), None, Some("A")));
    assert_eq!(
        complete_download(&fetched, &text("https://b/repo"), &ids),
        TauriDownloadRepository::Duplicated
    );
}

#[test]
fn failed_request_is_reported_with_its_message() {
    let ids = set_of(&[]);
    let fetched = Err(text("connection refused"));
    assert_eq!(
        complete_download(&fetched, &text("https://b/repo"), &ids),
        TauriDownloadRepository::DownloadError { message: text("connection refused") }
    );
}

#[test]
fn fetched_repository_falls_back_to_fetch_url_and_id() {
    let ids = set_of(&["other"]);
    let fetched = Ok(document(None, None, None));
    assert_eq!(
        complete_download(&fetched, &text("https://b/repo"), &ids),
        TauriDownloadRepository::Success {
            value: TauriRemoteRepositoryInfo {
                display_name: text("https://b/repo"),
                id: text("https://b/repo"),
                url: text("https://b/repo"),
                packages: vec![],
            },
        }
    );
}

#[test]
fn fetched_repository_keeps_what_it_declares() {
    let ids = set_of(&["other"]);
    let fetched = Ok(document(Some("b.repo"), Some("https://mirror/b"), Some("B")));
    assert_eq!(
        complete_download(&fetched, &text("https://b/repo"), &ids),
        TauriDownloadRepository::Success {
            value: TauriRemoteRepositoryInfo {
                display_name: text("B"),
                id: text("b.repo"),
                url: text("https://mirror/b"),
                packages: vec![],
            },
        }
    );
    let fetched = Ok(document(Some("b.repo"), None, None));
    assert_eq!(
        complete_download(&fetched, &text("https://b/repo"), &ids),
        TauriDownloadRepository::Success {
            value: TauriRemoteRepositoryInfo {
                display_name: text("b.repo"),
                id: text("b.repo"),
                url: text("https://b/repo"),
                packages: vec![],
            },
        }
    );
}

#[test]
fn url_used_as_id_collides_with_known_id() {
    let ids = set_of(&["https://mirror/b"]);
    let fetched = Ok(document(None, Some("https://mirror/b"), None));
    assert_eq!(
        complete_download(&fetched, &text("https://b/repo"), &ids),
        TauriDownloadRepository::Duplicated
    );
}

#[test]
fn preview_leaves_out_yanked_and_missing_versions() {
    let packages = vec![
        RemotePackages { latest: Some(version("a", "1.0.0", false)) },
        RemotePackages { latest: None },
        RemotePackages { latest: Some(version("b", "2.0.0", true)) },
        RemotePackages { latest: Some(version("c", "0.3.0", false)) },
    ];
    assert_eq!(
        preview_packages(&packages),
        vec![version("a", "1.0.0", false), version("c", "0.3.0", false)]
    );
    assert_eq!(preview_packages(&vec![]), Vec::<TauriBasePackageInfo>::new());
}

#[test]
fn success_carries_the_preview() {
    let ids = set_of(&[]);
    let fetched = Ok(RemoteRepository {
        declared: declared(Some("x"), None, None),
        packages: vec![
            RemotePackages { latest: Some(version("b", "2.0.0", true)) },
            RemotePackages { latest: Some(version("a", "1.0.0", false)) },
        ],
    });
    assert_eq!(
        complete_download(&fetched, &text("https://x/"), &ids),
        TauriDownloadRepository::Success {
            value: TauriRemoteRepositoryInfo {
                display_name: text("x"),
                id: text("x"),
                url: text("https://x/"),
                packages: vec![version("a", "1.0.0", false)],
            },
        }
    );
}

#[test]
fn known_sets_hold_stored_and_built_in_repositories() {
    let settings = Settings {
        user_repos: vec![
            declared(Some("a.repo"), Some("https://a/repo"), None),
            declared(None, Some("https://b/repo"), Some("B")),
            declared(Some("local"), None, None),
        ],
        ignore_curated_repository: false,
        ignore_official_repository: false,
        show_prerelease_packages: true,
    };
    let urls = user_repo_urls(&settings);
    assert!(urls.contains(&text("https://a/repo")));
    assert!(urls.contains(&text("https://b/repo")));
    assert!(urls.contains(&text("https://packages.vrchat.com/curated?download")));
    assert!(urls.contains(&text("https://packages.vrchat.com/official?download")));
    assert!(!urls.contains(&text("a.repo")));
    assert!(!urls.contains(&text("https://c/repo")));
    let ids = user_repo_ids(&settings);
    assert!(ids.contains(&text("a.repo")));
    assert!(ids.contains(&text("local")));
    assert!(ids.contains(&text("com.vrchat.repos.curated")));
    assert!(ids.contains(&text("com.vrchat.repos.official")));
    assert!(!ids.contains(&text("https://b/repo")));
}

#[test]
fn ignored_built_in_repositories_are_not_known() {
    let settings = Settings {
        user_repos: vec![],
        ignore_curated_repository: true,
        ignore_official_repository: false,
        show_prerelease_packages: false,
    };
    let urls = user_repo_urls(&settings);
    assert!(!urls.contains(&text("https://packages.vrchat.com/curated?download")));
    assert!(urls.contains(&text("https://packages.vrchat.com/official?download")));
    let ids = user_repo_ids(&settings);
    assert!(!ids.contains(&text("com.vrchat.repos.curated")));
    assert!(ids.contains(&text("com.vrchat.repos.official")));
    let settings = Settings {
        user_repos: vec![],
        ignore_curated_repository: false,
        ignore_official_repository: true,
        show_prerelease_packages: false,
    };
    let urls = user_repo_urls(&settings);
    assert!(urls.contains(&text("https://packages.vrchat.com/curated?download")));
    assert!(!urls.contains(&text("https://packages.vrchat.com/official?download")));
    let ids = user_repo_ids(&settings);
    assert!(ids.contains(&text("com.vrchat.repos.curated")));
    assert!(!ids.contains(&text("com.vrchat.repos.official")));
}
