use vrc_get_repos::download::{DownloadStep, TauriDownloadRepository, TauriRemoteRepositoryInfo};
use indexmap::IndexMap;
use vrc_get_repos::batch::{environment_import_download_repositories, BatchImport};
use vrc_get_repos::import::{
    environment_import_repository_pick, plan_import, TauriImportRepositoryPickResult,
    TauriRepositoryDescriptor,
};
use vrc_get_repos::progress::ProgressCounter;
use vrc_get_repos::string_set::StringSet;

fn text(value: &str) -> String {
    value.to_string()
}

fn headers(pairs: &[(&str, &str)]) -> IndexMap<Box<str>, Box<str>> {
    pairs.iter().map(|(name, value)| ((*name).into(), (*value).into())).collect()
}

fn descriptor(url: &str) -> TauriRepositoryDescriptor {
    TauriRepositoryDescriptor { url: text(url), headers: IndexMap::new() }
}

fn success(id: &str, url: &str) -> TauriDownloadRepository {
    TauriDownloadRepository::Success {
        value: TauriRemoteRepositoryInfo {
            display_name: text(id),
            id: text(id),
            url: text(url),
            packages: vec![],
        },
    }
}

fn set_of(values: &[&str]) -> StringSet {
    let mut set = StringSet::new();
    for value in values {
        set.insert(text(value));
    }
    set
}

#[test]
fn second_of_two_with_one_id_becomes_duplicated() {
    let results = vec![
        (descriptor("https://one/"), success("x", "https://one/")),
        (descriptor("https://two/"), success("x", "https://two/")),
    ];
    let out = environment_import_download_repositories(results, set_of(&[]));
    assert_eq!(
        out,
        vec![
            (descriptor("https://one/"), success("x", "https://one/")),
            (descriptor("https://two/"), TauriDownloadRepository::Duplicated),
        ]
    );
}

#[test]
fn only_the_earliest_of_an_id_stays() {
    let results = vec![
        (descriptor("https://0/"), TauriDownloadRepository::BadUrl),
        (descriptor("https://1/"), success("x", "https://1/")),
        (descriptor("https://2/"), success("y", "https://2/")),
        (descriptor("https://3/"), success("x", "https://3/")),
        (descriptor("https://4/"), TauriDownloadRepository::DownloadError { message: text("boom") }),
        (descriptor("https://5/"), success("x", "https://5/")),
        (descriptor("https://6/"), success("y", "https://6/")),
        (descriptor("https://7/"), TauriDownloadRepository::Duplicated),
    ];
    let out = environment_import_download_repositories(results, set_of(&["z"]));
    assert_eq!(
        out,
        vec![
            (descriptor("https://0/"), TauriDownloadRepository::BadUrl),
            (descriptor("https://1/"), success("x", "https://1/")),
            (descriptor("https://2/"), success("y", "https://2/")),
            (descriptor("https://3/"), TauriDownloadRepository::Duplicated),
            (descriptor("https://4/"), TauriDownloadRepository::DownloadError { message: text("boom") }),
            (descriptor("https://5/"), TauriDownloadRepository::Duplicated),
            (descriptor("https://6/"), TauriDownloadRepository::Duplicated),
            (descriptor("https://7/"), TauriDownloadRepository::Duplicated),
        ]
    );
}

#[test]
fn known_id_is_duplicated_at_every_place() {
    let results = vec![
        (descriptor("https://1/"), success("z", "https://1/")),
        (descriptor("https://2/"), success("z", "https://2/")),
    ];
    let out = environment_import_download_repositories(results, set_of(&["z"]));
    assert_eq!(
        out,
        vec![
            (descriptor("https://1/"), TauriDownloadRepository::Duplicated),
            (descriptor("https://2/"), TauriDownloadRepository::Duplicated),
        ]
    );
}

#[test]
fn empty_batch_stays_empty() {
    let out = environment_import_download_repositories(vec![], set_of(&["z"]));
    assert!(out.is_empty());
}

#[test]
fn descriptors_keep_their_headers() {
    let with_headers = TauriRepositoryDescriptor {
        url: text("https://one/"),
        headers: headers(&[("Authorization", "Bearer abc"), ("Accept", "application/json")]),
    };
    let results = vec![(with_headers.clone(), success("x", "https://one/"))];
    let out = environment_import_download_repositories(results, set_of(&[]));
    assert_eq!(out[0].0, with_headers);
    assert_eq!(
        out[0].0.headers.iter().map(|(name, value)| (&**name, &**value)).collect::<Vec<_>>(),
        vec![("Authorization", "Bearer abc"), ("Accept", "application/json")]
    );
    assert_eq!(out[0].1, success("x", "https://one/"));
}

#[test]
fn every_entry_of_a_batch_is_planned() {
    let repositories = vec![
        descriptor("https://known/"),
        descriptor("not a url"),
        descriptor("https://new.example"),
    ];
    let steps = plan_import(&repositories, &set_of(&["https://known/"]));
    assert_eq!(
        steps,
        vec![
            DownloadStep::Finished(TauriDownloadRepository::Duplicated),
            DownloadStep::Finished(TauriDownloadRepository::BadUrl),
            DownloadStep::Fetch { url: text("https://new.example/") },
        ]
    );
}

#[test]
fn progress_counts_up_to_the_batch_size_once() {
    let mut counter = ProgressCounter::new(3);
    assert_eq!(counter.completed(), 0);
    assert_eq!(counter.complete_one(), Some(1));
    assert_eq!(counter.complete_one(), Some(2));
    assert_eq!(counter.completed(), 2);
    assert_eq!(counter.complete_one(), Some(3));
    assert_eq!(counter.complete_one(), None);
    assert_eq!(counter.completed(), 3);
}

#[test]
fn progress_of_an_empty_batch_reports_nothing() {
    let mut counter = ProgressCounter::new(0);
    assert_eq!(counter.complete_one(), None);
    assert_eq!(counter.completed(), 0);
}

#[test]
fn no_file_picked() {
    assert_eq!(environment_import_repository_pick(None), TauriImportRepositoryPickResult::NoFilePicked);
}

#[test]
fn picked_file_is_split_into_repositories_and_unreadable_lines() {
    let file = "# my repositories\n\
        https://example.com/index.json   # trailing comment\n\
        \n\
        vcc://vpm/addRepo?url=https%3A%2F%2Fexample.org%2Frepo.json&headers[]=Authorization:Bearer%20abc\n\
        not a url\n\
        ftp://example.com/x\n";
    assert_eq!(
        environment_import_repository_pick(Some(text(file))),
        TauriImportRepositoryPickResult::ParsedRepositories {
            repositories: vec![
                descriptor("https://example.com/index.json"),
                TauriRepositoryDescriptor {
                    url: text("https://example.org/repo.json"),
                    headers: headers(&[("Authorization", "Bearer abc")]),
                },
            ],
            unparsable_lines: vec![text("not a url"), text("ftp://example.com/x")],
        }
    );
}

#[test]
fn picked_empty_file_has_nothing() {
    assert_eq!(
        environment_import_repository_pick(Some(text(""))),
        TauriImportRepositoryPickResult::ParsedRepositories {
            repositories: vec![],
            unparsable_lines: vec![],
        }
    );
}

#[test]
fn batch_reports_each_outcome_and_restores_the_order_of_the_list() {
    let repositories = vec![descriptor("https://0/"), descriptor("https://1/"), descriptor("https://2/")];
    let mut batch = BatchImport::new(repositories, set_of(&[]));
    // the requests end in another order than the list has
    assert_eq!(batch.complete(2, success("x", "https://2/")), Some(1));
    assert_eq!(batch.complete(0, success("x", "https://0/")), Some(2));
    assert_eq!(batch.complete(1, TauriDownloadRepository::BadUrl), Some(3));
    assert_eq!(
        batch.finish(),
        Some(vec![
            (descriptor("https://0/"), success("x", "https://0/")),
            (descriptor("https://1/"), TauriDownloadRepository::BadUrl),
            (descriptor("https://2/"), TauriDownloadRepository::Duplicated),
        ])
    );
}

#[test]
fn batch_records_each_place_once() {
    let mut batch = BatchImport::new(vec![descriptor("https://0/"), descriptor("https://1/")], set_of(&[]));
    assert_eq!(batch.complete(1, TauriDownloadRepository::BadUrl), Some(1));
    assert_eq!(batch.complete(1, success("x", "https://1/")), None);
    assert_eq!(batch.complete(2, success("x", "https://2/")), None);
    assert_eq!(batch.complete(0, success("y", "https://0/")), Some(2));
    assert_eq!(
        batch.finish(),
        Some(vec![
            (descriptor("https://0/"), success("y", "https://0/")),
            (descriptor("https://1/"), TauriDownloadRepository::BadUrl),
        ])
    );
}

#[test]
fn unfinished_batch_has_no_partial_result() {
    let mut batch = BatchImport::new(vec![descriptor("https://0/"), descriptor("https://1/")], set_of(&[]));
    assert_eq!(batch.complete(0, success("y", "https://0/")), Some(1));
    assert_eq!(batch.finish(), None);
    let untouched = BatchImport::new(vec![descriptor("https://0/")], set_of(&[]));
    assert_eq!(untouched.finish(), None);
}

#[test]
fn empty_batch_is_complete_at_once() {
    let batch = BatchImport::new(vec![], set_of(&["z"]));
    assert_eq!(batch.finish(), Some(vec![]));
}

#[test]
fn batch_checks_ids_known_beforehand() {
    let mut batch = BatchImport::new(vec![descriptor("https://0/")], set_of(&["z"]));
    assert_eq!(batch.complete(0, success("z", "https://0/")), Some(1));
    assert_eq!(
        batch.finish(),
        Some(vec![(descriptor("https://0/"), TauriDownloadRepository::Duplicated)])
    );
}
