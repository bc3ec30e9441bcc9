use gofile::download::{
    folder_subdir, plan_child_download, plan_download, plan_folder_download, temp_name,
    DownloadPlan, DownloadTransfer,
};
use gofile::error::Error;
use gofile::model::{Page, PageChild};

fn file_child(name: &str, size: u64, md5: &str, link: &str) -> PageChild {
    PageChild {
        download_count: Some(0),
        create_time: 1_700_000_000,
        mod_time: 1_700_000_000,
        link: Some(link.to_string()),
        md5: Some(md5.to_string()),
        size: Some(size),
        name: name.to_string(),
    }
}

fn folder_child(name: &str) -> PageChild {
    PageChild {
        download_count: None,
        create_time: 1_700_000_000,
        mod_time: 1_700_000_000,
        link: None,
        md5: None,
        size: None,
        name: name.to_string(),
    }
}

const EMPTY_MD5: &str = "d41d8cd98f00b204e9800998ecf8427e";
const HELLO_MD5: &str = "5d41402abc4b2a76b9719d911017c592";

#[test]
fn existing_file_is_skipped() {
    assert_eq!(plan_download(true, false).unwrap(), DownloadPlan::Skip);
}

#[test]
fn existing_directory_is_a_conflict() {
    assert_eq!(plan_download(true, true).unwrap_err(), Error::PathConflict);
}

#[test]
fn free_path_is_fetched() {
    assert_eq!(plan_download(false, false).unwrap(), DownloadPlan::Fetch);
}

#[test]
fn temp_name_appends_part() {
    assert_eq!(temp_name("video.mp4"), "video.mp4.part");
    assert_eq!(temp_name(""), ".part");
}

#[test]
fn matching_digest_completes() {
    let mut t = DownloadTransfer::start(HELLO_MD5).unwrap();
    t.ingest(b"hel");
    t.ingest(b"lo");
    assert_eq!(t.progress(), 5);
    assert!(t.finish().is_ok());
}

#[test]
fn empty_body_matches_the_empty_digest() {
    let t = DownloadTransfer::start(EMPTY_MD5).unwrap();
    assert_eq!(t.progress(), 0);
    assert!(t.finish().is_ok());
}

#[test]
fn mismatching_digest_fails_with_integrity() {
    let mut t = DownloadTransfer::start(EMPTY_MD5).unwrap();
    t.ingest(b"unexpected");
    assert_eq!(t.finish().unwrap_err(), Error::Integrity);
}

fn start_error(declared: &str) -> Error {
    match DownloadTransfer::start(declared) {
        Ok(_) => panic!("a malformed digest was accepted"),
        Err(e) => e,
    }
}

#[test]
fn malformed_declared_digest_is_rejected() {
    assert_eq!(start_error("not hex at all"), Error::Decode);
    // Right characters, wrong length.
    assert_eq!(start_error("d41d8cd9"), Error::Decode);
    // Right length, upper case.
    assert_eq!(start_error("D41D8CD98F00B204E9800998ECF8427E"), Error::Decode);
}

#[test]
fn folder_plan_takes_files_and_passes_over_folders() {
    let children = vec![
        ("f1".to_string(), file_child("f1", 10, EMPTY_MD5, "https://srv/f1")),
        ("f2".to_string(), folder_child("f2")),
    ];
    let items = plan_folder_download(&children).unwrap();
    assert_eq!(items.len(), 1);
    assert_eq!(items[0].name, "f1");
    assert_eq!(items[0].link, "https://srv/f1");
    assert_eq!(items[0].md5, EMPTY_MD5);
    assert_eq!(items[0].size, 10);
}

#[test]
fn folder_scenario_downloads_only_the_file_child() {
    // Folder ABC123 with a file child whose declared digest is the empty
    // file's: a zero-length body verifies against it, and the sub-folder
    // child never yields a byte download.
    let children = vec![
        ("f1".to_string(), file_child("f1", 10, EMPTY_MD5, "https://srv/f1")),
        ("f2".to_string(), folder_child("f2")),
    ];
    let items = plan_folder_download(&children).unwrap();
    assert_eq!(items.len(), 1);
    let t = DownloadTransfer::start(&items[0].md5).unwrap();
    assert!(t.finish().is_ok());
}

#[test]
fn file_child_missing_its_link_fails_the_plan() {
    let mut broken = file_child("f1", 10, EMPTY_MD5, "ignored");
    broken.link = None;
    let children = vec![("f1".to_string(), broken)];
    assert_eq!(plan_folder_download(&children).unwrap_err(), Error::Decode);
}

#[test]
fn child_plan_finds_the_child_by_id() {
    let children = vec![
        ("aa".to_string(), file_child("first.bin", 3, HELLO_MD5, "https://srv/aa")),
        ("bb".to_string(), file_child("second.bin", 4, EMPTY_MD5, "https://srv/bb")),
    ];
    let item = plan_child_download(&children, "bb").unwrap();
    assert_eq!(item.name, "second.bin");
    assert_eq!(item.link, "https://srv/bb");
}

#[test]
fn folder_downloads_land_in_a_directory_named_after_the_code() {
    let page = Page {
        children_count: 2,
        code: "ABC123".to_string(),
        create_time: 1_700_000_000,
        id: "folder-id".to_string(),
        children: vec![
            ("f1".to_string(), file_child("f1", 10, EMPTY_MD5, "https://srv/f1")),
            ("f2".to_string(), folder_child("f2")),
        ],
        total_size: 10,
        mod_time: 1_700_000_000,
        name: "ABC123".to_string(),
        public: true,
        total_download_count: 0,
    };
    assert_eq!(folder_subdir(&page, false).unwrap(), "ABC123");
    assert!(folder_subdir(&page, true).is_none());
}

#[test]
fn child_plan_rejects_an_unknown_id() {
    let children = vec![("aa".to_string(), file_child("a", 1, EMPTY_MD5, "https://srv/aa"))];
    assert_eq!(plan_child_download(&children, "zz").unwrap_err(), Error::Decode);
}
