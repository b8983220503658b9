use jailbox::bucket::{
    all_entries, entry_path, is_entry, Context, DataBucket, DirProbe, ErrorKind, FileProbe,
};

fn bucket() -> DataBucket {
    DataBucket::new(String::from("/ctx"))
}

fn names(of: &[&str]) -> Vec<String> {
    of.iter().map(|name| String::from(*name)).collect()
}

#[test]
fn context_hands_out_a_bucket_over_its_root() {
    let context = Context::new(String::from("/ctx"));
    assert_eq!(context.bucket().path(), "/ctx");
    assert_eq!(context.bucket().path(), context.bucket().path());
}

#[test]
fn locate_permits_a_path_under_the_root() {
    assert_eq!(bucket().locate("data.json").unwrap(), "/ctx/data.json");
    assert_eq!(bucket().locate("").unwrap(), "/ctx");
}

#[test]
fn locate_refuses_a_path_outside_the_root() {
    let error = bucket().locate("/etc/passwd").unwrap_err();
    assert_eq!(error.kind, ErrorKind::NotAllowed);
    assert_eq!(error.message, "Access to this path is not allowed: /etc/passwd");
}

#[test]
fn read_returns_exact_file_contents() {
    assert_eq!(bucket().locate("data.json").unwrap(), "/ctx/data.json");
    let contents = FileProbe::Contents(String::from("{\"a\":1}"));
    assert_eq!(bucket().read("data.json", contents).unwrap(), "{\"a\":1}");
}

#[test]
fn read_outside_the_root_is_not_allowed() {
    let error = bucket().read("/secret", FileProbe::Contents(String::from("x"))).unwrap_err();
    assert_eq!(error.kind, ErrorKind::NotAllowed);
    assert_eq!(error.message, "Access to this path is not allowed: /secret");
    let error = bucket().read("/ctx/../secret", FileProbe::Missing).unwrap_err();
    assert_eq!(error.kind, ErrorKind::NotAllowed);
}

#[test]
fn read_of_parent_path_stays_under_the_root() {
    assert_eq!(bucket().locate("../secret").unwrap(), "/ctx/secret");
    let error = bucket().read("../secret", FileProbe::Missing).unwrap_err();
    assert_eq!(error.kind, ErrorKind::NotFound);
    assert_eq!(error.message, "File not found: ../secret");
}

#[test]
fn read_of_missing_file_is_not_found() {
    let error = bucket().read("nope.txt", FileProbe::Missing).unwrap_err();
    assert_eq!(error.kind, ErrorKind::NotFound);
    assert_eq!(error.message, "File not found: nope.txt");
}

#[test]
fn read_failure_carries_the_cause() {
    let probe = FileProbe::Unreadable(String::from("stream did not contain valid UTF-8"));
    let error = bucket().read("bin.dat", probe).unwrap_err();
    assert_eq!(error.kind, ErrorKind::IoFailure);
    assert_eq!(
        error.message,
        "Failed to read file bin.dat: stream did not contain valid UTF-8"
    );
}

#[test]
fn list_sorts_names_lexicographically() {
    let probe = DirProbe::Entries(names(&["b.txt", "a.txt", "c", "B", "a", "ab", ""]));
    assert_eq!(
        bucket().list(".", probe).unwrap(),
        names(&["", "B", "a", "a.txt", "ab", "b.txt", "c"])
    );
}

#[test]
fn list_keeps_names_that_occur_twice() {
    let probe = DirProbe::Entries(names(&["x", "y", "x"]));
    assert_eq!(bucket().list("", probe).unwrap(), names(&["x", "x", "y"]));
}

#[test]
fn list_orders_by_code_point() {
    let probe = DirProbe::Entries(names(&["é", "z", "Z", "10", "9"]));
    assert_eq!(bucket().list("", probe).unwrap(), names(&["10", "9", "Z", "z", "é"]));
}

#[test]
fn list_of_empty_directory_is_empty() {
    assert_eq!(bucket().list("sub", DirProbe::Entries(Vec::new())).unwrap(), names(&[]));
}

#[test]
fn list_outside_the_root_is_not_allowed() {
    let error = bucket().list("/etc", DirProbe::Entries(names(&["passwd"]))).unwrap_err();
    assert_eq!(error.kind, ErrorKind::NotAllowed);
    assert_eq!(error.message, "Access to this path is not allowed: /etc");
}

#[test]
fn list_of_missing_directory_is_not_found() {
    let error = bucket().list("sub", DirProbe::Missing).unwrap_err();
    assert_eq!(error.kind, ErrorKind::NotFound);
    assert_eq!(error.message, "Directory not found: sub");
}

#[test]
fn list_failure_carries_the_cause() {
    let error = bucket().list("sub", DirProbe::Unreadable(String::from("denied"))).unwrap_err();
    assert_eq!(error.kind, ErrorKind::IoFailure);
    assert_eq!(error.message, "Failed to read directory: denied");
}

#[test]
fn listed_names_are_never_refused_by_read() {
    let found = ["...", ".", "a b", "data.json", "..hidden", "", "sub"];
    for dir in ["", ".", "sub", "sub/", "a/../b", "..", "/ctx", "/ctx/", "/ctx/sub/deep"] {
        let listed = bucket().list(dir, DirProbe::Entries(names(&found))).unwrap();
        assert_eq!(listed.len(), found.len());
        for name in listed {
            let inside = entry_path(dir, &name);
            assert!(bucket().locate(&inside).is_ok(), "{}", inside);
            match bucket().read(&inside, FileProbe::Missing) {
                Ok(_) => {}
                Err(error) => assert_ne!(error.kind, ErrorKind::NotAllowed, "{}", inside),
            }
            assert!(bucket().locate(&name).is_ok(), "{}", name);
            match bucket().read(&name, FileProbe::Missing) {
                Ok(_) => {}
                Err(error) => assert_ne!(error.kind, ErrorKind::NotAllowed, "{}", name),
            }
        }
    }
}

#[test]
fn listed_name_is_read_where_it_was_listed() {
    let listed = bucket().list("sub", DirProbe::Entries(names(&["b.txt", "a.txt"]))).unwrap();
    assert_eq!(listed, names(&["a.txt", "b.txt"]));
    let inside = entry_path("sub", &listed[0]);
    assert_eq!(inside, "sub/a.txt");
    assert_eq!(bucket().locate(&inside).unwrap(), "/ctx/sub/a.txt");
    assert_eq!(bucket().read(&inside, FileProbe::Contents(String::from("A"))).unwrap(), "A");
}

#[test]
fn entry_path_joins_with_one_separator() {
    assert_eq!(entry_path("", "a"), "a");
    assert_eq!(entry_path("dir", "a"), "dir/a");
    assert_eq!(entry_path("dir/", "a"), "dir/a");
    assert_eq!(entry_path("/", "a"), "/a");
    assert_eq!(entry_path("/ctx/sub", ""), "/ctx/sub/");
}

#[test]
fn entry_names_hold_no_separator_and_are_not_the_parent() {
    for name in ["a", "", ".", "...", "..a", "a..", "a b", "é"] {
        assert!(is_entry(name), "{}", name);
    }
    for name in ["..", "/", "a/b", "/a", "a/", "../x"] {
        assert!(!is_entry(name), "{}", name);
    }
    assert!(all_entries(&names(&[])));
    assert!(all_entries(&names(&["a", "b", ""])));
    assert!(!all_entries(&names(&["a", "..", "b"])));
    assert!(!all_entries(&names(&["a", "b", "c/d"])));
}

#[test]
fn list_of_what_is_no_entry_name_is_a_failed_read() {
    for bad in ["..", "a/b", "/etc/passwd", "x/"] {
        let error = bucket().list("", DirProbe::Entries(names(&["ok", bad]))).unwrap_err();
        assert_eq!(error.kind, ErrorKind::IoFailure, "{}", bad);
        assert_eq!(error.message, "Failed to read directory: an entry is not a name");
    }
    let error = bucket().list("/etc", DirProbe::Entries(names(&[".."]))).unwrap_err();
    assert_eq!(error.kind, ErrorKind::NotAllowed);
}

#[test]
fn link_that_stays_inside_the_root_is_followed() {
    assert_eq!(bucket().locate("link.txt").unwrap(), "/ctx/link.txt");
    assert_eq!(
        bucket().locate_resolved("link.txt", "/ctx/real/file.txt").unwrap(),
        "/ctx/real/file.txt"
    );
    assert_eq!(bucket().locate_resolved("a/./b", "/ctx/a/b").unwrap(), "/ctx/a/b");
}

#[test]
fn link_that_leaves_the_root_is_refused() {
    assert_eq!(bucket().locate("escape").unwrap(), "/ctx/escape");
    let error = bucket().locate_resolved("escape", "/etc/shadow").unwrap_err();
    assert_eq!(error.kind, ErrorKind::NotAllowed);
    assert_eq!(error.message, "Access to this path is not allowed: escape");
    let error = bucket().locate_resolved("escape", "/ctx-other/file").unwrap_err();
    assert_eq!(error.kind, ErrorKind::NotAllowed);
}

#[test]
fn refused_request_stays_refused_wherever_it_leads() {
    let error = bucket().locate_resolved("/etc/passwd", "/ctx/passwd").unwrap_err();
    assert_eq!(error.kind, ErrorKind::NotAllowed);
    assert_eq!(error.message, "Access to this path is not allowed: /etc/passwd");
}

#[test]
fn buckets_can_be_cloned() {
    let context = Context::new(String::from("/ctx"));
    assert_eq!(context.clone().bucket().clone().path(), "/ctx");
}
