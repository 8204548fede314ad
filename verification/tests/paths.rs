use photo_picker::path::FilePath;
use photo_picker::probe::{next_dest_path, unique_dest_path, NameSearch};

fn path(text: &str) -> FilePath {
    let parts: Vec<String> = text.split('/').filter(|p| !p.is_empty()).map(|p| p.to_string()).collect();
    FilePath::new("/".to_string(), parts)
}

fn show(path: &FilePath) -> String {
    path.display()
}

#[test]
fn display_joins_parts_after_the_anchor() {
    assert_eq!(show(&path("/")), "/");
    assert_eq!(show(&path("/import")), "/import");
    assert_eq!(show(&path("/import/sub/a.jpg")), "/import/sub/a.jpg");
    let drive = FilePath::new("C:\\".to_string(), vec!["Users".to_string(), "me".to_string()]);
    assert_eq!(show(&drive), "C:\\Users/me");
}

#[test]
fn duplicate_is_equal_in_every_part() {
    let first = path("/import/sub/a.jpg");
    let copy = first.duplicate();
    assert_eq!(copy.anchor, first.anchor);
    assert_eq!(copy.parts, first.parts);
}

#[test]
fn parent_drops_the_last_part() {
    assert_eq!(show(&path("/import/sub").parent().unwrap()), "/import");
    assert_eq!(show(&path("/import").parent().unwrap()), "/");
}

#[test]
fn anchor_has_no_parent() {
    assert!(path("/").parent().is_none());
}

#[test]
fn join_appends_one_part() {
    assert_eq!(show(&path("/").join("sorted")), "/sorted");
    assert_eq!(show(&path("/import").join("a.jpg")), "/import/a.jpg");
    assert_eq!(path("/import").join("a.jpg").parts, vec!["import", "a.jpg"]);
}

#[test]
fn file_name_is_the_last_part() {
    assert_eq!(path("/import/a.jpg").file_name(), Some("a.jpg".to_string()));
    assert_eq!(path("/import").file_name(), Some("import".to_string()));
}

#[test]
fn file_name_is_missing_where_nothing_names_a_file() {
    assert_eq!(path("/").file_name(), None);
    assert_eq!(path("/import").join("..").file_name(), None);
    assert_eq!(path("/import").join(".").file_name(), None);
    assert_eq!(path("/import").join("").file_name(), None);
}

#[test]
fn starts_with_goes_by_whole_parts() {
    assert!(path("/import/a.jpg").starts_with(&path("/import")));
    assert!(path("/import/sub/a.jpg").starts_with(&path("/import")));
    assert!(path("/import").starts_with(&path("/import")));
    assert!(path("/import/a.jpg").starts_with(&path("/")));
    assert!(!path("/important/a.jpg").starts_with(&path("/import")));
    assert!(!path("/other/b.jpg").starts_with(&path("/import")));
    assert!(!path("/import").starts_with(&path("/import/sub")));
    assert!(!path("/").starts_with(&path("/import")));
}

#[test]
fn starts_with_needs_the_same_anchor() {
    let here = FilePath::new("C:\\".to_string(), vec!["import".to_string(), "a.jpg".to_string()]);
    let there = FilePath::new("D:\\".to_string(), vec!["import".to_string()]);
    let same = FilePath::new("C:\\".to_string(), vec!["import".to_string()]);
    assert!(!here.starts_with(&there));
    assert!(here.starts_with(&same));
}

#[test]
fn starts_with_agrees_with_std_path_on_canonical_paths() {
    let samples = ["/", "/import", "/import/a.jpg", "/import/sub/a.jpg", "/important", "/other/b.jpg"];
    for a in samples {
        for b in samples {
            let expected = std::path::Path::new(a).starts_with(std::path::Path::new(b));
            assert_eq!(path(a).starts_with(&path(b)), expected, "{} {}", a, b);
        }
    }
}

#[test]
fn free_candidate_is_chosen() {
    match unique_dest_path(&path("/sorted"), "a.jpg", 0, false) {
        NameSearch::Chosen(dest) => assert_eq!(show(&dest), "/sorted/a.jpg"),
        NameSearch::Probe { .. } => panic!("a free name must be chosen"),
    }
    match unique_dest_path(&path("/sorted"), "a.jpg", 7, false) {
        NameSearch::Chosen(dest) => assert_eq!(show(&dest), "/sorted/a_7.jpg"),
        NameSearch::Probe { .. } => panic!("a free name must be chosen"),
    }
}

#[test]
fn taken_candidate_leads_to_the_next_number() {
    match unique_dest_path(&path("/sorted"), "a.jpg", 0, true) {
        NameSearch::Probe { attempt, path } => {
            assert_eq!(attempt, 1);
            assert_eq!(show(&path), "/sorted/a_1.jpg");
        }
        NameSearch::Chosen(_) => panic!("a taken name must not be chosen"),
    }
    match unique_dest_path(&path("/sorted"), "a.jpg", 999, true) {
        NameSearch::Probe { attempt, path } => {
            assert_eq!(attempt, 1000);
            assert_eq!(show(&path), "/sorted/a_1000.jpg");
        }
        NameSearch::Chosen(_) => panic!("a taken name must not be chosen"),
    }
}

#[test]
fn last_number_taken_falls_back_to_a_clock_suffix() {
    match unique_dest_path(&path("/sorted"), "a.jpg", 1000, true) {
        NameSearch::Chosen(dest) => {
            let name = dest.parts.last().unwrap().clone();
            let suffix = name.strip_prefix("a_").unwrap();
            assert!(!suffix.is_empty());
            assert!(suffix.chars().all(|c| c.is_ascii_digit()));
            assert_eq!(show(&dest.parent().unwrap()), "/sorted");
        }
        NameSearch::Probe { .. } => panic!("the search must end after the last number"),
    }
}

#[test]
fn fallback_with_a_given_suffix() {
    match next_dest_path(&path("/sorted"), "a.jpg", 1000, true, "42") {
        NameSearch::Chosen(dest) => assert_eq!(show(&dest), "/sorted/a_42"),
        NameSearch::Probe { .. } => panic!("the search must end after the last number"),
    }
    match next_dest_path(&path("/sorted"), "a.jpg", 3, true, "42") {
        NameSearch::Probe { attempt, path } => {
            assert_eq!(attempt, 4);
            assert_eq!(show(&path), "/sorted/a_4.jpg");
        }
        NameSearch::Chosen(_) => panic!("a taken name must not be chosen"),
    }
}
