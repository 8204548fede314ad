use photo_picker::outcome::{MoveResult, Reply, Request};
use photo_picker::path::FilePath;
use photo_picker::relocate::session::Relocation;
use std::collections::{BTreeMap, BTreeSet};

/// A file system in memory: files with their contents, directories, links, and
/// operations that can be made to fail.
struct Disk {
    files: BTreeMap<String, String>,
    dirs: BTreeSet<String>,
    links: BTreeMap<String, String>,
    rename_error: Option<String>,
    copy_error: Option<String>,
    remove_error: Option<String>,
    mkdir_error: Option<String>,
    log: Vec<String>,
}

fn path(text: &str) -> FilePath {
    let parts: Vec<String> = text.split('/').filter(|p| !p.is_empty()).map(|p| p.to_string()).collect();
    FilePath::new("/".to_string(), parts)
}

fn show(path: &FilePath) -> String {
    path.display()
}

fn strings(items: &[&str]) -> Vec<String> {
    items.iter().map(|s| s.to_string()).collect()
}

impl Disk {
    fn new(dirs: &[&str], files: &[&str]) -> Disk {
        Disk {
            files: files.iter().map(|f| (f.to_string(), format!("contents of {}", f))).collect(),
            dirs: dirs.iter().map(|d| d.to_string()).collect(),
            links: BTreeMap::new(),
            rename_error: None,
            copy_error: None,
            remove_error: None,
            mkdir_error: None,
            log: Vec::new(),
        }
    }

    fn holds(&self, path: &str) -> bool {
        self.files.contains_key(path) || self.dirs.contains(path)
    }

    fn perform(&mut self, request: Request) -> Reply {
        match request {
            Request::Canonicalize(raw) => {
                self.log.push(format!("canonicalize {}", raw));
                let target = self.links.get(&raw).cloned().unwrap_or(raw);
                if self.holds(&target) {
                    Reply::Resolved(path(&target))
                } else {
                    Reply::Failed("No such file or directory (os error 2)".to_string())
                }
            }
            Request::CreateDirAll(dir) => {
                self.log.push(format!("mkdir {}", show(&dir)));
                match &self.mkdir_error {
                    Some(error) => Reply::Failed(error.clone()),
                    None => {
                        self.dirs.insert(show(&dir));
                        Reply::Done
                    }
                }
            }
            Request::Exists(probe) => {
                self.log.push(format!("exists {}", show(&probe)));
                Reply::Exists(self.holds(&show(&probe)))
            }
            Request::Rename { from, to } => {
                self.log.push(format!("rename {} {}", show(&from), show(&to)));
                match &self.rename_error {
                    Some(error) => Reply::Failed(error.clone()),
                    None => {
                        let contents = self.files.remove(&show(&from)).unwrap();
                        self.files.insert(show(&to), contents);
                        Reply::Done
                    }
                }
            }
            Request::Copy { from, to } => {
                self.log.push(format!("copy {} {}", show(&from), show(&to)));
                match &self.copy_error {
                    Some(error) => Reply::Failed(error.clone()),
                    None => {
                        let contents = self.files.get(&show(&from)).unwrap().clone();
                        self.files.insert(show(&to), contents);
                        Reply::Done
                    }
                }
            }
            Request::RemoveFile(file) => {
                self.log.push(format!("remove {}", show(&file)));
                match &self.remove_error {
                    Some(error) => Reply::Failed(error.clone()),
                    None => {
                        self.files.remove(&show(&file));
                        Reply::Done
                    }
                }
            }
            Request::Finished => panic!("a finished relocation asks for nothing"),
        }
    }

    fn relocate(&mut self, paths: &[&str], root: &str, sibling: &str) -> Result<MoveResult, String> {
        let mut session = Relocation::new(strings(paths), root.to_string(), sibling.to_string());
        let mut steps = 0;
        while !session.is_finished() {
            let reply = self.perform(session.request());
            session = session.step(reply);
            steps += 1;
            assert!(steps < 100_000);
        }
        session.outcome().unwrap()
    }
}

fn failures(result: &MoveResult) -> Vec<(String, String)> {
    result.failures.iter().map(|f| (f.path.clone(), f.reason.clone())).collect()
}

#[test]
fn scenario_two_moved_one_outside() {
    let mut disk = Disk::new(
        &["/", "/import", "/import/sub", "/other"],
        &["/import/a.jpg", "/import/sub/a.jpg", "/other/b.jpg"],
    );
    let result = disk
        .relocate(&["/import/a.jpg", "/import/sub/a.jpg", "/other/b.jpg"], "/import", "sorted")
        .unwrap();
    assert!(disk.dirs.contains("/sorted"));
    assert_eq!(disk.files["/sorted/a.jpg"], "contents of /import/a.jpg");
    assert_eq!(disk.files["/sorted/a_1.jpg"], "contents of /import/sub/a.jpg");
    assert_eq!(result.moved_count, 2);
    assert_eq!(result.failures.len(), 1);
    assert_eq!(
        failures(&result),
        vec![(
            "/other/b.jpg".to_string(),
            "source not inside the containment directory".to_string()
        )]
    );
    assert!(result.failures[0].reason.contains("not inside the containment directory"));
}

#[test]
fn outside_source_is_left_untouched() {
    let mut disk = Disk::new(&["/", "/import", "/other"], &["/other/b.jpg"]);
    let result = disk.relocate(&["/other/b.jpg"], "/import", "sorted").unwrap();
    assert_eq!(result.moved_count, 0);
    assert_eq!(result.failures.len(), 1);
    assert_eq!(result.failures[0].path, "/other/b.jpg");
    assert_eq!(result.failures[0].reason, "source not inside the containment directory");
    assert_eq!(disk.files["/other/b.jpg"], "contents of /other/b.jpg");
    assert_eq!(disk.files.len(), 1);
    assert!(disk.log.iter().all(|l| !l.starts_with("rename") && !l.starts_with("copy")
        && !l.starts_with("remove") && !l.starts_with("exists")));
}

#[test]
fn link_that_leads_outside_is_refused() {
    let mut disk = Disk::new(&["/", "/import", "/other"], &["/other/b.jpg"]);
    disk.links.insert("/import/link.jpg".to_string(), "/other/b.jpg".to_string());
    let result = disk.relocate(&["/import/link.jpg"], "/import", "sorted").unwrap();
    assert_eq!(result.moved_count, 0);
    assert_eq!(
        failures(&result),
        vec![(
            "/import/link.jpg".to_string(),
            "source not inside the containment directory".to_string()
        )]
    );
    assert!(disk.files.contains_key("/other/b.jpg"));
}

#[test]
fn directory_with_a_longer_name_is_outside() {
    let mut disk = Disk::new(&["/", "/import", "/important"], &["/important/a.jpg"]);
    let result = disk.relocate(&["/important/a.jpg"], "/import", "sorted").unwrap();
    assert_eq!(result.moved_count, 0);
    assert_eq!(result.failures.len(), 1);
    assert!(disk.files.contains_key("/important/a.jpg"));
}

#[test]
fn same_names_end_under_distinct_names() {
    let mut disk = Disk::new(
        &["/", "/import", "/import/one", "/import/two"],
        &["/import/one/name.ext", "/import/two/name.ext"],
    );
    let result = disk
        .relocate(&["/import/one/name.ext", "/import/two/name.ext"], "/import", "sorted")
        .unwrap();
    assert_eq!(result.moved_count, 2);
    assert!(result.failures.is_empty());
    assert_eq!(disk.files["/sorted/name.ext"], "contents of /import/one/name.ext");
    assert_eq!(disk.files["/sorted/name_1.ext"], "contents of /import/two/name.ext");
    assert_eq!(disk.files.len(), 2);
}

#[test]
fn occupied_a_thousand_times_falls_back_to_clock_suffix() {
    let mut disk = Disk::new(&["/", "/import", "/sorted"], &["/import/a.jpg", "/sorted/a.jpg"]);
    for i in 1..=1000 {
        disk.files.insert(format!("/sorted/a_{}.jpg", i), String::new());
    }
    let before = disk.files.len();
    let result = disk.relocate(&["/import/a.jpg"], "/import", "sorted").unwrap();
    assert_eq!(result.moved_count, 1);
    assert!(result.failures.is_empty());
    assert!(!disk.files.contains_key("/import/a.jpg"));
    assert_eq!(disk.files.len(), before);
    let moved: Vec<&String> =
        disk.files.iter().filter(|(_, c)| *c == "contents of /import/a.jpg").map(|(p, _)| p).collect();
    assert_eq!(moved.len(), 1);
    let suffix = moved[0].strip_prefix("/sorted/a_").unwrap();
    assert!(suffix.len() > 4);
    assert!(suffix.chars().all(|c| c.is_ascii_digit()));
    let probes = disk.log.iter().filter(|l| l.starts_with("exists")).count();
    assert_eq!(probes, 1001);
    assert_eq!(disk.log[disk.log.len() - 2], "exists /sorted/a_1000.jpg");
}

#[test]
fn first_free_number_is_taken() {
    let mut disk = Disk::new(
        &["/", "/import", "/sorted"],
        &["/import/a.jpg", "/sorted/a.jpg", "/sorted/a_1.jpg", "/sorted/a_3.jpg"],
    );
    let result = disk.relocate(&["/import/a.jpg"], "/import", "sorted").unwrap();
    assert_eq!(result.moved_count, 1);
    assert_eq!(disk.files["/sorted/a_2.jpg"], "contents of /import/a.jpg");
    assert_eq!(disk.files["/sorted/a.jpg"], "contents of /sorted/a.jpg");
    assert_eq!(disk.files["/sorted/a_1.jpg"], "contents of /sorted/a_1.jpg");
}

#[test]
fn moved_sources_are_gone_and_failed_ones_stay() {
    let mut disk = Disk::new(
        &["/", "/import", "/other"],
        &["/import/a.jpg", "/import/b.png", "/other/c.gif"],
    );
    let paths = ["/import/a.jpg", "/other/c.gif", "/import/missing.jpg", "/import/b.png"];
    let result = disk.relocate(&paths, "/import", "sorted").unwrap();
    assert_eq!(result.moved_count + result.failures.len(), paths.len());
    assert_eq!(result.moved_count, 2);
    let failed: Vec<String> = result.failures.iter().map(|f| f.path.clone()).collect();
    assert_eq!(failed, strings(&["/other/c.gif", "/import/missing.jpg"]));
    for p in paths {
        if !failed.contains(&p.to_string()) {
            assert!(!disk.holds(p));
        }
    }
    assert!(disk.holds("/other/c.gif"));
}

#[test]
fn missing_source_is_listed_and_the_batch_goes_on() {
    let mut disk = Disk::new(&["/", "/import"], &["/import/b.jpg"]);
    let result = disk.relocate(&["/import/gone.jpg", "/import/b.jpg"], "/import", "sorted").unwrap();
    assert_eq!(result.moved_count, 1);
    assert_eq!(
        failures(&result),
        vec![(
            "/import/gone.jpg".to_string(),
            "source unavailable: No such file or directory (os error 2)".to_string()
        )]
    );
    assert!(disk.files.contains_key("/sorted/b.jpg"));
}

#[test]
fn unresolvable_root_is_a_setup_error() {
    let mut disk = Disk::new(&["/"], &[]);
    let error = disk.relocate(&["/import/a.jpg"], "/import", "sorted").err().unwrap();
    assert_eq!(error, "containment directory unavailable: No such file or directory (os error 2)");
    assert_eq!(disk.log, vec!["canonicalize /import"]);
}

#[test]
fn root_without_parent_is_a_setup_error() {
    let mut disk = Disk::new(&["/"], &["/a.jpg"]);
    let error = disk.relocate(&["/a.jpg"], "/", "sorted").err().unwrap();
    assert_eq!(
        error,
        "containment directory has no parent directory, cannot create a sibling folder"
    );
    assert_eq!(disk.log, vec!["canonicalize /"]);
    assert!(disk.files.contains_key("/a.jpg"));
}

#[test]
fn destination_that_cannot_be_created_is_a_setup_error() {
    let mut disk = Disk::new(&["/", "/data", "/data/import"], &["/data/import/a.jpg"]);
    disk.mkdir_error = Some("Permission denied (os error 13)".to_string());
    let error = disk.relocate(&["/data/import/a.jpg"], "/data/import", "sorted").err().unwrap();
    assert_eq!(
        error,
        "failed to create destination folder (/data/sorted): Permission denied (os error 13)"
    );
    assert_eq!(disk.log, vec!["canonicalize /data/import", "mkdir /data/sorted"]);
    assert!(disk.files.contains_key("/data/import/a.jpg"));
}

#[test]
fn failed_rename_falls_back_to_copy_and_delete() {
    let mut disk = Disk::new(&["/", "/import"], &["/import/a.jpg"]);
    disk.rename_error = Some("Invalid cross-device link (os error 18)".to_string());
    let result = disk.relocate(&["/import/a.jpg"], "/import", "sorted").unwrap();
    assert_eq!(result.moved_count, 1);
    assert!(result.failures.is_empty());
    assert!(!disk.files.contains_key("/import/a.jpg"));
    assert_eq!(disk.files["/sorted/a.jpg"], "contents of /import/a.jpg");
    assert_eq!(
        disk.log,
        vec![
            "canonicalize /import",
            "mkdir /sorted",
            "canonicalize /import/a.jpg",
            "exists /sorted/a.jpg",
            "rename /import/a.jpg /sorted/a.jpg",
            "copy /import/a.jpg /sorted/a.jpg",
            "remove /import/a.jpg",
        ]
    );
}

#[test]
fn failed_rename_and_copy_report_both_errors() {
    let mut disk = Disk::new(&["/", "/import"], &["/import/a.jpg", "/import/b.jpg"]);
    disk.rename_error = Some("Invalid cross-device link (os error 18)".to_string());
    disk.copy_error = Some("No space left on device (os error 28)".to_string());
    let result = disk.relocate(&["/import/a.jpg", "/import/b.jpg"], "/import", "sorted").unwrap();
    assert_eq!(result.moved_count, 0);
    assert_eq!(result.failures.len(), 2);
    assert_eq!(result.failures[0].path, "/import/a.jpg");
    assert_eq!(
        result.failures[0].reason,
        "move failed: Invalid cross-device link (os error 18); copy also failed: No space left on device (os error 28)"
    );
    assert_eq!(result.failures[1].path, "/import/b.jpg");
    assert!(disk.files.contains_key("/import/a.jpg"));
    assert!(disk.log.iter().all(|l| !l.starts_with("remove")));
}

#[test]
fn copied_but_not_deleted_is_not_counted() {
    let mut disk = Disk::new(&["/", "/import"], &["/import/a.jpg"]);
    disk.rename_error = Some("Invalid cross-device link (os error 18)".to_string());
    disk.remove_error = Some("Permission denied (os error 13)".to_string());
    let result = disk.relocate(&["/import/a.jpg"], "/import", "sorted").unwrap();
    assert_eq!(result.moved_count, 0);
    assert_eq!(
        failures(&result),
        vec![(
            "/import/a.jpg".to_string(),
            "copied to the destination but failed to remove the source: Permission denied (os error 13)"
                .to_string()
        )]
    );
    assert!(disk.files.contains_key("/import/a.jpg"));
    assert!(disk.files.contains_key("/sorted/a.jpg"));
}

#[test]
fn no_paths_is_an_empty_report() {
    let mut disk = Disk::new(&["/", "/import"], &[]);
    let result = disk.relocate(&[], "/import", "sorted").unwrap();
    assert_eq!(result.moved_count, 0);
    assert!(result.failures.is_empty());
    assert!(disk.dirs.contains("/sorted"));
    assert_eq!(disk.log, vec!["canonicalize /import", "mkdir /sorted"]);
}

#[test]
fn requests_of_a_plain_move_come_in_order() {
    let mut disk = Disk::new(&["/", "/home", "/home/me", "/home/me/import"], &["/home/me/import/a.jpg"]);
    let result = disk.relocate(&["/home/me/import/a.jpg"], "/home/me/import", "rejected").unwrap();
    assert_eq!(result.moved_count, 1);
    assert_eq!(
        disk.log,
        vec![
            "canonicalize /home/me/import",
            "mkdir /home/me/rejected",
            "canonicalize /home/me/import/a.jpg",
            "exists /home/me/rejected/a.jpg",
            "rename /home/me/import/a.jpg /home/me/rejected/a.jpg",
        ]
    );
}

#[test]
fn same_path_given_twice_fails_the_second_time() {
    let mut disk = Disk::new(&["/", "/import"], &["/import/a.jpg"]);
    let result = disk.relocate(&["/import/a.jpg", "/import/a.jpg"], "/import", "sorted").unwrap();
    assert_eq!(result.moved_count, 1);
    assert_eq!(result.failures.len(), 1);
    assert_eq!(result.failures[0].path, "/import/a.jpg");
    assert!(result.failures[0].reason.starts_with("source unavailable: "));
}

#[test]
fn source_without_a_file_name_is_listed() {
    let session = Relocation::new(strings(&["/import/.."]), "/import".to_string(), "sorted".to_string());
    let session = session.step(Reply::Resolved(path("/import")));
    let session = session.step(Reply::Done);
    let session = session.step(Reply::Resolved(path("/import").join("..")));
    assert!(session.is_finished());
    let result = session.outcome().unwrap().unwrap();
    assert_eq!(result.moved_count, 0);
    assert_eq!(
        failures(&result),
        vec![("/import/..".to_string(), "cannot determine file name".to_string())]
    );
}

#[test]
fn reply_that_answers_nothing_is_ignored() {
    let session = Relocation::new(strings(&["/import/a.jpg"]), "/import".to_string(), "sorted".to_string());
    let session = session.step(Reply::Exists(true));
    let session = session.step(Reply::Done);
    match session.request() {
        Request::Canonicalize(raw) => assert_eq!(raw, "/import"),
        _ => panic!("the root is still to be resolved"),
    }
    let session = session.step(Reply::Resolved(path("/import")));
    let session = session.step(Reply::Resolved(path("/import")));
    match session.request() {
        Request::CreateDirAll(dir) => assert_eq!(show(&dir), "/sorted"),
        _ => panic!("the destination is still to be created"),
    }
    assert!(!session.is_finished());
    assert!(session.outcome().is_none());
}

#[test]
fn finished_relocation_stays_finished() {
    let session = Relocation::new(Vec::new(), "/import".to_string(), "sorted".to_string());
    let session = session.step(Reply::Failed("gone".to_string()));
    assert!(session.is_finished());
    let session = session.step(Reply::Done);
    let session = session.step(Reply::Resolved(path("/import")));
    assert!(matches!(session.request(), Request::Finished));
    assert_eq!(session.outcome().unwrap().err().unwrap(), "containment directory unavailable: gone");
}

#[test]
fn step_with_uses_the_given_suffix_only_in_the_fallback() {
    let mut session = Relocation::new(strings(&["/import/a"]), "/import".to_string(), "sorted".to_string());
    session = session.step_with(Reply::Resolved(path("/import")), "77");
    session = session.step_with(Reply::Done, "77");
    session = session.step_with(Reply::Resolved(path("/import/a")), "77");
    for attempt in 0..1000 {
        match session.request() {
            Request::Exists(probe) => {
                let expected =
                    if attempt == 0 { "/sorted/a".to_string() } else { format!("/sorted/a_{}", attempt) };
                assert_eq!(show(&probe), expected);
            }
            _ => panic!("a name is being probed"),
        }
        assert!(!session.needs_suffix(&Reply::Exists(true)));
        session = session.step_with(Reply::Exists(true), "77");
    }
    assert!(session.needs_suffix(&Reply::Exists(true)));
    assert!(!session.needs_suffix(&Reply::Exists(false)));
    session = session.step_with(Reply::Exists(true), "77");
    match session.request() {
        Request::Rename { from, to } => {
            assert_eq!(show(&from), "/import/a");
            assert_eq!(show(&to), "/sorted/a_77");
        }
        _ => panic!("the file is to be renamed"),
    }
    session = session.step_with(Reply::Done, "77");
    let result = session.outcome().unwrap().unwrap();
    assert_eq!(result.moved_count, 1);
    assert!(result.failures.is_empty());
}

#[test]
fn sibling_name_is_appended_to_the_parent() {
    let mut disk = Disk::new(&["/", "/photos", "/photos/2024", "/photos/2024/import"], &[]);
    disk.relocate(&[], "/photos/2024/import", "not so good").unwrap();
    assert!(disk.dirs.contains("/photos/2024/not so good"));
}
