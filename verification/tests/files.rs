use std::path::Path;
use stfm::files::{
    describe, entry_from, extension_text, filter_by_name, final_component, is_dot_name,
    is_hidden, kind_text, list_files, modified_text, name_extension, same_entry, write_modified,
    RawEntry, RawMeta, StfmFile,
};

fn plain_file(len: u64) -> RawMeta {
    RawMeta { is_dir: false, is_file: true, is_symlink: false, len, modified: Some(0) }
}

fn directory() -> RawMeta {
    RawMeta { is_dir: true, is_file: false, is_symlink: false, len: 4096, modified: None }
}

fn link() -> RawMeta {
    RawMeta { is_dir: false, is_file: false, is_symlink: true, len: 7, modified: None }
}

fn other() -> RawMeta {
    RawMeta { is_dir: false, is_file: false, is_symlink: false, len: 0, modified: None }
}

fn raw(path: &str, meta: Option<RawMeta>) -> RawEntry {
    RawEntry { path: path.to_string(), meta }
}

fn names(files: &[StfmFile]) -> Vec<String> {
    files.iter().map(|f| f.name.clone()).collect()
}

#[test]
fn dot_names_are_hidden() {
    assert!(is_hidden(".bashrc"));
    assert!(is_hidden("/home/user/.config"));
    assert!(is_hidden("/home/user/.config/"));
    assert!(!is_hidden("/home/user/notes.txt"));
    assert!(!is_hidden("/home/.user/notes.txt"));
    assert!(!is_hidden("/"));
    assert!(!is_hidden(""));
    assert!(!is_hidden("/home/user/.."));
}

#[test]
fn dot_name_looks_at_the_first_character_only() {
    assert!(is_dot_name("."));
    assert!(is_dot_name(".a"));
    assert!(!is_dot_name("a."));
    assert!(!is_dot_name(""));
    assert!(!is_dot_name("é.txt"));
}

#[test]
fn hidden_entries_are_left_out_unless_shown() {
    let snapshot = vec![raw("/d/a.txt", Some(plain_file(1))), raw("/d/.hidden", Some(plain_file(2)))];
    let visible = list_files(&snapshot, false);
    assert_eq!(names(&visible), vec!["a.txt".to_string()]);
    let all = list_files(&snapshot, true);
    assert_eq!(names(&all), vec!["a.txt".to_string(), ".hidden".to_string()]);
}

#[test]
fn listing_keeps_the_order_of_the_snapshot() {
    let snapshot = vec![
        raw("/d/zeta", Some(plain_file(1))),
        raw("/d/alpha", Some(directory())),
        raw("/d/.mid", Some(plain_file(1))),
        raw("/d/beta", Some(link())),
    ];
    assert_eq!(
        names(&list_files(&snapshot, true)),
        vec!["zeta".to_string(), "alpha".to_string(), ".mid".to_string(), "beta".to_string()]
    );
    assert_eq!(names(&list_files(&snapshot, false)), vec!["zeta".to_string(), "alpha".to_string(), "beta".to_string()]);
}

#[test]
fn entries_without_metadata_are_left_out() {
    let snapshot = vec![raw("/d/gone", None), raw("/d/here", Some(plain_file(3))), raw("/d/.gone", None)];
    assert_eq!(names(&list_files(&snapshot, true)), vec!["here".to_string()]);
    assert_eq!(names(&list_files(&snapshot, false)), vec!["here".to_string()]);
}

#[test]
fn empty_snapshot_gives_empty_listing() {
    assert!(list_files(&Vec::new(), true).is_empty());
    assert!(list_files(&Vec::new(), false).is_empty());
}

#[test]
fn a_plain_file_is_described_by_its_path_and_metadata() {
    let meta = RawMeta { is_dir: false, is_file: true, is_symlink: false, len: 1234, modified: Some(1431648000) };
    let file = describe("/home/user/report.final.txt", &meta);
    assert_eq!(file.full_path, "/home/user/report.final.txt");
    assert_eq!(file.name, "report.final.txt");
    assert_eq!(file.extension, "txt");
    assert!(!file.is_dir);
    assert_eq!(file.kind_name, "File");
    assert_eq!(file.size, 1234);
    assert_eq!(file.modified, "2015-05-15 00:00:00");
}

#[test]
fn a_directory_shows_dir_whatever_its_name() {
    let plain = describe("/home/user/photos", &directory());
    assert_eq!(plain.extension, "DIR");
    assert_eq!(plain.kind_name, "Directory");
    assert!(plain.is_dir);
    assert_eq!(plain.modified, "Unknown");
    let dotted = describe("/home/user/photos.d", &directory());
    assert_eq!(dotted.name, "photos.d");
    assert_eq!(dotted.extension, "DIR");
}

#[test]
fn entries_without_extension_show_what_they_are() {
    assert_eq!(describe("/d/link", &link()).extension, "LINK");
    assert_eq!(describe("/d/link", &link()).kind_name, "Link");
    assert_eq!(describe("/d/Makefile", &plain_file(1)).extension, "FILE");
    assert_eq!(describe("/d/.profile", &plain_file(1)).extension, "FILE");
    assert_eq!(describe("/d/socket", &other()).extension, "UNKNOWN");
    assert_eq!(describe("/d/socket", &other()).kind_name, "File");
}

#[test]
fn a_link_with_an_extension_shows_the_extension() {
    let file = describe("/d/current.log", &link());
    assert_eq!(file.extension, "log");
    assert_eq!(file.kind_name, "Link");
}

#[test]
fn a_linked_directory_counts_as_a_link() {
    let meta = RawMeta { is_dir: true, is_file: false, is_symlink: true, len: 0, modified: None };
    assert_eq!(kind_text(&meta), "Link");
    assert_eq!(extension_text(None, &meta), "LINK");
    assert_eq!(extension_text(Some("d".to_string()), &meta), "DIR");
}

#[test]
fn a_path_without_a_final_component_is_named_unknown() {
    assert_eq!(describe("/", &directory()).name, "UNKNOWN");
    assert_eq!(describe("/home/..", &directory()).name, "UNKNOWN");
}

#[test]
fn modified_time_is_written_to_the_second_in_utc() {
    assert_eq!(write_modified(Some(0)), Some("1970-01-01 00:00:00".to_string()));
    assert_eq!(write_modified(Some(1431648000)), Some("2015-05-15 00:00:00".to_string()));
    assert_eq!(write_modified(Some(951782399)), Some("2000-02-28 23:59:59".to_string()));
    assert_eq!(write_modified(Some(951782400)), Some("2000-02-29 00:00:00".to_string()));
    assert_eq!(write_modified(Some(-1)), Some("1969-12-31 23:59:59".to_string()));
}

#[test]
fn modified_time_unknown_or_out_of_range() {
    assert_eq!(write_modified(None), None);
    assert_eq!(write_modified(Some(i64::MAX)), None);
    assert_eq!(write_modified(Some(i64::MIN)), None);
    assert_eq!(modified_text(None), "Unknown");
    assert_eq!(modified_text(Some("2015-05-15 00:00:00".to_string())), "2015-05-15 00:00:00");
    let meta = RawMeta { is_dir: false, is_file: true, is_symlink: false, len: 1, modified: Some(i64::MAX) };
    assert_eq!(describe("/d/a", &meta).modified, "Unknown");
}

#[test]
fn an_entry_is_put_together_from_its_parts() {
    let meta = RawMeta { is_dir: false, is_file: true, is_symlink: false, len: 42, modified: None };
    let file = entry_from("/d/a.rs", Some("a.rs".to_string()), Some("rs".to_string()), Some("then".to_string()), &meta);
    assert_eq!(file.full_path, "/d/a.rs");
    assert_eq!(file.name, "a.rs");
    assert_eq!(file.extension, "rs");
    assert_eq!(file.kind_name, "File");
    assert_eq!(file.size, 42);
    assert_eq!(file.modified, "then");
    assert!(!file.is_dir);
    let bare = entry_from("/", None, None, None, &directory());
    assert_eq!(bare.name, "UNKNOWN");
    assert_eq!(bare.extension, "DIR");
    assert_eq!(bare.kind_name, "Directory");
    assert_eq!(bare.modified, "Unknown");
    assert!(bare.is_dir);
}

#[test]
fn same_entry_compares_every_field() {
    let file = describe("/d/a.txt", &plain_file(9));
    assert!(same_entry(&file, &file.duplicate()));
    let mut other = file.duplicate();
    other.size = 10;
    assert!(!same_entry(&file, &other));
    let mut other = file.duplicate();
    other.modified.push('x');
    assert!(!same_entry(&file, &other));
    let mut other = file.duplicate();
    other.full_path.push('x');
    assert!(!same_entry(&file, &other));
    let mut other = file.duplicate();
    other.is_dir = true;
    assert!(!same_entry(&file, &other));
}

#[test]
fn search_keeps_the_names_that_hold_the_query() {
    let snapshot = vec![
        raw("/d/cat.txt", Some(plain_file(1))),
        raw("/d/dog.txt", Some(plain_file(1))),
        raw("/d/bar", Some(plain_file(1))),
    ];
    let kept = filter_by_name(list_files(&snapshot, true), "a");
    assert_eq!(names(&kept), vec!["cat.txt".to_string(), "bar".to_string()]);
}

#[test]
fn search_matches_runs_of_characters_not_sets() {
    let snapshot = vec![
        raw("/d/abc", Some(plain_file(1))),
        raw("/d/acb", Some(plain_file(1))),
        raw("/d/xabcx", Some(plain_file(1))),
        raw("/d/ab", Some(plain_file(1))),
    ];
    let kept = filter_by_name(list_files(&snapshot, true), "abc");
    assert_eq!(names(&kept), vec!["abc".to_string(), "xabcx".to_string()]);
}

#[test]
fn empty_query_keeps_everything_and_case_matters() {
    let snapshot = vec![raw("/d/Readme", Some(plain_file(1))), raw("/d/readme", Some(plain_file(1)))];
    assert_eq!(filter_by_name(list_files(&snapshot, true), "").len(), 2);
    assert_eq!(names(&filter_by_name(list_files(&snapshot, true), "R")), vec!["Readme".to_string()]);
    assert!(filter_by_name(list_files(&snapshot, true), "z").is_empty());
}

#[test]
fn search_looks_at_the_name_not_the_path() {
    let snapshot = vec![raw("/data/x.txt", Some(plain_file(1)))];
    assert!(filter_by_name(list_files(&snapshot, true), "data").is_empty());
    assert_eq!(filter_by_name(list_files(&snapshot, true), "x.t").len(), 1);
}

#[test]
fn duplicate_equals_the_entry() {
    let file = describe("/d/a.txt", &plain_file(9));
    let copy = file.duplicate();
    assert_eq!(copy.full_path, file.full_path);
    assert_eq!(copy.name, file.name);
    assert_eq!(copy.extension, file.extension);
    assert_eq!(copy.is_dir, file.is_dir);
    assert_eq!(copy.kind_name, file.kind_name);
    assert_eq!(copy.size, file.size);
    assert_eq!(copy.modified, file.modified);
}

#[test]
fn the_extension_stands_behind_the_last_dot() {
    assert_eq!(name_extension("a.txt"), Some("txt".to_string()));
    assert_eq!(name_extension("archive.tar.gz"), Some("gz".to_string()));
    assert_eq!(name_extension("a."), Some(String::new()));
    assert_eq!(name_extension(".a.b"), Some("b".to_string()));
    assert_eq!(name_extension("é.ü"), Some("ü".to_string()));
    assert_eq!(name_extension("a..b"), Some("b".to_string()));
    assert_eq!(name_extension("..."), Some(String::new()));
}

#[test]
fn some_names_have_no_extension() {
    assert_eq!(name_extension("Makefile"), None);
    assert_eq!(name_extension(".bashrc"), None);
    assert_eq!(name_extension(""), None);
    assert_eq!(name_extension("."), None);
    assert_eq!(name_extension(".."), None);
}

#[test]
fn the_extension_is_the_one_that_the_standard_library_finds() {
    let names = [
        "a.txt", "a", ".a", ".a.b", "a.", "a..", "..a", "...", "a.b.c", "ab.cd.ef", ".x.", "x.y.",
        " .txt", "a b.c d", "é.ü", "dir.d", ".", "..", "", "-.-", "a.tar.gz", "😀.😀", "....a",
    ];
    for name in names {
        let ours = name_extension(name);
        let theirs = Path::new(name).extension().map(|e| e.to_string_lossy().to_string());
        if Path::new(name).file_name().is_some() || name.is_empty() {
            assert_eq!(ours, theirs, "for the name {:?}", name);
        }
        let path = format!("/some/dir/{}", name);
        let meta = RawMeta { is_dir: false, is_file: true, is_symlink: false, len: 0, modified: None };
        let shown = describe(&path, &meta).extension;
        let expected = Path::new(&path)
            .extension()
            .map(|e| e.to_string_lossy().to_string())
            .unwrap_or("FILE".to_string());
        assert_eq!(shown, expected, "for the path {:?}", path);
    }
}

fn short_paths(alphabet: &[char], longest: usize) -> Vec<String> {
    let mut all = vec![String::new()];
    let mut last = vec![String::new()];
    for _ in 0..longest {
        let mut next = Vec::new();
        for path in &last {
            for c in alphabet {
                let mut longer = path.clone();
                longer.push(*c);
                next.push(longer);
            }
        }
        all.extend(next.iter().cloned());
        last = next;
    }
    all
}

#[test]
fn the_final_component_ends_the_path() {
    assert_eq!(final_component("/home/user/a.txt"), Some("a.txt".to_string()));
    assert_eq!(final_component("a.txt"), Some("a.txt".to_string()));
    assert_eq!(final_component("/home/user/"), Some("user".to_string()));
    assert_eq!(final_component("/home/user///"), Some("user".to_string()));
    assert_eq!(final_component("/home/user/."), Some("user".to_string()));
    assert_eq!(final_component("/home/user/./."), Some("user".to_string()));
    assert_eq!(final_component("/home/user/.//"), Some("user".to_string()));
    assert_eq!(final_component("./a"), Some("a".to_string()));
    assert_eq!(final_component("/home/.config"), Some(".config".to_string()));
    assert_eq!(final_component("/home/..."), Some("...".to_string()));
    assert_eq!(final_component("/home/a.."), Some("a..".to_string()));
    assert_eq!(final_component("/ä/ö"), Some("ö".to_string()));
}

#[test]
fn some_paths_have_no_final_component() {
    assert_eq!(final_component(""), None);
    assert_eq!(final_component("/"), None);
    assert_eq!(final_component("//"), None);
    assert_eq!(final_component("."), None);
    assert_eq!(final_component("./"), None);
    assert_eq!(final_component("/."), None);
    assert_eq!(final_component(".."), None);
    assert_eq!(final_component("/home/.."), None);
    assert_eq!(final_component("/home/../"), None);
    assert_eq!(final_component("/home/../."), None);
}

#[test]
fn the_final_component_is_the_one_that_the_standard_library_finds() {
    for path in short_paths(&['/', '.', 'a', 'é'], 7) {
        let theirs = Path::new(&path).file_name().map(|n| n.to_string_lossy().to_string());
        assert_eq!(final_component(&path), theirs, "for the path {:?}", path);
        let hidden = theirs.map_or(false, |name| name.starts_with('.'));
        assert_eq!(is_hidden(&path), hidden, "for the path {:?}", path);
    }
}

#[test]
fn the_extension_of_a_path_is_the_one_that_the_standard_library_finds() {
    let meta = RawMeta { is_dir: false, is_file: false, is_symlink: false, len: 0, modified: None };
    for path in short_paths(&['/', '.', 'a'], 8) {
        let theirs = Path::new(&path).extension().map(|e| e.to_string_lossy().to_string());
        let ours = final_component(&path).and_then(|name| name_extension(&name));
        assert_eq!(ours, theirs, "for the path {:?}", path);
        assert_eq!(describe(&path, &meta).extension, theirs.unwrap_or("UNKNOWN".to_string()));
    }
}
