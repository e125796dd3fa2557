use roder_tui::files::{
    git_listed_paths, relative_file_completion_path, should_skip_file_completion_path,
    workspace_file_completion_items, MAX_FILE_COMPLETION_CACHE,
};

#[test]
fn completion_items_are_sorted_and_unique() {
    let paths = vec![
        "src/main.rs".to_string(),
        "README.md".to_string(),
        "src/lib.rs".to_string(),
        "README.md".to_string(),
        "Cargo.toml".to_string(),
    ];
    let items = workspace_file_completion_items(paths);
    let names = items.iter().map(|item| item.path.as_str()).collect::<Vec<_>>();
    assert_eq!(names, ["Cargo.toml", "README.md", "src/lib.rs", "src/main.rs"]);
}

#[test]
fn completion_items_keep_only_the_smallest_paths() {
    let mut paths = (0..MAX_FILE_COMPLETION_CACHE + 50)
        .rev()
        .map(|i| format!("f{i:05}"))
        .collect::<Vec<_>>();
    paths.push("a".to_string());
    let items = workspace_file_completion_items(paths);
    assert_eq!(items.len(), MAX_FILE_COMPLETION_CACHE);
    assert_eq!(items[0].path, "a");
    assert_eq!(items[1].path, "f00000");
    assert_eq!(items[MAX_FILE_COMPLETION_CACHE - 1].path, "f00998");
}

#[test]
fn completion_items_sort_by_code_point_like_strings() {
    let paths = vec!["é".to_string(), "z".to_string(), "Z".to_string(), "".to_string()];
    let items = workspace_file_completion_items(paths.clone());
    let mut expected = paths;
    expected.sort();
    let names = items.into_iter().map(|item| item.path).collect::<Vec<_>>();
    assert_eq!(names, expected);
}

#[test]
fn completion_walk_skips_tool_and_build_directories() {
    for name in [".git", "target", "node_modules", ".DS_Store", ".roder"] {
        assert!(should_skip_file_completion_path(name));
    }
    assert!(!should_skip_file_completion_path("src"));
    assert!(!should_skip_file_completion_path(".github"));
}

#[test]
fn completion_paths_are_relative_to_the_workspace() {
    assert_eq!(
        relative_file_completion_path("/work/repo", "/work/repo/src/lib.rs"),
        "src/lib.rs"
    );
    assert_eq!(
        relative_file_completion_path("/work/repo", "/elsewhere/a.rs"),
        "/elsewhere/a.rs"
    );
    assert_eq!(
        relative_file_completion_path("/work", "/work/dir\\name.rs"),
        "dir/name.rs"
    );
}

#[test]
fn git_listing_keeps_non_blank_lines_up_to_the_cap() {
    assert_eq!(
        git_listed_paths("src/a.rs\n\n  \nREADME.md\r\n"),
        Some(vec!["src/a.rs".to_string(), "README.md".to_string()])
    );
    assert_eq!(git_listed_paths(""), None);
    assert_eq!(git_listed_paths(" \n\t\n"), None);
    let many: String = (0..1500).map(|i| format!("f{i}\n")).collect();
    let listed = git_listed_paths(&many).unwrap();
    assert_eq!(listed.len(), MAX_FILE_COMPLETION_CACHE);
    assert_eq!(listed[999], "f999");
}
