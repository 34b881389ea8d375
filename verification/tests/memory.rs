use devnpc::adapter::memory::{
    cap_results, extract_keywords, fix_query_params, like_patterns, push_unique, MemoryStore,
};
use devnpc::config::SummaryConfig;
use devnpc::memory::context::{RepoTree, TreeKind};
use devnpc::memory::repo_index::{build_repo_tree, key_file_paths, parse_ls_tree, select_key_files, take_first_n_lines};

const TOP: &str = "100644 blob aaa\tCargo.toml\n100644 blob bbb\tREADME.md\n040000 tree ccc\tsrc\n";
const SRC: &str = "100644 blob ddd\tsrc/main.rs\n040000 tree eee\tsrc/handler\n";

fn tree() -> RepoTree {
    build_repo_tree(TOP, &vec![SRC.to_string()])
}

fn contents_for(tree: &RepoTree, files: &[(&str, &str)]) -> Vec<Option<String>> {
    tree.entries
        .iter()
        .map(|e| files.iter().find(|(p, _)| *p == e.path).map(|(_, c)| c.to_string()))
        .collect()
}

#[test]
fn build_repo_tree_contains_top_level_files_and_dirs() {
    let tree = tree();
    let paths: Vec<&str> = tree.entries.iter().map(|e| e.path.as_str()).collect();
    assert!(paths.contains(&"Cargo.toml"));
    assert!(paths.contains(&"README.md"));
    assert!(paths.contains(&"src"));
    let src_entry = tree.entries.iter().find(|e| e.path == "src").unwrap();
    assert_eq!(src_entry.kind, TreeKind::Dir);
}

#[test]
fn build_repo_tree_includes_second_level_entries() {
    let tree = tree();
    let paths: Vec<&str> = tree.entries.iter().map(|e| e.path.as_str()).collect();
    assert!(paths.contains(&"src/main.rs"));
    assert!(paths.contains(&"src/handler"));
    assert_eq!(paths, vec!["Cargo.toml", "README.md", "src", "src/main.rs", "src/handler"]);
}

#[test]
fn build_repo_tree_marks_files_as_file_kind() {
    let tree = tree();
    let cargo = tree.entries.iter().find(|e| e.path == "Cargo.toml").unwrap();
    assert_eq!(cargo.kind, TreeKind::File);
}

#[test]
fn parse_ls_tree_skips_other_lines() {
    let entries = parse_ls_tree("160000 commit fff\tvendor\nnot a tree line\n100644 blob a\tx y.txt");
    assert_eq!(entries.len(), 1);
    assert_eq!(entries[0].path, "x y.txt");
}

#[test]
fn select_key_files_picks_cargo_toml_and_readme() {
    let tree = tree();
    let contents = contents_for(&tree, &[("Cargo.toml", "[package]\nname = \"x\""), ("README.md", "# x")]);
    let key_files = select_key_files(&tree, &contents, &SummaryConfig::default());
    let paths: Vec<&str> = key_files.iter().map(|f| f.path.as_str()).collect();
    assert!(paths.contains(&"Cargo.toml"));
    assert!(paths.contains(&"README.md"));
}

#[test]
fn select_key_files_cargo_toml_summary_includes_package_name() {
    let tree = tree();
    let contents = contents_for(&tree, &[("Cargo.toml", "[package]\nname = \"demo\"\nversion = \"0.1.0\"\n")]);
    let key_files = select_key_files(&tree, &contents, &SummaryConfig::default());
    let cargo = key_files.iter().find(|f| f.path == "Cargo.toml").unwrap();
    assert!(cargo.summary.contains("[package]") || cargo.summary.contains("name"));
}

#[test]
fn select_key_files_readme_summary_capped_at_30_lines() {
    let tree = tree();
    let long_readme = (1..=50).map(|i| format!("line {i}")).collect::<Vec<_>>().join("\n");
    let contents = contents_for(&tree, &[("README.md", long_readme.as_str())]);
    let key_files = select_key_files(&tree, &contents, &SummaryConfig::default());
    let readme = key_files.iter().find(|f| f.path == "README.md").unwrap();
    assert!(readme.summary.lines().count() <= 30);
}

#[test]
fn select_key_files_picks_src_main_rs() {
    let tree = tree();
    let contents = contents_for(&tree, &[("src/main.rs", "fn main() {}")]);
    let key_files = select_key_files(&tree, &contents, &SummaryConfig::default());
    let paths: Vec<&str> = key_files.iter().map(|f| f.path.as_str()).collect();
    assert!(paths.contains(&"src/main.rs"));
}

#[test]
fn select_key_files_ignores_non_key_files() {
    let tree = build_repo_tree("100644 blob a\trandom.txt\n100644 blob b\tREADME.md", &vec![]);
    let contents = contents_for(&tree, &[("random.txt", "data"), ("README.md", "r")]);
    let key_files = select_key_files(&tree, &contents, &SummaryConfig::default());
    let paths: Vec<&str> = key_files.iter().map(|f| f.path.as_str()).collect();
    assert!(!paths.contains(&"random.txt"));
    assert_eq!(key_file_paths(&tree, &SummaryConfig::default()), vec![1]);
}

#[test]
fn first_lines_are_taken() {
    assert_eq!(take_first_n_lines("a\nb\nc", 2), "a\nb");
    assert_eq!(take_first_n_lines("a", 5), "a");
}

#[test]
fn test_retrieve_relevant_returns_empty_for_short_keywords() {
    assert!(extract_keywords("a b c").is_empty());
}

#[test]
fn keywords_and_like_patterns() {
    let kws = extract_keywords("修复 登录功能 ab");
    assert!(kws.contains(&"登录功能".to_string()));
    assert!(!kws.contains(&"ab".to_string()));
    let pats = like_patterns(&vec!["abc".to_string()]);
    assert_eq!(pats, vec!["%abc%".to_string()]);
    assert_eq!(fix_query_params(&pats), vec!["%abc%".to_string(), "%abc%".to_string()]);
}

#[test]
fn results_are_unique_and_capped() {
    let mut v = Vec::new();
    push_unique(&mut v, "x".into());
    push_unique(&mut v, "x".into());
    push_unique(&mut v, "y".into());
    assert_eq!(v, vec!["x".to_string(), "y".to_string()]);
    let mut many: Vec<String> = (0..20).map(|i| i.to_string()).collect();
    cap_results(&mut many);
    assert!(many.len() < 20);
}

#[test]
fn test_disabled_store_does_nothing() {
    let store = MemoryStore::new(devnpc::config::MemoryConfig { enabled: false, db_path: ":memory:".into() });
    assert!(!store.enabled());
}

#[test]
fn modified_files_are_stored_as_json() {
    let record = devnpc::adapter::memory::TaskRecord {
        task_description: "t".into(),
        result_summary: "s".into(),
        modified_files: vec!["src/auth.rs".into(), "a\"b".into()],
        duration_secs: 1,
        token_consumption: 2,
        success: true,
        created_at: String::new(),
    };
    assert_eq!(devnpc::adapter::memory::modified_files_json(&record), "[\"src/auth.rs\",\"a\\\"b\"]");
}

#[test]
fn combined_results_put_tasks_first_without_repeats_and_cap_ten() {
    let tasks: Vec<String> = vec!["t1".into(), "t2".into(), "t1".into()];
    let fixes: Vec<String> = (0..12).map(|i| format!("f{i}")).chain(std::iter::once("t2".to_string())).collect();
    let r = devnpc::adapter::memory::combine_results(&tasks, &fixes);
    assert_eq!(r.len(), 10);
    assert_eq!(r[0], "t1");
    assert_eq!(r[1], "t2");
    assert_eq!(r[2], "f0");
    assert_eq!(r[9], "f7");
    let few = devnpc::adapter::memory::combine_results(&vec!["a".into()], &vec!["a".into(), "b".into()]);
    assert_eq!(few, vec!["a".to_string(), "b".to_string()]);
}
