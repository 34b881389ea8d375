use devnpc::config::CommandConfig;
use devnpc::error::DevnpcError;
use devnpc::tools::aft::{
    char_index_at_byte, parse_nodes, trim_end_matches, AftAstReplaceTool, AftEditSymbolTool, AftOutlineTool,
    AftSearchSymbolsTool, AftViewSymbolTool, SourceEdit,
};
use devnpc::tools::file_io::FileIo;
use devnpc::tools::finish::FinishTool;
use devnpc::tools::shell::{command_result, timeout_result, RunCommandTool};
use devnpc::tools::{bad_arguments, unknown_tool, ToolResult};

fn io() -> FileIo {
    FileIo::new("/ws".to_string())
}

#[test]
fn tool_result_ok_and_err_constructors() {
    let ok = ToolResult::ok("done");
    assert!(ok.success);
    assert_eq!(ok.output, "done");
    let err = ToolResult::err("fail");
    assert!(!err.success);
    assert_eq!(err.output, "fail");
}

#[test]
fn call_returns_error_for_unknown_tool() {
    assert!(matches!(unknown_tool("nonexistent"), DevnpcError::Tool { tool, .. } if tool == "nonexistent"));
    assert!(matches!(bad_arguments("t", "m"), DevnpcError::Tool { tool, msg } if tool == "t" && msg == "m"));
}

#[test]
fn finish_default_constructs() {
    let _tool = FinishTool;
    let tool = FinishTool::default();
    assert_eq!(tool.name(), "finish");
}

#[test]
fn finish_handles_missing_summary() {
    let tool = FinishTool::new();
    assert_eq!(tool.output(None), "FINISH:");
    assert_eq!(tool.output(Some("已修复登录 bug")), "FINISH:已修复登录 bug");
}

#[test]
fn validate_path_blocks_traversal() {
    let result = io().validate_path("../etc/passwd");
    assert!(matches!(result, Err(DevnpcError::PathTraversal { .. })));
}

#[test]
fn validate_path_allows_inside_workspace() {
    assert_eq!(io().validate_path("src/main.rs").unwrap(), "/ws/src/main.rs");
    assert_eq!(io().validate_path("a/../b.rs").unwrap(), "/ws/a/../b.rs");
}

#[test]
fn validate_path_rejects_absolute_and_escaping_paths() {
    assert!(io().validate_path("/etc/passwd").is_err());
    assert!(io().validate_path("a/../../b").is_err());
    assert!(io().validate_path("..").is_err());
}

#[test]
fn denied_command_is_refused_even_when_allowed() {
    let cfg = CommandConfig {
        allowlist: vec!["rm".into(), "cargo".into()],
        denylist: vec!["rm".into()],
        default_timeout_secs: 30,
    };
    let tool = RunCommandTool::new("/ws".into(), cfg);
    let refused = tool.check_command("rm").unwrap();
    assert!(!refused.success);
    assert_eq!(refused.output, "命令 rm 在黑名单中");
    assert!(tool.check_command("cargo").is_none());
    let other = tool.check_command("curl").unwrap();
    assert_eq!(other.output, "命令 curl 不在白名单中 (允许: rm, cargo)");
}

#[test]
fn command_timeout_defaults_to_config() {
    let tool = RunCommandTool::new("/ws".into(), CommandConfig::default());
    assert_eq!(tool.effective_timeout(None), 120);
    assert_eq!(tool.effective_timeout(Some(5)), 5);
    assert_eq!(tool.with_timeout(9).effective_timeout(None), 9);
}

#[test]
fn command_results_report_exit_code_and_stderr() {
    let ok = command_result(true, Some(0), "out", "");
    assert!(ok.success);
    assert_eq!(ok.output, "out");
    let failed = command_result(false, Some(-2), "out", "err");
    assert!(!failed.success);
    assert_eq!(failed.output, "退出码 Some(-2)\nout\n[stderr]\nerr");
    assert_eq!(command_result(false, None, "", "").output, "退出码 None\n");
    assert_eq!(timeout_result(30).output, "命令超时 (30s)");
}

#[test]
fn aft_outline_returns_symbols() {
    let src = "\nfn hello() {}\nstruct MyStruct { x: i32 }\nenum MyEnum { A, B }\ntrait MyTrait { fn foo(); }\nimpl MyTrait for MyStruct {}\n";
    let result = AftOutlineTool::new(io()).outline(src);
    assert!(result.success);
    assert!(result.output.contains("hello"));
    assert!(result.output.contains("MyStruct"));
    assert!(result.output.contains("MyEnum"));
    assert!(result.output.contains("MyTrait"));
    assert!(result.output.contains("function hello (line 2-2)"));
    assert!(result.output.contains("struct MyStruct (line 3-3)"));
}

#[test]
fn aft_outline_empty_file() {
    let result = AftOutlineTool::new(io()).outline("");
    assert!(result.success);
    assert_eq!(result.output, "(无顶层符号)");
}

#[test]
fn aft_view_symbol_returns_function_body() {
    let src = "\nfn helper() -> i32 {\n    42\n}\n";
    let result = AftViewSymbolTool::new(io()).view(src, "helper").unwrap();
    assert!(result.success);
    assert!(result.output.contains("fn helper"));
    assert!(result.output.contains("42"));
    assert_eq!(result.output, "fn helper() -> i32 {\n    42\n}");
}

#[test]
fn aft_view_symbol_not_found() {
    let result = AftViewSymbolTool::new(io()).view("fn foo() {}", "nonexistent");
    match result {
        Err(DevnpcError::Tool { tool, msg }) => {
            assert_eq!(tool, "aft_view_symbol");
            assert_eq!(msg, "未找到符号: nonexistent");
        }
        other => panic!("expected tool error, got {other:?}"),
    }
}

#[test]
fn aft_view_symbol_handles_multibyte_text() {
    let src = "// 注释：中文\nfn 你好() -> &'static str { \"世界\" }\n";
    let result = AftViewSymbolTool::new(io()).view(src, "你好").unwrap();
    assert_eq!(result.output, "fn 你好() -> &'static str { \"世界\" }");
}

#[test]
fn aft_edit_symbol_replaces_symbol() {
    let src = "\nfn old_func() -> i32 {\n    1\n}\n";
    let edit = AftEditSymbolTool::new(io()).edit(src, "old_func", "fn new_func() -> i32 {\n    999\n}").unwrap();
    match edit {
        SourceEdit::Rewrite { source, result } => {
            assert!(result.success);
            assert_eq!(result.output, "已替换符号 old_func");
            assert!(source.contains("new_func"));
            assert!(source.contains("999"));
            assert!(!source.contains("old_func"));
            assert_eq!(source, "\nfn new_func() -> i32 {\n    999\n}\n");
        }
        other => panic!("expected a rewrite, got {other:?}"),
    }
}

#[test]
fn aft_edit_symbol_rejects_broken_syntax() {
    let edit = AftEditSymbolTool::new(io()).edit("\nfn ok() -> i32 { 1 }\n", "ok", "fn broken( -> i32 { 1 }").unwrap();
    match edit {
        SourceEdit::Keep(result) => {
            assert!(!result.success);
            assert!(result.output.contains("语法错误"));
        }
        other => panic!("expected the file kept, got {other:?}"),
    }
}

#[test]
fn aft_edit_symbol_not_found() {
    assert!(matches!(
        AftEditSymbolTool::new(io()).edit("fn a() {}", "b", "fn b() {}"),
        Err(DevnpcError::Tool { .. })
    ));
}

#[test]
fn aft_search_symbols_finds_by_pattern() {
    let files = vec![
        (
            "math.rs".to_string(),
            "\nfn add(a: i32, b: i32) -> i32 { a + b }\nfn sub(a: i32, b: i32) -> i32 { a - b }\nstruct Point { x: f64, y: f64 }\n"
                .to_string(),
        ),
        ("main.rs".to_string(), "\nfn main() {}\n".to_string()),
    ];
    let tool = AftSearchSymbolsTool::new(io());
    let result = tool.search("add|sub", &files).unwrap();
    assert!(result.success);
    assert!(result.output.contains("add"));
    assert!(result.output.contains("sub"));
    assert!(!result.output.contains("Point"));
    assert_eq!(result.output, "math.rs: function add (line 2)\nmath.rs: function sub (line 3)");
}

#[test]
fn aft_search_symbols_reports_no_match_and_bad_pattern() {
    let tool = AftSearchSymbolsTool::new(io());
    let files = vec![("a.rs".to_string(), "fn a() {}".to_string())];
    assert_eq!(tool.search("zzz", &files).unwrap().output, "(无匹配符号)");
    assert!(matches!(tool.search("(", &files), Err(DevnpcError::Tool { .. })));
    assert!(tool.check_pattern("(").is_err());
    assert!(tool.check_pattern("a+").is_ok());
}

#[test]
fn aft_search_root_and_skipped_dirs() {
    let tool = AftSearchSymbolsTool::new(io());
    assert_eq!(tool.search_root("").unwrap(), "/ws");
    assert_eq!(tool.search_root("src").unwrap(), "/ws/src");
    assert!(tool.search_root("../x").is_err());
    assert!(AftSearchSymbolsTool::skips_dir("target"));
    assert!(AftSearchSymbolsTool::skips_dir(".git"));
    assert!(AftSearchSymbolsTool::skips_dir("node_modules"));
    assert!(!AftSearchSymbolsTool::skips_dir("src"));
}

#[test]
fn aft_ast_replace_replaces_text() {
    let tool = AftAstReplaceTool::new(io());
    let edit = tool.replace("fn old_name() -> i32 { 1 }", "old_name", "new_name", "").unwrap();
    match edit {
        SourceEdit::Rewrite { source, result } => {
            assert!(result.success);
            assert_eq!(result.output, "替换完成");
            assert!(source.contains("new_name"));
        }
        other => panic!("expected a rewrite, got {other:?}"),
    }
}

#[test]
fn aft_ast_replace_no_match() {
    let tool = AftAstReplaceTool::new(io());
    match tool.replace("fn foo() {}", "bar", "baz", "").unwrap() {
        SourceEdit::Keep(result) => {
            assert!(result.success);
            assert_eq!(result.output, "(无匹配,未修改)");
        }
        other => panic!("expected the file kept, got {other:?}"),
    }
}

#[test]
fn aft_ast_replace_case_flag_and_syntax_check() {
    let tool = AftAstReplaceTool::new(io());
    assert_eq!(tool.check_pattern("abc", "i").unwrap(), "(?i)abc");
    assert_eq!(tool.check_pattern("abc", "").unwrap(), "abc");
    match tool.replace("fn FOO() {}", "foo", "bar", "i").unwrap() {
        SourceEdit::Rewrite { source, .. } => assert_eq!(source, "fn bar() {}"),
        other => panic!("expected a rewrite, got {other:?}"),
    }
    match tool.replace("fn foo() {}", r"\{\}", "{", "").unwrap() {
        SourceEdit::Keep(result) => assert_eq!(result.output, "替换后源码语法错误,操作已取消"),
        other => panic!("expected the file kept, got {other:?}"),
    }
    assert!(matches!(tool.replace("x", "[", "y", ""), Err(DevnpcError::Tool { .. })));
}

#[test]
fn syntax_nodes_are_listed_in_pre_order() {
    let nodes = parse_nodes("fn a() {}");
    assert_eq!(nodes[0].kind, "source_file");
    assert_eq!(nodes[1].kind, "function_item");
    assert_eq!(nodes[1].name.as_deref(), Some("a"));
    assert_eq!(nodes[1].start_byte, 0);
    assert_eq!(nodes[1].end_byte, 9);
}

#[test]
fn byte_offsets_map_to_char_positions() {
    let chars: Vec<char> = "a中b".chars().collect();
    assert_eq!(char_index_at_byte(&chars, 0), Some(0));
    assert_eq!(char_index_at_byte(&chars, 1), Some(1));
    assert_eq!(char_index_at_byte(&chars, 2), None);
    assert_eq!(char_index_at_byte(&chars, 4), Some(2));
    assert_eq!(char_index_at_byte(&chars, 5), Some(3));
    assert_eq!(char_index_at_byte(&chars, 6), None);
}

#[test]
fn trim_end_matches_repeats() {
    assert_eq!(trim_end_matches("foo_item_item", "_item"), "foo");
    assert_eq!(trim_end_matches("macro_invocation", "_item"), "macro_invocation");
    assert_eq!(trim_end_matches("abc", ""), "abc");
}

#[test]
fn run_command_rejects_non_whitelisted() {
    let tool = RunCommandTool::new("/ws".into(), CommandConfig::default());
    let result = tool.check_command("ls").unwrap();
    assert!(!result.success);
    assert!(result.output.contains("不在白名单"));
}

#[test]
fn run_command_rejects_blacklisted() {
    let tool = RunCommandTool::new("/ws".into(), CommandConfig::default());
    let result = tool.check_command("rm").unwrap();
    assert!(!result.success);
    assert!(result.output.contains("黑名单"));
}

#[test]
fn finish_returns_success_with_summary() {
    let tool = FinishTool::new();
    let result = ToolResult::ok(&tool.output(Some("已修复登录 bug")));
    assert!(result.success);
    assert!(result.output.contains("已修复登录 bug"));
}
