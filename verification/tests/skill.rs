use devnpc::config::skill::{
    filter_tools_by_skills, inject_skills, is_skill_file, Skill, SkillRegistry, SkillScenarios, SkillSource,
};
use devnpc::error::DevnpcError;
use devnpc::trigger::parser::TaskKind;

fn make_skill(
    name: &str,
    instruction: &str,
    tools: Vec<&str>,
    task_kinds: Vec<&str>,
    keywords: Vec<&str>,
    priority: i32,
) -> Skill {
    Skill {
        name: name.into(),
        description: String::new(),
        instruction: instruction.into(),
        tools: tools.into_iter().map(String::from).collect(),
        scenarios: SkillScenarios {
            task_kinds: task_kinds.into_iter().map(String::from).collect(),
            keywords: keywords.into_iter().map(String::from).collect(),
        },
        priority,
    }
}

#[test]
fn load_skill_registry_reads_all_yamls() {
    let sources = vec![
        SkillSource { path: "frontend.yml".into(), parsed: Ok(make_skill("frontend", "a", vec![], vec![], vec![], 10)) },
        SkillSource { path: "security.yml".into(), parsed: Ok(make_skill("security", "b", vec![], vec![], vec![], 20)) },
        SkillSource { path: "database.yml".into(), parsed: Ok(make_skill("database", "c", vec![], vec![], vec![], 15)) },
    ];
    let registry = SkillRegistry::load(sources).unwrap();
    assert_eq!(registry.skills.len(), 3);
    assert!(registry.get("frontend").is_some());
    assert!(registry.get("security").is_some());
    assert!(registry.get("database").is_some());
}

#[test]
fn load_skill_registry_empty_dir_returns_default() {
    let registry = SkillRegistry::load(Vec::new()).unwrap();
    assert!(registry.skills.is_empty());
}

#[test]
fn load_skill_registry_nonexistent_dir_returns_default() {
    let registry = SkillRegistry::load(Vec::new()).unwrap();
    assert!(registry.skills.is_empty());
}

#[test]
fn load_skill_registry_ignores_non_yaml() {
    assert!(!is_skill_file("readme.txt"));
    assert!(is_skill_file("valid.yml"));
    assert!(is_skill_file("valid.yaml"));
    assert!(!is_skill_file(".yml"));
}

#[test]
fn load_fails_on_first_bad_skill_file() {
    let sources = vec![
        SkillSource { path: "ok.yml".into(), parsed: Ok(make_skill("ok", "", vec![], vec![], vec![], 1)) },
        SkillSource { path: "bad.yml".into(), parsed: Err("missing field `name`".into()) },
        SkillSource { path: "worse.yml".into(), parsed: Err("other".into()) },
    ];
    match SkillRegistry::load(sources) {
        Err(DevnpcError::Config(msg)) => assert_eq!(msg, "解析 bad.yml 失败: missing field `name`"),
        other => panic!("expected config error, got {other:?}"),
    }
}

#[test]
fn insert_replaces_skill_of_same_name() {
    let mut registry = SkillRegistry::new();
    registry.insert(make_skill("a", "first", vec![], vec![], vec![], 1));
    registry.insert(make_skill("b", "", vec![], vec![], vec![], 2));
    registry.insert(make_skill("a", "second", vec![], vec![], vec![], 3));
    assert_eq!(registry.skills.len(), 2);
    assert_eq!(registry.get("a").unwrap().instruction, "second");
    assert!(registry.get("c").is_none());
}

#[test]
fn match_skills_by_task_kind() {
    let registry = SkillRegistry {
        skills: vec![
            make_skill("frontend", "前端", vec![], vec!["implement"], vec![], 10),
            make_skill("security", "安全", vec![], vec!["review"], vec![], 20),
        ],
    };
    let matched = registry.match_skills(&TaskKind::Implement, "添加新功能");
    assert_eq!(matched.len(), 1);
    assert_eq!(matched[0].name, "frontend");
}

#[test]
fn match_skills_by_keyword() {
    let registry = SkillRegistry {
        skills: vec![
            make_skill("frontend", "前端", vec![], vec![], vec!["react", "css"], 10),
            make_skill("database", "DB", vec![], vec![], vec!["sql", "索引"], 15),
        ],
    };
    let matched = registry.match_skills(&TaskKind::Implement, "用 react 重写页面");
    assert_eq!(matched.len(), 1);
    assert_eq!(matched[0].name, "frontend");
}

#[test]
fn match_skills_multiple_match_sorted_by_priority() {
    let registry = SkillRegistry {
        skills: vec![
            make_skill("frontend", "前端", vec![], vec!["implement"], vec!["ui"], 10),
            make_skill("database", "DB", vec![], vec!["implement"], vec!["sql"], 15),
            make_skill("security", "安全", vec![], vec!["fix"], vec![], 20),
        ],
    };
    let matched = registry.match_skills(&TaskKind::Implement, "实现 ui 和 sql 查询");
    assert_eq!(matched.len(), 2);
    assert_eq!(matched[0].name, "database");
    assert_eq!(matched[1].name, "frontend");
}

#[test]
fn match_skills_no_match_returns_empty() {
    let registry =
        SkillRegistry { skills: vec![make_skill("frontend", "前端", vec![], vec!["implement"], vec!["react"], 10)] };
    let matched = registry.match_skills(&TaskKind::Fix, "修复编译错误");
    assert!(matched.is_empty());
}

#[test]
fn match_skills_empty_registry_returns_empty() {
    let registry = SkillRegistry::default();
    let matched = registry.match_skills(&TaskKind::Implement, "任何描述");
    assert!(matched.is_empty());
}

#[test]
fn match_skills_case_insensitive_keyword() {
    let registry = SkillRegistry { skills: vec![make_skill("db", "DB", vec![], vec![], vec!["SQL"], 10)] };
    let matched = registry.match_skills(&TaskKind::Implement, "优化 sql 查询");
    assert_eq!(matched.len(), 1);
}

#[test]
fn match_skills_keeps_order_of_equal_priorities() {
    let registry = SkillRegistry {
        skills: vec![
            make_skill("first", "", vec![], vec!["test"], vec![], 5),
            make_skill("second", "", vec![], vec!["test"], vec![], 5),
            make_skill("top", "", vec![], vec!["test"], vec![], 9),
        ],
    };
    let matched = registry.match_skills(&TaskKind::Test, "");
    let names: Vec<&str> = matched.iter().map(|s| s.name.as_str()).collect();
    assert_eq!(names, vec!["top", "first", "second"]);
}

#[test]
fn inject_skills_empty_returns_base() {
    let base = "你是开发者。";
    let result = inject_skills(base, &[]);
    assert_eq!(result, base);
}

#[test]
fn inject_skills_single_appends_instruction() {
    let base = "你是开发者。";
    let skill = make_skill("security", "检查漏洞", vec![], vec![], vec![], 10);
    let result = inject_skills(base, &[&skill]);
    assert!(result.contains("你是开发者。"));
    assert!(result.contains("## 专家技能: security"));
    assert!(result.contains("检查漏洞"));
}

#[test]
fn inject_skills_multiple_appends_all() {
    let base = "你是开发者。";
    let s1 = make_skill("frontend", "前端规范", vec![], vec![], vec![], 10);
    let s2 = make_skill("security", "安全规范", vec![], vec![], vec![], 20);
    let result = inject_skills(base, &[&s1, &s2]);
    assert!(result.contains("## 专家技能: frontend"));
    assert!(result.contains("前端规范"));
    assert!(result.contains("## 专家技能: security"));
    assert!(result.contains("安全规范"));
}

#[test]
fn inject_skills_skips_empty_instruction() {
    let base = "你是开发者。";
    let skill = make_skill("empty", "", vec![], vec![], vec![], 10);
    let result = inject_skills(base, &[&skill]);
    assert_eq!(result, base);
}

#[test]
fn filter_tools_by_skills_no_constraint_returns_all() {
    let tools = vec!["read_file".to_string(), "run_command".to_string()];
    let skills: Vec<&Skill> = vec![];
    let result = filter_tools_by_skills(tools, &skills);
    assert_eq!(result.len(), 2);
}

#[test]
fn filter_tools_by_skills_with_constraint() {
    let tools = vec!["aft_view_symbol".to_string(), "run_command".to_string()];
    let skill = make_skill("frontend", "前端", vec!["view_symbol"], vec![], vec![], 10);
    let result = filter_tools_by_skills(tools, &[&skill]);
    assert_eq!(result, vec!["aft_view_symbol".to_string()]);
}

#[test]
fn filter_tools_by_skills_multiple_skills_union() {
    let tools = vec!["aft_view_symbol".to_string(), "aft_edit_symbol".to_string(), "run_command".to_string()];
    let s1 = make_skill("frontend", "", vec!["view_symbol"], vec![], vec![], 10);
    let s2 = make_skill("db", "", vec!["run_command"], vec![], vec![], 10);
    let result = filter_tools_by_skills(tools, &[&s1, &s2]);
    assert_eq!(result.len(), 2);
}

#[test]
fn list_skills_sorted_by_priority() {
    let registry = SkillRegistry {
        skills: vec![
            make_skill("low", "", vec![], vec![], vec![], 5),
            make_skill("high", "", vec![], vec![], vec![], 100),
            make_skill("mid", "", vec![], vec![], vec![], 50),
        ],
    };
    let list = registry.list();
    assert_eq!(list, vec!["high", "mid", "low"]);
}
