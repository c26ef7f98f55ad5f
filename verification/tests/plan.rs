use kiln::plan::{BuildPlan, EnvMap, Stage};

fn stage(name: &str) -> Stage {
    Stage {
        name: name.to_string(),
        base_image: "img".to_string(),
        workdir: "/app".to_string(),
        commands: vec![],
        copy_files: vec![],
        copy_from: vec![],
    }
}

fn plan_with(stage_names: &[&str]) -> BuildPlan {
    BuildPlan { stages: stage_names.iter().map(|n| stage(n)).collect(), ..Default::default() }
}

#[test]
fn build_stage_index_prefers_a_named_build_stage() {
    assert_eq!(plan_with(&["deps", "build", "runtime"]).build_stage_index(), 1);
}

#[test]
fn build_stage_index_falls_back_to_first_stage() {
    assert_eq!(plan_with(&["build", "runtime"]).build_stage_index(), 0);
    assert_eq!(plan_with(&["runtime"]).build_stage_index(), 0);
    assert_eq!(plan_with(&[]).build_stage_index(), 0);
}

#[test]
fn build_stage_index_takes_the_first_build_stage() {
    assert_eq!(plan_with(&["deps", "runtime", "build", "build"]).build_stage_index(), 2);
}

#[test]
fn env_map_keeps_names_sorted_and_unique() {
    let mut env = EnvMap::new();
    assert!(env.is_empty());
    env.insert("B".to_string(), "1".to_string());
    env.insert("A".to_string(), "2".to_string());
    env.insert("B".to_string(), "3".to_string());
    assert_eq!(env.len(), 2);
    assert_eq!(env.get("B").map(String::as_str), Some("3"));
    assert_eq!(env.get("A").map(String::as_str), Some("2"));
    assert_eq!(env.get("C"), None);
    let names: Vec<&str> = env.entries().iter().map(|(k, _)| k.as_str()).collect();
    assert_eq!(names, vec!["A", "B"]);
    let copy = env.duplicate();
    assert_eq!(copy.get("A").map(String::as_str), Some("2"));
    assert_eq!(copy.len(), 2);
}
