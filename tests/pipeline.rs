use build_pipeline::args::{PyrsiaBuildPipelineArgs, DEFAULT_PORT};
use build_pipeline::build_pipeline::{
    build_command, build_outcome, exited_successfully, failure_reason, is_well_formed,
    locate_artifacts, lookup_artifact, plan_build, split_docker_id, ArtifactEntry,
    ArtifactLookup, BuildError, MappingInfo, PackageType, SourceRepository,
};
use build_pipeline::states::{BuildArtifact, BuildInfo, BuildStates, BuildStatus};
use build_pipeline::text::{find_char, signed_text, text_after, text_before, unsigned_text};

fn docker(id: &str) -> MappingInfo {
    MappingInfo {
        package_type: PackageType::Docker,
        package_specific_id: id.to_string(),
        source_repository: None,
        build_spec_url: None,
    }
}

fn maven(repo: Option<(&str, &str)>, spec: Option<&str>) -> MappingInfo {
    MappingInfo {
        package_type: PackageType::Maven2,
        package_specific_id: "org.example:lib:1.0".to_string(),
        source_repository: repo.map(|(url, tag)| SourceRepository::Git {
            url: url.to_string(),
            tag: tag.to_string(),
        }),
        build_spec_url: spec.map(|s| s.to_string()),
    }
}

fn entry(name: &str, is_file: bool) -> ArtifactEntry {
    ArtifactEntry { file_name: Some(name.to_string()), is_file }
}

fn status_of(states: &BuildStates, id: &str) -> Option<BuildStatus> {
    states.get_build_info(id).map(|i| i.status)
}

#[test]
fn tag_reference_gets_library_prefix() {
    let plan = build_command(&docker("foo:bar"), "job-1").ok().unwrap();
    assert_eq!(plan.args[4..].to_vec(), vec!["library/foo".to_string(), "bar".to_string()]);
}

#[test]
fn digest_reference_splits_on_at() {
    let plan = build_command(&docker("registry/foo@sha256:abcd"), "job-2").ok().unwrap();
    assert_eq!(
        plan.args[4..].to_vec(),
        vec!["registry/foo".to_string(), "sha256:abcd".to_string()]
    );
}

#[test]
fn docker_plan_is_complete() {
    let plan = build_command(&docker("nginx:1.21"), "abc").ok().unwrap();
    assert_eq!(plan.id, "abc");
    assert_eq!(plan.working_dir, "/tmp/pyrsia-build-pipeline/abc");
    assert_eq!(plan.recipe_source, "pipelines/build-Docker.sh");
    assert_eq!(plan.recipe_file, "build-Docker.sh");
    assert_eq!(plan.program, "sh");
    assert_eq!(
        plan.args,
        vec!["build-Docker.sh", "Docker", "nginx:1.21", "abc", "library/nginx", "1.21"]
    );
}

#[test]
fn maven_plan_carries_source_and_spec() {
    let m = maven(Some(("https://git.example/lib", "v1")), Some("https://spec.example/b"));
    let plan = build_command(&m, "m1").ok().unwrap();
    assert_eq!(
        plan.args,
        vec![
            "build-Maven2.sh",
            "Maven2",
            "org.example:lib:1.0",
            "m1",
            "https://git.example/lib",
            "v1",
            "https://spec.example/b"
        ]
    );
    let plan = build_command(&maven(Some(("u", "t")), None), "m2").ok().unwrap();
    assert_eq!(plan.args.len(), 6);
}

#[test]
fn maven_without_source_is_malformed() {
    let mut states = BuildStates::new();
    let m = maven(None, None);
    assert!(!is_well_formed(&m));
    assert!(matches!(build_command(&m, "x"), Err(BuildError::MalformedRequest)));
    assert!(matches!(plan_build(&states, &m), Err(BuildError::MalformedRequest)));
    assert!(status_of(&states, "x").is_none());
    assert!(states.begin_build("y").is_some());
}

#[test]
fn docker_without_separator_is_malformed() {
    assert!(matches!(build_command(&docker("foo"), "x"), Err(BuildError::MalformedRequest)));
}

#[test]
fn split_keeps_second_segment_only() {
    assert_eq!(split_docker_id("a:b:c"), ("library/a".to_string(), "b".to_string()));
    assert_eq!(split_docker_id("x/y@d1@d2"), ("x/y".to_string(), "d1".to_string()));
}

#[test]
fn text_helpers() {
    assert_eq!(find_char("abc", 'c'), 2);
    assert_eq!(find_char("abc", 'z'), 3);
    assert_eq!(text_before("k=v", '='), "k");
    assert_eq!(text_after("k=v", '='), "v");
    assert_eq!(text_after("kv", '='), "");
    assert_eq!(unsigned_text(4096), "4096");
    assert_eq!(signed_text(-17), "-17");
    assert_eq!(signed_text(i32::MIN), i32::MIN.to_string());
}

#[test]
fn planned_ids_are_fresh_and_distinct() {
    let mut states = BuildStates::new();
    let m = docker("foo:bar");
    let mut seen: Vec<String> = Vec::new();
    for _ in 0..5 {
        let plan = plan_build(&states, &m).ok().unwrap();
        assert_eq!(plan.id.len(), 36);
        assert_ne!(plan.id, "foo:bar");
        assert!(!seen.contains(&plan.id));
        assert!(states.begin_build(&plan.id).is_some());
        seen.push(plan.id);
    }
}

#[test]
fn lifecycle_is_running_then_terminal_once() {
    let mut states = BuildStates::new();
    let started = states.begin_build("j").unwrap();
    assert_eq!(started.id, "j");
    assert!(matches!(started.status, BuildStatus::Running));
    assert!(states.begin_build("j").is_none());
    assert!(!states.finish_build("j", BuildStatus::Running));
    assert!(states.finish_build("j", BuildStatus::Failure("1".to_string())));
    assert!(!states.finish_build("j", BuildStatus::Success { artifacts: vec![] }));
    assert!(matches!(status_of(&states, "j"), Some(BuildStatus::Failure(r)) if r == "1"));
    assert!(!states.finish_build("unknown", BuildStatus::Failure("x".to_string())));
    assert!(status_of(&states, "unknown").is_none());
}

#[test]
fn get_after_put_returns_record() {
    let mut states = BuildStates::new();
    let info = BuildInfo { id: "r".to_string(), status: BuildStatus::Failure("e".to_string()) };
    states.update_build_info("r", info);
    let got = states.get_build_info("r").unwrap();
    assert_eq!(got.id, "r");
    assert!(matches!(got.status, BuildStatus::Failure(ref s) if s == "e"));
    states.update_build_info("r", BuildInfo { id: "r".to_string(), status: BuildStatus::Running });
    assert!(matches!(status_of(&states, "r"), Some(BuildStatus::Running)));
    assert!(states.has_build("r"));
    assert!(!states.has_build("s"));
}

#[test]
fn repeated_reads_agree() {
    let mut states = BuildStates::new();
    states.begin_build("a");
    let art = BuildArtifact {
        artifact_url: "/build/a/artifacts/x".to_string(),
        source_artifact_url: "x".to_string(),
    };
    assert!(states.finish_build("a", BuildStatus::Success { artifacts: vec![art] }));
    let first = format!("{:?}", states.get_build_info("a"));
    let second = format!("{:?}", states.get_build_info("a"));
    assert_eq!(first, second);
}

#[test]
fn artifact_requests_follow_status() {
    let mut states = BuildStates::new();
    states.begin_build("run");
    assert!(matches!(lookup_artifact(&states, "run", "a.txt"), ArtifactLookup::Pending));
    states.begin_build("bad");
    states.finish_build("bad", BuildStatus::Failure("2".to_string()));
    assert!(matches!(lookup_artifact(&states, "bad", "a.txt"), ArtifactLookup::Gone(r) if r == "2"));
    states.begin_build("ok");
    states.finish_build("ok", BuildStatus::Success { artifacts: vec![] });
    match lookup_artifact(&states, "ok", "a.txt") {
        ArtifactLookup::Fetch(p) => assert_eq!(p, "/tmp/pyrsia-build-pipeline/ok/artifacts/a.txt"),
        _ => panic!("expected a path"),
    }
}

#[test]
fn unknown_job_artifact_is_not_found() {
    let states = BuildStates::new();
    assert!(matches!(lookup_artifact(&states, "nope", "a.txt"), ArtifactLookup::NotFound));
}

#[test]
fn successful_exit_lists_artifacts() {
    let entries = vec![entry("a.txt", true), entry("b.bin", true)];
    let info = build_outcome("id7", Some(0), &entries);
    assert_eq!(info.id, "id7");
    match info.status {
        BuildStatus::Success { artifacts } => {
            assert_eq!(artifacts.len(), 2);
            assert_eq!(artifacts[0].artifact_url, "/build/id7/artifacts/a.txt");
            assert_eq!(artifacts[0].source_artifact_url, "a.txt");
            assert_eq!(artifacts[1].artifact_url, "/build/id7/artifacts/b.bin");
            assert_eq!(artifacts[1].source_artifact_url, "b.bin");
        }
        _ => panic!("expected success"),
    }
}

#[test]
fn exit_code_one_is_failure() {
    let info = build_outcome("id8", Some(1), &vec![entry("a.txt", true)]);
    assert!(matches!(info.status, BuildStatus::Failure(ref r) if r == "1"));
}

#[test]
fn abnormal_exit_reason() {
    assert_eq!(failure_reason(None), "process terminated abnormally");
    assert_eq!(failure_reason(Some(-9)), "-9");
    assert_eq!(failure_reason(Some(137)), "137");
    assert!(exited_successfully(Some(0)));
    assert!(!exited_successfully(Some(3)));
    assert!(!exited_successfully(None));
}

#[test]
fn locator_skips_directories_and_bad_names() {
    let entries = vec![
        entry("sub", false),
        ArtifactEntry { file_name: None, is_file: true },
        entry("z.jar", true),
    ];
    let arts = locate_artifacts("q", &entries);
    assert_eq!(arts.len(), 1);
    assert_eq!(arts[0].artifact_url, "/build/q/artifacts/z.jar");
    assert!(locate_artifacts("q", &vec![]).is_empty());
}

#[test]
fn package_names_and_defaults() {
    assert_eq!(PackageType::Docker.name(), "Docker");
    assert_eq!(PackageType::Maven2.name(), "Maven2");
    let d = PyrsiaBuildPipelineArgs::default();
    assert_eq!(d.host, "127.0.0.1");
    assert_eq!(d.port, DEFAULT_PORT);
    assert_eq!(DEFAULT_PORT, 8080);
}
