use ctgen::dict::CtGenMap;
use ctgen::error::CtGenError;
use ctgen::profile::CtGenOptions;
use ctgen::profile::CtGenProfile;
use ctgen::profile::CtGenProfileConfig;
use ctgen::profile::CtGenProfileConfigOverrides;
use ctgen::profile::CtGenPrompt;
use ctgen::task::context::CtGenSchema;
use ctgen::task::prompt::CtGenTaskPrompt;
use ctgen::task::setup::resolve_directive;
use ctgen::task::setup::CtGenSetupAction;
use ctgen::task::setup::CtGenSetupEvent;
use ctgen::task::setup::CtGenSetupStage;
use ctgen::task::setup::CtGenTaskSetup;
use handlebars::Handlebars;
use serde_json::Value;

fn text(s: &str) -> String {
    s.to_string()
}

fn profile_with(dsn: &str, env_file: &str, env_var: &str, target_dir: &str, prompts: Vec<&str>) -> CtGenProfile {
    let config = CtGenProfileConfig::new(
        text("demo"),
        text(env_file),
        text(env_var),
        text(dsn),
        text(target_dir),
        text("templates"),
        text("."),
        prompts.iter().map(|p| text(p)).collect(),
        vec![],
    );
    let mut prompt_map = CtGenMap::new();
    for id in prompts {
        if id != "ghost" {
            prompt_map.insert(
                text(id),
                CtGenPrompt::new(None, None, text("?"), CtGenOptions::Other, false, false, false),
            );
        }
    }
    CtGenProfile::assemble("", config, prompt_map, CtGenMap::new(), "/profiles/demo")
}

fn schema(table: bool) -> CtGenSchema {
    CtGenSchema {
        database: Value::from("db"),
        table: if table { Some(Value::from("t")) } else { None },
        constraints_local: vec![],
        constraints_foreign: vec![],
        timestamp: text("2024-01-02T03:04:05+00:00"),
    }
}

fn begin(
    profile: CtGenProfile,
    table: Option<&str>,
    overrides: Option<CtGenProfileConfigOverrides>,
) -> (CtGenTaskSetup, CtGenSetupAction) {
    CtGenTaskSetup::begin_with(profile, "/work", table, overrides, "/")
}

fn validation(action: CtGenSetupAction) -> String {
    match action {
        CtGenSetupAction::Fail(CtGenError::ValidationError(message)) => message,
        other => panic!("a validation error was expected, not {:?}", other),
    }
}

#[test]
fn an_override_shadows_the_directive_of_the_profile() {
    assert_eq!(resolve_directive(Some("a"), "b"), "a");
    assert_eq!(resolve_directive(None, "b"), "b");
    assert_eq!(resolve_directive(Some(""), "b"), "b");
    assert_eq!(resolve_directive(Some(""), ""), "");
    assert_eq!(resolve_directive(Some("a"), ""), "a");
}

#[test]
fn an_empty_override_leaves_the_directive_of_the_profile_in_force() {
    let overrides = CtGenProfileConfigOverrides::new(
        Some(text("")),
        Some(text("")),
        Some(text("")),
        Some(text("")),
    );
    let (mut setup, action) = begin(profile_with("mysql://h/db", ".env", "URL", "out", vec![]), None, Some(overrides));
    assert!(matches!(action, CtGenSetupAction::CreateDir(ref dir) if dir == "/work/out"));
    setup.advance(CtGenSetupEvent::DirCreated);
    let action = setup.advance(CtGenSetupEvent::DirProbed { exists: true, writable: true });
    assert!(matches!(action, CtGenSetupAction::Connect(ref dsn) if dsn == "mysql://h/db"));

    let overrides = CtGenProfileConfigOverrides::new(Some(text("")), Some(text("")), None, None);
    let (mut setup, action) = begin(profile_with("", ".env", "URL", "out", vec![]), None, Some(overrides));
    assert!(matches!(action, CtGenSetupAction::LoadEnvFile(ref file) if file == ".env"));
    let action = setup.advance(CtGenSetupEvent::EnvFileLoaded);
    assert!(matches!(action, CtGenSetupAction::ReadEnvVar(ref var) if var == "URL"));
}

#[test]
fn a_connection_string_wins_over_the_environment() {
    let (mut setup, action) = begin(profile_with("mysql://h/db", "", "", "out", vec![]), None, None);
    assert!(matches!(action, CtGenSetupAction::CreateDir(ref dir) if dir == "/work/out"));
    assert_eq!(setup.stage(), CtGenSetupStage::CreateDir);
    let action = setup.advance(CtGenSetupEvent::DirCreated);
    assert!(matches!(action, CtGenSetupAction::ProbeDir(ref dir) if dir == "/work/out"));
    let action = setup.advance(CtGenSetupEvent::DirProbed { exists: true, writable: true });
    assert!(matches!(action, CtGenSetupAction::Connect(ref dsn) if dsn == "mysql://h/db"));
}

#[test]
fn an_overriding_connection_string_wins_too() {
    let overrides = CtGenProfileConfigOverrides::new(None, None, Some(text("mysql://other/db")), Some(text(".")));
    let (mut setup, action) = begin(profile_with("", ".env", "URL", "out", vec![]), None, Some(overrides));
    assert!(matches!(action, CtGenSetupAction::ProbeDir(ref dir) if dir == "/work"));
    let action = setup.advance(CtGenSetupEvent::DirProbed { exists: true, writable: true });
    assert!(matches!(action, CtGenSetupAction::Connect(ref dsn) if dsn == "mysql://other/db"));
}

#[test]
fn without_a_connection_string_the_environment_file_is_needed_first() {
    let (setup, action) = begin(profile_with("", "", "", "out", vec![]), None, None);
    assert_eq!(
        validation(action),
        "Invalid env-file specified. Either valid DSN or valid env-file is required."
    );
    assert_eq!(setup.stage(), CtGenSetupStage::Failed);
}

#[test]
fn the_environment_variable_is_asked_for_after_the_file_is_loaded() {
    let (mut setup, action) = begin(profile_with("", ".env", "", "out", vec![]), None, None);
    assert!(matches!(action, CtGenSetupAction::LoadEnvFile(ref file) if file == ".env"));
    let action = setup.advance(CtGenSetupEvent::EnvFileLoaded);
    assert_eq!(
        validation(action),
        "Invalid env-var specified. Either valid DSN or valid env-file and env-var is required."
    );
}

#[test]
fn the_value_of_the_environment_variable_is_the_connection_string() {
    let (mut setup, _) = begin(profile_with("", ".env", "URL", "", vec![]), None, None);
    let action = setup.advance(CtGenSetupEvent::EnvFileLoaded);
    assert!(matches!(action, CtGenSetupAction::ReadEnvVar(ref var) if var == "URL"));
    let action = setup.advance(CtGenSetupEvent::EnvVarRead(text("mysql://env/db")));
    assert!(matches!(action, CtGenSetupAction::ProbeDir(ref dir) if dir == "/work"));
    let action = setup.advance(CtGenSetupEvent::DirProbed { exists: true, writable: true });
    assert!(matches!(action, CtGenSetupAction::Connect(ref dsn) if dsn == "mysql://env/db"));
}

#[test]
fn failures_of_the_outside_work_are_reported_by_stage() {
    let (mut setup, _) = begin(profile_with("", ".env", "URL", "", vec![]), None, None);
    let action = setup.advance(CtGenSetupEvent::Failed(text("no such file")));
    assert_eq!(validation(action), "Invalid env file specified: no such file");

    let (mut setup, _) = begin(profile_with("", ".env", "URL", "", vec![]), None, None);
    setup.advance(CtGenSetupEvent::EnvFileLoaded);
    let action = setup.advance(CtGenSetupEvent::Failed(text("not present")));
    assert_eq!(validation(action), "Invalid env var specified: not present");

    let (mut setup, _) = begin(profile_with("x", "", "", "out", vec![]), None, None);
    let action = setup.advance(CtGenSetupEvent::Failed(text("denied")));
    assert!(matches!(
        action,
        CtGenSetupAction::Fail(CtGenError::InitError(ref m)) if m == "Cannot create config directory: denied"
    ));

    let (mut setup, _) = begin(profile_with("x", "", "", "", vec![]), None, None);
    setup.advance(CtGenSetupEvent::DirProbed { exists: true, writable: true });
    let action = setup.advance(CtGenSetupEvent::Failed(text("refused")));
    assert!(matches!(
        action,
        CtGenSetupAction::Fail(CtGenError::DatabaseError(ref m)) if m == "refused"
    ));
}

#[test]
fn a_target_directory_that_is_missing_or_read_only_is_refused() {
    for (exists, writable) in [(false, true), (true, false), (false, false)] {
        let (mut setup, _) = begin(profile_with("x", "", "", "", vec![]), None, None);
        let action = setup.advance(CtGenSetupEvent::DirProbed { exists, writable });
        assert_eq!(validation(action), "Invalid target-dir specified.");
    }
}

#[test]
fn a_given_table_has_to_be_among_the_tables() {
    let (mut setup, _) = begin(profile_with("x", "", "", "", vec![]), Some("orders"), None);
    setup.advance(CtGenSetupEvent::DirProbed { exists: true, writable: true });
    let action = setup.advance(CtGenSetupEvent::Connected(text("shop")));
    assert!(matches!(action, CtGenSetupAction::ListTables));
    let action = setup.advance(CtGenSetupEvent::TablesListed(vec![text("customers")]));
    assert_eq!(validation(action), "Table does not exist");
}

#[test]
fn with_database_and_table_the_schema_is_reflected_and_the_task_has_its_context() {
    let (mut setup, _) = begin(profile_with("x", "", "", "", vec!["kind"]), Some("orders"), None);
    setup.advance(CtGenSetupEvent::DirProbed { exists: true, writable: true });
    setup.advance(CtGenSetupEvent::Connected(text("shop")));
    let action = setup.advance(CtGenSetupEvent::TablesListed(vec![text("orders")]));
    assert!(matches!(action, CtGenSetupAction::Reflect(ref table) if table == "orders"));
    let action = setup.advance(CtGenSetupEvent::SchemaReflected(schema(true)));
    match action {
        CtGenSetupAction::BuildRenderer { templates_dir, scripts_dir } => {
            assert_eq!(templates_dir, "/profiles/demo/templates");
            assert_eq!(scripts_dir, "/profiles/demo");
        },
        other => panic!("unexpected action {:?}", other),
    }
    assert_eq!(setup.stage(), CtGenSetupStage::Renderer);
    let task = setup.finish(Handlebars::new()).unwrap();
    assert!(task.context().is_some());
    assert_eq!(task.target_dir(), "/work");
    assert_eq!(task.database(), "shop");
    let open = task.prompts_unanswered();
    assert_eq!(open.len(), 1);
    assert!(matches!(open[0], CtGenTaskPrompt::PromptGeneric { .. }));
}

#[test]
fn a_reflected_schema_without_the_table_is_refused() {
    let (mut setup, _) = begin(profile_with("x", "", "", "", vec![]), Some("orders"), None);
    setup.advance(CtGenSetupEvent::DirProbed { exists: true, writable: true });
    setup.advance(CtGenSetupEvent::Connected(text("shop")));
    setup.advance(CtGenSetupEvent::TablesListed(vec![text("orders")]));
    let action = setup.advance(CtGenSetupEvent::SchemaReflected(schema(false)));
    assert_eq!(validation(action), "Table not found: orders");
}

#[test]
fn without_a_bound_database_the_task_starts_with_both_prompts_open() {
    let (mut setup, _) = begin(profile_with("x", "", "", "", vec![]), None, None);
    setup.advance(CtGenSetupEvent::DirProbed { exists: true, writable: true });
    let action = setup.advance(CtGenSetupEvent::Connected(text("")));
    assert!(matches!(action, CtGenSetupAction::BuildRenderer { .. }));
    let task = setup.finish(Handlebars::new()).unwrap();
    let open = task.prompts_unanswered();
    assert_eq!(open.len(), 2);
    assert!(task.context().is_none());
}

#[test]
fn a_listed_prompt_without_definition_fails_the_preparation() {
    let (mut setup, _) = begin(profile_with("x", "", "", "", vec!["kind", "ghost"]), None, None);
    setup.advance(CtGenSetupEvent::DirProbed { exists: true, writable: true });
    let action = setup.advance(CtGenSetupEvent::Connected(text("shop")));
    assert_eq!(
        validation(action),
        "Invalid prompt `ghost`. Make sure all included prompts are actually declared."
    );
}

#[test]
fn an_event_that_the_stage_does_not_wait_for_fails_the_preparation() {
    let (mut setup, _) = begin(profile_with("x", "", "", "", vec![]), None, None);
    let action = setup.advance(CtGenSetupEvent::EnvFileLoaded);
    assert!(matches!(
        action,
        CtGenSetupAction::Fail(CtGenError::RuntimeError(ref m)) if m == "Unexpected event for this stage."
    ));
    assert_eq!(setup.stage(), CtGenSetupStage::Failed);
    match setup.finish(Handlebars::new()) {
        Err(e) => assert_eq!(
            e,
            CtGenError::RuntimeError(text("The preparation of the task is not complete."))
        ),
        Ok(_) => panic!("an error was expected"),
    }
}

#[test]
fn the_platform_separator_joins_the_target_directory() {
    let (_, action) = CtGenTaskSetup::begin(profile_with("x", "", "", "out", vec![]), "/work", None, None);
    let expected = format!("/work{}out", std::path::MAIN_SEPARATOR);
    assert!(matches!(action, CtGenSetupAction::CreateDir(ref dir) if dir == &expected));
}
