use ctgen::dict::CtGenMap;
use ctgen::error::CtGenError;
use ctgen::profile::CtGenOptions;
use ctgen::profile::CtGenProfile;
use ctgen::profile::CtGenProfileConfig;
use ctgen::profile::CtGenProfileConfigOverrides;
use ctgen::profile::CtGenPrompt;
use ctgen::profile::CtGenTarget;
use ctgen::task::answer::CtGenAnswer;
use ctgen::task::context::CtGenSchema;
use ctgen::task::output::plan_step;
use ctgen::task::output::target_let_through;
use ctgen::task::output::target_output;
use ctgen::task::output::target_path;
use ctgen::task::output::CtGenFormatter;
use ctgen::task::output::CtGenRunPlan;
use ctgen::task::output::CtGenTargetOutput;
use ctgen::task::prompt::CtGenTaskPrompt;
use ctgen::task::CtGenTask;
use ctgen::task::CtGenTaskAction;
use handlebars::Handlebars;
use serde_json::Value;

fn text(s: &str) -> String {
    s.to_string()
}

fn config(target_dir: &str, prompts: Vec<&str>, targets: Vec<&str>) -> CtGenProfileConfig {
    CtGenProfileConfig::new(
        text("demo"),
        text(".env"),
        text("DATABASE_URL"),
        text("mysql://localhost/shop"),
        text(target_dir),
        text("templates"),
        text("scripts"),
        prompts.into_iter().map(text).collect(),
        targets.into_iter().map(text).collect(),
    )
}

fn prompt(required: bool) -> CtGenPrompt {
    CtGenPrompt::new(
        None,
        None,
        text("Which one?"),
        CtGenOptions::List(vec![text("a"), text("b")]),
        false,
        false,
        required,
    )
}

fn target(condition: Option<&str>, template: &str, path: &str, formatter: Option<&str>) -> CtGenTarget {
    CtGenTarget::new(condition.map(text), text(template), text(path), formatter.map(text))
}

fn table_document(name: &str) -> Value {
    let mut table = serde_json::Map::new();
    table.insert(text("name"), Value::from(name));
    Value::Object(table)
}

fn schema(table: Option<&str>) -> CtGenSchema {
    let mut database = serde_json::Map::new();
    database.insert(text("name"), Value::from("shop"));
    CtGenSchema {
        database: Value::Object(database),
        table: table.map(table_document),
        constraints_local: vec![Value::from("fk_local")],
        constraints_foreign: vec![],
        timestamp: text("2024-01-02T03:04:05+00:00"),
    }
}

fn engine() -> Handlebars<'static> {
    let mut engine = Handlebars::new();
    engine
        .register_template_string("readme", "# {{table/name}} of {{database/name}}")
        .unwrap();
    engine
        .register_template_string("answers", "{{prompts/kind}}|{{#each prompts/tags}}{{this}};{{/each}}")
        .unwrap();
    engine
}

fn profile(
    target_dir: &str,
    prompts: Vec<(&str, CtGenPrompt)>,
    targets: Vec<(&str, CtGenTarget)>,
) -> CtGenProfile {
    let prompt_ids: Vec<&str> = prompts.iter().map(|p| p.0).collect();
    let target_ids: Vec<&str> = targets.iter().map(|t| t.0).collect();
    let config = config(target_dir, prompt_ids, target_ids);
    let mut prompt_map = CtGenMap::new();
    for (id, definition) in prompts {
        prompt_map.insert(text(id), definition);
    }
    let mut target_map = CtGenMap::new();
    for (id, definition) in targets {
        target_map.insert(text(id), definition);
    }
    CtGenProfile::assemble("", config, prompt_map, target_map, "/profiles/demo")
}

fn ready_task(prompts: Vec<(&str, CtGenPrompt)>, targets: Vec<(&str, CtGenTarget)>) -> CtGenTask {
    CtGenTask::new(
        profile("out", prompts, targets),
        "/work",
        Some("orders"),
        None,
        "/work/out",
        "shop",
        Some(schema(Some("orders"))),
        engine(),
    )
    .unwrap()
}

#[test]
fn one_target_gives_one_file_below_the_target_directory() {
    let task = ready_task(vec![], vec![("readme", target(None, "readme", "README.md", None))]);
    assert!(task.is_context_ready());
    let plan = task.run().unwrap();
    assert!(plan.failure.is_none());
    assert!(plan.stopped_at.is_none());
    assert_eq!(plan.outputs.len(), 1);
    let output = &plan.outputs[0];
    assert_eq!(output.id, "readme");
    assert_eq!(output.target, "README.md");
    assert_eq!(output.path, format!("/work/out{}README.md", std::path::MAIN_SEPARATOR));
    assert_eq!(output.body, task.render_template("readme").unwrap());
    assert_eq!(output.body, "# orders of shop");
    assert!(matches!(output.formatter, CtGenFormatter::Absent));
}

#[test]
fn generation_stops_at_the_first_condition_that_fails() {
    let task = ready_task(
        vec![],
        vec![
            ("one", target(None, "readme", "one.md", None)),
            ("two", target(Some("{{#if missing}}1{{/if}}"), "readme", "two.md", None)),
            ("three", target(None, "readme", "three.md", None)),
        ],
    );
    let plan = task.run().unwrap();
    assert!(plan.failure.is_none());
    assert_eq!(plan.stopped_at.as_deref(), Some("two"));
    assert_eq!(plan.outputs.len(), 1);
    assert_eq!(plan.outputs[0].id, "one");
}

#[test]
fn a_condition_that_renders_one_lets_the_target_through() {
    let task = ready_task(
        vec![],
        vec![
            ("one", target(Some(" {{#if table}}1{{/if}}\n"), "readme", "one.md", None)),
            ("two", target(Some("1"), "readme", "two.md", None)),
        ],
    );
    let plan = task.run().unwrap();
    assert_eq!(plan.outputs.len(), 2);
    assert_eq!(plan.outputs[1].id, "two");
    assert_eq!(plan.stopped_at, None);
}

#[test]
fn a_listed_target_without_definition_is_passed_over() {
    let config = config("out", vec![], vec!["ghost", "readme"]);
    let mut targets = CtGenMap::new();
    targets.insert(text("readme"), target(None, "readme", "README.md", None));
    let profile = CtGenProfile::assemble("", config, CtGenMap::new(), targets, "/profiles/demo");
    let task = CtGenTask::new(
        profile,
        "/work",
        Some("orders"),
        None,
        "/work/out",
        "shop",
        Some(schema(Some("orders"))),
        engine(),
    )
    .unwrap();
    let plan = task.run().unwrap();
    assert_eq!(plan.outputs.len(), 1);
    assert_eq!(plan.outputs[0].id, "readme");
}

#[test]
fn a_template_that_is_not_registered_fails_the_run_after_the_earlier_outputs() {
    let task = ready_task(
        vec![],
        vec![
            ("one", target(None, "readme", "one.md", None)),
            ("two", target(None, "nowhere", "two.md", None)),
            ("three", target(None, "readme", "three.md", None)),
        ],
    );
    let plan = task.run().unwrap();
    assert_eq!(plan.outputs.len(), 1);
    assert_eq!(plan.stopped_at.as_deref(), Some("two"));
    match plan.failure {
        Some(CtGenError::RuntimeError(message)) => assert!(!message.is_empty()),
        other => panic!("unexpected failure: {:?}", other),
    }
}

#[test]
fn a_templated_path_is_rendered_and_a_formatter_sees_the_path() {
    let task = ready_task(
        vec![],
        vec![(
            "model",
            target(None, "readme", "src/{{table/name}}.rs", Some("fmt {{target}}")),
        )],
    );
    let plan = task.run().unwrap();
    let separator = std::path::MAIN_SEPARATOR;
    let path = format!("/work/out{}src/orders.rs", separator);
    assert_eq!(plan.outputs[0].path, path);
    match &plan.outputs[0].formatter {
        CtGenFormatter::Command(command) => assert_eq!(command, &format!("fmt {}", path)),
        other => panic!("unexpected formatter: {:?}", other),
    }
}

#[test]
fn a_formatter_that_fails_to_render_ends_the_run_after_its_output() {
    let task = ready_task(
        vec![],
        vec![
            ("one", target(None, "readme", "one.md", Some("{{#if}}"))),
            ("two", target(None, "readme", "two.md", None)),
        ],
    );
    let plan = task.run().unwrap();
    assert_eq!(plan.outputs.len(), 1);
    assert!(plan.failure.is_none());
    assert_eq!(plan.stopped_at, None);
    assert!(matches!(plan.outputs[0].formatter, CtGenFormatter::Failed(CtGenError::RuntimeError(_))));
}

#[test]
fn a_condition_that_fails_to_render_ends_the_run_with_its_error() {
    let task = ready_task(
        vec![],
        vec![
            ("one", target(Some("{{#if}}"), "readme", "one.md", None)),
            ("two", target(None, "readme", "two.md", None)),
        ],
    );
    let plan = task.run().unwrap();
    assert_eq!(plan.outputs.len(), 0);
    assert_eq!(plan.stopped_at.as_deref(), Some("one"));
    assert!(matches!(plan.failure, Some(CtGenError::RuntimeError(_))));
}

#[test]
fn a_task_that_is_not_ready_does_not_run() {
    let task = CtGenTask::new(
        profile("out", vec![], vec![("readme", target(None, "readme", "README.md", None))]),
        "/work",
        None,
        None,
        "/work/out",
        "shop",
        None,
        engine(),
    )
    .unwrap();
    assert!(!task.is_context_ready());
    assert_eq!(
        task.run().unwrap_err(),
        CtGenError::RuntimeError(text("Context not ready to run all render tasks."))
    );
}

#[test]
fn the_prompts_come_in_order_database_table_then_the_profile() {
    let task = CtGenTask::new(
        profile("out", vec![("kind", prompt(false)), ("tags", prompt(false))], vec![]),
        "/work",
        None,
        None,
        "/work/out",
        "",
        None,
        engine(),
    )
    .unwrap();
    let open = task.prompts_unanswered();
    assert_eq!(open.len(), 4);
    assert!(matches!(open[0], CtGenTaskPrompt::PromptDatabase));
    assert!(matches!(open[1], CtGenTaskPrompt::PromptTable));
    match (&open[2], &open[3]) {
        (
            CtGenTaskPrompt::PromptGeneric { prompt_id: first, .. },
            CtGenTaskPrompt::PromptGeneric { prompt_id: second, .. },
        ) => {
            assert_eq!(first, "kind");
            assert_eq!(second, "tags");
        },
        _ => panic!("generic prompts expected"),
    }
    assert!(task.context().is_none());
}

#[test]
fn a_prompt_that_the_profile_does_not_define_is_refused() {
    let config = config("out", vec!["kind", "ghost"], vec![]);
    let mut prompts = CtGenMap::new();
    prompts.insert(text("kind"), prompt(false));
    let profile = CtGenProfile::assemble("", config, prompts, CtGenMap::new(), "/profiles/demo");
    let outcome = CtGenTask::new(profile, "/work", None, None, "/work/out", "", None, engine());
    match outcome {
        Err(CtGenError::ValidationError(message)) => assert_eq!(
            message,
            "Invalid prompt `ghost`. Make sure all included prompts are actually declared."
        ),
        _ => panic!("a validation error was expected"),
    }
}

#[test]
fn a_schema_without_the_subject_table_is_refused() {
    let outcome = CtGenTask::new(
        profile("out", vec![], vec![]),
        "/work",
        Some("orders"),
        None,
        "/work/out",
        "shop",
        Some(schema(None)),
        engine(),
    );
    match outcome {
        Err(e) => assert_eq!(e, CtGenError::ValidationError(text("Table not found: orders"))),
        Ok(_) => panic!("a validation error was expected"),
    }
}

#[test]
fn binding_a_database_and_setting_a_table_closes_their_prompts_for_good() {
    let mut task = CtGenTask::new(
        profile("out", vec![("kind", prompt(false))], vec![]),
        "/work",
        None,
        None,
        "/work/out",
        "",
        None,
        engine(),
    )
    .unwrap();
    let open = task.prompts_unanswered();
    let action = task
        .set_prompt_answer(&open[0], CtGenAnswer::Text(text("shop")))
        .unwrap();
    assert!(matches!(action, CtGenTaskAction::BindDatabase(ref name) if name == "shop"));
    assert_eq!(task.prompts_unanswered().len(), 3);
    assert!(matches!(task.database_bound("shop"), CtGenTaskAction::Done));
    for _ in 0..3 {
        let open = task.prompts_unanswered();
        assert_eq!(open.len(), 2);
        assert!(matches!(open[0], CtGenTaskPrompt::PromptTable));
    }
    let open = task.prompts_unanswered();
    let action = task
        .set_prompt_answer(&open[0], CtGenAnswer::Text(text("orders")))
        .unwrap();
    assert!(matches!(action, CtGenTaskAction::ListTables(ref name) if name == "orders"));
    let tables = vec![text("customers"), text("orders")];
    let action = task.tables_listed("orders", &tables).unwrap();
    assert!(matches!(action, CtGenTaskAction::Reflect(ref name) if name == "orders"));
    assert_eq!(task.table(), Some("orders"));
    for _ in 0..3 {
        let open = task.prompts_unanswered();
        assert_eq!(open.len(), 1);
        assert!(matches!(open[0], CtGenTaskPrompt::PromptGeneric { .. }));
    }
    task.schema_reflected(schema(Some("orders"))).unwrap();
    assert!(task.context().is_some());
    assert!(!task.is_context_ready());
}

#[test]
fn a_table_that_the_database_does_not_hold_is_refused() {
    let mut task = CtGenTask::new(
        profile("out", vec![], vec![]),
        "/work",
        None,
        None,
        "/work/out",
        "shop",
        None,
        engine(),
    )
    .unwrap();
    let tables = vec![text("customers")];
    assert_eq!(
        task.tables_listed("orders", &tables).unwrap_err(),
        CtGenError::ValidationError(text("Table does not exist"))
    );
    assert_eq!(task.table(), None);
}

#[test]
fn a_required_prompt_refuses_empty_answers_and_takes_short_ones() {
    let mut task = ready_task(vec![("kind", prompt(true)), ("tags", prompt(true))], vec![]);
    let open = task.prompts_unanswered();
    assert_eq!(open.len(), 2);
    assert_eq!(
        task.set_prompt_answer(&open[0], CtGenAnswer::Text(text(""))).unwrap_err(),
        CtGenError::ValidationError(text("Invalid answer to prompt kind"))
    );
    assert_eq!(
        task.set_prompt_answer(&open[0], CtGenAnswer::Text(text("  \n"))).unwrap_err(),
        CtGenError::ValidationError(text("Invalid answer to prompt kind"))
    );
    assert_eq!(
        task.set_prompt_answer(&open[1], CtGenAnswer::List(vec![])).unwrap_err(),
        CtGenError::ValidationError(text("Invalid answer to prompt tags"))
    );
    assert_eq!(task.prompts_unanswered().len(), 2);
    assert!(task.prompt_answer("kind").is_none());
    task.set_prompt_answer(&open[0], CtGenAnswer::Text(text("x"))).unwrap();
    task.set_prompt_answer(&open[1], CtGenAnswer::List(vec![text("x")])).unwrap();
    assert_eq!(task.prompts_unanswered().len(), 0);
    assert_eq!(task.prompt_answer("kind"), Some(&CtGenAnswer::Text(text("x"))));
    assert_eq!(task.prompt_answer("tags"), Some(&CtGenAnswer::List(vec![text("x")])));
    assert!(task.is_context_ready());
}

#[test]
fn a_prompt_that_is_not_required_takes_an_empty_answer() {
    let mut task = ready_task(vec![("kind", prompt(false))], vec![]);
    let open = task.prompts_unanswered();
    task.set_prompt_answer(&open[0], CtGenAnswer::Text(text(""))).unwrap();
    assert_eq!(task.prompt_answer("kind"), Some(&CtGenAnswer::Text(text(""))));
    assert!(task.is_context_ready());
}

#[test]
fn answers_reach_the_context_and_a_later_answer_replaces_an_earlier_one() {
    let mut task = ready_task(vec![("kind", prompt(false)), ("tags", prompt(false))], vec![]);
    let open = task.prompts_unanswered();
    task.set_prompt_answer(&open[0], CtGenAnswer::Text(text("model"))).unwrap();
    task.set_prompt_answer(&open[1], CtGenAnswer::List(vec![text("a"), text("b")])).unwrap();
    assert_eq!(task.render_template("answers").unwrap(), "model|a;b;");
    task.set_prompt_answer(&open[0], CtGenAnswer::Text(text("view"))).unwrap();
    assert_eq!(task.render_template("answers").unwrap(), "view|a;b;");
    assert_eq!(task.render("{{prompts/kind}} of {{table_name}}").unwrap(), "view of orders");
    assert_eq!(task.prompt_answers().len(), 2);
}

#[test]
fn answers_given_before_the_context_are_in_it_once_it_is_made() {
    let mut task = CtGenTask::new(
        profile("out", vec![("kind", prompt(false))], vec![]),
        "/work",
        Some("orders"),
        None,
        "/work/out",
        "shop",
        None,
        engine(),
    )
    .unwrap();
    let open = task.prompts_unanswered();
    let action = task
        .set_prompt_answer(&open[0], CtGenAnswer::Text(text("model")))
        .unwrap();
    assert!(matches!(action, CtGenTaskAction::Reflect(ref name) if name == "orders"));
    assert_eq!(task.render("{{#if this}}some{{else}}none{{/if}}").unwrap(), "none");
    task.schema_reflected(schema(Some("orders"))).unwrap();
    assert_eq!(task.render("{{prompts/kind}}").unwrap(), "model");
    assert!(task.is_context_ready());
}

#[test]
fn a_render_that_fails_is_a_runtime_error_with_the_message_of_the_engine() {
    let task = ready_task(vec![], vec![]);
    match task.render("{{#if}}") {
        Err(CtGenError::RuntimeError(message)) => assert!(message.len() > 7),
        _ => panic!("a runtime error was expected"),
    }
    match task.render_template("nowhere") {
        Err(CtGenError::RuntimeError(message)) => assert!(message.contains("nowhere")),
        _ => panic!("a runtime error was expected"),
    }
}

#[test]
fn the_getters_hand_back_what_the_task_was_made_with() {
    let overrides = CtGenProfileConfigOverrides::new(None, None, Some(text("mysql://h/db")), None);
    let task = CtGenTask::new(
        profile("out", vec![], vec![]),
        "/work",
        Some("orders"),
        Some(overrides),
        "/work/out",
        "shop",
        None,
        engine(),
    )
    .unwrap();
    assert_eq!(task.context_dir(), "/work");
    assert_eq!(task.target_dir(), "/work/out");
    assert_eq!(task.database(), "shop");
    assert_eq!(task.table(), Some("orders"));
    assert_eq!(task.overrides().unwrap().dsn(), Some("mysql://h/db"));
    assert_eq!(task.profile().name(), "demo");
    assert_eq!(task.prompts().len(), 0);
    assert!(task.renderer().has_template("readme"));
}

fn output(id: &str, formatter: Option<Result<String, CtGenError>>) -> CtGenTargetOutput {
    let declared = target(None, "readme", "README.md", None);
    target_output(id, &declared, "/work/out", "/", text("body"), None, formatter)
}

fn empty_plan() -> CtGenRunPlan {
    CtGenRunPlan { outputs: vec![], stopped_at: None, failure: None }
}

#[test]
fn an_output_is_made_of_what_the_templates_rendered_to() {
    let literal = target(None, "readme", "README.md", None);
    let made = target_output("docs", &literal, "/work/out", "/", text("# body"), None, None);
    assert_eq!(made.id, "docs");
    assert_eq!(made.target, "README.md");
    assert_eq!(made.path, "/work/out/README.md");
    assert_eq!(made.body, "# body");
    assert!(matches!(made.formatter, CtGenFormatter::Absent));

    let templated = target(None, "model", "src/{{table/name}}.rs", Some("fmt {{target}}"));
    let made = target_output(
        "model",
        &templated,
        "/work/out",
        "\\",
        text("struct Orders;"),
        Some(text("src/orders.rs")),
        Some(Ok(text("fmt x"))),
    );
    assert_eq!(made.target, "src/{{table/name}}.rs");
    assert_eq!(made.path, "/work/out\\src/orders.rs");
    assert_eq!(made.body, "struct Orders;");
    assert!(matches!(made.formatter, CtGenFormatter::Command(ref c) if c == "fmt x"));

    let failed = target_output(
        "model",
        &templated,
        "/work/out",
        "/",
        text(""),
        None,
        Some(Err(CtGenError::RuntimeError(text("broken")))),
    );
    assert_eq!(failed.path, "/work/out/src/{{table/name}}.rs");
    assert_eq!(failed.body, "");
    assert!(matches!(
        failed.formatter,
        CtGenFormatter::Failed(CtGenError::RuntimeError(ref m)) if m == "broken"
    ));
    assert_eq!(target_path(&templated, "/t", "/", Some("a.rs")), "/t/a.rs");
    assert_eq!(target_path(&templated, "/t", "/", None), "/t/src/{{table/name}}.rs");
}

#[test]
fn a_target_is_let_through_by_no_condition_or_by_a_one() {
    assert!(target_let_through(&None));
    assert!(target_let_through(&Some(Ok(text("1")))));
    assert!(target_let_through(&Some(Ok(text(" 1 \n")))));
    assert!(!target_let_through(&Some(Ok(text("")))));
    assert!(!target_let_through(&Some(Ok(text("0")))));
    assert!(!target_let_through(&Some(Ok(text("true")))));
    assert!(!target_let_through(&Some(Ok(text("11")))));
    assert!(!target_let_through(&Some(Err(CtGenError::RuntimeError(text("x"))))));
}

#[test]
fn a_step_adds_an_output_and_goes_on() {
    let mut plan = empty_plan();
    assert!(plan_step(&mut plan, "one", None, Some(Ok(output("one", None)))));
    assert!(plan_step(&mut plan, "two", Some(Ok(text(" 1"))), Some(Ok(output("two", Some(Ok(text("fmt"))))))));
    assert_eq!(plan.outputs.len(), 2);
    assert_eq!(plan.outputs[0].id, "one");
    assert_eq!(plan.outputs[1].id, "two");
    assert_eq!(plan.stopped_at, None);
    assert_eq!(plan.failure, None);
}

#[test]
fn a_step_stops_at_a_condition_that_does_not_hold() {
    let mut plan = empty_plan();
    assert!(plan_step(&mut plan, "one", None, Some(Ok(output("one", None)))));
    assert!(!plan_step(&mut plan, "two", Some(Ok(text("0"))), None));
    assert_eq!(plan.outputs.len(), 1);
    assert_eq!(plan.stopped_at.as_deref(), Some("two"));
    assert_eq!(plan.failure, None);

    let mut plan = empty_plan();
    assert!(!plan_step(&mut plan, "one", Some(Ok(text(""))), Some(Ok(output("one", None)))));
    assert_eq!(plan.outputs.len(), 0);
    assert_eq!(plan.stopped_at.as_deref(), Some("one"));
}

#[test]
fn a_step_stops_with_the_failure_of_a_condition_or_of_a_target() {
    let mut plan = empty_plan();
    let broken = CtGenError::RuntimeError(text("broken condition"));
    assert!(!plan_step(&mut plan, "one", Some(Err(broken.clone())), None));
    assert_eq!(plan.outputs.len(), 0);
    assert_eq!(plan.stopped_at.as_deref(), Some("one"));
    assert_eq!(plan.failure, Some(broken));

    let mut plan = empty_plan();
    let failed = CtGenError::RuntimeError(text("no template"));
    assert!(plan_step(&mut plan, "one", None, Some(Ok(output("one", None)))));
    assert!(!plan_step(&mut plan, "two", Some(Ok(text("1"))), Some(Err(failed.clone()))));
    assert_eq!(plan.outputs.len(), 1);
    assert_eq!(plan.stopped_at.as_deref(), Some("two"));
    assert_eq!(plan.failure, Some(failed));
}

#[test]
fn a_step_stops_after_an_output_whose_formatter_failed() {
    let mut plan = empty_plan();
    let failed = Some(Err(CtGenError::RuntimeError(text("broken"))));
    assert!(!plan_step(&mut plan, "one", None, Some(Ok(output("one", failed)))));
    assert_eq!(plan.outputs.len(), 1);
    assert_eq!(plan.stopped_at, None);
    assert_eq!(plan.failure, None);
}

#[test]
fn a_step_without_anything_for_a_target_that_is_let_through_changes_nothing() {
    let mut plan = empty_plan();
    assert!(plan_step(&mut plan, "one", None, None));
    assert_eq!(plan.outputs.len(), 0);
    assert_eq!(plan.stopped_at, None);
    assert_eq!(plan.failure, None);
}
