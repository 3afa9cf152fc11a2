use ctgen::cli::parse_prompt_key_val;
use ctgen::cli::profile_name_to_add;
use ctgen::cli::profile_name_to_run;
use ctgen::cli::run_overrides;
use ctgen::cli::suggested_profile_name;
use ctgen::dict::CtGenMap;
use ctgen::error::CtGenError;
use ctgen::profile::CtGenOptions;
use ctgen::profile::CtGenProfile;
use ctgen::profile::CtGenProfileConfig;
use ctgen::profile::CtGenPrompt;
use ctgen::task::answer::CtGenAnswer;
use ctgen::task::context::CtGenSchema;
use ctgen::task::context::CtGenTaskContext;
use ctgen::task::output::is_templated;
use ctgen::task::prompt::condition_met;
use ctgen::task::prompt::CtGenRenderedPrompt;
use ctgen::task::prompt::CtGenTaskPrompt;
use ctgen::task::render::json_answer;
use ctgen::task::render::json_texts;
use ctgen::task::render::rendered;
use ctgen::task::CtGenTask;
use ctgen::text::as_opt_str;
use ctgen::text::chars_of;
use ctgen::text::clone_opt;
use ctgen::text::clone_pairs;
use ctgen::text::clone_texts;
use ctgen::text::contains_text;
use ctgen::text::is_whitespace;
use ctgen::text::own_opt;
use ctgen::text::same_text;
use handlebars::Handlebars;
use serde_json::Value;

fn text(s: &str) -> String {
    s.to_string()
}

fn definition(condition: Option<&str>, enumerate: Option<&str>, options: CtGenOptions) -> CtGenPrompt {
    CtGenPrompt::new(
        condition.map(text),
        enumerate.map(text),
        text("Pick for {{table_name}}"),
        options,
        true,
        true,
        false,
    )
}

fn schema() -> CtGenSchema {
    let mut table = serde_json::Map::new();
    table.insert(text("name"), Value::from("orders"));
    let mut columns = Vec::new();
    columns.push(Value::from("id"));
    columns.push(Value::from("total"));
    table.insert(text("columns"), Value::from(columns));
    CtGenSchema {
        database: Value::from("shop"),
        table: Some(Value::Object(table)),
        constraints_local: vec![Value::from("fk_a"), Value::from("fk_b")],
        constraints_foreign: vec![Value::from("fk_c")],
        timestamp: text("2024-01-02T03:04:05+00:00"),
    }
}

fn task_with(prompts: Vec<(&str, CtGenPrompt)>) -> CtGenTask {
    let config = CtGenProfileConfig::new(
        text("demo"),
        text(""),
        text(""),
        text("dsn"),
        text(""),
        text(""),
        text(""),
        prompts.iter().map(|p| text(p.0)).collect(),
        vec![],
    );
    let mut map = CtGenMap::new();
    for (id, p) in prompts {
        map.insert(text(id), p);
    }
    let profile = CtGenProfile::assemble("", config, map, CtGenMap::new(), "/p");
    CtGenTask::new(profile, "/w", Some("orders"), None, "/w", "shop", Some(schema()), Handlebars::new())
        .unwrap()
}

#[test]
fn a_key_and_a_value_are_split_at_the_first_equals_sign() {
    assert_eq!(parse_prompt_key_val("dummy=1"), Ok((text("dummy"), text("1"))));
    assert_eq!(parse_prompt_key_val("a=b=c"), Ok((text("a"), text("b=c"))));
    assert_eq!(parse_prompt_key_val("=x"), Ok((text(""), text("x"))));
    assert_eq!(parse_prompt_key_val("x="), Ok((text("x"), text(""))));
    assert_eq!(parse_prompt_key_val("ключ=значение"), Ok((text("ключ"), text("значение"))));
    assert_eq!(
        parse_prompt_key_val("dummy"),
        Err(text("invalid KEY=value: no `=` found in `dummy`"))
    );
}

#[test]
fn a_text_with_commas_is_a_list_answer() {
    assert_eq!(
        CtGenAnswer::from_override("1,2,3"),
        CtGenAnswer::List(vec![text("1"), text("2"), text("3")])
    );
    assert_eq!(CtGenAnswer::from_override("1"), CtGenAnswer::Text(text("1")));
    assert_eq!(CtGenAnswer::from_override(""), CtGenAnswer::Text(text("")));
    assert_eq!(CtGenAnswer::from_override(","), CtGenAnswer::List(vec![text(""), text("")]));
    assert_eq!(CtGenAnswer::from_override("a,"), CtGenAnswer::List(vec![text("a"), text("")]));
}

#[test]
fn answers_as_text_and_blank_answers() {
    assert_eq!(CtGenAnswer::Text(text("x")).as_text(), "x");
    assert_eq!(CtGenAnswer::List(vec![text("x")]).as_text(), "");
    assert!(CtGenAnswer::Text(text("")).is_blank());
    assert!(CtGenAnswer::Text(text(" \t")).is_blank());
    assert!(!CtGenAnswer::Text(text("x")).is_blank());
    assert!(!CtGenAnswer::Text(text(" x ")).is_blank());
    assert!(CtGenAnswer::List(vec![]).is_blank());
    assert!(!CtGenAnswer::List(vec![text("")]).is_blank());
    assert_eq!(CtGenAnswer::List(vec![text("a")]).clone(), CtGenAnswer::List(vec![text("a")]));
}

#[test]
fn an_advance_answer_is_taken_for_an_open_prompt_only() {
    let mut task = task_with(vec![
        ("kind", definition(None, None, CtGenOptions::Other)),
        ("tags", definition(None, None, CtGenOptions::Other)),
    ]);
    let open = task.prompts_unanswered();
    assert_eq!(CtGenTask::find_generic(&open, "tags"), Some(1));
    assert_eq!(CtGenTask::find_generic(&open, "none"), None);
    assert!(task.answer_override(&open, "tags", "1,2,3").unwrap().is_some());
    assert!(task.answer_override(&open, "none", "x").unwrap().is_none());
    assert_eq!(
        task.prompt_answer("tags"),
        Some(&CtGenAnswer::List(vec![text("1"), text("2"), text("3")]))
    );
    assert!(task.prompt_answer("none").is_none());
    let open = task.prompts_unanswered();
    assert_eq!(open.len(), 1);
    assert!(task.answer_override(&open, "tags", "late").unwrap().is_none());
    assert!(task.answer_override(&open, "kind", "model").unwrap().is_some());
    assert_eq!(task.prompt_answer("kind"), Some(&CtGenAnswer::Text(text("model"))));
}

#[test]
fn an_advance_answer_that_is_empty_is_refused_by_a_required_prompt() {
    let required = CtGenPrompt::new(None, None, text("?"), CtGenOptions::Other, false, false, true);
    let mut task = task_with(vec![("kind", required)]);
    let open = task.prompts_unanswered();
    assert_eq!(
        task.answer_override(&open, "kind", " ").unwrap_err(),
        CtGenError::ValidationError(text("Invalid answer to prompt kind"))
    );
}

#[test]
fn conditions_hold_when_absent_or_one() {
    assert!(condition_met(None));
    assert!(condition_met(Some("1")));
    assert!(condition_met(Some("\n 1 \t")));
    assert!(!condition_met(Some("")));
    assert!(!condition_met(Some("0")));
    assert!(!condition_met(Some("true")));
    assert!(!condition_met(Some("1 1")));
    assert!(!condition_met(Some("١")));
}

#[test]
fn a_prompt_is_rendered_against_the_context() {
    let task = task_with(vec![]);
    let declared = definition(
        Some("{{#if table}}1{{/if}}"),
        Some("{{#each table/columns}}{{this}}{{#unless @last}},{{/unless}}{{/each}}"),
        CtGenOptions::Text(text("x,{{database}},z")),
    );
    let shown = task.render_prompt(&declared).unwrap();
    assert!(shown.should_ask());
    assert_eq!(shown.prompt(), "Pick for orders");
    assert_eq!(shown.enumerate(), Some(&vec![text("id"), text("total")]));
    match shown.options() {
        CtGenOptions::List(items) => assert_eq!(items, &vec![text("x"), text("shop"), text("z")]),
        other => panic!("unexpected options {:?}", other),
    }
    assert!(shown.multiple());
    assert!(shown.ordered());
}

#[test]
fn static_options_are_used_as_they_are() {
    let task = task_with(vec![]);
    let keyed = CtGenOptions::Keyed(vec![(text("k"), text("{{table_name}}"))]);
    let shown = task.render_prompt(&definition(Some("0"), None, keyed)).unwrap();
    assert!(!shown.should_ask());
    assert_eq!(shown.enumerate(), None);
    match shown.options() {
        CtGenOptions::Keyed(pairs) => assert_eq!(pairs, &vec![(text("k"), text("{{table_name}}"))]),
        other => panic!("unexpected options {:?}", other),
    }
    let listed = CtGenOptions::List(vec![text("a")]);
    let shown = task.render_prompt(&definition(None, None, listed)).unwrap();
    assert!(shown.should_ask());
    assert!(matches!(shown.options(), CtGenOptions::List(items) if items == &vec![text("a")]));
    let shown = task.render_prompt(&definition(None, None, CtGenOptions::Other)).unwrap();
    assert!(matches!(shown.options(), CtGenOptions::Other));
}

#[test]
fn a_condition_that_fails_to_render_fails_the_prompt() {
    let task = task_with(vec![]);
    let broken = definition(Some("{{#if}}"), None, CtGenOptions::Other);
    assert!(matches!(task.render_prompt(&broken), Err(CtGenError::RuntimeError(_))));
}

#[test]
fn options_or_text_that_fail_to_render_fail_the_prompt() {
    let task = task_with(vec![]);
    let broken = definition(None, None, CtGenOptions::Text(text("{{#if}}")));
    assert!(matches!(task.render_prompt(&broken), Err(CtGenError::RuntimeError(_))));
    let broken = definition(None, Some("{{#if}}"), CtGenOptions::Other);
    assert!(matches!(task.render_prompt(&broken), Err(CtGenError::RuntimeError(_))));
    let broken = CtGenPrompt::new(None, None, text("{{#if}}"), CtGenOptions::Other, false, false, false);
    assert!(matches!(task.render_prompt(&broken), Err(CtGenError::RuntimeError(_))));
}

#[test]
fn a_rendered_prompt_from_its_parts() {
    let shown = CtGenRenderedPrompt::new(
        true,
        Some(vec![text("a")]),
        text("p"),
        CtGenOptions::List(vec![text("o")]),
        false,
        true,
    );
    assert!(shown.should_ask());
    assert_eq!(shown.enumerate(), Some(&vec![text("a")]));
    assert_eq!(shown.prompt(), "p");
    assert!(!shown.multiple());
    assert!(shown.ordered());
    let declared = definition(Some("c"), None, CtGenOptions::Text(text("t")));
    let shown = CtGenRenderedPrompt::from_rendered(&declared, Some(" 1"), Some("a,b"), text("p"), Some("x,y"));
    assert!(shown.should_ask());
    assert_eq!(shown.enumerate(), Some(&vec![text("a"), text("b")]));
    assert!(matches!(shown.options(), CtGenOptions::List(items) if items == &vec![text("x"), text("y")]));
    let shown = CtGenRenderedPrompt::from_rendered(&declared, Some("2"), None, text("p"), None);
    assert!(!shown.should_ask());
    assert!(matches!(shown.options(), CtGenOptions::Text(t) if t == "t"));
    let shown = CtGenRenderedPrompt::from_rendered(&declared, None, None, text("p"), None);
    assert!(!shown.should_ask());
    let free = definition(None, None, CtGenOptions::Other);
    let shown = CtGenRenderedPrompt::from_rendered(&free, None, None, text("p"), None);
    assert!(shown.should_ask());
    let shown = CtGenRenderedPrompt::from_rendered(&free, Some("0"), None, text("p"), None);
    assert!(shown.should_ask());
}

#[test]
fn the_document_of_a_context_holds_schema_answers_and_stamps() {
    let mut context = CtGenTaskContext::new(schema(), "orders").unwrap();
    context.set_prompt_answer("kind", &CtGenAnswer::Text(text("model")));
    context.set_prompt_answer("tags", &CtGenAnswer::List(vec![text("a"), text("b")]));
    context.set_prompt_answer("kind", &CtGenAnswer::Text(text("view")));
    assert_eq!(context.table_name(), "orders");
    assert_eq!(context.prompts().len(), 2);
    let document = context.document();
    let members = document.as_object().unwrap();
    let keys: Vec<&str> = members.keys().map(|k| k.as_str()).collect();
    let mut sorted = keys.clone();
    sorted.sort();
    assert_eq!(
        sorted,
        vec![
            "constraints_foreign",
            "constraints_local",
            "ctgen_ver",
            "database",
            "prompts",
            "table",
            "table_name",
            "timestamp"
        ]
    );
    assert_eq!(members["database"], Value::from("shop"));
    assert_eq!(members["table_name"], Value::from("orders"));
    assert_eq!(members["table"]["name"], Value::from("orders"));
    assert_eq!(
        members["constraints_local"],
        Value::from(vec![Value::from("fk_a"), Value::from("fk_b")])
    );
    assert_eq!(members["constraints_foreign"], Value::from(vec![Value::from("fk_c")]));
    assert_eq!(members["prompts"]["kind"], Value::from("view"));
    assert_eq!(members["prompts"]["tags"], Value::from(vec![Value::from("a"), Value::from("b")]));
    assert_eq!(members["prompts"].as_object().unwrap().len(), 2);
    assert_eq!(members["timestamp"], Value::from("2024-01-02T03:04:05+00:00"));
    assert_eq!(members["ctgen_ver"], Value::from("0.1.0"));
}

#[test]
fn a_context_carries_the_time_of_the_reflection() {
    let mut reflected = schema();
    reflected.timestamp = chrono::Utc::now().to_rfc3339();
    let stamp = reflected.timestamp.clone();
    let context = CtGenTaskContext::new(reflected, "orders").unwrap();
    assert_eq!(context.document()["timestamp"], Value::from(stamp.as_str()));
    assert!(chrono::DateTime::parse_from_rfc3339(&stamp).is_ok());
    let mut missing = schema();
    missing.table = None;
    assert_eq!(
        CtGenTaskContext::new(missing, "orders").unwrap_err(),
        CtGenError::ValidationError(text("Table not found: orders"))
    );
}

#[test]
fn the_document_of_a_task_without_context_is_null() {
    let config = CtGenProfileConfig::new(
        text("demo"),
        text(""),
        text(""),
        text("dsn"),
        text(""),
        text(""),
        text(""),
        vec![],
        vec![],
    );
    let profile = CtGenProfile::assemble("", config, CtGenMap::new(), CtGenMap::new(), "/p");
    let task = CtGenTask::new(profile, "/w", None, None, "/w", "", None, Handlebars::new()).unwrap();
    assert_eq!(task.document(), Value::Null);
    let ready = task_with(vec![]);
    assert_eq!(ready.document()["table_name"], Value::from("orders"));
}

#[test]
fn answers_as_json() {
    assert_eq!(json_answer(&CtGenAnswer::Text(text("x"))), Value::from("x"));
    assert_eq!(
        json_answer(&CtGenAnswer::List(vec![text("x"), text("y")])),
        Value::from(vec![Value::from("x"), Value::from("y")])
    );
    assert_eq!(json_answer(&CtGenAnswer::List(vec![])), Value::from(Vec::<Value>::new()));
    assert_eq!(json_texts(&vec![text("a")]), vec![Value::from("a")]);
}

#[test]
fn the_outcome_of_a_render_keeps_the_text_and_wraps_the_error() {
    let engine = Handlebars::new();
    assert_eq!(rendered(engine.render_template("a{{x}}b", &Value::Null)), Ok(text("ab")));
    match engine.render_template("{{#if}}", &Value::Null) {
        Err(e) => {
            let shown = e.to_string();
            assert_eq!(rendered(Err(e)), Err(CtGenError::RuntimeError(shown)));
        },
        Ok(_) => panic!("a render error was expected"),
    }
}

#[test]
fn a_path_is_a_template_when_it_holds_both_pairs_of_braces() {
    assert!(is_templated("src/{{name}}.rs"));
    assert!(is_templated("}}{{"));
    assert!(!is_templated("src/{{name.rs"));
    assert!(!is_templated("src/name}}.rs"));
    assert!(!is_templated("src/{name}.rs"));
    assert!(!is_templated(""));
}

#[test]
fn the_small_decisions_on_the_command_line() {
    assert_eq!(profile_name_to_add(Some("mine"), true), "mine");
    assert_eq!(profile_name_to_add(None, true), "default");
    assert_eq!(profile_name_to_add(None, false), "");
    assert_eq!(profile_name_to_run(None), "default");
    assert_eq!(profile_name_to_run(Some("mine")), "mine");
    assert!(run_overrides(None, None, None, None).is_none());
    let overrides = run_overrides(None, Some(text("VAR")), None, None).unwrap();
    assert_eq!(overrides.env_var(), Some("VAR"));
    assert_eq!(overrides.dsn(), None);
    assert_eq!(suggested_profile_name(false, "shop", true, "work"), "default");
    assert_eq!(suggested_profile_name(true, "shop", true, "work"), "shop");
    assert_eq!(suggested_profile_name(true, "./shop", false, "work"), "work");
}

#[test]
fn helpers_on_text() {
    assert_eq!(chars_of("aé"), vec!['a', 'é']);
    assert!(same_text("a", "a"));
    assert!(!same_text("a", "ab"));
    assert!(!same_text("ab", "ac"));
    for c in [' ', '\t', '\n', '\u{b}', '\u{c}', '\r', '\u{85}', '\u{a0}', '\u{1680}', '\u{2000}', '\u{200a}', '\u{2028}', '\u{2029}', '\u{202f}', '\u{205f}', '\u{3000}'] {
        assert!(is_whitespace(c));
        assert!(c.is_whitespace());
    }
    for c in ['a', '1', '\u{200b}', '\u{feff}', '\u{1c}', '\u{180e}'] {
        assert_eq!(is_whitespace(c), c.is_whitespace());
    }
    assert_eq!(as_opt_str(&Some(text("a"))), Some("a"));
    assert_eq!(as_opt_str(&None), None);
    assert_eq!(clone_opt(&Some(text("a"))), Some(text("a")));
    assert_eq!(own_opt(Some("a")), Some(text("a")));
    assert_eq!(own_opt(None), None);
    assert_eq!(clone_texts(&vec![text("a"), text("b")]), vec![text("a"), text("b")]);
    assert_eq!(clone_pairs(&vec![(text("a"), text("b"))]), vec![(text("a"), text("b"))]);
    assert!(contains_text(&vec![text("a"), text("b")], "b"));
    assert!(!contains_text(&vec![text("a")], "b"));
    let open = vec![CtGenTaskPrompt::PromptDatabase, CtGenTaskPrompt::PromptTable];
    assert!(matches!(open[0].clone(), CtGenTaskPrompt::PromptDatabase));
}

#[test]
fn the_same_context_gives_the_same_decision_every_time() {
    let mut task = task_with(vec![("kind", definition(None, None, CtGenOptions::Other))]);
    let asked = definition(Some("{{#if prompts/kind}}1{{/if}}"), None, CtGenOptions::Other);
    for _ in 0..3 {
        assert!(!task.render_prompt(&asked).unwrap().should_ask());
    }
    let open = task.prompts_unanswered();
    task.set_prompt_answer(&open[0], CtGenAnswer::Text(text("model"))).unwrap();
    for _ in 0..3 {
        assert!(task.render_prompt(&asked).unwrap().should_ask());
    }
}
