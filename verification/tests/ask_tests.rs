use ctgen::ask::choose_one;
use ctgen::ask::confirmation;
use ctgen::ask::key_for;
use ctgen::ask::labels_of;
use ctgen::ask::subset;
use ctgen::ask::CtGenAsk;
use ctgen::ask::CtGenAskAction;
use ctgen::ask::CtGenAskReply;
use ctgen::ask::CtGenAskStage;
use ctgen::error::CtGenError;
use ctgen::profile::CtGenOptions;
use ctgen::task::answer::CtGenAnswer;

fn text(s: &str) -> String {
    s.to_string()
}

fn list(items: &[&str]) -> CtGenOptions {
    CtGenOptions::List(items.iter().map(|s| text(s)).collect())
}

fn keyed(items: &[(&str, &str)]) -> CtGenOptions {
    CtGenOptions::Keyed(items.iter().map(|p| (text(p.0), text(p.1))).collect())
}

fn answer(action: CtGenAskAction) -> CtGenAnswer {
    match action {
        CtGenAskAction::Answer(a) => a,
        other => panic!("an answer was expected, not {:?}", other),
    }
}

fn failure(action: CtGenAskAction) -> String {
    match action {
        CtGenAskAction::Fail(CtGenError::RuntimeError(m)) => m,
        other => panic!("a runtime error was expected, not {:?}", other),
    }
}

#[test]
fn labels_and_keys() {
    let options = keyed(&[("a", "Alpha"), ("b", "Beta"), ("c", "Alpha")]);
    assert_eq!(labels_of(&options), vec!["Alpha", "Beta", "Alpha"]);
    assert_eq!(labels_of(&list(&["x", "y"])), vec!["x", "y"]);
    assert!(labels_of(&CtGenOptions::Other).is_empty());
    assert_eq!(choose_one(&options, "Alpha"), "a");
    assert_eq!(choose_one(&options, "Beta"), "b");
    assert_eq!(choose_one(&options, "Gamma"), "");
    assert_eq!(choose_one(&list(&["x"]), "x"), "x");
    let pairs = vec![(text("k"), text("v"))];
    assert_eq!(key_for(&pairs, "v"), "k");
    assert_eq!(key_for(&pairs, "k"), "");
}

#[test]
fn two_options_keyed_zero_and_one_are_a_confirmation() {
    assert!(confirmation(&keyed(&[("0", "No"), ("1", "Yes")])));
    assert!(confirmation(&keyed(&[("1", "Yes"), ("0", "No")])));
    assert!(!confirmation(&keyed(&[("0", "No")])));
    assert!(!confirmation(&keyed(&[])));
    assert!(!confirmation(&keyed(&[("0", "No"), ("1", "Yes"), ("2", "Maybe")])));
    assert!(!confirmation(&keyed(&[("0", "No"), ("2", "Yes")])));
    assert!(!confirmation(&list(&["0", "1"])));
}

#[test]
fn subset_keeps_the_order_of_the_items() {
    let items = vec![text("a"), text("b"), text("c"), text("d")];
    assert_eq!(subset(&items, &vec![3, 1]), vec!["b", "d"]);
    assert_eq!(subset(&items, &vec![]), Vec::<String>::new());
    assert_eq!(subset(&items, &vec![0, 0, 9]), vec!["a"]);
}

#[test]
fn without_options_the_prompt_is_a_free_text_input() {
    let (mut ask, action) = CtGenAsk::begin("Name?", None, false, false);
    match action {
        CtGenAskAction::Input { prompt, suggestion } => {
            assert_eq!(prompt, "Name?");
            assert_eq!(suggestion, None);
        },
        other => panic!("unexpected action {:?}", other),
    }
    assert_eq!(ask.stage(), CtGenAskStage::Input);
    let action = ask.advance(CtGenAskReply::Text(text("orders")));
    assert_eq!(answer(action), CtGenAnswer::Text(text("orders")));
    assert_eq!(ask.stage(), CtGenAskStage::Finished);
}

#[test]
fn a_text_for_options_is_the_suggested_answer() {
    let options = CtGenOptions::Text(text("default"));
    let (_, action) = CtGenAsk::begin("Name?", Some(&options), true, true);
    match action {
        CtGenAskAction::Input { prompt: _, suggestion } => assert_eq!(suggestion, Some(text("default"))),
        other => panic!("unexpected action {:?}", other),
    }
}

#[test]
fn options_that_are_neither_list_nor_keyed_fail() {
    let (ask, action) = CtGenAsk::begin("Name?", Some(&CtGenOptions::Other), false, false);
    assert_eq!(failure(action), "Invalid prompt options");
    assert_eq!(ask.stage(), CtGenAskStage::Finished);
}

#[test]
fn a_confirmation_answers_one_or_zero() {
    let options = keyed(&[("0", "No"), ("1", "Yes")]);
    let (mut ask, action) = CtGenAsk::begin("Sure?", Some(&options), false, false);
    assert!(matches!(action, CtGenAskAction::Confirm { ref prompt } if prompt == "Sure?"));
    assert_eq!(answer(ask.advance(CtGenAskReply::Confirmed(true))), CtGenAnswer::Text(text("1")));
    let (mut ask, _) = CtGenAsk::begin("Sure?", Some(&options), false, false);
    assert_eq!(answer(ask.advance(CtGenAskReply::Confirmed(false))), CtGenAnswer::Text(text("0")));
}

#[test]
fn a_choice_of_one_answers_the_key_or_the_label() {
    let options = keyed(&[("a", "Alpha"), ("b", "Beta"), ("c", "Gamma")]);
    let (mut ask, action) = CtGenAsk::begin("Which?", Some(&options), false, false);
    match action {
        CtGenAskAction::Select { prompt, items } => {
            assert_eq!(prompt, "Which?");
            assert_eq!(items, vec!["Alpha", "Beta", "Gamma"]);
        },
        other => panic!("unexpected action {:?}", other),
    }
    assert_eq!(answer(ask.advance(CtGenAskReply::Chosen(1))), CtGenAnswer::Text(text("b")));

    let (mut ask, _) = CtGenAsk::begin("Which?", Some(&options), false, false);
    assert_eq!(failure(ask.advance(CtGenAskReply::Chosen(3))), "Failed to get selection value");

    let options = list(&["x", "y"]);
    let (mut ask, _) = CtGenAsk::begin("Which?", Some(&options), false, false);
    assert_eq!(answer(ask.advance(CtGenAskReply::Chosen(1))), CtGenAnswer::Text(text("y")));
    let (mut ask, _) = CtGenAsk::begin("Which?", Some(&options), false, false);
    assert_eq!(answer(ask.advance(CtGenAskReply::Chosen(2))), CtGenAnswer::Text(text("")));
}

#[test]
fn a_choice_of_many_answers_a_list_in_the_order_of_the_selections() {
    let options = keyed(&[("a", "Alpha"), ("b", "Beta"), ("c", "Gamma")]);
    let (mut ask, action) = CtGenAsk::begin("Which?", Some(&options), true, false);
    assert!(matches!(action, CtGenAskAction::MultiSelect { .. }));
    let action = ask.advance(CtGenAskReply::ChosenMany(vec![2, 0]));
    assert_eq!(answer(action), CtGenAnswer::List(vec![text("c"), text("a")]));

    let (mut ask, _) = CtGenAsk::begin("Which?", Some(&options), true, false);
    assert_eq!(answer(ask.advance(CtGenAskReply::ChosenMany(vec![]))), CtGenAnswer::List(vec![]));

    let (mut ask, _) = CtGenAsk::begin("Which?", Some(&options), true, false);
    assert_eq!(
        failure(ask.advance(CtGenAskReply::ChosenMany(vec![0, 7]))),
        "Failed to get selection value"
    );
}

#[test]
fn an_ordered_choice_of_several_offers_to_sort() {
    let options = list(&["a", "b", "c", "d"]);
    let (mut ask, _) = CtGenAsk::begin("Which?", Some(&options), true, true);
    let action = ask.advance(CtGenAskReply::ChosenMany(vec![3, 1]));
    assert!(matches!(
        action,
        CtGenAskAction::Confirm { ref prompt } if prompt == "Would you like to sort this selection?"
    ));
    assert_eq!(ask.stage(), CtGenAskStage::OfferSort);
    let action = ask.advance(CtGenAskReply::Confirmed(true));
    match action {
        CtGenAskAction::Sort { prompt, items } => {
            assert_eq!(prompt, "Sort the selected items:");
            assert_eq!(items, vec!["b", "d"]);
        },
        other => panic!("unexpected action {:?}", other),
    }
    let action = ask.advance(CtGenAskReply::Sorted(vec![1, 0]));
    assert_eq!(answer(action), CtGenAnswer::List(vec![text("d"), text("b")]));
}

#[test]
fn declining_to_sort_keeps_the_selections() {
    let options = list(&["a", "b", "c", "d"]);
    let (mut ask, _) = CtGenAsk::begin("Which?", Some(&options), true, true);
    ask.advance(CtGenAskReply::ChosenMany(vec![3, 1]));
    let action = ask.advance(CtGenAskReply::Confirmed(false));
    assert_eq!(answer(action), CtGenAnswer::List(vec![text("d"), text("b")]));
}

#[test]
fn a_single_selection_is_not_offered_for_sorting() {
    let options = list(&["a", "b"]);
    let (mut ask, _) = CtGenAsk::begin("Which?", Some(&options), true, true);
    let action = ask.advance(CtGenAskReply::ChosenMany(vec![1]));
    assert_eq!(answer(action), CtGenAnswer::List(vec![text("b")]));
}

#[test]
fn a_failed_dialog_is_reported_with_the_prompt_and_the_message() {
    let (mut ask, _) = CtGenAsk::begin("Name?", None, false, false);
    assert_eq!(
        failure(ask.advance(CtGenAskReply::Failed(text("not a terminal")))),
        "Failed to render input prompt `Name?`: not a terminal"
    );
    let options = list(&["a", "b"]);
    let (mut ask, _) = CtGenAsk::begin("Which?", Some(&options), true, true);
    assert_eq!(
        failure(ask.advance(CtGenAskReply::Failed(text("x")))),
        "Failed to render multi-select prompt `Which?`: x"
    );
    let (mut ask, _) = CtGenAsk::begin("Which?", Some(&options), true, true);
    ask.advance(CtGenAskReply::ChosenMany(vec![0, 1]));
    assert_eq!(
        failure(ask.advance(CtGenAskReply::Failed(text("x")))),
        "Failed to render reorder sub-prompt for prompt `Which?`: x"
    );
    let (mut ask, _) = CtGenAsk::begin("Which?", Some(&options), true, true);
    ask.advance(CtGenAskReply::ChosenMany(vec![0, 1]));
    ask.advance(CtGenAskReply::Confirmed(true));
    assert_eq!(
        failure(ask.advance(CtGenAskReply::Failed(text("x")))),
        "Failed to render sort sub-prompt for prompt `Which?`: x"
    );
    let (mut ask, _) = CtGenAsk::begin("Which?", Some(&options), false, false);
    assert_eq!(
        failure(ask.advance(CtGenAskReply::Failed(text("x")))),
        "Failed to render select prompt `Which?`: x"
    );
    let confirm = keyed(&[("0", "No"), ("1", "Yes")]);
    let (mut ask, _) = CtGenAsk::begin("Sure?", Some(&confirm), false, false);
    assert_eq!(
        failure(ask.advance(CtGenAskReply::Failed(text("x")))),
        "Failed to render confirm prompt `Sure?`: x"
    );
}

#[test]
fn a_reply_that_the_stage_does_not_wait_for_fails() {
    let (mut ask, _) = CtGenAsk::begin("Name?", None, false, false);
    assert_eq!(failure(ask.advance(CtGenAskReply::Chosen(0))), "Unexpected reply for this stage.");
    assert_eq!(
        failure(ask.advance(CtGenAskReply::Text(text("late")))),
        "Unexpected reply for this stage."
    );
}
