//! How a prompt is put to the user: which dialog to show for which options,
//! and which answer the user's choice stands for. The caller shows each
//! dialog and reports the reply.

use vstd::prelude::*;
use vstd::string::StringExecFns;
use crate::error::CtGenError;
use crate::error::CtGenErrorView;
use crate::profile::CtGenOptions;
use crate::profile::CtGenOptionsView;
use crate::task::answer::CtGenAnswer;
use crate::task::answer::CtGenAnswerView;
use crate::text::clone_texts;
use crate::text::pairs;
use crate::text::same_text;
use crate::text::texts;

verus! {

/// The labels that `options` offer, in order.
pub open spec fn labels(options: CtGenOptionsView) -> Seq<Seq<char>> {
    match options {
        CtGenOptionsView::List(l) => l,
        CtGenOptionsView::Keyed(k) => k.map_values(|p: (Seq<char>, Seq<char>)| p.1),
        _ => Seq::empty(),
    }
}

/// Whether `options` are a yes-or-no question in disguise: two keyed
/// options whose keys are `0` and `1`.
pub open spec fn is_confirmation(options: CtGenOptionsView) -> bool {
    match options {
        CtGenOptionsView::Keyed(k) => k.len() == 2 && ((k[0].0 == seq!['0'] && k[1].0 == seq!['1'])
            || (k[0].0 == seq!['1'] && k[1].0 == seq!['0'])),
        _ => false,
    }
}

/// The key of the first of `keyed` whose label is `label`; empty where no
/// label is.
pub open spec fn key_of(keyed: Seq<(Seq<char>, Seq<char>)>, label: Seq<char>) -> Seq<char>
    decreases keyed.len(),
{
    if keyed.len() == 0 {
        Seq::empty()
    } else if keyed[0].1 == label {
        keyed[0].0
    } else {
        key_of(keyed.drop_first(), label)
    }
}

/// What choosing `label` among `options` answers: the key of the label
/// where the options are keyed, else the label itself.
pub open spec fn chosen(options: CtGenOptionsView, label: Seq<char>) -> Seq<char> {
    match options {
        CtGenOptionsView::Keyed(k) => key_of(k, label),
        _ => label,
    }
}

/// Those of the first `n` of `items` whose index is among `selections`, in
/// the order of the items.
pub open spec fn selected(items: Seq<Seq<char>>, selections: Seq<usize>, n: nat) -> Seq<Seq<char>>
    decreases n,
{
    if n == 0 {
        Seq::empty()
    } else {
        let rest = selected(items, selections, (n - 1) as nat);
        if selections.contains((n - 1) as usize) {
            rest.push(items[n - 1])
        } else {
            rest
        }
    }
}

/// Whether every one of `selections` is an index into `items`.
pub open spec fn in_range(items: Seq<Seq<char>>, selections: Seq<usize>) -> bool {
    forall|j: int| 0 <= j < selections.len() ==> (#[trigger] selections[j]) < items.len()
}

/// What choosing `selections` among `items` answers, in the order of the
/// selections.
pub open spec fn chosen_all(
    options: CtGenOptionsView,
    items: Seq<Seq<char>>,
    selections: Seq<usize>,
) -> Seq<Seq<char>> {
    selections.map_values(|s: usize| chosen(options, items[s as int]))
}

/// What a dialog is waiting for.
#[derive(Clone, Copy, Debug, PartialEq, Eq, Structural)]
pub enum CtGenAskStage {
    /// For a line of text.
    Input,
    /// For a choice of any number of the items.
    MultiSelect,
    /// For whether the chosen items are to be sorted.
    OfferSort,
    /// For the chosen items in the user's order.
    Sort,
    /// For a yes or a no.
    Confirm,
    /// For a choice of one of the items.
    Select,
    /// For nothing: the answer or the failure is out.
    Finished,
}

/// What the caller reports of the dialog that it showed.
#[derive(Debug)]
pub enum CtGenAskReply {
    /// The text that was entered.
    Text(String),
    /// The index of the item that was chosen.
    Chosen(usize),
    /// The indices of the items that were chosen.
    ChosenMany(Vec<usize>),
    /// Yes or no.
    Confirmed(bool),
    /// The indices of the items in the order that the user gave them.
    Sorted(Vec<usize>),
    /// The dialog failed, with this message.
    Failed(String),
}

/// The model of a [`CtGenAskReply`] in contracts.
pub enum CtGenAskReplyView {
    Text(Seq<char>),
    Chosen(usize),
    ChosenMany(Seq<usize>),
    Confirmed(bool),
    Sorted(Seq<usize>),
    Failed(Seq<char>),
}

impl View for CtGenAskReply {
    type V = CtGenAskReplyView;

    open spec fn view(&self) -> CtGenAskReplyView {
        match self {
            CtGenAskReply::Text(t) => CtGenAskReplyView::Text(t@),
            CtGenAskReply::Chosen(i) => CtGenAskReplyView::Chosen(*i),
            CtGenAskReply::ChosenMany(s) => CtGenAskReplyView::ChosenMany(s@),
            CtGenAskReply::Confirmed(b) => CtGenAskReplyView::Confirmed(*b),
            CtGenAskReply::Sorted(s) => CtGenAskReplyView::Sorted(s@),
            CtGenAskReply::Failed(m) => CtGenAskReplyView::Failed(m@),
        }
    }
}

/// The dialog to show next, or the outcome.
#[derive(Debug)]
pub enum CtGenAskAction {
    /// A free-text input, with a suggested answer if there is one.
    Input { prompt: String, suggestion: Option<String> },
    /// A choice of any number of `items`.
    MultiSelect { prompt: String, items: Vec<String> },
    /// A yes-or-no question.
    Confirm { prompt: String },
    /// The `items` to be put in order.
    Sort { prompt: String, items: Vec<String> },
    /// A choice of one of `items`.
    Select { prompt: String, items: Vec<String> },
    /// The answer.
    Answer(CtGenAnswer),
    /// The failure.
    Fail(CtGenError),
}

/// The model of a [`CtGenAskAction`] in contracts.
pub enum CtGenAskActionView {
    Input { prompt: Seq<char>, suggestion: Option<Seq<char>> },
    MultiSelect { prompt: Seq<char>, items: Seq<Seq<char>> },
    Confirm { prompt: Seq<char> },
    Sort { prompt: Seq<char>, items: Seq<Seq<char>> },
    Select { prompt: Seq<char>, items: Seq<Seq<char>> },
    Answer(CtGenAnswerView),
    Fail(CtGenErrorView),
}

impl View for CtGenAskAction {
    type V = CtGenAskActionView;

    open spec fn view(&self) -> CtGenAskActionView {
        match self {
            CtGenAskAction::Input { prompt, suggestion } => CtGenAskActionView::Input {
                prompt: prompt@,
                suggestion: crate::text::opt_text(*suggestion),
            },
            CtGenAskAction::MultiSelect { prompt, items } => CtGenAskActionView::MultiSelect {
                prompt: prompt@,
                items: texts(items@),
            },
            CtGenAskAction::Confirm { prompt } => CtGenAskActionView::Confirm { prompt: prompt@ },
            CtGenAskAction::Sort { prompt, items } => CtGenAskActionView::Sort {
                prompt: prompt@,
                items: texts(items@),
            },
            CtGenAskAction::Select { prompt, items } => CtGenAskActionView::Select {
                prompt: prompt@,
                items: texts(items@),
            },
            CtGenAskAction::Answer(a) => CtGenAskActionView::Answer(a@),
            CtGenAskAction::Fail(e) => CtGenAskActionView::Fail(e@),
        }
    }
}

/// One prompt being put to the user.
#[derive(Debug)]
pub struct CtGenAsk {
    prompt: String,
    options: CtGenOptions,
    ordered: bool,
    items: Vec<String>,
    selections: Vec<usize>,
    stage: CtGenAskStage,
}

/// The model of a [`CtGenAsk`] in contracts.
pub struct CtGenAskView {
    /// The text of the prompt.
    pub prompt: Seq<char>,
    /// The options to choose from.
    pub options: CtGenOptionsView,
    /// Whether the user may put several chosen items in order.
    pub ordered: bool,
    /// The items of the dialog.
    pub items: Seq<Seq<char>>,
    /// The indices that were chosen and wait to be sorted.
    pub selections: Seq<usize>,
    pub stage: CtGenAskStage,
}

impl View for CtGenAsk {
    type V = CtGenAskView;

    closed spec fn view(&self) -> CtGenAskView {
        CtGenAskView {
            prompt: self.prompt@,
            options: self.options@,
            ordered: self.ordered,
            items: texts(self.items@),
            selections: self.selections@,
            stage: self.stage,
        }
    }
}

/// The view of optional options.
pub open spec fn opt_options(o: Option<&CtGenOptions>) -> Option<CtGenOptionsView> {
    match o {
        Some(v) => Some(v@),
        None => None,
    }
}

impl CtGenAskView {
    /// The dialog, ended with `action`.
    pub open spec fn end(self, action: CtGenAskActionView) -> (CtGenAskView, CtGenAskActionView) {
        (CtGenAskView { stage: CtGenAskStage::Finished, ..self }, action)
    }

    /// The dialog, ended with the runtime error `message`.
    pub open spec fn fail(self, message: Seq<char>) -> (CtGenAskView, CtGenAskActionView) {
        self.end(CtGenAskActionView::Fail(CtGenErrorView::runtime(message)))
    }

    /// The first dialog for a prompt with the text `prompt`. Without
    /// options, or with a text for options, it is a free-text input, the
    /// text being the suggested answer. Options that are neither a list nor
    /// keyed fail. Else it is a choice of many where `multiple` holds, a
    /// yes-or-no question for two options with the keys `0` and `1`, and a
    /// choice of one otherwise.
    pub open spec fn begin(
        prompt: Seq<char>,
        options: Option<CtGenOptionsView>,
        multiple: bool,
        ordered: bool,
    ) -> (CtGenAskView, CtGenAskActionView) {
        let given = match options {
            Some(o) => o,
            None => CtGenOptionsView::Other,
        };
        let start = CtGenAskView {
            prompt,
            options: given,
            ordered,
            items: labels(given),
            selections: Seq::empty(),
            stage: CtGenAskStage::Input,
        };
        match options {
            None => (start, CtGenAskActionView::Input { prompt, suggestion: None }),
            Some(CtGenOptionsView::Text(t)) => (
                start,
                CtGenAskActionView::Input { prompt, suggestion: Some(t) },
            ),
            Some(CtGenOptionsView::Other) => start.fail("Invalid prompt options"@),
            Some(o) => {
                if multiple {
                    (
                        CtGenAskView { stage: CtGenAskStage::MultiSelect, ..start },
                        CtGenAskActionView::MultiSelect { prompt, items: labels(o) },
                    )
                } else if is_confirmation(o) {
                    (
                        CtGenAskView { stage: CtGenAskStage::Confirm, ..start },
                        CtGenAskActionView::Confirm { prompt },
                    )
                } else {
                    (
                        CtGenAskView { stage: CtGenAskStage::Select, ..start },
                        CtGenAskActionView::Select { prompt, items: labels(o) },
                    )
                }
            },
        }
    }

    /// How a failed dialog is reported, by the stage at which it failed.
    pub open spec fn failure(self, message: Seq<char>) -> Seq<char> {
        (match self.stage {
            CtGenAskStage::Input => "Failed to render input prompt `"@,
            CtGenAskStage::MultiSelect => "Failed to render multi-select prompt `"@,
            CtGenAskStage::OfferSort => "Failed to render reorder sub-prompt for prompt `"@,
            CtGenAskStage::Sort => "Failed to render sort sub-prompt for prompt `"@,
            CtGenAskStage::Confirm => "Failed to render confirm prompt `"@,
            CtGenAskStage::Select => "Failed to render select prompt `"@,
            CtGenAskStage::Finished => "Failed to render prompt `"@,
        }) + self.prompt + "`: "@ + message
    }

    /// The outcome of a choice of many: the list of what the selections
    /// answer, or a failure where a selection is no index into the items.
    pub open spec fn collect(self, selections: Seq<usize>) -> (CtGenAskView, CtGenAskActionView) {
        if in_range(self.items, selections) {
            self.end(
                CtGenAskActionView::Answer(
                    CtGenAnswerView::List(chosen_all(self.options, self.items, selections)),
                ),
            )
        } else {
            self.fail("Failed to get selection value"@)
        }
    }

    /// The dialog after `reply`, and what to do next.
    pub open spec fn step(self, reply: CtGenAskReplyView) -> (CtGenAskView, CtGenAskActionView) {
        match (self.stage, reply) {
            (_, CtGenAskReplyView::Failed(message)) => self.fail(self.failure(message)),
            (CtGenAskStage::Input, CtGenAskReplyView::Text(t)) => self.end(
                CtGenAskActionView::Answer(CtGenAnswerView::Text(t)),
            ),
            (CtGenAskStage::MultiSelect, CtGenAskReplyView::ChosenMany(selections)) => {
                if self.ordered && selections.len() > 1 {
                    (
                        CtGenAskView { selections, stage: CtGenAskStage::OfferSort, ..self },
                        CtGenAskActionView::Confirm {
                            prompt: "Would you like to sort this selection?"@,
                        },
                    )
                } else {
                    self.collect(selections)
                }
            },
            (CtGenAskStage::OfferSort, CtGenAskReplyView::Confirmed(yes)) => {
                if yes {
                    let subset = selected(self.items, self.selections, self.items.len());
                    (
                        CtGenAskView { items: subset, stage: CtGenAskStage::Sort, ..self },
                        CtGenAskActionView::Sort {
                            prompt: "Sort the selected items:"@,
                            items: subset,
                        },
                    )
                } else {
                    self.collect(self.selections)
                }
            },
            (CtGenAskStage::Sort, CtGenAskReplyView::Sorted(order)) => self.collect(order),
            (CtGenAskStage::Confirm, CtGenAskReplyView::Confirmed(yes)) => self.end(
                CtGenAskActionView::Answer(
                    CtGenAnswerView::Text(
                        if yes {
                            seq!['1']
                        } else {
                            seq!['0']
                        },
                    ),
                ),
            ),
            (CtGenAskStage::Select, CtGenAskReplyView::Chosen(index)) => {
                if index < self.items.len() {
                    self.end(
                        CtGenAskActionView::Answer(
                            CtGenAnswerView::Text(chosen(self.options, self.items[index as int])),
                        ),
                    )
                } else if self.options is Keyed {
                    self.fail("Failed to get selection value"@)
                } else {
                    self.end(CtGenAskActionView::Answer(CtGenAnswerView::Text(Seq::empty())))
                }
            },
            _ => self.fail("Unexpected reply for this stage."@),
        }
    }
}

/// The labels that `options` offer, in order.
pub fn labels_of(options: &CtGenOptions) -> (r: Vec<String>)
    ensures
        texts(r@) == labels(options@),
{
    match options {
        CtGenOptions::List(l) => clone_texts(l),
        CtGenOptions::Keyed(k) => {
            let mut out: Vec<String> = Vec::new();
            let mut i: usize = 0;
            while i < k.len()
                invariant
                    i <= k@.len(),
                    out@.len() == i,
                    forall|j: int| 0 <= j < i ==> out@[j]@ == k@[j].1@,
                decreases k@.len() - i,
            {
                out.push(k[i].1.clone());
                i = i + 1;
            }
            assert(texts(out@) =~= labels(options@));
            out
        },
        _ => {
            let out: Vec<String> = Vec::new();
            assert(texts(out@) =~= labels(options@));
            out
        },
    }
}

/// Whether `options` are two keyed options with the keys `0` and `1`.
pub fn confirmation(options: &CtGenOptions) -> (r: bool)
    ensures
        r == is_confirmation(options@),
{
    proof {
        reveal_strlit("0");
        reveal_strlit("1");
        assert("0"@ =~= seq!['0']);
        assert("1"@ =~= seq!['1']);
    }
    match options {
        CtGenOptions::Keyed(k) => {
            if k.len() != 2 {
                assert(pairs(k@).len() == k@.len());
                return false;
            }
            assert(pairs(k@)[0].0 == k@[0].0@ && pairs(k@)[1].0 == k@[1].0@);
            (same_text(k[0].0.as_str(), "0") && same_text(k[1].0.as_str(), "1")) || (same_text(
                k[0].0.as_str(),
                "1",
            ) && same_text(k[1].0.as_str(), "0"))
        },
        _ => false,
    }
}

/// The key of the first of `keyed` whose label is `label`; empty where no
/// label is.
pub fn key_for(keyed: &Vec<(String, String)>, label: &str) -> (r: String)
    ensures
        r@ == key_of(pairs(keyed@), label@),
{
    let ghost all = pairs(keyed@);
    let mut i: usize = 0;
    proof {
        assert(all.subrange(0, all.len() as int) =~= all);
    }
    while i < keyed.len()
        invariant
            i <= keyed@.len(),
            all == pairs(keyed@),
            key_of(all, label@) == key_of(all.subrange(i as int, all.len() as int), label@),
        decreases keyed@.len() - i,
    {
        let ghost rest = all.subrange(i as int, all.len() as int);
        proof {
            assert(rest[0] == all[i as int]);
            assert(all[i as int] == (keyed@[i as int].0@, keyed@[i as int].1@));
            assert(rest.drop_first() =~= all.subrange(i + 1, all.len() as int));
        }
        if same_text(keyed[i].1.as_str(), label) {
            return keyed[i].0.clone();
        }
        i = i + 1;
    }
    let r = String::new();
    assert(all.subrange(i as int, all.len() as int).len() == 0);
    r
}

/// What choosing `label` among `options` answers.
pub fn choose_one(options: &CtGenOptions, label: &str) -> (r: String)
    ensures
        r@ == chosen(options@, label@),
{
    match options {
        CtGenOptions::Keyed(k) => key_for(k, label),
        _ => label.to_owned(),
    }
}

/// Whether `index` is one of `selections`.
fn has_index(selections: &Vec<usize>, index: usize) -> (r: bool)
    ensures
        r == selections@.contains(index),
{
    let mut i: usize = 0;
    while i < selections.len()
        invariant
            i <= selections@.len(),
            forall|j: int| 0 <= j < i ==> selections@[j] != index,
        decreases selections@.len() - i,
    {
        if selections[i] == index {
            return true;
        }
        i = i + 1;
    }
    false
}

/// The items whose index is among `selections`, in the order of the items.
pub fn subset(items: &Vec<String>, selections: &Vec<usize>) -> (r: Vec<String>)
    ensures
        texts(r@) == selected(texts(items@), selections@, items@.len()),
{
    let mut out: Vec<String> = Vec::new();
    let mut i: usize = 0;
    assert(texts(out@) =~= selected(texts(items@), selections@, 0));
    while i < items.len()
        invariant
            i <= items@.len(),
            texts(out@) == selected(texts(items@), selections@, i as nat),
        decreases items@.len() - i,
    {
        if has_index(selections, i) {
            let item = items[i].clone();
            proof {
                assert(texts(out@.push(item)) =~= texts(out@).push(item@));
                assert(texts(items@)[i as int] == items@[i as int]@);
            }
            out.push(item);
        }
        i = i + 1;
    }
    out
}

impl CtGenAsk {
    /// What the dialog is waiting for.
    pub fn stage(&self) -> (r: CtGenAskStage)
        ensures
            r == self@.stage,
    {
        self.stage
    }

    /// Ends the dialog with `action`.
    fn end(&mut self, action: CtGenAskAction) -> (r: CtGenAskAction)
        ensures
            (final(self)@, r@) == old(self)@.end(action@),
    {
        self.stage = CtGenAskStage::Finished;
        action
    }

    /// Ends the dialog with the runtime error `message`.
    fn fail(&mut self, message: String) -> (r: CtGenAskAction)
        ensures
            (final(self)@, r@) == old(self)@.fail(message@),
    {
        self.end(CtGenAskAction::Fail(CtGenError::RuntimeError(message)))
    }

    /// Begins to put a prompt with the text `prompt_text` to the user.
    pub fn begin(prompt_text: &str, options: Option<&CtGenOptions>, multiple: bool, ordered: bool) -> (r:
        (CtGenAsk, CtGenAskAction))
        ensures
            (r.0@, r.1@) == CtGenAskView::begin(
                prompt_text@,
                opt_options(options),
                multiple,
                ordered,
            ),
    {
        let given = match options {
            Some(o) => o.clone(),
            None => CtGenOptions::Other,
        };
        let items = labels_of(&given);
        let mut ask = CtGenAsk {
            prompt: prompt_text.to_owned(),
            options: given,
            ordered,
            items,
            selections: Vec::new(),
            stage: CtGenAskStage::Input,
        };
        assert(ask@.selections =~= Seq::empty());
        let action = match options {
            None => CtGenAskAction::Input { prompt: prompt_text.to_owned(), suggestion: None },
            Some(CtGenOptions::Text(t)) => CtGenAskAction::Input {
                prompt: prompt_text.to_owned(),
                suggestion: Some(t.clone()),
            },
            Some(CtGenOptions::Other) => ask.fail("Invalid prompt options".to_owned()),
            Some(o) => {
                if multiple {
                    ask.stage = CtGenAskStage::MultiSelect;
                    CtGenAskAction::MultiSelect {
                        prompt: prompt_text.to_owned(),
                        items: labels_of(o),
                    }
                } else if confirmation(o) {
                    ask.stage = CtGenAskStage::Confirm;
                    CtGenAskAction::Confirm { prompt: prompt_text.to_owned() }
                } else {
                    ask.stage = CtGenAskStage::Select;
                    CtGenAskAction::Select { prompt: prompt_text.to_owned(), items: labels_of(o) }
                }
            },
        };
        (ask, action)
    }

    /// How a failed dialog is reported.
    fn failure(&self, message: &str) -> (r: String)
        ensures
            r@ == self@.failure(message@),
    {
        let head = match self.stage {
            CtGenAskStage::Input => "Failed to render input prompt `",
            CtGenAskStage::MultiSelect => "Failed to render multi-select prompt `",
            CtGenAskStage::OfferSort => "Failed to render reorder sub-prompt for prompt `",
            CtGenAskStage::Sort => "Failed to render sort sub-prompt for prompt `",
            CtGenAskStage::Confirm => "Failed to render confirm prompt `",
            CtGenAskStage::Select => "Failed to render select prompt `",
            CtGenAskStage::Finished => "Failed to render prompt `",
        };
        head.to_owned().concat(self.prompt.as_str()).concat("`: ").concat(message)
    }

    /// The outcome of a choice of many.
    fn collect(&mut self, selections: &Vec<usize>) -> (r: CtGenAskAction)
        ensures
            (final(self)@, r@) == old(self)@.collect(selections@),
    {
        let mut out: Vec<String> = Vec::new();
        let mut i: usize = 0;
        let ghost items = texts(self.items@);
        let ghost options = self.options@;
        while i < selections.len()
            invariant
                i <= selections@.len(),
                items == texts(self.items@),
                options == self.options@,
                self@ == old(self)@,
                out@.len() == i,
                forall|j: int| 0 <= j < i ==> (#[trigger] selections@[j]) < items.len(),
                forall|j: int|
                    0 <= j < i ==> (#[trigger] out@[j])@ == chosen(
                        options,
                        items[selections@[j] as int],
                    ),
            decreases selections@.len() - i,
        {
            let s = selections[i];
            if s >= self.items.len() {
                assert(!in_range(items, selections@));
                return self.fail("Failed to get selection value".to_owned());
            }
            assert(items[s as int] == self.items@[s as int]@);
            out.push(choose_one(&self.options, self.items[s].as_str()));
            i = i + 1;
        }
        assert(texts(out@) =~= chosen_all(options, items, selections@));
        self.end(CtGenAskAction::Answer(CtGenAnswer::List(out)))
    }

    /// Ends the dialog on a reply that the stage does not wait for.
    fn unexpected(&mut self) -> (r: CtGenAskAction)
        ensures
            (final(self)@, r@) == old(self)@.fail("Unexpected reply for this stage."@),
    {
        self.fail("Unexpected reply for this stage.".to_owned())
    }

    /// Takes note of `reply` and says what to do next.
    pub fn advance(&mut self, reply: CtGenAskReply) -> (r: CtGenAskAction)
        ensures
            (final(self)@, r@) == old(self)@.step(reply@),
    {
        match reply {
            CtGenAskReply::Failed(message) => {
                let text = self.failure(message.as_str());
                self.fail(text)
            },
            CtGenAskReply::Text(t) => {
                if self.stage == CtGenAskStage::Input {
                    self.end(CtGenAskAction::Answer(CtGenAnswer::Text(t)))
                } else {
                    self.unexpected()
                }
            },
            CtGenAskReply::ChosenMany(selections) => {
                if self.stage == CtGenAskStage::MultiSelect {
                    if self.ordered && selections.len() > 1 {
                        self.selections = selections;
                        self.stage = CtGenAskStage::OfferSort;
                        CtGenAskAction::Confirm {
                            prompt: "Would you like to sort this selection?".to_owned(),
                        }
                    } else {
                        self.collect(&selections)
                    }
                } else {
                    self.unexpected()
                }
            },
            CtGenAskReply::Confirmed(yes) => {
                if self.stage == CtGenAskStage::OfferSort {
                    if yes {
                        let chosen_items = subset(&self.items, &self.selections);
                        self.items = clone_texts(&chosen_items);
                        self.stage = CtGenAskStage::Sort;
                        CtGenAskAction::Sort {
                            prompt: "Sort the selected items:".to_owned(),
                            items: chosen_items,
                        }
                    } else {
                        let selections = self.selections.clone();
                        assert(selections@ =~= self.selections@);
                        self.collect(&selections)
                    }
                } else if self.stage == CtGenAskStage::Confirm {
                    proof {
                        reveal_strlit("0");
                        reveal_strlit("1");
                        assert("0"@ =~= seq!['0']);
                        assert("1"@ =~= seq!['1']);
                    }
                    let text = if yes {
                        "1".to_owned()
                    } else {
                        "0".to_owned()
                    };
                    self.end(CtGenAskAction::Answer(CtGenAnswer::Text(text)))
                } else {
                    self.unexpected()
                }
            },
            CtGenAskReply::Sorted(order) => {
                if self.stage == CtGenAskStage::Sort {
                    self.collect(&order)
                } else {
                    self.unexpected()
                }
            },
            CtGenAskReply::Chosen(index) => {
                if self.stage == CtGenAskStage::Select {
                    if index < self.items.len() {
                        assert(texts(self.items@)[index as int] == self.items@[index as int]@);
                        let text = choose_one(&self.options, self.items[index].as_str());
                        self.end(CtGenAskAction::Answer(CtGenAnswer::Text(text)))
                    } else {
                        match &self.options {
                            CtGenOptions::Keyed(_) => self.fail(
                                "Failed to get selection value".to_owned(),
                            ),
                            _ => self.end(CtGenAskAction::Answer(CtGenAnswer::Text(String::new()))),
                        }
                    }
                } else {
                    self.unexpected()
                }
            },
        }
    }
}

} // verus!
