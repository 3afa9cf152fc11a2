//! Prompts as a task sees them: what is still to be asked, and a prompt
//! definition rendered against the current context.

use vstd::prelude::*;
use crate::profile::CtGenOptions;
use crate::profile::CtGenOptionsView;
use crate::profile::CtGenPrompt;
use crate::profile::CtGenPromptView;
use crate::text::opt_str;
use crate::text::renders_true;
use crate::text::split;
use crate::text::split_spec;
use crate::text::texts;
use crate::text::trim_spec;

verus! {

/// Something that a task has to learn before it can generate.
#[derive(Debug)]
pub enum CtGenTaskPrompt {
    /// No database is selected yet.
    PromptDatabase,
    /// No subject table is selected yet.
    PromptTable,
    /// A prompt that the profile declares.
    PromptGeneric { prompt_id: String, prompt_data: CtGenPrompt },
}

/// The model of a [`CtGenTaskPrompt`] in contracts.
pub enum CtGenTaskPromptView {
    PromptDatabase,
    PromptTable,
    PromptGeneric { prompt_id: Seq<char>, prompt_data: CtGenPromptView },
}

impl View for CtGenTaskPrompt {
    type V = CtGenTaskPromptView;

    open spec fn view(&self) -> CtGenTaskPromptView {
        match self {
            CtGenTaskPrompt::PromptDatabase => CtGenTaskPromptView::PromptDatabase,
            CtGenTaskPrompt::PromptTable => CtGenTaskPromptView::PromptTable,
            CtGenTaskPrompt::PromptGeneric { prompt_id, prompt_data } => {
                CtGenTaskPromptView::PromptGeneric {
                    prompt_id: prompt_id@,
                    prompt_data: prompt_data@,
                }
            },
        }
    }
}

impl Clone for CtGenTaskPrompt {
    fn clone(&self) -> (r: Self)
        ensures
            r@ == self@,
    {
        match self {
            CtGenTaskPrompt::PromptDatabase => CtGenTaskPrompt::PromptDatabase,
            CtGenTaskPrompt::PromptTable => CtGenTaskPrompt::PromptTable,
            CtGenTaskPrompt::PromptGeneric { prompt_id, prompt_data } => {
                CtGenTaskPrompt::PromptGeneric {
                    prompt_id: prompt_id.clone(),
                    prompt_data: prompt_data.clone(),
                }
            },
        }
    }
}

/// The views of a list of prompts.
pub open spec fn prompt_views(v: Seq<CtGenTaskPrompt>) -> Seq<CtGenTaskPromptView> {
    v.map_values(|p: CtGenTaskPrompt| p@)
}

/// Whether a rendered condition lets its prompt or target through: there is
/// no condition, or it rendered to `1` with nothing but whitespace around it.
pub open spec fn condition_holds(rendered: Option<Seq<char>>) -> bool {
    match rendered {
        Some(text) => trim_spec(text) == seq!['1'],
        None => true,
    }
}

/// Whether a rendered condition lets its prompt or target through.
pub fn condition_met(rendered: Option<&str>) -> (r: bool)
    ensures
        r == condition_holds(opt_str(rendered)),
{
    match rendered {
        Some(text) => renders_true(text),
        None => true,
    }
}

/// A prompt definition after its templates were rendered.
#[derive(Debug)]
pub struct CtGenRenderedPrompt {
    should_ask: bool,
    enumerate: Option<Vec<String>>,
    prompt: String,
    options: CtGenOptions,
    multiple: bool,
    ordered: bool,
}

/// The model of a [`CtGenRenderedPrompt`] in contracts.
pub struct CtGenRenderedPromptView {
    pub should_ask: bool,
    pub enumerate: Option<Seq<Seq<char>>>,
    pub prompt: Seq<char>,
    pub options: CtGenOptionsView,
    pub multiple: bool,
    pub ordered: bool,
}

/// The view of an optional list of strings.
pub open spec fn opt_texts(o: Option<Vec<String>>) -> Option<Seq<Seq<char>>> {
    match o {
        Some(v) => Some(texts(v@)),
        None => None,
    }
}

impl View for CtGenRenderedPrompt {
    type V = CtGenRenderedPromptView;

    closed spec fn view(&self) -> CtGenRenderedPromptView {
        CtGenRenderedPromptView {
            should_ask: self.should_ask,
            enumerate: opt_texts(self.enumerate),
            prompt: self.prompt@,
            options: self.options@,
            multiple: self.multiple,
            ordered: self.ordered,
        }
    }
}

impl CtGenRenderedPromptView {
    /// What a prompt definition becomes once its templates are rendered.
    /// `condition` is the rendered condition, `enumerate` the rendered
    /// enumeration, `prompt` the rendered text, and `options` the rendered
    /// options, which count where the definition declares them as a text.
    ///
    /// The prompt is to be asked where the definition declares no
    /// condition, or where the rendered condition is `1` between
    /// whitespace; a declared condition without a rendered text does not
    /// hold.
    pub open spec fn of(
        definition: CtGenPromptView,
        condition: Option<Seq<char>>,
        enumerate: Option<Seq<char>>,
        prompt: Seq<char>,
        options: Option<Seq<char>>,
    ) -> CtGenRenderedPromptView {
        CtGenRenderedPromptView {
            should_ask: definition.condition is None || (condition is Some && condition_holds(
                condition,
            )),
            enumerate: match enumerate {
                Some(list) => Some(split_spec(list, ',')),
                None => None,
            },
            prompt,
            options: match (definition.options, options) {
                (CtGenOptionsView::Text(_), Some(list)) => CtGenOptionsView::List(
                    split_spec(list, ','),
                ),
                _ => definition.options,
            },
            multiple: definition.multiple,
            ordered: definition.ordered,
        }
    }
}

impl CtGenRenderedPrompt {
    /// A rendered prompt from its parts.
    pub fn new(
        should_ask: bool,
        enumerate: Option<Vec<String>>,
        prompt: String,
        options: CtGenOptions,
        multiple: bool,
        ordered: bool,
    ) -> (r: CtGenRenderedPrompt)
        ensures
            r@ == (CtGenRenderedPromptView {
                should_ask,
                enumerate: opt_texts(enumerate),
                prompt: prompt@,
                options: options@,
                multiple,
                ordered,
            }),
    {
        CtGenRenderedPrompt { should_ask, enumerate, prompt, options, multiple, ordered }
    }

    /// The rendered form of `definition`, from what its templates rendered to.
    pub fn from_rendered(
        definition: &CtGenPrompt,
        condition: Option<&str>,
        enumerate: Option<&str>,
        prompt: String,
        options: Option<&str>,
    ) -> (r: CtGenRenderedPrompt)
        ensures
            r@ == CtGenRenderedPromptView::of(
                definition@,
                opt_str(condition),
                opt_str(enumerate),
                prompt@,
                opt_str(options),
            ),
    {
        let should_ask = definition.condition().is_none() || (condition.is_some()
            && condition_met(condition));
        let items = match enumerate {
            Some(list) => Some(split(list, ',')),
            None => None,
        };
        let resolved = match (definition.options(), options) {
            (CtGenOptions::Text(_), Some(list)) => CtGenOptions::List(split(list, ',')),
            _ => definition.options().clone(),
        };
        CtGenRenderedPrompt {
            should_ask,
            enumerate: items,
            prompt,
            options: resolved,
            multiple: definition.multiple(),
            ordered: definition.ordered(),
        }
    }

    /// Whether the prompt is to be asked at all.
    pub fn should_ask(&self) -> (r: bool)
        ensures
            r == self@.should_ask,
    {
        self.should_ask
    }

    /// The items for each of which the prompt is to be asked.
    pub fn enumerate(&self) -> (r: Option<&Vec<String>>)
        ensures
            r is Some <==> self@.enumerate is Some,
            r is Some ==> texts(r->0@) == self@.enumerate->0,
    {
        self.enumerate.as_ref()
    }

    /// The text of the prompt.
    pub fn prompt(&self) -> (r: &str)
        ensures
            r@ == self@.prompt,
    {
        self.prompt.as_str()
    }

    /// The options to choose from.
    pub fn options(&self) -> (r: &CtGenOptions)
        ensures
            r@ == self@.options,
    {
        &self.options
    }

    /// Whether more than one answer may be chosen.
    pub fn multiple(&self) -> (r: bool)
        ensures
            r == self@.multiple,
    {
        self.multiple
    }

    /// Whether the order of several answers matters.
    pub fn ordered(&self) -> (r: bool)
        ensures
            r == self@.ordered,
    {
        self.ordered
    }
}

/// Whether a prompt is asked depends on nothing but its definition and
/// what its condition rendered to: two evaluations that rendered the same
/// come to the same decision.
pub proof fn lemma_should_ask_is_determined(
    definition: CtGenPromptView,
    condition: Option<Seq<char>>,
    enumerate_a: Option<Seq<char>>,
    prompt_a: Seq<char>,
    options_a: Option<Seq<char>>,
    enumerate_b: Option<Seq<char>>,
    prompt_b: Seq<char>,
    options_b: Option<Seq<char>>,
)
    ensures
        CtGenRenderedPromptView::of(
            definition,
            condition,
            enumerate_a,
            prompt_a,
            options_a,
        ).should_ask == CtGenRenderedPromptView::of(
            definition,
            condition,
            enumerate_b,
            prompt_b,
            options_b,
        ).should_ask,
        definition.condition is Some && condition is Some ==> CtGenRenderedPromptView::of(
            definition,
            condition,
            enumerate_a,
            prompt_a,
            options_a,
        ).should_ask == condition_holds(condition),
        definition.condition is None ==> CtGenRenderedPromptView::of(
            definition,
            condition,
            enumerate_a,
            prompt_a,
            options_a,
        ).should_ask,
        definition.condition is Some && condition is None ==> !CtGenRenderedPromptView::of(
            definition,
            condition,
            enumerate_a,
            prompt_a,
            options_a,
        ).should_ask,
{
}

/// A condition holds only if it is absent or renders to `1` between
/// whitespace: a text `1` holds, and no text of another single character does.
pub proof fn lemma_condition_of_one_character(c: char)
    ensures
        condition_holds(None),
        condition_holds(Some(seq![c])) <==> c == '1',
{
    let s = seq![c];
    if crate::text::is_space(c) {
        crate::text::lemma_leading_spaces_is(s, 1);
        assert(trim_spec(s).len() == 0);
    } else {
        crate::text::lemma_leading_spaces_is(s, 0);
        let t = crate::text::trim_start_spec(s);
        assert(t =~= s);
        crate::text::lemma_trailing_spaces_is(t, 0);
        assert(trim_spec(s) =~= s);
        if c == '1' {
            assert(s =~= seq!['1']);
        } else {
            assert(s[0] != seq!['1'][0]);
        }
    }
}

} // verus!
