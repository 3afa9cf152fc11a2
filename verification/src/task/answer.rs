//! The answer to a prompt: one text, or a list of texts.

use vstd::prelude::*;
use crate::text::chars_of;
use crate::text::clone_texts;
use crate::text::find_char;
use crate::text::split;
use crate::text::split_spec;
use crate::text::texts;
use crate::text::trim;
use crate::text::trim_spec;

verus! {

/// An answer to a prompt.
#[derive(Debug, PartialEq)]
pub enum CtGenAnswer {
    /// A single value.
    Text(String),
    /// Several values, in the order in which they were chosen.
    List(Vec<String>),
}

/// The model of a [`CtGenAnswer`] in contracts.
pub enum CtGenAnswerView {
    Text(Seq<char>),
    List(Seq<Seq<char>>),
}

impl View for CtGenAnswer {
    type V = CtGenAnswerView;

    open spec fn view(&self) -> CtGenAnswerView {
        match self {
            CtGenAnswer::Text(t) => CtGenAnswerView::Text(t@),
            CtGenAnswer::List(l) => CtGenAnswerView::List(texts(l@)),
        }
    }
}

impl Clone for CtGenAnswer {
    fn clone(&self) -> (r: Self)
        ensures
            r@ == self@,
    {
        match self {
            CtGenAnswer::Text(t) => CtGenAnswer::Text(t.clone()),
            CtGenAnswer::List(l) => CtGenAnswer::List(clone_texts(l)),
        }
    }
}

impl CtGenAnswerView {
    /// The answer as one text: the text itself, and nothing for a list.
    pub open spec fn text(self) -> Seq<char> {
        match self {
            CtGenAnswerView::Text(t) => t,
            CtGenAnswerView::List(_) => Seq::empty(),
        }
    }

    /// Whether the answer says nothing: a text of whitespace only, or a list
    /// without items.
    pub open spec fn is_blank(self) -> bool {
        match self {
            CtGenAnswerView::Text(t) => trim_spec(t).len() == 0,
            CtGenAnswerView::List(l) => l.len() == 0,
        }
    }

    /// The answer that the text of a run-time override stands for: a list of
    /// the pieces between commas where it holds a comma, else the text itself.
    pub open spec fn from_override(value: Seq<char>) -> CtGenAnswerView {
        if value.contains(',') {
            CtGenAnswerView::List(split_spec(value, ','))
        } else {
            CtGenAnswerView::Text(value)
        }
    }
}

impl CtGenAnswer {
    /// The answer as one text: the text itself, and the empty text for a list.
    pub fn as_text(&self) -> (r: &str)
        ensures
            r@ == self@.text(),
    {
        match self {
            CtGenAnswer::Text(t) => t.as_str(),
            CtGenAnswer::List(_) => {
                let e = "";
                proof {
                    reveal_strlit("");
                    assert(e@ =~= Seq::<char>::empty());
                }
                e
            },
        }
    }

    /// Whether the answer says nothing.
    pub fn is_blank(&self) -> (r: bool)
        ensures
            r == self@.is_blank(),
    {
        match self {
            CtGenAnswer::Text(t) => {
                let trimmed = trim(t.as_str());
                chars_of(trimmed.as_str()).len() == 0
            },
            CtGenAnswer::List(l) => {
                assert(texts(l@).len() == l@.len());
                l.len() == 0
            },
        }
    }

    /// The answer that the text of a run-time override stands for.
    pub fn from_override(value: &str) -> (r: CtGenAnswer)
        ensures
            r@ == CtGenAnswerView::from_override(value@),
    {
        if find_char(value, ',').is_some() {
            CtGenAnswer::List(split(value, ','))
        } else {
            CtGenAnswer::Text(value.to_owned())
        }
    }
}

} // verus!
