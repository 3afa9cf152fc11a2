//! The rendering context: the reflected schema of the subject table, the
//! answers given so far, and when and by what the context was made.

use vstd::prelude::*;
use crate::consts::CTGEN_VERSION;
use crate::dict::CtGenMap;
use crate::dict::lemma_upsert_mapped;
use crate::dict::map_entries;
use crate::dict::upsert;
use crate::error::CtGenError;
use crate::error::CtGenErrorKind;
use crate::task::answer::CtGenAnswer;
use crate::task::answer::CtGenAnswerView;
use crate::task::render::answer_json;
use crate::task::render::json_answer;
use crate::task::render::json_array;
use crate::task::render::json_array_value;
use crate::task::render::json_clone;
use crate::task::render::json_members;
use crate::task::render::json_object;
use crate::task::render::json_object_value;
use crate::task::render::json_string;
use crate::task::render::json_string_value;

verus! {

/// What was reflected of a database for one subject table, as the JSON
/// documents that templates read.
#[derive(Debug)]
pub struct CtGenSchema {
    /// The whole database.
    pub database: serde_json::Value,
    /// The subject table, where the database has it.
    pub table: Option<serde_json::Value>,
    /// The constraints whose local side is the subject table.
    pub constraints_local: Vec<serde_json::Value>,
    /// The constraints whose foreign side is the subject table.
    pub constraints_foreign: Vec<serde_json::Value>,
    /// When the schema was reflected, as the text that templates read.
    pub timestamp: String,
}

/// The data that templates are rendered against.
#[derive(Debug)]
pub struct CtGenTaskContext {
    database: serde_json::Value,
    table_name: String,
    table: serde_json::Value,
    constraints_local: Vec<serde_json::Value>,
    constraints_foreign: Vec<serde_json::Value>,
    prompts: CtGenMap<CtGenAnswer>,
    timestamp: String,
    ctgen_ver: String,
}

/// The model of a [`CtGenTaskContext`] in contracts.
pub struct CtGenTaskContextView {
    pub database: serde_json::Value,
    pub table_name: Seq<char>,
    pub table: serde_json::Value,
    pub constraints_local: Seq<serde_json::Value>,
    pub constraints_foreign: Seq<serde_json::Value>,
    /// The answers by prompt id, in the order in which the ids first arrived.
    pub prompts: Seq<(Seq<char>, CtGenAnswerView)>,
    pub timestamp: Seq<char>,
    pub ctgen_ver: Seq<char>,
}

/// The entries of a map of answers, each answer by its view.
pub open spec fn answer_entries(entries: Seq<(Seq<char>, CtGenAnswer)>) -> Seq<
    (Seq<char>, CtGenAnswerView),
> {
    map_entries(entries, |a: CtGenAnswer| a@)
}

/// The members of the JSON object that holds `answers`.
pub open spec fn answer_members(answers: Seq<(Seq<char>, CtGenAnswerView)>) -> Seq<
    (Seq<char>, serde_json::Value),
> {
    map_entries(answers, |a: CtGenAnswerView| answer_json(a))
}

impl View for CtGenTaskContext {
    type V = CtGenTaskContextView;

    closed spec fn view(&self) -> CtGenTaskContextView {
        CtGenTaskContextView {
            database: self.database,
            table_name: self.table_name@,
            table: self.table,
            constraints_local: self.constraints_local@,
            constraints_foreign: self.constraints_foreign@,
            prompts: answer_entries(self.prompts.entries()),
            timestamp: self.timestamp@,
            ctgen_ver: self.ctgen_ver@,
        }
    }
}

impl CtGenTaskContextView {
    /// The context that is made of `schema` for the table `table_name`: it
    /// carries the time at which the schema was reflected, and holds no
    /// answer yet.
    pub open spec fn fresh(schema: CtGenSchema, table_name: Seq<char>) -> CtGenTaskContextView
        recommends
            schema.table is Some,
    {
        CtGenTaskContextView {
            database: schema.database,
            table_name,
            table: schema.table->0,
            constraints_local: schema.constraints_local@,
            constraints_foreign: schema.constraints_foreign@,
            prompts: Seq::empty(),
            timestamp: schema.timestamp@,
            ctgen_ver: CTGEN_VERSION@,
        }
    }

    /// The members of the document that templates are rendered against, in order.
    pub open spec fn members(self) -> Seq<(Seq<char>, serde_json::Value)> {
        seq![
            ("database"@, self.database),
            ("table_name"@, json_string_value(self.table_name)),
            ("table"@, self.table),
            ("constraints_local"@, json_array_value(self.constraints_local)),
            ("constraints_foreign"@, json_array_value(self.constraints_foreign)),
            ("prompts"@, json_object_value(answer_members(self.prompts))),
            ("timestamp"@, json_string_value(self.timestamp)),
            ("ctgen_ver"@, json_string_value(self.ctgen_ver)),
        ]
    }

    /// The document that templates are rendered against.
    pub open spec fn document(self) -> serde_json::Value {
        json_object_value(self.members())
    }

    /// This context with the answer `answer` recorded for `prompt_id`.
    pub open spec fn with_answer(
        self,
        prompt_id: Seq<char>,
        answer: CtGenAnswerView,
    ) -> CtGenTaskContextView {
        CtGenTaskContextView { prompts: upsert(self.prompts, prompt_id, answer), ..self }
    }
}

/// What a failed lookup of the subject table is reported with.
pub open spec fn table_not_found(table_name: Seq<char>) -> Seq<char> {
    "Table not found: "@ + table_name
}

/// A copy of a list of JSON values.
fn clone_values(values: &Vec<serde_json::Value>) -> (r: Vec<serde_json::Value>)
    ensures
        r@ == values@,
{
    let mut out: Vec<serde_json::Value> = Vec::new();
    let mut i: usize = 0;
    while i < values.len()
        invariant
            i <= values@.len(),
            out@ == values@.subrange(0, i as int),
        decreases values@.len() - i,
    {
        out.push(json_clone(&values[i]));
        i = i + 1;
        assert(out@ =~= values@.subrange(0, i as int));
    }
    assert(values@.subrange(0, values@.len() as int) =~= values@);
    out
}

impl CtGenTaskContext {
    /// No prompt id is recorded twice.
    pub closed spec fn wf(&self) -> bool {
        self.prompts.wf()
    }

    /// The context of `schema` for the table `table_name`. Fails where the
    /// schema does not hold the table.
    pub fn new(schema: CtGenSchema, table_name: &str) -> (r: Result<Self, CtGenError>)
        ensures
            r is Ok <==> schema.table is Some,
            r is Ok ==> r->Ok_0.wf() && r->Ok_0@ == CtGenTaskContextView::fresh(
                schema,
                table_name@,
            ),
            r is Err ==> r->Err_0.is(CtGenErrorKind::Validation, table_not_found(table_name@)),
    {
        let CtGenSchema { database, table, constraints_local, constraints_foreign, timestamp } =
            schema;
        match table {
            Some(table) => {
                let prompts: CtGenMap<CtGenAnswer> = CtGenMap::new();
                let context = CtGenTaskContext {
                    database,
                    table_name: table_name.to_owned(),
                    table,
                    constraints_local,
                    constraints_foreign,
                    prompts,
                    timestamp,
                    ctgen_ver: CTGEN_VERSION.to_owned(),
                };
                assert(context@.prompts =~= Seq::empty());
                Ok(context)
            },
            None => Err(CtGenError::validation("Table not found: ", table_name)),
        }
    }

    /// Records `prompt_answer` as the answer to `prompt_id`, in place of an
    /// earlier answer to it.
    pub fn set_prompt_answer(&mut self, prompt_id: &str, prompt_answer: &CtGenAnswer)
        requires
            old(self).wf(),
        ensures
            final(self).wf(),
            final(self)@ == old(self)@.with_answer(prompt_id@, prompt_answer@),
    {
        let answer = prompt_answer.clone();
        proof {
            lemma_upsert_mapped(
                self.prompts.entries(),
                |a: CtGenAnswer| a@,
                prompt_id@,
                answer,
            );
        }
        self.prompts.insert(prompt_id.to_owned(), answer);
    }

    /// The answers by prompt id.
    pub fn prompts(&self) -> (r: &CtGenMap<CtGenAnswer>)
        ensures
            answer_entries(r.entries()) == self@.prompts,
            r.wf() == self.wf(),
    {
        &self.prompts
    }

    /// The name of the subject table.
    pub fn table_name(&self) -> (r: &str)
        ensures
            r@ == self@.table_name,
    {
        self.table_name.as_str()
    }

    /// The JSON object that holds the answers.
    fn prompts_document(&self) -> (r: serde_json::Value)
        ensures
            r == json_object_value(answer_members(self@.prompts)),
    {
        let mut members: Vec<(String, serde_json::Value)> = Vec::new();
        let n = self.prompts.len();
        let mut i: usize = 0;
        while i < n
            invariant
                i <= n,
                n == self.prompts.entries().len(),
                members@.len() == i,
                forall|j: int|
                    0 <= j < i ==> (#[trigger] members@[j]).0@ == self.prompts.entries()[j].0
                        && members@[j].1 == answer_json(self.prompts.entries()[j].1@),
            decreases n - i,
        {
            let key = self.prompts.key_at(i).to_owned();
            let value = json_answer(self.prompts.value_at(i));
            members.push((key, value));
            i = i + 1;
        }
        assert(json_members(members@) =~= answer_members(self@.prompts));
        json_object(members)
    }

    /// The document that templates are rendered against.
    pub fn document(&self) -> (r: serde_json::Value)
        ensures
            r == self@.document(),
    {
        let mut members: Vec<(String, serde_json::Value)> = Vec::new();
        members.push(("database".to_owned(), json_clone(&self.database)));
        members.push(("table_name".to_owned(), json_string(self.table_name.as_str())));
        members.push(("table".to_owned(), json_clone(&self.table)));
        members.push(
            ("constraints_local".to_owned(), json_array(clone_values(&self.constraints_local))),
        );
        members.push(
            ("constraints_foreign".to_owned(), json_array(clone_values(&self.constraints_foreign))),
        );
        members.push(("prompts".to_owned(), self.prompts_document()));
        members.push(("timestamp".to_owned(), json_string(self.timestamp.as_str())));
        members.push(("ctgen_ver".to_owned(), json_string(self.ctgen_ver.as_str())));
        assert(json_members(members@) =~= self@.members());
        json_object(members)
    }
}

} // verus!
