//! The task: one run of the generator on one subject table. It knows which
//! prompts are still open, takes answers, keeps the rendering context up to
//! date and renders the targets.

pub mod answer;
pub mod context;
pub mod output;
pub mod prompt;
pub mod render;
pub mod setup;

use vstd::prelude::*;
use crate::dict::CtGenMap;
use crate::dict::distinct_keys;
use crate::dict::lemma_position;
use crate::dict::lemma_position_is;
use crate::dict::lemma_position_mapped;
use crate::dict::lemma_upsert_mapped;
use crate::dict::position;
use crate::dict::upsert;
use crate::error::CtGenError;
use crate::error::CtGenErrorKind;
use crate::error::CtGenErrorView;
use crate::paths::separator;
use crate::profile::CtGenOptions;
use crate::profile::CtGenProfile;
use crate::profile::CtGenProfileConfigOverrides;
use crate::profile::CtGenProfileConfigOverridesView;
use crate::profile::CtGenProfileView;
use crate::profile::CtGenPrompt;
use crate::profile::CtGenTarget;
use crate::profile::lemma_first_undeclared;
use crate::profile::undeclared_prompt;
use crate::task::answer::CtGenAnswer;
use crate::task::answer::CtGenAnswerView;
use crate::task::context::answer_entries;
use crate::task::context::CtGenSchema;
use crate::task::context::CtGenTaskContext;
use crate::task::context::CtGenTaskContextView;
use crate::task::context::table_not_found;
use crate::task::output::CtGenRunPlan;
use crate::task::output::CtGenRunPlanView;
use crate::task::output::CtGenStepView;
use crate::task::output::CtGenTargetOutput;
use crate::task::output::CtGenTargetOutputView;
use crate::task::output::is_templated;
use crate::task::output::lemma_after_push;
use crate::task::output::lets_through;
use crate::task::output::opt_outcome;
use crate::task::output::opt_output;
use crate::task::output::opt_rendered;
use crate::task::output::plan_step;
use crate::task::output::target_let_through;
use crate::task::output::target_output;
use crate::task::output::target_path;
use crate::task::prompt::CtGenRenderedPrompt;
use crate::task::prompt::CtGenRenderedPromptView;
use crate::task::prompt::CtGenTaskPrompt;
use crate::task::prompt::CtGenTaskPromptView;
use crate::task::prompt::prompt_views;
use crate::task::render::json_object;
use crate::task::render::json_optional;
use crate::task::render::json_optional_value;
use crate::task::render::json_string;
use crate::task::render::render_inline;
use crate::task::render::render_named;
use crate::task::render::rendered;
use crate::text::as_opt_str;
use crate::text::opt_str;
use crate::text::opt_text;
use crate::text::own_opt;
use crate::text::texts;

verus! {

/// One run of the generator.
#[derive(Debug)]
pub struct CtGenTask {
    profile: CtGenProfile,
    overrides: Option<CtGenProfileConfigOverrides>,
    prompts: Vec<CtGenTaskPrompt>,
    prompt_answers: CtGenMap<CtGenAnswer>,
    database: String,
    table: Option<String>,
    context_dir: String,
    target_dir: String,
    context: Option<CtGenTaskContext>,
    renderer: handlebars::Handlebars<'static>,
}

/// The model of a [`CtGenTask`] in contracts.
pub struct CtGenTaskView {
    pub profile: CtGenProfileView,
    pub overrides: Option<CtGenProfileConfigOverridesView>,
    /// What the task has to learn, in the order in which it asks.
    pub prompts: Seq<CtGenTaskPromptView>,
    /// The answers to the profile's prompts, by prompt id.
    pub prompt_answers: Seq<(Seq<char>, CtGenAnswerView)>,
    /// The database that the connection is bound to; empty where it is bound to none.
    pub database: Seq<char>,
    /// The subject table.
    pub table: Option<Seq<char>>,
    pub context_dir: Seq<char>,
    pub target_dir: Seq<char>,
    pub context: Option<CtGenTaskContextView>,
}

/// The view of an optional set of overrides.
pub open spec fn opt_overrides(o: Option<CtGenProfileConfigOverrides>) -> Option<
    CtGenProfileConfigOverridesView,
> {
    match o {
        Some(v) => Some(v@),
        None => None,
    }
}

/// The view of an optional context.
pub open spec fn opt_context(o: Option<CtGenTaskContext>) -> Option<CtGenTaskContextView> {
    match o {
        Some(c) => Some(c@),
        None => None,
    }
}

impl View for CtGenTask {
    type V = CtGenTaskView;

    closed spec fn view(&self) -> CtGenTaskView {
        CtGenTaskView {
            profile: self.profile@,
            overrides: opt_overrides(self.overrides),
            prompts: prompt_views(self.prompts@),
            prompt_answers: answer_entries(self.prompt_answers.entries()),
            database: self.database@,
            table: opt_text(self.table),
            context_dir: self.context_dir@,
            target_dir: self.target_dir@,
            context: opt_context(self.context),
        }
    }
}

impl CtGenTaskView {
    /// Whether the prompt `prompt_id` has an answer.
    pub open spec fn answered(self, prompt_id: Seq<char>) -> bool {
        position(self.prompt_answers, prompt_id) < self.prompt_answers.len()
    }

    /// The answer to the prompt `prompt_id`.
    pub open spec fn answer(self, prompt_id: Seq<char>) -> CtGenAnswerView
        recommends
            self.answered(prompt_id),
    {
        self.prompt_answers[position(self.prompt_answers, prompt_id)].1
    }

    /// Whether `prompt` is still open: no database is bound, no subject
    /// table is set, or the prompt of that id has no answer.
    pub open spec fn is_unanswered(self, prompt: CtGenTaskPromptView) -> bool {
        match prompt {
            CtGenTaskPromptView::PromptDatabase => self.database.len() == 0,
            CtGenTaskPromptView::PromptTable => self.table is None,
            CtGenTaskPromptView::PromptGeneric { prompt_id, .. } => !self.answered(prompt_id),
        }
    }

    /// The prompts that are still open, in the order of the task's prompts.
    pub open spec fn unanswered(self) -> Seq<CtGenTaskPromptView> {
        self.prompts.filter(|p: CtGenTaskPromptView| self.is_unanswered(p))
    }

    /// The document that templates are rendered against: that of the
    /// context, or the JSON null value while there is no context.
    pub open spec fn document(self) -> serde_json::Value {
        json_optional_value(
            match self.context {
                Some(c) => Some(c.document()),
                None => None,
            },
        )
    }

    /// Whether the task can generate: it has a context and no open prompt.
    pub open spec fn ready(self) -> bool {
        self.context is Some && self.unanswered().len() == 0
    }
}

impl CtGenTask {
    /// No id has two definitions or two answers, and a context, where there
    /// is one, holds exactly the answers of the task.
    pub closed spec fn wf(&self) -> bool {
        &&& self.profile.wf()
        &&& self.prompt_answers.wf()
        &&& match self.context {
            Some(c) => c.wf() && c@.prompts == answer_entries(self.prompt_answers.entries()),
            None => true,
        }
    }

    /// What `wf` says of the view.
    pub proof fn lemma_wf(&self)
        requires
            self.wf(),
        ensures
            distinct_keys(self@.prompt_answers),
            self@.context is Some ==> self@.context->0.prompts == self@.prompt_answers,
    {
        self.prompt_answers.lemma_wf();
        lemma_position_mapped(
            self.prompt_answers.entries(),
            |a: CtGenAnswer| a@,
            Seq::<char>::empty(),
        );
    }

    /// The profile that the task runs.
    pub fn profile(&self) -> (r: &CtGenProfile)
        ensures
            r@ == self@.profile,
            self.wf() ==> r.wf(),
    {
        &self.profile
    }

    /// The overrides that the task was made with.
    pub fn overrides(&self) -> (r: Option<&CtGenProfileConfigOverrides>)
        ensures
            r is Some <==> self@.overrides is Some,
            r is Some ==> r->0@ == self@.overrides->0,
    {
        self.overrides.as_ref()
    }

    /// The database that the connection is bound to; empty where it is bound to none.
    pub fn database(&self) -> (r: &str)
        ensures
            r@ == self@.database,
    {
        self.database.as_str()
    }

    /// The subject table.
    pub fn table(&self) -> (r: Option<&str>)
        ensures
            opt_str(r) == self@.table,
    {
        as_opt_str(&self.table)
    }

    /// The directory that the task runs in.
    pub fn context_dir(&self) -> (r: &str)
        ensures
            r@ == self@.context_dir,
    {
        self.context_dir.as_str()
    }

    /// The directory that output files are written below.
    pub fn target_dir(&self) -> (r: &str)
        ensures
            r@ == self@.target_dir,
    {
        self.target_dir.as_str()
    }

    /// What the task has to learn, in the order in which it asks.
    pub fn prompts(&self) -> (r: &Vec<CtGenTaskPrompt>)
        ensures
            prompt_views(r@) == self@.prompts,
    {
        &self.prompts
    }

    /// The answer to the prompt `prompt`, if it has one.
    pub fn prompt_answer(&self, prompt: &str) -> (r: Option<&CtGenAnswer>)
        ensures
            r is Some <==> self@.answered(prompt@),
            r is Some ==> r->0@ == self@.answer(prompt@),
    {
        proof {
            lemma_position_mapped(self.prompt_answers.entries(), |a: CtGenAnswer| a@, prompt@);
            lemma_position(self.prompt_answers.entries(), prompt@);
        }
        self.prompt_answers.get(prompt)
    }

    /// The answers by prompt id.
    pub fn prompt_answers(&self) -> (r: &CtGenMap<CtGenAnswer>)
        ensures
            answer_entries(r.entries()) == self@.prompt_answers,
    {
        &self.prompt_answers
    }

    /// The rendering context, once there is one.
    pub fn context(&self) -> (r: Option<&CtGenTaskContext>)
        ensures
            r is Some <==> self@.context is Some,
            r is Some ==> r->0@ == self@.context->0,
    {
        self.context.as_ref()
    }

    /// The template engine that the task renders with.
    pub closed spec fn engine(&self) -> handlebars::Handlebars<'static> {
        self.renderer
    }

    /// The template engine.
    pub fn renderer(&self) -> (r: &handlebars::Handlebars<'static>)
        ensures
            *r == self.engine(),
    {
        &self.renderer
    }

    /// Whether `prompt` is still open.
    pub fn is_unanswered(&self, prompt: &CtGenTaskPrompt) -> (r: bool)
        ensures
            r == self@.is_unanswered(prompt@),
    {
        match prompt {
            CtGenTaskPrompt::PromptDatabase => self.database.as_str().is_empty(),
            CtGenTaskPrompt::PromptTable => self.table.is_none(),
            CtGenTaskPrompt::PromptGeneric { prompt_id, prompt_data: _ } => {
                proof {
                    lemma_position_mapped(
                        self.prompt_answers.entries(),
                        |a: CtGenAnswer| a@,
                        prompt_id@,
                    );
                }
                !self.prompt_answers.contains_key(prompt_id.as_str())
            },
        }
    }

    /// The prompts that are still open, in the order of the task's prompts.
    /// Computed anew on every call.
    pub fn prompts_unanswered(&self) -> (r: Vec<CtGenTaskPrompt>)
        ensures
            prompt_views(r@) == self@.unanswered(),
    {
        let mut out: Vec<CtGenTaskPrompt> = Vec::new();
        let mut i: usize = 0;
        let ghost pred = |p: CtGenTaskPromptView| self@.is_unanswered(p);
        let ghost all = self@.prompts;
        proof {
            reveal(Seq::filter);
            assert(all.subrange(0, 0).filter(pred) =~= Seq::<CtGenTaskPromptView>::empty());
            assert(prompt_views(out@) =~= Seq::<CtGenTaskPromptView>::empty());
        }
        while i < self.prompts.len()
            invariant
                i <= self.prompts@.len(),
                all == prompt_views(self.prompts@),
                all == self@.prompts,
                pred == (|p: CtGenTaskPromptView| self@.is_unanswered(p)),
                prompt_views(out@) == all.subrange(0, i as int).filter(pred),
            decreases self.prompts@.len() - i,
        {
            let open = self.is_unanswered(&self.prompts[i]);
            proof {
                broadcast use Seq::lemma_filter_push;

                assert(all.subrange(0, i + 1) =~= all.subrange(0, i as int).push(all[i as int]));
                assert(all[i as int] == self.prompts@[i as int]@);
            }
            if open {
                let p = self.prompts[i].clone();
                proof {
                    assert(prompt_views(out@.push(p)) =~= prompt_views(out@).push(p@));
                }
                out.push(p);
            }
            i = i + 1;
        }
        proof {
            assert(all.subrange(0, all.len() as int) =~= all);
        }
        out
    }

    /// Whether the task can generate: it has a context and no open prompt.
    pub fn is_context_ready(&self) -> (r: bool)
        ensures
            r == self@.ready(),
    {
        let open = self.prompts_unanswered();
        assert(prompt_views(open@).len() == open@.len());
        self.context.is_some() && open.len() == 0
    }
}

/// The prompt of the task that stands for the prompt `id` of `profile`.
pub open spec fn generic_prompt(profile: CtGenProfileView, id: Seq<char>) -> CtGenTaskPromptView {
    CtGenTaskPromptView::PromptGeneric { prompt_id: id, prompt_data: profile.prompt[id] }
}

/// The prompts of a new task: the database prompt unless a database is
/// bound, the table prompt unless a subject table is given, and then one
/// prompt for each prompt id that the profile lists, in the listed order.
pub open spec fn initial_prompts(
    profile: CtGenProfileView,
    database: Seq<char>,
    table: Option<Seq<char>>,
) -> Seq<CtGenTaskPromptView> {
    (if database.len() == 0 {
        seq![CtGenTaskPromptView::PromptDatabase]
    } else {
        Seq::empty()
    }) + (if table is None {
        seq![CtGenTaskPromptView::PromptTable]
    } else {
        Seq::empty()
    }) + profile.profile.prompts.map_values(|id: Seq<char>| generic_prompt(profile, id))
}

/// Whether a new task gets its context at once: a database is bound, a
/// subject table is given, and the schema was reflected.
pub open spec fn starts_with_context(
    database: Seq<char>,
    table: Option<Seq<char>>,
    schema: Option<CtGenSchema>,
) -> bool {
    database.len() > 0 && table is Some && schema is Some
}

impl CtGenTaskView {
    /// The task as it is made: without answers, and with a context where
    /// `starts_with_context` holds.
    pub open spec fn initial(
        profile: CtGenProfileView,
        context_dir: Seq<char>,
        table: Option<Seq<char>>,
        overrides: Option<CtGenProfileConfigOverridesView>,
        target_dir: Seq<char>,
        database: Seq<char>,
        schema: Option<CtGenSchema>,
    ) -> CtGenTaskView {
        CtGenTaskView {
            profile,
            overrides,
            prompts: initial_prompts(profile, database, table),
            prompt_answers: Seq::empty(),
            database,
            table,
            context_dir,
            target_dir,
            context: if starts_with_context(database, table, schema) {
                Some(CtGenTaskContextView::fresh(schema->0, table->0))
            } else {
                None
            },
        }
    }
}

impl CtGenTask {
    /// The prompts of a new task on `profile`. Fails on the first listed
    /// prompt id that the profile does not define.
    pub fn initial_prompts(profile: &CtGenProfile, database: &str, table: Option<&str>) -> (r:
        Result<Vec<CtGenTaskPrompt>, CtGenError>)
        ensures
            r is Ok <==> profile@.first_undeclared_prompt() == profile@.profile.prompts.len(),
            r is Ok ==> prompt_views(r->Ok_0@) == initial_prompts(
                profile@,
                database@,
                opt_str(table),
            ),
            r is Err ==> r->Err_0@ == CtGenErrorView::validation(
                undeclared_prompt(profile@.profile.prompts[profile@.first_undeclared_prompt()]),
            ),
    {
        let ids = profile.prompts();
        let mut out: Vec<CtGenTaskPrompt> = Vec::new();
        if database.is_empty() {
            out.push(CtGenTaskPrompt::PromptDatabase);
        }
        if table.is_none() {
            out.push(CtGenTaskPrompt::PromptTable);
        }
        let ghost head = prompt_views(out@);
        let ghost listed = profile@.profile.prompts;
        let mut i: usize = 0;
        proof {
            assert(head =~= (if database@.len() == 0 {
                seq![CtGenTaskPromptView::PromptDatabase]
            } else {
                Seq::empty()
            }) + (if table is None {
                seq![CtGenTaskPromptView::PromptTable]
            } else {
                Seq::empty()
            }));
            assert(listed.subrange(0, 0).map_values(|id: Seq<char>| generic_prompt(profile@, id))
                =~= Seq::<CtGenTaskPromptView>::empty());
            assert(head + Seq::<CtGenTaskPromptView>::empty() =~= head);
        }
        while i < ids.len()
            invariant
                i <= ids@.len(),
                listed == texts(ids@),
                listed == profile@.profile.prompts,
                forall|j: int| 0 <= j < i ==> profile@.prompt.contains_key(#[trigger] listed[j]),
                prompt_views(out@) == head + listed.subrange(0, i as int).map_values(
                    |id: Seq<char>| generic_prompt(profile@, id),
                ),
            decreases ids@.len() - i,
        {
            let id = ids[i].as_str();
            assert(listed[i as int] == id@);
            let prompt = match profile.prompt(id) {
                Some(definition) => CtGenTaskPrompt::PromptGeneric {
                    prompt_id: id.to_owned(),
                    prompt_data: definition.clone(),
                },
                None => {
                    proof {
                        crate::profile::lemma_first_undeclared_is(
                            listed,
                            profile@.prompt.dom(),
                            i as int,
                        );
                    }
                    let message = "Invalid prompt `".to_owned();
                    let message = vstd::string::StringExecFns::concat(message, id);
                    let message = vstd::string::StringExecFns::concat(
                        message,
                        "`. Make sure all included prompts are actually declared.",
                    );
                    return Err(CtGenError::ValidationError(message));
                },
            };
            proof {
                assert(prompt@ == generic_prompt(profile@, listed[i as int]));
                assert(prompt_views(out@.push(prompt)) =~= prompt_views(out@).push(prompt@));
                assert(listed.subrange(0, i + 1).map_values(
                    |id: Seq<char>| generic_prompt(profile@, id),
                ) =~= listed.subrange(0, i as int).map_values(
                    |id: Seq<char>| generic_prompt(profile@, id),
                ).push(prompt@));
            }
            out.push(prompt);
            i = i + 1;
            assert(prompt_views(out@) =~= head + listed.subrange(0, i as int).map_values(
                |id: Seq<char>| generic_prompt(profile@, id),
            ));
        }
        proof {
            crate::profile::lemma_first_undeclared_is(listed, profile@.prompt.dom(), i as int);
        }
        assert(listed.subrange(0, listed.len() as int) =~= listed);
        Ok(out)
    }

    /// A task on `profile` in the directory `context_dir`, from what the
    /// preparation found: the directory `target_dir` to write below, the
    /// database that the connection is bound to (empty where it is bound
    /// to none), the reflected schema where one was taken, and the template
    /// engine.
    ///
    /// The task gets its context at once where a database is bound, a
    /// subject table is given and the schema is there; the call then fails
    /// where the schema does not hold the table. It fails too where the
    /// profile lists a prompt that it does not define.
    pub fn new(
        profile: CtGenProfile,
        context_dir: &str,
        table: Option<&str>,
        profile_overrides: Option<CtGenProfileConfigOverrides>,
        target_dir: &str,
        database: &str,
        schema: Option<CtGenSchema>,
        renderer: handlebars::Handlebars<'static>,
    ) -> (r: Result<CtGenTask, CtGenError>)
        requires
            profile.wf(),
        ensures
            r is Ok <==> profile@.first_undeclared_prompt() == profile@.profile.prompts.len() && (
            starts_with_context(database@, opt_str(table), schema) ==> schema->0.table is Some),
            r is Ok ==> r->Ok_0.wf() && r->Ok_0.engine() == renderer && r->Ok_0@
                == CtGenTaskView::initial(
                profile@,
                context_dir@,
                opt_str(table),
                opt_overrides(profile_overrides),
                target_dir@,
                database@,
                schema,
            ),
            r is Err ==> r->Err_0@ == (if profile@.first_undeclared_prompt()
                < profile@.profile.prompts.len() {
                CtGenErrorView::validation(
                    undeclared_prompt(
                        profile@.profile.prompts[profile@.first_undeclared_prompt()],
                    ),
                )
            } else {
                CtGenErrorView::validation(table_not_found(opt_str(table)->0))
            }),
    {
        proof {
            lemma_first_undeclared(profile@.profile.prompts, profile@.prompt.dom());
        }
        let prompts = match Self::initial_prompts(&profile, database, table) {
            Ok(prompts) => prompts,
            Err(e) => {
                return Err(e);
            },
        };
        let context: Option<CtGenTaskContext> = match (table, schema) {
            (Some(name), Some(reflected)) => {
                if !database.is_empty() {
                    match CtGenTaskContext::new(reflected, name) {
                        Ok(context) => Some(context),
                        Err(e) => {
                            return Err(e);
                        },
                    }
                } else {
                    None
                }
            },
            _ => None,
        };
        let prompt_answers: CtGenMap<CtGenAnswer> = CtGenMap::new();
        let task = CtGenTask {
            profile,
            overrides: profile_overrides,
            prompts,
            prompt_answers,
            database: database.to_owned(),
            table: own_opt(table),
            context_dir: context_dir.to_owned(),
            target_dir: target_dir.to_owned(),
            context,
            renderer,
        };
        proof {
            assert(task@.prompt_answers =~= Seq::empty());
            assert(task@ == CtGenTaskView::initial(
                profile@,
                context_dir@,
                opt_str(table),
                opt_overrides(profile_overrides),
                target_dir@,
                database@,
                schema,
            ));
        }
        Ok(task)
    }
}

/// What the caller has to do next for the task.
#[derive(Debug)]
pub enum CtGenTaskAction {
    /// Nothing.
    Done,
    /// Bind the named database on the connection, then report `database_bound`.
    BindDatabase(String),
    /// List the tables of the bound database, then report `tables_listed`
    /// with the named candidate.
    ListTables(String),
    /// Reflect the schema for the named subject table, then report
    /// `schema_reflected`.
    Reflect(String),
}

/// The model of a [`CtGenTaskAction`] in contracts.
pub enum CtGenTaskActionView {
    Done,
    BindDatabase(Seq<char>),
    ListTables(Seq<char>),
    Reflect(Seq<char>),
}

impl View for CtGenTaskAction {
    type V = CtGenTaskActionView;

    open spec fn view(&self) -> CtGenTaskActionView {
        match self {
            CtGenTaskAction::Done => CtGenTaskActionView::Done,
            CtGenTaskAction::BindDatabase(n) => CtGenTaskActionView::BindDatabase(n@),
            CtGenTaskAction::ListTables(n) => CtGenTaskActionView::ListTables(n@),
            CtGenTaskAction::Reflect(n) => CtGenTaskActionView::Reflect(n@),
        }
    }
}

/// Whether the keys of `a` are the first keys of `b`, in order.
pub open spec fn keys_prefix<V>(a: Seq<(Seq<char>, V)>, b: Seq<(Seq<char>, V)>) -> bool {
    a.len() <= b.len() && forall|j: int| 0 <= j < a.len() ==> (#[trigger] a[j]).0 == b[j].0
}

/// What a refused answer to the prompt `prompt_id` is reported with.
pub open spec fn invalid_answer(prompt_id: Seq<char>) -> Seq<char> {
    "Invalid answer to prompt "@ + prompt_id
}

impl CtGenTaskView {
    /// What is left to do outside: to reflect the schema, as soon as a
    /// database and a subject table are known and there is no context yet.
    pub open spec fn pending(self) -> CtGenTaskActionView {
        if self.context is None && self.database.len() > 0 && self.table is Some {
            CtGenTaskActionView::Reflect(self.table->0)
        } else {
            CtGenTaskActionView::Done
        }
    }

    /// The task with the context made of `schema`, holding the answers of
    /// the task.
    pub open spec fn with_context(self, schema: CtGenSchema) -> CtGenTaskView
        recommends
            self.table is Some,
    {
        CtGenTaskView {
            context: Some(
                CtGenTaskContextView {
                    prompts: self.prompt_answers,
                    ..CtGenTaskContextView::fresh(schema, self.table->0)
                },
            ),
            ..self
        }
    }

    /// The task with `answers` as its answers, in the context too.
    pub open spec fn with_answers(self, answers: Seq<(Seq<char>, CtGenAnswerView)>) -> CtGenTaskView {
        CtGenTaskView {
            prompt_answers: answers,
            context: match self.context {
                Some(c) => Some(CtGenTaskContextView { prompts: answers, ..c }),
                None => None,
            },
            ..self
        }
    }

    /// The task with `answer` recorded for the prompt `prompt_id`, in place
    /// of an earlier answer to it.
    pub open spec fn with_answer(self, prompt_id: Seq<char>, answer: CtGenAnswerView) -> CtGenTaskView {
        self.with_answers(upsert(self.prompt_answers, prompt_id, answer))
    }

    /// Whether `answer` is refused as an answer to `prompt`: the prompt is a
    /// required one of the profile and the answer says nothing.
    pub open spec fn refuses(prompt: CtGenTaskPromptView, answer: CtGenAnswerView) -> bool {
        match prompt {
            CtGenTaskPromptView::PromptGeneric { prompt_data, .. } => prompt_data.required
                && answer.is_blank(),
            _ => false,
        }
    }
}

impl CtGenTask {
    /// Writes every answer of the task into the context, where there is
    /// one, and says what is left to do outside.
    fn update_context(&mut self) -> (r: CtGenTaskAction)
        requires
            old(self).profile.wf(),
            old(self).prompt_answers.wf(),
            match old(self).context {
                Some(c) => c.wf() && keys_prefix(
                    c@.prompts,
                    answer_entries(old(self).prompt_answers.entries()),
                ),
                None => true,
            },
        ensures
            final(self).wf(),
            final(self).engine() == old(self).engine(),
            final(self)@ == old(self)@.with_answers(old(self)@.prompt_answers),
            r@ == final(self)@.pending(),
    {
        let ghost all = answer_entries(self.prompt_answers.entries());
        proof {
            self.prompt_answers.lemma_wf();
            lemma_position_mapped(
                self.prompt_answers.entries(),
                |a: CtGenAnswer| a@,
                Seq::<char>::empty(),
            );
        }
        match self.context.take() {
            Some(mut context) => {
                let ghost before = context@;
                let n = self.prompt_answers.len();
                let mut i: usize = 0;
                while i < n
                    invariant
                        i <= n,
                        n == all.len(),
                        all == answer_entries(self.prompt_answers.entries()),
                        distinct_keys(all),
                        context.wf(),
                        context@ == (CtGenTaskContextView { prompts: context@.prompts, ..before }),
                        keys_prefix(context@.prompts, all),
                        i <= context@.prompts.len(),
                        forall|j: int| 0 <= j < i ==> #[trigger] context@.prompts[j] == all[j],
                    decreases n - i,
                {
                    let ghost held = context@.prompts;
                    let ghost key = all[i as int].0;
                    proof {
                        assert(all[i as int] == (
                            self.prompt_answers.entries()[i as int].0,
                            self.prompt_answers.entries()[i as int].1@,
                        ));
                        assert forall|j: int| 0 <= j < i implies (#[trigger] held[j]).0 != key by {
                            assert(all[j].0 != all[i as int].0);
                        }
                        if i < held.len() {
                            lemma_position_is(held, key, i as int);
                        } else {
                            lemma_position_is(held, key, held.len() as int);
                        }
                    }
                    context.set_prompt_answer(
                        self.prompt_answers.key_at(i),
                        self.prompt_answers.value_at(i),
                    );
                    proof {
                        let now = context@.prompts;
                        assert(now == upsert(held, key, all[i as int].1));
                        if i < held.len() {
                            assert(now =~= held.update(i as int, all[i as int]));
                        } else {
                            assert(now =~= held.push(all[i as int]));
                        }
                        assert forall|j: int| 0 <= j < i + 1 implies #[trigger] now[j]
                            == all[j] by {
                            if j < i {
                                assert(held[j] == all[j]);
                            }
                        }
                    }
                    i = i + 1;
                }
                proof {
                    assert(context@.prompts =~= all);
                }
                self.context = Some(context);
                CtGenTaskAction::Done
            },
            None => {
                if !self.database.as_str().is_empty() {
                    match &self.table {
                        Some(t) => CtGenTaskAction::Reflect(t.clone()),
                        None => CtGenTaskAction::Done,
                    }
                } else {
                    CtGenTaskAction::Done
                }
            },
        }
    }

    /// Takes `answer` as the answer to `prompt`.
    ///
    /// An answer to the database prompt or to the table prompt changes
    /// nothing yet: the caller is told to bind the database, or to list the
    /// tables, and reports back. An answer to a prompt of the profile is
    /// recorded, in the context too, unless the prompt is required and the
    /// answer says nothing.
    pub fn set_prompt_answer(&mut self, prompt: &CtGenTaskPrompt, answer: CtGenAnswer) -> (r:
        Result<CtGenTaskAction, CtGenError>)
        requires
            old(self).wf(),
        ensures
            final(self).wf(),
            final(self).engine() == old(self).engine(),
            r is Err <==> CtGenTaskView::refuses(prompt@, answer@),
            match prompt@ {
                CtGenTaskPromptView::PromptDatabase => final(self)@ == old(self)@ && r->Ok_0@
                    == CtGenTaskActionView::BindDatabase(answer@.text()),
                CtGenTaskPromptView::PromptTable => final(self)@ == old(self)@ && r->Ok_0@
                    == CtGenTaskActionView::ListTables(answer@.text()),
                CtGenTaskPromptView::PromptGeneric { prompt_id, .. } => if r is Err {
                    final(self)@ == old(self)@ && r->Err_0@ == CtGenErrorView::validation(
                        invalid_answer(prompt_id),
                    )
                } else {
                    final(self)@ == old(self)@.with_answer(prompt_id, answer@) && r->Ok_0@
                        == final(self)@.pending()
                },
            },
    {
        match prompt {
            CtGenTaskPrompt::PromptDatabase => Ok(
                CtGenTaskAction::BindDatabase(answer.as_text().to_owned()),
            ),
            CtGenTaskPrompt::PromptTable => Ok(
                CtGenTaskAction::ListTables(answer.as_text().to_owned()),
            ),
            CtGenTaskPrompt::PromptGeneric { prompt_id, prompt_data } => {
                if prompt_data.required() && answer.is_blank() {
                    return Err(
                        CtGenError::validation("Invalid answer to prompt ", prompt_id.as_str()),
                    );
                }
                proof {
                    self.lemma_wf();
                    lemma_upsert_mapped(
                        self.prompt_answers.entries(),
                        |a: CtGenAnswer| a@,
                        prompt_id@,
                        answer,
                    );
                    lemma_position(self@.prompt_answers, prompt_id@);
                }
                self.prompt_answers.insert(prompt_id.clone(), answer);
                Ok(self.update_context())
            },
        }
    }

    /// Takes note that the connection is now bound to the database `name`.
    pub fn database_bound(&mut self, name: &str) -> (r: CtGenTaskAction)
        requires
            old(self).wf(),
        ensures
            final(self).wf(),
            final(self).engine() == old(self).engine(),
            final(self)@ == (CtGenTaskView { database: name@, ..old(self)@ }),
            r@ == final(self)@.pending(),
    {
        proof {
            self.lemma_wf();
        }
        self.database = name.to_owned();
        self.update_context()
    }

    /// Takes `candidate` as the subject table, provided that it is one of
    /// `tables`, the tables that the bound database holds now.
    pub fn tables_listed(&mut self, candidate: &str, tables: &Vec<String>) -> (r: Result<
        CtGenTaskAction,
        CtGenError,
    >)
        requires
            old(self).wf(),
        ensures
            final(self).wf(),
            final(self).engine() == old(self).engine(),
            r is Ok <==> crate::text::texts(tables@).contains(candidate@),
            r is Ok ==> final(self)@ == (CtGenTaskView { table: Some(candidate@), ..old(self)@ })
                && r->Ok_0@ == final(self)@.pending(),
            r is Err ==> final(self)@ == old(self)@ && r->Err_0@ == CtGenErrorView::validation(
                "Table does not exist"@,
            ),
    {
        if crate::text::contains_text(tables, candidate) {
            proof {
                self.lemma_wf();
            }
            self.table = Some(candidate.to_owned());
            Ok(self.update_context())
        } else {
            Err(CtGenError::ValidationError("Table does not exist".to_owned()))
        }
    }

    /// Makes the context from the reflected `schema` and the subject table,
    /// and writes every answer given so far into it.
    pub fn schema_reflected(&mut self, schema: CtGenSchema) -> (r: Result<(), CtGenError>)
        requires
            old(self).wf(),
        ensures
            final(self).wf(),
            final(self).engine() == old(self).engine(),
            r is Ok <==> old(self)@.table is Some && schema.table is Some,
            r is Ok ==> final(self)@ == old(self)@.with_context(schema),
            r is Err ==> final(self)@ == old(self)@ && r->Err_0@ == (match old(self)@.table {
                Some(t) => CtGenErrorView::validation(crate::task::context::table_not_found(t)),
                None => CtGenErrorView::runtime("No subject table is set."@),
            }),
    {
        let table = match &self.table {
            Some(t) => t.clone(),
            None => {
                return Err(CtGenError::RuntimeError("No subject table is set.".to_owned()));
            },
        };
        match CtGenTaskContext::new(schema, table.as_str()) {
            Ok(context) => {
                let ghost fresh = context@;
                let ghost before = self@;
                proof {
                    self.lemma_wf();
                }
                self.context = Some(context);
                let _ = self.update_context();
                proof {
                    assert(fresh == CtGenTaskContextView::fresh(schema, table@));
                    assert(self@ == before.with_context(schema));
                }
                Ok(())
            },
            Err(e) => Err(e),
        }
    }
}

/// Whether `prompt` is the prompt `id` of the profile.
pub open spec fn is_generic(prompt: CtGenTaskPromptView, id: Seq<char>) -> bool {
    match prompt {
        CtGenTaskPromptView::PromptGeneric { prompt_id, .. } => prompt_id == id,
        _ => false,
    }
}

/// Index of the first of `prompts` that is the prompt `id` of the profile,
/// or the length of `prompts` where none is.
pub open spec fn generic_position(prompts: Seq<CtGenTaskPromptView>, id: Seq<char>) -> int
    decreases prompts.len(),
{
    if prompts.len() == 0 || is_generic(prompts[0], id) {
        0
    } else {
        1 + generic_position(prompts.drop_first(), id)
    }
}

pub proof fn lemma_generic_position(prompts: Seq<CtGenTaskPromptView>, id: Seq<char>)
    ensures
        0 <= generic_position(prompts, id) <= prompts.len(),
        generic_position(prompts, id) < prompts.len() ==> is_generic(
            prompts[generic_position(prompts, id)],
            id,
        ),
    decreases prompts.len(),
{
    if !(prompts.len() == 0 || is_generic(prompts[0], id)) {
        let rest = prompts.drop_first();
        lemma_generic_position(rest, id);
        if generic_position(prompts, id) < prompts.len() {
            assert(prompts[generic_position(prompts, id)] == rest[generic_position(rest, id)]);
        }
    }
}

/// An index that holds the prompt `id`, and before which it does not
/// occur, is its position.
pub proof fn lemma_generic_position_is(prompts: Seq<CtGenTaskPromptView>, id: Seq<char>, k: int)
    requires
        0 <= k <= prompts.len(),
        forall|j: int| 0 <= j < k ==> !is_generic(#[trigger] prompts[j], id),
        k < prompts.len() ==> is_generic(prompts[k], id),
    ensures
        generic_position(prompts, id) == k,
    decreases prompts.len(),
{
    if k > 0 {
        let rest = prompts.drop_first();
        assert(!is_generic(prompts[0], id));
        assert forall|j: int| 0 <= j < k - 1 implies !is_generic(#[trigger] rest[j], id) by {
            assert(rest[j] == prompts[j + 1]);
        }
        if k - 1 < rest.len() {
            assert(rest[k - 1] == prompts[k]);
        }
        lemma_generic_position_is(rest, id, k - 1);
    }
}

impl CtGenTask {
    /// Index of the first of `prompts` that is the prompt `id` of the profile.
    pub fn find_generic(prompts: &Vec<CtGenTaskPrompt>, id: &str) -> (r: Option<usize>)
        ensures
            r is Some <==> generic_position(prompt_views(prompts@), id@) < prompts@.len(),
            r is Some ==> r->0 == generic_position(prompt_views(prompts@), id@),
    {
        let ghost all = prompt_views(prompts@);
        let mut i: usize = 0;
        while i < prompts.len()
            invariant
                i <= prompts@.len(),
                all == prompt_views(prompts@),
                forall|j: int| 0 <= j < i ==> !is_generic(#[trigger] all[j], id@),
            decreases prompts@.len() - i,
        {
            assert(all[i as int] == prompts@[i as int]@);
            let found = match &prompts[i] {
                CtGenTaskPrompt::PromptGeneric { prompt_id, prompt_data: _ } => crate::text::same_text(
                    prompt_id.as_str(),
                    id,
                ),
                _ => false,
            };
            if found {
                proof {
                    lemma_generic_position_is(all, id@, i as int);
                }
                return Some(i);
            }
            i = i + 1;
        }
        proof {
            lemma_generic_position_is(all, id@, i as int);
        }
        None
    }

    /// Takes the text `value`, given in advance for the prompt `id`, as the
    /// answer to that prompt, provided that it is one of `open`; a text
    /// with a comma stands for the list of its pieces. A text for a prompt
    /// that is not among `open` is passed over.
    pub fn answer_override(&mut self, open: &Vec<CtGenTaskPrompt>, id: &str, value: &str) -> (r:
        Result<Option<CtGenTaskAction>, CtGenError>)
        requires
            old(self).wf(),
        ensures
            final(self).wf(),
            final(self).engine() == old(self).engine(),
            ({
                let at = generic_position(prompt_views(open@), id@);
                let answer = CtGenAnswerView::from_override(value@);
                if at < open@.len() {
                    if CtGenTaskView::refuses(open@[at]@, answer) {
                        final(self)@ == old(self)@ && r is Err && r->Err_0@
                            == CtGenErrorView::validation(invalid_answer(id@))
                    } else {
                        final(self)@ == old(self)@.with_answer(id@, answer) && r is Ok && r->Ok_0
                            is Some && r->Ok_0->0@ == final(self)@.pending()
                    }
                } else {
                    final(self)@ == old(self)@ && r is Ok && r->Ok_0 is None
                }
            }),
    {
        match Self::find_generic(open, id) {
            Some(at) => {
                proof {
                    lemma_generic_position(prompt_views(open@), id@);
                    assert(prompt_views(open@)[at as int] == open@[at as int]@);
                }
                let answer = CtGenAnswer::from_override(value);
                match self.set_prompt_answer(&open[at], answer) {
                    Ok(action) => Ok(Some(action)),
                    Err(e) => Err(e),
                }
            },
            None => Ok(None),
        }
    }
}

impl CtGenTaskView {
    /// Whether `found` can be what was found for the target `id`: its
    /// condition was rendered exactly where it declares one, and it was
    /// rendered itself exactly where it was let through, to an output of
    /// that target; what failed, failed as a runtime error.
    pub open spec fn admits(self, id: Seq<char>, found: CtGenStepView) -> bool {
        let target = self.profile.target[id];
        &&& (found.condition is Some <==> target.condition is Some)
        &&& (found.condition matches Some(Err(e)) ==> e.kind == CtGenErrorKind::Runtime)
        &&& (found.output is Some <==> lets_through(found.condition))
        &&& (found.output matches Some(Ok(o)) ==> o.renders(id, target, self.target_dir))
        &&& (found.output matches Some(Err(e)) ==> e.kind == CtGenErrorKind::Runtime)
    }

    /// Whether `plan` is what a run of the task comes to where `trace`
    /// holds what was found for the defined targets, in order, up to the
    /// one at which generation ended: the plan is the empty plan taken
    /// through one step for each of them, generation went on before each,
    /// and it ended before the last defined target only where a step ended
    /// it.
    pub open spec fn follows(self, trace: Seq<CtGenStepView>, plan: CtGenRunPlanView) -> bool {
        let defined = self.profile.defined_targets();
        &&& trace.len() <= defined.len()
        &&& forall|j: int| 0 <= j < trace.len() ==> self.admits(defined[j], #[trigger] trace[j])
        &&& forall|n: nat|
            n < trace.len() ==> (#[trigger] CtGenRunPlanView::after(defined, trace, n)).1
        &&& CtGenRunPlanView::after(defined, trace, trace.len()).0 == plan
        &&& (CtGenRunPlanView::after(defined, trace, trace.len()).1 ==> trace.len()
            == defined.len())
    }

    /// Whether `plan` can be what a run of the task produced: it follows
    /// from what was found for the defined targets, whatever that was.
    pub open spec fn ran(self, plan: CtGenRunPlanView) -> bool {
        exists|trace: Seq<CtGenStepView>| #[trigger] self.follows(trace, plan)
    }

    /// What holds of every plan that a run of the task can produce.
    ///
    /// The outputs stand for the first of the defined targets, one each and
    /// in order. Where generation ended at a target without an output,
    /// because its condition did not hold or because it failed to render,
    /// that target is the one after the last output, and no target after
    /// it has an output. Where it did not, every defined target has its
    /// output, unless the formatter of the last output failed to render,
    /// which ends generation too. A failure is a runtime error and comes
    /// with the target at which it ended generation.
    pub open spec fn produced(self, plan: CtGenRunPlanView) -> bool {
        let defined = self.profile.defined_targets();
        let outputs = plan.outputs;
        &&& outputs.len() <= defined.len()
        &&& forall|j: int|
            0 <= j < outputs.len() ==> (#[trigger] outputs[j]).id == defined[j]
                && outputs[j].renders(defined[j], self.profile.target[defined[j]], self.target_dir)
        &&& forall|j: int|
            0 <= j < outputs.len() - 1 ==> !((#[trigger] outputs[j]).formatter is Failed)
        &&& match plan.stopped_at {
            Some(id) => outputs.len() < defined.len() && id == defined[outputs.len() as int] && (
            outputs.len() > 0 ==> !(outputs.last().formatter is Failed)),
            None => plan.failure is None && (outputs.len() == defined.len() || (outputs.len() > 0
                && outputs.last().formatter is Failed)),
        }
        &&& plan.failure is Some ==> plan.failure->0.kind == CtGenErrorKind::Runtime
    }
}

impl CtGenTask {
    /// The document that templates are rendered against: that of the
    /// context, or the JSON null value while there is no context.
    pub fn document(&self) -> (r: serde_json::Value)
        ensures
            r == self@.document(),
            self@.context is Some ==> r == self@.context->0.document(),
    {
        let held = match &self.context {
            Some(c) => Some(c.document()),
            None => None,
        };
        json_optional(held)
    }

    /// Renders the template text `template_content` against the context.
    /// What the engine gives back is returned as it is; a failure of the
    /// engine is reported as a runtime error.
    pub fn render(&self, template_content: &str) -> (r: Result<String, CtGenError>)
        ensures
            r is Err ==> r->Err_0.kind() == CtGenErrorKind::Runtime,
    {
        let document = self.document();
        rendered(render_inline(&self.renderer, template_content, &document))
    }

    /// Renders the registered template `template_name` against the context.
    /// What the engine gives back is returned as it is; a failure of the
    /// engine is reported as a runtime error.
    pub fn render_template(&self, template_name: &str) -> (r: Result<String, CtGenError>)
        ensures
            r is Err ==> r->Err_0.kind() == CtGenErrorKind::Runtime,
    {
        let document = self.document();
        rendered(render_named(&self.renderer, template_name, &document))
    }

    /// Renders the templates of the prompt definition `prompt` against the
    /// context and says how the prompt is to be asked. The task is left as
    /// it is.
    ///
    /// A template that fails to render, the condition too, fails the call
    /// with a runtime error.
    pub fn render_prompt(&self, prompt: &CtGenPrompt) -> (r: Result<
        CtGenRenderedPrompt,
        CtGenError,
    >)
        ensures
            r is Err ==> r->Err_0.kind() == CtGenErrorKind::Runtime,
            r is Ok ==> exists|
                condition: Option<Seq<char>>,
                enumerate: Option<Seq<char>>,
                text: Seq<char>,
                options: Option<Seq<char>>,
            |
                {
                    &&& (condition is Some <==> prompt@.condition is Some)
                    &&& (enumerate is Some <==> prompt@.enumerate is Some)
                    &&& (options is Some <==> prompt@.options is Text)
                    &&& r->Ok_0@ == #[trigger] CtGenRenderedPromptView::of(
                        prompt@,
                        condition,
                        enumerate,
                        text,
                        options,
                    )
                },
    {
        let condition: Option<String> = match prompt.condition() {
            Some(c) => match self.render(c) {
                Ok(text) => Some(text),
                Err(e) => {
                    return Err(e);
                },
            },
            None => None,
        };
        let enumerate: Option<String> = match prompt.enumerate() {
            Some(e) => match self.render(e) {
                Ok(text) => Some(text),
                Err(e) => {
                    return Err(e);
                },
            },
            None => None,
        };
        let text = match self.render(prompt.prompt()) {
            Ok(text) => text,
            Err(e) => {
                return Err(e);
            },
        };
        let options: Option<String> = match prompt.options() {
            CtGenOptions::Text(t) => match self.render(t.as_str()) {
                Ok(text) => Some(text),
                Err(e) => {
                    return Err(e);
                },
            },
            _ => None,
        };
        let ghost shown = text@;
        let r = CtGenRenderedPrompt::from_rendered(
            prompt,
            as_opt_str(&condition),
            as_opt_str(&enumerate),
            text,
            as_opt_str(&options),
        );
        assert(r@ == CtGenRenderedPromptView::of(
            prompt@,
            opt_text(condition),
            opt_text(enumerate),
            shown,
            opt_text(options),
        ));
        Ok(r)
    }

    /// Renders the target `target`, declared under the id `id`: its body
    /// from its template, its path below the target directory, which is
    /// rendered where it is a template, and its formatter command, if it
    /// declares one, against the path of the file. Nothing is written.
    ///
    /// A body or a path that fails to render fails the call; a formatter
    /// command that fails to render is handed back in the output.
    pub fn render_target(&self, id: &str, target: &CtGenTarget) -> (r: Result<
        CtGenTargetOutput,
        CtGenError,
    >)
        ensures
            r is Err ==> r->Err_0.kind() == CtGenErrorKind::Runtime,
            r is Ok ==> r->Ok_0@.renders(id@, target@, self@.target_dir),
    {
        let body = match self.render_template(target.template()) {
            Ok(text) => text,
            Err(e) => {
                return Err(e);
            },
        };
        let file: Option<String> = if is_templated(target.target()) {
            match self.render(target.target()) {
                Ok(text) => Some(text),
                Err(e) => {
                    return Err(e);
                },
            }
        } else {
            None
        };
        let sep = separator();
        let formatter: Option<Result<String, CtGenError>> = match target.formatter() {
            Some(command) => {
                let path = target_path(target, self.target_dir.as_str(), sep, as_opt_str(&file));
                let mut members: Vec<(String, serde_json::Value)> = Vec::new();
                members.push(("target".to_owned(), json_string(path.as_str())));
                let data = json_object(members);
                Some(rendered(render_inline(&self.renderer, command, &data)))
            },
            None => None,
        };
        let ghost shown = body@;
        let ghost at = opt_rendered(file);
        let ghost command = opt_outcome(formatter);
        let output = target_output(id, target, self.target_dir.as_str(), sep, body, file, formatter);
        assert(output@ == CtGenTargetOutputView::of(
            id@,
            target@,
            self@.target_dir,
            sep@,
            shown,
            at,
            command,
        ));
        Ok(output)
    }

    /// Renders the targets of the profile in order, and hands back what is
    /// to be written. Fails, with nothing rendered, unless the task is ready.
    ///
    /// A listed target without a definition is passed over. For each other
    /// target its condition is rendered, where it declares one, and the
    /// target itself, where the condition lets it through; `plan_step`
    /// says what the plan becomes. Generation ends at the first target
    /// whose condition does not render to `1`: neither that target nor any
    /// after it is rendered. It ends too at the first failure to render; a
    /// failure is handed back with the outputs that came before it.
    pub fn run(&self) -> (r: Result<CtGenRunPlan, CtGenError>)
        ensures
            r is Err <==> !self@.ready(),
            r is Err ==> r->Err_0@ == CtGenErrorView::runtime(
                "Context not ready to run all render tasks."@,
            ),
            r is Ok ==> self@.ran(r->Ok_0@) && self@.produced(r->Ok_0@),
    {
        if !self.is_context_ready() {
            return Err(
                CtGenError::RuntimeError("Context not ready to run all render tasks.".to_owned()),
            );
        }
        let mut plan = CtGenRunPlan { outputs: Vec::new(), stopped_at: None, failure: None };
        let mut stopped = false;
        let ids = self.profile.targets();
        let ghost listed = self@.profile.profile.targets;
        let ghost pred = |id: Seq<char>| self@.profile.target.contains_key(id);
        let ghost defined = self@.profile.defined_targets();
        let ghost mut trace: Seq<CtGenStepView> = Seq::empty();
        let mut i: usize = 0;
        proof {
            broadcast use vstd::seq_lib::group_filter_ensures;

            assert(listed.subrange(0, 0).filter(pred).len() == 0);
            assert(plan@.outputs =~= Seq::empty());
            assert(plan@ == CtGenRunPlanView::empty());
        }
        while i < ids.len() && !stopped
            invariant
                i <= ids@.len(),
                listed == texts(ids@),
                listed == self@.profile.profile.targets,
                pred == (|id: Seq<char>| self@.profile.target.contains_key(id)),
                defined == listed.filter(pred),
                defined == self@.profile.defined_targets(),
                trace.len() <= defined.len(),
                !stopped ==> trace.len() == listed.subrange(0, i as int).filter(pred).len(),
                forall|j: int|
                    0 <= j < trace.len() ==> self@.admits(defined[j], #[trigger] trace[j]),
                forall|n: nat|
                    n < trace.len() ==> (#[trigger] CtGenRunPlanView::after(defined, trace, n)).1,
                CtGenRunPlanView::after(defined, trace, trace.len()) == (plan@, !stopped),
                !stopped ==> plan@.outputs.len() == trace.len() && plan@.stopped_at is None
                    && plan@.failure is None,
                !stopped && plan@.outputs.len() > 0 ==> !(plan@.outputs.last().formatter
                    is Failed),
                plan@.outputs.len() <= defined.len(),
                forall|j: int|
                    0 <= j < plan@.outputs.len() ==> (#[trigger] plan@.outputs[j]).id == defined[j]
                        && plan@.outputs[j].renders(
                        defined[j],
                        self@.profile.target[defined[j]],
                        self@.target_dir,
                    ),
                forall|j: int|
                    0 <= j < plan@.outputs.len() - 1 ==> !((#[trigger] plan@.outputs[j]).formatter
                        is Failed),
                stopped ==> self@.produced(plan@),
            decreases ids@.len() - i,
        {
            let id = ids[i].as_str();
            proof {
                broadcast use Seq::lemma_filter_push;

                assert(listed.subrange(0, i + 1) =~= listed.subrange(0, i as int).push(
                    listed[i as int],
                ));
                assert(listed[i as int] == id@);
                assert(listed.subrange(0, i + 1).is_prefix_of(listed));
                listed.subrange(0, i + 1).lemma_filter_monotone(listed, pred);
                assert(listed.subrange(0, i as int).is_prefix_of(listed));
                listed.subrange(0, i as int).lemma_filter_monotone(listed, pred);
            }
            match self.profile.target(id) {
                Some(target) => {
                    proof {
                        assert(pred(id@));
                        let upto = listed.subrange(0, i + 1).filter(pred);
                        assert(upto == listed.subrange(0, i as int).filter(pred).push(id@));
                        assert(defined[trace.len() as int] == upto[trace.len() as int]);
                    }
                    let condition: Option<Result<String, CtGenError>> = match target.condition() {
                        Some(c) => Some(self.render(c)),
                        None => None,
                    };
                    let output: Option<Result<CtGenTargetOutput, CtGenError>> =
                        if target_let_through(&condition) {
                        Some(self.render_target(id, target))
                    } else {
                        None
                    };
                    let ghost found = CtGenStepView {
                        condition: opt_outcome(condition),
                        output: opt_output(output),
                    };
                    let ghost before = plan@;
                    let ghost taken = trace;
                    let go_on = plan_step(&mut plan, id, condition, output);
                    proof {
                        let k = taken.len();
                        trace = taken.push(found);
                        assert(self@.admits(id@, found));
                        assert forall|j: int| 0 <= j < trace.len() implies self@.admits(
                            defined[j],
                            #[trigger] trace[j],
                        ) by {
                            if j < k {
                                assert(trace[j] == taken[j]);
                            }
                        }
                        assert forall|n: nat| n < trace.len() implies (
                        #[trigger] CtGenRunPlanView::after(defined, trace, n)).1 by {
                            lemma_after_push(defined, taken, found, n);
                        }
                        lemma_after_push(defined, taken, found, k);
                        assert(trace[k as int] == found);
                        assert(CtGenRunPlanView::after(defined, trace, trace.len()) == before.step(
                            id@,
                            found.condition,
                            found.output,
                        ));
                        if go_on {
                            assert(plan@.outputs == before.outputs.push(found.output->0->Ok_0));
                        }
                    }
                    stopped = !go_on;
                },
                None => {
                    proof {
                        assert(!pred(id@));
                    }
                },
            }
            i = i + 1;
        }
        proof {
            if !stopped {
                assert(listed.subrange(0, i as int) =~= listed);
            }
            assert(self@.follows(trace, plan@));
        }
        Ok(plan)
    }
}

/// Once a database is bound, the database prompt is never reported as open
/// again, and once a subject table is set, neither is the table prompt.
pub proof fn lemma_unanswered_leaves_out_bound(task: CtGenTaskView)
    ensures
        task.database.len() > 0 ==> !task.unanswered().contains(
            CtGenTaskPromptView::PromptDatabase,
        ),
        task.table is Some ==> !task.unanswered().contains(CtGenTaskPromptView::PromptTable),
{
    broadcast use vstd::seq_lib::group_filter_ensures;

    let pred = |p: CtGenTaskPromptView| task.is_unanswered(p);
    if task.database.len() > 0 && task.unanswered().contains(CtGenTaskPromptView::PromptDatabase) {
        let i = choose|i: int|
            0 <= i < task.unanswered().len() && task.unanswered()[i]
                == CtGenTaskPromptView::PromptDatabase;
        assert(pred(task.unanswered()[i]));
    }
    if task.table is Some && task.unanswered().contains(CtGenTaskPromptView::PromptTable) {
        let i = choose|i: int|
            0 <= i < task.unanswered().len() && task.unanswered()[i]
                == CtGenTaskPromptView::PromptTable;
        assert(pred(task.unanswered()[i]));
    }
}

/// A required prompt of the profile refuses the empty text and the empty
/// list, and takes a text of one character that is no whitespace, and a
/// list of one item. A prompt that is not required refuses nothing.
pub proof fn lemma_required_refuses_blank(
    prompt_id: Seq<char>,
    prompt_data: crate::profile::CtGenPromptView,
    c: char,
    item: Seq<char>,
)
    requires
        !crate::text::is_space(c),
    ensures
        ({
            let prompt = CtGenTaskPromptView::PromptGeneric { prompt_id, prompt_data };
            &&& CtGenTaskView::refuses(prompt, CtGenAnswerView::Text(Seq::empty()))
                == prompt_data.required
            &&& CtGenTaskView::refuses(prompt, CtGenAnswerView::List(Seq::empty()))
                == prompt_data.required
            &&& !CtGenTaskView::refuses(prompt, CtGenAnswerView::Text(seq![c]))
            &&& !CtGenTaskView::refuses(prompt, CtGenAnswerView::List(seq![item]))
        }),
{
    let empty = Seq::<char>::empty();
    crate::text::lemma_leading_spaces_is(empty, 0);
    assert(crate::text::trim_spec(empty).len() == 0);
    let s = seq![c];
    crate::text::lemma_leading_spaces_is(s, 0);
    let t = crate::text::trim_start_spec(s);
    assert(t =~= s);
    crate::text::lemma_trailing_spaces_is(t, 0);
    assert(crate::text::trim_spec(s) =~= s);
}

/// A run over a single defined target that declares no condition hands
/// back exactly one output, that of the target, or else the failure of the
/// target and no output.
pub proof fn lemma_one_target_one_output(task: CtGenTaskView, plan: CtGenRunPlanView)
    requires
        task.ran(plan),
        task.profile.defined_targets().len() == 1,
        task.profile.target[task.profile.defined_targets()[0]].condition is None,
    ensures
        ({
            let id = task.profile.defined_targets()[0];
            ||| (plan.outputs.len() == 1 && plan.outputs[0].renders(
                id,
                task.profile.target[id],
                task.target_dir,
            ) && plan.stopped_at is None && plan.failure is None)
            ||| (plan.outputs.len() == 0 && plan.stopped_at == Some(id) && plan.failure is Some)
        }),
{
    let defined = task.profile.defined_targets();
    let trace = choose|trace: Seq<CtGenStepView>| #[trigger] task.follows(trace, plan);
    assert(CtGenRunPlanView::after(defined, trace, 0) == (CtGenRunPlanView::empty(), true));
    assert(trace.len() == 1);
    assert(task.admits(defined[0], trace[0]));
    assert(CtGenRunPlanView::after(defined, trace, 1) == CtGenRunPlanView::empty().step(
        defined[0],
        trace[0].condition,
        trace[0].output,
    )) by {
        assert(CtGenRunPlanView::after(defined, trace, 0).1);
    }
    match trace[0].output {
        Some(Ok(o)) => {
            assert(plan.outputs =~= seq![o]);
        },
        _ => {},
    }
}

} // verus!
