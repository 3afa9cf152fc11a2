//! What generation produces: for each target a file to write, and a
//! command to run on it.

use vstd::prelude::*;
use crate::error::CtGenError;
use crate::error::CtGenErrorKind;
use crate::error::CtGenErrorView;
use crate::paths::join_path;
use crate::paths::join_spec;
use crate::profile::CtGenTarget;
use crate::profile::CtGenTargetView;
use crate::task::prompt::condition_holds;
use crate::task::prompt::condition_met;
use crate::text::contains;
use crate::text::contains_spec;

verus! {

/// Whether the text of an output path is a template: it holds both an
/// opening and a closing pair of braces.
pub open spec fn templated(path: Seq<char>) -> bool {
    contains_spec(path, "{{"@) && contains_spec(path, "}}"@)
}

/// Whether the text of an output path is a template rather than a literal path.
pub fn is_templated(path: &str) -> (r: bool)
    ensures
        r == templated(path@),
{
    contains(path, "{{") && contains(path, "}}")
}

/// The command to run on a written file.
#[derive(Debug)]
pub enum CtGenFormatter {
    /// The target declares none.
    Absent,
    /// The rendered shell command.
    Command(String),
    /// The command failed to render; generation ends after the file is written.
    Failed(CtGenError),
}

/// The model of a [`CtGenFormatter`] in contracts.
pub enum CtGenFormatterView {
    Absent,
    Command(Seq<char>),
    Failed(CtGenErrorView),
}

impl View for CtGenFormatter {
    type V = CtGenFormatterView;

    open spec fn view(&self) -> CtGenFormatterView {
        match self {
            CtGenFormatter::Absent => CtGenFormatterView::Absent,
            CtGenFormatter::Command(c) => CtGenFormatterView::Command(c@),
            CtGenFormatter::Failed(e) => CtGenFormatterView::Failed(e@),
        }
    }
}

/// One generated file.
#[derive(Debug)]
pub struct CtGenTargetOutput {
    /// The id of the target.
    pub id: String,
    /// The output path as the target declares it.
    pub target: String,
    /// The path of the file to write, below the target directory.
    pub path: String,
    /// The content of the file.
    pub body: String,
    /// The command to run once the file is written.
    pub formatter: CtGenFormatter,
}

/// The model of a [`CtGenTargetOutput`] in contracts.
pub struct CtGenTargetOutputView {
    pub id: Seq<char>,
    pub target: Seq<char>,
    pub path: Seq<char>,
    pub body: Seq<char>,
    pub formatter: CtGenFormatterView,
}

impl View for CtGenTargetOutput {
    type V = CtGenTargetOutputView;

    open spec fn view(&self) -> CtGenTargetOutputView {
        CtGenTargetOutputView {
            id: self.id@,
            target: self.target@,
            path: self.path@,
            body: self.body@,
            formatter: self.formatter@,
        }
    }
}

/// What an engine call came to: the rendered text, or the error.
pub open spec fn outcome_view(outcome: Result<String, CtGenError>) -> Result<
    Seq<char>,
    CtGenErrorView,
> {
    match outcome {
        Ok(text) => Ok(text@),
        Err(e) => Err(e@),
    }
}

/// What an engine call came to, where one was made.
pub open spec fn opt_outcome(outcome: Option<Result<String, CtGenError>>) -> Option<
    Result<Seq<char>, CtGenErrorView>,
> {
    match outcome {
        Some(o) => Some(outcome_view(o)),
        None => None,
    }
}

/// The view of an optional rendered text.
pub open spec fn opt_rendered(text: Option<String>) -> Option<Seq<char>> {
    match text {
        Some(t) => Some(t@),
        None => None,
    }
}

/// What the rendering of a target came to, where it was rendered.
pub open spec fn opt_output(output: Option<Result<CtGenTargetOutput, CtGenError>>) -> Option<
    Result<CtGenTargetOutputView, CtGenErrorView>,
> {
    match output {
        Some(Ok(o)) => Some(Ok(o@)),
        Some(Err(e)) => Some(Err(e@)),
        None => None,
    }
}

/// The file of an output, below the target directory: the rendered path
/// where one was rendered, else the path as the target declares it.
pub open spec fn target_file(target: CtGenTargetView, file: Option<Seq<char>>) -> Seq<char> {
    match file {
        Some(rendered) => rendered,
        None => target.target,
    }
}

impl CtGenFormatterView {
    /// The formatter that the rendering of a formatter command came to:
    /// none where none was rendered, the command where it rendered, and
    /// the failure where it did not.
    pub open spec fn of(formatter: Option<Result<Seq<char>, CtGenErrorView>>) -> CtGenFormatterView {
        match formatter {
            None => CtGenFormatterView::Absent,
            Some(Ok(command)) => CtGenFormatterView::Command(command),
            Some(Err(e)) => CtGenFormatterView::Failed(e),
        }
    }
}

impl CtGenTargetOutputView {
    /// The output of the target `target`, declared under `id`, below
    /// `target_dir`: the file holds `body`, what the template rendered to;
    /// its path is the target directory, `sep` and the file, which is
    /// `file`, the rendered path, where the path was rendered, and the
    /// declared path where it was not; the formatter is what `formatter`,
    /// the rendering of the command, came to.
    pub open spec fn of(
        id: Seq<char>,
        target: CtGenTargetView,
        target_dir: Seq<char>,
        sep: Seq<char>,
        body: Seq<char>,
        file: Option<Seq<char>>,
        formatter: Option<Result<Seq<char>, CtGenErrorView>>,
    ) -> CtGenTargetOutputView {
        CtGenTargetOutputView {
            id,
            target: target.target,
            path: join_spec(target_dir, sep, target_file(target, file)),
            body,
            formatter: CtGenFormatterView::of(formatter),
        }
    }

    /// Whether this is an output of `target`, declared under `id`, below
    /// `target_dir`: it is `of` a body, a separator of one character, a
    /// rendered path exactly where the declared path is a template, and
    /// the rendering of a formatter command exactly where the target
    /// declares one, a failure of which is a runtime error.
    pub open spec fn renders(self, id: Seq<char>, target: CtGenTargetView, target_dir: Seq<char>) -> bool {
        exists|
            sep: Seq<char>,
            body: Seq<char>,
            file: Option<Seq<char>>,
            formatter: Option<Result<Seq<char>, CtGenErrorView>>,
        |
            {
                &&& sep.len() == 1
                &&& (file is Some <==> templated(target.target))
                &&& (formatter is Some <==> target.formatter is Some)
                &&& (formatter matches Some(Err(e)) ==> e.kind == CtGenErrorKind::Runtime)
                &&& self == #[trigger] Self::of(id, target, target_dir, sep, body, file, formatter)
            }
    }
}

/// The path of the file of `target` below `target_dir`, with `sep` as the
/// separator and `file` as the rendered path, where the path was rendered.
pub fn target_path(target: &CtGenTarget, target_dir: &str, sep: &str, file: Option<&str>) -> (r:
    String)
    ensures
        r@ == join_spec(target_dir@, sep@, target_file(target@, crate::text::opt_str(file))),
{
    match file {
        Some(rendered) => join_path(target_dir, sep, rendered),
        None => join_path(target_dir, sep, target.target()),
    }
}

/// The output of the target `target`, declared under `id`, from what its
/// templates rendered to: `body` from its template, `file` from its path,
/// where the path is a template, and `formatter` from its formatter
/// command, where it declares one.
pub fn target_output(
    id: &str,
    target: &CtGenTarget,
    target_dir: &str,
    sep: &str,
    body: String,
    file: Option<String>,
    formatter: Option<Result<String, CtGenError>>,
) -> (r: CtGenTargetOutput)
    ensures
        r@ == CtGenTargetOutputView::of(
            id@,
            target@,
            target_dir@,
            sep@,
            body@,
            opt_rendered(file),
            opt_outcome(formatter),
        ),
{
    let path = match &file {
        Some(rendered) => join_path(target_dir, sep, rendered.as_str()),
        None => join_path(target_dir, sep, target.target()),
    };
    let formatter = match formatter {
        None => CtGenFormatter::Absent,
        Some(Ok(command)) => CtGenFormatter::Command(command),
        Some(Err(e)) => CtGenFormatter::Failed(e),
    };
    CtGenTargetOutput { id: id.to_owned(), target: target.target().to_owned(), path, body, formatter }
}

/// The views of a list of outputs.
pub open spec fn output_views(v: Seq<CtGenTargetOutput>) -> Seq<CtGenTargetOutputView> {
    v.map_values(|o: CtGenTargetOutput| o@)
}

/// What a run produced: the outputs in the order of the targets, and where
/// and why it ended early, if it did.
#[derive(Debug)]
pub struct CtGenRunPlan {
    /// The files to write, in order.
    pub outputs: Vec<CtGenTargetOutput>,
    /// The id of the target at which generation ended without an output:
    /// its condition did not hold, or it failed to render.
    pub stopped_at: Option<String>,
    /// The error to report once the outputs are written, where a target
    /// failed to render.
    pub failure: Option<CtGenError>,
}

/// The model of a [`CtGenRunPlan`] in contracts.
pub struct CtGenRunPlanView {
    pub outputs: Seq<CtGenTargetOutputView>,
    pub stopped_at: Option<Seq<char>>,
    pub failure: Option<CtGenErrorView>,
}

/// The view of an optional error.
pub open spec fn opt_error(o: Option<CtGenError>) -> Option<CtGenErrorView> {
    match o {
        Some(e) => Some(e@),
        None => None,
    }
}

impl View for CtGenRunPlan {
    type V = CtGenRunPlanView;

    open spec fn view(&self) -> CtGenRunPlanView {
        CtGenRunPlanView {
            outputs: output_views(self.outputs@),
            stopped_at: opt_rendered(self.stopped_at),
            failure: opt_error(self.failure),
        }
    }
}

/// Whether a target is let through by what its condition came to: it
/// declares none, or the condition rendered to `1` between whitespace. A
/// condition that failed to render lets nothing through.
pub open spec fn lets_through(condition: Option<Result<Seq<char>, CtGenErrorView>>) -> bool {
    match condition {
        None => true,
        Some(Ok(text)) => condition_holds(Some(text)),
        Some(Err(_)) => false,
    }
}

/// What was found for one target: what its condition came to, where it
/// declares one, and what its rendering came to, where it was rendered.
pub struct CtGenStepView {
    pub condition: Option<Result<Seq<char>, CtGenErrorView>>,
    pub output: Option<Result<CtGenTargetOutputView, CtGenErrorView>>,
}

impl CtGenRunPlanView {
    /// The plan before the first target.
    pub open spec fn empty() -> CtGenRunPlanView {
        CtGenRunPlanView { outputs: Seq::empty(), stopped_at: None, failure: None }
    }

    /// The plan, ended at the target `id` without an output.
    pub open spec fn stop(self, id: Seq<char>, failure: Option<CtGenErrorView>) -> CtGenRunPlanView {
        CtGenRunPlanView { stopped_at: Some(id), failure, ..self }
    }

    /// The plan after the target `id`, and whether generation goes on.
    ///
    /// A condition that failed to render ends generation at the target,
    /// with that failure. A condition that rendered to anything but `1`
    /// between whitespace ends it there too, without a failure. A target
    /// that is let through and failed to render ends it with that failure.
    /// A target that is let through and rendered adds its output, and
    /// generation goes on unless the formatter of that output failed to
    /// render. Where nothing is handed in for a target that is let
    /// through, the plan stays as it is.
    pub open spec fn step(
        self,
        id: Seq<char>,
        condition: Option<Result<Seq<char>, CtGenErrorView>>,
        output: Option<Result<CtGenTargetOutputView, CtGenErrorView>>,
    ) -> (CtGenRunPlanView, bool) {
        match condition {
            Some(Err(e)) => (self.stop(id, Some(e)), false),
            _ => if !lets_through(condition) {
                (self.stop(id, None), false)
            } else {
                match output {
                    Some(Ok(o)) => (
                        CtGenRunPlanView { outputs: self.outputs.push(o), ..self },
                        !(o.formatter is Failed),
                    ),
                    Some(Err(e)) => (self.stop(id, Some(e)), false),
                    None => (self, true),
                }
            },
        }
    }

    /// The plan after the first `n` of the targets `defined`, for which
    /// `trace` holds what was found, and whether generation goes on. Once
    /// generation has ended, the plan stays as it is.
    pub open spec fn after(defined: Seq<Seq<char>>, trace: Seq<CtGenStepView>, n: nat) -> (
        CtGenRunPlanView,
        bool,
    )
        decreases n,
    {
        if n == 0 {
            (Self::empty(), true)
        } else {
            let before = Self::after(defined, trace, (n - 1) as nat);
            if before.1 {
                before.0.step(defined[n - 1], trace[n - 1].condition, trace[n - 1].output)
            } else {
                before
            }
        }
    }
}

/// What was found for a further target changes nothing of the plan after
/// the targets before it.
pub proof fn lemma_after_push(
    defined: Seq<Seq<char>>,
    trace: Seq<CtGenStepView>,
    found: CtGenStepView,
    n: nat,
)
    requires
        n <= trace.len(),
    ensures
        CtGenRunPlanView::after(defined, trace.push(found), n) == CtGenRunPlanView::after(
            defined,
            trace,
            n,
        ),
    decreases n,
{
    if n > 0 {
        lemma_after_push(defined, trace, found, (n - 1) as nat);
        assert(trace.push(found)[n - 1] == trace[n - 1]);
    }
}

/// Whether a target is let through by what its condition came to.
pub fn target_let_through(condition: &Option<Result<String, CtGenError>>) -> (r: bool)
    ensures
        r == lets_through(opt_outcome(*condition)),
{
    match condition {
        None => true,
        Some(Ok(text)) => condition_met(Some(text.as_str())),
        Some(Err(_)) => false,
    }
}

/// Takes into the plan what was found for the target `id`: what its
/// condition came to, where it declares one, and what its rendering came
/// to, where it was rendered. Says whether generation goes on.
pub fn plan_step(
    plan: &mut CtGenRunPlan,
    id: &str,
    condition: Option<Result<String, CtGenError>>,
    output: Option<Result<CtGenTargetOutput, CtGenError>>,
) -> (go_on: bool)
    ensures
        (final(plan)@, go_on) == old(plan)@.step(id@, opt_outcome(condition), opt_output(output)),
{
    let through = target_let_through(&condition);
    match condition {
        Some(Err(e)) => {
            plan.stopped_at = Some(id.to_owned());
            plan.failure = Some(e);
            false
        },
        _ => {
            if !through {
                plan.stopped_at = Some(id.to_owned());
                plan.failure = None;
                false
            } else {
                match output {
                    Some(Ok(o)) => {
                        let go_on = match &o.formatter {
                            CtGenFormatter::Failed(_) => false,
                            _ => true,
                        };
                        proof {
                            assert(output_views(plan.outputs@.push(o)) =~= output_views(
                                plan.outputs@,
                            ).push(o@));
                        }
                        plan.outputs.push(o);
                        go_on
                    },
                    Some(Err(e)) => {
                        plan.stopped_at = Some(id.to_owned());
                        plan.failure = Some(e);
                        false
                    },
                    None => true,
                }
            }
        },
    }
}

/// Whether what was found for a target lets generation go on with an
/// output: the target was let through and rendered, its formatter too.
pub open spec fn passes(found: CtGenStepView) -> bool {
    &&& lets_through(found.condition)
    &&& found.output matches Some(Ok(o))
    &&& !(found.output->0->Ok_0.formatter is Failed)
}

/// The outputs that `trace` holds for the first `n` targets.
pub open spec fn outputs_of(trace: Seq<CtGenStepView>, n: nat) -> Seq<CtGenTargetOutputView> {
    Seq::new(n, |j: int| trace[j].output->0->Ok_0)
}

/// As long as every target passes, the plan holds one output for each, in
/// order, and generation goes on.
pub proof fn lemma_after_passes(defined: Seq<Seq<char>>, trace: Seq<CtGenStepView>, k: nat)
    requires
        k <= trace.len(),
        forall|j: int| 0 <= j < k ==> passes(#[trigger] trace[j]),
    ensures
        CtGenRunPlanView::after(defined, trace, k) == (
            CtGenRunPlanView { outputs: outputs_of(trace, k), stopped_at: None, failure: None },
            true,
        ),
    decreases k,
{
    if k == 0 {
        assert(outputs_of(trace, 0) =~= Seq::empty());
    } else {
        lemma_after_passes(defined, trace, (k - 1) as nat);
        assert(passes(trace[k - 1]));
        assert(outputs_of(trace, k) =~= outputs_of(trace, (k - 1) as nat).push(
            trace[k - 1].output->0->Ok_0,
        ));
    }
}

/// Generation ends at the first target that is not let through: every
/// target before it has its output, in order, and neither that target nor
/// any after it has one, whatever was found for those after it. The
/// failure of the plan is the failure of the condition, where it failed to
/// render, and none where it rendered to something else than `1`.
pub proof fn lemma_run_ends_at_first_stop(
    defined: Seq<Seq<char>>,
    trace: Seq<CtGenStepView>,
    k: nat,
    n: nat,
)
    requires
        k < n <= trace.len(),
        forall|j: int| 0 <= j < k ==> passes(#[trigger] trace[j]),
        !lets_through(trace[k as int].condition),
    ensures
        CtGenRunPlanView::after(defined, trace, n) == (
            CtGenRunPlanView {
                outputs: outputs_of(trace, k),
                stopped_at: Some(defined[k as int]),
                failure: match trace[k as int].condition {
                    Some(Err(e)) => Some(e),
                    _ => None,
                },
            },
            false,
        ),
    decreases n,
{
    if n == k + 1 {
        lemma_after_passes(defined, trace, k);
    } else {
        lemma_run_ends_at_first_stop(defined, trace, k, (n - 1) as nat);
    }
}

/// A target that is let through and fails to render ends generation with
/// its failure: every target before it has its output, and the plan
/// reports the failure at that target.
pub proof fn lemma_run_reports_failed_target(
    defined: Seq<Seq<char>>,
    trace: Seq<CtGenStepView>,
    k: nat,
    n: nat,
)
    requires
        k < n <= trace.len(),
        forall|j: int| 0 <= j < k ==> passes(#[trigger] trace[j]),
        lets_through(trace[k as int].condition),
        trace[k as int].output matches Some(Err(e)),
    ensures
        CtGenRunPlanView::after(defined, trace, n) == (
            CtGenRunPlanView {
                outputs: outputs_of(trace, k),
                stopped_at: Some(defined[k as int]),
                failure: Some(trace[k as int].output->0->Err_0),
            },
            false,
        ),
    decreases n,
{
    if n == k + 1 {
        lemma_after_passes(defined, trace, k);
    } else {
        lemma_run_reports_failed_target(defined, trace, k, (n - 1) as nat);
    }
}

} // verus!
