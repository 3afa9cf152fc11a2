//! The profile: the loaded, read-only description of prompts, targets,
//! directories and connection directives.

use vstd::prelude::*;
use crate::consts::FILE_EXT_TEMPLATE;
use crate::dict::CtGenMap;
use crate::error::CtGenError;
use crate::error::CtGenErrorView;
use crate::paths::dir_spec;
use crate::paths::join_path;
use crate::paths::join_spec;
use crate::paths::resolve_dir;
use crate::paths::separator;
use crate::text::as_opt_str;
use crate::text::clone_opt;
use crate::text::clone_pairs;
use crate::text::clone_texts;
use crate::text::opt_str;
use crate::text::opt_text;
use crate::text::pairs;
use crate::text::texts;

verus! {

/// The options that a prompt offers.
#[derive(Debug)]
pub enum CtGenOptions {
    /// A text: in a declaration, a template that renders a comma-separated
    /// list; handed to a dialog, the suggested answer of a free-text input.
    Text(String),
    /// An ordered list of labels.
    List(Vec<String>),
    /// Labels by key, in the order of the keys.
    Keyed(Vec<(String, String)>),
    /// Anything else; no dialog can be built from it.
    Other,
}

/// The model of a [`CtGenOptions`] in contracts.
pub enum CtGenOptionsView {
    Text(Seq<char>),
    List(Seq<Seq<char>>),
    Keyed(Seq<(Seq<char>, Seq<char>)>),
    Other,
}

impl View for CtGenOptions {
    type V = CtGenOptionsView;

    open spec fn view(&self) -> CtGenOptionsView {
        match self {
            CtGenOptions::Text(t) => CtGenOptionsView::Text(t@),
            CtGenOptions::List(l) => CtGenOptionsView::List(texts(l@)),
            CtGenOptions::Keyed(k) => CtGenOptionsView::Keyed(pairs(k@)),
            CtGenOptions::Other => CtGenOptionsView::Other,
        }
    }
}

impl Clone for CtGenOptions {
    fn clone(&self) -> (r: Self)
        ensures
            r@ == self@,
    {
        match self {
            CtGenOptions::Text(t) => CtGenOptions::Text(t.clone()),
            CtGenOptions::List(l) => CtGenOptions::List(clone_texts(l)),
            CtGenOptions::Keyed(k) => CtGenOptions::Keyed(clone_pairs(k)),
            CtGenOptions::Other => CtGenOptions::Other,
        }
    }
}

/// The label of an option as a dialog shows it: the text of the option;
/// for an option that is no text, a notice where several options can be
/// chosen, and nothing where one is chosen.
pub open spec fn label_of(text: Option<Seq<char>>, multiple: bool) -> Seq<char> {
    match text {
        Some(t) => t,
        None => if multiple {
            "[FAILED TO PARSE VALUE]"@
        } else {
            Seq::empty()
        },
    }
}

/// The label of an option as a dialog shows it, from the text of the
/// option, where it is one.
pub fn option_label(text: Option<&str>, multiple: bool) -> (r: String)
    ensures
        r@ == label_of(opt_str(text), multiple),
{
    match text {
        Some(t) => t.to_owned(),
        None => if multiple {
            "[FAILED TO PARSE VALUE]".to_owned()
        } else {
            String::new()
        },
    }
}

/// The labels of a list of options, each from its text, where it is one.
pub open spec fn labels_of_texts(items: Seq<Option<String>>, multiple: bool) -> Seq<Seq<char>> {
    items.map_values(|t: Option<String>| label_of(opt_text(t), multiple))
}

/// The keyed labels of keyed options, each from its text, where it is one.
pub open spec fn labels_of_pairs(items: Seq<(String, Option<String>)>, multiple: bool) -> Seq<
    (Seq<char>, Seq<char>),
> {
    items.map_values(|p: (String, Option<String>)| (p.0@, label_of(opt_text(p.1), multiple)))
}

/// The options that a declared list stands for, each entry by its text,
/// where it is one.
pub fn listed_options(items: &Vec<Option<String>>, multiple: bool) -> (r: CtGenOptions)
    ensures
        r@ == CtGenOptionsView::List(labels_of_texts(items@, multiple)),
{
    let mut out: Vec<String> = Vec::new();
    let mut i: usize = 0;
    while i < items.len()
        invariant
            i <= items@.len(),
            out@.len() == i,
            forall|j: int|
                0 <= j < i ==> (#[trigger] out@[j])@ == label_of(opt_text(items@[j]), multiple),
        decreases items@.len() - i,
    {
        out.push(option_label(as_opt_str(&items[i]), multiple));
        i = i + 1;
    }
    assert(texts(out@) =~= labels_of_texts(items@, multiple));
    CtGenOptions::List(out)
}

/// The options that a declared table stands for, each entry by its key and
/// its text, where it is one.
pub fn keyed_options(items: &Vec<(String, Option<String>)>, multiple: bool) -> (r: CtGenOptions)
    ensures
        r@ == CtGenOptionsView::Keyed(labels_of_pairs(items@, multiple)),
{
    let mut out: Vec<(String, String)> = Vec::new();
    let mut i: usize = 0;
    while i < items.len()
        invariant
            i <= items@.len(),
            out@.len() == i,
            forall|j: int|
                0 <= j < i ==> (#[trigger] out@[j]).0@ == items@[j].0@ && out@[j].1@ == label_of(
                    opt_text(items@[j].1),
                    multiple,
                ),
        decreases items@.len() - i,
    {
        out.push((items[i].0.clone(), option_label(as_opt_str(&items[i].1), multiple)));
        i = i + 1;
    }
    assert(pairs(out@) =~= labels_of_pairs(items@, multiple));
    CtGenOptions::Keyed(out)
}

/// Interactive input from the user that adds to the rendering context.
#[derive(Debug)]
pub struct CtGenPrompt {
    condition: Option<String>,
    enumerate: Option<String>,
    prompt: String,
    options: CtGenOptions,
    multiple: bool,
    ordered: bool,
    required: bool,
}

/// The model of a [`CtGenPrompt`] in contracts.
pub struct CtGenPromptView {
    pub condition: Option<Seq<char>>,
    pub enumerate: Option<Seq<char>>,
    pub prompt: Seq<char>,
    pub options: CtGenOptionsView,
    pub multiple: bool,
    pub ordered: bool,
    pub required: bool,
}

impl View for CtGenPrompt {
    type V = CtGenPromptView;

    closed spec fn view(&self) -> CtGenPromptView {
        CtGenPromptView {
            condition: opt_text(self.condition),
            enumerate: opt_text(self.enumerate),
            prompt: self.prompt@,
            options: self.options@,
            multiple: self.multiple,
            ordered: self.ordered,
            required: self.required,
        }
    }
}

impl Clone for CtGenPrompt {
    fn clone(&self) -> (r: Self)
        ensures
            r@ == self@,
    {
        CtGenPrompt {
            condition: clone_opt(&self.condition),
            enumerate: clone_opt(&self.enumerate),
            prompt: self.prompt.clone(),
            options: self.options.clone(),
            multiple: self.multiple,
            ordered: self.ordered,
            required: self.required,
        }
    }
}

impl CtGenPrompt {
    /// A prompt definition from its parts.
    pub fn new(
        condition: Option<String>,
        enumerate: Option<String>,
        prompt: String,
        options: CtGenOptions,
        multiple: bool,
        ordered: bool,
        required: bool,
    ) -> (r: Self)
        ensures
            r@ == (CtGenPromptView {
                condition: opt_text(condition),
                enumerate: opt_text(enumerate),
                prompt: prompt@,
                options: options@,
                multiple,
                ordered,
                required,
            }),
    {
        CtGenPrompt { condition, enumerate, prompt, options, multiple, ordered, required }
    }

    /// The options of a prompt that declares none.
    pub fn default_options() -> (r: CtGenOptions)
        ensures
            r@ == CtGenOptionsView::Other,
    {
        CtGenOptions::Other
    }

    /// The `multiple` flag of a prompt that declares none.
    pub fn default_multiple() -> (r: bool)
        ensures
            !r,
    {
        false
    }

    /// The `required` flag of a prompt that declares none.
    pub fn default_required() -> (r: bool)
        ensures
            !r,
    {
        false
    }

    /// The `ordered` flag of a prompt that declares none.
    pub fn default_ordered() -> (r: bool)
        ensures
            !r,
    {
        false
    }

    /// Template that has to render to `1` for the prompt to be asked.
    pub fn condition(&self) -> (r: Option<&str>)
        ensures
            opt_str(r) == self@.condition,
    {
        as_opt_str(&self.condition)
    }

    /// Template that renders the comma-separated list of items for each of
    /// which the prompt is asked.
    pub fn enumerate(&self) -> (r: Option<&str>)
        ensures
            opt_str(r) == self@.enumerate,
    {
        as_opt_str(&self.enumerate)
    }

    /// Template of the prompt's text.
    pub fn prompt(&self) -> (r: &str)
        ensures
            r@ == self@.prompt,
    {
        self.prompt.as_str()
    }

    /// The declared options.
    pub fn options(&self) -> (r: &CtGenOptions)
        ensures
            r@ == self@.options,
    {
        &self.options
    }

    /// Whether more than one answer may be chosen.
    pub fn multiple(&self) -> (r: bool)
        ensures
            r == self@.multiple,
    {
        self.multiple
    }

    /// Whether the order of several answers matters.
    pub fn ordered(&self) -> (r: bool)
        ensures
            r == self@.ordered,
    {
        self.ordered
    }

    /// Whether an empty answer is refused.
    pub fn required(&self) -> (r: bool)
        ensures
            r == self@.required,
    {
        self.required
    }
}

/// One output file: which template renders it, and where it goes.
#[derive(Debug)]
pub struct CtGenTarget {
    condition: Option<String>,
    template: String,
    target: String,
    formatter: Option<String>,
}

/// The model of a [`CtGenTarget`] in contracts.
pub struct CtGenTargetView {
    pub condition: Option<Seq<char>>,
    pub template: Seq<char>,
    pub target: Seq<char>,
    pub formatter: Option<Seq<char>>,
}

impl View for CtGenTarget {
    type V = CtGenTargetView;

    closed spec fn view(&self) -> CtGenTargetView {
        CtGenTargetView {
            condition: opt_text(self.condition),
            template: self.template@,
            target: self.target@,
            formatter: opt_text(self.formatter),
        }
    }
}

impl Clone for CtGenTarget {
    fn clone(&self) -> (r: Self)
        ensures
            r@ == self@,
    {
        CtGenTarget {
            condition: clone_opt(&self.condition),
            template: self.template.clone(),
            target: self.target.clone(),
            formatter: clone_opt(&self.formatter),
        }
    }
}

impl Default for CtGenTarget {
    /// The target without condition and formatter, with an empty template
    /// name and an empty path.
    fn default() -> (r: Self)
        ensures
            r@ == (CtGenTargetView {
                condition: None,
                template: Seq::empty(),
                target: Seq::empty(),
                formatter: None,
            }),
    {
        CtGenTarget { condition: None, template: String::new(), target: String::new(), formatter: None }
    }
}

impl CtGenTarget {
    /// A target definition from its parts.
    pub fn new(
        condition: Option<String>,
        template: String,
        target: String,
        formatter: Option<String>,
    ) -> (r: Self)
        ensures
            r@ == (CtGenTargetView {
                condition: opt_text(condition),
                template: template@,
                target: target@,
                formatter: opt_text(formatter),
            }),
    {
        CtGenTarget { condition, template, target, formatter }
    }

    /// Template that has to render to `1` for the target to be generated.
    pub fn condition(&self) -> (r: Option<&str>)
        ensures
            opt_str(r) == self@.condition,
    {
        as_opt_str(&self.condition)
    }

    /// Name of the template, relative to the templates directory, without extension.
    pub fn template(&self) -> (r: &str)
        ensures
            r@ == self@.template,
    {
        self.template.as_str()
    }

    /// Template of the output file's path, relative to the target directory.
    pub fn target(&self) -> (r: &str)
        ensures
            r@ == self@.target,
    {
        self.target.as_str()
    }

    /// Template of the shell command to run on the written file.
    pub fn formatter(&self) -> (r: Option<&str>)
        ensures
            opt_str(r) == self@.formatter,
    {
        as_opt_str(&self.formatter)
    }
}

/// The scalar directives of a profile and the order of its prompts and targets.
#[derive(Debug)]
pub struct CtGenProfileConfig {
    name: String,
    env_file: String,
    env_var: String,
    dsn: String,
    target_dir: String,
    templates_dir: String,
    scripts_dir: String,
    prompts: Vec<String>,
    targets: Vec<String>,
}

/// The model of a [`CtGenProfileConfig`] in contracts.
pub struct CtGenProfileConfigView {
    pub name: Seq<char>,
    pub env_file: Seq<char>,
    pub env_var: Seq<char>,
    pub dsn: Seq<char>,
    pub target_dir: Seq<char>,
    pub templates_dir: Seq<char>,
    pub scripts_dir: Seq<char>,
    pub prompts: Seq<Seq<char>>,
    pub targets: Seq<Seq<char>>,
}

impl View for CtGenProfileConfig {
    type V = CtGenProfileConfigView;

    closed spec fn view(&self) -> CtGenProfileConfigView {
        CtGenProfileConfigView {
            name: self.name@,
            env_file: self.env_file@,
            env_var: self.env_var@,
            dsn: self.dsn@,
            target_dir: self.target_dir@,
            templates_dir: self.templates_dir@,
            scripts_dir: self.scripts_dir@,
            prompts: texts(self.prompts@),
            targets: texts(self.targets@),
        }
    }
}

impl Clone for CtGenProfileConfig {
    fn clone(&self) -> (r: Self)
        ensures
            r@ == self@,
    {
        CtGenProfileConfig {
            name: self.name.clone(),
            env_file: self.env_file.clone(),
            env_var: self.env_var.clone(),
            dsn: self.dsn.clone(),
            target_dir: self.target_dir.clone(),
            templates_dir: self.templates_dir.clone(),
            scripts_dir: self.scripts_dir.clone(),
            prompts: clone_texts(&self.prompts),
            targets: clone_texts(&self.targets),
        }
    }
}

impl Default for CtGenProfileConfig {
    /// The directives that are all empty.
    fn default() -> (r: Self)
        ensures
            r@ == (CtGenProfileConfigView {
                name: Seq::empty(),
                env_file: Seq::empty(),
                env_var: Seq::empty(),
                dsn: Seq::empty(),
                target_dir: Seq::empty(),
                templates_dir: Seq::empty(),
                scripts_dir: Seq::empty(),
                prompts: Seq::empty(),
                targets: Seq::empty(),
            }),
    {
        let r = CtGenProfileConfig {
            name: String::new(),
            env_file: String::new(),
            env_var: String::new(),
            dsn: String::new(),
            target_dir: String::new(),
            templates_dir: String::new(),
            scripts_dir: String::new(),
            prompts: Vec::new(),
            targets: Vec::new(),
        };
        assert(texts(r.prompts@) =~= Seq::empty());
        assert(texts(r.targets@) =~= Seq::empty());
        r
    }
}

impl CtGenProfileConfig {
    /// The directives of a profile from their parts.
    pub fn new(
        name: String,
        env_file: String,
        env_var: String,
        dsn: String,
        target_dir: String,
        templates_dir: String,
        scripts_dir: String,
        prompts: Vec<String>,
        targets: Vec<String>,
    ) -> (r: Self)
        ensures
            r@ == (CtGenProfileConfigView {
                name: name@,
                env_file: env_file@,
                env_var: env_var@,
                dsn: dsn@,
                target_dir: target_dir@,
                templates_dir: templates_dir@,
                scripts_dir: scripts_dir@,
                prompts: texts(prompts@),
                targets: texts(targets@),
            }),
    {
        CtGenProfileConfig {
            name,
            env_file,
            env_var,
            dsn,
            target_dir,
            templates_dir,
            scripts_dir,
            prompts,
            targets,
        }
    }

    /// The name that the profile gives itself.
    pub fn name(&self) -> (r: &str)
        ensures
            r@ == self@.name,
    {
        self.name.as_str()
    }

    /// The environment file to load the connection string from.
    pub fn env_file(&self) -> (r: &str)
        ensures
            r@ == self@.env_file,
    {
        self.env_file.as_str()
    }

    /// The environment variable that holds the connection string.
    pub fn env_var(&self) -> (r: &str)
        ensures
            r@ == self@.env_var,
    {
        self.env_var.as_str()
    }

    /// The connection string; where it is set, no environment file is read.
    pub fn dsn(&self) -> (r: &str)
        ensures
            r@ == self@.dsn,
    {
        self.dsn.as_str()
    }

    /// Output directory, relative to the directory the task runs in.
    pub fn target_dir(&self) -> (r: &str)
        ensures
            r@ == self@.target_dir,
    {
        self.target_dir.as_str()
    }

    /// Templates directory, relative to the profile's directory.
    pub fn templates_dir(&self) -> (r: &str)
        ensures
            r@ == self@.templates_dir,
    {
        self.templates_dir.as_str()
    }

    /// Scripts directory, relative to the profile's directory.
    pub fn scripts_dir(&self) -> (r: &str)
        ensures
            r@ == self@.scripts_dir,
    {
        self.scripts_dir.as_str()
    }

    /// The ids of the prompts to ask, in order.
    pub fn prompts(&self) -> (r: &Vec<String>)
        ensures
            texts(r@) == self@.prompts,
    {
        &self.prompts
    }

    /// The ids of the targets to generate, in order.
    pub fn targets(&self) -> (r: &Vec<String>)
        ensures
            texts(r@) == self@.targets,
    {
        &self.targets
    }
}

/// Directives given for one run, which shadow those of the profile.
#[derive(Debug)]
pub struct CtGenProfileConfigOverrides {
    env_file: Option<String>,
    env_var: Option<String>,
    dsn: Option<String>,
    target_dir: Option<String>,
}

/// The model of a [`CtGenProfileConfigOverrides`] in contracts.
pub struct CtGenProfileConfigOverridesView {
    pub env_file: Option<Seq<char>>,
    pub env_var: Option<Seq<char>>,
    pub dsn: Option<Seq<char>>,
    pub target_dir: Option<Seq<char>>,
}

impl View for CtGenProfileConfigOverrides {
    type V = CtGenProfileConfigOverridesView;

    closed spec fn view(&self) -> CtGenProfileConfigOverridesView {
        CtGenProfileConfigOverridesView {
            env_file: opt_text(self.env_file),
            env_var: opt_text(self.env_var),
            dsn: opt_text(self.dsn),
            target_dir: opt_text(self.target_dir),
        }
    }
}

impl Clone for CtGenProfileConfigOverrides {
    fn clone(&self) -> (r: Self)
        ensures
            r@ == self@,
    {
        CtGenProfileConfigOverrides {
            env_file: clone_opt(&self.env_file),
            env_var: clone_opt(&self.env_var),
            dsn: clone_opt(&self.dsn),
            target_dir: clone_opt(&self.target_dir),
        }
    }
}

impl Default for CtGenProfileConfigOverrides {
    /// The overrides that override nothing.
    fn default() -> (r: Self)
        ensures
            r@ == (CtGenProfileConfigOverridesView {
                env_file: None,
                env_var: None,
                dsn: None,
                target_dir: None,
            }),
    {
        CtGenProfileConfigOverrides { env_file: None, env_var: None, dsn: None, target_dir: None }
    }
}

impl CtGenProfileConfigOverrides {
    /// A set of overrides; `None` leaves the profile's directive in force.
    pub fn new(
        env_file: Option<String>,
        env_var: Option<String>,
        dsn: Option<String>,
        target_dir: Option<String>,
    ) -> (r: Self)
        ensures
            r@ == (CtGenProfileConfigOverridesView {
                env_file: opt_text(env_file),
                env_var: opt_text(env_var),
                dsn: opt_text(dsn),
                target_dir: opt_text(target_dir),
            }),
    {
        Self { env_file, env_var, dsn, target_dir }
    }

    /// Override of the environment file.
    pub fn env_file(&self) -> (r: Option<&str>)
        ensures
            opt_str(r) == self@.env_file,
    {
        as_opt_str(&self.env_file)
    }

    /// Override of the environment variable.
    pub fn env_var(&self) -> (r: Option<&str>)
        ensures
            opt_str(r) == self@.env_var,
    {
        as_opt_str(&self.env_var)
    }

    /// Override of the connection string.
    pub fn dsn(&self) -> (r: Option<&str>)
        ensures
            opt_str(r) == self@.dsn,
    {
        as_opt_str(&self.dsn)
    }

    /// Override of the output directory.
    pub fn target_dir(&self) -> (r: Option<&str>)
        ensures
            opt_str(r) == self@.target_dir,
    {
        as_opt_str(&self.target_dir)
    }
}

/// A profile: its given name, its directives, and the definitions of its
/// prompts and targets by id.
#[derive(Debug)]
pub struct CtGenProfile {
    name: String,
    profile: CtGenProfileConfig,
    prompt: CtGenMap<CtGenPrompt>,
    target: CtGenMap<CtGenTarget>,
    context_dir: String,
}

/// The model of a [`CtGenProfile`] in contracts.
pub struct CtGenProfileView {
    pub name: Seq<char>,
    pub profile: CtGenProfileConfigView,
    pub prompt: Map<Seq<char>, CtGenPromptView>,
    pub target: Map<Seq<char>, CtGenTargetView>,
    pub context_dir: Seq<char>,
}

impl View for CtGenProfile {
    type V = CtGenProfileView;

    closed spec fn view(&self) -> CtGenProfileView {
        CtGenProfileView {
            name: self.name@,
            profile: self.profile@,
            prompt: self.prompt@.map_values(|p: CtGenPrompt| p@),
            target: self.target@.map_values(|t: CtGenTarget| t@),
            context_dir: self.context_dir@,
        }
    }
}

/// Index of the first of `ids` that is not in `declared`, or the length of
/// `ids` where all are.
pub open spec fn first_undeclared(ids: Seq<Seq<char>>, declared: Set<Seq<char>>) -> int
    decreases ids.len(),
{
    if ids.len() == 0 || !declared.contains(ids[0]) {
        0
    } else {
        1 + first_undeclared(ids.drop_first(), declared)
    }
}

pub proof fn lemma_first_undeclared(ids: Seq<Seq<char>>, declared: Set<Seq<char>>)
    ensures
        0 <= first_undeclared(ids, declared) <= ids.len(),
        forall|j: int|
            0 <= j < first_undeclared(ids, declared) ==> declared.contains(#[trigger] ids[j]),
        first_undeclared(ids, declared) < ids.len() ==> !declared.contains(
            ids[first_undeclared(ids, declared)],
        ),
    decreases ids.len(),
{
    if !(ids.len() == 0 || !declared.contains(ids[0])) {
        let rest = ids.drop_first();
        lemma_first_undeclared(rest, declared);
        assert forall|j: int| 0 <= j < first_undeclared(ids, declared) implies declared.contains(
            #[trigger] ids[j],
        ) by {
            if j > 0 {
                assert(ids[j] == rest[j - 1]);
            }
        }
        if first_undeclared(ids, declared) < ids.len() {
            assert(ids[first_undeclared(ids, declared)] == rest[first_undeclared(rest, declared)]);
        }
    }
}

/// An index before which all ids are declared, and which holds an
/// undeclared id or is the end, is the first undeclared one.
pub proof fn lemma_first_undeclared_is(ids: Seq<Seq<char>>, declared: Set<Seq<char>>, k: int)
    requires
        0 <= k <= ids.len(),
        forall|j: int| 0 <= j < k ==> declared.contains(#[trigger] ids[j]),
        k < ids.len() ==> !declared.contains(ids[k]),
    ensures
        first_undeclared(ids, declared) == k,
    decreases ids.len(),
{
    if k > 0 {
        let rest = ids.drop_first();
        assert(declared.contains(ids[0]));
        assert forall|j: int| 0 <= j < k - 1 implies declared.contains(#[trigger] rest[j]) by {
            assert(rest[j] == ids[j + 1]);
        }
        if k - 1 < rest.len() {
            assert(rest[k - 1] == ids[k]);
        }
        lemma_first_undeclared_is(rest, declared, k - 1);
    }
}

/// Something to find out about the files of a profile.
#[derive(Debug)]
pub enum CtGenCheck {
    /// Whether `path` exists; the profile is refused with `failure` where it does not.
    Exists { path: String, failure: CtGenError },
    /// Nothing: the profile is refused with this error.
    Fail(CtGenError),
}

/// The model of a [`CtGenCheck`] in contracts.
pub enum CtGenCheckView {
    Exists { path: Seq<char>, failure: CtGenErrorView },
    Fail(CtGenErrorView),
}

impl View for CtGenCheck {
    type V = CtGenCheckView;

    open spec fn view(&self) -> CtGenCheckView {
        match self {
            CtGenCheck::Exists { path, failure } => CtGenCheckView::Exists {
                path: path@,
                failure: failure@,
            },
            CtGenCheck::Fail(e) => CtGenCheckView::Fail(e@),
        }
    }
}

/// The views of a list of checks.
pub open spec fn check_views(v: Seq<CtGenCheck>) -> Seq<CtGenCheckView> {
    v.map_values(|c: CtGenCheck| c@)
}

/// What a target whose template file is missing is reported with.
pub open spec fn template_not_found(id: Seq<char>) -> Seq<char> {
    "Template file not found for target "@ + id + "."@
}

/// What a listed prompt without a definition is reported with.
pub open spec fn undeclared_prompt(id: Seq<char>) -> Seq<char> {
    "Invalid prompt `"@ + id + "`. Make sure all included prompts are actually declared."@
}

/// What a listed target without a definition is reported with.
pub open spec fn undeclared_target(id: Seq<char>) -> Seq<char> {
    "Invalid target `"@ + id + "`. Make sure all included targets are actually declared."@
}

impl Default for CtGenProfile {
    /// The profile without a name, with empty directives and without
    /// prompts and targets.
    fn default() -> (r: Self)
        ensures
            r.wf(),
            r@ == (CtGenProfileView {
                name: Seq::empty(),
                profile: CtGenProfileConfigView {
                    name: Seq::empty(),
                    env_file: Seq::empty(),
                    env_var: Seq::empty(),
                    dsn: Seq::empty(),
                    target_dir: Seq::empty(),
                    templates_dir: Seq::empty(),
                    scripts_dir: Seq::empty(),
                    prompts: Seq::empty(),
                    targets: Seq::empty(),
                },
                prompt: Map::empty(),
                target: Map::empty(),
                context_dir: Seq::empty(),
            }),
    {
        let r = CtGenProfile {
            name: String::new(),
            profile: CtGenProfileConfig::default(),
            prompt: CtGenMap::new(),
            target: CtGenMap::new(),
            context_dir: String::new(),
        };
        proof {
            assert(r@.prompt =~= Map::empty());
            assert(r@.target =~= Map::empty());
        }
        r
    }
}

impl Clone for CtGenProfile {
    fn clone(&self) -> (r: Self)
        ensures
            r@ == self@,
            r.wf() == self.wf(),
    {
        let prompt = self.prompt.clone();
        let target = self.target.clone();
        proof {
            crate::dict::lemma_same_keys_same_map(
                prompt.entries(),
                self.prompt.entries(),
                |p: CtGenPrompt| p@,
            );
            crate::dict::lemma_same_keys_same_map(
                target.entries(),
                self.target.entries(),
                |t: CtGenTarget| t@,
            );
        }
        CtGenProfile {
            name: self.name.clone(),
            profile: self.profile.clone(),
            prompt,
            target,
            context_dir: self.context_dir.clone(),
        }
    }
}

impl CtGenProfileView {
    /// Index of the first listed prompt id without a definition, or the
    /// number of listed prompt ids where all have one.
    pub open spec fn first_undeclared_prompt(self) -> int {
        first_undeclared(self.profile.prompts, self.prompt.dom())
    }

    /// Index of the first listed target id without a definition, or the
    /// number of listed target ids where all have one.
    pub open spec fn first_undeclared_target(self) -> int {
        first_undeclared(self.profile.targets, self.target.dom())
    }

    /// The check that the listed target at `index` gives rise to: that its
    /// template file exists, or, where the target has no definition, the
    /// refusal of the profile.
    pub open spec fn target_check(self, sep: Seq<char>, index: int) -> CtGenCheckView {
        let id = self.profile.targets[index];
        if self.target.contains_key(id) {
            CtGenCheckView::Exists {
                path: join_spec(
                    self.templates_dir(sep),
                    sep,
                    self.target[id].template + FILE_EXT_TEMPLATE@,
                ),
                failure: CtGenErrorView::validation(template_not_found(id)),
            }
        } else {
            CtGenCheckView::Fail(CtGenErrorView::validation(undeclared_target(id)))
        }
    }

    /// The checks that decide whether the profile is valid, in the order in
    /// which they are to be made: the templates directory, the scripts
    /// directory, and then the listed targets in order, up to and with the
    /// first that has no definition.
    pub open spec fn checks(self, sep: Seq<char>) -> Seq<CtGenCheckView> {
        let missing = self.first_undeclared_target();
        let count = if missing < self.profile.targets.len() {
            missing + 1
        } else {
            self.profile.targets.len() as int
        };
        seq![
            CtGenCheckView::Exists {
                path: self.templates_dir(sep),
                failure: CtGenErrorView::validation("Invalid templates-dir specified."@),
            },
            CtGenCheckView::Exists {
                path: self.scripts_dir(sep),
                failure: CtGenErrorView::validation("Invalid scripts-dir specified."@),
            },
        ] + Seq::new(count as nat, |i: int| self.target_check(sep, i))
    }

    /// Whether every listed prompt id and every listed target id is defined.
    pub open spec fn declared(self) -> bool {
        &&& forall|i: int|
            0 <= i < self.profile.prompts.len() ==> self.prompt.contains_key(
                #[trigger] self.profile.prompts[i],
            )
        &&& forall|i: int|
            0 <= i < self.profile.targets.len() ==> self.target.contains_key(
                #[trigger] self.profile.targets[i],
            )
    }

    /// The listed target ids that have a definition, in order.
    pub open spec fn defined_targets(self) -> Seq<Seq<char>> {
        self.profile.targets.filter(|id: Seq<char>| self.target.contains_key(id))
    }

    /// The templates directory, with `sep` as the separator.
    pub open spec fn templates_dir(self, sep: Seq<char>) -> Seq<char> {
        dir_spec(self.context_dir, sep, self.profile.templates_dir)
    }

    /// The scripts directory, with `sep` as the separator.
    pub open spec fn scripts_dir(self, sep: Seq<char>) -> Seq<char> {
        dir_spec(self.context_dir, sep, self.profile.scripts_dir)
    }
}

/// The profile that a new profile directory starts with: one yes-or-no
/// prompt, and one target that is generated where the answer is yes.
pub open spec fn starter_profile(path: Seq<char>, name: Seq<char>) -> CtGenProfileView {
    CtGenProfileView {
        name,
        profile: CtGenProfileConfigView {
            name,
            env_file: ".env"@,
            env_var: "DATABASE_URL"@,
            dsn: Seq::empty(),
            target_dir: "src"@,
            templates_dir: "assets/templates"@,
            scripts_dir: "assets/scripts"@,
            prompts: seq!["dummy"@],
            targets: seq!["dummy"@],
        },
        prompt: map!["dummy"@ => CtGenPromptView {
            condition: None,
            enumerate: None,
            prompt: "Would you like to render the dummy target?"@,
            options: CtGenOptionsView::Keyed(seq![("0"@, "No"@), ("1"@, "Yes"@)]),
            multiple: false,
            ordered: false,
            required: false,
        }],
        target: map!["dummy"@ => CtGenTargetView {
            condition: Some("{{#if (eq prompts/dummy \"1\")}}1{{/if}}"@),
            template: "dummy"@,
            target: "dummy.md"@,
            formatter: None,
        }],
        context_dir: path,
    }
}

impl CtGenProfile {
    /// The profile that a new profile directory at `path` starts with,
    /// under the name `name`.
    pub fn new(path: &str, name: &str) -> (r: CtGenProfile)
        ensures
            r.wf(),
            r@ == starter_profile(path@, name@),
    {
        let mut options: Vec<(String, String)> = Vec::new();
        options.push(("0".to_owned(), "No".to_owned()));
        options.push(("1".to_owned(), "Yes".to_owned()));
        assert(pairs(options@) =~= seq![("0"@, "No"@), ("1"@, "Yes"@)]);
        let dummy_prompt = CtGenPrompt {
            condition: None,
            enumerate: None,
            prompt: "Would you like to render the dummy target?".to_owned(),
            options: CtGenOptions::Keyed(options),
            multiple: false,
            ordered: false,
            required: false,
        };
        let mut prompts: CtGenMap<CtGenPrompt> = CtGenMap::new();
        prompts.insert("dummy".to_owned(), dummy_prompt);
        let dummy_target = CtGenTarget {
            condition: Some("{{#if (eq prompts/dummy \"1\")}}1{{/if}}".to_owned()),
            template: "dummy".to_owned(),
            target: "dummy.md".to_owned(),
            formatter: None,
        };
        let mut targets: CtGenMap<CtGenTarget> = CtGenMap::new();
        targets.insert("dummy".to_owned(), dummy_target);
        let mut prompt_ids: Vec<String> = Vec::new();
        prompt_ids.push("dummy".to_owned());
        let mut target_ids: Vec<String> = Vec::new();
        target_ids.push("dummy".to_owned());
        assert(texts(prompt_ids@) =~= seq!["dummy"@]);
        assert(texts(target_ids@) =~= seq!["dummy"@]);
        let r = CtGenProfile {
            name: name.to_owned(),
            profile: CtGenProfileConfig {
                name: name.to_owned(),
                env_file: ".env".to_owned(),
                env_var: "DATABASE_URL".to_owned(),
                dsn: String::new(),
                target_dir: "src".to_owned(),
                templates_dir: "assets/templates".to_owned(),
                scripts_dir: "assets/scripts".to_owned(),
                prompts: prompt_ids,
                targets: target_ids,
            },
            prompt: prompts,
            target: targets,
            context_dir: path.to_owned(),
        };
        proof {
            assert(r@.prompt =~= starter_profile(path@, name@).prompt);
            assert(r@.target =~= starter_profile(path@, name@).target);
        }
        r
    }

    /// No id is defined twice.
    pub closed spec fn wf(&self) -> bool {
        self.prompt.wf() && self.target.wf()
    }

    /// A profile from what its file holds. The given `name` counts; where it
    /// is empty, the name that the directives hold.
    pub fn assemble(
        name: &str,
        profile: CtGenProfileConfig,
        prompt: CtGenMap<CtGenPrompt>,
        target: CtGenMap<CtGenTarget>,
        context_dir: &str,
    ) -> (r: Self)
        requires
            prompt.wf(),
            target.wf(),
        ensures
            r.wf(),
            r@ == (CtGenProfileView {
                name: if name@.len() > 0 {
                    name@
                } else {
                    profile@.name
                },
                profile: profile@,
                prompt: prompt@.map_values(|p: CtGenPrompt| p@),
                target: target@.map_values(|t: CtGenTarget| t@),
                context_dir: context_dir@,
            }),
    {
        let given = if !name.is_empty() {
            name.to_owned()
        } else {
            profile.name().to_owned()
        };
        CtGenProfile { name: given, profile, prompt, target, context_dir: context_dir.to_owned() }
    }

    /// The checks that decide whether the profile is valid, in the order in
    /// which they are to be made. The profile is valid where every path
    /// exists and no check is a refusal.
    pub fn validate(&self) -> (r: Vec<CtGenCheck>)
        ensures
            exists|sep: Seq<char>| sep.len() == 1 && check_views(r@) == #[trigger] self@.checks(sep),
    {
        let sep = separator();
        let r = self.validate_with(sep);
        assert(check_views(r@) == self@.checks(sep@));
        r
    }

    /// The checks that decide whether the profile is valid, with `sep` as
    /// the path separator.
    pub fn validate_with(&self, sep: &str) -> (r: Vec<CtGenCheck>)
        ensures
            check_views(r@) == self@.checks(sep@),
    {
        let templates_dir = self.templates_dir_with(sep);
        let mut out: Vec<CtGenCheck> = Vec::new();
        out.push(
            CtGenCheck::Exists {
                path: templates_dir.clone(),
                failure: CtGenError::ValidationError("Invalid templates-dir specified.".to_owned()),
            },
        );
        out.push(
            CtGenCheck::Exists {
                path: self.scripts_dir_with(sep),
                failure: CtGenError::ValidationError("Invalid scripts-dir specified.".to_owned()),
            },
        );
        let ghost head = check_views(out@);
        proof {
            assert(head =~= seq![
                CtGenCheckView::Exists {
                    path: self@.templates_dir(sep@),
                    failure: CtGenErrorView::validation("Invalid templates-dir specified."@),
                },
                CtGenCheckView::Exists {
                    path: self@.scripts_dir(sep@),
                    failure: CtGenErrorView::validation("Invalid scripts-dir specified."@),
                },
            ]);
        }
        let ids = self.profile.targets();
        let ghost listed = self@.profile.targets;
        let mut i: usize = 0;
        let mut stopped = false;
        proof {
            lemma_first_undeclared(listed, self@.target.dom());
        }
        while i < ids.len() && !stopped
            invariant
                i <= ids@.len(),
                listed == texts(ids@),
                listed == self@.profile.targets,
                templates_dir@ == self@.templates_dir(sep@),
                head == seq![
                    CtGenCheckView::Exists {
                        path: self@.templates_dir(sep@),
                        failure: CtGenErrorView::validation("Invalid templates-dir specified."@),
                    },
                    CtGenCheckView::Exists {
                        path: self@.scripts_dir(sep@),
                        failure: CtGenErrorView::validation("Invalid scripts-dir specified."@),
                    },
                ],
                check_views(out@).len() == 2 + i,
                check_views(out@).subrange(0, 2) == head,
                forall|j: int|
                    0 <= j < i ==> #[trigger] check_views(out@)[2 + j] == self@.target_check(
                        sep@,
                        j,
                    ),
                !stopped ==> forall|j: int|
                    0 <= j < i ==> self@.target.contains_key(#[trigger] listed[j]),
                stopped ==> i > 0 && self@.first_undeclared_target() == i - 1,
            decreases ids@.len() - i,
        {
            let id = ids[i].as_str();
            let ghost before = check_views(out@);
            assert(listed[i as int] == id@);
            let check = match self.target.get(id) {
                Some(target) => {
                    let file = vstd::string::StringExecFns::concat(
                        target.template().to_owned(),
                        FILE_EXT_TEMPLATE,
                    );
                    let head_text = vstd::string::StringExecFns::concat(
                        "Template file not found for target ".to_owned(),
                        id,
                    );
                    let message = vstd::string::StringExecFns::concat(head_text, ".");
                    CtGenCheck::Exists {
                        path: join_path(templates_dir.as_str(), sep, file.as_str()),
                        failure: CtGenError::ValidationError(message),
                    }
                },
                None => {
                    proof {
                        lemma_first_undeclared_is(listed, self@.target.dom(), i as int);
                    }
                    stopped = true;
                    let head_text = vstd::string::StringExecFns::concat(
                        "Invalid target `".to_owned(),
                        id,
                    );
                    let message = vstd::string::StringExecFns::concat(
                        head_text,
                        "`. Make sure all included targets are actually declared.",
                    );
                    CtGenCheck::Fail(CtGenError::ValidationError(message))
                },
            };
            proof {
                assert(check@ == self@.target_check(sep@, i as int));
                assert(check_views(out@.push(check)) =~= before.push(check@));
                assert(before.push(check@).subrange(0, 2) =~= before.subrange(0, 2));
            }
            out.push(check);
            i = i + 1;
        }
        proof {
            if !stopped {
                lemma_first_undeclared_is(listed, self@.target.dom(), i as int);
            }
            let made = check_views(out@);
            let wanted = self@.checks(sep@);
            assert(wanted.len() == 2 + i);
            assert forall|j: int| 0 <= j < wanted.len() implies made[j] == wanted[j] by {
                if j < 2 {
                    assert(made[j] == made.subrange(0, 2)[j]);
                } else {
                    assert(made[2 + (j - 2)] == self@.target_check(sep@, j - 2));
                }
            }
            assert(made =~= wanted);
        }
        out
    }

    /// The given name of the profile.
    pub fn name(&self) -> (r: &str)
        ensures
            r@ == self@.name,
    {
        self.name.as_str()
    }

    /// The directory that holds the profile's file.
    pub fn context_dir(&self) -> (r: &str)
        ensures
            r@ == self@.context_dir,
    {
        self.context_dir.as_str()
    }

    /// The templates directory: the profile's directory itself where the
    /// directive is empty or a dot, else the directive below it.
    pub fn templates_dir(&self) -> (r: String)
        ensures
            exists|sep: Seq<char>| sep.len() == 1 && r@ == #[trigger] self@.templates_dir(sep),
    {
        let sep = separator();
        let r = resolve_dir(self.context_dir(), sep, self.profile.templates_dir());
        assert(r@ == self@.templates_dir(sep@));
        r
    }

    /// The scripts directory: the profile's directory itself where the
    /// directive is empty or a dot, else the directive below it.
    pub fn scripts_dir(&self) -> (r: String)
        ensures
            exists|sep: Seq<char>| sep.len() == 1 && r@ == #[trigger] self@.scripts_dir(sep),
    {
        let sep = separator();
        let r = resolve_dir(self.context_dir(), sep, self.profile.scripts_dir());
        assert(r@ == self@.scripts_dir(sep@));
        r
    }

    /// The templates directory, with `sep` as the separator.
    pub fn templates_dir_with(&self, sep: &str) -> (r: String)
        ensures
            r@ == self@.templates_dir(sep@),
    {
        resolve_dir(self.context_dir(), sep, self.profile.templates_dir())
    }

    /// The scripts directory, with `sep` as the separator.
    pub fn scripts_dir_with(&self, sep: &str) -> (r: String)
        ensures
            r@ == self@.scripts_dir(sep@),
    {
        resolve_dir(self.context_dir(), sep, self.profile.scripts_dir())
    }

    /// Index of the first listed prompt id without a definition, or the
    /// number of listed prompt ids where all have one.
    pub fn first_undeclared_prompt(&self) -> (r: usize)
        ensures
            r == self@.first_undeclared_prompt(),
            r <= self@.profile.prompts.len(),
    {
        let ids = self.profile.prompts();
        let mut i: usize = 0;
        while i < ids.len()
            invariant
                i <= ids@.len(),
                texts(ids@) == self@.profile.prompts,
                forall|j: int|
                    0 <= j < i ==> self@.prompt.contains_key(#[trigger] self@.profile.prompts[j]),
            decreases ids@.len() - i,
        {
            if !self.prompt.contains_key(ids[i].as_str()) {
                proof {
                    assert(self@.profile.prompts[i as int] == ids@[i as int]@);
                    lemma_first_undeclared_is(
                        self@.profile.prompts,
                        self@.prompt.dom(),
                        i as int,
                    );
                }
                return i;
            }
            assert(self@.profile.prompts[i as int] == ids@[i as int]@);
            i = i + 1;
        }
        proof {
            lemma_first_undeclared_is(self@.profile.prompts, self@.prompt.dom(), i as int);
        }
        i
    }

    /// Index of the first listed target id without a definition, or the
    /// number of listed target ids where all have one.
    pub fn first_undeclared_target(&self) -> (r: usize)
        ensures
            r == self@.first_undeclared_target(),
            r <= self@.profile.targets.len(),
    {
        let ids = self.profile.targets();
        let mut i: usize = 0;
        while i < ids.len()
            invariant
                i <= ids@.len(),
                texts(ids@) == self@.profile.targets,
                forall|j: int|
                    0 <= j < i ==> self@.target.contains_key(#[trigger] self@.profile.targets[j]),
            decreases ids@.len() - i,
        {
            if !self.target.contains_key(ids[i].as_str()) {
                proof {
                    assert(self@.profile.targets[i as int] == ids@[i as int]@);
                    lemma_first_undeclared_is(
                        self@.profile.targets,
                        self@.target.dom(),
                        i as int,
                    );
                }
                return i;
            }
            assert(self@.profile.targets[i as int] == ids@[i as int]@);
            i = i + 1;
        }
        proof {
            lemma_first_undeclared_is(self@.profile.targets, self@.target.dom(), i as int);
        }
        i
    }

    /// The directives.
    pub fn configuration(&self) -> (r: &CtGenProfileConfig)
        ensures
            r@ == self@.profile,
    {
        &self.profile
    }

    /// The ids of the prompts, in order.
    pub fn prompts(&self) -> (r: &Vec<String>)
        ensures
            texts(r@) == self@.profile.prompts,
    {
        self.profile.prompts()
    }

    /// The definition of the prompt `prompt`.
    pub fn prompt(&self, prompt: &str) -> (r: Option<&CtGenPrompt>)
        ensures
            r is Some <==> self@.prompt.contains_key(prompt@),
            r is Some ==> r->0@ == self@.prompt[prompt@],
    {
        self.prompt.get(prompt)
    }

    /// The ids of the targets, in order.
    pub fn targets(&self) -> (r: &Vec<String>)
        ensures
            texts(r@) == self@.profile.targets,
    {
        self.profile.targets()
    }

    /// The definitions of the prompts, by id.
    pub fn prompt_definitions(&self) -> (r: &CtGenMap<CtGenPrompt>)
        ensures
            r@.map_values(|p: CtGenPrompt| p@) == self@.prompt,
            self.wf() ==> r.wf(),
    {
        &self.prompt
    }

    /// The definitions of the targets, by id.
    pub fn target_definitions(&self) -> (r: &CtGenMap<CtGenTarget>)
        ensures
            r@.map_values(|t: CtGenTarget| t@) == self@.target,
            self.wf() ==> r.wf(),
    {
        &self.target
    }

    /// The definition of the target `target`.
    pub fn target(&self, target: &str) -> (r: Option<&CtGenTarget>)
        ensures
            r is Some <==> self@.target.contains_key(target@),
            r is Some ==> r->0@ == self@.target[target@],
    {
        self.target.get(target)
    }
}

} // verus!
