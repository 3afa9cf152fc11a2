//! The command line as data, and the small decisions that are taken on it.

use vstd::prelude::*;
use vstd::string::StringExecFns;
use vstd::string::StrSliceExecFns;
use crate::consts::CONFIG_NAME_DEFAULT;
use crate::profile::CtGenProfileConfigOverrides;
use crate::profile::CtGenProfileConfigOverridesView;
use crate::text::find_char;
use crate::text::first_index;
use crate::text::opt_str;
use crate::text::opt_text;

verus! {

/// The arguments of one invocation.
#[derive(Debug)]
pub struct Args {
    pub command: Commands,
}

/// What an invocation asks for.
#[derive(Debug)]
pub enum Commands {
    /// Manage the registered profiles.
    Config { op: CommandConfig },
    /// Run the generator.
    Run {
        /// The profile to run.
        profile: Option<String>,
        /// Override of the environment file.
        env_file: Option<String>,
        /// Override of the environment variable.
        env_var: Option<String>,
        /// Override of the connection string.
        dsn: Option<String>,
        /// Override of the output directory.
        target_dir: Option<String>,
        /// Answers given in advance, by prompt id.
        prompt: Option<Vec<(String, String)>>,
        /// The subject table.
        table: Option<String>,
    },
    /// Create a new profile.
    Init {
        /// The name to register the profile under.
        name: Option<String>,
        /// Where to create it.
        path: String,
    },
}

/// What to do with the registered profiles.
#[derive(Debug)]
#[allow(inconsistent_fields)]
pub enum CommandConfig {
    /// Register a profile; without a name, under the name that the profile
    /// gives itself.
    Add { default: bool, name: Option<String>, path: String },
    /// List the registered profiles.
    List,
    /// Remove a registered profile.
    Rm { name: String },
}

/// What an argument without an equals sign is refused with.
pub open spec fn no_equals_sign(s: Seq<char>) -> Seq<char> {
    "invalid KEY=value: no `=` found in `"@ + s + "`"@
}

/// Splits `KEY=value` at its first equals sign into the key and the value.
pub fn parse_prompt_key_val(s: &str) -> (r: Result<(String, String), String>)
    ensures
        r is Ok <==> s@.contains('='),
        r is Ok ==> r->Ok_0.0@ == s@.subrange(0, first_index(s@, '=') as int) && r->Ok_0.1@
            == s@.subrange(first_index(s@, '=') as int + 1, s@.len() as int),
        r is Err ==> r->Err_0@ == no_equals_sign(s@),
{
    match find_char(s, '=') {
        Some(pos) => {
            let n = s.unicode_len();
            let key = s.substring_char(0, pos).to_owned();
            let value = s.substring_char(pos + 1, n).to_owned();
            Ok((key, value))
        },
        None => Err("invalid KEY=value: no `=` found in `".to_owned().concat(s).concat("`")),
    }
}

/// The name under which `config add` registers a profile: the given name,
/// else the default name where the default was asked for, else none, which
/// leaves the choice to the profile.
pub open spec fn added_name(name: Option<Seq<char>>, default: bool) -> Seq<char> {
    match name {
        Some(n) => n,
        None => if default {
            CONFIG_NAME_DEFAULT@
        } else {
            Seq::empty()
        },
    }
}

/// The name under which `config add` registers a profile.
pub fn profile_name_to_add(name: Option<&str>, default: bool) -> (r: String)
    ensures
        r@ == added_name(opt_str(name), default),
{
    match name {
        Some(n) => n.to_owned(),
        None => if default {
            CONFIG_NAME_DEFAULT.to_owned()
        } else {
            String::new()
        },
    }
}

/// The profile that `run` uses: the named one, else the default one.
pub fn profile_name_to_run(profile: Option<&str>) -> (r: String)
    ensures
        r@ == (match opt_str(profile) {
            Some(name) => name,
            None => CONFIG_NAME_DEFAULT@,
        }),
{
    match profile {
        Some(p) => p.to_owned(),
        None => CONFIG_NAME_DEFAULT.to_owned(),
    }
}

/// The overrides of a run: none where no directive is overridden.
pub fn run_overrides(
    env_file: Option<String>,
    env_var: Option<String>,
    dsn: Option<String>,
    target_dir: Option<String>,
) -> (r: Option<CtGenProfileConfigOverrides>)
    ensures
        r is None <==> env_file is None && env_var is None && dsn is None && target_dir is None,
        r is Some ==> r->0@ == (CtGenProfileConfigOverridesView {
            env_file: opt_text(env_file),
            env_var: opt_text(env_var),
            dsn: opt_text(dsn),
            target_dir: opt_text(target_dir),
        }),
{
    if env_file.is_some() || env_var.is_some() || dsn.is_some() || target_dir.is_some() {
        Some(CtGenProfileConfigOverrides::new(env_file, env_var, dsn, target_dir))
    } else {
        None
    }
}

/// The name that `init` suggests for a new profile: the default name while
/// no profile is registered under it; else the path where that is a valid
/// name, else the name of the working directory.
pub fn suggested_profile_name(
    default_taken: bool,
    path: &str,
    path_is_name: bool,
    working_dir_name: &str,
) -> (r: String)
    ensures
        r@ == (if !default_taken {
            CONFIG_NAME_DEFAULT@
        } else if path_is_name {
            path@
        } else {
            working_dir_name@
        }),
{
    if !default_taken {
        CONFIG_NAME_DEFAULT.to_owned()
    } else if path_is_name {
        path.to_owned()
    } else {
        working_dir_name.to_owned()
    }
}

} // verus!
