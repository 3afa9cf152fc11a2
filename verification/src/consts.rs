//! Names and defaults that the generator shares with its callers.

use vstd::prelude::*;

verus! {

/// Directory, below the user's configuration directory, that holds the registry.
pub const CONFIG_DIR_NAME: &'static str = "ctgen";

/// File that maps profile names to profile files.
pub const CONFIG_FILE_NAME: &'static str = "Profiles.toml";

/// Name of the profile that is used when none is named.
pub const CONFIG_NAME_DEFAULT: &'static str = "default";

/// Pattern that a profile name has to match.
pub const CONFIG_NAME_PATTERN: &'static str = "^[a-zA-Z-_]+$";

/// File name of a profile inside its directory.
pub const PROFILE_DEFAULT_FILENAME: &'static str = "Ctgen.toml";

/// Extension of a script file that defines a template helper.
pub const FILE_EXT_RHAI: &'static str = ".rhai";

/// Extension of a template file.
pub const FILE_EXT_TEMPLATE: &'static str = ".hbs";

/// The template that a new profile starts with.
pub const DUMMY_TEMPLATE: &'static str = r#"
# Context Test

Table {{table/name}} is selected for the current run. The dummy prompt has been answered with {{#if (eq prompts/dummy "1")}}YES{{else}}NO{{/if}}.

Table primary key: {{#concat table/primary_key separator=", " render_all=true}}`{{this}}`{{/concat}}

Table columns: {{#concat table/columns separator=", " render_all=true}}`{{name}}`{{/concat}}

# Inflector Test

{{inflect table/name to_camel_case=true}}
{{inflect table/name to_pascal_case=true}}
{{inflect table/name to_snake_case=true}}
{{inflect table/name to_screaming_snake_case=true}}
{{inflect table/name to_kebab_case=true}}
{{inflect table/name to_sentence_case=true}}
{{inflect table/name to_title_case=true}}
{{inflect table/name to_foreign_key=true}}
{{inflect table/name to_class_case=true}}
{{inflect table/name to_table_case=true}}
{{inflect table/name to_plural=true}}
{{inflect table/name to_singular=true}}
{{inflect table/name to_upper_case=true}}
{{inflect table/name to_lower_case=true}}

# Concat Test

{{concat table/columns separator=", "}}

# Raw Context Dump

{{{json this}}}
"#;

/// Version tag that every rendering context carries.
pub const CTGEN_VERSION: &'static str = "0.1.0";

} // verus!
