//! The registry: which profile file each profile name stands for, and
//! which profile is loaded.

use vstd::prelude::*;
use vstd::string::StringExecFns;
use vstd::string::StrSliceExecFns;
use crate::consts::CONFIG_FILE_NAME;
use crate::consts::CONFIG_NAME_PATTERN;
use crate::dict::position;
use crate::dict::upsert;
use crate::error::CtGenError;
use crate::error::CtGenErrorView;
use crate::paths::join;
use crate::paths::joined;
use crate::profile::CtGenProfile;
use crate::profile::CtGenProfileView;
use crate::text::chars_of;
use crate::text::same_text;

verus! {

/// `indexmap::IndexMap`: a map that keeps its entries in order. What a map
/// of profiles holds is named by `registered`.
#[verifier::external_type_specification]
#[verifier::external_body]
#[verifier::reject_recursive_types(K)]
#[verifier::reject_recursive_types(V)]
#[verifier::reject_recursive_types(S)]
pub struct ExIndexMap<K, V, S>(indexmap::IndexMap<K, V, S>);

/// The names and files that a map of profiles holds, in its order.
pub uninterp spec fn registered(profiles: indexmap::IndexMap<String, String>) -> Seq<
    (Seq<char>, Seq<char>),
>;

/// Whether the regular expression `pattern` matches somewhere in `text`;
/// nothing where `pattern` is no regular expression.
pub uninterp spec fn regex_match(pattern: Seq<char>, text: Seq<char>) -> Option<bool>;

/// `entries` without the entry of `key`, the last entry having taken its place.
pub open spec fn swap_removed(entries: Seq<(Seq<char>, Seq<char>)>, key: Seq<char>) -> Seq<
    (Seq<char>, Seq<char>),
> {
    let p = position(entries, key);
    if p < entries.len() {
        entries.update(p, entries.last()).drop_last()
    } else {
        entries
    }
}

/// Whether `name` is one of the keys of `entries`.
pub open spec fn has_name(entries: Seq<(Seq<char>, Seq<char>)>, name: Seq<char>) -> bool {
    position(entries, name) < entries.len()
}

/// `IndexMap::new`: a map that holds nothing.
#[verifier::external_body]
pub(crate) fn profiles_new() -> (r: indexmap::IndexMap<String, String>)
    ensures
        registered(r).len() == 0,
{
    indexmap::IndexMap::new()
}

/// `IndexMap::len`: the number of entries.
#[verifier::external_body]
pub(crate) fn profiles_len(profiles: &indexmap::IndexMap<String, String>) -> (r: usize)
    ensures
        r == registered(*profiles).len(),
{
    profiles.len()
}

/// `IndexMap::contains_key`: whether the map has an entry for `name`.
#[verifier::external_body]
pub(crate) fn profiles_contains(profiles: &indexmap::IndexMap<String, String>, name: &str) -> (r:
    bool)
    ensures
        r == has_name(registered(*profiles), name@),
{
    profiles.contains_key(name)
}

/// `IndexMap::get`: the file of the entry for `name`, if there is one.
#[verifier::external_body]
pub(crate) fn profiles_get<'a>(profiles: &'a indexmap::IndexMap<String, String>, name: &str) -> (r:
    Option<&'a String>)
    ensures
        r is Some <==> has_name(registered(*profiles), name@),
        r is Some ==> r->0@ == registered(*profiles)[position(registered(*profiles), name@)].1,
{
    profiles.get(name)
}

/// `IndexMap::insert`: an entry for a name that the map has keeps its
/// place and gets the new file; an entry for a new name becomes the last.
#[verifier::external_body]
pub(crate) fn profiles_insert(
    profiles: &mut indexmap::IndexMap<String, String>,
    name: String,
    file: String,
)
    ensures
        registered(*final(profiles)) == upsert(registered(*old(profiles)), name@, file@),
{
    profiles.insert(name, file);
}

/// `IndexMap::swap_remove`: the entry for `name` leaves, and the last
/// entry takes its place; a map without such an entry stays as it is.
#[verifier::external_body]
pub(crate) fn profiles_swap_remove(profiles: &mut indexmap::IndexMap<String, String>, name: &str)
    ensures
        registered(*final(profiles)) == swap_removed(registered(*old(profiles)), name@),
{
    profiles.swap_remove(name);
}

/// `Regex::new` and `Regex::is_match`: whether `pattern` matches somewhere
/// in `text`; nothing where `pattern` does not compile.
#[verifier::external_body]
pub(crate) fn regex_matches(pattern: &str, text: &str) -> (r: Option<bool>)
    ensures
        r == regex_match(pattern@, text@),
{
    match regex::Regex::new(pattern) {
        Ok(re) => Some(re.is_match(text)),
        Err(_) => None,
    }
}

/// Whether `name` can name a profile: it matches the name pattern.
pub open spec fn valid_name(name: Seq<char>) -> bool {
    regex_match(CONFIG_NAME_PATTERN@, name) == Some(true)
}

/// What a name that cannot name a profile is refused with.
pub open spec fn invalid_name(name: Seq<char>) -> Seq<char> {
    "Invalid profile name: "@ + name + ". Make sure it matches "@ + CONFIG_NAME_PATTERN@
}

/// Where the file of a profile is to be looked for.
#[derive(Debug)]
pub enum CtGenProfileSource {
    /// Under the default file name in the working directory.
    WorkingDir,
    /// Under the default file name in this directory.
    Directory(String),
    /// In this file.
    File(String),
}

/// The model of a [`CtGenProfileSource`] in contracts.
pub enum CtGenProfileSourceView {
    WorkingDir,
    Directory(Seq<char>),
    File(Seq<char>),
}

impl View for CtGenProfileSource {
    type V = CtGenProfileSourceView;

    open spec fn view(&self) -> CtGenProfileSourceView {
        match self {
            CtGenProfileSource::WorkingDir => CtGenProfileSourceView::WorkingDir,
            CtGenProfileSource::Directory(d) => CtGenProfileSourceView::Directory(d@),
            CtGenProfileSource::File(f) => CtGenProfileSourceView::File(f@),
        }
    }
}

/// Whether `text` ends with `tail`.
pub open spec fn ends_with(text: Seq<char>, tail: Seq<char>) -> bool {
    tail.len() <= text.len() && text.subrange(text.len() - tail.len(), text.len() as int) == tail
}

/// Whether `path` stands for the working directory: a dot, or a dot and a slash.
pub open spec fn is_working_dir(path: Seq<char>) -> bool {
    path == seq!['.'] || path == seq!['.', '/']
}

/// Where the file of the profile at `path` is to be looked for.
pub open spec fn source_of(path: Seq<char>) -> CtGenProfileSourceView {
    if is_working_dir(path) {
        CtGenProfileSourceView::WorkingDir
    } else if !ends_with(path, ".toml"@) {
        CtGenProfileSourceView::Directory(path)
    } else {
        CtGenProfileSourceView::File(path)
    }
}

/// Where a new profile is to be created.
#[derive(Debug)]
pub enum CtGenProfileSite {
    /// In the working directory.
    WorkingDir,
    /// In the directory of this name below the working directory.
    Below(String),
    /// At this path, once it is resolved.
    Path(String),
}

/// The model of a [`CtGenProfileSite`] in contracts.
pub enum CtGenProfileSiteView {
    WorkingDir,
    Below(Seq<char>),
    Path(Seq<char>),
}

impl View for CtGenProfileSite {
    type V = CtGenProfileSiteView;

    open spec fn view(&self) -> CtGenProfileSiteView {
        match self {
            CtGenProfileSite::WorkingDir => CtGenProfileSiteView::WorkingDir,
            CtGenProfileSite::Below(d) => CtGenProfileSiteView::Below(d@),
            CtGenProfileSite::Path(p) => CtGenProfileSiteView::Path(p@),
        }
    }
}

/// Where a new profile is to be created for `path`.
pub open spec fn site_of(path: Seq<char>) -> CtGenProfileSiteView {
    if is_working_dir(path) {
        CtGenProfileSiteView::WorkingDir
    } else if valid_name(path) {
        CtGenProfileSiteView::Below(path)
    } else {
        CtGenProfileSiteView::Path(path)
    }
}

/// `path` with a tilde at its front replaced by `home` and a separator.
pub open spec fn home_expanded(path: Seq<char>, home: Option<Seq<char>>, sep: Seq<char>) -> Seq<
    char,
> {
    if path.len() > 0 && path[0] == '~' && home is Some {
        home->0 + sep + path.subrange(1, path.len() as int)
    } else {
        path
    }
}

/// Whether `text` ends with `tail`.
pub fn text_ends_with(text: &str, tail: &str) -> (r: bool)
    ensures
        r == ends_with(text@, tail@),
{
    let t = chars_of(text);
    let e = chars_of(tail);
    if e.len() > t.len() {
        return false;
    }
    let offset = t.len() - e.len();
    let mut i: usize = 0;
    while i < e.len()
        invariant
            i <= e@.len(),
            e@.len() <= t@.len(),
            t@.len() <= usize::MAX,
            offset == t@.len() - e@.len(),
            t@ == text@,
            e@ == tail@,
            forall|j: int| 0 <= j < i ==> t@[offset + j] == e@[j],
        decreases e@.len() - i,
    {
        if t[offset + i] != e[i] {
            assert(text@.subrange(text@.len() - tail@.len(), text@.len() as int)[i as int]
                != tail@[i as int]);
            return false;
        }
        i = i + 1;
    }
    assert(text@.subrange(text@.len() - tail@.len(), text@.len() as int) =~= tail@);
    true
}

/// The registry of profiles.
#[derive(Debug)]
pub struct CtGen {
    config_file: String,
    profiles: indexmap::IndexMap<String, String>,
    current_profile: Option<CtGenProfile>,
}

/// The model of a [`CtGen`] in contracts.
pub struct CtGenView {
    /// The file that the registry is kept in.
    pub config_file: Seq<char>,
    /// The registered names, each with the file of its profile, in order.
    pub profiles: Seq<(Seq<char>, Seq<char>)>,
    /// The profile that is loaded.
    pub current_profile: Option<CtGenProfileView>,
}

/// The view of an optional profile.
pub open spec fn opt_profile(o: Option<CtGenProfile>) -> Option<CtGenProfileView> {
    match o {
        Some(p) => Some(p@),
        None => None,
    }
}

impl View for CtGen {
    type V = CtGenView;

    closed spec fn view(&self) -> CtGenView {
        CtGenView {
            config_file: self.config_file@,
            profiles: registered(self.profiles),
            current_profile: opt_profile(self.current_profile),
        }
    }
}

impl CtGen {
    /// The loaded profile, where there is one, defines no id twice.
    pub closed spec fn wf(&self) -> bool {
        match self.current_profile {
            Some(p) => p.wf(),
            None => true,
        }
    }

    /// A registry kept in `config_file`, without profiles.
    pub fn new(config_file: &str) -> (r: CtGen)
        ensures
            r.wf(),
            r@.config_file == config_file@,
            r@.profiles.len() == 0,
            r@.current_profile is None,
    {
        CtGen { config_file: config_file.to_owned(), profiles: profiles_new(), current_profile: None }
    }

    /// `path` and `file`, joined by the platform's separator.
    pub fn get_filepath(path: &str, file: &str) -> (r: String)
        ensures
            joined(r@, path@, file@),
    {
        join(path, file)
    }

    /// The file that the registry is kept in, below the directory `path`.
    pub fn get_config_file(path: &str) -> (r: String)
        ensures
            joined(r@, path@, CONFIG_FILE_NAME@),
    {
        join(path, CONFIG_FILE_NAME)
    }

    /// The file that the registry is kept in.
    pub fn config_file(&self) -> (r: &str)
        ensures
            r@ == self@.config_file,
    {
        self.config_file.as_str()
    }

    /// `path` with a tilde at its front replaced by the home directory
    /// `home`, where one is known, and the separator `sep`.
    pub fn expand_home(path: &str, home: Option<&str>, sep: &str) -> (r: String)
        ensures
            r@ == home_expanded(path@, crate::text::opt_str(home), sep@),
    {
        let n = path.unicode_len();
        match home {
            Some(h) => {
                if n > 0 && path.get_char(0) == '~' {
                    let rest = path.substring_char(1, n);
                    h.to_owned().concat(sep).concat(rest)
                } else {
                    path.to_owned()
                }
            },
            None => path.to_owned(),
        }
    }

    /// Whether `name` can name a profile.
    pub fn is_valid_name(name: &str) -> (r: bool)
        ensures
            r == valid_name(name@),
    {
        match regex_matches(CONFIG_NAME_PATTERN, name) {
            Some(true) => true,
            _ => false,
        }
    }

    /// Accepts `name` as the name to register a profile under: the empty
    /// name, which leaves the choice to the profile, or a valid name.
    pub fn check_name(name: &str) -> (r: Result<(), CtGenError>)
        ensures
            r is Ok <==> name@.len() == 0 || valid_name(name@),
            r is Err ==> r->Err_0@ == CtGenErrorView::validation(invalid_name(name@)),
    {
        if !name.is_empty() && !Self::is_valid_name(name) {
            Err(
                CtGenError::ValidationError(
                    "Invalid profile name: ".to_owned().concat(name).concat(
                        ". Make sure it matches ",
                    ).concat(CONFIG_NAME_PATTERN),
                ),
            )
        } else {
            Ok(())
        }
    }

    /// Where the file of the profile at `path` is to be looked for: in the
    /// working directory for a dot; in `path` itself where it names a
    /// `.toml` file; else under the default file name in `path`.
    pub fn profile_source(path: &str) -> (r: CtGenProfileSource)
        ensures
            r@ == source_of(path@),
    {
        proof {
            reveal_strlit(".");
            reveal_strlit("./");
            assert("."@ =~= seq!['.']);
            assert("./"@ =~= seq!['.', '/']);
        }
        if same_text(path, ".") || same_text(path, "./") {
            CtGenProfileSource::WorkingDir
        } else if !text_ends_with(path, ".toml") {
            CtGenProfileSource::Directory(path.to_owned())
        } else {
            CtGenProfileSource::File(path.to_owned())
        }
    }

    /// Where a new profile is to be created for `path`: in the working
    /// directory for a dot; below it where `path` is a valid name; else at
    /// `path`.
    pub fn profile_site(path: &str) -> (r: CtGenProfileSite)
        ensures
            r@ == site_of(path@),
    {
        proof {
            reveal_strlit(".");
            reveal_strlit("./");
            assert("."@ =~= seq!['.']);
            assert("./"@ =~= seq!['.', '/']);
        }
        if same_text(path, ".") || same_text(path, "./") {
            CtGenProfileSite::WorkingDir
        } else if Self::is_valid_name(path) {
            CtGenProfileSite::Below(path.to_owned())
        } else {
            CtGenProfileSite::Path(path.to_owned())
        }
    }

    /// The registered profiles.
    pub fn get_profiles(&self) -> (r: &indexmap::IndexMap<String, String>)
        ensures
            registered(*r) == self@.profiles,
    {
        &self.profiles
    }

    /// The file of the profile that is registered under `name`.
    pub fn profile_file(&self, name: &str) -> (r: Result<String, CtGenError>)
        ensures
            r is Ok <==> has_name(self@.profiles, name@),
            r is Ok ==> r->Ok_0@ == self@.profiles[position(self@.profiles, name@)].1,
            r is Err ==> r->Err_0@ == CtGenErrorView::validation(
                "Invalid profile name. No such profile found"@,
            ),
    {
        match profiles_get(&self.profiles, name) {
            Some(file) => Ok(file.clone()),
            None => Err(
                CtGenError::ValidationError("Invalid profile name. No such profile found".to_owned()),
            ),
        }
    }

    /// Registers the file `file` under `name`. A name that is registered
    /// already keeps its place and gets the new file.
    pub fn register(&mut self, name: &str, file: &str)
        ensures
            final(self).wf() == old(self).wf(),
            final(self)@ == (CtGenView {
                profiles: upsert(old(self)@.profiles, name@, file@),
                ..old(self)@
            }),
    {
        profiles_insert(&mut self.profiles, name.to_owned(), file.to_owned());
    }

    /// Registers an entry of the persisted registry: the file `file` under
    /// `name`. Fails where the entry holds no text for the file.
    pub fn register_entry(&mut self, name: &str, file: Option<&str>) -> (r: Result<(), CtGenError>)
        ensures
            final(self).wf() == old(self).wf(),
            r is Ok <==> file is Some,
            r is Ok ==> final(self)@ == (CtGenView {
                profiles: upsert(old(self)@.profiles, name@, file->0@),
                ..old(self)@
            }),
            r is Err ==> final(self)@ == old(self)@ && r->Err_0@ == CtGenErrorView::validation(
                "Invalid profile file for profile `"@ + name@ + "`."@,
            ),
    {
        match file {
            Some(f) => {
                self.register(name, f);
                Ok(())
            },
            None => Err(
                CtGenError::ValidationError(
                    "Invalid profile file for profile `".to_owned().concat(name).concat("`."),
                ),
            ),
        }
    }

    /// Registers the file `file` under `name`, or, where `name` is empty,
    /// under the name that `profile` gives itself. A name that is
    /// registered already keeps its place and gets the new file. A name
    /// that is neither empty nor valid is refused, and the registry stays
    /// as it is.
    pub fn add_profile(&mut self, name: &str, profile: &CtGenProfile, file: &str) -> (r: Result<
        (),
        CtGenError,
    >)
        ensures
            final(self).wf() == old(self).wf(),
            r is Ok <==> name@.len() == 0 || valid_name(name@),
            r is Ok ==> final(self)@ == (CtGenView {
                profiles: upsert(
                    old(self)@.profiles,
                    if name@.len() > 0 {
                        name@
                    } else {
                        profile@.profile.name
                    },
                    file@,
                ),
                ..old(self)@
            }),
            r is Err ==> final(self)@ == old(self)@ && r->Err_0@ == CtGenErrorView::validation(
                invalid_name(name@),
            ),
    {
        match Self::check_name(name) {
            Ok(()) => {},
            Err(e) => {
                return Err(e);
            },
        }
        if name.is_empty() {
            self.register(profile.configuration().name(), file);
        } else {
            self.register(name, file);
        }
        Ok(())
    }

    /// Forgets the profile that is registered under `name`; the last
    /// registered profile takes its place. Where the loaded profile has
    /// that name, no profile is loaded afterwards.
    pub fn remove_profile(&mut self, name: &str)
        ensures
            old(self).wf() ==> final(self).wf(),
            final(self)@ == (CtGenView {
                profiles: swap_removed(old(self)@.profiles, name@),
                current_profile: match old(self)@.current_profile {
                    Some(p) => if p.name == name@ {
                        None
                    } else {
                        Some(p)
                    },
                    None => None,
                },
                ..old(self)@
            }),
    {
        if profiles_contains(&self.profiles, name) {
            profiles_swap_remove(&mut self.profiles, name);
        }
        let drop = match &self.current_profile {
            Some(p) => same_text(p.name(), name),
            None => false,
        };
        if drop {
            self.current_profile = None;
        }
    }

    /// Takes `profile` as the loaded profile.
    pub fn set_current_profile(&mut self, profile: CtGenProfile)
        requires
            profile.wf(),
        ensures
            final(self).wf(),
            final(self)@ == (CtGenView { current_profile: Some(profile@), ..old(self)@ }),
    {
        self.current_profile = Some(profile);
    }

    /// The loaded profile.
    pub fn get_current_profile(&self) -> (r: Option<&CtGenProfile>)
        ensures
            r is Some <==> self@.current_profile is Some,
            r is Some ==> r->0@ == self@.current_profile->0 && (self.wf() ==> r->0.wf()),
    {
        self.current_profile.as_ref()
    }
}

} // verus!
