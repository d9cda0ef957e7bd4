//! Configuration of one installation: where the repository lives and who
//! signs the commits.

use vstd::prelude::*;
use vstd::string::*;

verus! {

/// Where the configuration is kept, before tilde expansion.
pub const CONFIG_FILE: &'static str = "~/.config/shurl_config.toml";

/// Repository path of a fresh configuration: a placeholder to be replaced.
pub const DEFAULT_REPO_PATH: &'static str = "/path_to_valid_and_empty_git_repo";

/// Committer name of a fresh configuration.
pub const DEFAULT_NAME: &'static str = "shurl";

/// Committer e-mail address of a fresh configuration.
pub const DEFAULT_EMAIL: &'static str = "example@example.com";

/// The name and e-mail address that sign a commit.
#[derive(Debug, PartialEq, Eq)]
pub struct Identity {
    pub name: String,
    pub email: String,
}

/// Mathematical view of an `Identity`.
pub struct IdentityView {
    pub name: Seq<char>,
    pub email: Seq<char>,
}

impl View for Identity {
    type V = IdentityView;

    open spec fn view(&self) -> IdentityView {
        IdentityView { name: self.name@, email: self.email@ }
    }
}

impl Identity {
    /// A copy of this identity.
    pub fn duplicate(&self) -> (copy: Identity)
        ensures
            copy@ == self@,
    {
        Identity { name: self.name.clone(), email: self.email.clone() }
    }
}

/// The settings of one installation.
#[derive(Debug, PartialEq, Eq)]
pub struct ShurlConfig {
    /// Path of the repository; a leading `~` stands for the home directory.
    pub repo_path: String,
    /// Name that signs the commits.
    pub name: String,
    /// E-mail address that signs the commits.
    pub email: String,
}

/// Mathematical view of a `ShurlConfig`.
pub struct ShurlConfigView {
    pub repo_path: Seq<char>,
    pub name: Seq<char>,
    pub email: Seq<char>,
}

impl View for ShurlConfig {
    type V = ShurlConfigView;

    open spec fn view(&self) -> ShurlConfigView {
        ShurlConfigView { repo_path: self.repo_path@, name: self.name@, email: self.email@ }
    }
}

impl ShurlConfigView {
    /// The identity that these settings name.
    pub open spec fn identity(self) -> IdentityView {
        IdentityView { name: self.name, email: self.email }
    }
}

/// The settings written on first use.
pub open spec fn default_config() -> ShurlConfigView {
    ShurlConfigView {
        repo_path: DEFAULT_REPO_PATH@,
        name: DEFAULT_NAME@,
        email: DEFAULT_EMAIL@,
    }
}

impl Default for ShurlConfig {
    fn default() -> (cfg: Self)
        ensures
            cfg@ == default_config(),
    {
        Self {
            repo_path: String::from_str(DEFAULT_REPO_PATH),
            name: String::from_str(DEFAULT_NAME),
            email: String::from_str(DEFAULT_EMAIL),
        }
    }
}

/// A path that tilde expansion may rewrite: `~` alone, or `~` followed by a
/// separator.
pub open spec fn is_home_relative(path: Seq<char>) -> bool {
    &&& path.len() >= 1
    &&& path[0] == '~'
    &&& (path.len() == 1 || path[1] == '/' || path[1] == '\\')
}

/// `expanded` is a possible tilde expansion of `path`: the path itself, or,
/// for a home-relative path, some home directory followed by what stands
/// after the tilde.
pub open spec fn is_tilde_expansion(path: Seq<char>, expanded: Seq<char>) -> bool {
    ||| expanded == path
    ||| {
        &&& is_home_relative(path)
        &&& expanded.len() >= path.len() - 1
        &&& expanded.subrange(expanded.len() - (path.len() - 1), expanded.len() as int)
            == path.skip(1)
    }
}

/// `shellexpand::tilde`: a path that is not home-relative comes back as it
/// is; a home-relative one comes back with the tilde replaced by the home
/// directory, or unchanged where no home directory is known. Which home
/// directory that is depends on the environment, so it is left open.
#[verifier::external_body]
fn expand_tilde(path: &str) -> (expanded: String)
    ensures
        is_tilde_expansion(path@, expanded@),
{
    shellexpand::tilde(path).into_owned()
}

/// Path of the configuration file on this machine.
pub fn config_file() -> (path: String)
    ensures
        is_tilde_expansion(CONFIG_FILE@, path@),
{
    expand_tilde(CONFIG_FILE)
}

/// Whether stored configuration text is still unset, so that the defaults
/// have to be written: exactly when the text is empty.
pub fn is_unset(content: &str) -> (unset: bool)
    ensures
        unset == (content@.len() == 0),
{
    content.is_empty()
}

impl ShurlConfig {
    /// The identity that signs commits made under these settings.
    pub fn identity(&self) -> (id: Identity)
        ensures
            id@ == self@.identity(),
    {
        Identity { name: self.name.clone(), email: self.email.clone() }
    }

    /// Path of the repository on this machine: the configured path after
    /// tilde expansion.
    pub fn repository_root(&self) -> (root: String)
        ensures
            is_tilde_expansion(self@.repo_path, root@),
    {
        expand_tilde(self.repo_path.as_str())
    }
}

} // verus!
