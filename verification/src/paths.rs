//! Paths as text: joining, the configuration directory, the home shorthand.

use vstd::prelude::*;
use crate::text::{string_of_range, to_chars};

verus! {

/// `base` extended by `part`. A part that begins with `/` stands for itself;
/// otherwise it follows the base, behind one `/` unless the base is empty or
/// ends with one already.
pub open spec fn joined(base: Seq<char>, part: Seq<char>) -> Seq<char> {
    if part.len() > 0 && part[0] == '/' {
        part
    } else if base.len() == 0 || base.last() == '/' {
        base + part
    } else {
        base + seq!['/'] + part
    }
}

/// The directory of the tool's own configuration: `.config/caddy-dev` under
/// the home directory; without a home directory, `caddy-dev` under the
/// platform's configuration directory, and where that is unknown too, under
/// `/home/.config`.
pub open spec fn config_dir_of(home: Option<Seq<char>>, platform: Option<Seq<char>>) -> Seq<
    char,
> {
    match home {
        Some(dir) => joined(joined(dir, ".config"@), "caddy-dev"@),
        None => match platform {
            Some(dir) => joined(dir, "caddy-dev"@),
            None => joined("/home/.config"@, "caddy-dev"@),
        },
    }
}

/// The file that holds the import list: `Caddyfile` in the configuration
/// directory.
pub open spec fn main_caddyfile_of(home: Option<Seq<char>>, platform: Option<Seq<char>>) -> Seq<
    char,
> {
    joined(config_dir_of(home, platform), "Caddyfile"@)
}

/// What follows the home shorthand in `entry`: the entry without its first
/// two characters, the `~` and the separator behind it.
pub open spec fn after_shorthand(entry: Seq<char>) -> Seq<char> {
    if entry.len() >= 2 {
        entry.skip(2)
    } else {
        Seq::empty()
    }
}

/// `entry` with a leading `~` expanded to the home directory. An entry that
/// does not begin with `~` stays as it is, and so does every entry where no
/// home directory is known.
pub open spec fn home_expanded(entry: Seq<char>, home: Option<Seq<char>>) -> Seq<char> {
    match home {
        Some(dir) => if entry.len() > 0 && entry[0] == '~' {
            joined(dir, after_shorthand(entry))
        } else {
            entry
        },
        None => entry,
    }
}

/// Joins `part` to `base`.
pub fn join_path(base: &str, part: &str) -> (out: String)
    ensures
        out@ == joined(base@, part@),
{
    let b = to_chars(base);
    let p = to_chars(part);
    if p.len() > 0 && p[0] == '/' {
        return String::from_str(part);
    }
    let mut out = String::from_str(base);
    if b.len() > 0 && b[b.len() - 1] != '/' {
        out.push('/');
        assert(base@.push('/') =~= base@ + seq!['/']);
    }
    out.append(part);
    out
}

/// Expands a leading `~` of `entry` to `home`.
pub fn expand_home(entry: &str, home: &Option<String>) -> (out: String)
    ensures
        out@ == home_expanded(entry@, home.deep_view()),
{
    match home {
        Some(dir) => {
            let chars = to_chars(entry);
            if chars.len() > 0 && chars[0] == '~' {
                let rest = if chars.len() >= 2 {
                    string_of_range(&chars, 2, chars.len())
                } else {
                    String::new()
                };
                join_path(dir.as_str(), rest.as_str())
            } else {
                String::from_str(entry)
            }
        },
        None => String::from_str(entry),
    }
}

/// `dirs::home_dir`: the home directory of the current user, if the system
/// names one. What comes back depends on the environment of the process, so
/// nothing is claimed of it. The path is handed on as text.
#[verifier::external_body]
fn home_dir() -> (out: Option<String>) {
    match dirs::home_dir() {
        Some(path) => Some(path.to_string_lossy().into_owned()),
        None => None,
    }
}

/// `dirs::config_dir`: the directory that the platform keeps configuration
/// in, if there is one. What comes back depends on the environment of the
/// process, so nothing is claimed of it. The path is handed on as text.
#[verifier::external_body]
fn platform_config_dir() -> (out: Option<String>) {
    match dirs::config_dir() {
        Some(path) => Some(path.to_string_lossy().into_owned()),
        None => None,
    }
}

/// The directories that the system names for the current user.
#[derive(Debug, PartialEq, Eq)]
pub struct Environment {
    /// The home directory.
    pub home: Option<String>,
    /// The platform's configuration directory. It is asked for only where
    /// there is no home directory.
    pub platform_config: Option<String>,
}

impl Environment {
    /// Asks the system for the directories.
    pub fn detect() -> (out: Environment)
        ensures
            out.home is Some ==> out.platform_config is None,
    {
        let home = home_dir();
        let platform_config = match home {
            Some(_) => None,
            None => platform_config_dir(),
        };
        Environment { home, platform_config }
    }

    /// The directory of the tool's own configuration.
    pub fn config_dir(&self) -> (out: String)
        ensures
            out@ == config_dir_of(self.home.deep_view(), self.platform_config.deep_view()),
    {
        match &self.home {
            Some(dir) => {
                let under_home = join_path(dir.as_str(), ".config");
                join_path(under_home.as_str(), "caddy-dev")
            },
            None => match &self.platform_config {
                Some(dir) => join_path(dir.as_str(), "caddy-dev"),
                None => join_path("/home/.config", "caddy-dev"),
            },
        }
    }

    /// The file that holds the import list.
    pub fn main_caddyfile_path(&self) -> (out: String)
        ensures
            out@ == main_caddyfile_of(self.home.deep_view(), self.platform_config.deep_view()),
    {
        let dir = self.config_dir();
        join_path(dir.as_str(), "Caddyfile")
    }
}

/// The directory of the tool's own configuration, for the directories that
/// the system names at the time of the call.
pub fn get_config_dir() -> (out: String)
    ensures
        exists|home: Option<Seq<char>>, platform: Option<Seq<char>>|
            out@ == config_dir_of(home, platform),
{
    let env = Environment::detect();
    env.config_dir()
}

/// The file that holds the import list, for the directories that the system
/// names at the time of the call.
pub fn get_main_caddyfile_path() -> (out: String)
    ensures
        exists|home: Option<Seq<char>>, platform: Option<Seq<char>>|
            out@ == main_caddyfile_of(home, platform),
{
    let env = Environment::detect();
    env.main_caddyfile_path()
}

} // verus!
