//! Tool configuration: the repository root path, loaded from an optional
//! TOML document (the caller reads the file, if one exists, and hands its
//! text over) with a tilde-expanded default when there is none.

use vstd::prelude::*;

verus! {

/// Configuration of the build tool: where the repository root lives. The
/// application and database directories are derived from it.
#[derive(Debug, Clone)]
pub struct Config {
    /// Path to the repository root.
    pub repo_path: String,
}

/// Why loading the configuration failed: the document did not parse as
/// TOML, or it holds no string under the repository-path key.
#[derive(Debug)]
pub enum ConfigError {
    Parse,
}

/// The built-in repository root, before tilde expansion.
pub open spec fn default_repo_path() -> Seq<char> {
    "~/Projects/cwrdd"@
}

/// `path` with a leading `~/` replaced by the home directory, when one is
/// known; any other path, or a missing home directory, leaves the path
/// unchanged.
pub open spec fn tilde_expand(path: Seq<char>, home: Option<Seq<char>>) -> Seq<char> {
    if path.len() >= 2 && path[0] == '~' && path[1] == '/' && home is Some {
        home->Some_0 + path.skip(1)
    } else {
        path
    }
}

/// Expand a leading `~/` in `path` to the home directory, when one is
/// given.
pub fn expand_tilde(path: &str, home: Option<&str>) -> (r: String)
    ensures
        r@ == tilde_expand(path@, home.deep_view()),
{
    let len = path.unicode_len();
    if len >= 2 && path.get_char(0) == '~' && path.get_char(1) == '/' {
        match home {
            Some(h) => {
                let rest = path.substring_char(1, len);
                let mut out = h.to_owned();
                out.append(rest);
                proof {
                    assert(path@.subrange(1, len as int) =~= path@.skip(1));
                }
                return out;
            },
            None => {},
        }
    }
    path.to_owned()
}

/// `base` and `rel` joined with a single path separator.
pub fn join_path(base: &str, rel: &str) -> (r: String)
    ensures
        r@ == base@ + seq!['/'] + rel@,
{
    let mut out = base.to_owned();
    out.append("/");
    out.append(rel);
    proof {
        reveal_strlit("/");
        assert("/"@ =~= seq!['/']);
    }
    out
}

impl Config {
    /// Load the configuration from the text of the configuration file, or
    /// fall back to the default repository root (tilde-expanded with the
    /// given home directory) when no file was found. Fails exactly when a
    /// document was given but holds no string under `repo_path`.
    pub fn load(content: Option<&str>, home: Option<&str>) -> (r: Result<Config, ConfigError>)
        ensures
            content is None ==> (r matches Ok(c) && c.repo_path@ == tilde_expand(
                default_repo_path(),
                home.deep_view(),
            )),
            content matches Some(text) ==> ((r is Ok) <==> toml_string_at(text@, "repo_path"@)
                is Some),
            content matches Some(text) ==> (r matches Ok(c) ==> Some(c.repo_path@)
                == toml_string_at(text@, "repo_path"@)),
    {
        match content {
            None => Ok(Config { repo_path: expand_tilde("~/Projects/cwrdd", home) }),
            Some(text) => {
                let got = toml_top_level_string(text, "repo_path");
                match got {
                    Some(p) => {
                        proof {
                            assert(got.deep_view() =~= Some(p@));
                        }
                        Ok(Config { repo_path: p })
                    },
                    None => Err(ConfigError::Parse),
                }
            },
        }
    }

    /// The application directory: `app` under the repository root.
    pub fn app_path(&self) -> (r: String)
        ensures
            r@ == self.repo_path@ + seq!['/'] + "app"@,
    {
        join_path(self.repo_path.as_str(), "app")
    }

    /// The database directory: `db` under the repository root.
    pub fn db_path(&self) -> (r: String)
        ensures
            r@ == self.repo_path@ + seq!['/'] + "db"@,
    {
        join_path(self.repo_path.as_str(), "db")
    }
}

impl Default for Config {
    /// The default configuration: the built-in repository root, not yet
    /// tilde-expanded (expansion needs a home directory, which only the
    /// caller knows).
    fn default() -> (r: Config)
        ensures
            r.repo_path@ == default_repo_path(),
    {
        Config { repo_path: "~/Projects/cwrdd".to_owned() }
    }
}

/// The string value at a top-level key of a TOML document; `None` when the
/// document does not parse, or the key is missing or not a string.
pub uninterp spec fn toml_string_at(content: Seq<char>, key: Seq<char>) -> Option<Seq<char>>;

/// Relies on toml::from_str and toml::Value::{get, as_str}: reads the
/// string value at a top-level key of a TOML document, a function of the
/// document text and the key alone.
#[verifier::external_body]
fn toml_top_level_string(content: &str, key: &str) -> (r: Option<String>)
    ensures
        r.deep_view() == toml_string_at(content@, key@),
{
    let value: toml::Value = match toml::from_str(content) {
        Ok(v) => v,
        Err(_) => return None,
    };
    match value.get(key) {
        Some(v) => v.as_str().map(|s| s.to_owned()),
        None => None,
    }
}

} // verus!
