//! The configuration: where it is kept, and which access secret is used.
use vstd::prelude::*;
use crate::commands::auth::validate_secret_spec;
use crate::error::{ErrorV, ZhihuError};
use crate::text::{concat2, concat3, is_blank, lemma_trim_idempotent, trim, trim_str};
use vstd::string::StrSliceExecFns;

verus! {

/// The configuration file's contents.
#[derive(Debug)]
pub struct Config {
    pub access_secret: Option<String>,
}

impl View for Config {
    type V = Option<Seq<char>>;

    open spec fn view(&self) -> Option<Seq<char>> {
        match self.access_secret {
            Some(s) => Some(s@),
            None => None,
        }
    }
}

impl Default for Config {
    fn default() -> (r: Self)
        ensures
            r.access_secret is None,
    {
        Config { access_secret: None }
    }
}

/// `name` appended to the path `base` as a new component, as `Path::join`
/// does for a relative `name`: a separator is put between them unless `base`
/// is empty or already ends with one.
pub open spec fn path_join(base: Seq<char>, name: Seq<char>) -> Seq<char> {
    if base.len() == 0 || base.last() == '/' {
        base + name
    } else {
        base + "/"@ + name
    }
}

/// `name` appended to the path `base` as a new component.
pub fn join_path(base: &str, name: &str) -> (r: String)
    ensures
        r@ == path_join(base@, name@),
{
    let n = base.unicode_len();
    if n == 0 || base.get_char(n - 1) == '/' {
        concat2(base, name)
    } else {
        concat3(base, "/", name)
    }
}

/// The secret that is used: the environment's value when it is not blank,
/// else the config file's when it is not blank, trimmed either way; a
/// missing secret otherwise.
pub open spec fn resolve_secret_spec(env: Option<Seq<char>>, config: Option<Seq<char>>) -> Result<
    Seq<char>,
    ErrorV,
> {
    if env matches Some(e) && !is_blank(e) {
        Ok(trim(env->0))
    } else if config matches Some(c) && !is_blank(c) {
        Ok(trim(config->0))
    } else {
        Err(ErrorV::MissingSecret)
    }
}

impl Config {
    /// The directory of the configuration, `.zhihu-cli` in the home
    /// directory; an error when there is no home directory.
    pub fn config_dir(home: Option<&str>) -> (r: Result<String, ZhihuError>)
        ensures
            match home {
                Some(h) => r matches Ok(d) && d@ == path_join(h@, ".zhihu-cli"@),
                None => r matches Err(e) && e@ == ErrorV::ConfigDirNotFound,
            },
    {
        match home {
            Some(h) => Ok(join_path(h, ".zhihu-cli")),
            None => Err(ZhihuError::ConfigDirNotFound),
        }
    }

    /// The path of the configuration file, `config.toml` in the configuration
    /// directory.
    pub fn config_path(home: Option<&str>) -> (r: Result<String, ZhihuError>)
        ensures
            match home {
                Some(h) => r matches Ok(p) && p@ == path_join(
                    path_join(h@, ".zhihu-cli"@),
                    "config.toml"@,
                ),
                None => r matches Err(e) && e@ == ErrorV::ConfigDirNotFound,
            },
    {
        let dir = Config::config_dir(home)?;
        Ok(join_path(dir.as_str(), "config.toml"))
    }

    /// Stores `secret` as the access secret.
    pub fn set_secret(&mut self, secret: String)
        ensures
            final(self)@ == Some(secret@),
    {
        self.access_secret = Some(secret);
    }

    /// The environment's secret, trimmed, when it is set and not blank. When
    /// it is, the config file need not be read.
    pub fn env_secret(env: Option<&str>) -> (r: Option<String>)
        ensures
            match r {
                Some(s) => env matches Some(e) && !is_blank(e@) && s@ == trim(e@),
                None => !(env matches Some(e) && !is_blank(e@)),
            },
    {
        match env {
            Some(e) => {
                let t = trim_str(e);
                if t.as_str().unicode_len() == 0 {
                    None
                } else {
                    Some(t)
                }
            },
            None => None,
        }
    }

    /// The secret that is used, given the value of `ZHIHU_ACCESS_SECRET` (if
    /// set) and this configuration.
    pub fn resolve_secret(env: Option<&str>, config: &Config) -> (r: Result<String, ZhihuError>)
        ensures
            match r {
                Ok(s) => resolve_secret_spec(
                    match env {
                        Some(e) => Some(e@),
                        None => None,
                    },
                    config@,
                ) == Ok::<Seq<char>, ErrorV>(s@),
                Err(e) => resolve_secret_spec(
                    match env {
                        Some(e) => Some(e@),
                        None => None,
                    },
                    config@,
                ) == Err::<Seq<char>, ErrorV>(e@),
            },
    {
        match Config::env_secret(env) {
            Some(s) => Ok(s),
            None => match &config.access_secret {
                Some(c) => {
                    let t = trim_str(c.as_str());
                    if t.as_str().unicode_len() == 0 {
                        Err(ZhihuError::MissingSecret)
                    } else {
                        Ok(t)
                    }
                },
                None => Err(ZhihuError::MissingSecret),
            },
        }
    }
}

/// A secret set in the environment wins over whatever the config file holds.
pub proof fn lemma_env_secret_wins(env: Seq<char>, config: Option<Seq<char>>)
    requires
        !is_blank(env),
    ensures
        resolve_secret_spec(Some(env), config) == Ok::<Seq<char>, ErrorV>(trim(env)),
{
}

/// A secret that `auth set-secret` accepted and saved is the secret used
/// afterwards when the environment sets none (or a blank one): the value
/// read back is the value written.
pub proof fn lemma_saved_secret_is_used(input: Seq<char>, env: Option<Seq<char>>)
    requires
        validate_secret_spec(input) is Ok,
        !(env matches Some(e) && !is_blank(e)),
    ensures
        resolve_secret_spec(env, Some(validate_secret_spec(input)->Ok_0)) == validate_secret_spec(
            input,
        ),
{
    lemma_trim_idempotent(input);
}


/// The configuration file is `.zhihu-cli/config.toml` inside the home
/// directory: for a home path that does not end with a slash, the two names
/// are added each after a slash.
pub proof fn lemma_config_file_in_home(home: Seq<char>)
    requires
        home.len() > 0,
        home.last() != '/',
    ensures
        path_join(path_join(home, ".zhihu-cli"@), "config.toml"@) == home + "/.zhihu-cli/config.toml"@,
{
    reveal_strlit("/");
    reveal_strlit(".zhihu-cli");
    reveal_strlit("config.toml");
    reveal_strlit("/.zhihu-cli/config.toml");
    let d = path_join(home, ".zhihu-cli"@);
    assert(d.last() == 'i');
    assert(d + "/"@ + "config.toml"@ =~= home + "/.zhihu-cli/config.toml"@);
}

} // verus!
