//! Config data management
//!
//! A [`Config`] resolves configuration items from three sources in priority
//! order: an explicit value held by the configuration itself, an environment
//! snapshot supplied by the embedding program, and a small set of hard-coded
//! defaults.  The library never reads the process environment itself; the
//! embedder hands a snapshot of it to [`Config::with_env`].

use vstd::prelude::*;

verus! {

/// Hard-coded default for the `VERSION` configuration item.
pub const VERSION_ITEM: &'static str = "grafana_lib/0.1.0";

/// Ghost model of a [`Config`]: host, optional token, and the environment
/// snapshot as a sequence of key/value pairs.
pub ghost struct ConfigV {
    /// Host text
    pub host: Seq<char>,
    /// Optional API token text
    pub token: Option<Seq<char>>,
    /// Environment snapshot, first match wins
    pub env: Seq<(Seq<char>, Seq<char>)>,
}

/// The first value paired with `key` in `env`, if any.
pub open spec fn env_lookup(env: Seq<(Seq<char>, Seq<char>)>, key: Seq<char>) -> Option<
    Seq<char>,
>
    decreases env.len(),
{
    if env.len() == 0 {
        None
    } else if env[0].0 == key {
        Some(env[0].1)
    } else {
        env_lookup(env.drop_first(), key)
    }
}

/// The hard-coded default for `item`, if one exists.
pub open spec fn spec_default(item: Seq<char>) -> Option<Seq<char>> {
    if item == "VERSION"@ {
        Some(VERSION_ITEM@)
    } else {
        None
    }
}

/// Resolution of `item` against a configuration: the explicit host and token
/// win, then the environment snapshot, then the hard-coded defaults.
pub open spec fn spec_get(c: ConfigV, item: Seq<char>) -> Option<Seq<char>> {
    if item == "GRAFANA_HOST"@ {
        Some(c.host)
    } else if item == "GRAFANA_TOKEN"@ && c.token is Some {
        c.token
    } else {
        match env_lookup(c.env, item) {
            Some(v) => Some(v),
            None => spec_default(item),
        }
    }
}

/// Resolution precedence: the explicit host and token always win, the
/// environment snapshot answers for any item without an explicit value,
/// and the hard-coded defaults answer only where the environment is
/// silent too.
pub proof fn lemma_config_precedence(c: ConfigV, item: Seq<char>)
    ensures
        spec_get(c, "GRAFANA_HOST"@) == Some(c.host),
        c.token is Some ==> spec_get(c, "GRAFANA_TOKEN"@) == c.token,
        item != "GRAFANA_HOST"@ && !(item == "GRAFANA_TOKEN"@ && c.token is Some) && env_lookup(
            c.env,
            item,
        ) is Some ==> spec_get(c, item) == env_lookup(c.env, item),
        item != "GRAFANA_HOST"@ && !(item == "GRAFANA_TOKEN"@ && c.token is Some) && env_lookup(
            c.env,
            item,
        ) is None ==> spec_get(c, item) == spec_default(item),
{
    reveal_strlit("GRAFANA_HOST");
    reveal_strlit("GRAFANA_TOKEN");
    assert("GRAFANA_HOST"@[8] == 'H' && "GRAFANA_TOKEN"@[8] == 'T');
    assert("GRAFANA_HOST"@ != "GRAFANA_TOKEN"@);
}

/// Relies on `str`'s `PartialEq`: equality of UTF-8 text, which coincides
/// with equality of the viewed character sequences.
#[verifier::external_body]
fn str_eq(a: &str, b: &str) -> (r: bool)
    ensures
        r == (a@ == b@),
{
    a == b
}

/// Handles configuration data
#[derive(Debug)]
pub struct Config {
    /// Private field
    host: String,
    token: Option<String>,
    env: Vec<(String, String)>,
}

impl View for Config {
    type V = ConfigV;

    closed spec fn view(&self) -> ConfigV {
        ConfigV { host: self.host@, token: self.token.deep_view(), env: self.env.deep_view() }
    }
}

impl Config {
    /// Create a new configuration instance
    pub fn new(host: String) -> (c: Config)
        ensures
            c@ == (ConfigV {
                host: host@,
                token: None,
                env: Seq::<(Seq<char>, Seq<char>)>::empty(),
            }),
    {
        let c = Config { host, token: None, env: Vec::new() };
        proof {
            assert(c@.env =~= Seq::<(Seq<char>, Seq<char>)>::empty());
        }
        c
    }

    /// Add token into config object
    pub fn with_token(self, token: String) -> (c: Config)
        ensures
            c@ == (ConfigV { token: Some(token@), ..self@ }),
    {
        Config { token: Some(token), ..self }
    }

    /// Supply a snapshot of the process environment, as key/value pairs.
    pub fn with_env(self, env: Vec<(String, String)>) -> (c: Config)
        ensures
            c@ == (ConfigV { env: env.deep_view(), ..self@ }),
    {
        Config { env, ..self }
    }

    /// Return URL for connecting to Grafana
    pub fn url(&self) -> (r: String)
        ensures
            r@ == "https://"@ + self@.host,
    {
        let mut r = String::from_str("https://");
        r.append(self.host.as_str());
        r
    }

    /// Get a single configuration item: explicit values first, then the
    /// environment snapshot, falling back to hard coded defaults
    pub fn get(&self, item: &str) -> (r: Option<String>)
        ensures
            r.deep_view() == spec_get(self@, item@),
    {
        if str_eq(item, "GRAFANA_HOST") {
            return Some(self.host.clone());
        }
        if str_eq(item, "GRAFANA_TOKEN") {
            match &self.token {
                Some(t) => {
                    return Some(t.clone());
                },
                None => {},
            }
        }
        match self.get_env(item) {
            Some(v) => Some(v),
            None => Self::get_default(item),
        }
    }

    /// Get a configuration item from the environment snapshot alone.
    pub fn get_env(&self, item: &str) -> (r: Option<String>)
        ensures
            r.deep_view() == env_lookup(self@.env, item@),
    {
        let ghost key = item@;
        proof {
            assert(self@.env.skip(0) =~= self@.env);
        }
        let mut i: usize = 0;
        while i < self.env.len()
            invariant
                i <= self.env@.len(),
                key == item@,
                env_lookup(self@.env, key) == env_lookup(self@.env.skip(i as int), key),
            decreases self.env@.len() - i,
        {
            proof {
                assert(self@.env.skip(i as int)[0] == self@.env[i as int]);
                assert(self@.env.skip(i as int).drop_first() =~= self@.env.skip(i as int + 1));
            }
            let pair = &self.env[i];
            if str_eq(pair.0.as_str(), item) {
                return Some(pair.1.clone());
            }
            i = i + 1;
        }
        proof {
            assert(self@.env.skip(i as int) =~= Seq::<(Seq<char>, Seq<char>)>::empty());
        }
        None
    }

    /// Return hard coded default configuration items
    fn get_default(item: &str) -> (r: Option<String>)
        ensures
            r.deep_view() == spec_default(item@),
    {
        if str_eq(item, "VERSION") {
            Some(String::from_str(VERSION_ITEM))
        } else {
            None
        }
    }
}

} // verus!
