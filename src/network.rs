use vstd::prelude::*;

use vstd::string::StrSliceExecFns;

use crate::tx::text_is;

verus! {

/// A backend the wallet can talk to, and how to authenticate to it.
#[derive(Debug)]
pub struct Network {
    pub name: String,
    /// Identifier under which the registry lists this network.
    pub network: String,
    pub rpc_url: String,
    /// Explicit (username, password), preferred over the cookie file.
    pub rpc_cred: Option<(String, String)>,
    /// Path of the backend's cookie-authentication file.
    pub rpc_cookie: Option<String>,
    pub tx_explorer_url: String,
}

/// Why no credential could be resolved for a network.
#[derive(Debug, Clone, Copy, PartialEq, Eq, Structural)]
pub enum ConfigError {
    /// Neither an explicit credential nor a cookie file is configured.
    MissingCredentials,
    /// The cookie file could not be read.
    CookieUnreadable,
    /// The cookie file holds no `:` separator.
    CookieMalformed,
}

/// Splits `s` at its first `:`, or gives nothing when there is none.
fn split_first_colon(s: &str) -> (r: Option<(String, String)>)
    ensures
        r.is_none() == !s@.contains(':'),
        r matches Some(p) ==> s@ == p.0@ + seq![':'] + p.1@ && !p.0@.contains(':'),
{
    let n = s.unicode_len();
    let mut i: usize = 0;
    while i < n
        invariant
            i <= n,
            n == s@.len(),
            forall|j: int| 0 <= j < i ==> s@[j] != ':',
        decreases n - i,
    {
        if s.get_char(i) == ':' {
            let user = s.substring_char(0, i).to_owned();
            let pass = s.substring_char(i + 1, n).to_owned();
            assert(s@ =~= user@ + seq![':'] + pass@);
            assert(!user@.contains(':')) by {
                if user@.contains(':') {
                    let k = choose|k: int| 0 <= k < user@.len() && user@[k] == ':';
                    assert(s@[k] == ':');
                }
            }
            return Some((user, pass));
        }
        i = i + 1;
    }
    assert(!s@.contains(':')) by {
        if s@.contains(':') {
            let k = choose|k: int| 0 <= k < s@.len() && s@[k] == ':';
            assert(s@[k] == ':');
        }
    }
    None
}

/// `(user, pass)` is what a cookie file holding `text` yields: the text before the first
/// colon, and everything after it.
pub open spec fn cookie_parts(text: Seq<char>, user: Seq<char>, pass: Seq<char>) -> bool {
    text == user + seq![':'] + pass && !user.contains(':')
}

/// Parses the contents of a cookie file, `username:password`, split at the first colon.
pub fn parse_cookie(text: &String) -> (r: Result<(String, String), ConfigError>)
    ensures
        r.is_err() == !text@.contains(':'),
        r matches Err(e) ==> e == ConfigError::CookieMalformed,
        r matches Ok(c) ==> cookie_parts(text@, c.0@, c.1@),
{
    match split_first_colon(text.as_str()) {
        Some(c) => Ok(c),
        None => Err(ConfigError::CookieMalformed),
    }
}

impl Network {
    /// The local regression-test network, authenticated by the cookie file at `rpc_cookie`.
    pub fn regtest(rpc_url: String, rpc_cookie: String) -> (r: Network)
        ensures
            r.name@ == "Regtest"@,
            r.network@ == "regtest"@,
            r.rpc_url == rpc_url,
            r.rpc_cred.is_none(),
            r.rpc_cookie == Some(rpc_cookie),
            r.tx_explorer_url@ == "https://blockstream.info/tx/"@,
    {
        Network {
            name: "Regtest".to_owned(),
            network: "regtest".to_owned(),
            rpc_url,
            rpc_cred: None,
            rpc_cookie: Some(rpc_cookie),
            tx_explorer_url: "https://blockstream.info/tx/".to_owned(),
        }
    }

    /// The registry: every network the wallet knows, built once from the configured
    /// endpoint and cookie path.
    pub fn networks(rpc_url: String, rpc_cookie: String) -> (r: Vec<Network>)
        ensures
            r.len() == 1,
            r@[0].name@ == "Regtest"@,
            r@[0].network@ == "regtest"@,
            r@[0].tx_explorer_url@ == "https://blockstream.info/tx/"@,
            r@[0].rpc_url == rpc_url,
            r@[0].rpc_cookie == Some(rpc_cookie),
            r@[0].rpc_cred.is_none(),
    {
        let mut r: Vec<Network> = Vec::new();
        r.push(Network::regtest(rpc_url, rpc_cookie));
        r
    }

    /// The first network of `networks` listed under `id`.
    pub fn network<'a>(networks: &'a Vec<Network>, id: &String) -> (r: Option<&'a Network>)
        ensures
            r.is_none() == forall|i: int|
                0 <= i < networks.len() ==> (#[trigger] networks@[i]).network@ != id@,
            r matches Some(n) ==> exists|i: int|
                0 <= i < networks.len() && *n == #[trigger] networks@[i] && n.network@ == id@
                    && forall|j: int| 0 <= j < i ==> (#[trigger] networks@[j]).network@ != id@,
    {
        let mut i: usize = 0;
        while i < networks.len()
            invariant
                i <= networks.len(),
                forall|j: int| 0 <= j < i ==> (#[trigger] networks@[j]).network@ != id@,
            decreases networks.len() - i,
        {
            if text_is(id, networks[i].network.as_str()) {
                return Some(&networks[i]);
            }
            i = i + 1;
        }
        None
    }

    /// Resolves the (username, password) to connect with. `cookie` is the content of the
    /// cookie file, or nothing when it could not be read; it is consulted only when no
    /// explicit credential is configured.
    pub fn resolve_credential(&self, cookie: Option<String>) -> (r: Result<
        (String, String),
        ConfigError,
    >)
        ensures
            self.rpc_cred matches Some(c) ==> r == Ok::<(String, String), ConfigError>(c),
            self.rpc_cred.is_none() && self.rpc_cookie.is_none() ==> r == Err::<
                (String, String),
                ConfigError,
            >(ConfigError::MissingCredentials),
            self.rpc_cred.is_none() && self.rpc_cookie.is_some() ==> match cookie {
                None => r == Err::<(String, String), ConfigError>(ConfigError::CookieUnreadable),
                Some(text) => match r {
                    Ok(c) => cookie_parts(text@, c.0@, c.1@),
                    Err(e) => e == ConfigError::CookieMalformed && !text@.contains(':'),
                },
            },
    {
        match &self.rpc_cred {
            Some((user, pass)) => Ok((user.clone(), pass.clone())),
            None => match &self.rpc_cookie {
                None => Err(ConfigError::MissingCredentials),
                Some(_) => match cookie {
                    None => Err(ConfigError::CookieUnreadable),
                    Some(text) => parse_cookie(&text),
                },
            },
        }
    }
}

} // verus!
