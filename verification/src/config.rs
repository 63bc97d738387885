//! Service configuration: the optional proxy for downloads.

use vstd::prelude::*;

verus! {

/// The proxy that downloads go through, with its optional credentials.
pub struct TestProxySettings {
    pub proxy: String,
    pub login: Option<String>,
    pub password: Option<String>,
}

/// The configuration of the service.
pub struct MainConfig {
    pub proxy: Option<TestProxySettings>,
}

/// The text of an optional setting, empty when it is unset.
pub open spec fn or_empty(s: Option<String>) -> Seq<char> {
    match s {
        Some(v) => v@,
        None => Seq::empty(),
    }
}

fn clone_or_empty(s: &Option<String>) -> (res: String)
    ensures
        res@ == or_empty(*s),
{
    match s {
        Some(v) => v.clone(),
        None => String::new(),
    }
}

impl MainConfig {
    /// The configuration for the values of the `TEST_PROXY`, `TEST_LOGIN`
    /// and `TEST_PASSWORD` settings: a proxy exactly when `TEST_PROXY` is set.
    pub fn from_settings(proxy: Option<String>, login: Option<String>, password: Option<String>) -> (res: MainConfig)
        ensures
            match proxy {
                Some(p) => res.proxy == Some(TestProxySettings { proxy: p, login, password }),
                None => res.proxy is None,
            },
    {
        match proxy {
            Some(p) => MainConfig { proxy: Some(TestProxySettings { proxy: p, login, password }) },
            None => MainConfig { proxy: None },
        }
    }

    /// The proxy address with the login and password to authenticate with
    /// (empty when unset), or `None` when no proxy is configured.
    pub fn proxy_auth(&self) -> (res: Option<(String, String, String)>)
        ensures
            match self.proxy {
                Some(p) => res matches Some((a, l, w)) && a@ == p.proxy@ && l@ == or_empty(p.login)
                    && w@ == or_empty(p.password),
                None => res is None,
            },
    {
        match &self.proxy {
            Some(p) => Some((p.proxy.clone(), clone_or_empty(&p.login), clone_or_empty(&p.password))),
            None => None,
        }
    }
}

} // verus!
