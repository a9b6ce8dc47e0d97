use vstd::prelude::*;
use crate::base::address::{clone_opt_string, ParsedUrl, UrlView};
use crate::base::path::{path_join, spec_path_join};

verus! {

/// Why the user configuration could not be read.
#[derive(Debug)]
pub enum ConfigError {
    FSError(std::io::Error),
    SerdeError(toml::de::Error),
}

#[derive(Clone, Copy, Debug, PartialEq, Eq, Structural)]
pub enum StateHostType {
    Gitlab,
}

impl Default for StateHostType {
    fn default() -> (r: Self)
        ensures
            r == StateHostType::Gitlab,
    {
        StateHostType::Gitlab
    }
}

/// A host that stores states, with the credentials used for it.
#[derive(Clone, Debug)]
pub struct StateHost {
    pub _type: StateHostType,
    pub host: String,
    pub gitlab_username: Option<String>,
    pub gitlab_access_token: Option<String>,
}

impl Default for StateHost {
    fn default() -> (r: Self)
        ensures
            r._type == StateHostType::Gitlab,
            r.host@.len() == 0,
            r.gitlab_username is None,
            r.gitlab_access_token is None,
    {
        StateHost {
            _type: StateHostType::Gitlab,
            host: String::new(),
            gitlab_username: None,
            gitlab_access_token: None,
        }
    }
}

impl StateHost {
    pub fn clone_host(&self) -> (r: StateHost)
        ensures
            r == *self,
    {
        StateHost {
            _type: self._type,
            host: self.host.clone(),
            gitlab_username: clone_opt_string(&self.gitlab_username),
            gitlab_access_token: clone_opt_string(&self.gitlab_access_token),
        }
    }
}

/// The user's configuration: the state hosts it knows.
#[derive(Clone, Debug)]
pub struct Config {
    pub hosts: Vec<StateHost>,
}

/// `host` stores the states of `url`: the URL's host is a domain name and
/// it is exactly the configured host name.
pub open spec fn host_serves(host: StateHost, url: UrlView) -> bool {
    url.domain == Some(host.host@)
}

/// `i` is the position of the first host in `hosts` that serves `url`.
pub open spec fn is_first_serving(hosts: Seq<StateHost>, url: UrlView, i: int) -> bool {
    &&& 0 <= i < hosts.len()
    &&& host_serves(hosts[i], url)
    &&& forall|j: int| 0 <= j < i ==> !host_serves(#[trigger] hosts[j], url)
}

/// The first host in `hosts` that serves `url`.
pub open spec fn first_serving(hosts: Seq<StateHost>, url: UrlView) -> Option<StateHost> {
    if exists|i: int| is_first_serving(hosts, url, i) {
        Some(hosts[choose|i: int| is_first_serving(hosts, url, i)])
    } else {
        None
    }
}

pub proof fn lemma_first_serving_unique(hosts: Seq<StateHost>, url: UrlView, i: int, k: int)
    requires
        is_first_serving(hosts, url, i),
        is_first_serving(hosts, url, k),
    ensures
        i == k,
{
    if i < k {
        assert(!host_serves(hosts[i], url));
    } else if k < i {
        assert(!host_serves(hosts[k], url));
    }
}

/// The host found for a URL is a configured host whose name is exactly the
/// URL's domain (the whole name, not a part of it), the first such in
/// order; none is found exactly when no configured name equals the domain.
pub proof fn law_first_serving_matches_the_domain(hosts: Seq<StateHost>, url: UrlView)
    ensures
        first_serving(hosts, url) matches Some(h) ==> url.domain == Some(h.host@) && exists|i: int|
            0 <= i < hosts.len() && h == #[trigger] hosts[i] && forall|j: int|
                0 <= j < i ==> url.domain != Some((#[trigger] hosts[j]).host@),
        first_serving(hosts, url) is None <==> forall|j: int|
            0 <= j < hosts.len() ==> url.domain != Some((#[trigger] hosts[j]).host@),
{
    if exists|i: int| is_first_serving(hosts, url, i) {
        let i = choose|i: int| is_first_serving(hosts, url, i);
        assert(url.domain == Some(hosts[i].host@));
    } else {
        assert forall|j: int| 0 <= j < hosts.len() implies url.domain != Some((#[trigger] hosts[j]).host@) by {
            if url.domain == Some(hosts[j].host@) {
                lemma_some_host_serves_first(hosts, url, j);
            }
        }
    }
}

/// When some host serves `url`, a first one does.
pub proof fn lemma_some_host_serves_first(hosts: Seq<StateHost>, url: UrlView, j: int)
    requires
        0 <= j < hosts.len(),
        host_serves(hosts[j], url),
    ensures
        exists|i: int| is_first_serving(hosts, url, i),
    decreases j,
{
    if exists|m: int| 0 <= m < j && host_serves(#[trigger] hosts[m], url) {
        let m = choose|m: int| 0 <= m < j && host_serves(#[trigger] hosts[m], url);
        lemma_some_host_serves_first(hosts, url, m);
    } else {
        assert(is_first_serving(hosts, url, j));
    }
}

pub open spec fn no_host_serves(hosts: Seq<StateHost>, url: UrlView) -> bool {
    forall|j: int| 0 <= j < hosts.len() ==> !host_serves(#[trigger] hosts[j], url)
}

/// The configuration file: `path` when given, otherwise
/// `<config_dir>/tofuya/config.toml`, and the empty path when neither is known.
pub open spec fn spec_config_file_path(
    config_dir: Option<Seq<char>>,
    path: Option<Seq<char>>,
) -> Seq<char> {
    match path {
        Some(p) => p,
        None => match config_dir {
            Some(d) => spec_path_join(
                spec_path_join(d, seq!['t', 'o', 'f', 'u', 'y', 'a']),
                seq!['c', 'o', 'n', 'f', 'i', 'g', '.', 't', 'o', 'm', 'l'],
            ),
            None => Seq::empty(),
        },
    }
}

pub open spec fn opt_or_empty(o: Option<Seq<char>>) -> Seq<char> {
    match o {
        Some(s) => s,
        None => Seq::empty(),
    }
}

/// An explicit configuration path is used as it is given, whatever the
/// configuration directory; without one, the file is `config.toml` in the
/// `tofuya` directory of the configuration directory (for a directory
/// `d` that is not empty and does not end in `/`, `d/tofuya/config.toml`).
pub proof fn law_config_file_path(config_dir: Option<Seq<char>>, path: Seq<char>, d: Seq<char>)
    ensures
        spec_config_file_path(config_dir, Some(path)) == path,
        d.len() > 0 && d.last() != '/' ==> spec_config_file_path(Some(d), None) == d
            + "/tofuya/config.toml"@,
        spec_config_file_path(None, None).len() == 0,
{
    reveal_strlit("/tofuya/config.toml");
    if d.len() > 0 && d.last() != '/' {
        let dir = spec_path_join(d, seq!['t', 'o', 'f', 'u', 'y', 'a']);
        assert(dir == d + seq!['/'] + seq!['t', 'o', 'f', 'u', 'y', 'a']);
        assert(dir.last() == 'a');
        assert(spec_path_join(dir, seq!['c', 'o', 'n', 'f', 'i', 'g', '.', 't', 'o', 'm', 'l'])
            =~= d + "/tofuya/config.toml"@);
    }
}

impl Default for Config {
    fn default() -> (r: Self)
        ensures
            r.hosts@.len() == 0,
    {
        Config { hosts: Vec::new() }
    }
}

impl Config {
    /// The file the configuration is read from.
    pub fn config_file_path(config_dir: Option<String>, path: Option<String>) -> (r: String)
        ensures
            r@ == spec_config_file_path(
                crate::base::address::opt_str_view(config_dir),
                crate::base::address::opt_str_view(path),
            ),
            path matches Some(p) ==> r@ == p@,
            path is None ==> match config_dir {
                Some(d) => d@.len() > 0 && d@.last() != '/' ==> r@ == d@ + "/tofuya/config.toml"@,
                None => r@.len() == 0,
            },
    {
        proof {
            law_config_file_path(
                crate::base::address::opt_str_view(config_dir),
                opt_or_empty(crate::base::address::opt_str_view(path)),
                opt_or_empty(crate::base::address::opt_str_view(config_dir)),
            );
        }
        match path {
            Some(p) => p,
            None => match config_dir {
                Some(d) => {
                    proof {
                        reveal_strlit("tofuya");
                        reveal_strlit("config.toml");
                    }
                    let dir = path_join(d.as_str(), "tofuya");
                    path_join(dir.as_str(), "config.toml")
                },
                None => String::new(),
            },
        }
    }

    /// The configured host that stores the states of `req`: the first one
    /// whose name is the domain of `req`'s host.
    pub fn get_state_host(&self, req: &ParsedUrl) -> (r: Option<StateHost>)
        ensures
            r == first_serving(self.hosts@, req@),
            r is None <==> no_host_serves(self.hosts@, req@),
            r matches Some(h) ==> exists|i: int|
                is_first_serving(self.hosts@, req@, i) && h == #[trigger] self.hosts@[i],
            r matches Some(h) ==> req@.domain == Some(h.host@) && exists|i: int|
                0 <= i < self.hosts@.len() && h == #[trigger] self.hosts@[i] && forall|j: int|
                    0 <= j < i ==> req@.domain != Some((#[trigger] self.hosts@[j]).host@),
            r is None <==> forall|j: int|
                0 <= j < self.hosts@.len() ==> req@.domain != Some((#[trigger] self.hosts@[j]).host@),
    {
        let domain = req.domain();
        let mut i: usize = 0;
        while i < self.hosts.len()
            invariant
                i <= self.hosts@.len(),
                crate::base::address::opt_str_view(domain) == req@.domain,
                forall|j: int| 0 <= j < i ==> !host_serves(#[trigger] self.hosts@[j], req@),
                forall|j: int| 0 <= j < i ==> req@.domain != Some((#[trigger] self.hosts@[j]).host@),
            decreases self.hosts@.len() - i,
        {
            let host = &self.hosts[i];
            let serves = match &domain {
                Some(d) => *d == host.host,
                None => false,
            };
            if serves {
                let r = host.clone_host();
                assert(is_first_serving(self.hosts@, req@, i as int));
                proof {
                    let k = choose|k: int| is_first_serving(self.hosts@, req@, k);
                    lemma_first_serving_unique(self.hosts@, req@, i as int, k);
                }
                return Some(r);
            }
            i += 1;
        }
        assert(!exists|k: int| is_first_serving(self.hosts@, req@, k));
        None
    }
}

} // verus!
