//! The server's immutable registry: a name-to-path mapping built once from
//! configuration, looked up by every invocation, and listed by the help
//! page.

use vstd::prelude::*;
use vstd::string::StringExecFns;

use crate::config::{
    extract_config, extract_config_spec, pairs_view, ConfigError, ConfigValue,
};

verus! {

/// The immutable registry and the listening port, built once at startup
/// and read concurrently by every invocation afterwards.
pub struct Server {
    port: u16,
    config: Vec<(String, String)>,
}

/// The first entry at or after position `i` whose name matches, if any:
/// its executable path.
pub open spec fn resolve_from(
    cfg: Seq<(String, String)>,
    name: Seq<char>,
    i: int,
) -> Option<Seq<char>>
    decreases cfg.len() - i,
{
    if i < 0 || i >= cfg.len() {
        None
    } else if cfg[i].0@ == name {
        Some(cfg[i].1@)
    } else {
        resolve_from(cfg, name, i + 1)
    }
}

/// The executable path registered under a name; the first entry wins where
/// two entries share a name.
pub open spec fn resolve_in(cfg: Seq<(String, String)>, name: Seq<char>) -> Option<Seq<char>> {
    resolve_from(cfg, name, 0)
}

proof fn lemma_resolve_from_none(cfg: Seq<(String, String)>, name: Seq<char>, i: int)
    requires
        0 <= i <= cfg.len(),
    ensures
        resolve_from(cfg, name, i) is None <==> (forall|k: int|
            i <= k < cfg.len() ==> (#[trigger] cfg[k]).0@ != name),
    decreases cfg.len() - i,
{
    if i < cfg.len() {
        lemma_resolve_from_none(cfg, name, i + 1);
    }
}

proof fn lemma_resolve_from_first(cfg: Seq<(String, String)>, name: Seq<char>, i: int, j: int)
    requires
        0 <= i <= j < cfg.len(),
        cfg[j].0@ == name,
        forall|k: int| i <= k < j ==> (#[trigger] cfg[k]).0@ != name,
    ensures
        resolve_from(cfg, name, i) == Some(cfg[j].1@),
    decreases j - i,
{
    if i < j {
        lemma_resolve_from_first(cfg, name, i + 1, j);
    }
}

/// Resolution misses exactly when no entry of the registry bears the name.
pub proof fn lemma_resolve_none_iff_absent(cfg: Seq<(String, String)>, name: Seq<char>)
    ensures
        resolve_in(cfg, name) is None <==> (forall|k: int|
            0 <= k < cfg.len() ==> (#[trigger] cfg[k]).0@ != name),
{
    lemma_resolve_from_none(cfg, name, 0);
}

/// Where several entries share a name, resolution returns the path of the
/// first registered one.
pub proof fn lemma_resolve_first_registered_wins(
    cfg: Seq<(String, String)>,
    name: Seq<char>,
    j: int,
)
    requires
        0 <= j < cfg.len(),
        cfg[j].0@ == name,
        forall|k: int| 0 <= k < j ==> (#[trigger] cfg[k]).0@ != name,
    ensures
        resolve_in(cfg, name) == Some(cfg[j].1@),
{
    lemma_resolve_from_first(cfg, name, 0, j);
}

/// The names the registry holds, one per line, from position `i` on.
pub open spec fn help_lines_from(cfg: Seq<(String, String)>, i: int) -> Seq<char>
    decreases cfg.len() - i,
{
    if i < 0 || i >= cfg.len() {
        Seq::empty()
    } else {
        cfg[i].0@ + "\n"@ + help_lines_from(cfg, i + 1)
    }
}

/// The help page: a fixed banner, then every registered name on a line of
/// its own.
pub open spec fn help_body_spec(cfg: Seq<(String, String)>) -> Seq<char> {
    "CDS Lab server\nThis server forwards request to native applications\nThe following programs are known by this server:\n"@
        + help_lines_from(cfg, 0)
}

impl Server {
    /// The registry's entries, in registration order.
    pub closed spec fn registry(&self) -> Seq<(String, String)> {
        self.config@
    }

    /// The port the server was configured to listen on.
    pub closed spec fn spec_port(&self) -> u16 {
        self.port
    }

    /// Builds the server from a parsed configuration value and a port; the
    /// configuration must be an array of two-element string arrays.
    pub fn new(config: &ConfigValue, port: u16) -> (r: Result<Server, ConfigError>)
        ensures
            r is Ok <==> extract_config_spec(*config) is Ok,
            r matches Ok(s) ==> s.spec_port() == port && pairs_view(s.registry())
                == extract_config_spec(*config)->Ok_0,
            r matches Err(e) ==> extract_config_spec(*config) == Err::<
                Seq<(Seq<char>, Seq<char>)>,
                ConfigError,
            >(e) && e.index_fits(),
    {
        match extract_config(config) {
            Ok(pairs) => Ok(Server { port, config: pairs }),
            Err(e) => Err(e),
        }
    }

    /// The configured listening port.
    pub fn port(&self) -> (p: u16)
        ensures
            p == self.spec_port(),
    {
        self.port
    }

    /// Looks a program's executable path up by name: a linear scan where
    /// the first registered entry wins.
    pub fn resolve(&self, name: &str) -> (r: Option<&String>)
        ensures
            r matches Some(p) ==> resolve_in(self.registry(), name@) == Some(p@),
            r is None ==> resolve_in(self.registry(), name@) is None,
    {
        let n = self.config.len();
        let mut i: usize = 0;
        while i < n
            invariant
                i <= n,
                n == self.config@.len(),
                resolve_in(self.config@, name@) == resolve_from(self.config@, name@, i as int),
            decreases n - i,
        {
            let entry = &self.config[i];
            let owned = name.to_owned();
            if entry.0 == owned {
                return Some(&entry.1);
            }
            i += 1;
        }
        None
    }

    /// Writes the help page: the banner, then every registered name on a
    /// line of its own.
    pub fn help_body(&self) -> (r: String)
        ensures
            r@ == help_body_spec(self.registry()),
    {
        let mut body =
            "CDS Lab server\nThis server forwards request to native applications\nThe following programs are known by this server:\n".to_owned();
        let n = self.config.len();
        let mut i: usize = 0;
        while i < n
            invariant
                i <= n,
                n == self.config@.len(),
                body@ + help_lines_from(self.config@, i as int) == help_body_spec(self.config@),
            decreases n - i,
        {
            let ghost before = body@;
            body.append(self.config[i].0.as_str());
            body.append("\n");
            proof {
                assert(body@ + help_lines_from(self.config@, i as int + 1) =~= before
                    + help_lines_from(self.config@, i as int));
            }
            i += 1;
        }
        proof {
            assert(body@ + help_lines_from(self.config@, n as int) =~= body@);
        }
        body
    }
}

} // verus!
