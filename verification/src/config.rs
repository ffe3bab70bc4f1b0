//! Host configuration: the raw form read from the configuration file, the
//! resolved form every server runs with, and the resolution rules (defaults,
//! required fields, unique bind addresses).

use vstd::prelude::*;
use vstd::string::StringExecFns;

verus! {

/// Markdown rendering options for one host: URLs injected into every
/// rendered page.
pub struct MarkdownOptions {
    /// Stylesheet URL referenced by a `<link>` tag put before the rendered body.
    pub css: Option<String>,
    /// Script URL referenced by a `<script>` tag put after the rendered body.
    pub js: Option<String>,
}

/// One virtual host as it stands in the configuration file: everything but
/// the bind address may be omitted and falls back to a default.
pub struct RawHostConfig {
    /// Address to bind, `host:port`. Required.
    pub host: Option<String>,
    /// Directory served by this host. Defaults to the current directory.
    pub root: Option<String>,
    /// Whether response bodies are gzip-compressed. Defaults to on.
    pub gzip: Option<bool>,
    /// Markdown rendering options; `None` serves `.md` files as plain bytes.
    pub markdown: Option<MarkdownOptions>,
    /// Whether to run certificate provisioning before serving. Defaults to off.
    pub provision: Option<bool>,
}

/// One virtual host with every default applied.
pub struct HostConfig {
    /// Address to bind, `host:port`.
    pub host: String,
    /// Directory served by this host.
    pub root: String,
    /// Whether response bodies are gzip-compressed.
    pub gzip: bool,
    /// Markdown rendering options; `None` serves `.md` files as plain bytes.
    pub markdown: Option<MarkdownOptions>,
    /// Whether to run certificate provisioning before serving.
    pub provision: bool,
}

/// Why a configuration cannot be used to start any host.
#[derive(Debug, PartialEq, Eq, Structural, Clone, Copy)]
pub enum ConfigError {
    /// The entry at `index` has no bind address.
    MissingHost {
        /// Position of the offending entry in the configured order.
        index: usize,
    },
    /// The entries at `first` and `second` bind the same address.
    DuplicateAddress {
        /// Position of the earlier entry of the colliding pair.
        first: usize,
        /// Position of the later entry of the colliding pair.
        second: usize,
    },
}

/// The root directory a host serves once defaults are applied.
pub open spec fn resolved_root(raw: RawHostConfig) -> Seq<char> {
    match raw.root {
        Some(r) => r@,
        None => "."@,
    }
}

/// The gzip switch of a host once defaults are applied.
pub open spec fn resolved_gzip(raw: RawHostConfig) -> bool {
    match raw.gzip {
        Some(g) => g,
        None => true,
    }
}

/// The provisioning switch of a host once defaults are applied.
pub open spec fn resolved_provision(raw: RawHostConfig) -> bool {
    match raw.provision {
        Some(p) => p,
        None => false,
    }
}

/// `cfg` is `raw` with every default applied.
pub open spec fn host_resolved(raw: RawHostConfig, cfg: HostConfig) -> bool {
    &&& raw.host matches Some(h) && cfg.host@ == h@
    &&& cfg.root@ == resolved_root(raw)
    &&& cfg.gzip == resolved_gzip(raw)
    &&& cfg.markdown == raw.markdown
    &&& cfg.provision == resolved_provision(raw)
}

/// Every entry names a bind address.
pub open spec fn all_hosts_present(raws: Seq<RawHostConfig>) -> bool {
    forall|i: int| 0 <= i < raws.len() ==> raws[i].host is Some
}

/// No two entries name the same bind address.
pub open spec fn addresses_distinct(raws: Seq<RawHostConfig>) -> bool {
    forall|i: int, j: int|
        0 <= i < j < raws.len() ==> raws[i].host.unwrap()@ != raws[j].host.unwrap()@
}

fn clone_markdown(md: &Option<MarkdownOptions>) -> (r: Option<MarkdownOptions>)
    ensures
        r == *md,
{
    match md {
        Some(m) => {
            let css = match &m.css {
                Some(c) => Some(c.clone()),
                None => None,
            };
            let js = match &m.js {
                Some(j) => Some(j.clone()),
                None => None,
            };
            Some(MarkdownOptions { css, js })
        },
        None => None,
    }
}

/// Applies the defaults to one entry whose bind address is present.
fn resolve_host(raw: &RawHostConfig) -> (cfg: HostConfig)
    requires
        raw.host is Some,
    ensures
        host_resolved(*raw, cfg),
{
    let host = match &raw.host {
        Some(h) => h.clone(),
        None => {
            proof {
                assert(false);
            }
            String::new()
        },
    };
    let root = match &raw.root {
        Some(r) => r.clone(),
        None => String::from_str("."),
    };
    let gzip = match raw.gzip {
        Some(g) => g,
        None => true,
    };
    let provision = match raw.provision {
        Some(p) => p,
        None => false,
    };
    HostConfig { host, root, gzip, markdown: clone_markdown(&raw.markdown), provision }
}

/// Turns the configured entries into the hosts to start, in the configured
/// order, or reports why no host can start.
///
/// Succeeds exactly when every entry names a bind address and no two entries
/// name the same one; an entry with a missing optional field gets that
/// field's default. The errors name the first offence: the first entry
/// without an address, or the first colliding pair (earliest second member,
/// then earliest first member).
pub fn resolve_hosts(raws: &Vec<RawHostConfig>) -> (r: Result<Vec<HostConfig>, ConfigError>)
    ensures
        r is Ok <==> all_hosts_present(raws@) && addresses_distinct(raws@),
        r matches Ok(cfgs) ==> {
            &&& cfgs.len() == raws.len()
            &&& forall|i: int| 0 <= i < raws@.len() ==> host_resolved(raws@[i], #[trigger] cfgs@[i])
        },
        r matches Err(ConfigError::MissingHost { index }) ==> {
            &&& 0 <= index < raws@.len()
            &&& raws@[index as int].host is None
            &&& forall|k: int| 0 <= k < index ==> raws@[k].host is Some
        },
        r matches Err(ConfigError::DuplicateAddress { first, second }) ==> {
            &&& 0 <= first < second < raws@.len()
            &&& all_hosts_present(raws@)
            &&& raws@[first as int].host.unwrap()@ == raws@[second as int].host.unwrap()@
            &&& forall|a: int, b: int|
                0 <= a < b < second ==> raws@[a].host.unwrap()@ != raws@[b].host.unwrap()@
            &&& forall|a: int|
                0 <= a < first ==> raws@[a].host.unwrap()@ != raws@[second as int].host.unwrap()@
        },
{
    let n = raws.len();
    let mut k: usize = 0;
    while k < n
        invariant
            n == raws.len(),
            k <= n,
            forall|i: int| 0 <= i < k ==> raws@[i].host is Some,
        decreases n - k,
    {
        if raws[k].host.is_none() {
            return Err(ConfigError::MissingHost { index: k });
        }
        k += 1;
    }

    let mut j: usize = 1;
    while j < n
        invariant
            n == raws.len(),
            j >= 1,
            all_hosts_present(raws@),
            forall|a: int, b: int| 0 <= a < b < j && b < n ==> raws@[a].host.unwrap()@ != raws@[b].host.unwrap()@,
        decreases n - j,
    {
        let mut i: usize = 0;
        while i < j
            invariant
                n == raws.len(),
                i <= j < n,
                all_hosts_present(raws@),
                forall|a: int, b: int|
                    0 <= a < b < j ==> raws@[a].host.unwrap()@ != raws@[b].host.unwrap()@,
                forall|a: int| 0 <= a < i ==> raws@[a].host.unwrap()@ != raws@[j as int].host.unwrap()@,
            decreases j - i,
        {
            let hi = match &raws[i].host {
                Some(h) => h,
                None => {
                    proof {
                        assert(false);
                    }
                    return Err(ConfigError::MissingHost { index: i });
                },
            };
            let hj = match &raws[j].host {
                Some(h) => h,
                None => {
                    proof {
                        assert(false);
                    }
                    return Err(ConfigError::MissingHost { index: j });
                },
            };
            if *hi == *hj {
                proof {
                    assert(raws@[i as int].host.unwrap()@ == raws@[j as int].host.unwrap()@);
                    assert(!addresses_distinct(raws@));
                }
                return Err(ConfigError::DuplicateAddress { first: i, second: j });
            }
            i += 1;
        }
        j += 1;
    }

    let mut cfgs: Vec<HostConfig> = Vec::new();
    let mut k: usize = 0;
    while k < n
        invariant
            n == raws.len(),
            k <= n,
            cfgs.len() == k,
            all_hosts_present(raws@),
            forall|i: int| 0 <= i < k ==> host_resolved(raws@[i], #[trigger] cfgs@[i]),
        decreases n - k,
    {
        let cfg = resolve_host(&raws[k]);
        cfgs.push(cfg);
        k += 1;
    }
    Ok(cfgs)
}

} // verus!
