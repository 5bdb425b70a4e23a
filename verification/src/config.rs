use vstd::prelude::*;

use crate::error::AppError;
use crate::logging::opt_text;
use crate::model::{FlowControl, Parity, SerialConfig, StopBits};
use crate::text::{ends_with, has_verbatim_prefix, is_joined, path_join, str_eq};

verus! {

/// Saved serial settings for one port.
#[derive(Debug, Clone)]
pub struct PortProfile {
    pub name: String,
    pub port_name: String,
    pub baud_rate: u32,
    pub data_bits: u8,
    pub stop_bits: StopBits,
    pub parity: Parity,
    pub flow_control: FlowControl,
    pub timeout_ms: u64,
    pub echo: bool,
    pub commands_log_path: Option<String>,
    pub responses_log_path: Option<String>,
}

impl Default for PortProfile {
    /// The profile named `Default`: no port, 115200 baud, 8 data bits, one
    /// stop bit, no parity, no flow control, 100 ms timeout, echo off, no logs.
    fn default() -> (p: Self)
        ensures
            p.name@ == "Default"@,
            p.port_name@ == Seq::<char>::empty(),
            p.baud_rate == 115_200,
            p.data_bits == 8,
            p.stop_bits == StopBits::One,
            p.parity == Parity::NoParity,
            p.flow_control == FlowControl::NoFlow,
            p.timeout_ms == 100,
            !p.echo,
            p.commands_log_path is None,
            p.responses_log_path is None,
    {
        PortProfile {
            name: "Default".to_owned(),
            port_name: String::new(),
            baud_rate: 115_200,
            data_bits: 8,
            stop_bits: StopBits::One,
            parity: Parity::NoParity,
            flow_control: FlowControl::NoFlow,
            timeout_ms: 100,
            echo: false,
            commands_log_path: None,
            responses_log_path: None,
        }
    }
}

impl PortProfile {
    /// The profile saved for a port that was opened with `cfg`: named after
    /// the port, with all of its settings.
    pub fn from_config(cfg: &SerialConfig) -> (p: Self)
        ensures
            p.name@ == cfg.port_name@,
            p.port_name@ == cfg.port_name@,
            p.baud_rate == cfg.baud_rate,
            p.data_bits == cfg.data_bits,
            p.stop_bits == cfg.stop_bits,
            p.parity == cfg.parity,
            p.flow_control == cfg.flow_control,
            p.timeout_ms == cfg.timeout_ms,
            p.echo == cfg.echo,
            opt_text(p.commands_log_path) == opt_text(cfg.commands_log_path),
            opt_text(p.responses_log_path) == opt_text(cfg.responses_log_path),
    {
        PortProfile {
            name: cfg.port_name.clone(),
            port_name: cfg.port_name.clone(),
            baud_rate: cfg.baud_rate,
            data_bits: cfg.data_bits,
            stop_bits: cfg.stop_bits,
            parity: cfg.parity,
            flow_control: cfg.flow_control,
            timeout_ms: cfg.timeout_ms,
            echo: cfg.echo,
            commands_log_path: match &cfg.commands_log_path {
                Some(s) => Some(s.clone()),
                None => None,
            },
            responses_log_path: match &cfg.responses_log_path {
                Some(s) => Some(s.clone()),
                None => None,
            },
        }
    }
}

/// The application's configuration file.
#[derive(Debug, Clone)]
pub struct AppConfig {
    pub profiles: Vec<PortProfile>,
    pub default_log_dir: Option<String>,
}

impl Default for AppConfig {
    /// No profiles and no log directory.
    fn default() -> (c: Self)
        ensures
            c.profiles@.len() == 0,
            c.default_log_dir is None,
    {
        AppConfig { profiles: Vec::new(), default_log_dir: None }
    }
}

/// The position of the first profile for the port `name`, if any.
pub open spec fn profile_index(ps: Seq<PortProfile>, name: Seq<char>) -> Option<int>
    decreases ps.len(),
{
    if ps.len() == 0 {
        None
    } else if ps[0].port_name@ == name {
        Some(0)
    } else {
        match profile_index(ps.drop_first(), name) {
            Some(i) => Some(i + 1),
            None => None,
        }
    }
}

/// `profile_index` found by a scan from the front.
proof fn lemma_profile_index_scan(ps: Seq<PortProfile>, name: Seq<char>, i: int)
    requires
        0 <= i <= ps.len(),
        forall|j: int| 0 <= j < i ==> (#[trigger] ps[j]).port_name@ != name,
    ensures
        i < ps.len() && ps[i].port_name@ == name ==> profile_index(ps, name) == Some(i),
        i == ps.len() ==> profile_index(ps, name) is None,
    decreases i,
{
    if i > 0 {
        let rest = ps.drop_first();
        assert forall|j: int| 0 <= j < i - 1 implies (#[trigger] rest[j]).port_name@ != name by {
            assert(rest[j] == ps[j + 1]);
        }
        lemma_profile_index_scan(rest, name, i - 1);
        assert(ps[0].port_name@ != name);
        if i < ps.len() {
            assert(rest[i - 1] == ps[i]);
        }
    } else if ps.len() > 0 {
        assert(ps[0] == ps[i]);
    }
}

/// The position `profile_index` returns holds a profile for that port.
pub proof fn lemma_profile_index_bounds(ps: Seq<PortProfile>, name: Seq<char>)
    ensures
        profile_index(ps, name) matches Some(i) ==> 0 <= i < ps.len() && ps[i].port_name@ == name,
    decreases ps.len(),
{
    if ps.len() > 0 {
        lemma_profile_index_bounds(ps.drop_first(), name);
    }
}

/// What `profile_index` returns: the first position holding a profile for
/// the port, or none when no profile is for it.
pub proof fn lemma_profile_index_char(ps: Seq<PortProfile>, name: Seq<char>)
    ensures
        match profile_index(ps, name) {
            Some(i) => 0 <= i < ps.len() && ps[i].port_name@ == name && forall|j: int|
                0 <= j < i ==> (#[trigger] ps[j]).port_name@ != name,
            None => forall|j: int| 0 <= j < ps.len() ==> (#[trigger] ps[j]).port_name@ != name,
        },
    decreases ps.len(),
{
    if ps.len() > 0 {
        let rest = ps.drop_first();
        lemma_profile_index_char(rest, name);
        match profile_index(rest, name) {
            Some(i) => {
                if ps[0].port_name@ != name {
                    assert forall|j: int| 0 <= j < i + 1 implies (#[trigger] ps[j]).port_name@ != name by {
                        if j > 0 {
                            assert(ps[j] == rest[j - 1]);
                        }
                    }
                }
            },
            None => {
                assert forall|j: int| 0 <= j < ps.len() && ps[0].port_name@ != name implies (#[trigger] ps[j]).port_name@ != name by {
                    if j > 0 {
                        assert(ps[j] == rest[j - 1]);
                    }
                }
            },
        }
    }
}

/// Two sequences in which the same positions hold a profile for `name` give
/// the same `profile_index` for it.
proof fn lemma_profile_index_same(a: Seq<PortProfile>, b: Seq<PortProfile>, name: Seq<char>)
    requires
        a.len() <= b.len(),
        forall|j: int| 0 <= j < a.len() ==> ((#[trigger] a[j]).port_name@ == name <==> b[j].port_name@ == name),
        forall|j: int| a.len() <= j < b.len() ==> (#[trigger] b[j]).port_name@ != name,
    ensures
        profile_index(a, name) == profile_index(b, name),
{
    lemma_profile_index_char(a, name);
    lemma_profile_index_char(b, name);
    match profile_index(a, name) {
        Some(i) => {
            assert(a[i].port_name@ == name);
            assert forall|j: int| 0 <= j < i implies (#[trigger] b[j]).port_name@ != name by {
                assert(a[j].port_name@ != name);
            }
            lemma_profile_index_scan(b, name, i);
        },
        None => {
            assert forall|j: int| 0 <= j < b.len() implies (#[trigger] b[j]).port_name@ != name by {
                if j < a.len() {
                    assert(a[j].port_name@ != name);
                }
            }
            lemma_profile_index_scan(b, name, b.len() as int);
        },
    }
}

/// The first position holding a profile for the port `name`.
fn find_profile(ps: &Vec<PortProfile>, name: &str) -> (r: Option<usize>)
    ensures
        r matches Some(i) ==> profile_index(ps@, name@) == Some(i as int),
        r is None ==> profile_index(ps@, name@) is None,
{
    let mut i: usize = 0;
    while i < ps.len()
        invariant
            0 <= i <= ps@.len(),
            forall|j: int| 0 <= j < i ==> (#[trigger] ps@[j]).port_name@ != name@,
        decreases ps.len() - i,
    {
        if str_eq(ps[i].port_name.as_str(), name) {
            proof { lemma_profile_index_scan(ps@, name@, i as int); }
            return Some(i);
        }
        i = i + 1;
    }
    proof { lemma_profile_index_scan(ps@, name@, i as int); }
    None
}

/// The profiles after saving `profile`: it replaces the first profile for
/// the same port, or is added at the end when there is none.
pub open spec fn upserted(ps: Seq<PortProfile>, profile: PortProfile) -> Seq<PortProfile> {
    match profile_index(ps, profile.port_name@) {
        Some(i) => ps.update(i, profile),
        None => ps.push(profile),
    }
}

/// Saving a profile and then looking up its port finds that profile.
pub proof fn law_upsert_then_lookup(ps: Seq<PortProfile>, profile: PortProfile)
    ensures
        profile_index(upserted(ps, profile), profile.port_name@) matches Some(i)
            && upserted(ps, profile)[i] == profile,
{
    let name = profile.port_name@;
    lemma_profile_index_char(ps, name);
    let after = upserted(ps, profile);
    match profile_index(ps, name) {
        Some(i) => {
            assert forall|j: int| 0 <= j < i implies (#[trigger] after[j]).port_name@ != name by {
                assert(after[j] == ps[j]);
            }
            lemma_profile_index_scan(after, name, i);
        },
        None => {
            assert forall|j: int| 0 <= j < ps.len() implies (#[trigger] after[j]).port_name@ != name by {
                assert(after[j] == ps[j]);
            }
            lemma_profile_index_scan(after, name, ps.len() as int);
        },
    }
}

/// Saving a profile leaves the lookup of every other port as it was.
pub proof fn law_upsert_keeps_other_ports(ps: Seq<PortProfile>, profile: PortProfile, other: Seq<char>)
    requires
        other != profile.port_name@,
    ensures
        profile_index(upserted(ps, profile), other) == profile_index(ps, other),
        profile_index(ps, other) matches Some(i) ==> upserted(ps, profile)[i] == ps[i],
{
    let name = profile.port_name@;
    lemma_profile_index_char(ps, name);
    lemma_profile_index_char(ps, other);
    let after = upserted(ps, profile);
    match profile_index(ps, name) {
        Some(k) => {
            assert forall|j: int| 0 <= j < ps.len() implies ((#[trigger] ps[j]).port_name@ == other
                <==> after[j].port_name@ == other) by {
                if j == k {
                    assert(ps[k].port_name@ == name);
                }
            }
            lemma_profile_index_same(ps, after, other);
        },
        None => {
            assert forall|j: int| 0 <= j < ps.len() implies ((#[trigger] ps[j]).port_name@ == other
                <==> after[j].port_name@ == other) by {
                assert(after[j] == ps[j]);
            }
            lemma_profile_index_same(ps, after, other);
        },
    }
    match profile_index(ps, other) {
        Some(i) => {
            if let Some(k) = profile_index(ps, name) {
                assert(i != k);
            }
        },
        None => {},
    }
}

/// No two profiles are for the same port.
pub open spec fn ports_unique(ps: Seq<PortProfile>) -> bool {
    forall|i: int, j: int|
        0 <= i < ps.len() && 0 <= j < ps.len() && i != j ==> (#[trigger] ps[i]).port_name@ != (#[trigger] ps[j]).port_name@
}

/// Saving profiles never makes two profiles for one port.
pub proof fn law_upsert_keeps_ports_unique(ps: Seq<PortProfile>, profile: PortProfile)
    requires
        ports_unique(ps),
    ensures
        ports_unique(upserted(ps, profile)),
{
    let name = profile.port_name@;
    lemma_profile_index_char(ps, name);
    let after = upserted(ps, profile);
    match profile_index(ps, name) {
        Some(k) => {
            assert forall|i: int, j: int|
                0 <= i < after.len() && 0 <= j < after.len() && i != j implies (#[trigger] after[i]).port_name@
                != (#[trigger] after[j]).port_name@ by {
                if i == k {
                    assert(ps[j].port_name@ != ps[k].port_name@);
                } else if j == k {
                    assert(ps[i].port_name@ != ps[k].port_name@);
                } else {
                    assert(ps[i].port_name@ != ps[j].port_name@);
                }
            }
        },
        None => {
            assert forall|i: int, j: int|
                0 <= i < after.len() && 0 <= j < after.len() && i != j implies (#[trigger] after[i]).port_name@
                != (#[trigger] after[j]).port_name@ by {
                if i == ps.len() {
                    assert(ps[j].port_name@ != name);
                } else if j == ps.len() {
                    assert(ps[i].port_name@ != name);
                } else {
                    assert(ps[i].port_name@ != ps[j].port_name@);
                }
            }
        },
    }
}

impl AppConfig {
    /// Saves `profile` (see [`upserted`]).
    pub fn upsert_profile(&mut self, profile: PortProfile)
        ensures
            final(self).profiles@ == upserted(old(self).profiles@, profile),
            final(self).default_log_dir == old(self).default_log_dir,
    {
        match find_profile(&self.profiles, profile.port_name.as_str()) {
            Some(i) => {
                proof { lemma_profile_index_bounds(self.profiles@, profile.port_name@); }
                self.profiles.set(i, profile);
            },
            None => {
                self.profiles.push(profile);
            },
        }
    }

    /// The first profile saved for the port `port_name`, if any.
    pub fn profile_for_port(&self, port_name: &str) -> (r: Option<&PortProfile>)
        ensures
            profile_index(self.profiles@, port_name@) matches Some(i) ==> r == Some(&self.profiles@[i]),
            profile_index(self.profiles@, port_name@) is None ==> r is None,
    {
        match find_profile(&self.profiles, port_name) {
            Some(i) => {
                proof { lemma_profile_index_bounds(self.profiles@, port_name@); }
                Some(&self.profiles[i])
            },
            None => None,
        }
    }
}

/// The configuration directory: the one named by the override when there is
/// one, else `comchat` under the platform's configuration directory; an
/// error when neither is known.
pub fn config_dir_from(custom: Option<String>, platform: Option<String>) -> (r: Result<String, AppError>)
    ensures
        custom matches Some(c) ==> r matches Ok(d) && d@ == c@,
        custom is None && platform is None ==> (r matches Err(AppError::Config(m))
            && m@ == "could not determine config directory"@),
        custom is None && platform is Some ==> (r matches Ok(d) && ends_with(d@, "comchat"@) && (
        !has_verbatim_prefix(platform->0@) ==> is_joined(d@, platform->0@, "comchat"@))),
{
    match custom {
        Some(c) => Ok(c),
        None => match platform {
            Some(base) => {
                proof { reveal_strlit("comchat"); }
                Ok(path_join(base.as_str(), "comchat"))
            },
            None => Err(AppError::Config("could not determine config directory".to_owned())),
        },
    }
}

/// The configuration file, `config.toml` in the configuration directory.
pub fn config_file_path(config_dir: &str) -> (p: String)
    ensures
        ends_with(p@, "config.toml"@),
        !has_verbatim_prefix(config_dir@) ==> is_joined(p@, config_dir@, "config.toml"@),
{
    proof { reveal_strlit("config.toml"); }
    path_join(config_dir, "config.toml")
}

} // verus!
