//! Coarse machine descriptors for the session-start request.
//!
//! Raw hardware values never travel: core counts and memory sizes are
//! rounded into bands, and the CPU name is reduced to a vendor family.
//! This is a deliberate privacy-preserving bucketing policy.

use vstd::prelude::*;

use crate::api_types::StartSessionPayload;
use crate::config::IndigaugeConfig;
use crate::session::StartSessionEvent;
use crate::text::seq_contains;

verus! {

/// The band a core count falls into.
pub open spec fn cores_bucket(cores: u64) -> Seq<char> {
    if cores <= 2 {
        "1-2"@
    } else if cores <= 4 {
        "3-4"@
    } else if cores <= 8 {
        "5-8"@
    } else if cores <= 16 {
        "9-16"@
    } else if cores <= 32 {
        "17-32"@
    } else {
        "33+"@
    }
}

/// Buckets a CPU core count into its band.
pub fn bucket_cores(cores: u64) -> (r: &'static str)
    ensures
        r@ == cores_bucket(cores),
{
    if cores <= 2 {
        "1-2"
    } else if cores <= 4 {
        "3-4"
    } else if cores <= 8 {
        "5-8"
    } else if cores <= 16 {
        "9-16"
    } else if cores <= 32 {
        "17-32"
    } else {
        "33+"
    }
}

/// The band a memory size in whole gigabytes falls into.
pub open spec fn memory_bucket(gb: u64) -> Seq<char> {
    if gb <= 4 {
        "0-4"@
    } else if gb <= 8 {
        "5-8"@
    } else if gb <= 16 {
        "9-16"@
    } else if gb <= 32 {
        "17-32"@
    } else if gb <= 64 {
        "33-64"@
    } else {
        "65+"@
    }
}

/// Buckets a memory size (whole gigabytes) into its band.
pub fn bucket_ram_gb(gb: u64) -> (r: &'static str)
    ensures
        r@ == memory_bucket(gb),
{
    if gb <= 4 {
        "0-4"
    } else if gb <= 8 {
        "5-8"
    } else if gb <= 16 {
        "9-16"
    } else if gb <= 32 {
        "17-32"
    } else if gb <= 64 {
        "33-64"
    } else {
        "65+"
    }
}

/// The vendor family a CPU model name reduces to, if any is recognized.
/// Vendors are tried in a fixed order, so a name mentioning several reduces
/// deterministically.
pub open spec fn cpu_family_of(name: Seq<char>) -> Option<Seq<char>> {
    if seq_contains(name, "Intel"@) {
        Some("Intel"@)
    } else if seq_contains(name, "AMD"@) {
        Some("AMD"@)
    } else if seq_contains(name, "Apple"@) {
        Some("Apple"@)
    } else {
        None
    }
}

/// Reduces a raw CPU model string to its vendor family; an unrecognized
/// name yields nothing rather than a free-form value.
pub fn coarsen_cpu_name(name: &str) -> (r: Option<String>)
    ensures
        match cpu_family_of(name@) {
            Some(family) => r matches Some(s) && s@ == family,
            None => r is None,
        },
{
    if crate::text::str_contains(name, "Intel") {
        Some(String::from_str("Intel"))
    } else if crate::text::str_contains(name, "AMD") {
        Some(String::from_str("AMD"))
    } else if crate::text::str_contains(name, "Apple") {
        Some(String::from_str("Apple"))
    } else {
        None
    }
}

/// What the embedder could observe about the machine, all optional.
pub struct HostInfo {
    pub os: Option<String>,
    pub core_count: Option<u64>,
    pub memory_gb: Option<u64>,
    pub cpu_name: Option<String>,
    pub gpu: Option<String>,
}

/// The `sessions/start` body is assembled exactly from its sources:
/// client version and player id from the configuration and identity store,
/// locale and platform from the host's event, and machine descriptors
/// bucketed — never raw.
pub open spec fn start_payload_matches(
    p: StartSessionPayload,
    config: IndigaugeConfig,
    event: StartSessionEvent,
    player_id: Seq<char>,
    host: HostInfo,
) -> bool {
    &&& p.client_version@ == config.game_version@
    &&& p.player_id matches Some(id) && id@ == player_id
    &&& p.platform == event.platform
    &&& p.locale == event.locale
    &&& p.os == host.os
    &&& p.gpu == host.gpu
    &&& match host.core_count {
        Some(n) => p.cores matches Some(c) && c@ == cores_bucket(n),
        None => p.cores is None,
    }
    &&& match host.memory_gb {
        Some(n) => p.memory matches Some(m) && m@ == memory_bucket(n),
        None => p.memory is None,
    }
    &&& match host.cpu_name {
        Some(name) => match cpu_family_of(name@) {
            Some(family) => p.cpu_family matches Some(s) && s@ == family,
            None => p.cpu_family is None,
        },
        None => p.cpu_family is None,
    }
}

/// Assembles the `sessions/start` body as `start_payload_matches` says.
pub fn build_start_payload(
    config: &IndigaugeConfig,
    event: &StartSessionEvent,
    player_id: String,
    host: &HostInfo,
) -> (p: StartSessionPayload)
    ensures
        start_payload_matches(p, *config, *event, player_id@, *host),
{
    let cores = match host.core_count {
        Some(n) => Some(String::from_str(bucket_cores(n))),
        None => None,
    };
    let memory = match host.memory_gb {
        Some(n) => Some(String::from_str(bucket_ram_gb(n))),
        None => None,
    };
    let cpu_family = match &host.cpu_name {
        Some(name) => coarsen_cpu_name(name.as_str()),
        None => None,
    };
    StartSessionPayload {
        client_version: config.game_version.clone(),
        player_id: Some(player_id),
        platform: crate::text::clone_opt_string(&event.platform),
        os: crate::text::clone_opt_string(&host.os),
        cpu_family,
        cores,
        memory,
        gpu: crate::text::clone_opt_string(&host.gpu),
        locale: crate::text::clone_opt_string(&event.locale),
    }
}

} // verus!
