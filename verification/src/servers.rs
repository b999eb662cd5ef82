//! The test-server catalog the caller selects from.
//!
//! The catalog itself (remote fetch, on-disk cache, health bookkeeping) is
//! the surrounding program's business; this module defines the records, the
//! built-in fallback list, and the two decisions the caller delegates: when
//! the cache is stale and which servers the merged list holds.
//!
//! Values that the surrounding program keeps as richer types are carried here
//! as plain integers: timestamps as Unix seconds, coordinates as millionths
//! of a degree, rates as hundredths of their unit.

use vstd::prelude::*;

use std::collections::HashMap;

verus! {

/// A built-in test server.
pub struct TestServer {
    pub name: &'static str,
    pub url: &'static str,
}

/// One catalog entry.
#[derive(Debug)]
pub struct ServerMetadata {
    pub name: String,
    pub url: String,
    pub provider: Option<String>,
    pub location: Option<String>,
    pub region: Option<String>,
    /// Latitude in millionths of a degree.
    pub lat: Option<i64>,
    /// Longitude in millionths of a degree.
    pub lon: Option<i64>,
    pub file_size: Option<u64>,
    pub enabled: bool,
}

impl ServerMetadata {
    /// A field-for-field copy.
    pub fn duplicate(&self) -> (r: Self)
        ensures
            r == *self,
    {
        ServerMetadata {
            name: self.name.clone(),
            url: self.url.clone(),
            provider: match &self.provider {
                Some(s) => Some(s.clone()),
                None => None,
            },
            location: match &self.location {
                Some(s) => Some(s.clone()),
                None => None,
            },
            region: match &self.region {
                Some(s) => Some(s.clone()),
                None => None,
            },
            lat: self.lat,
            lon: self.lon,
            file_size: self.file_size,
            enabled: self.enabled,
        }
    }
}

/// Measured history for one server, keyed by its URL.
#[derive(Debug)]
pub struct ServerHealth {
    pub url: String,
    /// Unix seconds of the last check, if any.
    pub last_checked: Option<i64>,
    /// Fraction of successful checks, in hundredths.
    pub success_rate: u64,
    /// Average speed in hundredths of megabits per second.
    pub avg_speed_mbps: u64,
    /// Average latency in hundredths of milliseconds.
    pub avg_latency_ms: u64,
    pub failures: u32,
    pub total_checks: u32,
    /// User rating from -1 to 5 stars; absent when not rated.
    pub user_rating: Option<i32>,
    pub user_notes: Option<String>,
}

/// A versioned server list fetched from the remote catalog.
#[derive(Debug)]
pub struct ServerList {
    pub version: String,
    /// Unix seconds of the list's publication.
    pub updated: i64,
    pub servers: Vec<ServerMetadata>,
}

/// Everything cached on this machine about the catalog.
#[derive(Debug)]
pub struct LocalServerData {
    pub health: HashMap<String, ServerHealth>,
    /// Unix seconds at which the cache was written.
    pub cache_timestamp: i64,
    pub remote_list: Option<ServerList>,
}

impl LocalServerData {
    /// A cache holding nothing, stamped at the given time.
    pub fn fresh(cache_timestamp: i64) -> (r: Self)
        ensures
            r.cache_timestamp == cache_timestamp,
            r.remote_list is None,
    {
        LocalServerData { health: HashMap::new(), cache_timestamp, remote_list: None }
    }
}

/// Seconds after which the cached remote list counts as stale: seven days.
pub const CACHE_EXPIRY_SECS: i64 = 604_800;

/// Whether the cached remote list should be refreshed: seven full days have
/// passed since the cache was written.
pub fn should_update_cache(data: &LocalServerData, now_secs: i64) -> (r: bool)
    ensures
        r == (now_secs - data.cache_timestamp >= CACHE_EXPIRY_SECS),
{
    (now_secs as i128) - (data.cache_timestamp as i128) >= CACHE_EXPIRY_SECS as i128
}

/// Name of the built-in server at a given position.
pub open spec fn spec_builtin_name(i: int) -> Seq<char> {
    if i == 0 {
        "Cloudflare (CDN)"@
    } else if i == 1 {
        "Tele2 (Global)"@
    } else if i == 2 {
        "Hetzner (Nuremberg)"@
    } else if i == 3 {
        "Hetzner (Falkenstein)"@
    } else if i == 4 {
        "Hetzner (Helsinki)"@
    } else if i == 5 {
        "Hetzner (Ashburn VA)"@
    } else if i == 6 {
        "Hetzner (Hillsboro OR)"@
    } else if i == 7 {
        "Hetzner (Singapore)"@
    } else if i == 8 {
        "Vultr (New Jersey)"@
    } else if i == 9 {
        "Vultr (Silicon Valley)"@
    } else {
        "Vultr (Singapore)"@
    }
}

/// URL of the built-in server at a given position.
pub open spec fn spec_builtin_url(i: int) -> Seq<char> {
    if i == 0 {
        "https://speed.cloudflare.com/__down?bytes=100000000"@
    } else if i == 1 {
        "http://speedtest.tele2.net/100MB.zip"@
    } else if i == 2 {
        "https://nbg1-speed.hetzner.com/100MB.bin"@
    } else if i == 3 {
        "https://fsn1-speed.hetzner.com/100MB.bin"@
    } else if i == 4 {
        "https://hel1-speed.hetzner.com/100MB.bin"@
    } else if i == 5 {
        "https://ash-speed.hetzner.com/100MB.bin"@
    } else if i == 6 {
        "https://hil-speed.hetzner.com/100MB.bin"@
    } else if i == 7 {
        "https://sin-speed.hetzner.com/100MB.bin"@
    } else if i == 8 {
        "https://nj-us-ping.vultr.com/vultr.com.100MB.bin"@
    } else if i == 9 {
        "https://sjo-ca-us-ping.vultr.com/vultr.com.100MB.bin"@
    } else {
        "https://sgp-ping.vultr.com/vultr.com.100MB.bin"@
    }
}

/// The embedded fallback servers, used when no remote list is cached.
pub fn builtin_servers() -> (r: Vec<TestServer>)
    ensures
        r@.len() == 11,
        forall|i: int|
            0 <= i < 11 ==> (#[trigger] r@[i]).name@ == spec_builtin_name(i) && r@[i].url@
                == spec_builtin_url(i),
{
    let mut v: Vec<TestServer> = Vec::new();
    v.push(TestServer {
        name: "Cloudflare (CDN)",
        url: "https://speed.cloudflare.com/__down?bytes=100000000",
    });
    v.push(TestServer { name: "Tele2 (Global)", url: "http://speedtest.tele2.net/100MB.zip" });
    v.push(TestServer {
        name: "Hetzner (Nuremberg)",
        url: "https://nbg1-speed.hetzner.com/100MB.bin",
    });
    v.push(TestServer {
        name: "Hetzner (Falkenstein)",
        url: "https://fsn1-speed.hetzner.com/100MB.bin",
    });
    v.push(TestServer {
        name: "Hetzner (Helsinki)",
        url: "https://hel1-speed.hetzner.com/100MB.bin",
    });
    v.push(TestServer {
        name: "Hetzner (Ashburn VA)",
        url: "https://ash-speed.hetzner.com/100MB.bin",
    });
    v.push(TestServer {
        name: "Hetzner (Hillsboro OR)",
        url: "https://hil-speed.hetzner.com/100MB.bin",
    });
    v.push(TestServer {
        name: "Hetzner (Singapore)",
        url: "https://sin-speed.hetzner.com/100MB.bin",
    });
    v.push(TestServer {
        name: "Vultr (New Jersey)",
        url: "https://nj-us-ping.vultr.com/vultr.com.100MB.bin",
    });
    v.push(TestServer {
        name: "Vultr (Silicon Valley)",
        url: "https://sjo-ca-us-ping.vultr.com/vultr.com.100MB.bin",
    });
    v.push(TestServer {
        name: "Vultr (Singapore)",
        url: "https://sgp-ping.vultr.com/vultr.com.100MB.bin",
    });
    v
}

/// What a catalog entry made from the built-in server at position `i` holds:
/// only the name, the URL, the known 100 MB payload size, and the enabled
/// mark.
pub open spec fn spec_is_builtin_metadata(m: ServerMetadata, i: int) -> bool {
    &&& m.name@ == spec_builtin_name(i)
    &&& m.url@ == spec_builtin_url(i)
    &&& m.provider is None
    &&& m.location is None
    &&& m.region is None
    &&& m.lat is None
    &&& m.lon is None
    &&& m.file_size == Some(100_000_000u64)
    &&& m.enabled
}

/// The servers of the cached remote list, or the empty sequence when none is
/// cached.
pub open spec fn spec_remote_servers(data: &LocalServerData) -> Seq<ServerMetadata> {
    match data.remote_list {
        Some(l) => l.servers@,
        None => Seq::empty(),
    }
}

/// The list a caller selects from: the cached remote list's entries with the
/// disabled ones dropped, or, when no remote list is cached, one enabled
/// entry per built-in server.
pub fn get_merged_server_list(data: &LocalServerData) -> (r: Vec<ServerMetadata>)
    ensures
        data.remote_list is Some ==> r@ == spec_remote_servers(data).filter(
            |s: ServerMetadata| s.enabled,
        ),
        data.remote_list is None ==> r@.len() == 11 && (forall|i: int|
            0 <= i < 11 ==> spec_is_builtin_metadata(#[trigger] r@[i], i)),
{
    let mut out: Vec<ServerMetadata> = Vec::new();
    match &data.remote_list {
        Some(list) => {
            let n = list.servers.len();
            let mut i: usize = 0;
            while i < n
                invariant
                    i <= n,
                    data.remote_list is Some,
                    n == spec_remote_servers(data).len(),
                    list.servers@ == spec_remote_servers(data),
                    out@ == spec_remote_servers(data).take(i as int).filter(
                        |s: ServerMetadata| s.enabled,
                    ),
                decreases n - i,
            {
                let s = &list.servers[i];
                if s.enabled {
                    out.push(s.duplicate());
                }
                proof {
                    reveal(Seq::filter);
                    let pre = spec_remote_servers(data);
                    assert(pre.take(i as int + 1).drop_last() =~= pre.take(i as int));
                    assert(pre.take(i as int + 1).last() == pre[i as int]);
                }
                i = i + 1;
            }
            proof {
                assert(spec_remote_servers(data).take(n as int) =~= spec_remote_servers(data));
            }
        },
        None => {
            let builtins = builtin_servers();
            let n = builtins.len();
            let mut i: usize = 0;
            while i < n
                invariant
                    i <= n,
                    n == 11,
                    builtins@.len() == 11,
                    forall|k: int|
                        0 <= k < 11 ==> (#[trigger] builtins@[k]).name@ == spec_builtin_name(k)
                            && builtins@[k].url@ == spec_builtin_url(k),
                    out@.len() == i,
                    forall|k: int| 0 <= k < i ==> spec_is_builtin_metadata(#[trigger] out@[k], k),
                decreases n - i,
            {
                let b = &builtins[i];
                out.push(
                    ServerMetadata {
                        name: b.name.to_owned(),
                        url: b.url.to_owned(),
                        provider: None,
                        location: None,
                        region: None,
                        lat: None,
                        lon: None,
                        file_size: Some(100_000_000),
                        enabled: true,
                    },
                );
                i = i + 1;
            }
        },
    }
    out
}

} // verus!
