// The server catalog: the built-in fallback list, cache staleness, and the
// merged list, plus the configuration defaults.

use speedrun::config::{default_user_agent, Config};
use speedrun::servers::{
    builtin_servers, get_merged_server_list, should_update_cache, LocalServerData, ServerList,
    ServerMetadata, CACHE_EXPIRY_SECS,
};

fn meta(name: &str, url: &str, enabled: bool) -> ServerMetadata {
    ServerMetadata {
        name: name.to_string(),
        url: url.to_string(),
        provider: None,
        location: None,
        region: None,
        lat: None,
        lon: None,
        file_size: None,
        enabled,
    }
}

#[test]
fn builtin_list_is_the_embedded_fallback() {
    let servers = builtin_servers();
    assert_eq!(servers.len(), 11);
    assert_eq!(servers[0].name, "Cloudflare (CDN)");
    assert_eq!(servers[0].url, "https://speed.cloudflare.com/__down?bytes=100000000");
    assert_eq!(servers[10].name, "Vultr (Singapore)");
    assert_eq!(servers[10].url, "https://sgp-ping.vultr.com/vultr.com.100MB.bin");
}

#[test]
fn cache_goes_stale_after_seven_days() {
    let data = LocalServerData::fresh(1_000_000);
    assert!(!should_update_cache(&data, 1_000_000));
    assert!(!should_update_cache(&data, 1_000_000 + CACHE_EXPIRY_SECS - 1));
    assert!(should_update_cache(&data, 1_000_000 + CACHE_EXPIRY_SECS));
    // A clock that moved backwards does not force a refresh.
    assert!(!should_update_cache(&data, 0));
}

#[test]
fn merged_list_falls_back_to_the_builtins() {
    let data = LocalServerData::fresh(0);
    let merged = get_merged_server_list(&data);
    assert_eq!(merged.len(), 11);
    for m in &merged {
        assert!(m.enabled);
        assert_eq!(m.file_size, Some(100_000_000));
        assert!(m.provider.is_none());
    }
    assert_eq!(merged[1].name, "Tele2 (Global)");
    assert_eq!(merged[1].url, "http://speedtest.tele2.net/100MB.zip");
}

#[test]
fn merged_list_keeps_only_enabled_remote_servers() {
    let mut data = LocalServerData::fresh(0);
    data.remote_list = Some(ServerList {
        version: "3".to_string(),
        updated: 1_700_000_000,
        servers: vec![
            meta("a", "https://a", true),
            meta("b", "https://b", false),
            meta("c", "https://c", true),
        ],
    });
    let merged = get_merged_server_list(&data);
    assert_eq!(merged.len(), 2);
    assert_eq!(merged[0].name, "a");
    assert_eq!(merged[1].name, "c");
}

#[test]
fn configuration_defaults() {
    assert_eq!(default_user_agent(), "Mozilla/5.0");
    let c = Config::default();
    assert_eq!(c.user_agent, "Mozilla/5.0");
    assert!(c.custom_servers.is_empty());
    assert!(!c.interactive);
}
