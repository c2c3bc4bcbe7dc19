use linkup_cli::release::{
    cache_after_fetch, check_for_update, latest_release_cache_expired, next_morning_utc_seconds, rate_limit_retry_at, Asset,
    CachedReleases, ChannelRelease, FetchError, Release, VersionChannel,
};
use linkup_cli::update::{available_update, decimal_string, update_command, InstallationMethod, UpdateError, Version};

fn release(version: &str) -> Release {
    Release {
        version: version.to_string(),
        assets: vec![
            Asset { name: "linkup-1.2.0-x86_64-apple-darwin.tar.gz".to_string(), download_url: "https://dl/mac".to_string() },
            Asset { name: "linkup-1.2.0-x86_64-unknown-linux-gnu.tar.gz".to_string(), download_url: "https://dl/linux".to_string() },
        ],
    }
}

#[test]
fn versions_parse_and_print() {
    let v = match Version::try_from("1.2.3") {
        Ok(v) => v,
        Err(_) => panic!("expected a version"),
    };
    assert_eq!((v.major, v.minor, v.patch), (1, 2, 3));
    assert_eq!(v.to_string(), "1.2.3");
    assert!(Version::try_from_is_defined("1.2"));
    match Version::try_from("1.2") {
        Err(UpdateError::InvalidVersion(m)) => assert_eq!(m, "1.2"),
        Ok(_) => panic!("expected an error"),
    }
    assert!(!Version::try_from_is_defined("1.x.3"));
    assert!(!Version::try_from_is_defined("1.2.70000"));
    assert_eq!(decimal_string(0), "0");
    assert_eq!(decimal_string(65535), "65535");
}

#[test]
fn version_order() {
    let a = Version { major: 1, minor: 2, patch: 3 };
    let b = Version { major: 1, minor: 3, patch: 0 };
    assert!(a.is_outdated(&b));
    assert!(!b.is_outdated(&a));
    assert!(!a.is_outdated(&a));
    assert!(Version { major: 0, minor: 9, patch: 9 }.is_outdated(&a));
}

#[test]
fn update_asset_choice() {
    let r = release("1.2.0");
    let a = available_update("1.1.0", &r, "linux", "x86_64").unwrap();
    assert_eq!(a.download_url, "https://dl/linux");
    assert!(available_update("1.2.0", &r, "linux", "x86_64").is_none());
    assert!(available_update("1.1.0", &r, "windows", "x86_64").is_none());
    assert_eq!(r.linkup_asset("macos", "x86_64").unwrap().download_url, "https://dl/mac");
    assert!(r.asset_for("macos", "aarch64").is_none());
}

#[test]
fn installation_methods() {
    let parts = |p: &str| p.split('/').map(|s| s.to_string()).collect::<Vec<_>>();
    assert!(InstallationMethod::current(&parts("/opt/homebrew/Cellar/linkup/1.0/bin/linkup")) == InstallationMethod::Brew);
    assert!(InstallationMethod::current(&parts("/home/me/.cargo/bin/linkup")) == InstallationMethod::Cargo);
    assert!(InstallationMethod::current(&parts("/usr/local/bin/linkup")) == InstallationMethod::Manual);
    assert_eq!(update_command(InstallationMethod::Brew), "brew upgrade linkup");
    assert_eq!(update_command(InstallationMethod::Cargo), "linkup update");
    assert_eq!(update_command(InstallationMethod::Manual), "linkup update");
}

#[test]
fn release_cache() {
    assert_eq!(next_morning_utc_seconds(0), 86400);
    assert_eq!(next_morning_utc_seconds(86399), 86400);
    assert_eq!(next_morning_utc_seconds(86400), 172800);
    let c = CachedReleases::empty_with_retry(10, 20);
    assert!(c.is_fresh(20));
    assert!(!c.is_fresh(21));
    assert!(c.get_release(VersionChannel::Stable).is_none());
    let c = CachedReleases {
        fetched_at: 0,
        next_fetch_at: 5,
        releases: vec![
            ChannelRelease {
                channel: VersionChannel::Beta,
                version: "2.0.0".to_string(),
                binary: Asset { name: "b".to_string(), download_url: "u".to_string() },
            },
            ChannelRelease {
                channel: VersionChannel::Stable,
                version: "1.0.0".to_string(),
                binary: Asset { name: "s".to_string(), download_url: "u".to_string() },
            },
        ],
    };
    assert_eq!(c.get_release(VersionChannel::Stable).unwrap().version, "1.0.0");
    assert!(latest_release_cache_expired(200000, 100));
    assert!(!latest_release_cache_expired(86500, 100));
}

fn channel_release(channel: VersionChannel, version: &str) -> ChannelRelease {
    ChannelRelease {
        channel,
        version: version.to_string(),
        binary: Asset { name: format!("linkup-{}.tar.gz", version), download_url: format!("https://dl/{}", version) },
    }
}

#[test]
fn rate_limit_reset_header() {
    let now = 1_700_000_000u64;
    let morning = next_morning_utc_seconds(now);
    assert_eq!(rate_limit_retry_at(Some("1700003600"), now), 1_700_003_600);
    assert_eq!(rate_limit_retry_at(Some("+42"), now), 42);
    assert_eq!(rate_limit_retry_at(Some("18446744073709551615"), now), u64::MAX);
    assert_eq!(rate_limit_retry_at(Some("18446744073709551616"), now), morning);
    assert_eq!(rate_limit_retry_at(Some("soon"), now), morning);
    assert_eq!(rate_limit_retry_at(None, now), morning);
}

#[test]
fn cache_after_a_fetch() {
    let now = 1_700_000_000u64;
    let morning = next_morning_utc_seconds(now);
    let fetched = cache_after_fetch(now, Ok(vec![channel_release(VersionChannel::Stable, "1.2.3")]));
    assert_eq!(fetched.fetched_at, now);
    assert_eq!(fetched.next_fetch_at, morning);
    assert_eq!(fetched.releases.len(), 1);

    let limited = cache_after_fetch(now, Err(FetchError::RateLimit(now + 60)));
    assert_eq!((limited.fetched_at, limited.next_fetch_at, limited.releases.len()), (now, now + 60, 0));

    let failed = cache_after_fetch(now, Err(FetchError::Other));
    assert_eq!((failed.fetched_at, failed.next_fetch_at, failed.releases.len()), (now, morning, 0));
}

#[test]
fn update_follows_the_requested_or_current_channel() {
    let cache = CachedReleases {
        fetched_at: 0,
        next_fetch_at: 10,
        releases: vec![channel_release(VersionChannel::Stable, "1.2.3"), channel_release(VersionChannel::Beta, "1.3.0-next")],
    };
    assert_eq!(check_for_update(&cache, None, VersionChannel::Beta).unwrap().version, "1.3.0-next");
    assert_eq!(check_for_update(&cache, Some(VersionChannel::Stable), VersionChannel::Beta).unwrap().version, "1.2.3");
    let empty = CachedReleases { fetched_at: 0, next_fetch_at: 10, releases: vec![] };
    assert!(check_for_update(&empty, None, VersionChannel::Stable).is_none());
}
