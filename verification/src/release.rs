//! Releases of linkup on GitHub and the asset that fits the running machine.
use vstd::prelude::*;
use vstd::string::StringExecFns;
use crate::text::{chars_of, contains, seq_contains, str_eq};
use crate::update::{digits_value, parse_unsigned, parses_within, unsigned_digits};

verus! {

/// A downloadable file of a release.
pub struct Asset {
    pub name: String,
    pub download_url: String,
}

impl Asset {
    /// A copy of the asset.
    pub fn duplicate(&self) -> (r: Asset)
        ensures
            r.name@ == self.name@,
            r.download_url@ == self.download_url@,
    {
        Asset { name: self.name.clone(), download_url: self.download_url.clone() }
    }
}

/// A release as GitHub lists it: its name is the version.
pub struct Release {
    pub version: String,
    pub assets: Vec<Asset>,
}

/// The part of an asset's name that marks the operating system `os`
/// (as `std::env::consts::OS` names it); `None` for systems linkup is not
/// released for.
pub open spec fn os_tag(os: Seq<char>) -> Option<Seq<char>> {
    if os == "macos"@ {
        Some("apple-darwin"@)
    } else if os == "linux"@ {
        Some("unknown-linux"@)
    } else {
        None
    }
}

/// An asset with this name is built for the system tag and the architecture.
pub open spec fn asset_fits(name: Seq<char>, tag: Seq<char>, arch: Seq<char>) -> bool {
    seq_contains(name, tag) && seq_contains(name, arch)
}

/// The index of the first asset at or after `i` that fits.
pub open spec fn first_fit_from(assets: Seq<Asset>, tag: Seq<char>, arch: Seq<char>, i: int) -> Option<int>
    decreases assets.len() - i,
{
    if i < 0 || i >= assets.len() {
        None
    } else if asset_fits(assets[i].name@, tag, arch) {
        Some(i)
    } else {
        first_fit_from(assets, tag, arch, i + 1)
    }
}

/// The index of the asset of `assets` for `os` and `arch`.
pub open spec fn asset_index(assets: Seq<Asset>, os: Seq<char>, arch: Seq<char>) -> Option<int> {
    match os_tag(os) {
        Some(tag) => first_fit_from(assets, tag, arch, 0),
        None => None,
    }
}

/// `r` is a copy of the asset that `asset_index` picks, or `None` with it.
pub open spec fn picks_asset(assets: Seq<Asset>, os: Seq<char>, arch: Seq<char>, r: Option<Asset>) -> bool {
    match asset_index(assets, os, arch) {
        Some(k) => r is Some && r->0.name@ == assets[k].name@ && r->0.download_url@ == assets[k].download_url@,
        None => r is None,
    }
}

proof fn lemma_first_fit(assets: Seq<Asset>, tag: Seq<char>, arch: Seq<char>, i: int, k: int)
    requires
        first_fit_from(assets, tag, arch, i) == Some(k),
    ensures
        i <= k < assets.len(),
        0 <= k,
        asset_fits(assets[k].name@, tag, arch),
        forall|m: int| i <= m < k ==> !asset_fits(#[trigger] assets[m].name@, tag, arch),
    decreases assets.len() - i,
{
    if 0 <= i < assets.len() && !asset_fits(assets[i].name@, tag, arch) {
        lemma_first_fit(assets, tag, arch, i + 1, k);
    }
}

proof fn lemma_no_fit(assets: Seq<Asset>, tag: Seq<char>, arch: Seq<char>, i: int)
    requires
        0 <= i,
        first_fit_from(assets, tag, arch, i) is None,
    ensures
        forall|m: int| i <= m < assets.len() ==> !asset_fits(#[trigger] assets[m].name@, tag, arch),
    decreases assets.len() - i,
{
    if i < assets.len() {
        lemma_no_fit(assets, tag, arch, i + 1);
    }
}

/// The asset picked for a Linux or macOS machine is the first whose name
/// holds the system's tag (`unknown-linux`, `apple-darwin`) and the
/// architecture; none is picked when no asset's name holds both, nor for any
/// other system.
pub proof fn lemma_asset_for_machine(assets: Seq<Asset>, os: Seq<char>, arch: Seq<char>, tag: Seq<char>)
    requires
        (os == "linux"@ && tag == "unknown-linux"@) || (os == "macos"@ && tag == "apple-darwin"@),
    ensures
        asset_index(assets, os, arch) matches Some(k) ==> 0 <= k < assets.len()
            && seq_contains(assets[k].name@, tag) && seq_contains(assets[k].name@, arch)
            && forall|m: int| 0 <= m < k ==> !(seq_contains(#[trigger] assets[m].name@, tag) && seq_contains(assets[m].name@, arch)),
        asset_index(assets, os, arch) is None ==>
            forall|m: int| 0 <= m < assets.len() ==> !(seq_contains(#[trigger] assets[m].name@, tag) && seq_contains(assets[m].name@, arch)),
{
    reveal_strlit("linux");
    reveal_strlit("macos");
    assert("linux"@ != "macos"@) by {
        assert("linux"@[0] != "macos"@[0]);
    }
    assert(os_tag(os) == Some(tag));
    match first_fit_from(assets, tag, arch, 0) {
        Some(k) => lemma_first_fit(assets, tag, arch, 0, k),
        None => lemma_no_fit(assets, tag, arch, 0),
    }
}

/// No asset is picked for a system other than Linux and macOS.
pub proof fn lemma_no_asset_for_other_systems(assets: Seq<Asset>, os: Seq<char>, arch: Seq<char>)
    requires
        os != "linux"@,
        os != "macos"@,
    ensures
        asset_index(assets, os, arch) is None,
{
}

impl Release {
    /// The asset of this release built for `os` and `arch`: the first whose
    /// name holds both the system's tag and the architecture.
    pub fn asset_for(&self, os: &str, arch: &str) -> (r: Option<Asset>)
        ensures
            picks_asset(self.assets@, os@, arch@, r),
    {
        let lookup_os = if str_eq(os, "macos") {
            "apple-darwin"
        } else if str_eq(os, "linux") {
            "unknown-linux"
        } else {
            return None;
        };
        let mut i: usize = 0;
        while i < self.assets.len()
            invariant
                i <= self.assets@.len(),
                os_tag(os@) == Some(lookup_os@),
                asset_index(self.assets@, os@, arch@) == first_fit_from(self.assets@, lookup_os@, arch@, i as int),
            decreases self.assets@.len() - i,
        {
            let asset = &self.assets[i];
            if contains(asset.name.as_str(), lookup_os) && contains(asset.name.as_str(), arch) {
                return Some(asset.duplicate());
            }
            i = i + 1;
        }
        None
    }

    /// The linkup binary of this release for `os` and `arch` (the same lookup
    /// as `asset_for`, under the name the release cache uses).
    pub fn linkup_asset(&self, os: &str, arch: &str) -> (r: Option<Asset>)
        ensures
            picks_asset(self.assets@, os@, arch@, r),
    {
        self.asset_for(os, arch)
    }
}


/// The release channel a version belongs to.
#[derive(PartialEq, Eq, Structural, Clone, Copy)]
pub enum VersionChannel {
    Stable,
    Beta,
}

/// A release of one channel, with the binary for the running machine.
pub struct ChannelRelease {
    pub channel: VersionChannel,
    pub version: String,
    pub binary: Asset,
}

/// The releases last fetched from GitHub, and when to fetch again.
pub struct CachedReleases {
    pub fetched_at: u64,
    pub next_fetch_at: u64,
    pub releases: Vec<ChannelRelease>,
}

/// The index of the first release of `channel`.
pub open spec fn first_of_channel(releases: Seq<ChannelRelease>, channel: VersionChannel, i: int) -> Option<int>
    decreases releases.len() - i,
{
    if i < 0 || i >= releases.len() {
        None
    } else if releases[i].channel == channel {
        Some(i)
    } else {
        first_of_channel(releases, channel, i + 1)
    }
}

/// Seconds in a day.
pub const SECONDS_IN_DAY: u64 = 86400;

/// The start of the next UTC day after `now` (in seconds since the epoch).
pub open spec fn next_morning(now: nat) -> int {
    now + (86400 - now % 86400)
}

/// The first second of the next UTC day, given the current time `now` in
/// seconds since the epoch.
pub fn next_morning_utc_seconds(now: u64) -> (r: u64)
    requires
        next_morning(now as nat) <= u64::MAX,
    ensures
        r == next_morning(now as nat),
        r > now,
        r % 86400 == 0,
{
    let seconds_since_midnight = now % SECONDS_IN_DAY;
    let r = now + (SECONDS_IN_DAY - seconds_since_midnight);
    assert(r % 86400 == 0) by (nonlinear_arith)
        requires
            r == now + (86400 - now % 86400),
    ;
    r
}

impl CachedReleases {
    /// A cache with no release, fetched at `now`, to be fetched again at `retry_at`.
    pub fn empty_with_retry(now: u64, retry_at: u64) -> (r: CachedReleases)
        ensures
            r.fetched_at == now,
            r.next_fetch_at == retry_at,
            r.releases@.len() == 0,
    {
        CachedReleases { fetched_at: now, next_fetch_at: retry_at, releases: Vec::new() }
    }

    /// The cache may still be used at `now`; past `next_fetch_at` it is
    /// deleted and fetched again.
    pub fn is_fresh(&self, now: u64) -> (r: bool)
        ensures
            r == (now <= self.next_fetch_at),
    {
        !(now > self.next_fetch_at)
    }

    /// The first cached release of `channel`.
    pub fn get_release(&self, channel: VersionChannel) -> (r: Option<&ChannelRelease>)
        ensures
            match first_of_channel(self.releases@, channel, 0) {
                Some(k) => r == Some(&self.releases@[k]),
                None => r is None,
            },
    {
        let mut i: usize = 0;
        while i < self.releases.len()
            invariant
                i <= self.releases@.len(),
                first_of_channel(self.releases@, channel, 0) == first_of_channel(self.releases@, channel, i as int),
            decreases self.releases@.len() - i,
        {
            if self.releases[i].channel == channel {
                return Some(&self.releases[i]);
            }
            i = i + 1;
        }
        None
    }
}

/// A cached latest release older than a day is dropped; `cached_at` and `now`
/// are seconds since the epoch, and the cache cannot be from the future
/// (subtracting the durations would panic).
pub fn latest_release_cache_expired(now: u64, cached_at: u64) -> (r: bool)
    requires
        cached_at <= now,
    ensures
        r == (now - cached_at > 86400),
{
    now - cached_at > SECONDS_IN_DAY
}

/// How fetching the releases failed: GitHub's rate limit, with the time (in
/// seconds since the epoch) it lifts at, or anything else.
pub enum FetchError {
    RateLimit(u64),
    Other,
}

/// When a rate-limited request to GitHub may be tried again: the time its
/// `x-ratelimit-reset` header gives where that is a `u64`, else the next
/// morning after `now`.
pub fn rate_limit_retry_at(reset_header: Option<&str>, now: u64) -> (r: u64)
    requires
        next_morning(now as nat) <= u64::MAX,
    ensures
        r == match reset_header {
            Some(h) => if parses_within(h@, u64::MAX as nat) {
                digits_value(unsigned_digits(h@)) as int
            } else {
                next_morning(now as nat)
            },
            None => next_morning(now as nat),
        },
{
    match reset_header {
        Some(h) => {
            let cs = chars_of(h);
            match parse_unsigned(&cs, u64::MAX) {
                Some(v) => v,
                None => next_morning_utc_seconds(now),
            }
        },
        None => next_morning_utc_seconds(now),
    }
}

/// The cache written after fetching the releases at `now`: what was fetched,
/// to be fetched again the next morning; after a rate limit nothing, until
/// the limit lifts; after any other failure nothing, until the next morning.
pub fn cache_after_fetch(now: u64, fetched: Result<Vec<ChannelRelease>, FetchError>) -> (r: CachedReleases)
    requires
        next_morning(now as nat) <= u64::MAX,
    ensures
        r.fetched_at == now,
        match fetched {
            Ok(v) => r.next_fetch_at == next_morning(now as nat) && r.releases == v,
            Err(FetchError::RateLimit(t)) => r.next_fetch_at == t && r.releases@.len() == 0,
            Err(FetchError::Other) => r.next_fetch_at == next_morning(now as nat) && r.releases@.len() == 0,
        },
{
    match fetched {
        Ok(releases) => CachedReleases { fetched_at: now, next_fetch_at: next_morning_utc_seconds(now), releases },
        Err(FetchError::RateLimit(retry_at)) => CachedReleases::empty_with_retry(now, retry_at),
        Err(FetchError::Other) => CachedReleases::empty_with_retry(now, next_morning_utc_seconds(now)),
    }
}

/// The release to update to: the first cached release of the requested
/// channel, or of the running version's channel when none is requested.
pub fn check_for_update(cache: &CachedReleases, requested: Option<VersionChannel>, current: VersionChannel) -> (r: Option<&ChannelRelease>)
    ensures
        ({
            let channel = match requested {
                Some(c) => c,
                None => current,
            };
            match first_of_channel(cache.releases@, channel, 0) {
                Some(k) => r == Some(&cache.releases@[k]),
                None => r is None,
            }
        }),
{
    let channel = match requested {
        Some(c) => c,
        None => current,
    };
    cache.get_release(channel)
}

} // verus!
