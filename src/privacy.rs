use vstd::prelude::*;
use crate::safety::views;
use crate::text::{has_substring, lower_of, lowercase, contains_text};

verus! {

/// A browser profile's privacy-relevant data.
#[derive(Debug, Clone)]
pub struct BrowserProfile {
    pub browser: BrowserType,
    pub profile_path: String,
    pub cookies_path: Option<String>,
    pub cookies_size: u64,
    pub history_path: Option<String>,
    pub history_size: u64,
    pub local_storage_path: Option<String>,
    pub local_storage_size: u64,
    pub cache_path: Option<String>,
    pub cache_size: u64,
    pub extensions_path: Option<String>,
    pub extensions_size: u64,
    pub total_size: u64,
}

#[derive(Debug, Clone, Copy, PartialEq, Eq, Structural)]
pub enum BrowserType {
    Chrome,
    ChromeCanary,
    Chromium,
    Brave,
    Edge,
    Firefox,
    Safari,
    Arc,
    Vivaldi,
    Opera,
}

/// The result of a privacy audit.
#[derive(Debug, Clone)]
pub struct PrivacyReport {
    pub browser_profiles: Vec<BrowserProfile>,
    pub tracking_apps: Vec<TrackingApp>,
    pub total_privacy_data_size: u64,
    pub total_tracking_files: usize,
    pub cookie_locations: Vec<CookieLocation>,
}

/// An application that keeps tracking or analytics data.
#[derive(Debug, Clone)]
pub struct TrackingApp {
    pub name: String,
    pub path: String,
    pub data_size: u64,
    pub kind: TrackingKind,
}

#[derive(Debug, Clone, Copy, PartialEq, Eq, Structural)]
pub enum TrackingKind {
    Cookies,
    HttpStorage,
    WebData,
    LocalDatabase,
    AnalyticsCache,
}

/// A place where cookies are stored.
#[derive(Debug, Clone)]
pub struct CookieLocation {
    pub path: String,
    pub app_name: String,
    pub size: u64,
}

/// Well-known tracking and analytics domains.
pub open spec fn known_trackers() -> Seq<Seq<char>> {
    seq![
        "doubleclick.net"@,
        "google-analytics.com"@,
        "googleadservices.com"@,
        "googlesyndication.com"@,
        "facebook.com"@,
        "facebook.net"@,
        "fbcdn.net"@,
        "analytics.twitter.com"@,
        "ads.twitter.com"@,
        "amazon-adsystem.com"@,
        "advertising.com"@,
        "adnxs.com"@,
        "adsrvr.org"@,
        "criteo.com"@,
        "criteo.net"@,
        "outbrain.com"@,
        "taboola.com"@,
        "hotjar.com"@,
        "mixpanel.com"@,
        "amplitude.com"@,
        "segment.com"@,
        "segment.io"@,
        "optimizely.com"@,
        "quantserve.com"@,
        "scorecardresearch.com"@,
        "chartbeat.com"@,
        "newrelic.com"@,
        "nr-data.net"@,
        "rubiconproject.com"@,
        "pubmatic.com"@,
        "openx.net"@,
        "casalemedia.com"@,
        "demdex.net"@,
        "bluekai.com"@,
        "krxd.net"@,
        "exelator.com"@,
        "turn.com"@,
        "mathtag.com"@,
        "rlcdn.com"@,
        "sharethis.com"@,
        "addthis.com"@,
        "appsflyer.com"@,
        "branch.io"@,
        "adjust.com"@,
        "mparticle.com"@,
        "braze.com"@,
        "tiktok.com"@,
        "bytedance.com"@,
        "snap.com"@,
        "snapchat.com"@,
    ]
}

fn tracker_list() -> (r: Vec<String>)
    ensures
        views(r@) == known_trackers(),
{
    let r = vec![
        String::from_str("doubleclick.net"),
        String::from_str("google-analytics.com"),
        String::from_str("googleadservices.com"),
        String::from_str("googlesyndication.com"),
        String::from_str("facebook.com"),
        String::from_str("facebook.net"),
        String::from_str("fbcdn.net"),
        String::from_str("analytics.twitter.com"),
        String::from_str("ads.twitter.com"),
        String::from_str("amazon-adsystem.com"),
        String::from_str("advertising.com"),
        String::from_str("adnxs.com"),
        String::from_str("adsrvr.org"),
        String::from_str("criteo.com"),
        String::from_str("criteo.net"),
        String::from_str("outbrain.com"),
        String::from_str("taboola.com"),
        String::from_str("hotjar.com"),
        String::from_str("mixpanel.com"),
        String::from_str("amplitude.com"),
        String::from_str("segment.com"),
        String::from_str("segment.io"),
        String::from_str("optimizely.com"),
        String::from_str("quantserve.com"),
        String::from_str("scorecardresearch.com"),
        String::from_str("chartbeat.com"),
        String::from_str("newrelic.com"),
        String::from_str("nr-data.net"),
        String::from_str("rubiconproject.com"),
        String::from_str("pubmatic.com"),
        String::from_str("openx.net"),
        String::from_str("casalemedia.com"),
        String::from_str("demdex.net"),
        String::from_str("bluekai.com"),
        String::from_str("krxd.net"),
        String::from_str("exelator.com"),
        String::from_str("turn.com"),
        String::from_str("mathtag.com"),
        String::from_str("rlcdn.com"),
        String::from_str("sharethis.com"),
        String::from_str("addthis.com"),
        String::from_str("appsflyer.com"),
        String::from_str("branch.io"),
        String::from_str("adjust.com"),
        String::from_str("mparticle.com"),
        String::from_str("braze.com"),
        String::from_str("tiktok.com"),
        String::from_str("bytedance.com"),
        String::from_str("snap.com"),
        String::from_str("snapchat.com"),
    ];
    assert(views(r@) =~= known_trackers());
    r
}

/// Whether the domain, ignoring case, contains a known tracker domain.
pub fn is_known_tracker(domain: &str) -> (r: bool)
    ensures
        r == exists|k: int| 0 <= k < known_trackers().len() && has_substring(lower_of(domain@), #[trigger] known_trackers()[k]),
{
    let lower = lowercase(domain);
    let list = tracker_list();
    let mut i: usize = 0;
    while i < list.len()
        invariant
            views(list@) == known_trackers(),
            lower@ == lower_of(domain@),
            forall|k: int| 0 <= k < i ==> !has_substring(lower_of(domain@), #[trigger] known_trackers()[k]),
        decreases list@.len() - i,
    {
        assert(views(list@)[i as int] == list@[i as int]@);
        if contains_text(lower.as_str(), list[i].as_str()) {
            return true;
        }
        i = i + 1;
    }
    false
}

/// Number of domains in the tracker list.
pub fn tracker_database_size() -> (r: usize)
    ensures
        r == known_trackers().len(),
{
    tracker_list().len()
}

/// What was found at one data location of a browser profile.
#[derive(Debug, Clone, Copy, PartialEq, Eq, Structural)]
pub struct Probe {
    pub exists: bool,
    pub size: u64,
}

/// The path when it exists.
pub fn exists_opt(path: &str, exists: bool) -> (r: Option<String>)
    ensures
        exists ==> (r matches Some(p) && p@ == path@),
        !exists ==> r is None,
{
    if exists { Some(String::from_str(path)) } else { None }
}

/// The data locations of a Chromium-based profile: cookies, history, local
/// storage, cache and extensions.
pub open spec fn chromium_parts() -> Seq<Seq<char>> {
    seq!["Cookies"@, "History"@, "Local Storage"@, "Cache"@, "Extensions"@]
}

/// The data locations of a Firefox profile, in the same order.
pub open spec fn firefox_parts() -> Seq<Seq<char>> {
    seq!["cookies.sqlite"@, "places.sqlite"@, "webappsstore.sqlite"@, "cache2"@, "extensions"@]
}

fn part_paths(dir: &str, a: &str, b: &str, c: &str, d: &str, e: &str) -> (r: Vec<String>)
    ensures
        r@.len() == 5,
        views(r@) == seq![a@, b@, c@, d@, e@].map_values(|n: Seq<char>| crate::safety::join_path(dir@, n)),
{
    let r = vec![
        crate::safety::join(dir, a), crate::safety::join(dir, b), crate::safety::join(dir, c),
        crate::safety::join(dir, d), crate::safety::join(dir, e),
    ];
    assert(views(r@) =~= seq![a@, b@, c@, d@, e@].map_values(|n: Seq<char>| crate::safety::join_path(dir@, n)));
    r
}

/// The five data paths of a Chromium-based profile.
pub fn chromium_paths(profile_dir: &str) -> (r: Vec<String>)
    ensures
        r@.len() == 5,
        views(r@) == chromium_parts().map_values(|n: Seq<char>| crate::safety::join_path(profile_dir@, n)),
{
    part_paths(profile_dir, "Cookies", "History", "Local Storage", "Cache", "Extensions")
}

/// The five data paths of a Firefox profile.
pub fn firefox_paths(profile_dir: &str) -> (r: Vec<String>)
    ensures
        r@.len() == 5,
        views(r@) == firefox_parts().map_values(|n: Seq<char>| crate::safety::join_path(profile_dir@, n)),
{
    part_paths(profile_dir, "cookies.sqlite", "places.sqlite", "webappsstore.sqlite", "cache2", "extensions")
}

/// Safari's data paths under home: cookies, history, local storage, cache.
pub fn safari_paths(home: &str) -> (r: Vec<String>)
    ensures
        r@.len() == 4,
        r@[0]@ == crate::safety::join_path(home@, "Library/Cookies/Cookies.binarycookies"@),
        r@[1]@ == crate::safety::join_path(home@, "Library/Safari/History.db"@),
        r@[2]@ == crate::safety::join_path(home@, "Library/Safari/LocalStorage"@),
        r@[3]@ == crate::safety::join_path(home@, "Library/Caches/com.apple.Safari"@),
{
    vec![
        crate::safety::join(home, "Library/Cookies/Cookies.binarycookies"),
        crate::safety::join(home, "Library/Safari/History.db"),
        crate::safety::join(home, "Library/Safari/LocalStorage"),
        crate::safety::join(home, "Library/Caches/com.apple.Safari"),
    ]
}

/// Sum of the probed sizes, capped at the largest `u64`.
pub open spec fn probe_total(p: Seq<Probe>) -> nat
    decreases p.len(),
{
    if p.len() == 0 { 0 } else { probe_total(p.drop_last()) + p.last().size as nat }
}

fn total_of(probes: &Vec<Probe>) -> (r: u64)
    ensures
        r as nat == (if probe_total(probes@) <= u64::MAX as nat { probe_total(probes@) } else { u64::MAX as nat }),
{
    let mut t: u64 = 0;
    let mut i: usize = 0;
    while i < probes.len()
        invariant
            i <= probes@.len(),
            t as nat == (if probe_total(probes@.subrange(0, i as int)) <= u64::MAX as nat { probe_total(probes@.subrange(0, i as int)) } else { u64::MAX as nat }),
        decreases probes@.len() - i,
    {
        assert(probes@.subrange(0, i + 1).drop_last() =~= probes@.subrange(0, i as int));
        t = t.saturating_add(probes[i].size);
        i = i + 1;
    }
    assert(probes@.subrange(0, probes@.len() as int) =~= probes@);
    t
}

/// `p` reports `probes` (cookies, history, local storage, cache and, when
/// `with_ext`, extensions) of the profile at `path`.
pub open spec fn profile_matches(p: BrowserProfile, browser: BrowserType, path: Seq<char>, probes: Seq<Probe>, with_ext: bool) -> bool {
    &&& p.browser == browser
    &&& p.profile_path@ == path
    &&& p.cookies_size == probes[0].size
    &&& p.history_size == probes[1].size
    &&& p.local_storage_size == probes[2].size
    &&& p.cache_size == probes[3].size
    &&& p.extensions_size == (if with_ext { probes[4].size } else { 0 })
    &&& p.total_size as nat == (if probe_total(probes) <= u64::MAX as nat { probe_total(probes) } else { u64::MAX as nat })
    &&& (p.cookies_path is Some <==> probes[0].exists)
    &&& (p.history_path is Some <==> probes[1].exists)
    &&& (p.local_storage_path is Some <==> probes[2].exists)
    &&& (p.cache_path is Some <==> probes[3].exists)
    &&& (p.extensions_path is Some <==> (with_ext && probes[4].exists))
}

/// A browser profile from its data paths and what was found there (cookies,
/// history, local storage, cache and, when there are five, extensions). A
/// profile holding nothing is not reported.
pub fn profile_from(browser: BrowserType, profile_path: &str, paths: &Vec<String>, probes: &Vec<Probe>) -> (r: Option<BrowserProfile>)
    requires
        paths@.len() == probes@.len(),
        4 <= paths@.len() <= 5,
    ensures
        r is None <==> probe_total(probes@) == 0,
        r matches Some(p) ==> profile_matches(p, browser, profile_path@, probes@, paths@.len() == 5),
{
    let total = total_of(probes);
    if total == 0 {
        return None;
    }
    let (ext_path, ext_size) = if paths.len() == 5 {
        (exists_opt(paths[4].as_str(), probes[4].exists), probes[4].size)
    } else {
        (None, 0)
    };
    Some(BrowserProfile {
        browser,
        profile_path: String::from_str(profile_path),
        cookies_path: exists_opt(paths[0].as_str(), probes[0].exists),
        cookies_size: probes[0].size,
        history_path: exists_opt(paths[1].as_str(), probes[1].exists),
        history_size: probes[1].size,
        local_storage_path: exists_opt(paths[2].as_str(), probes[2].exists),
        local_storage_size: probes[2].size,
        cache_path: exists_opt(paths[3].as_str(), probes[3].exists),
        cache_size: probes[3].size,
        extensions_path: ext_path,
        extensions_size: ext_size,
        total_size: total,
    })
}

/// A Chromium-based profile from what was found at its `chromium_paths`.
pub fn scan_chromium_profile(profile_dir: &str, browser: BrowserType, probes: &Vec<Probe>) -> (r: Option<BrowserProfile>)
    requires
        probes@.len() == 5,
    ensures
        r is None <==> probe_total(probes@) == 0,
        r matches Some(p) ==> profile_matches(p, browser, profile_dir@, probes@, true),
{
    let paths = chromium_paths(profile_dir);
    profile_from(browser, profile_dir, &paths, probes)
}

/// A Firefox profile from what was found at its `firefox_paths`.
pub fn scan_firefox_profile(profile_dir: &str, probes: &Vec<Probe>) -> (r: Option<BrowserProfile>)
    requires
        probes@.len() == 5,
    ensures
        r is None <==> probe_total(probes@) == 0,
        r matches Some(p) ==> profile_matches(p, BrowserType::Firefox, profile_dir@, probes@, true),
{
    let paths = firefox_paths(profile_dir);
    profile_from(BrowserType::Firefox, profile_dir, &paths, probes)
}

/// Safari's data from what was found at its `safari_paths`.
pub fn scan_safari(home: &str, probes: &Vec<Probe>) -> (r: Option<BrowserProfile>)
    requires
        probes@.len() == 4,
    ensures
        r is None <==> probe_total(probes@) == 0,
        r matches Some(p) ==> profile_matches(p, BrowserType::Safari, crate::safety::join_path(home@, "Library/Safari"@), probes@, false),
{
    let paths = safari_paths(home);
    let dir = crate::safety::join(home, "Library/Safari");
    profile_from(BrowserType::Safari, dir.as_str(), &paths, probes)
}

/// The display name of a value of `BrowserType`.
pub open spec fn browser_text(k: BrowserType) -> Seq<char> {
    match k {
        BrowserType::Chrome => "Google Chrome"@,
        BrowserType::ChromeCanary => "Chrome Canary"@,
        BrowserType::Chromium => "Chromium"@,
        BrowserType::Brave => "Brave"@,
        BrowserType::Edge => "Microsoft Edge"@,
        BrowserType::Firefox => "Firefox"@,
        BrowserType::Safari => "Safari"@,
        BrowserType::Arc => "Arc"@,
        BrowserType::Vivaldi => "Vivaldi"@,
        BrowserType::Opera => "Opera"@,
    }
}

/// The display name of a value of `BrowserType`.
pub fn browser_label(k: BrowserType) -> (r: String)
    ensures
        r@ == browser_text(k),
{
    match k {
        BrowserType::Chrome => String::from_str("Google Chrome"),
        BrowserType::ChromeCanary => String::from_str("Chrome Canary"),
        BrowserType::Chromium => String::from_str("Chromium"),
        BrowserType::Brave => String::from_str("Brave"),
        BrowserType::Edge => String::from_str("Microsoft Edge"),
        BrowserType::Firefox => String::from_str("Firefox"),
        BrowserType::Safari => String::from_str("Safari"),
        BrowserType::Arc => String::from_str("Arc"),
        BrowserType::Vivaldi => String::from_str("Vivaldi"),
        BrowserType::Opera => String::from_str("Opera"),
    }
}

/// The display name of a value of `TrackingKind`.
pub open spec fn tracking_kind_text(k: TrackingKind) -> Seq<char> {
    match k {
        TrackingKind::Cookies => "Cookies"@,
        TrackingKind::HttpStorage => "HTTP Storage"@,
        TrackingKind::WebData => "Web Data"@,
        TrackingKind::LocalDatabase => "Local Database"@,
        TrackingKind::AnalyticsCache => "Analytics Cache"@,
    }
}

/// The display name of a value of `TrackingKind`.
pub fn tracking_kind_label(k: TrackingKind) -> (r: String)
    ensures
        r@ == tracking_kind_text(k),
{
    match k {
        TrackingKind::Cookies => String::from_str("Cookies"),
        TrackingKind::HttpStorage => String::from_str("HTTP Storage"),
        TrackingKind::WebData => String::from_str("Web Data"),
        TrackingKind::LocalDatabase => String::from_str("Local Database"),
        TrackingKind::AnalyticsCache => String::from_str("Analytics Cache"),
    }
}

} // verus!
