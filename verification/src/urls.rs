//! The addresses the page talks to, and the messages of failed requests.
use vstd::prelude::*;

use crate::text::{decimal, decimal_string};

verus! {

/// The FRKN API's list of servers; also the endpoint probed for the API's
/// own availability.
pub const FRKN_NODES_URL: &'static str = "https://api.frkn.org/nodes";

/// IP geolocation services, in order of preference.
pub const IPAPI_URL: &'static str = "https://ipapi.co/json/";

pub const IPWHOIS_URL: &'static str = "https://ipwho.is/";

pub const IPINFO_URL: &'static str = "https://ipinfo.io/json";

/// How long a reachability probe waits, in milliseconds.
pub const PROBE_TIMEOUT_MS: u32 = 4000;

/// How long one speed-test download may take, in milliseconds.
pub const SPEED_TEST_TIMEOUT_MS: u32 = 15000;

/// Error text when every speed-test mirror failed.
pub const SPEED_TEST_FAILED: &'static str = "Не удалось измерить скорость ни на одном из зеркал";

/// `url` with a `t` query parameter that defeats caches.
pub open spec fn cache_busted(url: Seq<char>, t: nat) -> Seq<char> {
    url + "?t="@ + decimal(t)
}

/// `url?t=<t>`.
pub fn cache_busted_url(url: &str, t: u64) -> (r: String)
    ensures
        r@ == cache_busted(url@, t as nat),
{
    let mut out = String::from_str(url);
    out.append("?t=");
    let digits = decimal_string(t);
    out.append(digits.as_str());
    out
}

/// The favicon of a server, fetched to see whether its web server answers.
pub open spec fn favicon_url_of(hostname: Seq<char>) -> Seq<char> {
    "https://"@ + hostname + "/favicon.ico"@
}

/// `https://<hostname>/favicon.ico`.
pub fn favicon_url(hostname: &str) -> (r: String)
    ensures
        r@ == favicon_url_of(hostname@),
{
    let mut out = String::from_str("https://");
    out.append(hostname);
    out.append("/favicon.ico");
    out
}

/// The WebSocket address used to see whether an inbound port answers.
pub open spec fn port_probe_url_of(hostname: Seq<char>, port: u16) -> Seq<char> {
    "wss://"@ + hostname + ":"@ + decimal(port as nat) + "/"@
}

/// `wss://<hostname>:<port>/`.
pub fn port_probe_url(hostname: &str, port: u16) -> (r: String)
    ensures
        r@ == port_probe_url_of(hostname@, port),
{
    let mut out = String::from_str("wss://");
    out.append(hostname);
    out.append(":");
    let digits = decimal_string(port as u64);
    out.append(digits.as_str());
    out.append("/");
    out
}

/// The speed-test files, without their cache-busting value: FRKN's own
/// 10 MB file first, then two public mirrors, then the same three at 1 MB.
pub open spec fn speed_test_bases() -> Seq<Seq<char>> {
    seq![
        "https://status.frkn.org/speedtest/10mb.test?cb="@,
        "https://proof.ovh.net/files/10Mb.dat?cb="@,
        "https://cachefly.cachefly.net/10mb.test?cb="@,
        "https://status.frkn.org/speedtest/1mb.test?cb="@,
        "https://proof.ovh.net/files/1Mb.dat?cb="@,
        "https://cachefly.cachefly.net/1mb.test?cb="@,
    ]
}

/// The speed-test downloads in the order they are tried, each made unique by
/// `timestamp` so that no cache answers.
pub fn speed_test_urls(timestamp: u64) -> (r: Vec<String>)
    ensures
        r@.len() == speed_test_bases().len(),
        forall|i: int|
            0 <= i < r@.len() ==> #[trigger] r@[i]@ == speed_test_bases()[i] + decimal(
                timestamp as nat,
            ),
{
    let bases: Vec<&'static str> = vec![
        "https://status.frkn.org/speedtest/10mb.test?cb=",
        "https://proof.ovh.net/files/10Mb.dat?cb=",
        "https://cachefly.cachefly.net/10mb.test?cb=",
        "https://status.frkn.org/speedtest/1mb.test?cb=",
        "https://proof.ovh.net/files/1Mb.dat?cb=",
        "https://cachefly.cachefly.net/1mb.test?cb=",
    ];
    assert(bases@.map_values(|b: &str| b@) =~= speed_test_bases());
    let digits = decimal_string(timestamp);
    let n = bases.len();
    let mut out: Vec<String> = Vec::new();
    let mut i: usize = 0;
    while i < n
        invariant
            n == bases@.len(),
            bases@.map_values(|b: &str| b@) == speed_test_bases(),
            digits@ == decimal(timestamp as nat),
            i <= n,
            out@.len() == i,
            forall|j: int|
                0 <= j < i ==> #[trigger] out@[j]@ == speed_test_bases()[j] + decimal(
                    timestamp as nat,
                ),
        decreases n - i,
    {
        let mut url = String::from_str(bases[i]);
        url.append(digits.as_str());
        assert(speed_test_bases()[i as int] == bases@[i as int]@);
        out.push(url);
        i = i + 1;
    }
    out
}

/// The error text of an HTTP answer that is not a success.
pub open spec fn http_error_of(status: u16) -> Seq<char> {
    "HTTP "@ + decimal(status as nat)
}

/// `HTTP <status>`.
pub fn http_error(status: u16) -> (r: String)
    ensures
        r@ == http_error_of(status),
{
    let mut out = String::from_str("HTTP ");
    let digits = decimal_string(status as u64);
    out.append(digits.as_str());
    out
}

/// What the speed test does next.
#[derive(Debug)]
pub enum SpeedTestStep {
    /// Download this file and time it.
    Download(String),
    /// The last download succeeded: its rate is the result.
    Finished,
    /// Every file failed: report this error.
    AllFailed(String),
}

/// The next step of the speed test after `attempts` downloads, the last of
/// which succeeded or not (none yet counts as not): stop at the first
/// success; else try the next file in order; after the last file, fail.
pub fn next_speed_test_step(timestamp: u64, attempts: usize, last_succeeded: bool) -> (r:
    SpeedTestStep)
    ensures
        last_succeeded ==> r is Finished,
        !last_succeeded && attempts < speed_test_bases().len() ==> (r matches SpeedTestStep::Download(
            url,
        ) && url@ == speed_test_bases()[attempts as int] + decimal(timestamp as nat)),
        !last_succeeded && attempts >= speed_test_bases().len() ==> (r matches SpeedTestStep::AllFailed(
            e,
        ) && e@ == SPEED_TEST_FAILED@),
{
    if last_succeeded {
        return SpeedTestStep::Finished;
    }
    let mut urls = speed_test_urls(timestamp);
    if attempts < urls.len() {
        let url = urls.swap_remove(attempts);
        SpeedTestStep::Download(url)
    } else {
        SpeedTestStep::AllFailed(String::from_str(SPEED_TEST_FAILED))
    }
}

} // verus!
