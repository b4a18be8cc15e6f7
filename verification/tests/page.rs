use status_page::checks::{FrknAggregateStatus, FrknNodeStatus, API_HOSTNAME};
use status_page::i18n::Lang;
use status_page::network::{FrknNode, IpInfo};
use status_page::page::{
    api_row_status, availability_text, inbound_caption, inbound_dot_class, server_list,
    toggle_text, vpn_badge, PageState, VpnBadge,
};
use status_page::services::ServiceStatus;
use status_page::urls::{next_speed_test_step, SpeedTestStep, SPEED_TEST_FAILED};
use status_page::urls::{
    cache_busted_url, favicon_url, http_error, port_probe_url, speed_test_urls, FRKN_NODES_URL,
};

fn status(hostname: &str, s: ServiceStatus) -> FrknNodeStatus {
    FrknNodeStatus {
        label: String::new(),
        hostname: hostname.to_string(),
        address: String::new(),
        country: String::new(),
        api_status: String::new(),
        node_type: String::new(),
        browser_status: s,
        latency_ms: None,
        inbounds: vec![],
    }
}

fn frkn_node(address: &str) -> FrknNode {
    FrknNode {
        hostname: "nl.frkn.org".to_string(),
        address: address.to_string(),
        label: String::new(),
        country: String::new(),
        api_status: String::new(),
        node_type: String::new(),
        inbounds: vec![],
    }
}

fn ip(ip: &str, org: &str) -> IpInfo {
    IpInfo { ip: ip.to_string(), org: org.to_string(), ..IpInfo::default() }
}

#[test]
fn round_with_frkn_address() {
    let mut page = PageState::new();
    assert!(page.loading && page.frkn_loading);
    page.start_checks();
    let pending = page.apply_lookups(Ok(ip("5.5.5.5", "Home ISP")), Ok(vec![frkn_node("5.5.5.5")]));
    assert!(pending.vpn_detected);
    assert!(page.is_frkn_vpn);
    assert_eq!(pending.nodes.as_ref().unwrap().len(), 1);
    page.finish_checks(pending.vpn_detected, Some((FrknAggregateStatus::AllOnline, vec![status(API_HOSTNAME, ServiceStatus::Online)])));
    assert!(page.is_vpn);
    assert!(!page.loading && !page.frkn_loading);
    assert_eq!(page.frkn_aggregate, FrknAggregateStatus::AllOnline);
    assert_eq!(page.frkn_nodes.len(), 1);
    assert!(page.error.is_none());
}

#[test]
fn round_with_hosting_provider() {
    let mut page = PageState::new();
    let pending = page.apply_lookups(Ok(ip("6.6.6.6", "Hetzner Online")), Ok(vec![frkn_node("7.7.7.7")]));
    assert!(pending.vpn_detected);
    assert!(!page.is_frkn_vpn);
}

#[test]
fn round_with_failures() {
    let mut page = PageState::new();
    page.apply_lookups(Ok(ip("5.5.5.5", "Home")), Err("x".to_string()));
    page.start_checks();
    let pending = page.apply_lookups(Err("timeout".to_string()), Err("HTTP 502".to_string()));
    assert!(!pending.vpn_detected);
    assert!(pending.nodes.is_none());
    assert_eq!(page.error.as_deref(), Some("Не удалось определить IP: timeout"));
    assert_eq!(page.ip_info.as_ref().unwrap().ip, "5.5.5.5");
    assert_eq!(page.frkn_aggregate, FrknAggregateStatus::Error);
    page.finish_checks(pending.vpn_detected, None);
    assert!(!page.is_vpn);
    assert!(!page.loading);
}

#[test]
fn stale_address_still_compared() {
    let mut page = PageState::new();
    page.apply_lookups(Ok(ip("5.5.5.5", "Home")), Err("x".to_string()));
    let pending = page.apply_lookups(Err("down".to_string()), Ok(vec![frkn_node("5.5.5.5")]));
    assert!(pending.vpn_detected);
    assert!(page.is_frkn_vpn);
}

#[test]
fn availability_counts() {
    let list = vec![
        status("a", ServiceStatus::Online),
        status("b", ServiceStatus::Offline),
        status(API_HOSTNAME, ServiceStatus::Online),
    ];
    assert_eq!(availability_text(Lang::Ru, &list, false).unwrap(), "2 из 3 доступны");
    assert_eq!(availability_text(Lang::En, &list, false).unwrap(), "2 of 3 available");
    assert!(availability_text(Lang::En, &list, true).is_none());
    assert!(availability_text(Lang::En, &vec![], false).is_none());
}

#[test]
fn toggle_labels() {
    assert_eq!(toggle_text(Lang::En, false, 12), "Show 12 servers");
    assert_eq!(toggle_text(Lang::Ru, false, 0), "Показать 0 серверов");
    assert_eq!(toggle_text(Lang::Ru, true, 12), "Скрыть");
}

#[test]
fn api_row_and_list() {
    let list = vec![
        status("a", ServiceStatus::Online),
        status(API_HOSTNAME, ServiceStatus::Offline),
        status("b", ServiceStatus::Error),
    ];
    assert_eq!(api_row_status(&list), ServiceStatus::Offline);
    assert_eq!(api_row_status(&vec![]), ServiceStatus::Checking);
    let shown = server_list(&list);
    assert_eq!(shown.len(), 2);
    assert_eq!(shown[0].hostname, "a");
    assert_eq!(shown[1].hostname, "b");
}

#[test]
fn badges_and_dots() {
    assert_eq!(vpn_badge(true, true), VpnBadge::Frkn);
    assert_eq!(vpn_badge(false, true), VpnBadge::Protected);
    assert_eq!(vpn_badge(false, false), VpnBadge::EnableVpn);
    assert_eq!(inbound_dot_class(ServiceStatus::Online), "bg-emerald-400");
    assert_eq!(inbound_dot_class(ServiceStatus::Error), "bg-rose-400");
    assert_eq!(inbound_caption("vless", 443), "vless:443");
}

#[test]
fn addresses() {
    assert_eq!(FRKN_NODES_URL, "https://api.frkn.org/nodes");
    assert_eq!(cache_busted_url(FRKN_NODES_URL, 1700000000123), "https://api.frkn.org/nodes?t=1700000000123");
    assert_eq!(favicon_url("nl1.frkn.org"), "https://nl1.frkn.org/favicon.ico");
    assert_eq!(port_probe_url("nl1.frkn.org", 8443), "wss://nl1.frkn.org:8443/");
    assert_eq!(http_error(404), "HTTP 404");
    let urls = speed_test_urls(42);
    assert_eq!(urls.len(), 6);
    assert_eq!(urls[0], "https://status.frkn.org/speedtest/10mb.test?cb=42");
    assert_eq!(urls[2], "https://cachefly.cachefly.net/10mb.test?cb=42");
    assert_eq!(urls[3], "https://status.frkn.org/speedtest/1mb.test?cb=42");
    assert_eq!(urls[5], "https://cachefly.cachefly.net/1mb.test?cb=42");
}

#[test]
fn speed_test_steps() {
    match next_speed_test_step(7, 0, false) {
        SpeedTestStep::Download(url) => assert_eq!(url, "https://status.frkn.org/speedtest/10mb.test?cb=7"),
        other => panic!("unexpected {other:?}"),
    }
    match next_speed_test_step(7, 4, false) {
        SpeedTestStep::Download(url) => assert_eq!(url, "https://proof.ovh.net/files/1Mb.dat?cb=7"),
        other => panic!("unexpected {other:?}"),
    }
    assert!(matches!(next_speed_test_step(7, 1, true), SpeedTestStep::Finished));
    match next_speed_test_step(7, 6, false) {
        SpeedTestStep::AllFailed(e) => assert_eq!(e, SPEED_TEST_FAILED),
        other => panic!("unexpected {other:?}"),
    }
}
