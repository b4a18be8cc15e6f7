use status_page::checks::{
    probe_plan,
    aggregate_status, check_frkn_nodes, checkable_nodes, fetch_probe_status, online_count,
    port_probe_status, FrknAggregateStatus, FrknNodeStatus, Probe, API_HOSTNAME,
};
use status_page::i18n::Lang;
use status_page::network::{FrknInbound, FrknNode};
use status_page::services::ServiceStatus::{self, Error, Offline, Online};

fn node(hostname: &str, node_type: &str, ports: &[u16]) -> FrknNode {
    FrknNode {
        hostname: hostname.to_string(),
        address: format!("addr-{hostname}"),
        label: format!("label-{hostname}"),
        country: "NL".to_string(),
        api_status: "Online".to_string(),
        node_type: node_type.to_string(),
        inbounds: ports
            .iter()
            .map(|p| FrknInbound { tag: format!("tag{p}"), port: *p })
            .collect(),
    }
}

fn status(hostname: &str, s: ServiceStatus) -> FrknNodeStatus {
    FrknNodeStatus {
        label: String::new(),
        hostname: hostname.to_string(),
        address: String::new(),
        country: String::new(),
        api_status: String::new(),
        node_type: String::new(),
        browser_status: s,
        latency_ms: None,
        inbounds: vec![],
    }
}

#[test]
fn probe_outcomes() {
    assert_eq!(fetch_probe_status(Some(0)), (Online, Some(1)));
    assert_eq!(fetch_probe_status(Some(120)), (Online, Some(120)));
    assert_eq!(fetch_probe_status(None), (Offline, None));
    assert_eq!(port_probe_status(false, true, 50), (Error, None));
    assert_eq!(port_probe_status(true, true, 0), (Online, Some(1)));
    assert_eq!(port_probe_status(true, true, 35), (Online, Some(35)));
    assert_eq!(port_probe_status(true, false, 4000), (Offline, None));
}

#[test]
fn premium_nodes_are_not_checked() {
    let nodes = vec![node("a", "Node", &[]), node("p", "PremiumNode", &[]), node("b", "", &[])];
    let checked = checkable_nodes(&nodes);
    assert_eq!(checked.len(), 2);
    assert_eq!(checked[0].hostname, "a");
    assert_eq!(checked[1].hostname, "b");
}

#[test]
fn check_builds_statuses() {
    let nodes = vec![
        node("a", "Node", &[443, 8443]),
        node("p", "PremiumNode", &[443]),
        node("b", "Node", &[443]),
        node("c", "Node", &[]),
    ];
    let favicons: Vec<Probe> = vec![(Online, Some(90)), (Online, Some(70)), (Offline, None)];
    let ports: Vec<Vec<Probe>> = vec![
        vec![(Online, Some(40)), (Online, Some(25))],
        vec![(Offline, None)],
        vec![],
    ];
    let (aggregate, statuses) = check_frkn_nodes(&nodes, &favicons, &ports, (Online, Some(12)));
    assert_eq!(statuses.len(), 4);
    assert_eq!(statuses[0].hostname, "a");
    assert_eq!(statuses[0].label, "label-a");
    assert_eq!(statuses[0].browser_status, Online);
    assert_eq!(statuses[0].latency_ms, Some(25));
    assert_eq!(statuses[0].inbounds.len(), 2);
    assert_eq!(statuses[0].inbounds[1].tag, "tag8443");
    assert_eq!(statuses[0].inbounds[1].latency_ms, Some(25));
    assert_eq!(statuses[1].hostname, "b");
    assert_eq!(statuses[1].browser_status, Online);
    assert_eq!(statuses[1].latency_ms, Some(70));
    assert_eq!(statuses[1].inbounds[0].browser_status, Offline);
    assert_eq!(statuses[2].hostname, "c");
    assert_eq!(statuses[2].browser_status, Offline);
    assert_eq!(statuses[2].latency_ms, None);
    assert_eq!(statuses[3].hostname, API_HOSTNAME);
    assert_eq!(statuses[3].label, "API");
    assert_eq!(statuses[3].node_type, "API");
    assert_eq!(statuses[3].country, "");
    assert_eq!(statuses[3].latency_ms, Some(12));
    assert_eq!(aggregate, FrknAggregateStatus::Partial);
}

#[test]
fn inbound_online_without_latency_uses_favicon() {
    let nodes = vec![node("a", "Node", &[443])];
    let (_, statuses) = check_frkn_nodes(
        &nodes,
        &vec![(Offline, Some(55))],
        &vec![vec![(Online, None)]],
        (Offline, None),
    );
    assert_eq!(statuses[0].browser_status, Online);
    assert_eq!(statuses[0].latency_ms, Some(55));
}

#[test]
fn all_online_and_all_offline() {
    let nodes = vec![node("a", "Node", &[443])];
    let (aggregate, _) =
        check_frkn_nodes(&nodes, &vec![(Offline, None)], &vec![vec![(Online, Some(5))]], (Online, Some(1)));
    assert_eq!(aggregate, FrknAggregateStatus::AllOnline);
    let (aggregate, statuses) =
        check_frkn_nodes(&nodes, &vec![(Offline, None)], &vec![vec![(Error, None)]], (Offline, None));
    assert_eq!(aggregate, FrknAggregateStatus::AllOffline);
    assert_eq!(statuses.len(), 2);
    let (aggregate, statuses) = check_frkn_nodes(&[], &vec![], &vec![], (Online, Some(3)));
    assert_eq!(aggregate, FrknAggregateStatus::AllOnline);
    assert_eq!(statuses.len(), 1);
}

#[test]
fn aggregate_of_statuses() {
    assert_eq!(aggregate_status(&vec![]), FrknAggregateStatus::AllOffline);
    let mixed = vec![status("a", Online), status("b", Offline), status("c", ServiceStatus::Checking)];
    assert_eq!(online_count(&mixed), 1);
    assert_eq!(aggregate_status(&mixed), FrknAggregateStatus::Partial);
    assert_eq!(aggregate_status(&vec![status("a", Online)]), FrknAggregateStatus::AllOnline);
    assert_eq!(aggregate_status(&vec![status("a", Error)]), FrknAggregateStatus::AllOffline);
}

#[test]
fn aggregate_labels_and_classes() {
    assert_eq!(FrknAggregateStatus::AllOnline.label_for(Lang::Ru), "Все доступны");
    assert_eq!(FrknAggregateStatus::Partial.label_for(Lang::En), "Partially available");
    assert_eq!(FrknAggregateStatus::AllOffline.label_for(Lang::En), "Unavailable");
    assert_eq!(FrknAggregateStatus::Error.label_for(Lang::Ru), "Не удалось загрузить");
    assert_eq!(FrknAggregateStatus::AllOnline.color_class(), "text-emerald-400");
    assert_eq!(FrknAggregateStatus::Partial.color_class(), "text-yellow-400");
    assert_eq!(FrknAggregateStatus::AllOffline.color_class(), "text-rose-400");
    assert_eq!(FrknAggregateStatus::Error.color_class(), "text-orange-400");
    assert_eq!(FrknAggregateStatus::AllOnline.bg_class(), "bg-emerald-500/[0.08] border-emerald-500/30");
    assert_eq!(FrknAggregateStatus::Error.bg_class(), "bg-orange-500/[0.08] border-orange-500/30");
}

#[test]
fn status_copy_keeps_everything() {
    let mut s = status("x", Online);
    s.inbounds.push(status_page::checks::FrknInboundStatus {
        tag: "t".to_string(),
        port: 1,
        browser_status: Offline,
        latency_ms: Some(4),
    });
    let d = s.duplicate();
    assert_eq!(d.hostname, "x");
    assert_eq!(d.inbounds.len(), 1);
    assert_eq!(d.inbounds[0].latency_ms, Some(4));
}

#[test]
fn probes_planned_for_public_servers() {
    let nodes = vec![
        node("nl1.frkn.org", "Node", &[443, 8443]),
        node("vip.frkn.org", "PremiumNode", &[443]),
        node("de1.frkn.org", "Node", &[]),
    ];
    let plan = probe_plan(&nodes);
    assert_eq!(plan.favicon_urls, vec![
        "https://nl1.frkn.org/favicon.ico".to_string(),
        "https://de1.frkn.org/favicon.ico".to_string(),
    ]);
    assert_eq!(plan.port_urls.len(), 2);
    assert_eq!(plan.port_urls[0], vec![
        "wss://nl1.frkn.org:443/".to_string(),
        "wss://nl1.frkn.org:8443/".to_string(),
    ]);
    assert!(plan.port_urls[1].is_empty());
    assert_eq!(plan.api_url, "https://api.frkn.org/nodes");
}
