use status_page::json::JsonValue;
use status_page::network::{
    detect_vpn, ip_info_from_ipapi, ip_info_from_ipinfo, ip_info_from_ipwhois, is_frkn_ip,
    matches_vpn_keyword, merge_ip_info, nodes_from_json, FrknInbound, FrknNode, IpInfo,
    INVALID_NODES_RESPONSE, NO_IP_SERVICE_ANSWERED,
};

fn s(text: &str) -> JsonValue {
    JsonValue::Str(text.to_string())
}

fn obj(members: Vec<(&str, JsonValue)>) -> JsonValue {
    JsonValue::Object(members.into_iter().map(|(k, v)| (k.to_string(), v)).collect())
}

fn info(ip: &str, org: &str, asn: &str, flag: bool) -> IpInfo {
    IpInfo {
        ip: ip.to_string(),
        org: org.to_string(),
        asn: asn.to_string(),
        vpn_flag: flag,
        ..IpInfo::default()
    }
}

fn node(hostname: &str, address: &str, node_type: &str) -> FrknNode {
    FrknNode {
        hostname: hostname.to_string(),
        address: address.to_string(),
        label: String::new(),
        country: String::new(),
        api_status: "Online".to_string(),
        node_type: node_type.to_string(),
        inbounds: vec![FrknInbound { tag: "vless".to_string(), port: 443 }],
    }
}

#[test]
fn ipapi_answer() {
    let json = obj(vec![
        ("ip", s("1.2.3.4")),
        ("city", s("Amsterdam")),
        ("region", s("North Holland")),
        ("country_name", s("Netherlands")),
        ("country_code", s("NL")),
        ("org", s("Example BV")),
        ("asn", s("AS64500")),
        ("threat", obj(vec![("is_proxy", JsonValue::Bool(true)), ("is_vpn", JsonValue::Bool(false))])),
    ]);
    let i = ip_info_from_ipapi(&json);
    assert_eq!(i.ip, "1.2.3.4");
    assert_eq!(i.city, "Amsterdam");
    assert_eq!(i.region, "North Holland");
    assert_eq!(i.country_name, "Netherlands");
    assert_eq!(i.country_code, "NL");
    assert_eq!(i.org, "Example BV");
    assert_eq!(i.asn, "AS64500");
    assert!(i.vpn_flag);
}

#[test]
fn ipapi_missing_fields_are_empty() {
    let json = obj(vec![("ip", s("5.6.7.8")), ("city", JsonValue::Number(Some(3)))]);
    let i = ip_info_from_ipapi(&json);
    assert_eq!(i.ip, "5.6.7.8");
    assert_eq!(i.city, "");
    assert_eq!(i.org, "");
    assert!(!i.vpn_flag);
    let i = ip_info_from_ipapi(&JsonValue::Null);
    assert_eq!(i.ip, "");
}

#[test]
fn ipwhois_answer() {
    let json = obj(vec![
        ("ip", s("9.9.9.9")),
        ("country", s("Germany")),
        ("country_code", s("DE")),
        ("org", s("Fallback Org")),
        ("connection", obj(vec![("asn", s("24940"))])),
        ("security", obj(vec![("datacenter", JsonValue::Bool(true))])),
    ]);
    let i = ip_info_from_ipwhois(&json);
    assert_eq!(i.country_name, "Germany");
    assert_eq!(i.country_code, "DE");
    assert_eq!(i.org, "Fallback Org");
    assert_eq!(i.asn, "24940");
    assert!(i.vpn_flag);
    let json = obj(vec![("connection", obj(vec![("org", s("Hetzner"))])), ("org", s("Other"))]);
    let i = ip_info_from_ipwhois(&json);
    assert_eq!(i.org, "Hetzner");
    assert_eq!(i.asn, "");
    assert!(!i.vpn_flag);
}

#[test]
fn ipinfo_answer() {
    let json = obj(vec![
        ("ip", s("8.8.8.8")),
        ("country", s("US")),
        ("org", s("AS15169 Google LLC")),
        ("privacy", obj(vec![("hosting", JsonValue::Bool(true))])),
    ]);
    let i = ip_info_from_ipinfo(&json);
    assert_eq!(i.country_name, "US");
    assert_eq!(i.country_code, "US");
    assert_eq!(i.asn, "AS15169 Google LLC");
    assert!(i.vpn_flag);
    let json = obj(vec![("asn", s("AS1")), ("org", s("Org"))]);
    assert_eq!(ip_info_from_ipinfo(&json).asn, "AS1");
}

#[test]
fn nodes_from_api_answer() {
    let json = obj(vec![(
        "response",
        JsonValue::Array(vec![
            obj(vec![
                ("hostname", s("nl1.frkn.org")),
                ("address", s("10.0.0.1")),
                ("label", s("Netherlands 1")),
                ("country", s("NL")),
                ("status", s("Online")),
                ("type", s("Node")),
                (
                    "inbounds",
                    JsonValue::Array(vec![
                        obj(vec![("tag", s("vless")), ("port", JsonValue::Number(Some(443)))]),
                        obj(vec![("tag", s("bad"))]),
                        obj(vec![("tag", s("wide")), ("port", JsonValue::Number(Some(70000)))]),
                        obj(vec![("tag", s("neg")), ("port", JsonValue::Number(None))]),
                    ]),
                ),
            ]),
            obj(vec![("hostname", s("no-address.frkn.org"))]),
            obj(vec![("hostname", s("de1.frkn.org")), ("address", s("10.0.0.2"))]),
            s("not a node"),
        ]),
    )]);
    let nodes = nodes_from_json(&json).unwrap();
    assert_eq!(nodes.len(), 2);
    assert_eq!(nodes[0].hostname, "nl1.frkn.org");
    assert_eq!(nodes[0].label, "Netherlands 1");
    assert_eq!(nodes[0].api_status, "Online");
    assert_eq!(nodes[0].node_type, "Node");
    assert_eq!(nodes[0].inbounds.len(), 2);
    assert_eq!(nodes[0].inbounds[0].tag, "vless");
    assert_eq!(nodes[0].inbounds[0].port, 443);
    assert_eq!(nodes[0].inbounds[1].port, 70000u64 as u16);
    assert_eq!(nodes[1].hostname, "de1.frkn.org");
    assert_eq!(nodes[1].api_status, "Unknown");
    assert_eq!(nodes[1].label, "");
    assert!(nodes[1].inbounds.is_empty());
}

#[test]
fn nodes_answer_without_array() {
    let err = nodes_from_json(&obj(vec![("response", s("oops"))])).unwrap_err();
    assert_eq!(err, INVALID_NODES_RESPONSE);
    assert_eq!(err, "invalid response format");
    assert!(nodes_from_json(&JsonValue::Array(vec![])).is_err());
    assert_eq!(nodes_from_json(&obj(vec![("response", JsonValue::Array(vec![]))])).unwrap().len(), 0);
}

#[test]
fn frkn_address_match() {
    let nodes = vec![node("a.frkn.org", "1.1.1.1", "Node"), node("b.frkn.org", "2.2.2.2", "Node")];
    assert!(is_frkn_ip("2.2.2.2", &nodes));
    assert!(!is_frkn_ip("3.3.3.3", &nodes));
    assert!(!is_frkn_ip("1.1.1.1", &[]));
}

#[test]
fn vpn_heuristic() {
    assert!(detect_vpn(&info("1.1.1.1", "Hetzner Online GmbH", "", false)));
    assert!(detect_vpn(&info("1.1.1.1", "", "AS9009 M247 Ltd", false)));
    assert!(detect_vpn(&info("1.1.1.1", "Rostelecom", "AS12389", true)));
    assert!(!detect_vpn(&info("1.1.1.1", "Rostelecom", "AS12389", false)));
    assert!(detect_vpn(&info("1.1.1.1", "MULLVAD VPN AB", "", false)));
}

#[test]
fn vpn_keywords_on_lowercase_names() {
    assert!(matches_vpn_keyword("digitalocean, llc", ""));
    assert!(matches_vpn_keyword("", "as16276 ovh sas"));
    assert!(!matches_vpn_keyword("DIGITALOCEAN", "home isp"));
    assert!(!matches_vpn_keyword("", ""));
}

#[test]
fn merge_takes_first_answer_and_any_vpn() {
    let sources = vec![
        Err("ipapi down".to_string()),
        Ok(info("4.4.4.4", "Home ISP", "AS1", false)),
        Ok(info("4.4.4.4", "Amazon.com", "AS16509", false)),
    ];
    let merged = merge_ip_info(&sources).unwrap();
    assert_eq!(merged.org, "Home ISP");
    assert!(merged.vpn_flag);
    assert!(detect_vpn(&merged));

    let sources = vec![Ok(info("4.4.4.4", "Home ISP", "AS1", false)), Err("x".to_string())];
    let merged = merge_ip_info(&sources).unwrap();
    assert!(!merged.vpn_flag);
}

#[test]
fn merge_without_answers() {
    let sources: Vec<Result<IpInfo, String>> =
        vec![Err("a".to_string()), Err("b".to_string()), Err("c".to_string())];
    assert_eq!(merge_ip_info(&sources).unwrap_err(), NO_IP_SERVICE_ANSWERED);
    assert_eq!(merge_ip_info(&vec![]).unwrap_err(), "Не удалось определить IP ни на одном из сервисов");
}

#[test]
fn summary_skips_empty_parts() {
    let mut i = info("1.2.3.4", "", "", false);
    assert_eq!(i.summary(), "1.2.3.4");
    i.city = "Paris".to_string();
    i.org = "Orange".to_string();
    assert_eq!(i.summary(), "1.2.3.4 • Paris • Orange");
    i.country_name = "France".to_string();
    assert_eq!(i.summary(), "1.2.3.4 • Paris • France • Orange");
}

#[test]
fn default_ip_info_is_empty() {
    let i = IpInfo::default();
    assert_eq!(i.ip, "");
    assert!(!i.vpn_flag);
    let d = i.duplicate();
    assert_eq!(d.summary(), "");
}
