//! Data of the status page: the visitor's IP information, FRKN nodes and
//! their probed statuses; reading them from the services' JSON answers, and
//! the VPN heuristics.
use vstd::prelude::*;

use crate::json::JsonValue;
use crate::services::ServiceStatus;
use crate::text::{lowercase, seq_contains, str_contains, str_eq, to_lowercase};

verus! {

/// What an IP geolocation service tells about the visitor's address.
#[derive(Clone, Debug)]
pub struct IpInfo {
    pub ip: String,
    pub city: String,
    pub region: String,
    pub country_name: String,
    pub country_code: String,
    pub org: String,
    pub asn: String,
    /// The service's own VPN/proxy/hosting/datacenter flag, when it gives one.
    pub vpn_flag: bool,
}

/// The contents of an [`IpInfo`].
pub struct IpInfoView {
    pub ip: Seq<char>,
    pub city: Seq<char>,
    pub region: Seq<char>,
    pub country_name: Seq<char>,
    pub country_code: Seq<char>,
    pub org: Seq<char>,
    pub asn: Seq<char>,
    pub vpn_flag: bool,
}

impl View for IpInfo {
    type V = IpInfoView;

    open spec fn view(&self) -> IpInfoView {
        IpInfoView {
            ip: self.ip@,
            city: self.city@,
            region: self.region@,
            country_name: self.country_name@,
            country_code: self.country_code@,
            org: self.org@,
            asn: self.asn@,
            vpn_flag: self.vpn_flag,
        }
    }
}

/// An [`IpInfo`] with every text empty and no VPN flag.
pub open spec fn empty_ip_info() -> IpInfoView {
    IpInfoView {
        ip: Seq::empty(),
        city: Seq::empty(),
        region: Seq::empty(),
        country_name: Seq::empty(),
        country_code: Seq::empty(),
        org: Seq::empty(),
        asn: Seq::empty(),
        vpn_flag: false,
    }
}

impl Default for IpInfo {
    fn default() -> (r: IpInfo)
        ensures
            r@ == empty_ip_info(),
    {
        IpInfo {
            ip: String::new(),
            city: String::new(),
            region: String::new(),
            country_name: String::new(),
            country_code: String::new(),
            org: String::new(),
            asn: String::new(),
            vpn_flag: false,
        }
    }
}

/// `text` preceded by the separator, or nothing when `text` is empty.
pub open spec fn summary_part(text: Seq<char>) -> Seq<char> {
    if text.len() > 0 {
        " • "@ + text
    } else {
        Seq::empty()
    }
}

/// The one-line summary: the address, then city, country and provider, each
/// only when known, joined by ` • `.
pub open spec fn summary_of(info: IpInfoView) -> Seq<char> {
    info.ip + summary_part(info.city) + summary_part(info.country_name) + summary_part(info.org)
}

/// Appends the separator and `text` when `text` is not empty.
fn push_part(out: &mut String, text: &String)
    ensures
        final(out)@ == old(out)@ + summary_part(text@),
{
    if text.as_str().unicode_len() > 0 {
        let ghost before = out@;
        out.append(" • ");
        out.append(text.as_str());
        assert(out@ =~= before + summary_part(text@));
    } else {
        assert(old(out)@ + summary_part(text@) =~= old(out)@);
    }
}

impl IpInfo {
    /// The same information, copied.
    pub fn duplicate(&self) -> (r: IpInfo)
        ensures
            r@ == self@,
    {
        IpInfo {
            ip: self.ip.clone(),
            city: self.city.clone(),
            region: self.region.clone(),
            country_name: self.country_name.clone(),
            country_code: self.country_code.clone(),
            org: self.org.clone(),
            asn: self.asn.clone(),
            vpn_flag: self.vpn_flag,
        }
    }

    /// The address, city, country and provider, the empty ones left out,
    /// joined by ` • `.
    pub fn summary(&self) -> (r: String)
        ensures
            r@ == summary_of(self@),
    {
        let mut out = self.ip.clone();
        push_part(&mut out, &self.city);
        push_part(&mut out, &self.country_name);
        push_part(&mut out, &self.org);
        out
    }
}

/// A protocol port that a FRKN node listens on.
#[derive(Clone, Debug)]
pub struct FrknInbound {
    pub tag: String,
    pub port: u16,
}

/// The contents of a [`FrknInbound`].
pub struct InboundView {
    pub tag: Seq<char>,
    pub port: u16,
}

impl View for FrknInbound {
    type V = InboundView;

    open spec fn view(&self) -> InboundView {
        InboundView { tag: self.tag@, port: self.port }
    }
}

/// A FRKN server as the FRKN API lists it.
#[derive(Clone, Debug)]
pub struct FrknNode {
    pub hostname: String,
    pub address: String,
    pub label: String,
    pub country: String,
    pub api_status: String,
    pub node_type: String,
    pub inbounds: Vec<FrknInbound>,
}

/// The contents of a [`FrknNode`].
pub struct NodeView {
    pub hostname: Seq<char>,
    pub address: Seq<char>,
    pub label: Seq<char>,
    pub country: Seq<char>,
    pub api_status: Seq<char>,
    pub node_type: Seq<char>,
    pub inbounds: Seq<InboundView>,
}

/// The contents of a list of inbounds.
pub open spec fn inbounds_view(v: Seq<FrknInbound>) -> Seq<InboundView> {
    v.map_values(|i: FrknInbound| i@)
}

impl View for FrknNode {
    type V = NodeView;

    open spec fn view(&self) -> NodeView {
        NodeView {
            hostname: self.hostname@,
            address: self.address@,
            label: self.label@,
            country: self.country@,
            api_status: self.api_status@,
            node_type: self.node_type@,
            inbounds: inbounds_view(self.inbounds@),
        }
    }
}

/// The contents of a list of nodes.
pub open spec fn nodes_view(v: Seq<FrknNode>) -> Seq<NodeView> {
    v.map_values(|n: FrknNode| n@)
}

impl FrknNode {
    /// The same node, copied.
    pub fn duplicate(&self) -> (r: FrknNode)
        ensures
            r@ == self@,
    {
        let mut inbounds: Vec<FrknInbound> = Vec::new();
        let n = self.inbounds.len();
        let mut i: usize = 0;
        while i < n
            invariant
                n == self.inbounds@.len(),
                i <= n,
                inbounds@.len() == i,
                inbounds_view(inbounds@) == inbounds_view(self.inbounds@).subrange(0, i as int),
            decreases n - i,
        {
            let inb = &self.inbounds[i];
            let copy = FrknInbound { tag: inb.tag.clone(), port: inb.port };
            assert(copy@ == self.inbounds@[i as int]@);
            let ghost before = inbounds@;
            inbounds.push(copy);
            assert forall|k: int| 0 <= k < i + 1 implies #[trigger] inbounds_view(inbounds@)[k]
                == inbounds_view(self.inbounds@)[k] by {
                if k < i {
                    assert(inbounds@[k] == before[k]);
                    assert(inbounds_view(before)[k] == inbounds_view(self.inbounds@).subrange(
                        0,
                        i as int,
                    )[k]);
                }
            }
            assert(inbounds_view(inbounds@) =~= inbounds_view(self.inbounds@).subrange(
                0,
                i + 1,
            ));
            i = i + 1;
        }
        assert(inbounds_view(self.inbounds@).subrange(0, n as int) =~= inbounds_view(
            self.inbounds@,
        ));
        FrknNode {
            hostname: self.hostname.clone(),
            address: self.address.clone(),
            label: self.label.clone(),
            country: self.country.clone(),
            api_status: self.api_status.clone(),
            node_type: self.node_type.clone(),
            inbounds,
        }
    }
}

/// The items of `s` that `f` keeps, in order, each mapped by `f`.
pub open spec fn filter_map<A, B>(s: Seq<A>, f: spec_fn(A) -> Option<B>) -> Seq<B>
    decreases s.len(),
{
    if s.len() == 0 {
        Seq::empty()
    } else {
        let rest = filter_map(s.drop_last(), f);
        match f(s.last()) {
            Some(b) => rest.push(b),
            None => rest,
        }
    }
}

/// Unfolds `filter_map` over one more item of a prefix.
pub proof fn lemma_filter_map_step<A, B>(s: Seq<A>, f: spec_fn(A) -> Option<B>, i: int)
    requires
        0 <= i < s.len(),
    ensures
        filter_map(s.subrange(0, i + 1), f) == (match f(s[i]) {
            Some(b) => filter_map(s.subrange(0, i), f).push(b),
            None => filter_map(s.subrange(0, i), f),
        }),
{
    assert(s.subrange(0, i + 1).drop_last() =~= s.subrange(0, i));
}

/// `filter_map` keeps what `f` keeps and nothing else: each of its items is
/// `f` of an item of `s`, and each item `f` keeps is among them; it is empty
/// exactly when `f` keeps nothing, and its first item comes from the first
/// item `f` keeps.
pub proof fn lemma_filter_map_members<A, B>(s: Seq<A>, f: spec_fn(A) -> Option<B>)
    ensures
        forall|i: int|
            0 <= i < filter_map(s, f).len() ==> exists|j: int|
                0 <= j < s.len() && f(s[j]) == Some(#[trigger] filter_map(s, f)[i]),
        forall|j: int|
            0 <= j < s.len() && (#[trigger] f(s[j])) is Some ==> exists|i: int|
                0 <= i < filter_map(s, f).len() && filter_map(s, f)[i] == f(s[j])->0,
        filter_map(s, f).len() == 0 <==> forall|j: int| 0 <= j < s.len() ==> (#[trigger] f(s[j])) is None,
        filter_map(s, f).len() > 0 ==> exists|j: int|
            0 <= j < s.len() && #[trigger] f(s[j]) == Some(filter_map(s, f)[0]) && forall|k: int|
                0 <= k < j ==> (#[trigger] f(s[k])) is None,
        filter_map(s, f).len() <= s.len(),
    decreases s.len(),
{
    if s.len() > 0 {
        let rest = s.drop_last();
        let fr = filter_map(rest, f);
        let fm = filter_map(s, f);
        let n = s.len() - 1;
        lemma_filter_map_members(rest, f);
        assert forall|j: int| 0 <= j < rest.len() implies rest[j] == s[j] by {}
        assert forall|i: int| 0 <= i < fm.len() implies exists|j: int|
            0 <= j < s.len() && f(s[j]) == Some(#[trigger] fm[i]) by {
            if i < fr.len() {
                assert(fm[i] == fr[i]);
                let j = choose|j: int| 0 <= j < rest.len() && f(rest[j]) == Some(#[trigger] fr[i]);
                assert(s[j] == rest[j]);
            } else {
                assert(f(s[n]) == Some(fm[i]));
            }
        }
        assert forall|j: int| 0 <= j < s.len() && (#[trigger] f(s[j])) is Some implies exists|i: int|
            0 <= i < fm.len() && fm[i] == f(s[j])->0 by {
            if j < n {
                assert(rest[j] == s[j]);
                assert(f(rest[j]) is Some);
                let i = choose|i: int| 0 <= i < fr.len() && fr[i] == f(rest[j])->0;
                assert(fm[i] == fr[i]);
            } else {
                assert(fm[fm.len() - 1] == f(s[j])->0);
            }
        }
        if fm.len() == 0 {
            assert forall|j: int| 0 <= j < s.len() implies (#[trigger] f(s[j])) is None by {
                if j < n {
                    assert(rest[j] == s[j]);
                    assert(f(rest[j]) is None);
                }
            }
        }
        if forall|j: int| 0 <= j < s.len() ==> (#[trigger] f(s[j])) is None {
            assert forall|j: int| 0 <= j < rest.len() implies (#[trigger] f(rest[j])) is None by {
                assert(rest[j] == s[j]);
                assert(f(s[j]) is None);
            }
            assert(f(s[n]) is None);
        }
        if fm.len() > 0 {
            if fr.len() > 0 {
                let j = choose|j: int|
                    0 <= j < rest.len() && #[trigger] f(rest[j]) == Some(fr[0]) && forall|k: int|
                        0 <= k < j ==> (#[trigger] f(rest[k])) is None;
                assert(fm[0] == fr[0]);
                assert(s[j] == rest[j]);
                assert forall|k: int| 0 <= k < j implies (#[trigger] f(s[k])) is None by {
                    assert(rest[k] == s[k]);
                    assert(f(rest[k]) is None);
                }
            } else {
                assert forall|k: int| 0 <= k < n implies (#[trigger] f(s[k])) is None by {
                    assert(rest[k] == s[k]);
                    assert(f(rest[k]) is None);
                }
                assert(f(s[n]) == Some(fm[0]));
            }
        }
    }
}

/// The text of `v`, or `default` when `v` is not a string.
pub open spec fn text_or(v: JsonValue, default: Seq<char>) -> Seq<char> {
    match v.text() {
        Some(s) => s,
        None => default,
    }
}

/// The text of `first`, else that of `second`, else `default`.
pub open spec fn first_text_or(first: JsonValue, second: JsonValue, default: Seq<char>) -> Seq<
    char,
> {
    match first.text() {
        Some(s) => s,
        None => text_or(second, default),
    }
}

/// The member `key` of `v` is the boolean `true`.
pub open spec fn flag_set(v: JsonValue, key: Seq<char>) -> bool {
    v.field(key).boolean() == Some(true)
}

/// The member `key` of `v` (`Null` when absent).
fn member_of<'a>(v: Option<&'a JsonValue>, key: &str) -> (r: Option<&'a JsonValue>)
    ensures
        r matches Some(x) ==> *x == (match v {
            Some(w) => *w,
            None => JsonValue::Null,
        }).field(key@),
        r is None ==> (match v {
            Some(w) => *w,
            None => JsonValue::Null,
        }).field(key@) == JsonValue::Null,
{
    match v {
        Some(w) => w.get(key),
        None => None,
    }
}

/// The text of a value that may be absent.
fn text_of<'a>(v: Option<&'a JsonValue>) -> (r: Option<&'a str>)
    ensures
        r matches Some(s) ==> (match v {
            Some(w) => *w,
            None => JsonValue::Null,
        }).text() == Some(s@),
        r is None ==> (match v {
            Some(w) => *w,
            None => JsonValue::Null,
        }).text() is None,
{
    match v {
        Some(w) => w.as_str(),
        None => None,
    }
}

/// The text of the member `key` of `v`, or `default`.
fn text_field(v: &JsonValue, key: &str, default: &str) -> (r: String)
    ensures
        r@ == text_or(v.field(key@), default@),
{
    match text_of(v.get(key)) {
        Some(s) => String::from_str(s),
        None => String::from_str(default),
    }
}

/// Whether the member `key` of the value at `v` is `true`.
fn flag_field(v: Option<&JsonValue>, key: &str) -> (r: bool)
    ensures
        r == flag_set(
            match v {
                Some(w) => *w,
                None => JsonValue::Null,
            },
            key@,
        ),
{
    match member_of(v, key) {
        Some(x) => x.as_bool() == Some(true),
        None => false,
    }
}

/// What the ipapi.co answer tells.
pub open spec fn ipapi_info(json: JsonValue) -> IpInfoView {
    let threat = json.field("threat"@);
    IpInfoView {
        ip: text_or(json.field("ip"@), ""@),
        city: text_or(json.field("city"@), ""@),
        region: text_or(json.field("region"@), ""@),
        country_name: text_or(json.field("country_name"@), ""@),
        country_code: text_or(json.field("country_code"@), ""@),
        org: text_or(json.field("org"@), ""@),
        asn: text_or(json.field("asn"@), ""@),
        vpn_flag: flag_set(threat, "is_anonymous"@) || flag_set(threat, "is_proxy"@) || flag_set(
            threat,
            "is_vpn"@,
        ),
    }
}

/// What the ipwho.is answer tells.
pub open spec fn ipwhois_info(json: JsonValue) -> IpInfoView {
    let security = json.field("security"@);
    let connection = json.field("connection"@);
    IpInfoView {
        ip: text_or(json.field("ip"@), ""@),
        city: text_or(json.field("city"@), ""@),
        region: text_or(json.field("region"@), ""@),
        country_name: text_or(json.field("country"@), ""@),
        country_code: text_or(json.field("country_code"@), ""@),
        org: first_text_or(connection.field("org"@), json.field("org"@), ""@),
        asn: text_or(connection.field("asn"@), ""@),
        vpn_flag: flag_set(security, "vpn"@) || flag_set(security, "proxy"@) || flag_set(
            security,
            "datacenter"@,
        ) || flag_set(security, "tor"@),
    }
}

/// What the ipinfo.io answer tells.
pub open spec fn ipinfo_info(json: JsonValue) -> IpInfoView {
    let privacy = json.field("privacy"@);
    IpInfoView {
        ip: text_or(json.field("ip"@), ""@),
        city: text_or(json.field("city"@), ""@),
        region: text_or(json.field("region"@), ""@),
        country_name: text_or(json.field("country"@), ""@),
        country_code: text_or(json.field("country"@), ""@),
        org: text_or(json.field("org"@), ""@),
        asn: first_text_or(json.field("asn"@), json.field("org"@), ""@),
        vpn_flag: flag_set(privacy, "vpn"@) || flag_set(privacy, "proxy"@) || flag_set(
            privacy,
            "hosting"@,
        ) || flag_set(privacy, "tor"@),
    }
}

/// Reads the answer of ipapi.co; a missing text is empty.
pub fn ip_info_from_ipapi(json: &JsonValue) -> (r: IpInfo)
    ensures
        r@ == ipapi_info(*json),
{
    let threat = json.get("threat");
    IpInfo {
        ip: text_field(json, "ip", ""),
        city: text_field(json, "city", ""),
        region: text_field(json, "region", ""),
        country_name: text_field(json, "country_name", ""),
        country_code: text_field(json, "country_code", ""),
        org: text_field(json, "org", ""),
        asn: text_field(json, "asn", ""),
        vpn_flag: flag_field(threat, "is_anonymous") || flag_field(threat, "is_proxy")
            || flag_field(threat, "is_vpn"),
    }
}

/// Reads the answer of ipwho.is; a missing text is empty.
pub fn ip_info_from_ipwhois(json: &JsonValue) -> (r: IpInfo)
    ensures
        r@ == ipwhois_info(*json),
{
    let security = json.get("security");
    let connection = json.get("connection");
    let org = match text_of(member_of(connection, "org")) {
        Some(s) => String::from_str(s),
        None => text_field(json, "org", ""),
    };
    let asn = match text_of(member_of(connection, "asn")) {
        Some(s) => String::from_str(s),
        None => String::from_str(""),
    };
    IpInfo {
        ip: text_field(json, "ip", ""),
        city: text_field(json, "city", ""),
        region: text_field(json, "region", ""),
        country_name: text_field(json, "country", ""),
        country_code: text_field(json, "country_code", ""),
        org,
        asn,
        vpn_flag: flag_field(security, "vpn") || flag_field(security, "proxy") || flag_field(
            security,
            "datacenter",
        ) || flag_field(security, "tor"),
    }
}

/// Reads the answer of ipinfo.io; a missing text is empty.
pub fn ip_info_from_ipinfo(json: &JsonValue) -> (r: IpInfo)
    ensures
        r@ == ipinfo_info(*json),
{
    let privacy = json.get("privacy");
    let asn = match text_of(json.get("asn")) {
        Some(s) => String::from_str(s),
        None => text_field(json, "org", ""),
    };
    IpInfo {
        ip: text_field(json, "ip", ""),
        city: text_field(json, "city", ""),
        region: text_field(json, "region", ""),
        country_name: text_field(json, "country", ""),
        country_code: text_field(json, "country", ""),
        org: text_field(json, "org", ""),
        asn,
        vpn_flag: flag_field(privacy, "vpn") || flag_field(privacy, "proxy") || flag_field(
            privacy,
            "hosting",
        ) || flag_field(privacy, "tor"),
    }
}

/// The inbound an element of a node's `inbounds` array describes: it needs a
/// string `tag` and an unsigned integer `port`, which is cut to 16 bits.
pub open spec fn inbound_of(v: JsonValue) -> Option<InboundView> {
    match (v.field("tag"@).text(), v.field("port"@).unsigned()) {
        (Some(tag), Some(port)) => Some(InboundView { tag, port: port as u16 }),
        _ => None,
    }
}

/// The node an element of the API's `response` array describes: it needs a
/// string `hostname` and `address`; other texts default to empty, the status
/// to `Unknown`, the inbounds to none.
pub open spec fn node_of(v: JsonValue) -> Option<NodeView> {
    match (v.field("hostname"@).text(), v.field("address"@).text()) {
        (Some(hostname), Some(address)) => Some(
            NodeView {
                hostname,
                address,
                label: text_or(v.field("label"@), ""@),
                country: text_or(v.field("country"@), ""@),
                api_status: text_or(v.field("status"@), "Unknown"@),
                node_type: text_or(v.field("type"@), ""@),
                inbounds: match v.field("inbounds"@).elements() {
                    Some(items) => filter_map(items, |i: JsonValue| inbound_of(i)),
                    None => Seq::empty(),
                },
            },
        ),
        _ => None,
    }
}

/// Error text when the FRKN API answer has no `response` array.
pub const INVALID_NODES_RESPONSE: &'static str = "invalid response format";

fn inbound_from_json(v: &JsonValue) -> (r: Option<FrknInbound>)
    ensures
        r matches Some(i) ==> inbound_of(*v) == Some(i@),
        r is None ==> inbound_of(*v) is None,
{
    let tag = text_of(v.get("tag"));
    let port = match v.get("port") {
        Some(p) => p.as_u64(),
        None => None,
    };
    match (tag, port) {
        (Some(t), Some(p)) => Some(FrknInbound { tag: String::from_str(t), port: p as u16 }),
        _ => None,
    }
}

fn inbounds_from_json(items: &Vec<JsonValue>) -> (r: Vec<FrknInbound>)
    ensures
        inbounds_view(r@) == filter_map(items@, |i: JsonValue| inbound_of(i)),
{
    let ghost f = |i: JsonValue| inbound_of(i);
    let n = items.len();
    let mut out: Vec<FrknInbound> = Vec::new();
    let mut i: usize = 0;
    while i < n
        invariant
            n == items@.len(),
            i <= n,
            f == (|i: JsonValue| inbound_of(i)),
            inbounds_view(out@) == filter_map(items@.subrange(0, i as int), f),
        decreases n - i,
    {
        proof {
            lemma_filter_map_step(items@, f, i as int);
        }
        match inbound_from_json(&items[i]) {
            Some(inb) => {
                out.push(inb);
                assert(inbounds_view(out@) =~= filter_map(items@.subrange(0, i as int), f).push(
                    inb@,
                ));
            },
            None => {},
        }
        i = i + 1;
    }
    assert(items@.subrange(0, n as int) =~= items@);
    out
}

fn node_from_json(v: &JsonValue) -> (r: Option<FrknNode>)
    ensures
        r matches Some(n) ==> node_of(*v) == Some(n@),
        r is None ==> node_of(*v) is None,
{
    let hostname = text_of(v.get("hostname"));
    let address = text_of(v.get("address"));
    match (hostname, address) {
        (Some(h), Some(a)) => {
            let inbounds = match v.get("inbounds") {
                Some(x) => match x.as_array() {
                    Some(items) => inbounds_from_json(items),
                    None => Vec::new(),
                },
                None => Vec::new(),
            };
            let node = FrknNode {
                hostname: String::from_str(h),
                address: String::from_str(a),
                label: text_field(v, "label", ""),
                country: text_field(v, "country", ""),
                api_status: text_field(v, "status", "Unknown"),
                node_type: text_field(v, "type", ""),
                inbounds,
            };
            assert(node@.inbounds =~= node_of(*v).unwrap().inbounds);
            Some(node)
        },
        _ => None,
    }
}

/// The nodes listed by the FRKN API: the elements of its `response` array
/// that describe a node, in order; an error when there is no such array.
pub fn nodes_from_json(json: &JsonValue) -> (r: Result<Vec<FrknNode>, String>)
    ensures
        match json.field("response"@).elements() {
            Some(items) => r matches Ok(nodes) && nodes_view(nodes@) == filter_map(
                items,
                |v: JsonValue| node_of(v),
            ),
            None => r matches Err(e) && e@ == INVALID_NODES_RESPONSE@,
        },
{
    let items = match json.get("response") {
        Some(x) => match x.as_array() {
            Some(items) => items,
            None => return Err(String::from_str(INVALID_NODES_RESPONSE)),
        },
        None => return Err(String::from_str(INVALID_NODES_RESPONSE)),
    };
    let ghost f = |v: JsonValue| node_of(v);
    let n = items.len();
    let mut out: Vec<FrknNode> = Vec::new();
    let mut i: usize = 0;
    while i < n
        invariant
            n == items@.len(),
            i <= n,
            f == (|v: JsonValue| node_of(v)),
            nodes_view(out@) == filter_map(items@.subrange(0, i as int), f),
        decreases n - i,
    {
        proof {
            lemma_filter_map_step(items@, f, i as int);
        }
        match node_from_json(&items[i]) {
            Some(node) => {
                out.push(node);
                assert(nodes_view(out@) =~= filter_map(items@.subrange(0, i as int), f).push(
                    node@,
                ));
            },
            None => {},
        }
        i = i + 1;
    }
    assert(items@.subrange(0, n as int) =~= items@);
    Ok(out)
}

/// The visitor's address is the address of one of the FRKN nodes.
pub open spec fn is_frkn_address(ip: Seq<char>, nodes: Seq<NodeView>) -> bool {
    exists|i: int| 0 <= i < nodes.len() && #[trigger] nodes[i].address == ip
}

/// Whether `ip` is the address of one of `nodes`.
pub fn is_frkn_ip(ip: &str, nodes: &[FrknNode]) -> (r: bool)
    ensures
        r == is_frkn_address(ip@, nodes_view(nodes@)),
{
    let n = nodes.len();
    let mut i: usize = 0;
    while i < n
        invariant
            n == nodes@.len(),
            i <= n,
            forall|j: int| 0 <= j < i ==> #[trigger] nodes_view(nodes@)[j].address != ip@,
        decreases n - i,
    {
        if str_eq(nodes[i].address.as_str(), ip) {
            assert(nodes_view(nodes@)[i as int].address == ip@);
            return true;
        }
        i = i + 1;
    }
    false
}

/// Words that, found in the provider or ASN name, point to a VPN, proxy,
/// hosting or datacenter network.
pub open spec fn vpn_keywords() -> Seq<Seq<char>> {
    seq![
        "vpn"@,
        "proxy"@,
        "hosting"@,
        "datacenter"@,
        "cloud"@,
        "server"@,
        "vps"@,
        "dedicated"@,
        "teleport"@,
        "outline"@,
        "wireguard"@,
        "openvpn"@,
        "m247"@,
        "ovh"@,
        "hetzner"@,
        "digitalocean"@,
        "linode"@,
        "amazon"@,
        "aws"@,
        "mullvad"@,
        "nord"@,
        "nordvpn"@,
        "expressvpn"@,
        "surfshark"@,
        "proton"@,
        "protonvpn"@,
        "windscribe"@,
        "cyberghost"@,
        "private internet access"@,
        "pia"@,
        "hotspot shield"@,
        "tunnelbear"@,
        "hide.me"@,
        "hideme"@,
        "torguard"@,
        "ivpn"@,
        "airvpn"@,
        "zoogvpn"@,
        "wevpn"@,
        "purevpn"@,
        "strongvpn"@,
        "vyprvpn"@,
        "ipvanish"@,
        "kaspersky"@,
        "avast"@,
        "avg"@,
        "bitdefender"@,
        "mcafee"@,
        "norton"@,
        "whoer"@,
        "frkn"@
    ]
}

fn vpn_keyword_list() -> (r: Vec<&'static str>)
    ensures
        r@.map_values(|k: &str| k@) == vpn_keywords(),
{
    let r = vec![
        "vpn",
        "proxy",
        "hosting",
        "datacenter",
        "cloud",
        "server",
        "vps",
        "dedicated",
        "teleport",
        "outline",
        "wireguard",
        "openvpn",
        "m247",
        "ovh",
        "hetzner",
        "digitalocean",
        "linode",
        "amazon",
        "aws",
        "mullvad",
        "nord",
        "nordvpn",
        "expressvpn",
        "surfshark",
        "proton",
        "protonvpn",
        "windscribe",
        "cyberghost",
        "private internet access",
        "pia",
        "hotspot shield",
        "tunnelbear",
        "hide.me",
        "hideme",
        "torguard",
        "ivpn",
        "airvpn",
        "zoogvpn",
        "wevpn",
        "purevpn",
        "strongvpn",
        "vyprvpn",
        "ipvanish",
        "kaspersky",
        "avast",
        "avg",
        "bitdefender",
        "mcafee",
        "norton",
        "whoer",
        "frkn"
    ];
    assert(r@.map_values(|k: &str| k@) =~= vpn_keywords());
    r
}

/// One of the keywords occurs in the lowercased provider or ASN name.
pub open spec fn names_vpn_provider(org_lower: Seq<char>, asn_lower: Seq<char>) -> bool {
    exists|k: int|
        0 <= k < vpn_keywords().len() && (seq_contains(org_lower, #[trigger] vpn_keywords()[k])
            || seq_contains(asn_lower, vpn_keywords()[k]))
}

/// The heuristic verdict on an address: a service flagged it, or its provider
/// or ASN name, lowercased, contains one of the keywords.
pub open spec fn looks_like_vpn(info: IpInfoView) -> bool {
    info.vpn_flag || names_vpn_provider(lowercase(info.org), lowercase(info.asn))
}

/// The keyword test of the VPN heuristic, on names already lowercased.
pub fn matches_vpn_keyword(org_lower: &str, asn_lower: &str) -> (r: bool)
    ensures
        r == names_vpn_provider(org_lower@, asn_lower@),
{
    let keywords = vpn_keyword_list();
    let n = keywords.len();
    let ghost kws = keywords@.map_values(|k: &str| k@);
    let mut i: usize = 0;
    while i < n
        invariant
            n == keywords@.len(),
            kws == keywords@.map_values(|k: &str| k@),
            kws == vpn_keywords(),
            i <= n,
            forall|j: int|
                0 <= j < i ==> !seq_contains(org_lower@, #[trigger] vpn_keywords()[j])
                    && !seq_contains(asn_lower@, vpn_keywords()[j]),
        decreases n - i,
    {
        let kw = keywords[i];
        assert(kws[i as int] == kw@);
        if str_contains(org_lower, kw) || str_contains(asn_lower, kw) {
            assert(seq_contains(org_lower@, vpn_keywords()[i as int]) || seq_contains(
                asn_lower@,
                vpn_keywords()[i as int],
            ));
            return true;
        }
        i = i + 1;
    }
    false
}

/// Whether the address looks like a VPN: flagged by a service, or a provider
/// or ASN name that contains a keyword, ignoring case.
pub fn detect_vpn(info: &IpInfo) -> (r: bool)
    ensures
        r == looks_like_vpn(info@),
{
    if info.vpn_flag {
        return true;
    }
    let org_lower = to_lowercase(info.org.as_str());
    let asn_lower = to_lowercase(info.asn.as_str());
    matches_vpn_keyword(org_lower.as_str(), asn_lower.as_str())
}

/// Error text when no IP service answered.
pub const NO_IP_SERVICE_ANSWERED: &'static str = "Не удалось определить IP ни на одном из сервисов";

/// The answers that arrived, in order.
pub open spec fn successes(sources: Seq<Result<IpInfo, String>>) -> Seq<IpInfoView> {
    filter_map(
        sources,
        |r: Result<IpInfo, String>|
            match r {
                Ok(info) => Some(info@),
                Err(_) => None,
            },
    )
}

/// The combined answer: what the first service that answered tells, with
/// the VPN flag set when any answer looks like a VPN.
pub open spec fn merged_info(answers: Seq<IpInfoView>) -> IpInfoView {
    IpInfoView {
        vpn_flag: exists|i: int| 0 <= i < answers.len() && #[trigger] looks_like_vpn(answers[i]),
        ..answers[0]
    }
}

/// Combines the answers of the IP services, taken in order of preference:
/// an error when none answered, else the first answer, flagged as a VPN when
/// any answer is flagged or names a VPN-like provider.
pub fn merge_ip_info(sources: &Vec<Result<IpInfo, String>>) -> (r: Result<IpInfo, String>)
    ensures
        successes(sources@).len() == 0 ==> (r matches Err(e) && e@ == NO_IP_SERVICE_ANSWERED@),
        successes(sources@).len() > 0 ==> (r matches Ok(info) && info@ == merged_info(
            successes(sources@),
        )),
{
    let ghost f = |r: Result<IpInfo, String>|
        match r {
            Ok(info) => Some(info@),
            Err(_) => None,
        };
    let n = sources.len();
    let mut first: Option<IpInfo> = None;
    let mut any_vpn = false;
    let mut i: usize = 0;
    while i < n
        invariant
            n == sources@.len(),
            i <= n,
            f == (|r: Result<IpInfo, String>|
                match r {
                    Ok(info) => Some(info@),
                    Err(_) => None,
                }),
            first is None <==> filter_map(sources@.subrange(0, i as int), f).len() == 0,
            first matches Some(x) ==> x@ == filter_map(sources@.subrange(0, i as int), f)[0],
            any_vpn == exists|j: int|
                0 <= j < filter_map(sources@.subrange(0, i as int), f).len()
                    && #[trigger] looks_like_vpn(filter_map(sources@.subrange(0, i as int), f)[j]),
        decreases n - i,
    {
        let ghost prev = filter_map(sources@.subrange(0, i as int), f);
        proof {
            lemma_filter_map_step(sources@, f, i as int);
        }
        match &sources[i] {
            Ok(info) => {
                let ghost next = prev.push(info@);
                assert(filter_map(sources@.subrange(0, i + 1), f) == next);
                if first.is_none() {
                    first = Some(info.duplicate());
                }
                let v = detect_vpn(info);
                if v {
                    any_vpn = true;
                }
                proof {
                    assert(next[prev.len() as int] == info@);
                    assert forall|j: int| 0 <= j < prev.len() implies next[j] == prev[j] by {}
                    if any_vpn {
                        if v {
                            assert(looks_like_vpn(next[prev.len() as int]));
                        } else {
                            let j = choose|j: int|
                                0 <= j < prev.len() && #[trigger] looks_like_vpn(prev[j]);
                            assert(looks_like_vpn(next[j]));
                        }
                    } else {
                        assert forall|j: int| 0 <= j < next.len() implies !#[trigger] looks_like_vpn(
                            next[j],
                        ) by {
                            if j < prev.len() {
                                assert(next[j] == prev[j]);
                            }
                        }
                    }
                }
            },
            Err(_) => {},
        }
        i = i + 1;
    }
    assert(sources@.subrange(0, n as int) =~= sources@);
    match first {
        Some(info) => Ok(IpInfo { vpn_flag: any_vpn, ..info }),
        None => Err(String::from_str(NO_IP_SERVICE_ANSWERED)),
    }
}

/// The combined answer looks like a VPN exactly when one of the answers does,
/// and it shows the address, place and provider of the first answer.
pub proof fn lemma_merged_verdict(answers: Seq<IpInfoView>)
    requires
        answers.len() > 0,
    ensures
        looks_like_vpn(merged_info(answers)) <==> exists|i: int|
            0 <= i < answers.len() && #[trigger] looks_like_vpn(answers[i]),
        merged_info(answers).ip == answers[0].ip,
        merged_info(answers).org == answers[0].org,
        merged_info(answers).asn == answers[0].asn,
{
    let m = merged_info(answers);
    if names_vpn_provider(lowercase(m.org), lowercase(m.asn)) {
        assert(looks_like_vpn(answers[0]));
    }
}

/// An address that a service flagged is always reported as a VPN.
pub proof fn lemma_flagged_is_vpn(info: IpInfoView)
    requires
        info.vpn_flag,
    ensures
        looks_like_vpn(info),
{
}

/// The shown IP information is the first answer that arrived, field for
/// field, with the VPN flag set exactly when some answer that arrived looks
/// like a VPN; there is none exactly when no service answered.
#[verifier::spinoff_prover]
#[verifier::rlimit(40)]
pub proof fn lemma_merge_shows_first_answer(sources: Seq<Result<IpInfo, String>>)
    ensures
        successes(sources).len() == 0 <==> forall|j: int|
            0 <= j < sources.len() ==> (#[trigger] sources[j]) is Err,
        successes(sources).len() > 0 ==> exists|j: int|
            0 <= j < sources.len() && (forall|k: int| 0 <= k < j ==> (#[trigger] sources[k]) is Err)
                && (#[trigger] sources[j]) is Ok && {
                let first = sources[j]->Ok_0;
                let m = merged_info(successes(sources));
                &&& m.ip == first.ip@
                &&& m.city == first.city@
                &&& m.region == first.region@
                &&& m.country_name == first.country_name@
                &&& m.country_code == first.country_code@
                &&& m.org == first.org@
                &&& m.asn == first.asn@
                &&& m.vpn_flag <==> exists|k: int|
                    0 <= k < sources.len() && (#[trigger] sources[k]) is Ok && looks_like_vpn(
                        sources[k]->Ok_0@,
                    )
            },
{
    let f = |r: Result<IpInfo, String>|
        match r {
            Ok(info) => Some(info@),
            Err(_) => None,
        };
    let ok = successes(sources);
    lemma_filter_map_members(sources, f);
    assert forall|j: int| 0 <= j < sources.len() implies (#[trigger] f(sources[j])) is None <==> sources[j] is Err by {}
    if ok.len() == 0 {
        assert forall|j: int| 0 <= j < sources.len() implies (#[trigger] sources[j]) is Err by {
            assert(f(sources[j]) is None);
        }
    } else {
        let j = choose|j: int|
            0 <= j < sources.len() && #[trigger] f(sources[j]) == Some(ok[0]) && forall|k: int|
                0 <= k < j ==> (#[trigger] f(sources[k])) is None;
        assert forall|k: int| 0 <= k < j implies (#[trigger] sources[k]) is Err by {
            assert(f(sources[k]) is None);
        }
        let first = sources[j]->Ok_0;
        assert(ok[0] == first@);
        let m = merged_info(ok);
        assert(m.ip == first.ip@ && m.city == first.city@ && m.region == first.region@);
        assert(m.country_name == first.country_name@ && m.country_code == first.country_code@);
        assert(m.org == first.org@ && m.asn == first.asn@);
        if m.vpn_flag {
            let i = choose|i: int| 0 <= i < ok.len() && #[trigger] looks_like_vpn(ok[i]);
            let k = choose|k: int| 0 <= k < sources.len() && f(sources[k]) == Some(#[trigger] ok[i]);
            assert(sources[k] is Ok && looks_like_vpn(sources[k]->Ok_0@));
        }
        if exists|k: int|
            0 <= k < sources.len() && (#[trigger] sources[k]) is Ok && looks_like_vpn(sources[k]->Ok_0@) {
            let k = choose|k: int|
                0 <= k < sources.len() && (#[trigger] sources[k]) is Ok && looks_like_vpn(
                    sources[k]->Ok_0@,
                );
            assert(f(sources[k]) is Some);
            let i = choose|i: int| 0 <= i < ok.len() && ok[i] == f(sources[k])->0;
            assert(looks_like_vpn(ok[i]));
        }
    }
}

/// An address whose provider or ASN name, lowercased, contains any of these
/// words is reported as a VPN: vpn, proxy, hosting, datacenter, cloud,
/// server, vps, dedicated, teleport, outline, wireguard, openvpn, m247, ovh,
/// hetzner, digitalocean, linode, amazon, aws, and the names of well-known
/// VPN, proxy and antivirus-VPN vendors listed below.
pub proof fn lemma_provider_word_means_vpn(info: IpInfoView, word: Seq<char>)
    requires
        (word == "vpn"@
            || word == "proxy"@
            || word == "hosting"@
            || word == "datacenter"@
            || word == "cloud"@
            || word == "server"@
            || word == "vps"@
            || word == "dedicated"@
            || word == "teleport"@
            || word == "outline"@
            || word == "wireguard"@
            || word == "openvpn"@
            || word == "m247"@
            || word == "ovh"@
            || word == "hetzner"@
            || word == "digitalocean"@
            || word == "linode"@
            || word == "amazon"@
            || word == "aws"@
            || word == "mullvad"@
            || word == "nord"@
            || word == "nordvpn"@
            || word == "expressvpn"@
            || word == "surfshark"@
            || word == "proton"@
            || word == "protonvpn"@
            || word == "windscribe"@
            || word == "cyberghost"@
            || word == "private internet access"@
            || word == "pia"@
            || word == "hotspot shield"@
            || word == "tunnelbear"@
            || word == "hide.me"@
            || word == "hideme"@
            || word == "torguard"@
            || word == "ivpn"@
            || word == "airvpn"@
            || word == "zoogvpn"@
            || word == "wevpn"@
            || word == "purevpn"@
            || word == "strongvpn"@
            || word == "vyprvpn"@
            || word == "ipvanish"@
            || word == "kaspersky"@
            || word == "avast"@
            || word == "avg"@
            || word == "bitdefender"@
            || word == "mcafee"@
            || word == "norton"@
            || word == "whoer"@
            || word == "frkn"@),
        seq_contains(lowercase(info.org), word) || seq_contains(lowercase(info.asn), word),
    ensures
        looks_like_vpn(info),
{
    assert(vpn_keywords()[0] == "vpn"@);
    assert(vpn_keywords()[1] == "proxy"@);
    assert(vpn_keywords()[2] == "hosting"@);
    assert(vpn_keywords()[3] == "datacenter"@);
    assert(vpn_keywords()[4] == "cloud"@);
    assert(vpn_keywords()[5] == "server"@);
    assert(vpn_keywords()[6] == "vps"@);
    assert(vpn_keywords()[7] == "dedicated"@);
    assert(vpn_keywords()[8] == "teleport"@);
    assert(vpn_keywords()[9] == "outline"@);
    assert(vpn_keywords()[10] == "wireguard"@);
    assert(vpn_keywords()[11] == "openvpn"@);
    assert(vpn_keywords()[12] == "m247"@);
    assert(vpn_keywords()[13] == "ovh"@);
    assert(vpn_keywords()[14] == "hetzner"@);
    assert(vpn_keywords()[15] == "digitalocean"@);
    assert(vpn_keywords()[16] == "linode"@);
    assert(vpn_keywords()[17] == "amazon"@);
    assert(vpn_keywords()[18] == "aws"@);
    assert(vpn_keywords()[19] == "mullvad"@);
    assert(vpn_keywords()[20] == "nord"@);
    assert(vpn_keywords()[21] == "nordvpn"@);
    assert(vpn_keywords()[22] == "expressvpn"@);
    assert(vpn_keywords()[23] == "surfshark"@);
    assert(vpn_keywords()[24] == "proton"@);
    assert(vpn_keywords()[25] == "protonvpn"@);
    assert(vpn_keywords()[26] == "windscribe"@);
    assert(vpn_keywords()[27] == "cyberghost"@);
    assert(vpn_keywords()[28] == "private internet access"@);
    assert(vpn_keywords()[29] == "pia"@);
    assert(vpn_keywords()[30] == "hotspot shield"@);
    assert(vpn_keywords()[31] == "tunnelbear"@);
    assert(vpn_keywords()[32] == "hide.me"@);
    assert(vpn_keywords()[33] == "hideme"@);
    assert(vpn_keywords()[34] == "torguard"@);
    assert(vpn_keywords()[35] == "ivpn"@);
    assert(vpn_keywords()[36] == "airvpn"@);
    assert(vpn_keywords()[37] == "zoogvpn"@);
    assert(vpn_keywords()[38] == "wevpn"@);
    assert(vpn_keywords()[39] == "purevpn"@);
    assert(vpn_keywords()[40] == "strongvpn"@);
    assert(vpn_keywords()[41] == "vyprvpn"@);
    assert(vpn_keywords()[42] == "ipvanish"@);
    assert(vpn_keywords()[43] == "kaspersky"@);
    assert(vpn_keywords()[44] == "avast"@);
    assert(vpn_keywords()[45] == "avg"@);
    assert(vpn_keywords()[46] == "bitdefender"@);
    assert(vpn_keywords()[47] == "mcafee"@);
    assert(vpn_keywords()[48] == "norton"@);
    assert(vpn_keywords()[49] == "whoer"@);
    assert(vpn_keywords()[50] == "frkn"@);
    assert(vpn_keywords().len() == 51);
}

/// An address is reported as a VPN only when a service flagged it or its
/// lowercased provider or ASN name contains one of the words of
/// [`lemma_provider_word_means_vpn`].
pub proof fn lemma_vpn_only_by_flag_or_word(info: IpInfoView)
    requires
        looks_like_vpn(info),
    ensures
        info.vpn_flag || exists|w: Seq<char>|
            (
            w == "vpn"@
                || w == "proxy"@
                || w == "hosting"@
                || w == "datacenter"@
                || w == "cloud"@
                || w == "server"@
                || w == "vps"@
                || w == "dedicated"@
                || w == "teleport"@
                || w == "outline"@
                || w == "wireguard"@
                || w == "openvpn"@
                || w == "m247"@
                || w == "ovh"@
                || w == "hetzner"@
                || w == "digitalocean"@
                || w == "linode"@
                || w == "amazon"@
                || w == "aws"@
                || w == "mullvad"@
                || w == "nord"@
                || w == "nordvpn"@
                || w == "expressvpn"@
                || w == "surfshark"@
                || w == "proton"@
                || w == "protonvpn"@
                || w == "windscribe"@
                || w == "cyberghost"@
                || w == "private internet access"@
                || w == "pia"@
                || w == "hotspot shield"@
                || w == "tunnelbear"@
                || w == "hide.me"@
                || w == "hideme"@
                || w == "torguard"@
                || w == "ivpn"@
                || w == "airvpn"@
                || w == "zoogvpn"@
                || w == "wevpn"@
                || w == "purevpn"@
                || w == "strongvpn"@
                || w == "vyprvpn"@
                || w == "ipvanish"@
                || w == "kaspersky"@
                || w == "avast"@
                || w == "avg"@
                || w == "bitdefender"@
                || w == "mcafee"@
                || w == "norton"@
                || w == "whoer"@
                || w == "frkn"@
            ) && (seq_contains(lowercase(info.org), w) || seq_contains(lowercase(info.asn), w)),
{
    assert(vpn_keywords()[0] == "vpn"@);
    assert(vpn_keywords()[1] == "proxy"@);
    assert(vpn_keywords()[2] == "hosting"@);
    assert(vpn_keywords()[3] == "datacenter"@);
    assert(vpn_keywords()[4] == "cloud"@);
    assert(vpn_keywords()[5] == "server"@);
    assert(vpn_keywords()[6] == "vps"@);
    assert(vpn_keywords()[7] == "dedicated"@);
    assert(vpn_keywords()[8] == "teleport"@);
    assert(vpn_keywords()[9] == "outline"@);
    assert(vpn_keywords()[10] == "wireguard"@);
    assert(vpn_keywords()[11] == "openvpn"@);
    assert(vpn_keywords()[12] == "m247"@);
    assert(vpn_keywords()[13] == "ovh"@);
    assert(vpn_keywords()[14] == "hetzner"@);
    assert(vpn_keywords()[15] == "digitalocean"@);
    assert(vpn_keywords()[16] == "linode"@);
    assert(vpn_keywords()[17] == "amazon"@);
    assert(vpn_keywords()[18] == "aws"@);
    assert(vpn_keywords()[19] == "mullvad"@);
    assert(vpn_keywords()[20] == "nord"@);
    assert(vpn_keywords()[21] == "nordvpn"@);
    assert(vpn_keywords()[22] == "expressvpn"@);
    assert(vpn_keywords()[23] == "surfshark"@);
    assert(vpn_keywords()[24] == "proton"@);
    assert(vpn_keywords()[25] == "protonvpn"@);
    assert(vpn_keywords()[26] == "windscribe"@);
    assert(vpn_keywords()[27] == "cyberghost"@);
    assert(vpn_keywords()[28] == "private internet access"@);
    assert(vpn_keywords()[29] == "pia"@);
    assert(vpn_keywords()[30] == "hotspot shield"@);
    assert(vpn_keywords()[31] == "tunnelbear"@);
    assert(vpn_keywords()[32] == "hide.me"@);
    assert(vpn_keywords()[33] == "hideme"@);
    assert(vpn_keywords()[34] == "torguard"@);
    assert(vpn_keywords()[35] == "ivpn"@);
    assert(vpn_keywords()[36] == "airvpn"@);
    assert(vpn_keywords()[37] == "zoogvpn"@);
    assert(vpn_keywords()[38] == "wevpn"@);
    assert(vpn_keywords()[39] == "purevpn"@);
    assert(vpn_keywords()[40] == "strongvpn"@);
    assert(vpn_keywords()[41] == "vyprvpn"@);
    assert(vpn_keywords()[42] == "ipvanish"@);
    assert(vpn_keywords()[43] == "kaspersky"@);
    assert(vpn_keywords()[44] == "avast"@);
    assert(vpn_keywords()[45] == "avg"@);
    assert(vpn_keywords()[46] == "bitdefender"@);
    assert(vpn_keywords()[47] == "mcafee"@);
    assert(vpn_keywords()[48] == "norton"@);
    assert(vpn_keywords()[49] == "whoer"@);
    assert(vpn_keywords()[50] == "frkn"@);
    if !info.vpn_flag {
        let k = choose|k: int|
            0 <= k < vpn_keywords().len() && (seq_contains(
                lowercase(info.org),
                #[trigger] vpn_keywords()[k],
            ) || seq_contains(lowercase(info.asn), vpn_keywords()[k]));
        let w = vpn_keywords()[k];
        if k == 0 {
        } else if k == 1 {
        } else if k == 2 {
        } else if k == 3 {
        } else if k == 4 {
        } else if k == 5 {
        } else if k == 6 {
        } else if k == 7 {
        } else if k == 8 {
        } else if k == 9 {
        } else if k == 10 {
        } else if k == 11 {
        } else if k == 12 {
        } else if k == 13 {
        } else if k == 14 {
        } else if k == 15 {
        } else if k == 16 {
        } else if k == 17 {
        } else if k == 18 {
        } else if k == 19 {
        } else if k == 20 {
        } else if k == 21 {
        } else if k == 22 {
        } else if k == 23 {
        } else if k == 24 {
        } else if k == 25 {
        } else if k == 26 {
        } else if k == 27 {
        } else if k == 28 {
        } else if k == 29 {
        } else if k == 30 {
        } else if k == 31 {
        } else if k == 32 {
        } else if k == 33 {
        } else if k == 34 {
        } else if k == 35 {
        } else if k == 36 {
        } else if k == 37 {
        } else if k == 38 {
        } else if k == 39 {
        } else if k == 40 {
        } else if k == 41 {
        } else if k == 42 {
        } else if k == 43 {
        } else if k == 44 {
        } else if k == 45 {
        } else if k == 46 {
        } else if k == 47 {
        } else if k == 48 {
        } else if k == 49 {
        } else {
        }
        assert(seq_contains(lowercase(info.org), w) || seq_contains(lowercase(info.asn), w));
    }
}

/// An inbound read from an element of a node's `inbounds` array carries that
/// element's `tag`, and its `port` reduced to 16 bits; an element without a
/// text tag or an unsigned port gives none.
pub proof fn lemma_inbound_fields(v: JsonValue)
    ensures
        inbound_of(v) is None <==> (v.field("tag"@).text() is None || v.field("port"@).unsigned() is None),
        inbound_of(v) matches Some(i) ==> v.field("tag"@).text() == Some(i.tag) && i.port as u64
            == v.field("port"@).unsigned()->0 % 65536,
{
    if inbound_of(v) is Some {
        let p = v.field("port"@).unsigned()->0;
        assert((p as u16) as u64 == p % 65536) by (bit_vector);
    }
}

/// A node read from an element of the API's list carries that element's own
/// texts: its `hostname` and `address` (both required), its `label`, `country`
/// and `type` (empty when missing) and its `status` (`Unknown` when missing);
/// each of its inbounds is read from an element of the element's `inbounds`
/// array, and it has none when there is no such array.
pub proof fn lemma_node_fields(v: JsonValue)
    ensures
        node_of(v) is None <==> (v.field("hostname"@).text() is None || v.field("address"@).text()
            is None),
        node_of(v) matches Some(n) ==> {
            &&& v.field("hostname"@).text() == Some(n.hostname)
            &&& v.field("address"@).text() == Some(n.address)
            &&& n.label == (match v.field("label"@).text() {
                Some(t) => t,
                None => Seq::<char>::empty(),
            })
            &&& n.country == (match v.field("country"@).text() {
                Some(t) => t,
                None => Seq::<char>::empty(),
            })
            &&& n.node_type == (match v.field("type"@).text() {
                Some(t) => t,
                None => Seq::<char>::empty(),
            })
            &&& n.api_status == (match v.field("status"@).text() {
                Some(t) => t,
                None => seq!['U', 'n', 'k', 'n', 'o', 'w', 'n'],
            })
            &&& v.field("inbounds"@).elements() is None ==> n.inbounds.len() == 0
            &&& v.field("inbounds"@).elements() matches Some(items) ==> forall|k: int|
                0 <= k < n.inbounds.len() ==> exists|j: int|
                    0 <= j < items.len() && inbound_of(items[j]) == Some(#[trigger] n.inbounds[k])
        },
{
    reveal_strlit("");
    reveal_strlit("Unknown");
    if node_of(v) is Some {
        let n = node_of(v)->0;
        assert(seq!['U', 'n', 'k', 'n', 'o', 'w', 'n'] =~= "Unknown"@);
        match v.field("inbounds"@).elements() {
            Some(items) => {
                lemma_filter_map_members(items, |i: JsonValue| inbound_of(i));
            },
            None => {},
        }
    }
}

/// The nodes read from a list of elements.
pub open spec fn listed_nodes(items: Seq<JsonValue>) -> Seq<NodeView> {
    filter_map(items, |v: JsonValue| node_of(v))
}

/// The nodes read from the API's answer are exactly its elements that name a
/// hostname and an address, each read from its own element, in order: every
/// node comes from an element, and every such element gives a node.
#[verifier::spinoff_prover]
#[verifier::rlimit(40)]
pub proof fn lemma_listed_nodes(items: Seq<JsonValue>)
    ensures
        listed_nodes(items).len() <= items.len(),
        forall|i: int|
            0 <= i < listed_nodes(items).len() ==> exists|j: int|
                0 <= j < items.len() && node_of(items[j]) == Some(#[trigger] listed_nodes(items)[i]),
        forall|j: int|
            0 <= j < items.len() && (#[trigger] items[j]).field("hostname"@).text() is Some
                && items[j].field("address"@).text() is Some ==> exists|i: int|
                0 <= i < listed_nodes(items).len() && Some(listed_nodes(items)[i]) == node_of(
                    items[j],
                ),
{
    let f = |v: JsonValue| node_of(v);
    lemma_filter_map_members(items, f);
    assert(listed_nodes(items) == filter_map(items, f));
    assert forall|j: int|
        0 <= j < items.len() && (#[trigger] items[j]).field("hostname"@).text() is Some
            && items[j].field("address"@).text() is Some implies exists|i: int|
        0 <= i < listed_nodes(items).len() && Some(listed_nodes(items)[i]) == node_of(items[j]) by {
        lemma_node_fields(items[j]);
        assert(f(items[j]) is Some);
    }
    assert forall|i: int| 0 <= i < listed_nodes(items).len() implies exists|j: int|
        0 <= j < items.len() && node_of(items[j]) == Some(#[trigger] listed_nodes(items)[i]) by {
        let j = choose|j: int| 0 <= j < items.len() && f(items[j]) == Some(#[trigger] filter_map(items, f)[i]);
    }
}

/// What `ip_info_from_ipapi` reads from the ipapi.co answer: each text from its own member,
/// empty when missing, and the VPN flag set exactly when one of the service's
/// threat flags is `true`.
pub proof fn lemma_ipapi_fields(json: JsonValue)
    ensures
        ipapi_info(json).ip == (match json.field("ip"@).text() { Some(t) => t, None => Seq::<char>::empty() }),
        ipapi_info(json).city == (match json.field("city"@).text() { Some(t) => t, None => Seq::<char>::empty() }),
        ipapi_info(json).region == (match json.field("region"@).text() { Some(t) => t, None => Seq::<char>::empty() }),
        ipapi_info(json).country_name == (match json.field("country_name"@).text() { Some(t) => t, None => Seq::<char>::empty() }),
        ipapi_info(json).country_code == (match json.field("country_code"@).text() { Some(t) => t, None => Seq::<char>::empty() }),
        ipapi_info(json).org == (match json.field("org"@).text() { Some(t) => t, None => Seq::<char>::empty() }),
        ipapi_info(json).asn == (match json.field("asn"@).text() { Some(t) => t, None => Seq::<char>::empty() }),
        ipapi_info(json).vpn_flag <==> (json.field("threat"@).field("is_anonymous"@).boolean() == Some(true) || json.field("threat"@).field("is_proxy"@).boolean() == Some(true) || json.field("threat"@).field("is_vpn"@).boolean() == Some(true)),
{
    reveal_strlit("");
}

/// What `ip_info_from_ipwhois` reads from the ipwho.is answer: each text from its own member,
/// empty when missing, and the VPN flag set exactly when one of the service's
/// security flags is `true`.
pub proof fn lemma_ipwhois_fields(json: JsonValue)
    ensures
        ipwhois_info(json).ip == (match json.field("ip"@).text() { Some(t) => t, None => Seq::<char>::empty() }),
        ipwhois_info(json).city == (match json.field("city"@).text() { Some(t) => t, None => Seq::<char>::empty() }),
        ipwhois_info(json).region == (match json.field("region"@).text() { Some(t) => t, None => Seq::<char>::empty() }),
        ipwhois_info(json).country_name == (match json.field("country"@).text() { Some(t) => t, None => Seq::<char>::empty() }),
        ipwhois_info(json).country_code == (match json.field("country_code"@).text() { Some(t) => t, None => Seq::<char>::empty() }),
        ipwhois_info(json).org == (match json.field("connection"@).field("org"@).text() { Some(t) => t, None => (match json.field("org"@).text() { Some(t) => t, None => Seq::<char>::empty() }) }),
        ipwhois_info(json).asn == (match json.field("connection"@).field("asn"@).text() { Some(t) => t, None => Seq::<char>::empty() }),
        ipwhois_info(json).vpn_flag <==> (json.field("security"@).field("vpn"@).boolean() == Some(true) || json.field("security"@).field("proxy"@).boolean() == Some(true) || json.field("security"@).field("datacenter"@).boolean() == Some(true) || json.field("security"@).field("tor"@).boolean() == Some(true)),
{
    reveal_strlit("");
}

/// What `ip_info_from_ipinfo` reads from the ipinfo.io answer: each text from its own member,
/// empty when missing, and the VPN flag set exactly when one of the service's
/// privacy flags is `true`.
pub proof fn lemma_ipinfo_fields(json: JsonValue)
    ensures
        ipinfo_info(json).ip == (match json.field("ip"@).text() { Some(t) => t, None => Seq::<char>::empty() }),
        ipinfo_info(json).city == (match json.field("city"@).text() { Some(t) => t, None => Seq::<char>::empty() }),
        ipinfo_info(json).region == (match json.field("region"@).text() { Some(t) => t, None => Seq::<char>::empty() }),
        ipinfo_info(json).country_name == (match json.field("country"@).text() { Some(t) => t, None => Seq::<char>::empty() }),
        ipinfo_info(json).country_code == (match json.field("country"@).text() { Some(t) => t, None => Seq::<char>::empty() }),
        ipinfo_info(json).org == (match json.field("org"@).text() { Some(t) => t, None => Seq::<char>::empty() }),
        ipinfo_info(json).asn == (match json.field("asn"@).text() { Some(t) => t, None => (match json.field("org"@).text() { Some(t) => t, None => Seq::<char>::empty() }) }),
        ipinfo_info(json).vpn_flag <==> (json.field("privacy"@).field("vpn"@).boolean() == Some(true) || json.field("privacy"@).field("proxy"@).boolean() == Some(true) || json.field("privacy"@).field("hosting"@).boolean() == Some(true) || json.field("privacy"@).field("tor"@).boolean() == Some(true)),
{
    reveal_strlit("");
}

/// The summary starts with the address; it is the address alone when city,
/// country and provider are all unknown; each known one of them adds the
/// separator ` • ` and its own text, the city right after the address and
/// the provider last; region, country code and ASN never appear.
pub proof fn lemma_summary_shape(info: IpInfoView)
    ensures
        ({
            let sum = summary_of(info);
            let sep = seq![' ', '•', ' '];
            let extra = |t: Seq<char>| if t.len() > 0 { 3 + t.len() as int } else { 0int };
            &&& sum.subrange(0, info.ip.len() as int) == info.ip
            &&& sum.len() == info.ip.len() + extra(info.city) + extra(info.country_name) + extra(
                info.org,
            )
            &&& (info.city.len() == 0 && info.country_name.len() == 0 && info.org.len() == 0)
                ==> sum == info.ip
            &&& info.city.len() > 0 ==> sum.subrange(
                info.ip.len() as int,
                (info.ip.len() + 3 + info.city.len()) as int,
            ) == sep + info.city
            &&& info.org.len() > 0 ==> sum.subrange(
                sum.len() - 3 - info.org.len(),
                sum.len() as int,
            ) == sep + info.org
        }),
{
    reveal_strlit(" • ");
    let sep = seq![' ', '•', ' '];
    assert(" • "@ =~= sep);
    let sum = summary_of(info);
    let a = info.ip;
    let b = summary_part(info.city);
    let c = summary_part(info.country_name);
    let d = summary_part(info.org);
    assert(sum == a + b + c + d);
    assert(sum.subrange(0, a.len() as int) =~= a);
    if info.city.len() > 0 {
        assert(sum.subrange(a.len() as int, (a.len() + 3 + info.city.len()) as int) =~= sep + info.city);
    }
    if info.org.len() > 0 {
        assert(sum.subrange(sum.len() - 3 - info.org.len(), sum.len() as int) =~= sep + info.org);
    }
    if info.city.len() == 0 && info.country_name.len() == 0 && info.org.len() == 0 {
        assert(sum =~= a);
    }
}

} // verus!
