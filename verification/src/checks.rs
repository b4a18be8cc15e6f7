//! Reachability of the FRKN servers: from the probe outcomes that the
//! browser measured to each server's status, and the summary of them all.
use vstd::prelude::*;

use crate::i18n::{t, translation, Lang};
use crate::network::{nodes_view, filter_map, lemma_filter_map_step, FrknNode, NodeView};
use crate::services::ServiceStatus;
use crate::text::str_eq;
use crate::urls::{favicon_url, favicon_url_of, port_probe_url, port_probe_url_of, FRKN_NODES_URL};

verus! {

/// What one probe found: the status and, when reached, the latency in ms.
pub type Probe = (ServiceStatus, Option<u32>);

/// Status of one inbound port of a FRKN server, as probed from the browser.
#[derive(Clone, Debug)]
pub struct FrknInboundStatus {
    pub tag: String,
    pub port: u16,
    pub browser_status: ServiceStatus,
    pub latency_ms: Option<u32>,
}

/// The contents of a [`FrknInboundStatus`].
pub struct InboundStatusView {
    pub tag: Seq<char>,
    pub port: u16,
    pub browser_status: ServiceStatus,
    pub latency_ms: Option<u32>,
}

impl View for FrknInboundStatus {
    type V = InboundStatusView;

    open spec fn view(&self) -> InboundStatusView {
        InboundStatusView {
            tag: self.tag@,
            port: self.port,
            browser_status: self.browser_status,
            latency_ms: self.latency_ms,
        }
    }
}

/// Status of one FRKN server (or of the FRKN API), as probed from the browser.
#[derive(Clone, Debug)]
pub struct FrknNodeStatus {
    pub label: String,
    pub hostname: String,
    pub address: String,
    pub country: String,
    pub api_status: String,
    pub node_type: String,
    pub browser_status: ServiceStatus,
    pub latency_ms: Option<u32>,
    pub inbounds: Vec<FrknInboundStatus>,
}

/// The contents of a [`FrknNodeStatus`].
pub struct NodeStatusView {
    pub label: Seq<char>,
    pub hostname: Seq<char>,
    pub address: Seq<char>,
    pub country: Seq<char>,
    pub api_status: Seq<char>,
    pub node_type: Seq<char>,
    pub browser_status: ServiceStatus,
    pub latency_ms: Option<u32>,
    pub inbounds: Seq<InboundStatusView>,
}

/// The contents of a list of inbound statuses.
pub open spec fn inbound_statuses_view(v: Seq<FrknInboundStatus>) -> Seq<InboundStatusView> {
    v.map_values(|i: FrknInboundStatus| i@)
}

impl View for FrknNodeStatus {
    type V = NodeStatusView;

    open spec fn view(&self) -> NodeStatusView {
        NodeStatusView {
            label: self.label@,
            hostname: self.hostname@,
            address: self.address@,
            country: self.country@,
            api_status: self.api_status@,
            node_type: self.node_type@,
            browser_status: self.browser_status,
            latency_ms: self.latency_ms,
            inbounds: inbound_statuses_view(self.inbounds@),
        }
    }
}

impl FrknNodeStatus {
    /// The same status, copied.
    pub fn duplicate(&self) -> (r: FrknNodeStatus)
        ensures
            r@ == self@,
    {
        let n = self.inbounds.len();
        let mut inbounds: Vec<FrknInboundStatus> = Vec::new();
        let mut i: usize = 0;
        while i < n
            invariant
                n == self.inbounds@.len(),
                i <= n,
                inbounds@.len() == i,
                inbound_statuses_view(inbounds@) == inbound_statuses_view(self.inbounds@).subrange(
                    0,
                    i as int,
                ),
            decreases n - i,
        {
            let inb = &self.inbounds[i];
            let copy = FrknInboundStatus {
                tag: inb.tag.clone(),
                port: inb.port,
                browser_status: inb.browser_status,
                latency_ms: inb.latency_ms,
            };
            assert(copy@ == self.inbounds@[i as int]@);
            let ghost before = inbounds@;
            inbounds.push(copy);
            assert forall|k: int| 0 <= k < i + 1 implies #[trigger] inbound_statuses_view(
                inbounds@,
            )[k] == inbound_statuses_view(self.inbounds@)[k] by {
                if k < i {
                    assert(inbounds@[k] == before[k]);
                    assert(inbound_statuses_view(before)[k] == inbound_statuses_view(
                        self.inbounds@,
                    ).subrange(0, i as int)[k]);
                }
            }
            assert(inbound_statuses_view(inbounds@) =~= inbound_statuses_view(
                self.inbounds@,
            ).subrange(0, i + 1));
            i = i + 1;
        }
        assert(inbound_statuses_view(self.inbounds@).subrange(0, n as int)
            =~= inbound_statuses_view(self.inbounds@));
        FrknNodeStatus {
            label: self.label.clone(),
            hostname: self.hostname.clone(),
            address: self.address.clone(),
            country: self.country.clone(),
            api_status: self.api_status.clone(),
            node_type: self.node_type.clone(),
            browser_status: self.browser_status,
            latency_ms: self.latency_ms,
            inbounds,
        }
    }
}

/// The contents of a list of server statuses.
pub open spec fn statuses_view(v: Seq<FrknNodeStatus>) -> Seq<NodeStatusView> {
    v.map_values(|s: FrknNodeStatus| s@)
}

/// How many of the FRKN servers the browser reaches.
#[derive(Clone, Copy, Debug, PartialEq, Eq, Structural)]
pub enum FrknAggregateStatus {
    AllOnline,
    Partial,
    AllOffline,
    Error,
}

impl FrknAggregateStatus {
    /// The translation key of this summary's label.
    pub open spec fn label_key(self) -> Seq<char> {
        match self {
            FrknAggregateStatus::AllOnline => "aggregate_all_online"@,
            FrknAggregateStatus::Partial => "aggregate_partial"@,
            FrknAggregateStatus::AllOffline => "aggregate_all_offline"@,
            FrknAggregateStatus::Error => "aggregate_error"@,
        }
    }

    /// The label of this summary in `lang`.
    pub fn label_for(&self, lang: Lang) -> (r: &'static str)
        ensures
            r@ == translation(lang, self.label_key()),
    {
        let key: &'static str = match self {
            FrknAggregateStatus::AllOnline => "aggregate_all_online",
            FrknAggregateStatus::Partial => "aggregate_partial",
            FrknAggregateStatus::AllOffline => "aggregate_all_offline",
            FrknAggregateStatus::Error => "aggregate_error",
        };
        t(lang, key)
    }

    /// The text colour class of this summary.
    pub open spec fn spec_color_class(self) -> Seq<char> {
        match self {
            FrknAggregateStatus::AllOnline => "text-emerald-400"@,
            FrknAggregateStatus::Partial => "text-yellow-400"@,
            FrknAggregateStatus::AllOffline => "text-rose-400"@,
            FrknAggregateStatus::Error => "text-orange-400"@,
        }
    }

    /// Tailwind text colour class for this summary.
    pub fn color_class(&self) -> (r: &'static str)
        ensures
            r@ == self.spec_color_class(),
    {
        match self {
            FrknAggregateStatus::AllOnline => "text-emerald-400",
            FrknAggregateStatus::Partial => "text-yellow-400",
            FrknAggregateStatus::AllOffline => "text-rose-400",
            FrknAggregateStatus::Error => "text-orange-400",
        }
    }

    /// The background and border classes of this summary's card.
    pub open spec fn spec_bg_class(self) -> Seq<char> {
        match self {
            FrknAggregateStatus::AllOnline => "bg-emerald-500/[0.08] border-emerald-500/30"@,
            FrknAggregateStatus::Partial => "bg-yellow-500/[0.08] border-yellow-500/30"@,
            FrknAggregateStatus::AllOffline => "bg-rose-500/[0.08] border-rose-500/30"@,
            FrknAggregateStatus::Error => "bg-orange-500/[0.08] border-orange-500/30"@,
        }
    }

    /// Tailwind background and border classes for this summary's card.
    pub fn bg_class(&self) -> (r: &'static str)
        ensures
            r@ == self.spec_bg_class(),
    {
        match self {
            FrknAggregateStatus::AllOnline => "bg-emerald-500/[0.08] border-emerald-500/30",
            FrknAggregateStatus::Partial => "bg-yellow-500/[0.08] border-yellow-500/30",
            FrknAggregateStatus::AllOffline => "bg-rose-500/[0.08] border-rose-500/30",
            FrknAggregateStatus::Error => "bg-orange-500/[0.08] border-orange-500/30",
        }
    }
}

/// The outcome of fetching a URL without CORS: reached, with the latency
/// rounded up to at least 1 ms, or offline.
pub open spec fn fetch_probe(elapsed_ms: Option<u32>) -> Probe {
    match elapsed_ms {
        Some(e) => (ServiceStatus::Online, Some(if e < 1 { 1 } else { e })),
        None => (ServiceStatus::Offline, None),
    }
}

/// The status of a fetch probe that took `elapsed_ms`, or that failed or
/// timed out (`None`).
pub fn fetch_probe_status(elapsed_ms: Option<u32>) -> (r: Probe)
    ensures
        r == fetch_probe(elapsed_ms),
{
    match elapsed_ms {
        Some(e) => (ServiceStatus::Online, Some(if e < 1 { 1 } else { e })),
        None => (ServiceStatus::Offline, None),
    }
}

/// The outcome of a WebSocket handshake with an inbound port: an error when
/// the socket could not be opened, reached (latency at least 1 ms) when the
/// handshake ended before the timeout, else offline.
pub open spec fn port_probe(opened: bool, reachable: bool, elapsed_ms: u32) -> Probe {
    if !opened {
        (ServiceStatus::Error, None)
    } else if reachable {
        (ServiceStatus::Online, Some(if elapsed_ms < 1 { 1 } else { elapsed_ms }))
    } else {
        (ServiceStatus::Offline, None)
    }
}

/// The status of a port probe.
pub fn port_probe_status(opened: bool, reachable: bool, elapsed_ms: u32) -> (r: Probe)
    ensures
        r == port_probe(opened, reachable, elapsed_ms),
{
    if !opened {
        (ServiceStatus::Error, None)
    } else if reachable {
        (ServiceStatus::Online, Some(if elapsed_ms < 1 { 1 } else { elapsed_ms }))
    } else {
        (ServiceStatus::Offline, None)
    }
}

/// Node type of the premium servers, which the public page leaves out.
pub const PREMIUM_NODE_TYPE: &'static str = "PremiumNode";

/// Host of the FRKN API, probed as a server of its own.
pub const API_HOSTNAME: &'static str = "api.frkn.org";

/// A server that the public page probes: any but a premium one.
pub open spec fn is_checkable(node: NodeView) -> bool {
    node.node_type != PREMIUM_NODE_TYPE@
}

/// The servers that the page probes, in order.
pub open spec fn checkable(nodes: Seq<NodeView>) -> Seq<NodeView> {
    filter_map(nodes, |n: NodeView| if is_checkable(n) { Some(n) } else { None })
}

/// The servers to probe: all but the premium ones, in order.
pub fn checkable_nodes(nodes: &[FrknNode]) -> (r: Vec<FrknNode>)
    ensures
        nodes_view(r@) == checkable(nodes_view(nodes@)),
{
    let ghost f = |n: NodeView| if is_checkable(n) { Some(n) } else { None };
    let n = nodes.len();
    let mut out: Vec<FrknNode> = Vec::new();
    let mut i: usize = 0;
    while i < n
        invariant
            n == nodes@.len(),
            i <= n,
            f == (|n: NodeView| if is_checkable(n) { Some(n) } else { None }),
            nodes_view(out@) == filter_map(nodes_view(nodes@).subrange(0, i as int), f),
        decreases n - i,
    {
        proof {
            lemma_filter_map_step(nodes_view(nodes@), f, i as int);
        }
        let node = &nodes[i];
        assert(nodes_view(nodes@)[i as int] == node@);
        if !str_eq(node.node_type.as_str(), PREMIUM_NODE_TYPE) {
            let ghost before = out@;
            out.push(node.duplicate());
            assert(nodes_view(out@) =~= nodes_view(before).push(node@));
        }
        i = i + 1;
    }
    assert(nodes_view(nodes@).subrange(0, n as int) =~= nodes_view(nodes@));
    out
}

/// The probes that the page makes: the favicon of every server that is not
/// premium, one WebSocket handshake per inbound of such a server, and the
/// FRKN API's node list.
pub struct ProbePlan {
    /// One favicon address per checked server, in order.
    pub favicon_urls: Vec<String>,
    /// Per checked server, one WebSocket address per inbound, in order.
    pub port_urls: Vec<Vec<String>>,
    /// The address probed for the FRKN API itself.
    pub api_url: String,
}

/// `plan` holds exactly the probes the page makes for `nodes`.
pub open spec fn plans_probes_of(nodes: Seq<NodeView>, plan: ProbePlan) -> bool {
    let checked = checkable(nodes);
    &&& plan.favicon_urls@.len() == checked.len()
    &&& plan.port_urls@.len() == checked.len()
    &&& forall|i: int|
        0 <= i < checked.len() ==> #[trigger] plan.favicon_urls@[i]@ == favicon_url_of(
            checked[i].hostname,
        )
    &&& forall|i: int|
        0 <= i < checked.len() ==> #[trigger] plan.port_urls@[i]@.len()
            == checked[i].inbounds.len()
    &&& forall|i: int, k: int|
        0 <= i < checked.len() && 0 <= k < checked[i].inbounds.len()
            ==> #[trigger] plan.port_urls@[i]@[k]@ == port_probe_url_of(
            checked[i].hostname,
            checked[i].inbounds[k].port,
        )
    &&& plan.api_url@ == FRKN_NODES_URL@
}

/// The addresses of a server's port probes.
fn port_urls_of(node: &FrknNode) -> (r: Vec<String>)
    ensures
        r@.len() == node@.inbounds.len(),
        forall|k: int|
            0 <= k < r@.len() ==> #[trigger] r@[k]@ == port_probe_url_of(
                node@.hostname,
                node@.inbounds[k].port,
            ),
{
    let n = node.inbounds.len();
    let mut out: Vec<String> = Vec::new();
    let mut k: usize = 0;
    while k < n
        invariant
            n == node.inbounds@.len(),
            k <= n,
            out@.len() == k,
            forall|j: int|
                0 <= j < k ==> #[trigger] out@[j]@ == port_probe_url_of(
                    node@.hostname,
                    node@.inbounds[j].port,
                ),
        decreases n - k,
    {
        assert(node@.inbounds[k as int] == node.inbounds@[k as int]@);
        out.push(port_probe_url(node.hostname.as_str(), node.inbounds[k].port));
        k = k + 1;
    }
    out
}

/// The probes to make for `nodes`: favicon and ports of every server but the
/// premium ones, in order, and the FRKN API's node list.
pub fn probe_plan(nodes: &[FrknNode]) -> (r: ProbePlan)
    ensures
        plans_probes_of(nodes_view(nodes@), r),
{
    let checked = checkable_nodes(nodes);
    let ghost cv = nodes_view(checked@);
    let n = checked.len();
    let mut favicon_urls: Vec<String> = Vec::new();
    let mut port_urls: Vec<Vec<String>> = Vec::new();
    let mut i: usize = 0;
    while i < n
        invariant
            n == checked@.len(),
            cv == nodes_view(checked@),
            cv == checkable(nodes_view(nodes@)),
            i <= n,
            favicon_urls@.len() == i,
            port_urls@.len() == i,
            forall|j: int|
                0 <= j < i ==> #[trigger] favicon_urls@[j]@ == favicon_url_of(cv[j].hostname),
            forall|j: int| 0 <= j < i ==> #[trigger] port_urls@[j]@.len() == cv[j].inbounds.len(),
            forall|j: int, k: int|
                0 <= j < i && 0 <= k < cv[j].inbounds.len() ==> #[trigger] port_urls@[j]@[k]@
                    == port_probe_url_of(cv[j].hostname, cv[j].inbounds[k].port),
        decreases n - i,
    {
        let node = &checked[i];
        assert(cv[i as int] == node@);
        favicon_urls.push(favicon_url(node.hostname.as_str()));
        let ports = port_urls_of(node);
        let ghost before = port_urls@;
        port_urls.push(ports);
        assert forall|j: int, k: int|
            0 <= j < i + 1 && 0 <= k < cv[j].inbounds.len() implies #[trigger] port_urls@[j]@[k]@
                == port_probe_url_of(cv[j].hostname, cv[j].inbounds[k].port) by {
            if j < i {
                assert(port_urls@[j] == before[j]);
            }
        }
        i = i + 1;
    }
    ProbePlan { favicon_urls, port_urls, api_url: String::from_str(FRKN_NODES_URL) }
}

/// Outcomes gathered one per planned probe fit the servers they were made
/// for, so the check can take them.
pub proof fn lemma_planned_outcomes_fit(
    nodes: Seq<NodeView>,
    plan: ProbePlan,
    favicons: Seq<Probe>,
    ports: Seq<Seq<Probe>>,
)
    requires
        plans_probes_of(nodes, plan),
        favicons.len() == plan.favicon_urls@.len(),
        ports.len() == plan.port_urls@.len(),
        forall|i: int| 0 <= i < ports.len() ==> #[trigger] ports[i].len() == plan.port_urls@[i]@.len(),
    ensures
        probes_fit(checkable(nodes), favicons, ports),
{
    assert forall|i: int| 0 <= i < checkable(nodes).len() implies #[trigger] ports[i].len()
        == checkable(nodes)[i].inbounds.len() by {
        assert(ports[i].len() == plan.port_urls@[i]@.len());
    }
}

/// The statuses of a server's inbounds: each inbound with its probe.
pub open spec fn inbound_statuses(node: NodeView, probes: Seq<Probe>) -> Seq<InboundStatusView> {
    Seq::new(
        node.inbounds.len(),
        |k: int|
            InboundStatusView {
                tag: node.inbounds[k].tag,
                port: node.inbounds[k].port,
                browser_status: probes[k].0,
                latency_ms: probes[k].1,
            },
    )
}

/// Some inbound is reachable.
pub open spec fn any_inbound_online(inbounds: Seq<InboundStatusView>) -> bool {
    exists|k: int| 0 <= k < inbounds.len() && #[trigger] inbounds[k].browser_status == ServiceStatus::Online
}

/// The least latency measured on the inbounds, if any was.
pub open spec fn least_latency(inbounds: Seq<InboundStatusView>) -> Option<u32>
    decreases inbounds.len(),
{
    if inbounds.len() == 0 {
        None
    } else {
        let rest = least_latency(inbounds.drop_last());
        match (rest, inbounds.last().latency_ms) {
            (None, l) => l,
            (Some(a), None) => Some(a),
            (Some(a), Some(b)) => Some(if b < a { b } else { a }),
        }
    }
}

/// The status of a server: online with the least inbound latency (else the
/// favicon's) when an inbound is reachable; online with the favicon's
/// latency when only the favicon is; offline otherwise.
pub open spec fn node_status(node: NodeView, favicon: Probe, probes: Seq<Probe>) -> NodeStatusView {
    let inbounds = inbound_statuses(node, probes);
    let (browser_status, latency_ms) = if any_inbound_online(inbounds) {
        (
            ServiceStatus::Online,
            match least_latency(inbounds) {
                Some(l) => Some(l),
                None => favicon.1,
            },
        )
    } else if favicon.0 == ServiceStatus::Online {
        (ServiceStatus::Online, favicon.1)
    } else {
        (ServiceStatus::Offline, None)
    };
    NodeStatusView {
        label: node.label,
        hostname: node.hostname,
        address: node.address,
        country: node.country,
        api_status: node.api_status,
        node_type: node.node_type,
        browser_status,
        latency_ms,
        inbounds,
    }
}

/// The entry of the FRKN API itself.
pub open spec fn api_status_entry(api: Probe) -> NodeStatusView {
    NodeStatusView {
        label: "API"@,
        hostname: API_HOSTNAME@,
        address: API_HOSTNAME@,
        country: Seq::empty(),
        api_status: "API"@,
        node_type: "API"@,
        browser_status: api.0,
        latency_ms: api.1,
        inbounds: Seq::empty(),
    }
}

/// How many of the statuses are online.
pub open spec fn count_online(statuses: Seq<NodeStatusView>) -> nat
    decreases statuses.len(),
{
    if statuses.len() == 0 {
        0
    } else {
        count_online(statuses.drop_last()) + if statuses.last().browser_status
            == ServiceStatus::Online {
            1nat
        } else {
            0nat
        }
    }
}

/// The summary of the statuses: all online, none online (also when there are
/// none), or partly online.
pub open spec fn aggregate(statuses: Seq<NodeStatusView>) -> FrknAggregateStatus {
    let online = count_online(statuses);
    if statuses.len() == 0 {
        FrknAggregateStatus::AllOffline
    } else if online == statuses.len() {
        FrknAggregateStatus::AllOnline
    } else if online == 0 {
        FrknAggregateStatus::AllOffline
    } else {
        FrknAggregateStatus::Partial
    }
}

/// The probe results are complete: one favicon probe per checked server and
/// one port probe per inbound of it.
pub open spec fn probes_fit(
    checked: Seq<NodeView>,
    favicons: Seq<Probe>,
    ports: Seq<Seq<Probe>>,
) -> bool {
    &&& favicons.len() == checked.len()
    &&& ports.len() == checked.len()
    &&& forall|i: int| 0 <= i < checked.len() ==> #[trigger] ports[i].len() == checked[i].inbounds.len()
}

/// The statuses the page lists: each checked server in order, then the API.
pub open spec fn listed_statuses(
    checked: Seq<NodeView>,
    favicons: Seq<Probe>,
    ports: Seq<Seq<Probe>>,
    api: Probe,
) -> Seq<NodeStatusView> {
    Seq::new(checked.len(), |i: int| node_status(checked[i], favicons[i], ports[i])).push(
        api_status_entry(api),
    )
}

/// The port probes of each server, as sequences.
pub open spec fn ports_view(ports: Seq<Vec<Probe>>) -> Seq<Seq<Probe>> {
    ports.map_values(|p: Vec<Probe>| p@)
}

fn copy_text(s: &String) -> (r: String)
    ensures
        r@ == s@,
{
    s.clone()
}

/// The status of one server from its probes.
fn status_of_node(node: &FrknNode, favicon: Probe, probes: &Vec<Probe>) -> (r: FrknNodeStatus)
    requires
        probes@.len() == node@.inbounds.len(),
    ensures
        r@ == node_status(node@, favicon, probes@),
{
    let ghost target = inbound_statuses(node@, probes@);
    let n = node.inbounds.len();
    let mut inbounds: Vec<FrknInboundStatus> = Vec::new();
    let mut any_online = false;
    let mut least: Option<u32> = None;
    let mut k: usize = 0;
    while k < n
        invariant
            n == node.inbounds@.len(),
            n == probes@.len(),
            target == inbound_statuses(node@, probes@),
            k <= n,
            inbounds@.len() == k,
            inbound_statuses_view(inbounds@) == target.subrange(0, k as int),
            any_online == any_inbound_online(target.subrange(0, k as int)),
            least == least_latency(target.subrange(0, k as int)),
        decreases n - k,
    {
        let inb = &node.inbounds[k];
        let probe = probes[k];
        let entry = FrknInboundStatus {
            tag: copy_text(&inb.tag),
            port: inb.port,
            browser_status: probe.0,
            latency_ms: probe.1,
        };
        assert(entry@ == target[k as int]);
        let ghost before = inbounds@;
        if probe.0 == ServiceStatus::Online {
            any_online = true;
        }
        least = match (least, probe.1) {
            (None, l) => l,
            (Some(a), None) => Some(a),
            (Some(a), Some(b)) => Some(if b < a { b } else { a }),
        };
        inbounds.push(entry);
        proof {
            let prefix = target.subrange(0, k as int);
            let next = target.subrange(0, k + 1);
            assert(next.drop_last() =~= prefix);
            assert(next.last() == target[k as int]);
            assert(next[k as int] == target[k as int]);
            assert(target[k as int].browser_status == probe.0);
            if probe.0 == ServiceStatus::Online {
                assert(next[k as int].browser_status == ServiceStatus::Online);
            }
            assert forall|j: int| 0 <= j < k + 1 implies #[trigger] inbound_statuses_view(
                inbounds@,
            )[j] == next[j] by {
                if j < k {
                    assert(inbounds@[j] == before[j]);
                    assert(inbound_statuses_view(before)[j] == prefix[j]);
                }
            }
            assert(inbound_statuses_view(inbounds@) =~= next);
            if any_inbound_online(prefix) {
                let j = choose|j: int|
                    0 <= j < prefix.len() && #[trigger] prefix[j].browser_status
                        == ServiceStatus::Online;
                assert(next[j] == prefix[j]);
            }
            if any_inbound_online(next) {
                let j = choose|j: int|
                    0 <= j < next.len() && #[trigger] next[j].browser_status
                        == ServiceStatus::Online;
                if j < k {
                    assert(next[j] == prefix[j]);
                }
            }
        }
        k = k + 1;
    }
    assert(target.subrange(0, n as int) =~= target);
    let (browser_status, latency_ms) = if any_online {
        (
            ServiceStatus::Online,
            match least {
                Some(l) => Some(l),
                None => favicon.1,
            },
        )
    } else if favicon.0 == ServiceStatus::Online {
        (ServiceStatus::Online, favicon.1)
    } else {
        (ServiceStatus::Offline, None)
    };
    FrknNodeStatus {
        label: copy_text(&node.label),
        hostname: copy_text(&node.hostname),
        address: copy_text(&node.address),
        country: copy_text(&node.country),
        api_status: copy_text(&node.api_status),
        node_type: copy_text(&node.node_type),
        browser_status,
        latency_ms,
        inbounds,
    }
}

/// The entry of the FRKN API from its probe.
fn api_entry(api: Probe) -> (r: FrknNodeStatus)
    ensures
        r@ == api_status_entry(api),
{
    let r = FrknNodeStatus {
        label: String::from_str("API"),
        hostname: String::from_str(API_HOSTNAME),
        address: String::from_str(API_HOSTNAME),
        country: String::new(),
        api_status: String::from_str("API"),
        node_type: String::from_str("API"),
        browser_status: api.0,
        latency_ms: api.1,
        inbounds: Vec::new(),
    };
    assert(r@.inbounds =~= Seq::<InboundStatusView>::empty());
    r
}

/// How many of the statuses are online.
pub fn online_count(statuses: &Vec<FrknNodeStatus>) -> (r: usize)
    ensures
        r == count_online(statuses_view(statuses@)),
        r <= statuses@.len(),
{
    let ghost sv = statuses_view(statuses@);
    let n = statuses.len();
    let mut online: usize = 0;
    let mut i: usize = 0;
    while i < n
        invariant
            n == statuses@.len(),
            sv == statuses_view(statuses@),
            sv.len() == n,
            i <= n,
            online == count_online(sv.subrange(0, i as int)),
            online <= i,
        decreases n - i,
    {
        assert(sv.subrange(0, i + 1).drop_last() =~= sv.subrange(0, i as int));
        assert(sv[i as int] == statuses@[i as int]@);
        if statuses[i].browser_status == ServiceStatus::Online {
            online = online + 1;
        }
        i = i + 1;
    }
    assert(sv.subrange(0, n as int) =~= sv);
    online
}

/// Summarizes the statuses: all online, none online (also when there are
/// none), or partly online.
pub fn aggregate_status(statuses: &Vec<FrknNodeStatus>) -> (r: FrknAggregateStatus)
    ensures
        r == aggregate(statuses_view(statuses@)),
{
    let online = online_count(statuses);
    let total = statuses.len();
    if total == 0 {
        FrknAggregateStatus::AllOffline
    } else if online == total {
        FrknAggregateStatus::AllOnline
    } else if online == 0 {
        FrknAggregateStatus::AllOffline
    } else {
        FrknAggregateStatus::Partial
    }
}

/// The page's check of the FRKN servers, from the probes the browser made:
/// every server but the premium ones, in order, each with its favicon probe
/// and one port probe per inbound, then the FRKN API with its own probe;
/// and the summary of them all.
pub fn check_frkn_nodes(
    nodes: &[FrknNode],
    favicons: &Vec<Probe>,
    ports: &Vec<Vec<Probe>>,
    api: Probe,
) -> (r: (FrknAggregateStatus, Vec<FrknNodeStatus>))
    requires
        probes_fit(checkable(nodes_view(nodes@)), favicons@, ports_view(ports@)),
    ensures
        statuses_view(r.1@) == listed_statuses(
            checkable(nodes_view(nodes@)),
            favicons@,
            ports_view(ports@),
            api,
        ),
        r.0 == aggregate(statuses_view(r.1@)),
{
    let checked = checkable_nodes(nodes);
    let ghost cv = nodes_view(checked@);
    let ghost pv = ports_view(ports@);
    let ghost target = Seq::new(cv.len(), |i: int| node_status(cv[i], favicons@[i], pv[i]));
    let n = checked.len();
    let mut statuses: Vec<FrknNodeStatus> = Vec::new();
    let mut i: usize = 0;
    while i < n
        invariant
            n == checked@.len(),
            cv == nodes_view(checked@),
            cv == checkable(nodes_view(nodes@)),
            pv == ports_view(ports@),
            probes_fit(cv, favicons@, pv),
            target == Seq::new(cv.len(), |i: int| node_status(cv[i], favicons@[i], pv[i])),
            i <= n,
            statuses@.len() == i,
            statuses_view(statuses@) == target.subrange(0, i as int),
        decreases n - i,
    {
        assert(cv[i as int] == checked@[i as int]@);
        assert(pv[i as int] == ports@[i as int]@);
        let s = status_of_node(&checked[i], favicons[i], &ports[i]);
        let ghost before = statuses@;
        statuses.push(s);
        proof {
            assert forall|j: int| 0 <= j < i + 1 implies #[trigger] statuses_view(statuses@)[j]
                == target.subrange(0, i + 1)[j] by {
                if j < i {
                    assert(statuses@[j] == before[j]);
                    assert(statuses_view(before)[j] == target.subrange(0, i as int)[j]);
                }
            }
            assert(statuses_view(statuses@) =~= target.subrange(0, i + 1));
        }
        i = i + 1;
    }
    let ghost before = statuses@;
    statuses.push(api_entry(api));
    proof {
        assert forall|j: int| 0 <= j < n + 1 implies #[trigger] statuses_view(statuses@)[j]
            == target.push(api_status_entry(api))[j] by {
            if j < n {
                assert(statuses@[j] == before[j]);
                assert(statuses_view(before)[j] == target.subrange(0, n as int)[j]);
            }
        }
        assert(statuses_view(statuses@) =~= target.push(api_status_entry(api)));
    }
    let aggregate = aggregate_status(&statuses);
    (aggregate, statuses)
}

proof fn lemma_count_online(statuses: Seq<NodeStatusView>)
    ensures
        count_online(statuses) <= statuses.len(),
        count_online(statuses) == statuses.len() <==> forall|i: int|
            0 <= i < statuses.len() ==> #[trigger] statuses[i].browser_status
                == ServiceStatus::Online,
        count_online(statuses) == 0 <==> forall|i: int|
            0 <= i < statuses.len() ==> #[trigger] statuses[i].browser_status
                != ServiceStatus::Online,
    decreases statuses.len(),
{
    if statuses.len() > 0 {
        let rest = statuses.drop_last();
        lemma_count_online(rest);
        assert forall|i: int| 0 <= i < rest.len() implies rest[i] == statuses[i] by {}
        if forall|i: int|
            0 <= i < statuses.len() ==> #[trigger] statuses[i].browser_status
                == ServiceStatus::Online {
            assert forall|i: int| 0 <= i < rest.len() implies #[trigger] rest[i].browser_status
                == ServiceStatus::Online by {
                assert(statuses[i].browser_status == ServiceStatus::Online);
            }
            assert(statuses[statuses.len() - 1].browser_status == ServiceStatus::Online);
        }
        if forall|i: int|
            0 <= i < statuses.len() ==> #[trigger] statuses[i].browser_status
                != ServiceStatus::Online {
            assert forall|i: int| 0 <= i < rest.len() implies #[trigger] rest[i].browser_status
                != ServiceStatus::Online by {
                assert(statuses[i].browser_status != ServiceStatus::Online);
            }
            assert(statuses[statuses.len() - 1].browser_status != ServiceStatus::Online);
        }
        if count_online(statuses) == statuses.len() {
            assert forall|i: int| 0 <= i < statuses.len() implies #[trigger] statuses[i].browser_status
                == ServiceStatus::Online by {
                if i < rest.len() {
                    assert(rest[i].browser_status == ServiceStatus::Online);
                }
            }
        }
        if count_online(statuses) == 0 {
            assert forall|i: int| 0 <= i < statuses.len() implies #[trigger] statuses[i].browser_status
                != ServiceStatus::Online by {
                if i < rest.len() {
                    assert(rest[i].browser_status != ServiceStatus::Online);
                }
            }
        }
    }
}

/// What the summary says: all servers online (and there is one), none
/// online, or some online and some not; never an error.
pub proof fn lemma_aggregate_meaning(statuses: Seq<NodeStatusView>)
    ensures
        aggregate(statuses) != FrknAggregateStatus::Error,
        aggregate(statuses) == FrknAggregateStatus::AllOnline <==> statuses.len() > 0
            && forall|i: int|
            0 <= i < statuses.len() ==> #[trigger] statuses[i].browser_status
                == ServiceStatus::Online,
        aggregate(statuses) == FrknAggregateStatus::AllOffline <==> forall|i: int|
            0 <= i < statuses.len() ==> #[trigger] statuses[i].browser_status
                != ServiceStatus::Online,
        aggregate(statuses) == FrknAggregateStatus::Partial <==> (exists|i: int|
            0 <= i < statuses.len() && #[trigger] statuses[i].browser_status
                == ServiceStatus::Online) && (exists|i: int|
            0 <= i < statuses.len() && #[trigger] statuses[i].browser_status
                != ServiceStatus::Online),
{
    lemma_count_online(statuses);
}

/// The rule for one server: it is online exactly when one of its inbounds or
/// its favicon is reachable; an offline server has no latency; an online one
/// has the least inbound latency, else the favicon's.
pub proof fn lemma_node_online_rule(node: NodeView, favicon: Probe, probes: Seq<Probe>)
    ensures
        node_status(node, favicon, probes).browser_status == ServiceStatus::Online
            <==> any_inbound_online(inbound_statuses(node, probes)) || favicon.0
            == ServiceStatus::Online,
        node_status(node, favicon, probes).browser_status != ServiceStatus::Online
            ==> node_status(node, favicon, probes).browser_status == ServiceStatus::Offline
            && node_status(node, favicon, probes).latency_ms is None,
        node_status(node, favicon, probes).inbounds.len() == node.inbounds.len(),
{
}

proof fn lemma_checkable_members(nodes: Seq<NodeView>)
    ensures
        forall|i: int|
            0 <= i < checkable(nodes).len() ==> is_checkable(#[trigger] checkable(nodes)[i])
                && exists|j: int| 0 <= j < nodes.len() && nodes[j] == checkable(nodes)[i],
        forall|j: int|
            0 <= j < nodes.len() && is_checkable(#[trigger] nodes[j]) ==> exists|i: int|
                0 <= i < checkable(nodes).len() && checkable(nodes)[i] == nodes[j],
    decreases nodes.len(),
{
    if nodes.len() > 0 {
        let rest = nodes.drop_last();
        lemma_checkable_members(rest);
        let cr = checkable(rest);
        let c = checkable(nodes);
        assert forall|i: int| 0 <= i < c.len() implies is_checkable(#[trigger] c[i]) && exists|j: int|
            0 <= j < nodes.len() && nodes[j] == c[i] by {
            if i < cr.len() {
                assert(c[i] == cr[i]);
                let j = choose|j: int| 0 <= j < rest.len() && rest[j] == cr[i];
                assert(nodes[j] == rest[j]);
            } else {
                assert(nodes[nodes.len() - 1] == c[i]);
            }
        }
        assert forall|j: int| 0 <= j < nodes.len() && is_checkable(#[trigger] nodes[j]) implies exists|i: int|
            0 <= i < c.len() && c[i] == nodes[j] by {
            if j < rest.len() {
                assert(rest[j] == nodes[j]);
                assert(is_checkable(rest[j]));
                let i = choose|i: int| 0 <= i < cr.len() && cr[i] == rest[j];
                assert(c[i] == cr[i]);
            } else {
                assert(c[c.len() - 1] == nodes[j]);
            }
        }
    }
}

/// The list the page shows: one entry per server that is not premium, in
/// order and each carrying that server's data, then the FRKN API last; no
/// premium server appears, and every other server does.
pub proof fn lemma_listed_servers(
    nodes: Seq<NodeView>,
    favicons: Seq<Probe>,
    ports: Seq<Seq<Probe>>,
    api: Probe,
)
    requires
        probes_fit(checkable(nodes), favicons, ports),
    ensures
        listed_statuses(checkable(nodes), favicons, ports, api).len() == checkable(nodes).len()
            + 1,
        listed_statuses(checkable(nodes), favicons, ports, api).last() == api_status_entry(api),
        ({
            let last = listed_statuses(checkable(nodes), favicons, ports, api).last();
            &&& last.hostname == "api.frkn.org"@ && last.address == "api.frkn.org"@
            &&& last.label == "API"@ && last.api_status == "API"@ && last.node_type == "API"@
            &&& last.country.len() == 0 && last.inbounds.len() == 0
            &&& last.browser_status == api.0 && last.latency_ms == api.1
        }),
        forall|i: int|
            0 <= i < checkable(nodes).len() ==> {
                let s = #[trigger] listed_statuses(checkable(nodes), favicons, ports, api)[i];
                &&& s.node_type != "PremiumNode"@
                &&& exists|j: int|
                    0 <= j < nodes.len() && nodes[j].hostname == s.hostname && nodes[j].address
                        == s.address && nodes[j].node_type == s.node_type
            },
        forall|j: int|
            0 <= j < nodes.len() && (#[trigger] nodes[j]).node_type != "PremiumNode"@ ==> exists|i: int|
                0 <= i < checkable(nodes).len() && listed_statuses(
                    checkable(nodes),
                    favicons,
                    ports,
                    api,
                )[i].hostname == nodes[j].hostname,
{
    lemma_checkable_members(nodes);
    let c = checkable(nodes);
    let l = listed_statuses(c, favicons, ports, api);
    assert forall|i: int| 0 <= i < c.len() implies ({
        let s = #[trigger] l[i];
        &&& s.node_type != "PremiumNode"@
        &&& exists|j: int|
            0 <= j < nodes.len() && nodes[j].hostname == s.hostname && nodes[j].address
                == s.address && nodes[j].node_type == s.node_type
    }) by {
        assert(l[i] == node_status(c[i], favicons[i], ports[i]));
        assert(is_checkable(c[i]));
        let j = choose|j: int| 0 <= j < nodes.len() && nodes[j] == c[i];
        assert(nodes[j].hostname == l[i].hostname);
    }
    assert forall|j: int| 0 <= j < nodes.len() && (#[trigger] nodes[j]).node_type != "PremiumNode"@ implies exists|i: int|
        0 <= i < c.len() && l[i].hostname == nodes[j].hostname by {
        assert(is_checkable(nodes[j]));
        let i = choose|i: int| 0 <= i < c.len() && c[i] == nodes[j];
        assert(l[i] == node_status(c[i], favicons[i], ports[i]));
    }
}

proof fn lemma_least_latency(s: Seq<InboundStatusView>)
    ensures
        least_latency(s) is None <==> forall|k: int|
            0 <= k < s.len() ==> (#[trigger] s[k]).latency_ms is None,
        least_latency(s) matches Some(l) ==> (exists|k: int|
            0 <= k < s.len() && (#[trigger] s[k]).latency_ms == Some(l)),
        least_latency(s) matches Some(l) ==> (forall|k: int|
            0 <= k < s.len() && (#[trigger] s[k]).latency_ms is Some ==> l <= s[k].latency_ms->0),
    decreases s.len(),
{
    if s.len() > 0 {
        let rest = s.drop_last();
        lemma_least_latency(rest);
        assert forall|k: int| 0 <= k < rest.len() implies rest[k] == s[k] by {}
        let last = s[s.len() - 1];
        if least_latency(s) is None {
            assert forall|k: int| 0 <= k < s.len() implies (#[trigger] s[k]).latency_ms is None by {
                if k < rest.len() {
                    assert(rest[k] == s[k]);
                }
            }
        }
        if forall|k: int| 0 <= k < s.len() ==> (#[trigger] s[k]).latency_ms is None {
            assert forall|k: int| 0 <= k < rest.len() implies (#[trigger] rest[k]).latency_ms is None by {
                assert(rest[k] == s[k]);
            }
            assert(last.latency_ms is None);
        }
        match least_latency(s) {
            Some(l) => {
                match least_latency(rest) {
                    Some(a) => {
                        let j = choose|j: int| 0 <= j < rest.len() && (#[trigger] rest[j]).latency_ms == Some(a);
                        assert(s[j] == rest[j]);
                    },
                    None => {},
                }
                assert forall|k: int|
                    0 <= k < s.len() && (#[trigger] s[k]).latency_ms is Some implies l <= s[k].latency_ms->0 by {
                    if k < rest.len() {
                        assert(rest[k] == s[k]);
                    }
                }
            },
            None => {},
        }
    }
}

/// What the check says of one server, in terms of its probes: its data is
/// the server's; its inbounds are the server's, each with its own probe; it
/// is online exactly when an inbound or the favicon answered; when an inbound
/// answered, its latency is the least latency measured on the inbounds (one
/// of them, none smaller), or the favicon's when none was measured; when only
/// the favicon answered, the favicon's latency; otherwise it is offline with
/// no latency.
pub proof fn lemma_server_status_from_probes(node: NodeView, favicon: Probe, probes: Seq<Probe>)
    requires
        probes.len() == node.inbounds.len(),
    ensures
        ({
            let s = node_status(node, favicon, probes);
            &&& s.label == node.label && s.hostname == node.hostname && s.address == node.address
            &&& s.country == node.country && s.api_status == node.api_status && s.node_type
                == node.node_type
            &&& s.inbounds.len() == probes.len()
            &&& forall|k: int|
                0 <= k < probes.len() ==> (#[trigger] s.inbounds[k]).tag == node.inbounds[k].tag
                    && s.inbounds[k].port == node.inbounds[k].port && s.inbounds[k].browser_status
                    == probes[k].0 && s.inbounds[k].latency_ms == probes[k].1
            &&& (s.browser_status == ServiceStatus::Online) <==> ((exists|k: int|
                0 <= k < probes.len() && (#[trigger] probes[k]).0 == ServiceStatus::Online)
                || favicon.0 == ServiceStatus::Online)
            &&& s.browser_status != ServiceStatus::Online ==> s.browser_status
                == ServiceStatus::Offline && s.latency_ms is None
            &&& (exists|k: int| 0 <= k < probes.len() && (#[trigger] probes[k]).0 == ServiceStatus::Online)
                ==> {
                &&& (exists|k: int| 0 <= k < probes.len() && (#[trigger] probes[k]).1 is Some) ==> {
                    &&& s.latency_ms is Some
                    &&& exists|k: int| 0 <= k < probes.len() && (#[trigger] probes[k]).1 == s.latency_ms
                    &&& forall|k: int|
                        0 <= k < probes.len() && (#[trigger] probes[k]).1 is Some
                            ==> s.latency_ms->0 <= probes[k].1->0
                }
                &&& (forall|k: int| 0 <= k < probes.len() ==> (#[trigger] probes[k]).1 is None)
                    ==> s.latency_ms == favicon.1
            }
            &&& (forall|k: int| 0 <= k < probes.len() ==> (#[trigger] probes[k]).0 != ServiceStatus::Online)
                && favicon.0 == ServiceStatus::Online ==> s.latency_ms == favicon.1
        }),
{
    let inb = inbound_statuses(node, probes);
    lemma_least_latency(inb);
    assert forall|k: int| 0 <= k < probes.len() implies #[trigger] inb[k] == (InboundStatusView {
        tag: node.inbounds[k].tag,
        port: node.inbounds[k].port,
        browser_status: probes[k].0,
        latency_ms: probes[k].1,
    }) by {}
    if exists|k: int| 0 <= k < probes.len() && (#[trigger] probes[k]).0 == ServiceStatus::Online {
        let k = choose|k: int| 0 <= k < probes.len() && (#[trigger] probes[k]).0 == ServiceStatus::Online;
        assert(inb[k].browser_status == ServiceStatus::Online);
    }
    if any_inbound_online(inb) {
        let k = choose|k: int| 0 <= k < inb.len() && #[trigger] inb[k].browser_status == ServiceStatus::Online;
        assert(probes[k].0 == ServiceStatus::Online);
    }
    if exists|k: int| 0 <= k < probes.len() && (#[trigger] probes[k]).1 is Some {
        let k = choose|k: int| 0 <= k < probes.len() && (#[trigger] probes[k]).1 is Some;
        assert(inb[k].latency_ms is Some);
    }
    if least_latency(inb) is Some {
        let l = least_latency(inb)->0;
        let j = choose|j: int| 0 <= j < inb.len() && (#[trigger] inb[j]).latency_ms == Some(l);
        assert(probes[j].1 == Some(l));
        assert forall|k: int| 0 <= k < probes.len() && (#[trigger] probes[k]).1 is Some implies l <= probes[k].1->0 by {
            assert(inb[k].latency_ms == probes[k].1);
        }
    }
    if forall|k: int| 0 <= k < probes.len() ==> (#[trigger] probes[k]).1 is None {
        assert forall|k: int| 0 <= k < inb.len() implies (#[trigger] inb[k]).latency_ms is None by {
            assert(probes[k].1 is None);
        }
    }
}

/// Each row of the check is the server at the same position among those
/// probed, with that server's own favicon and port probes.
pub proof fn lemma_check_row(
    nodes: Seq<NodeView>,
    favicons: Seq<Probe>,
    ports: Seq<Seq<Probe>>,
    api: Probe,
    i: int,
)
    requires
        probes_fit(checkable(nodes), favicons, ports),
        0 <= i < checkable(nodes).len(),
    ensures
        listed_statuses(checkable(nodes), favicons, ports, api)[i] == node_status(
            checkable(nodes)[i],
            favicons[i],
            ports[i],
        ),
        ports[i].len() == checkable(nodes)[i].inbounds.len(),
{
}

/// A fetch probe that answered is online with a latency of at least 1 ms,
/// equal to the time measured when that was at least 1 ms; one that failed
/// is offline with no latency.
pub proof fn lemma_fetch_probe_meaning(elapsed_ms: Option<u32>)
    ensures
        elapsed_ms is None ==> fetch_probe(elapsed_ms) == (ServiceStatus::Offline, None::<u32>),
        elapsed_ms matches Some(e) ==> {
            &&& fetch_probe(elapsed_ms).0 == ServiceStatus::Online
            &&& fetch_probe(elapsed_ms).1 matches Some(l) && l >= 1 && (e >= 1 ==> l == e) && (e
                < 1 ==> l == 1)
        },
{
}

/// A port probe whose socket could not be opened is an error; one whose
/// handshake ended in time is online with a latency of at least 1 ms, equal to
/// the time measured when that was at least 1 ms; otherwise it is offline;
/// only an online probe has a latency.
pub proof fn lemma_port_probe_meaning(opened: bool, reachable: bool, elapsed_ms: u32)
    ensures
        !opened ==> port_probe(opened, reachable, elapsed_ms).0 == ServiceStatus::Error,
        opened && reachable ==> port_probe(opened, reachable, elapsed_ms).0
            == ServiceStatus::Online,
        opened && !reachable ==> port_probe(opened, reachable, elapsed_ms).0
            == ServiceStatus::Offline,
        port_probe(opened, reachable, elapsed_ms).1 is Some <==> (opened && reachable),
        opened && reachable ==> port_probe(opened, reachable, elapsed_ms).1->0 >= 1 && (
        elapsed_ms >= 1 ==> port_probe(opened, reachable, elapsed_ms).1->0 == elapsed_ms),
{
}

} // verus!
