//! The status page's state and the decisions it takes: what one round of
//! checks changes, and what the VPN banner and the FRKN card show.
use vstd::prelude::*;

use crate::checks::{
    count_online, online_count, statuses_view, FrknAggregateStatus, FrknNodeStatus,
    NodeStatusView, API_HOSTNAME,
};
use crate::i18n::{t, translation, Lang};
use crate::network::{
    detect_vpn, is_frkn_address, is_frkn_ip, looks_like_vpn, nodes_view, FrknNode, IpInfo,
    IpInfoView, NodeView,
};
use crate::services::ServiceStatus;
use crate::i18n::lemma_placeholders_kept;
use crate::text::{
    decimal, decimal_string, lacks, lemma_decimal_lacks, lemma_lacks_concat, lemma_replace_leading,
    lemma_replace_lacking, lemma_replace_passes, replace_all, replaced, str_eq,
};

verus! {

/// Prefix of the message shown when the visitor's IP could not be found.
pub const IP_ERROR_PREFIX: &'static str = "Не удалось определить IP: ";

/// Everything the page shows about the checks.
pub struct PageState {
    pub ip_info: Option<IpInfo>,
    pub is_vpn: bool,
    pub loading: bool,
    pub error: Option<String>,
    pub is_frkn_vpn: bool,
    pub frkn_aggregate: FrknAggregateStatus,
    pub frkn_nodes: Vec<FrknNodeStatus>,
    pub frkn_loading: bool,
}

/// The contents of a [`PageState`].
pub struct PageView {
    pub ip_info: Option<IpInfoView>,
    pub is_vpn: bool,
    pub loading: bool,
    pub error: Option<Seq<char>>,
    pub is_frkn_vpn: bool,
    pub frkn_aggregate: FrknAggregateStatus,
    pub frkn_nodes: Seq<NodeStatusView>,
    pub frkn_loading: bool,
}

impl View for PageState {
    type V = PageView;

    open spec fn view(&self) -> PageView {
        PageView {
            ip_info: match self.ip_info {
                Some(i) => Some(i@),
                None => None,
            },
            is_vpn: self.is_vpn,
            loading: self.loading,
            error: match self.error {
                Some(e) => Some(e@),
                None => None,
            },
            is_frkn_vpn: self.is_frkn_vpn,
            frkn_aggregate: self.frkn_aggregate,
            frkn_nodes: statuses_view(self.frkn_nodes@),
            frkn_loading: self.frkn_loading,
        }
    }
}

/// The page before any answer: loading, nothing known.
pub open spec fn initial_page() -> PageView {
    PageView {
        ip_info: None,
        is_vpn: false,
        loading: true,
        error: None,
        is_frkn_vpn: false,
        frkn_aggregate: FrknAggregateStatus::AllOffline,
        frkn_nodes: Seq::empty(),
        frkn_loading: true,
    }
}

/// A round of checks begins: both cards load and the error is cleared.
pub open spec fn started(page: PageView) -> PageView {
    PageView { loading: true, frkn_loading: true, error: None, ..page }
}

/// The answer of the IP lookup.
pub open spec fn ip_result_view(r: Result<IpInfo, String>) -> Result<IpInfoView, Seq<char>> {
    match r {
        Ok(i) => Ok(i@),
        Err(e) => Err(e@),
    }
}

/// The answer of the FRKN API.
pub open spec fn nodes_result_view(r: Result<Vec<FrknNode>, String>) -> Result<
    Seq<NodeView>,
    Seq<char>,
> {
    match r {
        Ok(n) => Ok(nodes_view(n@)),
        Err(e) => Err(e@),
    }
}

/// The page once both lookups answered, the VPN verdict so far, and the
/// servers still to probe. A new IP answer replaces the shown one and gives
/// the first verdict; a failed one shows an error and keeps the old answer.
/// With a server list, the shown address (new or old) is compared with the
/// servers' addresses, and a match means VPN; without one the FRKN card
/// shows an error.
pub open spec fn after_lookups(
    page: PageView,
    ip: Result<IpInfoView, Seq<char>>,
    nodes: Result<Seq<NodeView>, Seq<char>>,
) -> (PageView, bool, Option<Seq<NodeView>>) {
    let (ip_info, error, verdict) = match ip {
        Ok(info) => (Some(info), page.error, looks_like_vpn(info)),
        Err(e) => (page.ip_info, Some(IP_ERROR_PREFIX@ + e), false),
    };
    let page1 = PageView { ip_info, error, ..page };
    match nodes {
        Ok(ns) => match ip_info {
            Some(info) => {
                let frkn = is_frkn_address(info.ip, ns);
                (PageView { is_frkn_vpn: frkn, ..page1 }, verdict || frkn, Some(ns))
            },
            None => (page1, verdict, Some(ns)),
        },
        Err(_) => (
            PageView { frkn_aggregate: FrknAggregateStatus::Error, ..page1 },
            verdict,
            None,
        ),
    }
}

/// The page once the servers were probed (or could not be listed): the VPN
/// verdict is shown and both cards stop loading.
pub open spec fn finished(
    page: PageView,
    verdict: bool,
    outcome: Option<(FrknAggregateStatus, Seq<NodeStatusView>)>,
) -> PageView {
    let page1 = match outcome {
        Some((aggregate, statuses)) => PageView {
            frkn_aggregate: aggregate,
            frkn_nodes: statuses,
            ..page
        },
        None => page,
    };
    PageView { is_vpn: verdict, frkn_loading: false, loading: false, ..page1 }
}

/// What a round of checks still has to do after the lookups.
pub struct PendingCheck {
    /// The VPN verdict so far.
    pub vpn_detected: bool,
    /// The servers to probe, when the FRKN API listed them.
    pub nodes: Option<Vec<FrknNode>>,
}

impl PageState {
    /// The page before any answer.
    pub fn new() -> (r: PageState)
        ensures
            r@ == initial_page(),
    {
        let r = PageState {
            ip_info: None,
            is_vpn: false,
            loading: true,
            error: None,
            is_frkn_vpn: false,
            frkn_aggregate: FrknAggregateStatus::AllOffline,
            frkn_nodes: Vec::new(),
            frkn_loading: true,
        };
        assert(r@.frkn_nodes =~= Seq::<NodeStatusView>::empty());
        r
    }

    /// A round of checks begins.
    pub fn start_checks(&mut self)
        ensures
            final(self)@ == started(old(self)@),
    {
        self.loading = true;
        self.frkn_loading = true;
        self.error = None;
    }

    /// Takes in the answers of the IP lookup and of the FRKN API.
    pub fn apply_lookups(
        &mut self,
        ip: Result<IpInfo, String>,
        nodes: Result<Vec<FrknNode>, String>,
    ) -> (r: PendingCheck)
        ensures
            ({
                let (page, verdict, to_probe) = after_lookups(
                    old(self)@,
                    ip_result_view(ip),
                    nodes_result_view(nodes),
                );
                &&& final(self)@ == page
                &&& r.vpn_detected == verdict
                &&& match r.nodes {
                    Some(ns) => to_probe == Some(nodes_view(ns@)),
                    None => to_probe is None,
                }
            }),
    {
        let mut vpn_detected = false;
        match ip {
            Ok(info) => {
                vpn_detected = detect_vpn(&info);
                self.ip_info = Some(info);
            },
            Err(e) => {
                let mut message = String::from_str(IP_ERROR_PREFIX);
                message.append(e.as_str());
                self.error = Some(message);
            },
        }
        match nodes {
            Ok(list) => {
                match &self.ip_info {
                    Some(info) => {
                        let frkn = is_frkn_ip(info.ip.as_str(), list.as_slice());
                        if frkn {
                            vpn_detected = true;
                        }
                        self.is_frkn_vpn = frkn;
                    },
                    None => {},
                }
                PendingCheck { vpn_detected, nodes: Some(list) }
            },
            Err(_) => {
                self.frkn_aggregate = FrknAggregateStatus::Error;
                PendingCheck { vpn_detected, nodes: None }
            },
        }
    }

    /// Ends the round: shows the probed servers (when they were listed) and
    /// the VPN verdict, and stops loading.
    pub fn finish_checks(
        &mut self,
        vpn_detected: bool,
        outcome: Option<(FrknAggregateStatus, Vec<FrknNodeStatus>)>,
    )
        ensures
            final(self)@ == finished(
                old(self)@,
                vpn_detected,
                match outcome {
                    Some((a, s)) => Some((a, statuses_view(s@))),
                    None => None,
                },
            ),
    {
        match outcome {
            Some((aggregate, statuses)) => {
                self.frkn_aggregate = aggregate;
                self.frkn_nodes = statuses;
            },
            None => {},
        }
        self.is_vpn = vpn_detected;
        self.frkn_loading = false;
        self.loading = false;
    }
}

/// A round in which both lookups answered shows a VPN exactly when the
/// address looks like a VPN or is the address of a FRKN server; the FRKN
/// badge shows exactly in the second case; both cards stop loading.
pub proof fn lemma_round_vpn_verdict(
    page: PageView,
    info: IpInfoView,
    nodes: Seq<NodeView>,
    outcome: Option<(FrknAggregateStatus, Seq<NodeStatusView>)>,
)
    ensures
        ({
            let (mid, verdict, to_probe) = after_lookups(started(page), Ok(info), Ok(nodes));
            let end = finished(mid, verdict, outcome);
            &&& to_probe == Some(nodes)
            &&& end.is_vpn == (looks_like_vpn(info) || is_frkn_address(info.ip, nodes))
            &&& end.is_frkn_vpn == is_frkn_address(info.ip, nodes)
            &&& end.ip_info == Some(info)
            &&& end.error is None
            &&& !end.loading && !end.frkn_loading
        }),
{
}

/// A round in which the IP lookup failed shows the error, keeps the address
/// shown before, and reports no VPN; when the server list failed too, the
/// FRKN card shows an error.
pub proof fn lemma_round_lookups_failed(page: PageView, ip_error: Seq<char>, nodes_error: Seq<char>)
    ensures
        ({
            let (mid, verdict, to_probe) = after_lookups(
                started(page),
                Err(ip_error),
                Err(nodes_error),
            );
            let end = finished(mid, verdict, None);
            &&& to_probe is None
            &&& !end.is_vpn
            &&& end.error == Some(IP_ERROR_PREFIX@ + ip_error)
            &&& end.ip_info == page.ip_info
            &&& end.frkn_aggregate == FrknAggregateStatus::Error
            &&& !end.loading && !end.frkn_loading
        }),
{
}

/// Which badges the VPN banner shows.
#[derive(Clone, Copy, Debug, PartialEq, Eq, Structural)]
pub enum VpnBadge {
    /// "FRKN" and "protected": the address is a FRKN server's.
    Frkn,
    /// "Protected": some other VPN.
    Protected,
    /// "Enable VPN".
    EnableVpn,
}

/// The badges of the VPN banner: FRKN first, then any VPN, else a call to
/// enable one.
pub fn vpn_badge(is_frkn_vpn: bool, is_vpn: bool) -> (r: VpnBadge)
    ensures
        r == (if is_frkn_vpn {
            VpnBadge::Frkn
        } else if is_vpn {
            VpnBadge::Protected
        } else {
            VpnBadge::EnableVpn
        }),
{
    if is_frkn_vpn {
        VpnBadge::Frkn
    } else if is_vpn {
        VpnBadge::Protected
    } else {
        VpnBadge::EnableVpn
    }
}

/// The text that counts the reachable servers.
pub open spec fn availability_of(lang: Lang, online: nat, total: nat) -> Seq<char> {
    replaced(
        replaced(translation(lang, "of_available"@), "{online}"@, decimal(online)),
        "{total}"@,
        decimal(total),
    )
}

/// "N of M available", shown once the servers were checked and there is one.
pub fn availability_text(lang: Lang, statuses: &Vec<FrknNodeStatus>, loading: bool) -> (r:
    Option<String>)
    ensures
        statuses@.len() > 0 && !loading ==> (r matches Some(text) && text@ == availability_of(
            lang,
            count_online(statuses_view(statuses@)),
            statuses@.len(),
        )),
        !(statuses@.len() > 0 && !loading) ==> r is None,
{
    let total = statuses.len();
    if total > 0 && !loading {
        let online = online_count(statuses);
        proof {
            reveal_strlit("{online}");
            reveal_strlit("{total}");
        }
        let online_text = decimal_string(online as u64);
        let total_text = decimal_string(total as u64);
        let template = t(lang, "of_available");
        let step = replace_all(template, "{online}", online_text.as_str());
        Some(replace_all(step.as_str(), "{total}", total_text.as_str()))
    } else {
        None
    }
}

/// The label of the button that opens or closes the server list.
pub open spec fn toggle_label(lang: Lang, expanded: bool, total: nat) -> Seq<char> {
    if expanded {
        translation(lang, "hide"@)
    } else {
        replaced(translation(lang, "show_servers"@), "{total}"@, decimal(total))
    }
}

/// "Hide" when the server list is open, else "Show N servers".
pub fn toggle_text(lang: Lang, expanded: bool, total: usize) -> (r: String)
    ensures
        r@ == toggle_label(lang, expanded, total as nat),
{
    if expanded {
        String::from_str(t(lang, "hide"))
    } else {
        proof {
            reveal_strlit("{total}");
        }
        let total_text = decimal_string(total as u64);
        replace_all(t(lang, "show_servers"), "{total}", total_text.as_str())
    }
}

/// The status shown on the API row: that of the first entry for the API
/// host, or "checking" while there is none.
pub open spec fn api_row(statuses: Seq<NodeStatusView>) -> ServiceStatus
    decreases statuses.len(),
{
    if statuses.len() == 0 {
        ServiceStatus::Checking
    } else if statuses[0].hostname == API_HOSTNAME@ {
        statuses[0].browser_status
    } else {
        api_row(statuses.drop_first())
    }
}

/// The status of the FRKN API row.
pub fn api_row_status(statuses: &Vec<FrknNodeStatus>) -> (r: ServiceStatus)
    ensures
        r == api_row(statuses_view(statuses@)),
{
    let ghost sv = statuses_view(statuses@);
    let n = statuses.len();
    let mut i: usize = 0;
    assert(sv.subrange(0, n as int) =~= sv);
    while i < n
        invariant
            n == statuses@.len(),
            sv == statuses_view(statuses@),
            i <= n,
            api_row(sv.subrange(i as int, n as int)) == api_row(sv),
        decreases n - i,
    {
        assert(sv.subrange(i as int, n as int)[0] == statuses@[i as int]@);
        if str_eq(statuses[i].hostname.as_str(), API_HOSTNAME) {
            return statuses[i].browser_status;
        }
        assert(sv.subrange(i as int, n as int).drop_first() =~= sv.subrange(i + 1, n as int));
        i = i + 1;
    }
    ServiceStatus::Checking
}

/// The servers listed under the API row: all entries but the API's, in order.
pub open spec fn listed_servers(statuses: Seq<NodeStatusView>) -> Seq<NodeStatusView> {
    statuses.filter(|s: NodeStatusView| s.hostname != API_HOSTNAME@)
}

/// The entries of the expandable server list.
pub fn server_list(statuses: &Vec<FrknNodeStatus>) -> (r: Vec<FrknNodeStatus>)
    ensures
        statuses_view(r@) == listed_servers(statuses_view(statuses@)),
{
    let ghost sv = statuses_view(statuses@);
    let ghost keep = |s: NodeStatusView| s.hostname != API_HOSTNAME@;
    let n = statuses.len();
    let mut out: Vec<FrknNodeStatus> = Vec::new();
    let mut i: usize = 0;
    while i < n
        invariant
            n == statuses@.len(),
            sv == statuses_view(statuses@),
            keep == (|s: NodeStatusView| s.hostname != API_HOSTNAME@),
            i <= n,
            statuses_view(out@) == sv.subrange(0, i as int).filter(keep),
        decreases n - i,
    {
        proof {
            reveal(Seq::filter);
        }
        assert(sv.subrange(0, i + 1).drop_last() =~= sv.subrange(0, i as int));
        assert(sv[i as int] == statuses@[i as int]@);
        let ghost before = out@;
        if !str_eq(statuses[i].hostname.as_str(), API_HOSTNAME) {
            out.push(statuses[i].duplicate());
            assert(statuses_view(out@) =~= statuses_view(before).push(statuses@[i as int]@));
        }
        i = i + 1;
    }
    assert(sv.subrange(0, n as int) =~= sv);
    out
}

/// The colour of an inbound's dot: green when reachable, red otherwise.
pub fn inbound_dot_class(status: ServiceStatus) -> (r: &'static str)
    ensures
        r@ == (if status == ServiceStatus::Online {
            "bg-emerald-400"@
        } else {
            "bg-rose-400"@
        }),
{
    match status {
        ServiceStatus::Online => "bg-emerald-400",
        _ => "bg-rose-400",
    }
}

/// `tag:port`, the caption of an inbound.
pub fn inbound_caption(tag: &str, port: u16) -> (r: String)
    ensures
        r@ == tag@ + ":"@ + decimal(port as nat),
{
    let mut out = String::from_str(tag);
    out.append(":");
    let digits = decimal_string(port as u64);
    out.append(digits.as_str());
    out
}

/// Whenever the IP lookup answered, the round's VPN verdict is that answer's
/// own verdict, or a FRKN address match when the server list arrived, and the
/// page ends up showing it; the answer is shown, the server list (if any) is
/// what remains to probe, and a failed list marks the FRKN card as an error.
pub proof fn lemma_ip_answer_decides_verdict(
    page: PageView,
    info: IpInfoView,
    nodes: Result<Seq<NodeView>, Seq<char>>,
    outcome: Option<(FrknAggregateStatus, Seq<NodeStatusView>)>,
)
    ensures
        ({
            let (mid, verdict, to_probe) = after_lookups(page, Ok(info), nodes);
            &&& looks_like_vpn(info) ==> verdict
            &&& verdict <==> (looks_like_vpn(info) || (nodes is Ok && is_frkn_address(
                info.ip,
                nodes->Ok_0,
            )))
            &&& finished(mid, verdict, outcome).is_vpn == verdict
            &&& mid.ip_info == Some(info)
            &&& mid.error == page.error
            &&& mid.loading == page.loading && mid.frkn_loading == page.frkn_loading
            &&& mid.is_vpn == page.is_vpn
            &&& (nodes is Ok ==> to_probe == Some(nodes->Ok_0) && mid.is_frkn_vpn
                == is_frkn_address(info.ip, nodes->Ok_0) && mid.frkn_aggregate
                == page.frkn_aggregate)
            &&& (nodes is Err ==> to_probe is None && mid.is_frkn_vpn == page.is_frkn_vpn
                && mid.frkn_aggregate == FrknAggregateStatus::Error)
        }),
{
}

/// When the IP lookup failed, the round finds a VPN only through a FRKN
/// address match of the address shown before; the error names the failure.
pub proof fn lemma_failed_ip_lookup_verdict(
    page: PageView,
    error: Seq<char>,
    nodes: Result<Seq<NodeView>, Seq<char>>,
)
    ensures
        ({
            let (mid, verdict, _) = after_lookups(page, Err(error), nodes);
            &&& verdict <==> (nodes is Ok && page.ip_info is Some && is_frkn_address(
                page.ip_info->0.ip,
                nodes->Ok_0,
            ))
            &&& mid.ip_info == page.ip_info
            &&& mid.error == Some(IP_ERROR_PREFIX@ + error)
        }),
{
}

/// The API row shows "checking" when no entry is for the FRKN API host.
pub proof fn lemma_api_row_without_api(statuses: Seq<NodeStatusView>)
    requires
        forall|i: int| 0 <= i < statuses.len() ==> (#[trigger] statuses[i]).hostname != "api.frkn.org"@,
    ensures
        api_row(statuses) == ServiceStatus::Checking,
    decreases statuses.len(),
{
    if statuses.len() > 0 {
        let rest = statuses.drop_first();
        assert(statuses[0].hostname != "api.frkn.org"@);
        assert forall|i: int| 0 <= i < rest.len() implies (#[trigger] rest[i]).hostname != "api.frkn.org"@ by {
            assert(rest[i] == statuses[i + 1]);
        }
        lemma_api_row_without_api(rest);
    }
}

/// The API row shows the status of the first entry for the FRKN API host.
pub proof fn lemma_api_row_first_api_entry(statuses: Seq<NodeStatusView>, i: int)
    requires
        0 <= i < statuses.len(),
        statuses[i].hostname == "api.frkn.org"@,
        forall|j: int| 0 <= j < i ==> (#[trigger] statuses[j]).hostname != "api.frkn.org"@,
    ensures
        api_row(statuses) == statuses[i].browser_status,
    decreases i,
{
    if i > 0 {
        let rest = statuses.drop_first();
        assert(statuses[0].hostname != "api.frkn.org"@);
        assert(rest[i - 1] == statuses[i]);
        assert forall|j: int| 0 <= j < i - 1 implies (#[trigger] rest[j]).hostname != "api.frkn.org"@ by {
            assert(rest[j] == statuses[j + 1]);
        }
        lemma_api_row_first_api_entry(rest, i - 1);
    }
}

/// The server list under the API row holds no entry for the API host, and
/// every other entry is in it.
pub proof fn lemma_server_list_meaning(statuses: Seq<NodeStatusView>)
    ensures
        forall|i: int|
            0 <= i < listed_servers(statuses).len() ==> (#[trigger] listed_servers(statuses)[i]).hostname
                != "api.frkn.org"@,
        forall|i: int|
            0 <= i < statuses.len() && (#[trigger] statuses[i]).hostname != "api.frkn.org"@
                ==> listed_servers(statuses).contains(statuses[i]),
        listed_servers(statuses).len() <= statuses.len(),
{
    let keep = |s: NodeStatusView| s.hostname != API_HOSTNAME@;
    broadcast use vstd::seq_lib::group_filter_ensures;
    assert forall|i: int| 0 <= i < listed_servers(statuses).len() implies (#[trigger] listed_servers(
        statuses,
    )[i]).hostname != "api.frkn.org"@ by {
        statuses.lemma_filter_pred(keep, i);
    }
    assert forall|i: int| 0 <= i < statuses.len() && (#[trigger] statuses[i]).hostname != "api.frkn.org"@ implies listed_servers(statuses).contains(statuses[i]) by {
        statuses.lemma_filter_contains(keep, i);
    }
    statuses.lemma_filter_len(keep);
}

/// Fills a counting text whose `{online}`/`{total}` placeholders are
/// separated by `mid` and followed by `tail`.
proof fn lemma_fill_two(mid: Seq<char>, tail: Seq<char>, online: nat, total: nat)
    requires
        lacks(mid, '{'),
        lacks(tail, '{'),
    ensures
        replaced(
            replaced("{online}"@ + mid + "{total}"@ + tail, "{online}"@, decimal(online)),
            "{total}"@,
            decimal(total),
        ) == decimal(online) + mid + decimal(total) + tail,
{
    reveal_strlit("{online}");
    reveal_strlit("{total}");
    let p1 = "{online}"@;
    let p2 = "{total}"@;
    let d1 = decimal(online);
    let d2 = decimal(total);
    assert(p1[0] == '{' && p2[0] == '{');
    assert(p1 + mid + p2 + tail =~= p1 + (mid + (p2 + tail)));
    lemma_replace_leading(mid + (p2 + tail), p1, d1);
    lemma_replace_passes(mid, p2 + tail, p1, d1);
    let rest = p2 + tail;
    assert(p1[1] == 'o' && p2[1] == 't');
    if rest.len() >= p1.len() {
        assert(rest.subrange(0, p1.len() as int)[1] == rest[1]);
        assert(rest[1] == p2[1]);
        assert(rest.subrange(0, p1.len() as int) != p1);
        assert(rest.subrange(1, rest.len() as int) =~= p2.drop_first() + tail);
        reveal_with_fuel(lacks, 7);
        assert(lacks(p2.drop_first(), '{'));
        lemma_lacks_concat(p2.drop_first(), tail, '{');
        lemma_replace_lacking(p2.drop_first() + tail, p1, d1);
        assert(seq![rest[0]] + (p2.drop_first() + tail) =~= rest);
    }
    assert(replaced(rest, p1, d1) == rest);
    let first = d1 + (mid + rest);
    assert(replaced(p1 + mid + p2 + tail, p1, d1) == first);
    lemma_decimal_lacks(online, '{');
    lemma_lacks_concat(d1, mid, '{');
    assert(first =~= (d1 + mid) + (p2 + tail));
    lemma_replace_passes(d1 + mid, p2 + tail, p2, d2);
    lemma_replace_leading(tail, p2, d2);
    lemma_replace_lacking(tail, p2, d2);
    assert((d1 + mid) + (d2 + tail) =~= d1 + mid + d2 + tail);
}

/// The availability text reads "<online> из <total> доступны" in Russian and
/// "<online> of <total> available" in English.
pub proof fn lemma_availability_text(online: nat, total: nat)
    ensures
        availability_of(Lang::Ru, online, total) == decimal(online) + " из "@ + decimal(total)
            + " доступны"@,
        availability_of(Lang::En, online, total) == decimal(online) + " of "@ + decimal(total)
            + " available"@,
{
    lemma_placeholders_kept();
    reveal_strlit("{online}");
    reveal_strlit("{total}");
    reveal_strlit(" из ");
    reveal_strlit(" доступны");
    reveal_strlit(" of ");
    reveal_strlit(" available");
    reveal_strlit("{online} из {total} доступны");
    reveal_strlit("{online} of {total} available");
    reveal_with_fuel(lacks, 11);
    assert(lacks(" из "@, '{'));
    assert(lacks(" доступны"@, '{'));
    assert(lacks(" of "@, '{'));
    assert(lacks(" available"@, '{'));
    assert("{online} из {total} доступны"@ =~= "{online}"@ + " из "@ + "{total}"@ + " доступны"@);
    assert("{online} of {total} available"@ =~= "{online}"@ + " of "@ + "{total}"@ + " available"@);
    lemma_fill_two(" из "@, " доступны"@, online, total);
    lemma_fill_two(" of "@, " available"@, online, total);
}

/// The show-servers label reads "Показать <total> серверов" in Russian and
/// "Show <total> servers" in English; an open list shows the "hide" text.
pub proof fn lemma_toggle_label_text(total: nat)
    ensures
        toggle_label(Lang::Ru, false, total) == "Показать "@ + decimal(total) + " серверов"@,
        toggle_label(Lang::En, false, total) == "Show "@ + decimal(total) + " servers"@,
        toggle_label(Lang::Ru, true, total) == translation(Lang::Ru, "hide"@),
        toggle_label(Lang::En, true, total) == translation(Lang::En, "hide"@),
{
    lemma_placeholders_kept();
    reveal_strlit("{total}");
    reveal_strlit("Показать ");
    reveal_strlit(" серверов");
    reveal_strlit("Show ");
    reveal_strlit(" servers");
    reveal_strlit("Показать {total} серверов");
    reveal_strlit("Show {total} servers");
    reveal_with_fuel(lacks, 10);
    let p2 = "{total}"@;
    let d = decimal(total);
    assert(p2[0] == '{');
    assert(lacks("Показать "@, '{'));
    assert(lacks(" серверов"@, '{'));
    assert(lacks("Show "@, '{'));
    assert(lacks(" servers"@, '{'));
    assert("Показать {total} серверов"@ =~= "Показать "@ + (p2 + " серверов"@));
    assert("Show {total} servers"@ =~= "Show "@ + (p2 + " servers"@));
    lemma_replace_passes("Показать "@, p2 + " серверов"@, p2, d);
    lemma_replace_leading(" серверов"@, p2, d);
    lemma_replace_lacking(" серверов"@, p2, d);
    assert("Показать "@ + (d + " серверов"@) =~= "Показать "@ + d + " серверов"@);
    lemma_replace_passes("Show "@, p2 + " servers"@, p2, d);
    lemma_replace_leading(" servers"@, p2, d);
    lemma_replace_lacking(" servers"@, p2, d);
    assert("Show "@ + (d + " servers"@) =~= "Show "@ + d + " servers"@);
}

} // verus!
