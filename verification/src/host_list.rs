//! The host list / dashboard view: search, tag filter, sorting and selection.

use vstd::prelude::*;

use crate::assoc::lookup;
use crate::host::{ConnectionStatus, Host, HostForm};
use crate::order::{
    key_views, lemma_seq_lt_irrefl, lemma_text_key_lt, str_before, lemma_seq_lt_total, lemma_seq_lt_trans, lemma_text_key_injective,
    seq_less, seq_lt, sort_indices, sorted_by_keys, text_key,
};
use crate::screen::SortOrder;
use crate::text::{chars_of, contains, contains_seq, lowercase, owned, str_eq, to_lowercase, views};

verus! {

/// Which popup is shown over the host list.
#[derive(Debug, Clone)]
pub enum HostPopup {
    /// Adding a new host.
    Add(HostForm),
    /// Editing the host at `host_idx` of the host list.
    Edit { host_idx: usize, form: HostForm },
    /// Asking for confirmation before deleting a host.
    DeleteConfirm(usize),
    /// Asking for confirmation to set up SSH key authentication.
    KeySetupConfirm(usize),
    /// Showing key setup progress; `current_step` describes the step running.
    KeySetupProgress { host_idx: usize, host_name: String, current_step: Option<String> },
}

/// The percentage a metric reading of `-1` stands for when a host has no
/// reading: `-1.0`, in hundredths of a percent.
pub const MISSING_PERCENT: i64 = -100;

/// The live figures of one host. Percentages are in hundredths of a percent
/// (`12.34 %` is `1234`), which keeps their order; each figure is absent
/// until a reading gives it.
#[derive(Debug, Clone, PartialEq, Eq, Default)]
pub struct MetricKeys {
    pub cpu_percent: Option<i64>,
    pub ram_percent: Option<i64>,
    pub disk_percent: Option<i64>,
    /// The uptime as the server reports it.
    pub uptime: Option<String>,
    /// The load averages as the server reports them.
    pub load_avg: Option<String>,
    /// The operating system's description.
    pub os_info: Option<String>,
    /// The busiest processes: command, CPU and memory percentages.
    pub top_processes: Option<Vec<(String, i64, i64)>>,
    /// When the reading was taken, as the poller counts time.
    pub last_updated: u64,
}

/// UI state of the host list / Dashboard screen.
#[derive(Debug, Default)]
pub struct HostListView {
    /// Selected row index within `filtered_indices`.
    pub selected: usize,
    /// True while the user is typing a search query.
    pub search_mode: bool,
    /// Current search query.
    pub search_query: String,
    /// Indices into the host list matching the query and tag filter, sorted.
    pub filtered_indices: Vec<usize>,
    /// Visible popup, if any.
    pub popup: Option<HostPopup>,
    /// Host waiting to be connected.
    pub pending_connect: Option<Host>,
    /// Active sort order for the dashboard grid.
    pub sort_order: SortOrder,
    /// Active tag filter; `None` shows all hosts.
    pub tag_filter: Option<String>,
    /// Whether the tag-filter popup is open.
    pub tag_popup_open: bool,
    /// Selected index within the tag picker popup.
    pub tag_popup_selected: usize,
    /// All distinct tags across all hosts, sorted.
    pub available_tags: Vec<String>,
}

/// Sort priority of a connection status: lower sorts first.
pub open spec fn status_rank(status: Option<ConnectionStatus>) -> u8 {
    match status {
        Some(ConnectionStatus::Connected) => 0,
        Some(ConnectionStatus::Connecting) => 1,
        Some(ConnectionStatus::Unknown) => 2,
        None => 2,
        Some(ConnectionStatus::Failed(_)) => 3,
    }
}

/// Lower number = higher priority for status sort:
/// Connected, Connecting, Unknown or none, Failed.
pub fn status_priority(status: Option<&ConnectionStatus>) -> (res: u8)
    ensures
        res == status_rank(
            match status {
                Some(s) => Some(*s),
                None => None,
            },
        ),
{
    match status {
        Some(ConnectionStatus::Connected) => 0,
        Some(ConnectionStatus::Connecting) => 1,
        Some(ConnectionStatus::Unknown) | None => 2,
        Some(ConnectionStatus::Failed(_)) => 3,
    }
}

/// Case-insensitive match of a non-empty query against a host's name,
/// hostname, tags or notes.
pub open spec fn host_matches(h: Host, q: Seq<char>) -> bool {
    let lq = lowercase(q);
    ||| contains_seq(lowercase(h.name@), lq)
    ||| contains_seq(lowercase(h.hostname@), lq)
    ||| exists|i: int| 0 <= i < h.tags@.len() && contains_seq(lowercase(#[trigger] h.tags@[i]@), lq)
    ||| match h.notes {
        Some(n) => contains_seq(lowercase(n@), lq),
        None => false,
    }
}

/// The indices `0..n`.
pub open spec fn all_indices(n: nat) -> Seq<usize> {
    Seq::new(n, |i: int| i as usize)
}

/// Indices of the hosts that a query selects: all of them for an empty
/// query, else those matching it, in ascending order.
pub open spec fn matching_hosts(hosts: Seq<Host>, q: Seq<char>) -> Seq<usize> {
    all_indices(hosts.len()).filter(|i: usize| q.len() == 0 || host_matches(hosts[i as int], q))
}

/// Whether the lower-cased `lq` occurs in the lower-cased `s`.
fn lower_contains(s: &str, lq: &str) -> (res: bool)
    ensures
        res == contains_seq(lowercase(s@), lq@),
{
    let l = to_lowercase(s);
    contains(l.as_str(), lq)
}

fn host_matches_exec(h: &Host, q: &str, lq: &str) -> (res: bool)
    requires
        lq@ == lowercase(q@),
    ensures
        res == host_matches(*h, q@),
{
    if lower_contains(h.name.as_str(), lq) || lower_contains(h.hostname.as_str(), lq) {
        return true;
    }
    let mut i: usize = 0;
    while i < h.tags.len()
        invariant
            i <= h.tags.len(),
            lq@ == lowercase(q@),
            forall|j: int| 0 <= j < i ==> !contains_seq(lowercase(#[trigger] h.tags@[j]@), lq@),
        decreases h.tags.len() - i,
    {
        if lower_contains(h.tags[i].as_str(), lq) {
            return true;
        }
        i = i + 1;
    }
    match &h.notes {
        Some(n) => lower_contains(n.as_str(), lq),
        None => false,
    }
}

/// Case-insensitive substring filter over name / hostname / tags / notes.
/// An empty query matches every host.
pub fn filter_hosts(hosts: &[Host], query: &str) -> (res: Vec<usize>)
    ensures
        res@ == matching_hosts(hosts@, query@),
        forall|i: int| 0 <= i < res.len() ==> res@[i] < hosts.len(),
        forall|i: int, j: int| 0 <= i < j < res.len() ==> res@[i] < res@[j],
{
    let ghost pred = |i: usize| query@.len() == 0 || host_matches(hosts@[i as int], query@);
    let ghost all = all_indices(hosts@.len());
    let empty = chars_of(query).len() == 0;
    let lq = to_lowercase(query);
    let mut out: Vec<usize> = Vec::new();
    let mut i: usize = 0;
    assert(all.take(0) =~= Seq::<usize>::empty());
    while i < hosts.len()
        invariant
            i <= hosts.len(),
            all == all_indices(hosts@.len()),
            pred == (|i: usize| query@.len() == 0 || host_matches(hosts@[i as int], query@)),
            empty == (query@.len() == 0),
            lq@ == lowercase(query@),
            out@ == all.take(i as int).filter(pred),
            forall|k: int| 0 <= k < out.len() ==> out@[k] < i,
            forall|k: int, j: int| 0 <= k < j < out.len() ==> out@[k] < out@[j],
        decreases hosts.len() - i,
    {
        proof {
            assert(all.take(i + 1) =~= all.take(i as int).push(i));
            all.take(i as int).lemma_filter_push(i, pred);
        }
        if empty || host_matches_exec(&hosts[i], query, lq.as_str()) {
            out.push(i);
        }
        i = i + 1;
    }
    assert(all.take(hosts.len() as int) =~= all);
    out
}

/// The host's tags contain `tag`.
pub open spec fn has_tag(h: Host, tag: Seq<char>) -> bool {
    views(h.tags@).contains(tag)
}

/// The hosts that the search query and the tag filter let through, in host
/// list order.
pub open spec fn visible_hosts(hosts: Seq<Host>, q: Seq<char>, tag: Option<String>) -> Seq<usize> {
    matching_hosts(hosts, q).filter(
        |i: usize| match tag {
            Some(t) => has_tag(hosts[i as int], t@),
            None => true,
        },
    )
}

/// A host is listed exactly when the search query is empty or occurs,
/// ignoring case, in its name, its hostname, one of its tags or its notes,
/// and, under a tag filter, it carries that tag.
pub proof fn law_filter_lists_matching_hosts(hosts: Seq<Host>, q: Seq<char>, tag: Option<String>, k: usize)
    ensures
        visible_hosts(hosts, q, tag).contains(k) <==> {
            &&& k < hosts.len()
            &&& q.len() == 0 || contains_seq(lowercase(hosts[k as int].name@), lowercase(q)) || contains_seq(
                lowercase(hosts[k as int].hostname@),
                lowercase(q),
            ) || (exists|i: int|
                0 <= i < hosts[k as int].tags@.len() && contains_seq(
                    lowercase(#[trigger] hosts[k as int].tags@[i]@),
                    lowercase(q),
                )) || (match hosts[k as int].notes {
                Some(n) => contains_seq(lowercase(n@), lowercase(q)),
                None => false,
            })
            &&& match tag {
                Some(t) => exists|i: int| 0 <= i < hosts[k as int].tags@.len() && #[trigger] hosts[k as int].tags@[i]@ == t@,
                None => true,
            }
        },
{
    let all = all_indices(hosts.len());
    let p1 = |i: usize| q.len() == 0 || host_matches(hosts[i as int], q);
    let p2 = |i: usize| match tag {
        Some(t) => has_tag(hosts[i as int], t@),
        None => true,
    };
    let m = all.filter(p1);
    assert(matching_hosts(hosts, q) == m);
    assert(visible_hosts(hosts, q, tag) == m.filter(p2));
    if m.filter(p2).contains(k) {
        let j = choose|j: int| 0 <= j < m.filter(p2).len() && m.filter(p2)[j] == k;
        m.lemma_filter_pred(p2, j);
        m.lemma_filter_contains_rev(p2, k);
        let j1 = choose|j1: int| 0 <= j1 < m.len() && m[j1] == k;
        all.lemma_filter_pred(p1, j1);
        all.lemma_filter_contains_rev(p1, k);
        let j2 = choose|j2: int| 0 <= j2 < all.len() && all[j2] == k;
        assert(k < hosts.len());
        match tag {
            Some(t) => {
                assert(views(hosts[k as int].tags@).contains(t@));
                let i = choose|i: int| 0 <= i < views(hosts[k as int].tags@).len() && views(hosts[k as int].tags@)[i] == t@;
                assert(hosts[k as int].tags@[i]@ == t@);
            },
            None => {},
        }
    }
    if k < hosts.len() && p1(k) && p2(k) {
        assert(all[k as int] == k);
        all.lemma_filter_contains(p1, k as int);
        let j = choose|j: int| 0 <= j < m.len() && m[j] == k;
        m.lemma_filter_contains(p2, j);
    }
    match tag {
        Some(t) => {
            if exists|i: int| 0 <= i < hosts[k as int].tags@.len() && #[trigger] hosts[k as int].tags@[i]@ == t@ {
                let i = choose|i: int| 0 <= i < hosts[k as int].tags@.len() && #[trigger] hosts[k as int].tags@[i]@ == t@;
                assert(views(hosts[k as int].tags@)[i] == t@);
            }
        },
        None => {},
    }
}

fn has_tag_exec(h: &Host, tag: &str) -> (res: bool)
    ensures
        res == has_tag(*h, tag@),
{
    let mut i: usize = 0;
    while i < h.tags.len()
        invariant
            i <= h.tags.len(),
            forall|j: int| 0 <= j < i ==> h.tags@[j]@ != tag@,
        decreases h.tags.len() - i,
    {
        if str_eq(h.tags[i].as_str(), tag) {
            assert(views(h.tags@)[i as int] == tag@);
            return true;
        }
        i = i + 1;
    }
    assert(!views(h.tags@).contains(tag@)) by {
        if views(h.tags@).contains(tag@) {
            let j = choose|j: int| 0 <= j < views(h.tags@).len() && views(h.tags@)[j] == tag@;
            assert(h.tags@[j]@ == tag@);
        }
    }
    false
}

/// The first metrics entry recorded for `name`.
pub open spec fn metrics_of(ms: Seq<(String, MetricKeys)>, name: Seq<char>) -> Option<MetricKeys> {
    lookup(ms, name)
}

/// The first status entry recorded for `name`.
pub open spec fn status_of(ss: Seq<(String, ConnectionStatus)>, name: Seq<char>) -> Option<ConnectionStatus> {
    lookup(ss, name)
}

/// Sort key of a usage figure, highest first; an absent figure counts as
/// `-1.0 %` (`MISSING_PERCENT`), so it ties with that reading.
pub open spec fn usage_key(v: Option<i64>) -> Seq<int> {
    match v {
        Some(x) => seq![0, -(x as int)],
        None => seq![0, -(MISSING_PERCENT as int)],
    }
}

/// The sort key of host `h` under `order`: its name for `Name`, descending
/// CPU or RAM usage (unknown as -1 %), or its status rank.
pub open spec fn sort_key(
    order: SortOrder,
    h: Host,
    ms: Seq<(String, MetricKeys)>,
    ss: Seq<(String, ConnectionStatus)>,
) -> Seq<int> {
    match order {
        SortOrder::Name => text_key(h.name@),
        SortOrder::Cpu => usage_key(
            match metrics_of(ms, h.name@) {
                Some(m) => m.cpu_percent,
                None => None,
            },
        ),
        SortOrder::Ram => usage_key(
            match metrics_of(ms, h.name@) {
                Some(m) => m.ram_percent,
                None => None,
            },
        ),
        SortOrder::Status => seq![status_rank(status_of(ss, h.name@)) as int],
    }
}

/// Under name order the listed hosts come in ascending order of their
/// names, as `str` compares them, and hosts of the same name keep their
/// order in the host list.
pub proof fn law_name_order_lists_by_name(
    r: Seq<usize>,
    hosts: Seq<Host>,
    ms: Seq<(String, MetricKeys)>,
    ss: Seq<(String, ConnectionStatus)>,
)
    requires
        sorted_by_keys(r, sort_keys(SortOrder::Name, hosts, ms, ss)),
        forall|k: int| 0 <= k < r.len() ==> r[k] < hosts.len(),
    ensures
        forall|i: int, j: int|
            0 <= i < j < r.len() ==> str_before(#[trigger] hosts[r[i] as int].name@, #[trigger] hosts[r[j] as int].name@)
                || (hosts[r[i] as int].name@ == hosts[r[j] as int].name@ && r[i] < r[j]),
{
    let keys = sort_keys(SortOrder::Name, hosts, ms, ss);
    assert forall|i: int, j: int| 0 <= i < j < r.len() implies str_before(
        #[trigger] hosts[r[i] as int].name@,
        #[trigger] hosts[r[j] as int].name@,
    ) || (hosts[r[i] as int].name@ == hosts[r[j] as int].name@ && r[i] < r[j]) by {
        let a = hosts[r[i] as int].name@;
        let b = hosts[r[j] as int].name@;
        assert(keys[r[i] as int] == text_key(a));
        assert(keys[r[j] as int] == text_key(b));
        assert(crate::order::key_lt(keys[r[i] as int], r[i] as int, keys[r[j] as int], r[j] as int));
        if seq_lt(text_key(a), text_key(b)) {
            lemma_text_key_lt(a, b);
        } else {
            lemma_text_key_injective(a, b);
        }
    }
}

/// Two-place usage keys compare by their second place.
proof fn lemma_usage_key_lt(x: int, y: int)
    ensures
        seq_lt(seq![0, x], seq![0, y]) <==> x < y,
        seq_lt(seq![x], seq![y]) <==> x < y,
{
    reveal_with_fuel(seq_lt, 3);
    assert(seq![0, x].drop_first() =~= seq![x]);
    assert(seq![0, y].drop_first() =~= seq![y]);
    assert(seq![x].drop_first() =~= Seq::<int>::empty());
    assert(seq![y].drop_first() =~= Seq::<int>::empty());
}

/// Under CPU or RAM order the listed hosts come by falling usage, a host
/// with no reading counting as -1 % (-100 hundredths), and hosts of equal
/// usage keep their order in the host list.
pub proof fn law_usage_order_lists_busiest_first(
    order: SortOrder,
    r: Seq<usize>,
    hosts: Seq<Host>,
    ms: Seq<(String, MetricKeys)>,
    ss: Seq<(String, ConnectionStatus)>,
)
    requires
        order == SortOrder::Cpu || order == SortOrder::Ram,
        sorted_by_keys(r, sort_keys(order, hosts, ms, ss)),
        forall|k: int| 0 <= k < r.len() ==> r[k] < hosts.len(),
    ensures
        forall|i: int, j: int|
            #![trigger r[i], r[j]]
            0 <= i < j < r.len() ==> {
                let ua = match lookup(ms, hosts[r[i] as int].name@) {
                    Some(m) => match if order == SortOrder::Cpu { m.cpu_percent } else { m.ram_percent } {
                        Some(x) => x as int,
                        None => -100,
                    },
                    None => -100,
                };
                let ub = match lookup(ms, hosts[r[j] as int].name@) {
                    Some(m) => match if order == SortOrder::Cpu { m.cpu_percent } else { m.ram_percent } {
                        Some(x) => x as int,
                        None => -100,
                    },
                    None => -100,
                };
                ua > ub || (ua == ub && r[i] < r[j])
            },
{
    let keys = sort_keys(order, hosts, ms, ss);
    assert forall|i: int, j: int| #![trigger r[i], r[j]] 0 <= i < j < r.len() implies {
        let ua = match lookup(ms, hosts[r[i] as int].name@) {
            Some(m) => match if order == SortOrder::Cpu { m.cpu_percent } else { m.ram_percent } {
                Some(x) => x as int,
                None => -100,
            },
            None => -100,
        };
        let ub = match lookup(ms, hosts[r[j] as int].name@) {
            Some(m) => match if order == SortOrder::Cpu { m.cpu_percent } else { m.ram_percent } {
                Some(x) => x as int,
                None => -100,
            },
            None => -100,
        };
        ua > ub || (ua == ub && r[i] < r[j])
    } by {
        assert(crate::order::key_lt(keys[r[i] as int], r[i] as int, keys[r[j] as int], r[j] as int));
        let ka = keys[r[i] as int];
        let kb = keys[r[j] as int];
        assert(ka.len() == 2 && ka[0] == 0);
        assert(kb.len() == 2 && kb[0] == 0);
        assert(ka =~= seq![0, ka[1]]);
        assert(kb =~= seq![0, kb[1]]);
        lemma_usage_key_lt(ka[1], kb[1]);
    }
}

/// Under status order the listed hosts come connected first, then
/// connecting, then unknown or never seen, then failed; hosts of the same
/// standing keep their order in the host list.
pub proof fn law_status_order_lists_connected_first(
    r: Seq<usize>,
    hosts: Seq<Host>,
    ms: Seq<(String, MetricKeys)>,
    ss: Seq<(String, ConnectionStatus)>,
)
    requires
        sorted_by_keys(r, sort_keys(SortOrder::Status, hosts, ms, ss)),
        forall|k: int| 0 <= k < r.len() ==> r[k] < hosts.len(),
    ensures
        forall|i: int, j: int|
            #![trigger r[i], r[j]]
            0 <= i < j < r.len() ==> {
                let sa: int = match lookup(ss, hosts[r[i] as int].name@) {
                    Some(ConnectionStatus::Connected) => 0,
                    Some(ConnectionStatus::Connecting) => 1,
                    Some(ConnectionStatus::Failed(_)) => 3,
                    _ => 2,
                };
                let sb: int = match lookup(ss, hosts[r[j] as int].name@) {
                    Some(ConnectionStatus::Connected) => 0,
                    Some(ConnectionStatus::Connecting) => 1,
                    Some(ConnectionStatus::Failed(_)) => 3,
                    _ => 2,
                };
                sa < sb || (sa == sb && r[i] < r[j])
            },
{
    let keys = sort_keys(SortOrder::Status, hosts, ms, ss);
    assert forall|i: int, j: int| #![trigger r[i], r[j]] 0 <= i < j < r.len() implies {
        let sa: int = match lookup(ss, hosts[r[i] as int].name@) {
            Some(ConnectionStatus::Connected) => 0,
            Some(ConnectionStatus::Connecting) => 1,
            Some(ConnectionStatus::Failed(_)) => 3,
            _ => 2,
        };
        let sb: int = match lookup(ss, hosts[r[j] as int].name@) {
            Some(ConnectionStatus::Connected) => 0,
            Some(ConnectionStatus::Connecting) => 1,
            Some(ConnectionStatus::Failed(_)) => 3,
            _ => 2,
        };
        sa < sb || (sa == sb && r[i] < r[j])
    } by {
        assert(crate::order::key_lt(keys[r[i] as int], r[i] as int, keys[r[j] as int], r[j] as int));
        let ka = keys[r[i] as int];
        let kb = keys[r[j] as int];
        assert(ka =~= seq![ka[0]]);
        assert(kb =~= seq![kb[0]]);
        lemma_usage_key_lt(ka[0], kb[0]);
    }
}

/// The sort keys of all hosts.
pub open spec fn sort_keys(
    order: SortOrder,
    hosts: Seq<Host>,
    ms: Seq<(String, MetricKeys)>,
    ss: Seq<(String, ConnectionStatus)>,
) -> Seq<Seq<int>> {
    Seq::new(hosts.len(), |i: int| sort_key(order, hosts[i], ms, ss))
}

/// The selection clamped into a list of `n` rows.
pub open spec fn clamp_selection(selected: usize, n: nat) -> usize {
    if n == 0 {
        0
    } else if selected >= n {
        (n - 1) as usize
    } else {
        selected
    }
}

pub(crate) fn metrics_lookup<'a>(ms: &'a [(String, MetricKeys)], name: &str) -> (res: Option<&'a MetricKeys>)
    ensures
        match res {
            Some(m) => metrics_of(ms@, name@) == Some(*m),
            None => metrics_of(ms@, name@) is None,
        },
{
    let mut i: usize = 0;
    assert(ms@.skip(0) =~= ms@);
    while i < ms.len()
        invariant
            i <= ms.len(),
            metrics_of(ms@, name@) == metrics_of(ms@.skip(i as int), name@),
        decreases ms.len() - i,
    {
        assert(ms@.skip(i as int)[0] == ms@[i as int]);
        if str_eq(ms[i].0.as_str(), name) {
            return Some(&ms[i].1);
        }
        assert(ms@.skip(i as int).drop_first() =~= ms@.skip(i + 1));
        i = i + 1;
    }
    None
}

fn status_lookup<'a>(ss: &'a [(String, ConnectionStatus)], name: &str) -> (res: Option<&'a ConnectionStatus>)
    ensures
        match res {
            Some(s) => status_of(ss@, name@) == Some(*s),
            None => status_of(ss@, name@) is None,
        },
{
    let mut i: usize = 0;
    assert(ss@.skip(0) =~= ss@);
    while i < ss.len()
        invariant
            i <= ss.len(),
            status_of(ss@, name@) == status_of(ss@.skip(i as int), name@),
        decreases ss.len() - i,
    {
        assert(ss@.skip(i as int)[0] == ss@[i as int]);
        if str_eq(ss[i].0.as_str(), name) {
            return Some(&ss[i].1);
        }
        assert(ss@.skip(i as int).drop_first() =~= ss@.skip(i + 1));
        i = i + 1;
    }
    None
}

fn usage_key_exec(v: Option<i64>) -> (res: Vec<i128>)
    ensures
        res@.map_values(|x: i128| x as int) == usage_key(v),
{
    let r: Vec<i128> = match v {
        Some(x) => {
            let neg: i128 = 0 - (x as i128);
            vec![0, neg]
        },
        None => {
            let missing: i128 = 0 - (MISSING_PERCENT as i128);
            vec![0, missing]
        },
    };
    assert(r@.map_values(|x: i128| x as int) =~= usage_key(v));
    r
}

/// The code points of `s` as a key vector.
pub fn text_key_exec(s: &str) -> (res: Vec<i128>)
    ensures
        res@.map_values(|x: i128| x as int) == text_key(s@),
{
    let cs = chars_of(s);
    let mut out: Vec<i128> = Vec::new();
    let mut i: usize = 0;
    while i < cs.len()
        invariant
            i <= cs.len(),
            cs@ == s@,
            out@.map_values(|x: i128| x as int) == text_key(s@).take(i as int),
        decreases cs.len() - i,
    {
        let ghost before = out@.map_values(|x: i128| x as int);
        out.push(cs[i] as u32 as i128);
        assert(out@.map_values(|x: i128| x as int) =~= before.push((cs@[i as int] as u32) as int));
        assert(text_key(s@).take(i + 1) =~= text_key(s@).take(i as int).push((cs@[i as int] as u32) as int));
        i = i + 1;
    }
    assert(text_key(s@).take(cs.len() as int) =~= text_key(s@));
    out
}

fn sort_key_exec(
    order: SortOrder,
    h: &Host,
    ms: &[(String, MetricKeys)],
    ss: &[(String, ConnectionStatus)],
) -> (res: Vec<i128>)
    ensures
        res@.map_values(|x: i128| x as int) == sort_key(order, *h, ms@, ss@),
{
    match order {
        SortOrder::Name => text_key_exec(h.name.as_str()),
        SortOrder::Cpu => usage_key_exec(
            match metrics_lookup(ms, h.name.as_str()) {
                Some(m) => m.cpu_percent,
                None => None,
            },
        ),
        SortOrder::Ram => usage_key_exec(
            match metrics_lookup(ms, h.name.as_str()) {
                Some(m) => m.ram_percent,
                None => None,
            },
        ),
        SortOrder::Status => {
            let p = status_priority(status_lookup(ss, h.name.as_str()));
            let r: Vec<i128> = vec![p as i128];
            assert(r@.map_values(|x: i128| x as int) =~= sort_key(order, *h, ms@, ss@));
            r
        },
    }
}


/// Every tag of every host.
pub open spec fn all_tags(hosts: Seq<Host>) -> Set<Seq<char>> {
    Set::new(|t: Seq<char>| exists|i: int| 0 <= i < hosts.len() && views(#[trigger] hosts[i].tags@).contains(t))
}

/// Strictly increasing in string order: sorted, with no repeats.
pub open spec fn strictly_sorted(v: Seq<Seq<char>>) -> bool {
    forall|i: int, j: int| 0 <= i < j < v.len() ==> seq_lt(#[trigger] text_key(v[i]), #[trigger] text_key(v[j]))
}

/// Adds `t` to the strictly sorted `out`, unless it is there already;
/// `keys` holds the string keys of `out`.
fn insert_sorted(out: &mut Vec<String>, keys: &mut Vec<Vec<i128>>, t: &str)
    requires
        strictly_sorted(views(old(out)@)),
        old(keys).len() == old(out).len(),
        forall|i: int| 0 <= i < old(out).len() ==> key_views(old(keys)@)[i] == text_key(#[trigger] old(out)@[i]@),
    ensures
        strictly_sorted(views(final(out)@)),
        final(keys).len() == final(out).len(),
        forall|i: int| 0 <= i < final(out).len() ==> key_views(final(keys)@)[i] == text_key(#[trigger] final(out)@[i]@),
        views(final(out)@).to_set() == views(old(out)@).to_set().insert(t@),
{
    let tk = text_key_exec(t);
    let mut pos: usize = 0;
    while pos < out.len() && seq_less(keys[pos].as_slice(), tk.as_slice())
        invariant
            pos <= out.len(),
            keys.len() == out.len(),
            tk@.map_values(|x: i128| x as int) == text_key(t@),
            forall|i: int| 0 <= i < out.len() ==> key_views(keys@)[i] == text_key(#[trigger] out@[i]@),
            forall|j: int| 0 <= j < pos ==> seq_lt(#[trigger] text_key(out@[j]@), text_key(t@)),
        decreases out.len() - pos,
    {
        assert(key_views(keys@)[pos as int] == keys@[pos as int]@.map_values(|x: i128| x as int));
        pos = pos + 1;
    }
    let ghost old_views = views(out@);
    if pos < out.len() {
        assert(key_views(keys@)[pos as int] == keys@[pos as int]@.map_values(|x: i128| x as int));
        if str_eq(out[pos].as_str(), t) {
            assert(old_views[pos as int] == t@);
            assert(old_views.to_set().insert(t@) =~= old_views.to_set());
            return;
        }
        proof {
            lemma_seq_lt_total(text_key(out@[pos as int]@), text_key(t@));
            if text_key(out@[pos as int]@) == text_key(t@) {
                lemma_text_key_injective(out@[pos as int]@, t@);
            }
        }
    }
    let ghost old_out = out@;
    out.insert(pos, owned(t));
    keys.insert(pos, tk);
    proof {
        let nv = views(out@);
        assert(nv =~= old_views.insert(pos as int, t@));
        assert forall|i: int, j: int| 0 <= i < j < nv.len() implies seq_lt(#[trigger] text_key(nv[i]), #[trigger] text_key(nv[j])) by {
            if j < pos {
            } else if i < pos && j == pos {
                assert(nv[i] == old_out[i]@);
            } else if i < pos {
                assert(nv[i] == old_views[i]);
                assert(nv[j] == old_views[j - 1]);
                if i < j - 1 {
                } else {
                    lemma_seq_lt_irrefl(text_key(nv[i]));
                }
            } else if i == pos {
                assert(nv[j] == old_views[j - 1]);
                if j - 1 > pos {
                    lemma_seq_lt_trans(text_key(t@), text_key(old_views[pos as int]), text_key(old_views[j - 1]));
                }
            } else {
                assert(nv[i] == old_views[i - 1]);
                assert(nv[j] == old_views[j - 1]);
            }
        }
        assert forall|i: int| 0 <= i < out.len() implies key_views(keys@)[i] == text_key(#[trigger] out@[i]@) by {
            if i < pos {
                assert(out@[i] == old_out[i]);
            } else if i > pos {
                assert(out@[i] == old_out[i - 1]);
            }
        }
        assert(nv.to_set() =~= old_views.to_set().insert(t@)) by {
            assert forall|x: Seq<char>| nv.to_set().contains(x) implies old_views.to_set().insert(t@).contains(x) by {
                let k = choose|k: int| 0 <= k < nv.len() && nv[k] == x;
                if k < pos {
                    assert(old_views[k] == x);
                } else if k > pos {
                    assert(old_views[k - 1] == x);
                }
            }
            assert forall|x: Seq<char>| old_views.to_set().insert(t@).contains(x) implies nv.to_set().contains(x) by {
                if x == t@ {
                    assert(nv[pos as int] == x);
                } else {
                    let k = choose|k: int| 0 <= k < old_views.len() && old_views[k] == x;
                    if k < pos {
                        assert(nv[k] == x);
                    } else {
                        assert(nv[k + 1] == x);
                    }
                }
            }
        }
    }
}

impl HostListView {
    /// The host-list index of the selected row, if any.
    pub fn selected_host_idx(&self) -> (res: Option<usize>)
        ensures
            res == (if self.selected < self.filtered_indices.len() {
                Some(self.filtered_indices@[self.selected as int])
            } else {
                None
            }),
    {
        if self.selected < self.filtered_indices.len() {
            Some(self.filtered_indices[self.selected])
        } else {
            None
        }
    }

    /// Rebuilds `filtered_indices`: the hosts matching the search query,
    /// restricted to the tag filter, ordered by the sort order (ties in host
    /// list order); then clamps the selection into the new list.
    pub fn rebuild_filter(
        &mut self,
        hosts: &[Host],
        metrics: &[(String, MetricKeys)],
        statuses: &[(String, ConnectionStatus)],
    )
        ensures
            final(self).filtered_indices@.to_set() == visible_hosts(
                hosts@,
                old(self).search_query@,
                old(self).tag_filter,
            ).to_set(),
            sorted_by_keys(
                final(self).filtered_indices@,
                sort_keys(old(self).sort_order, hosts@, metrics@, statuses@),
            ),
            final(self).selected == clamp_selection(
                old(self).selected,
                final(self).filtered_indices@.len(),
            ),
            final(self).search_mode == old(self).search_mode,
            final(self).search_query == old(self).search_query,
            final(self).popup == old(self).popup,
            final(self).pending_connect == old(self).pending_connect,
            final(self).sort_order == old(self).sort_order,
            final(self).tag_filter == old(self).tag_filter,
            final(self).tag_popup_open == old(self).tag_popup_open,
            final(self).tag_popup_selected == old(self).tag_popup_selected,
            final(self).available_tags == old(self).available_tags,
    {
        let base = filter_hosts(hosts, self.search_query.as_str());
        let ghost tag_ok = |i: usize| match self.tag_filter {
            Some(t) => has_tag(hosts@[i as int], t@),
            None => true,
        };
        let mut indices: Vec<usize> = Vec::new();
        let mut k: usize = 0;
        assert(base@.take(0) =~= Seq::<usize>::empty());
        while k < base.len()
            invariant
                k <= base.len(),
                base@ == matching_hosts(hosts@, self.search_query@),
                forall|i: int| 0 <= i < base.len() ==> base@[i] < hosts.len(),
                forall|i: int, j: int| 0 <= i < j < base.len() ==> base@[i] < base@[j],
                tag_ok == (|i: usize| match self.tag_filter {
                    Some(t) => has_tag(hosts@[i as int], t@),
                    None => true,
                }),
                indices@ == base@.take(k as int).filter(tag_ok),
                forall|i: int| 0 <= i < indices.len() ==> indices@[i] < hosts.len(),
                forall|i: int| 0 <= i < indices.len() ==> exists|j: int| 0 <= j < k && base@[j] == #[trigger] indices@[i],
                forall|i: int, j: int| 0 <= i < j < indices.len() ==> indices@[i] < indices@[j],
            decreases base.len() - k,
        {
            let i = base[k];
            proof {
                assert(base@.take(k + 1) =~= base@.take(k as int).push(i));
                base@.take(k as int).lemma_filter_push(i, tag_ok);
            }
            let keep = match &self.tag_filter {
                Some(t) => has_tag_exec(&hosts[i], t.as_str()),
                None => true,
            };
            if keep {
                proof {
                    assert forall|a: int| 0 <= a < indices.len() implies indices@[a] < i by {
                        let j = choose|j: int| 0 <= j < k && base@[j] == indices@[a];
                    }
                }
                indices.push(i);
                proof {
                    assert forall|a: int| 0 <= a < indices.len() implies exists|j: int| 0 <= j < k + 1 && base@[j] == #[trigger] indices@[a] by {
                        if a == indices.len() - 1 {
                            assert(base@[k as int] == indices@[a]);
                        } else {
                            let j = choose|j: int| 0 <= j < k && base@[j] == indices@[a];
                        }
                    }
                }
            }
            k = k + 1;
        }
        assert(base@.take(base.len() as int) =~= base@);
        let ghost wanted = visible_hosts(hosts@, self.search_query@, self.tag_filter);
        assert(indices@ == wanted);
        let mut keys: Vec<Vec<i128>> = Vec::new();
        let mut h: usize = 0;
        let ghost want = sort_keys(self.sort_order, hosts@, metrics@, statuses@);
        while h < hosts.len()
            invariant
                h <= hosts.len(),
                want == sort_keys(self.sort_order, hosts@, metrics@, statuses@),
                keys.len() == h,
                forall|j: int| 0 <= j < h ==> key_views(keys@)[j] == want[j],
            decreases hosts.len() - h,
        {
            let kv = sort_key_exec(self.sort_order, &hosts[h], metrics, statuses);
            keys.push(kv);
            proof {
                assert forall|j: int| 0 <= j < h + 1 implies key_views(keys@)[j] == want[j] by {
                    assert(key_views(keys@)[j] == keys@[j]@.map_values(|x: i128| x as int));
                }
            }
            h = h + 1;
        }
        assert(key_views(keys@) =~= want);
        let sorted = sort_indices(&indices, &keys);
        assert(sorted@.to_set() == wanted.to_set());
        self.filtered_indices = sorted;
        if self.filtered_indices.len() == 0 {
            self.selected = 0;
        } else if self.selected >= self.filtered_indices.len() {
            self.selected = self.filtered_indices.len() - 1;
        }
    }

    /// Moves the selection down one row, stopping at the last row.
    pub fn select_next(&mut self)
        requires
            old(self).selected < usize::MAX,
        ensures
            final(self).selected == if old(self).filtered_indices.len() == 0 {
                old(self).selected as int
            } else if old(self).selected + 1 < old(self).filtered_indices.len() {
                old(self).selected + 1
            } else {
                old(self).filtered_indices.len() - 1
            },
            final(self).filtered_indices == old(self).filtered_indices,
            final(self).popup == old(self).popup,
            final(self).search_mode == old(self).search_mode,
            final(self).search_query == old(self).search_query,
            final(self).sort_order == old(self).sort_order,
            final(self).tag_filter == old(self).tag_filter,
            final(self).available_tags == old(self).available_tags,
    {
        if self.filtered_indices.len() == 0 {
            return;
        }
        let last = self.filtered_indices.len() - 1;
        let next = self.selected + 1;
        self.selected = if next < last { next } else { last };
    }

    /// Moves the selection up one row, stopping at the first row.
    pub fn select_prev(&mut self)
        ensures
            final(self).selected == if old(self).selected == 0 {
                0
            } else {
                old(self).selected - 1
            },
            final(self).filtered_indices == old(self).filtered_indices,
            final(self).popup == old(self).popup,
            final(self).search_mode == old(self).search_mode,
            final(self).search_query == old(self).search_query,
            final(self).sort_order == old(self).sort_order,
            final(self).tag_filter == old(self).tag_filter,
            final(self).available_tags == old(self).available_tags,
    {
        self.selected = if self.selected == 0 { 0 } else { self.selected - 1 };
    }

    /// Rebuilds `available_tags`: every tag of every host, sorted, each once.
    pub fn rebuild_tags(&mut self, hosts: &[Host])
        ensures
            strictly_sorted(views(final(self).available_tags@)),
            views(final(self).available_tags@).to_set() == all_tags(hosts@),
            final(self).selected == old(self).selected,
            final(self).search_mode == old(self).search_mode,
            final(self).search_query == old(self).search_query,
            final(self).filtered_indices == old(self).filtered_indices,
            final(self).popup == old(self).popup,
            final(self).pending_connect == old(self).pending_connect,
            final(self).sort_order == old(self).sort_order,
            final(self).tag_filter == old(self).tag_filter,
            final(self).tag_popup_open == old(self).tag_popup_open,
            final(self).tag_popup_selected == old(self).tag_popup_selected,
    {
        let mut tags: Vec<String> = Vec::new();
        let mut keys: Vec<Vec<i128>> = Vec::new();
        let mut h: usize = 0;
        let ghost seen = Set::<Seq<char>>::empty();
        assert(views(tags@).to_set() =~= Set::<Seq<char>>::empty());
        while h < hosts.len()
            invariant
                h <= hosts.len(),
                strictly_sorted(views(tags@)),
                keys.len() == tags.len(),
                forall|i: int| 0 <= i < tags.len() ==> key_views(keys@)[i] == text_key(#[trigger] tags@[i]@),
                views(tags@).to_set() == Set::new(
                    |t: Seq<char>| exists|i: int| 0 <= i < h && views(#[trigger] hosts@[i].tags@).contains(t),
                ),
            decreases hosts.len() - h,
        {
            let ghost before = views(tags@).to_set();
            let mut k: usize = 0;
            while k < hosts[h].tags.len()
                invariant
                    h < hosts.len(),
                    k <= hosts@[h as int].tags.len(),
                    strictly_sorted(views(tags@)),
                    keys.len() == tags.len(),
                    forall|i: int| 0 <= i < tags.len() ==> key_views(keys@)[i] == text_key(#[trigger] tags@[i]@),
                    views(tags@).to_set() == before + views(hosts@[h as int].tags@).take(k as int).to_set(),
                decreases hosts@[h as int].tags.len() - k,
            {
                let ghost prev = views(tags@).to_set();
                insert_sorted(&mut tags, &mut keys, hosts[h].tags[k].as_str());
                proof {
                    let tv = views(hosts@[h as int].tags@);
                    assert(tv.take(k + 1) =~= tv.take(k as int).push(tv[k as int]));
                    tv.take(k as int).lemma_push_to_set_commute(tv[k as int]);
                    assert(views(tags@).to_set() =~= before + tv.take(k + 1).to_set());
                }
                k = k + 1;
            }
            proof {
                let tv = views(hosts@[h as int].tags@);
                assert(tv.take(tv.len() as int) =~= tv);
                let lhs = views(tags@).to_set();
                let rhs = Set::new(
                    |t: Seq<char>| exists|i: int| 0 <= i < h + 1 && views(#[trigger] hosts@[i].tags@).contains(t),
                );
                assert forall|t: Seq<char>| lhs.contains(t) implies rhs.contains(t) by {
                    if tv.to_set().contains(t) {
                        assert(views(hosts@[h as int].tags@).contains(t));
                    } else {
                        let i = choose|i: int| 0 <= i < h && views(#[trigger] hosts@[i].tags@).contains(t);
                    }
                }
                assert forall|t: Seq<char>| rhs.contains(t) implies lhs.contains(t) by {
                    let i = choose|i: int| 0 <= i < h + 1 && views(#[trigger] hosts@[i].tags@).contains(t);
                    if i == h {
                        assert(tv.to_set().contains(t));
                    } else {
                        assert(before.contains(t));
                    }
                }
                assert(lhs =~= rhs);
            }
            h = h + 1;
        }
        assert(views(tags@).to_set() =~= all_tags(hosts@));
        self.available_tags = tags;
    }

}

} // verus!
