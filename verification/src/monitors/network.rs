use vstd::prelude::*;

use crate::monitors::snapshot::IfaceCounters;

verus! {

// ---------------------------------------------------------------------------
// Interface selection, run once at construction.
// ---------------------------------------------------------------------------

/// The loopback interface name, "lo", skipped during selection.
pub open spec fn loopback_name() -> Seq<u8> {
    seq![('l' as u8), ('o' as u8)]
}

pub open spec fn is_loopback(name: Seq<u8>) -> bool {
    name == loopback_name()
}

/// An interface shows traffic when either cumulative counter is nonzero —
/// a heuristic "has real traffic" signal, not a routing guarantee.
pub open spec fn has_traffic(c: IfaceCounters) -> bool {
    c.rx_bytes > 0 || c.tx_bytes > 0
}

/// The interface at position `j` is eligible: not the loopback, and showing
/// traffic when `need_traffic` is set.
pub open spec fn candidate_ok(ifs: Seq<IfaceCounters>, j: int, need_traffic: bool) -> bool {
    !is_loopback(ifs[j].name@) && (!need_traffic || has_traffic(ifs[j]))
}

/// Index of the first eligible interface at or after `i`.
pub open spec fn first_candidate_from(
    ifs: Seq<IfaceCounters>,
    i: int,
    need_traffic: bool,
) -> Option<int>
    decreases ifs.len() - i,
{
    if i < 0 || i >= ifs.len() {
        None
    } else if candidate_ok(ifs, i, need_traffic) {
        Some(i)
    } else {
        first_candidate_from(ifs, i + 1, need_traffic)
    }
}

/// The index the monitor selects: the first non-loopback interface with
/// traffic; failing that, the first non-loopback interface; failing that,
/// none, and throughput stays zero for the process lifetime.
pub open spec fn select_spec(ifs: Seq<IfaceCounters>) -> Option<int> {
    if first_candidate_from(ifs, 0, true) is Some {
        first_candidate_from(ifs, 0, true)
    } else {
        first_candidate_from(ifs, 0, false)
    }
}

// ---------------------------------------------------------------------------
// Delta and rate derivation.
// ---------------------------------------------------------------------------

/// Byte delta of a cumulative counter across one tick. An apparent decrease
/// (interface reset, counter wraparound) clamps to zero: the delta is never
/// negative.
pub open spec fn delta_spec(prev: u64, cur: u64) -> nat {
    if cur >= prev {
        (cur - prev) as nat
    } else {
        0
    }
}

/// Bits per second derived from a byte delta over the nominal tick interval:
/// `delta * 8` bits over `interval_ms / 1000` seconds. A zero interval yields
/// a zero rate — no elapsed time that a rate could describe.
pub open spec fn rate_bps_spec(delta_bytes: nat, interval_ms: u64) -> nat {
    if interval_ms == 0 {
        0
    } else {
        delta_bytes * 8000 / interval_ms as nat
    }
}

/// Saturation of a mathematical rate to the stored width.
pub open spec fn clamp_u64(n: nat) -> u64 {
    if n > u64::MAX {
        u64::MAX as u64
    } else {
        n as u64
    }
}

fn delta_bytes(prev: u64, cur: u64) -> (d: u64)
    ensures
        d == delta_spec(prev, cur),
{
    if cur >= prev {
        cur - prev
    } else {
        0
    }
}

fn rate_bps(delta_bytes: u64, interval_ms: u64) -> (r: u64)
    ensures
        r == clamp_u64(rate_bps_spec(delta_bytes as nat, interval_ms)),
{
    if interval_ms == 0 {
        return 0;
    }
    let num: u128 = (delta_bytes as u128) * 8000;
    let q: u128 = num / (interval_ms as u128);
    if q > (u64::MAX as u128) {
        u64::MAX
    } else {
        q as u64
    }
}

// ---------------------------------------------------------------------------
// Exec helpers on byte strings and counter lists.
// ---------------------------------------------------------------------------

fn bytes_eq(a: &[u8], b: &[u8]) -> (r: bool)
    ensures
        r == (a@ == b@),
{
    if a.len() != b.len() {
        return false;
    }
    let mut i: usize = 0;
    while i < a.len()
        invariant
            a@.len() == b@.len(),
            i <= a@.len(),
            forall|j: int| 0 <= j < i ==> a@[j] == b@[j],
        decreases a@.len() - i,
    {
        if a[i] != b[i] {
            return false;
        }
        i = i + 1;
    }
    proof {
        assert(a@ =~= b@);
    }
    true
}

fn lo_needle() -> (v: Vec<u8>)
    ensures
        v@ == loopback_name(),
{
    let mut v: Vec<u8> = Vec::new();
    v.push(('l' as u8));
    v.push(('o' as u8));
    proof {
        assert(v@ =~= loopback_name());
    }
    v
}

fn iface_is_loopback(name: &[u8]) -> (r: bool)
    ensures
        r == is_loopback(name@),
{
    bytes_eq(name, lo_needle().as_slice())
}

fn copy_bytes(s: &[u8]) -> (r: Vec<u8>)
    ensures
        r@ == s@,
{
    let mut r: Vec<u8> = Vec::new();
    let mut i: usize = 0;
    while i < s.len()
        invariant
            i <= s@.len(),
            r@.len() == i,
            forall|j: int| 0 <= j < i ==> r@[j] == s@[j],
        decreases s@.len() - i,
    {
        r.push(s[i]);
        i = i + 1;
    }
    proof {
        assert(r@ =~= s@);
    }
    r
}

fn first_candidate(ifs: &Vec<IfaceCounters>, need_traffic: bool) -> (r: Option<usize>)
    ensures
        match r {
            Some(i) => i < ifs@.len() && first_candidate_from(ifs@, 0, need_traffic) == Some(
                i as int,
            ),
            None => first_candidate_from(ifs@, 0, need_traffic) is None,
        },
{
    let mut i: usize = 0;
    while i < ifs.len()
        invariant
            i <= ifs@.len(),
            first_candidate_from(ifs@, 0, need_traffic) == first_candidate_from(
                ifs@,
                i as int,
                need_traffic,
            ),
        decreases ifs@.len() - i,
    {
        let non_lo = !iface_is_loopback(ifs[i].name.as_slice());
        let ok = non_lo && (!need_traffic || ifs[i].rx_bytes > 0 || ifs[i].tx_bytes > 0);
        if ok {
            return Some(i);
        }
        i = i + 1;
    }
    None
}

// ---------------------------------------------------------------------------
// The monitor.
// ---------------------------------------------------------------------------

/// Network throughput for one interface selected at construction. Holds the
/// selected interface's name, the last-observed cumulative counters as the
/// baseline of the next delta, and the most recently derived rates in bits
/// per second. If no interface was ever selected, the rates stay zero for
/// the process lifetime; selection is never re-run (a fixed design choice,
/// also when the selected interface later disappears).
#[derive(Debug, Clone)]
pub struct NetworkStats {
    pub selected: Option<Vec<u8>>,
    pub prev_rx: u64,
    pub prev_tx: u64,
    pub download_bps: u64,
    pub upload_bps: u64,
}

/// The selected interface name as a byte sequence, if any.
pub open spec fn selected_name(s: NetworkStats) -> Option<Seq<u8>> {
    match s.selected {
        Some(n) => Some(n@),
        None => None,
    }
}

/// What construction against a counter list establishes: rates are zero, and
/// the selected interface with its current counters as baseline follows the
/// selection heuristic.
pub open spec fn initialized(s: NetworkStats, ifs: Seq<IfaceCounters>) -> bool {
    &&& s.download_bps == 0
    &&& s.upload_bps == 0
    &&& match select_spec(ifs) {
        Some(i) => {
            &&& selected_name(s) == Some(ifs[i].name@)
            &&& s.prev_rx == ifs[i].rx_bytes
            &&& s.prev_tx == ifs[i].tx_bytes
        },
        None => {
            &&& selected_name(s) is None
            &&& s.prev_rx == 0
            &&& s.prev_tx == 0
        },
    }
}

/// Index of the first interface with the given name at or after `i`.
pub open spec fn find_iface_from(ifs: Seq<IfaceCounters>, name: Seq<u8>, i: int) -> Option<int>
    decreases ifs.len() - i,
{
    if i < 0 || i >= ifs.len() {
        None
    } else if ifs[i].name@ == name {
        Some(i)
    } else {
        find_iface_from(ifs, name, i + 1)
    }
}

pub open spec fn find_iface(ifs: Seq<IfaceCounters>, name: Seq<u8>) -> Option<int> {
    find_iface_from(ifs, name, 0)
}

fn find_iface_exec(ifs: &Vec<IfaceCounters>, name: &[u8]) -> (r: Option<usize>)
    ensures
        match r {
            Some(i) => i < ifs@.len() && find_iface(ifs@, name@) == Some(i as int),
            None => find_iface(ifs@, name@) is None,
        },
{
    let mut i: usize = 0;
    while i < ifs.len()
        invariant
            i <= ifs@.len(),
            find_iface(ifs@, name@) == find_iface_from(ifs@, name@, i as int),
        decreases ifs@.len() - i,
    {
        if bytes_eq(ifs[i].name.as_slice(), name) {
            return Some(i);
        }
        i = i + 1;
    }
    None
}

/// How one enabled tick changes the monitor, given the refreshed counter list
/// and the nominal tick interval. With no selection the tick is a no-op; with
/// the selected interface missing from the refreshed list the rates drop to
/// zero and the baseline is kept; otherwise both rates are re-derived from
/// the clamped deltas and the baseline advances to the current counters.
pub open spec fn updated(
    pre: NetworkStats,
    post: NetworkStats,
    ifs: Seq<IfaceCounters>,
    interval_ms: u64,
) -> bool {
    &&& selected_name(post) == selected_name(pre)
    &&& match selected_name(pre) {
        None => post == pre,
        Some(name) => match find_iface(ifs, name) {
            None => {
                &&& post.prev_rx == pre.prev_rx
                &&& post.prev_tx == pre.prev_tx
                &&& post.download_bps == 0
                &&& post.upload_bps == 0
            },
            Some(i) => {
                &&& post.prev_rx == ifs[i].rx_bytes
                &&& post.prev_tx == ifs[i].tx_bytes
                &&& post.download_bps == clamp_u64(
                    rate_bps_spec(delta_spec(pre.prev_rx, ifs[i].rx_bytes), interval_ms),
                )
                &&& post.upload_bps == clamp_u64(
                    rate_bps_spec(delta_spec(pre.prev_tx, ifs[i].tx_bytes), interval_ms),
                )
            },
        },
    }
}

impl NetworkStats {
    /// Select the primary interface once, against the startup counter list,
    /// and take its current counters as the first baseline.
    pub fn new(interfaces: &Vec<IfaceCounters>) -> (s: Self)
        ensures
            initialized(s, interfaces@),
    {
        let with_traffic = first_candidate(interfaces, true);
        let sel = match with_traffic {
            Some(i) => Some(i),
            None => first_candidate(interfaces, false),
        };
        match sel {
            Some(i) => {
                let name = copy_bytes(interfaces[i].name.as_slice());
                Self {
                    selected: Some(name),
                    prev_rx: interfaces[i].rx_bytes,
                    prev_tx: interfaces[i].tx_bytes,
                    download_bps: 0,
                    upload_bps: 0,
                }
            },
            None => Self { selected: None, prev_rx: 0, prev_tx: 0, download_bps: 0, upload_bps: 0 },
        }
    }

    /// One enabled tick against the refreshed counter list.
    pub fn update(&mut self, interfaces: &Vec<IfaceCounters>, interval_ms: u64)
        ensures
            updated(*old(self), *final(self), interfaces@, interval_ms),
    {
        let found = match &self.selected {
            None => None,
            Some(name) => find_iface_exec(interfaces, name.as_slice()),
        };
        if self.selected.is_some() {
            match found {
                None => {
                    self.download_bps = 0;
                    self.upload_bps = 0;
                },
                Some(i) => {
                    let rx = interfaces[i].rx_bytes;
                    let tx = interfaces[i].tx_bytes;
                    self.download_bps = rate_bps(delta_bytes(self.prev_rx, rx), interval_ms);
                    self.upload_bps = rate_bps(delta_bytes(self.prev_tx, tx), interval_ms);
                    self.prev_rx = rx;
                    self.prev_tx = tx;
                },
            }
        }
    }

    /// Latest derived download rate, in bits per second.
    pub fn download_bps(&self) -> (r: u64)
        ensures
            r == self.download_bps,
    {
        self.download_bps
    }

    /// Latest derived upload rate, in bits per second.
    pub fn upload_bps(&self) -> (r: u64)
        ensures
            r == self.upload_bps,
    {
        self.upload_bps
    }

    /// Whether any interface was selected at startup — detectable for
    /// diagnostics, since without one the throughput is permanently zero.
    pub fn has_interface(&self) -> (r: bool)
        ensures
            r == (selected_name(*self) is Some),
    {
        self.selected.is_some()
    }
}

// ---------------------------------------------------------------------------
// Laws of the delta and rate derivation.
// ---------------------------------------------------------------------------

/// With monotone counters (`cur >= prev`) the tick's byte delta is exactly
/// the counter difference, and the derived rate is that difference scaled by
/// the bits-per-second conversion factor.
pub proof fn lemma_delta_monotone(prev: u64, cur: u64, interval_ms: u64)
    requires
        prev <= cur,
    ensures
        delta_spec(prev, cur) == cur - prev,
        interval_ms != 0 ==> rate_bps_spec(delta_spec(prev, cur), interval_ms) == (cur - prev)
            * 8000 / (interval_ms as int),
{
}

proof fn lemma_first_candidate_from_sound(ifs: Seq<IfaceCounters>, i: int, need_traffic: bool)
    requires
        0 <= i <= ifs.len(),
    ensures
        match first_candidate_from(ifs, i, need_traffic) {
            Some(k) => {
                &&& i <= k < ifs.len()
                &&& candidate_ok(ifs, k, need_traffic)
                &&& forall|j: int| i <= j < k ==> !candidate_ok(ifs, j, need_traffic)
            },
            None => forall|j: int| i <= j < ifs.len() ==> !candidate_ok(ifs, j, need_traffic),
        },
    decreases ifs.len() - i,
{
    if i < ifs.len() && !candidate_ok(ifs, i, need_traffic) {
        lemma_first_candidate_from_sound(ifs, i + 1, need_traffic);
    }
}

/// Soundness of interface selection: a selected index is in range and never
/// the loopback; when some non-loopback interface shows traffic, the selected
/// one is the first such interface in iteration order; otherwise it is the
/// first non-loopback interface. Selection comes back empty only when every
/// interface is the loopback.
pub proof fn lemma_select_sound(ifs: Seq<IfaceCounters>)
    ensures
        match select_spec(ifs) {
            Some(i) => {
                &&& 0 <= i < ifs.len()
                &&& !is_loopback(ifs[i].name@)
                &&& (exists|j: int| 0 <= j < ifs.len() && candidate_ok(ifs, j, true)) ==> (
                has_traffic(ifs[i]) && forall|j: int| 0 <= j < i ==> !candidate_ok(ifs, j, true))
                &&& !(exists|j: int| 0 <= j < ifs.len() && candidate_ok(ifs, j, true)) ==> (
                forall|j: int| 0 <= j < i ==> is_loopback(ifs[j].name@))
            },
            None => forall|j: int| 0 <= j < ifs.len() ==> is_loopback(ifs[j].name@),
        },
{
    lemma_first_candidate_from_sound(ifs, 0, true);
    lemma_first_candidate_from_sound(ifs, 0, false);
    match select_spec(ifs) {
        Some(i) => {
            if first_candidate_from(ifs, 0, true) is None {
                assert forall|j: int| 0 <= j < i implies is_loopback(ifs[j].name@) by {
                    assert(!candidate_ok(ifs, j, false));
                }
            }
        },
        None => {
            assert forall|j: int| 0 <= j < ifs.len() implies is_loopback(ifs[j].name@) by {
                assert(!candidate_ok(ifs, j, false));
            }
        },
    }
}

/// On counter rollback (`cur < prev`) the delta is exactly zero — never
/// negative — and the derived rate is zero as well.
pub proof fn lemma_delta_rollback(prev: u64, cur: u64, interval_ms: u64)
    requires
        cur < prev,
    ensures
        delta_spec(prev, cur) == 0,
        rate_bps_spec(delta_spec(prev, cur), interval_ms) == 0,
{
}

/// At the monitor level: a tick whose refreshed counter moved forward
/// (`rx1 >= rx0`) stores as download rate exactly the counter difference
/// scaled by the bits-per-second conversion — monotone counters never clamp.
pub proof fn lemma_update_rate_monotone(
    pre: NetworkStats,
    post: NetworkStats,
    ifs: Seq<IfaceCounters>,
    interval_ms: u64,
    i: int,
)
    requires
        updated(pre, post, ifs, interval_ms),
        selected_name(pre) is Some,
        find_iface(ifs, selected_name(pre).unwrap()) == Some(i),
        0 <= i < ifs.len(),
        pre.prev_rx <= ifs[i].rx_bytes,
    ensures
        post.download_bps == clamp_u64(
            rate_bps_spec((ifs[i].rx_bytes - pre.prev_rx) as nat, interval_ms),
        ),
        rate_bps_spec((ifs[i].rx_bytes - pre.prev_rx) as nat, interval_ms) <= u64::MAX
            ==> post.download_bps == rate_bps_spec(
            (ifs[i].rx_bytes - pre.prev_rx) as nat,
            interval_ms,
        ),
{
    lemma_delta_monotone(pre.prev_rx, ifs[i].rx_bytes, interval_ms);
}

/// At the monitor level: a tick whose refreshed counter rolled back
/// (`rx1 < rx0`) stores a download rate of exactly zero, never a negative or
/// wrapped-around value.
pub proof fn lemma_update_rate_rollback(
    pre: NetworkStats,
    post: NetworkStats,
    ifs: Seq<IfaceCounters>,
    interval_ms: u64,
    i: int,
)
    requires
        updated(pre, post, ifs, interval_ms),
        selected_name(pre) is Some,
        find_iface(ifs, selected_name(pre).unwrap()) == Some(i),
        0 <= i < ifs.len(),
        ifs[i].rx_bytes < pre.prev_rx,
    ensures
        post.download_bps == 0,
{
    lemma_delta_rollback(pre.prev_rx, ifs[i].rx_bytes, interval_ms);
}

} // verus!
