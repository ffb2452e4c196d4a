use vstd::prelude::*;

use crate::monitors::snapshot::Sensor;

verus! {

// ---------------------------------------------------------------------------
// Byte-level label matching.
//
// Sensor labels are free-form byte strings with no stable casing, so every
// comparison happens on the ASCII-lowercased label. Only ASCII letters fold;
// any other byte passes through unchanged.
// ---------------------------------------------------------------------------

/// ASCII lowercasing of one byte.
pub open spec fn lower_byte_spec(b: u8) -> u8 {
    if ('A' as u8) <= b && b <= ('Z' as u8) {
        (b + 32) as u8
    } else {
        b
    }
}

/// ASCII lowercasing of a whole byte string.
pub open spec fn lower_seq(s: Seq<u8>) -> Seq<u8> {
    s.map_values(|b: u8| lower_byte_spec(b))
}

/// `needle` occurs in `hay` starting at position `i`.
pub open spec fn contains_at(hay: Seq<u8>, needle: Seq<u8>, i: int) -> bool {
    &&& 0 <= i
    &&& i + needle.len() <= hay.len()
    &&& hay.subrange(i, i + needle.len() as int) == needle
}

/// `needle` occurs somewhere in `hay`.
pub open spec fn contains_seq(hay: Seq<u8>, needle: Seq<u8>) -> bool {
    exists|i: int| contains_at(hay, needle, i)
}

/// `hay` begins with `needle`.
pub open spec fn starts_with_seq(hay: Seq<u8>, needle: Seq<u8>) -> bool {
    contains_at(hay, needle, 0)
}

/// The substrings that identify a CPU sensor label (already lowercased).
pub open spec fn cpu_pat() -> Seq<u8> {
    seq![('c' as u8), ('p' as u8), ('u' as u8)]
}

pub open spec fn tdie_pat() -> Seq<u8> {
    seq![('t' as u8), ('d' as u8), ('i' as u8), ('e' as u8)]
}

pub open spec fn tctl_pat() -> Seq<u8> {
    seq![('t' as u8), ('c' as u8), ('t' as u8), ('l' as u8)]
}

pub open spec fn core_pat() -> Seq<u8> {
    seq![('c' as u8), ('o' as u8), ('r' as u8), ('e' as u8)]
}

/// The substring that identifies a GPU sensor label (already lowercased).
pub open spec fn gpu_pat() -> Seq<u8> {
    seq![('g' as u8), ('p' as u8), ('u' as u8)]
}

/// A label names the CPU if, lowercased, it contains "cpu", "tdie" or "tctl",
/// or starts with "core".
pub open spec fn is_cpu_label(label: Seq<u8>) -> bool {
    ||| contains_seq(lower_seq(label), cpu_pat())
    ||| contains_seq(lower_seq(label), tdie_pat())
    ||| contains_seq(lower_seq(label), tctl_pat())
    ||| starts_with_seq(lower_seq(label), core_pat())
}

/// A label names the GPU if, lowercased, it contains "gpu".
pub open spec fn is_gpu_label(label: Seq<u8>) -> bool {
    contains_seq(lower_seq(label), gpu_pat())
}

fn lower_byte(b: u8) -> (r: u8)
    ensures
        r == lower_byte_spec(b),
{
    if b >= ('A' as u8) && b <= ('Z' as u8) {
        b + 32
    } else {
        b
    }
}

fn lower_bytes(s: &[u8]) -> (r: Vec<u8>)
    ensures
        r@ == lower_seq(s@),
{
    let mut r: Vec<u8> = Vec::new();
    let mut i: usize = 0;
    while i < s.len()
        invariant
            i <= s@.len(),
            r@.len() == i,
            forall|j: int| 0 <= j < i ==> r@[j] == lower_byte_spec(s@[j]),
        decreases s@.len() - i,
    {
        r.push(lower_byte(s[i]));
        i = i + 1;
    }
    proof {
        assert(r@ =~= lower_seq(s@));
    }
    r
}

fn matches_at(hay: &[u8], needle: &[u8], i: usize) -> (r: bool)
    requires
        i + needle@.len() <= hay@.len(),
    ensures
        r == contains_at(hay@, needle@, i as int),
{
    let mut j: usize = 0;
    while j < needle.len()
        invariant
            j <= needle@.len(),
            i + needle@.len() <= hay@.len(),
            forall|k: int| 0 <= k < j ==> hay@[i + k] == needle@[k],
        decreases needle@.len() - j,
    {
        let n = hay.len();
        proof {
            assert(i + j < n);
        }
        if hay[i + j] != needle[j] {
            proof {
                assert(hay@.subrange(i as int, i + needle@.len() as int)[j as int] == hay@[i + j]);
            }
            return false;
        }
        j = j + 1;
    }
    proof {
        assert(hay@.subrange(i as int, i + needle@.len() as int) =~= needle@);
    }
    true
}

fn contains_bytes(hay: &[u8], needle: &[u8]) -> (r: bool)
    ensures
        r == contains_seq(hay@, needle@),
{
    if needle.len() > hay.len() {
        proof {
            assert(forall|i: int| !contains_at(hay@, needle@, i));
        }
        return false;
    }
    if needle.len() == 0 {
        proof {
            assert(hay@.subrange(0, 0) =~= needle@);
            assert(contains_at(hay@, needle@, 0));
        }
        return true;
    }
    let last = hay.len() - needle.len();
    let mut i: usize = 0;
    while i <= last
        invariant
            1 <= needle@.len() <= hay@.len(),
            hay@.len() <= usize::MAX,
            last == hay@.len() - needle@.len(),
            i <= last + 1,
            forall|k: int| 0 <= k < i ==> !contains_at(hay@, needle@, k),
        decreases last + 1 - i,
    {
        if matches_at(hay, needle, i) {
            return true;
        }
        i = i + 1;
    }
    proof {
        assert(forall|k: int| contains_at(hay@, needle@, k) ==> 0 <= k <= last);
    }
    false
}

fn starts_with_bytes(hay: &[u8], needle: &[u8]) -> (r: bool)
    ensures
        r == starts_with_seq(hay@, needle@),
{
    if needle.len() > hay.len() {
        false
    } else {
        matches_at(hay, needle, 0)
    }
}

fn cpu_needle() -> (v: Vec<u8>)
    ensures
        v@ == cpu_pat(),
{
    let mut v: Vec<u8> = Vec::new();
    v.push(('c' as u8));
    v.push(('p' as u8));
    v.push(('u' as u8));
    proof {
        assert(v@ =~= cpu_pat());
    }
    v
}

fn tdie_needle() -> (v: Vec<u8>)
    ensures
        v@ == tdie_pat(),
{
    let mut v: Vec<u8> = Vec::new();
    v.push(('t' as u8));
    v.push(('d' as u8));
    v.push(('i' as u8));
    v.push(('e' as u8));
    proof {
        assert(v@ =~= tdie_pat());
    }
    v
}

fn tctl_needle() -> (v: Vec<u8>)
    ensures
        v@ == tctl_pat(),
{
    let mut v: Vec<u8> = Vec::new();
    v.push(('t' as u8));
    v.push(('c' as u8));
    v.push(('t' as u8));
    v.push(('l' as u8));
    proof {
        assert(v@ =~= tctl_pat());
    }
    v
}

fn core_needle() -> (v: Vec<u8>)
    ensures
        v@ == core_pat(),
{
    let mut v: Vec<u8> = Vec::new();
    v.push(('c' as u8));
    v.push(('o' as u8));
    v.push(('r' as u8));
    v.push(('e' as u8));
    proof {
        assert(v@ =~= core_pat());
    }
    v
}

fn gpu_needle() -> (v: Vec<u8>)
    ensures
        v@ == gpu_pat(),
{
    let mut v: Vec<u8> = Vec::new();
    v.push(('g' as u8));
    v.push(('p' as u8));
    v.push(('u' as u8));
    proof {
        assert(v@ =~= gpu_pat());
    }
    v
}

/// Does this label identify a CPU sensor?
pub fn label_is_cpu(label: &[u8]) -> (r: bool)
    ensures
        r == is_cpu_label(label@),
{
    let low = lower_bytes(label);
    if contains_bytes(low.as_slice(), cpu_needle().as_slice()) {
        return true;
    }
    if contains_bytes(low.as_slice(), tdie_needle().as_slice()) {
        return true;
    }
    if contains_bytes(low.as_slice(), tctl_needle().as_slice()) {
        return true;
    }
    starts_with_bytes(low.as_slice(), core_needle().as_slice())
}

/// Does this label identify a GPU sensor?
pub fn label_is_gpu(label: &[u8]) -> (r: bool)
    ensures
        r == is_gpu_label(label@),
{
    let low = lower_bytes(label);
    contains_bytes(low.as_slice(), gpu_needle().as_slice())
}

// ---------------------------------------------------------------------------
// Resolution: first matching sensor in source iteration order wins.
// ---------------------------------------------------------------------------

/// The two sensor categories this monitor resolves. The CPU and GPU searches
/// are independent scans of the same sensor list.
#[derive(Debug, Clone, Copy, PartialEq, Eq, Structural)]
pub enum SensorKind {
    Cpu,
    Gpu,
}

/// Does the label match the category's substring set?
pub open spec fn label_matches(label: Seq<u8>, kind: SensorKind) -> bool {
    match kind {
        SensorKind::Cpu => is_cpu_label(label),
        SensorKind::Gpu => is_gpu_label(label),
    }
}

/// A sensor is usable for a category when its label matches and it actually
/// reports a value; a matching label without a reading is skipped, exactly as
/// a non-matching label is.
pub open spec fn sensor_matches(s: Sensor, kind: SensorKind) -> bool {
    label_matches(s.label@, kind) && s.temp_millic is Some
}

/// The reading of the first usable sensor at or after position `i`, if any.
pub open spec fn resolve_from(sensors: Seq<Sensor>, i: int, kind: SensorKind) -> Option<i64>
    decreases sensors.len() - i,
{
    if i < 0 || i >= sensors.len() {
        None
    } else if sensor_matches(sensors[i], kind) {
        sensors[i].temp_millic
    } else {
        resolve_from(sensors, i + 1, kind)
    }
}

/// The category's resolved reading: the first usable sensor in source
/// iteration order, or absent if none matches.
pub open spec fn resolve_spec(sensors: Seq<Sensor>, kind: SensorKind) -> Option<i64> {
    resolve_from(sensors, 0, kind)
}

/// Scan the sensor list for the category's first usable sensor.
pub fn resolve(sensors: &Vec<Sensor>, kind: SensorKind) -> (r: Option<i64>)
    ensures
        r == resolve_spec(sensors@, kind),
{
    let mut i: usize = 0;
    while i < sensors.len()
        invariant
            i <= sensors@.len(),
            resolve_from(sensors@, 0, kind) == resolve_from(sensors@, i as int, kind),
        decreases sensors@.len() - i,
    {
        let matched = match kind {
            SensorKind::Cpu => label_is_cpu(sensors[i].label.as_slice()),
            SensorKind::Gpu => label_is_gpu(sensors[i].label.as_slice()),
        };
        if matched {
            match sensors[i].temp_millic {
                Some(t) => {
                    return Some(t);
                },
                None => {},
            }
        }
        i = i + 1;
    }
    None
}

/// The most recently resolved CPU and GPU readings, in millidegrees Celsius.
/// Both are recomputed from scratch at construction and on every enabled
/// tick: sensor order and identity are not assumed stable across refreshes,
/// so no sensor handle is kept. Absence means "no usable sensor", never zero
/// degrees.
#[derive(Debug, Clone)]
pub struct TemperatureStats {
    pub cpu_millic: Option<i64>,
    pub gpu_millic: Option<i64>,
}

impl TemperatureStats {
    /// Resolution runs at construction too, against the startup sensor list:
    /// both readings are available before the first tick.
    pub fn new(sensors: &Vec<Sensor>) -> (s: Self)
        ensures
            s.cpu_millic == resolve_spec(sensors@, SensorKind::Cpu),
            s.gpu_millic == resolve_spec(sensors@, SensorKind::Gpu),
    {
        Self {
            cpu_millic: resolve(sensors, SensorKind::Cpu),
            gpu_millic: resolve(sensors, SensorKind::Gpu),
        }
    }

    /// Re-derive both categories from the refreshed sensor list. One refresh
    /// always resolves both values, whichever toggle requested it.
    pub fn update(&mut self, sensors: &Vec<Sensor>)
        ensures
            final(self).cpu_millic == resolve_spec(sensors@, SensorKind::Cpu),
            final(self).gpu_millic == resolve_spec(sensors@, SensorKind::Gpu),
    {
        self.cpu_millic = resolve(sensors, SensorKind::Cpu);
        self.gpu_millic = resolve(sensors, SensorKind::Gpu);
    }

    /// Latest resolved CPU reading, in millidegrees Celsius.
    pub fn cpu_millic(&self) -> (r: Option<i64>)
        ensures
            r == self.cpu_millic,
    {
        self.cpu_millic
    }

    /// Latest resolved GPU reading, in millidegrees Celsius.
    pub fn gpu_millic(&self) -> (r: Option<i64>)
        ensures
            r == self.gpu_millic,
    {
        self.gpu_millic
    }
}

// ---------------------------------------------------------------------------
// Laws of resolution.
// ---------------------------------------------------------------------------

proof fn lemma_resolve_from_no_match(sensors: Seq<Sensor>, i: int, kind: SensorKind)
    requires
        0 <= i <= sensors.len(),
        forall|j: int| i <= j < sensors.len() ==> !sensor_matches(sensors[j], kind),
    ensures
        resolve_from(sensors, i, kind) is None,
    decreases sensors.len() - i,
{
    if i < sensors.len() {
        lemma_resolve_from_no_match(sensors, i + 1, kind);
    }
}

/// If no label in the list matches the CPU substring set, the resolved CPU
/// reading is absent — not zero.
pub proof fn lemma_no_cpu_label_no_cpu_temp(sensors: Seq<Sensor>)
    requires
        forall|i: int| 0 <= i < sensors.len() ==> !is_cpu_label(#[trigger] sensors[i].label@),
    ensures
        resolve_spec(sensors, SensorKind::Cpu) is None,
{
    assert forall|i: int| 0 <= i < sensors.len() implies !sensor_matches(sensors[i], SensorKind::Cpu) by {
        assert(!is_cpu_label(sensors[i].label@));
    }
    lemma_resolve_from_no_match(sensors, 0, SensorKind::Cpu);
}

proof fn lemma_resolve_from_first(sensors: Seq<Sensor>, j: int, i: int, kind: SensorKind)
    requires
        0 <= j <= i < sensors.len(),
        sensor_matches(sensors[i], kind),
        forall|k: int| j <= k < i ==> !sensor_matches(sensors[k], kind),
    ensures
        resolve_from(sensors, j, kind) == sensors[i].temp_millic,
    decreases i - j,
{
    if j < i {
        lemma_resolve_from_first(sensors, j + 1, i, kind);
    }
}

/// With several matching sensors, the resolved value is the reading of the
/// first usable match in iteration order.
pub proof fn lemma_first_match_wins(sensors: Seq<Sensor>, kind: SensorKind, i: int)
    requires
        0 <= i < sensors.len(),
        sensor_matches(sensors[i], kind),
        forall|j: int| 0 <= j < i ==> !sensor_matches(#[trigger] sensors[j], kind),
    ensures
        resolve_spec(sensors, kind) == sensors[i].temp_millic,
{
    lemma_resolve_from_first(sensors, 0, i, kind);
}

} // verus!
