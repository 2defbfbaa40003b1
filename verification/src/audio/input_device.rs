//! Choosing the microphone among the input devices of the sound systems.
use vstd::prelude::*;
use vstd::string::*;
use vstd::utf8::*;

use crate::config;
use crate::streaming::hub;
use crate::text;

verus! {

/// What a sound system says of an input device: its name, if it can be read, and whether it offers
/// a configuration to record with.
#[derive(Debug)]
pub struct DeviceInfo {
    pub name: Option<String>,
    pub has_config: bool,
}

/// What a sound system says of its input devices. `devices` is missing where they could not be
/// enumerated.
#[derive(Debug)]
pub struct HostInputs {
    pub devices: Option<Vec<DeviceInfo>>,
    pub default_input: Option<DeviceInfo>,
}

/// A device that can be recorded from. `device` is its position among the devices of its host.
#[derive(Debug)]
pub struct DeviceCandidate {
    pub device: usize,
    pub name: String,
    pub is_monitor: bool,
    pub is_routing: bool,
    pub is_virtual: bool,
}

/// A candidate, by the characters of its name.
pub struct CandidateView {
    pub device: int,
    pub name: Seq<char>,
    pub is_monitor: bool,
    pub is_routing: bool,
    pub is_virtual: bool,
}

impl View for DeviceCandidate {
    type V = CandidateView;

    open spec fn view(&self) -> CandidateView {
        CandidateView {
            device: self.device as int,
            name: self.name@,
            is_monitor: self.is_monitor,
            is_routing: self.is_routing,
            is_virtual: self.is_virtual,
        }
    }
}

pub open spec fn candidate_views(c: Seq<DeviceCandidate>) -> Seq<CandidateView> {
    Seq::new(c.len(), |i: int| c[i]@)
}

/// A name without the white space around it, in lower case.
pub open spec fn normal_name(name: Seq<char>) -> Seq<char> {
    text::lowered(text::trimmed(name))
}

/// The name of a device that records what is being played.
pub open spec fn names_monitor(name: Seq<char>) -> bool {
    text::has_text(normal_name(name), "monitor"@)
}

/// The name of a device that passes on whatever device the sound system prefers.
pub open spec fn names_routing(name: Seq<char>) -> bool {
    let n = normal_name(name);
    n == "default"@ || n == "default input"@ || n == "pipewire"@ || n == "pulse"@
}

/// The name of a device that is no microphone of its own.
pub open spec fn names_virtual(name: Seq<char>) -> bool {
    normal_name(name).len() == 0 || names_routing(name) || names_monitor(name)
}

/// Brings a name into the form in which names are compared.
pub fn normalize_name(name: &str) -> (r: String)
    ensures
        r@ == normal_name(name@),
{
    text::lowercase(text::trim(name).as_str())
}

/// Whether the name is that of a device that records what is being played.
pub fn is_monitor_input_name(name: &str) -> (r: bool)
    ensures
        r == names_monitor(name@),
{
    text::contains(normalize_name(name).as_str(), "monitor")
}

/// Whether the name is that of a device that passes on whatever the sound system prefers.
pub fn is_routing_input_name(name: &str) -> (r: bool)
    ensures
        r == names_routing(name@),
{
    let normal = normalize_name(name);
    let n = normal.as_str();
    text::same(n, "default") || text::same(n, "default input") || text::same(n, "pipewire")
        || text::same(n, "pulse")
}

/// Whether the name is that of a device that is no microphone of its own.
pub fn is_virtual_input_name(name: &str) -> (r: bool)
    ensures
        r == names_virtual(name@),
{
    normalize_name(name).as_str().is_empty() || is_routing_input_name(name)
        || is_monitor_input_name(name)
}

/// The priority of a sound system by its name; the lowest is asked first.
pub open spec fn priority_of(name: Seq<char>) -> nat {
    let n = text::lowered(name);
    if text::has_text(n, "pipewire"@) {
        0
    } else if text::has_text(n, "pulse"@) {
        1
    } else if text::has_text(n, "alsa"@) {
        3
    } else {
        2
    }
}

/// The priority of a sound system by its name; the lowest is asked first.
pub fn host_priority(name: &str) -> (r: usize)
    ensures
        r == priority_of(name@),
{
    let lower = text::lowercase(name);
    let n = lower.as_str();
    if text::contains(n, "pipewire") {
        0
    } else if text::contains(n, "pulse") {
        1
    } else if text::contains(n, "alsa") {
        3
    } else {
        2
    }
}

/// Host `i` is asked before host `j`: by priority, and in the given order where that is the same.
pub open spec fn asked_before(names: Seq<String>, i: int, j: int) -> bool {
    priority_of(names[i]@) < priority_of(names[j]@) || (priority_of(names[i]@) == priority_of(
        names[j]@,
    ) && i < j)
}

/// The positions of the sound systems in the order in which they are asked.
pub fn hosts_in_priority_order(names: &Vec<String>) -> (r: Vec<usize>)
    ensures
        forall|i: int| 0 <= i < r@.len() ==> (#[trigger] r@[i]) < names@.len(),
        forall|h: usize| h < names@.len() ==> #[trigger] r@.contains(h),
        forall|i: int, j: int|
            0 <= i < j < r@.len() ==> asked_before(names@, #[trigger] r@[i] as int, #[trigger] r@[j]
                as int),
{
    let mut order: Vec<usize> = Vec::new();
    let mut p: usize = 0;
    while p < 4
        invariant
            p <= 4,
            forall|i: int| 0 <= i < order@.len() ==> (#[trigger] order@[i]) < names@.len(),
            forall|i: int|
                0 <= i < order@.len() ==> priority_of(names@[#[trigger] order@[i] as int]@) < p,
            forall|h: usize|
                h < names@.len() && priority_of(names@[h as int]@) < p
                    ==> #[trigger] order@.contains(h),
            forall|i: int, j: int|
                0 <= i < j < order@.len() ==> asked_before(
                    names@,
                    #[trigger] order@[i] as int,
                    #[trigger] order@[j] as int,
                ),
        decreases 4 - p,
    {
        let mut k: usize = 0;
        while k < names.len()
            invariant
                p < 4,
                k <= names@.len(),
                forall|i: int| 0 <= i < order@.len() ==> (#[trigger] order@[i]) < names@.len(),
                forall|i: int|
                    0 <= i < order@.len() ==> priority_of(names@[#[trigger] order@[i] as int]@) < p
                        || (priority_of(names@[order@[i] as int]@) == p && order@[i] < k),
                forall|h: usize|
                    h < names@.len() && (priority_of(names@[h as int]@) < p || (priority_of(
                        names@[h as int]@,
                    ) == p && h < k)) ==> #[trigger] order@.contains(h),
                forall|i: int, j: int|
                    0 <= i < j < order@.len() ==> asked_before(
                        names@,
                        #[trigger] order@[i] as int,
                        #[trigger] order@[j] as int,
                    ),
            decreases names@.len() - k,
        {
            if host_priority(names[k].as_str()) == p {
                let ghost before = order@;
                order.push(k);
                assert forall|h: usize|
                    h < names@.len() && (priority_of(names@[h as int]@) < p || (priority_of(
                        names@[h as int]@,
                    ) == p && h < k + 1)) implies #[trigger] order@.contains(h) by {
                    if h == k {
                        assert(order@[before.len() as int] == h);
                    } else {
                        assert(before.contains(h));
                        let i = choose|i: int| 0 <= i < before.len() && before[i] == h;
                        assert(order@[i] == h);
                    }
                }
            }
            k += 1;
        }
        p += 1;
    }
    assert forall|h: usize| h < names@.len() implies #[trigger] order@.contains(h) by {
        assert(priority_of(names@[h as int]@) < 4);
    }
    order
}

/// A device can be recorded from: it offers a configuration, and its name is not blank.
pub open spec fn is_usable(d: DeviceInfo) -> bool {
    d.has_config && d.name is Some && text::trimmed(d.name->0@).len() > 0
}

/// The candidate that a usable device gives.
pub open spec fn candidate_of(d: DeviceInfo, device: int) -> CandidateView {
    let name = text::trimmed(d.name->0@);
    CandidateView {
        device,
        name,
        is_monitor: names_monitor(name),
        is_routing: names_routing(name),
        is_virtual: names_virtual(name),
    }
}

/// The candidates among some devices, in order.
pub open spec fn candidates_of(devices: Seq<DeviceInfo>) -> Seq<CandidateView>
    decreases devices.len(),
{
    if devices.len() == 0 {
        Seq::empty()
    } else {
        let before = candidates_of(devices.drop_last());
        if is_usable(devices.last()) {
            before.push(candidate_of(devices.last(), devices.len() - 1))
        } else {
            before
        }
    }
}

/// The candidates among the devices of a host, in order.
pub fn enumerate_host_input_candidates(devices: &Vec<DeviceInfo>) -> (r: Vec<DeviceCandidate>)
    ensures
        candidate_views(r@) == candidates_of(devices@),
{
    let mut r: Vec<DeviceCandidate> = Vec::new();
    let mut i: usize = 0;
    assert(candidate_views(r@) =~= Seq::<CandidateView>::empty());
    while i < devices.len()
        invariant
            i <= devices@.len(),
            candidate_views(r@) == candidates_of(devices@.take(i as int)),
        decreases devices@.len() - i,
    {
        let d = &devices[i];
        let ghost before = r@;
        assert(devices@.take(i + 1).drop_last() =~= devices@.take(i as int));
        assert(devices@.take(i + 1).last() == devices@[i as int]);
        if d.has_config {
            if let Some(full) = &d.name {
                let name = text::trim(full.as_str());
                if !name.as_str().is_empty() {
                    let is_monitor = is_monitor_input_name(name.as_str());
                    let is_routing = is_routing_input_name(name.as_str());
                    let is_virtual = is_virtual_input_name(name.as_str());
                    let candidate = DeviceCandidate {
                        device: i,
                        name,
                        is_monitor,
                        is_routing,
                        is_virtual,
                    };
                    r.push(candidate);
                    assert(candidate@ == candidate_of(devices@[i as int], i as int));
                    assert(candidate_views(r@) =~= candidate_views(before).push(candidate@));
                }
            }
        }
        i += 1;
    }
    assert(devices@.take(i as int) =~= devices@);
    r
}

/// The first position from `i` on, below `len`, for which `p` holds.
pub open spec fn first_from(i: int, len: int, p: spec_fn(int) -> bool) -> Option<int>
    decreases len - i,
{
    if i >= len {
        None
    } else if p(i) {
        Some(i)
    } else {
        first_from(i + 1, len, p)
    }
}

/// The first position below `len` for which `p` holds.
pub open spec fn first_where(len: nat, p: spec_fn(int) -> bool) -> Option<int> {
    first_from(0, len as int, p)
}

proof fn lemma_skip_misses(i: int, k: int, len: int, p: spec_fn(int) -> bool)
    requires
        i <= k <= len,
        forall|j: int| i <= j < k ==> !#[trigger] p(j),
    ensures
        first_from(i, len, p) == first_from(k, len, p),
    decreases k - i,
{
    if i < k {
        assert(!p(i));
        lemma_skip_misses(i + 1, k, len, p);
    }
}

/// The first of two positions that is known.
pub open spec fn either(a: Option<int>, b: Option<int>) -> Option<int> {
    if a is Some {
        a
    } else {
        b
    }
}

/// A position as a number without bounds.
pub open spec fn position(i: Option<usize>) -> Option<int> {
    match i {
        Some(n) => Some(n as int),
        None => None,
    }
}

pub open spec fn named_exactly(c: Seq<CandidateView>, preferred: Seq<char>) -> spec_fn(int) -> bool {
    |i: int| normal_name(c[i].name) == preferred
}

pub open spec fn named_alike(c: Seq<CandidateView>, preferred: Seq<char>) -> spec_fn(int) -> bool {
    |i: int|
        text::has_text(normal_name(c[i].name), preferred) || text::has_text(
            preferred,
            normal_name(c[i].name),
        )
}

/// The candidate that a name asks for: one of that name, or else one whose name holds it or is
/// held by it, capitals and outer white space aside. A blank name asks for none.
pub open spec fn asked_for(c: Seq<CandidateView>, preferred: Seq<char>) -> Option<int> {
    let p = normal_name(preferred);
    if p.len() == 0 {
        None
    } else {
        either(first_where(c.len(), named_exactly(c, p)), first_where(c.len(), named_alike(c, p)))
    }
}

/// The candidate that a name asks for.
pub fn preferred_match_index(candidates: &Vec<DeviceCandidate>, preferred_name: &str) -> (r: Option<
    usize,
>)
    ensures
        position(r) == asked_for(candidate_views(candidates@), preferred_name@),
{
    let preferred = normalize_name(preferred_name);
    if preferred.as_str().is_empty() {
        return None;
    }
    let ghost c = candidate_views(candidates@);
    let ghost exact = named_exactly(c, preferred@);
    let ghost alike = named_alike(c, preferred@);
    let mut i: usize = 0;
    while i < candidates.len()
        invariant
            i <= candidates@.len(),
            c == candidate_views(candidates@),
            exact == named_exactly(c, preferred@),
            preferred@ == normal_name(preferred_name@),
            preferred@.len() > 0,
            forall|j: int| 0 <= j < i ==> !#[trigger] exact(j),
        decreases candidates@.len() - i,
    {
        let name = normalize_name(candidates[i].name.as_str());
        if text::same(name.as_str(), preferred.as_str()) {
            proof {
                assert(exact(i as int));
                lemma_skip_misses(0, i as int, c.len() as int, exact);
            }
            return Some(i);
        }
        i += 1;
    }
    proof {
        lemma_skip_misses(0, c.len() as int, c.len() as int, exact);
    }
    let mut k: usize = 0;
    while k < candidates.len()
        invariant
            k <= candidates@.len(),
            c == candidate_views(candidates@),
            exact == named_exactly(c, preferred@),
            alike == named_alike(c, preferred@),
            preferred@ == normal_name(preferred_name@),
            preferred@.len() > 0,
            first_where(c.len(), exact) is None,
            forall|j: int| 0 <= j < k ==> !#[trigger] alike(j),
        decreases candidates@.len() - k,
    {
        let name = normalize_name(candidates[k].name.as_str());
        if text::contains(name.as_str(), preferred.as_str()) || text::contains(
            preferred.as_str(),
            name.as_str(),
        ) {
            proof {
                assert(alike(k as int));
                lemma_skip_misses(0, k as int, c.len() as int, alike);
            }
            return Some(k);
        }
        k += 1;
    }
    proof {
        lemma_skip_misses(0, c.len() as int, c.len() as int, alike);
    }
    None
}

/// What a candidate must be to be picked without a name.
#[derive(Clone, Copy)]
enum Pick {
    Routing,
    Microphone,
    NotMonitor,
}

pub open spec fn routing(c: Seq<CandidateView>) -> spec_fn(int) -> bool {
    |i: int| c[i].is_routing && !c[i].is_monitor
}

pub open spec fn microphone(c: Seq<CandidateView>) -> spec_fn(int) -> bool {
    |i: int| !c[i].is_virtual && !c[i].is_monitor
}

pub open spec fn not_monitor(c: Seq<CandidateView>) -> spec_fn(int) -> bool {
    |i: int| !c[i].is_monitor && text::trimmed(c[i].name).len() > 0
}

impl Pick {
    spec fn pred(self, c: Seq<CandidateView>) -> spec_fn(int) -> bool {
        match self {
            Pick::Routing => routing(c),
            Pick::Microphone => microphone(c),
            Pick::NotMonitor => not_monitor(c),
        }
    }
}

fn first_pick(candidates: &Vec<DeviceCandidate>, pick: Pick) -> (r: Option<usize>)
    ensures
        position(r) == first_where(candidates@.len(), pick.pred(candidate_views(candidates@))),
{
    let ghost c = candidate_views(candidates@);
    let ghost p = pick.pred(c);
    let mut i: usize = 0;
    while i < candidates.len()
        invariant
            i <= candidates@.len(),
            c == candidate_views(candidates@),
            p == pick.pred(c),
            forall|j: int| 0 <= j < i ==> !#[trigger] p(j),
        decreases candidates@.len() - i,
    {
        let candidate = &candidates[i];
        assert(c[i as int] == candidate@);
        let fits = match pick {
            Pick::Routing => candidate.is_routing && !candidate.is_monitor,
            Pick::Microphone => !candidate.is_virtual && !candidate.is_monitor,
            Pick::NotMonitor => !candidate.is_monitor && !text::is_blank(candidate.name.as_str()),
        };
        assert(fits == p(i as int));
        if fits {
            proof {
                lemma_skip_misses(0, i as int, c.len() as int, p);
            }
            return Some(i);
        }
        i += 1;
    }
    proof {
        lemma_skip_misses(0, c.len() as int, c.len() as int, p);
    }
    None
}

/// A name without the white space around it, unless nothing is left.
pub open spec fn nonblank(name: Option<Seq<char>>) -> Option<Seq<char>> {
    match name {
        Some(n) => if text::trimmed(n).len() > 0 {
            Some(text::trimmed(n))
        } else {
            None
        },
        None => None,
    }
}

/// The candidate picked where none was asked for: that of the default device's name, if that one
/// passes on sound or is a microphone of its own; else the first that passes on sound and is no
/// monitor, the first microphone, the first that is no monitor, the first at all.
pub open spec fn picked(c: Seq<CandidateView>, default_name: Option<Seq<char>>) -> Option<int> {
    let by_default = match nonblank(default_name) {
        Some(name) => match asked_for(c, name) {
            Some(i) => if c[i].is_routing || !c[i].is_virtual {
                Some(i)
            } else {
                None
            },
            None => None,
        },
        None => None,
    };
    either(
        by_default,
        either(
            first_where(c.len(), routing(c)),
            either(
                first_where(c.len(), microphone(c)),
                either(
                    first_where(c.len(), not_monitor(c)),
                    if c.len() > 0 {
                        Some(0)
                    } else {
                        None
                    },
                ),
            ),
        ),
    )
}

fn nonblank_text(name: Option<&str>) -> (r: Option<String>)
    ensures
        config::opt_view(r) == nonblank(hub::opt_str(name)),
{
    match name {
        Some(n) => {
            let trimmed = text::trim(n);
            if trimmed.as_str().is_empty() {
                None
            } else {
                Some(trimmed)
            }
        },
        None => None,
    }
}

proof fn lemma_first_in_range(i: int, len: int, p: spec_fn(int) -> bool)
    ensures
        first_from(i, len, p) matches Some(k) ==> i <= k < len && p(k),
    decreases len - i,
{
    if i < len && !p(i) {
        lemma_first_in_range(i + 1, len, p);
    }
}

/// Picks a candidate where none was asked for.
pub fn pick_candidate_index(
    candidates: &Vec<DeviceCandidate>,
    default_name: Option<&str>,
) -> (r: Option<usize>)
    ensures
        position(r) == picked(candidate_views(candidates@), hub::opt_str(default_name)),
{
    let ghost c = candidate_views(candidates@);
    if let Some(name) = nonblank_text(default_name) {
        if let Some(idx) = preferred_match_index(candidates, name.as_str()) {
            proof {
                let p = normal_name(name@);
                lemma_first_in_range(0, c.len() as int, named_exactly(c, p));
                lemma_first_in_range(0, c.len() as int, named_alike(c, p));
            }
            let candidate = &candidates[idx];
            assert(c[idx as int] == candidate@);
            if candidate.is_routing || !candidate.is_virtual {
                return Some(idx);
            }
        }
    }
    if let Some(idx) = first_pick(candidates, Pick::Routing) {
        return Some(idx);
    }
    if let Some(idx) = first_pick(candidates, Pick::Microphone) {
        return Some(idx);
    }
    if let Some(idx) = first_pick(candidates, Pick::NotMonitor) {
        return Some(idx);
    }
    if candidates.len() > 0 {
        Some(0)
    } else {
        None
    }
}

/// Why no device was selected.
#[derive(Debug)]
pub enum SelectError {
    EnumerationFailed,
    PreferredNotFound(String),
    NoDevice,
    NoDeviceOnAnyHost,
}

impl SelectError {
    /// The message shown for the error.
    pub fn message(&self) -> (r: String)
        ensures
            r@ == match self {
                SelectError::EnumerationFailed => "Failed to enumerate input devices"@,
                SelectError::PreferredNotFound(name) => "Preferred input device '"@ + name@
                    + "' not found on this host"@,
                SelectError::NoDevice => "No input device available"@,
                SelectError::NoDeviceOnAnyHost => "No input device available on any host"@,
            },
    {
        match self {
            SelectError::EnumerationFailed => "Failed to enumerate input devices".to_owned(),
            SelectError::PreferredNotFound(name) => {
                let start = text::join("Preferred input device '", name.as_str());
                text::join(start.as_str(), "' not found on this host")
            },
            SelectError::NoDevice => "No input device available".to_owned(),
            SelectError::NoDeviceOnAnyHost => "No input device available on any host".to_owned(),
        }
    }
}

/// The name of the default device of a host, if it has one with a name.
pub open spec fn default_name(host: HostInputs) -> Option<Seq<char>> {
    match host.default_input {
        Some(d) => config::opt_view(d.name),
        None => None,
    }
}

/// The device that a host selects, by its position among the devices.
pub open spec fn selected_on_host(host: HostInputs, preferred: Option<Seq<char>>) -> Option<int> {
    match host.devices {
        Some(devices) => {
            let c = candidates_of(devices@);
            let chosen = match nonblank(preferred) {
                Some(name) => asked_for(c, name),
                None => picked(c, default_name(host)),
            };
            match chosen {
                Some(i) => Some(c[i].device),
                None => None,
            }
        },
        None => None,
    }
}

/// The reason for which a host that selects no device gives none.
pub open spec fn refuses(host: HostInputs, preferred: Option<Seq<char>>, e: SelectError) -> bool {
    match host.devices {
        Some(devices) => match nonblank(preferred) {
            Some(name) => e matches SelectError::PreferredNotFound(n) && n@ == name,
            None => e == SelectError::NoDevice,
        },
        None => e == SelectError::EnumerationFailed,
    }
}

/// Candidates stand in the order of the devices, and each is a usable one.
pub proof fn lemma_candidates(devices: Seq<DeviceInfo>, k: int)
    requires
        0 <= k < candidates_of(devices).len(),
    ensures
        ({
            let c = candidates_of(devices)[k];
            &&& 0 <= c.device < devices.len()
            &&& is_usable(devices[c.device])
            &&& c == candidate_of(devices[c.device], c.device)
        }),
    decreases devices.len(),
{
    let before = candidates_of(devices.drop_last());
    if k < before.len() {
        lemma_candidates(devices.drop_last(), k);
    }
}

proof fn lemma_asked_in_range(c: Seq<CandidateView>, name: Seq<char>)
    ensures
        asked_for(c, name) matches Some(i) ==> 0 <= i < c.len(),
{
    let p = normal_name(name);
    lemma_first_in_range(0, c.len() as int, named_exactly(c, p));
    lemma_first_in_range(0, c.len() as int, named_alike(c, p));
}

proof fn lemma_picked_in_range(c: Seq<CandidateView>, name: Option<Seq<char>>)
    ensures
        picked(c, name) matches Some(i) ==> 0 <= i < c.len(),
{
    if let Some(n) = nonblank(name) {
        lemma_asked_in_range(c, n);
    }
    lemma_first_in_range(0, c.len() as int, routing(c));
    lemma_first_in_range(0, c.len() as int, microphone(c));
    lemma_first_in_range(0, c.len() as int, not_monitor(c));
}

/// A device that a host selects is one that can be recorded from.
pub proof fn selected_device_is_usable(host: HostInputs, preferred: Option<Seq<char>>)
    ensures
        selected_on_host(host, preferred) matches Some(i) ==> host.devices is Some && 0 <= i
            < host.devices->0@.len() && is_usable(host.devices->0@[i]),
{
    if let Some(devices) = host.devices {
        let c = candidates_of(devices@);
        if let Some(name) = nonblank(preferred) {
            lemma_asked_in_range(c, name);
            if let Some(i) = asked_for(c, name) {
                lemma_candidates(devices@, i);
            }
        } else {
            lemma_picked_in_range(c, default_name(host));
            if let Some(i) = picked(c, default_name(host)) {
                lemma_candidates(devices@, i);
            }
        }
    }
}

/// Selects a device of a host: the one asked for, or, where the name is missing or blank, the one
/// picked.
pub fn select_input_device_on_host(host: &HostInputs, preferred_name: Option<&str>) -> (r: Result<
    usize,
    SelectError,
>)
    ensures
        match selected_on_host(*host, hub::opt_str(preferred_name)) {
            Some(i) => r matches Ok(n) && n == i,
            None => r matches Err(e) && refuses(*host, hub::opt_str(preferred_name), e),
        },
{
    let devices = match &host.devices {
        Some(devices) => devices,
        None => {
            return Err(SelectError::EnumerationFailed);
        },
    };
    let candidates = enumerate_host_input_candidates(devices);
    let ghost c = candidate_views(candidates@);
    if let Some(preferred) = nonblank_text(preferred_name) {
        proof {
            lemma_asked_in_range(c, preferred@);
        }
        return match preferred_match_index(&candidates, preferred.as_str()) {
            Some(idx) => {
                assert(c[idx as int] == candidates@[idx as int]@);
                Ok(candidates[idx].device)
            },
            None => Err(SelectError::PreferredNotFound(preferred)),
        };
    }
    proof {
        lemma_picked_in_range(c, default_name(*host));
    }
    let default = match &host.default_input {
        Some(d) => match &d.name {
            Some(n) => Some(n.as_str()),
            None => None,
        },
        None => None,
    };
    match pick_candidate_index(&candidates, default) {
        Some(idx) => {
            assert(c[idx as int] == candidates@[idx as int]@);
            Ok(candidates[idx].device)
        },
        None => Err(SelectError::NoDevice),
    }
}

/// Selects a device of a host where none was asked for.
pub fn select_input_device(host: &HostInputs) -> (r: Result<usize, SelectError>)
    ensures
        match selected_on_host(*host, None) {
            Some(i) => r matches Ok(n) && n == i,
            None => r matches Err(e) && refuses(*host, None, e),
        },
{
    select_input_device_on_host(host, None)
}

/// A device among those of all hosts: one that its host lists, or the default device of a host.
#[derive(Debug, Clone, Copy, PartialEq, Eq, Structural)]
pub enum SelectedDevice {
    Listed { host: usize, device: usize },
    DefaultOf { host: usize },
}

pub open spec fn host_selects(hosts: Seq<HostInputs>, preferred: Option<Seq<char>>) -> spec_fn(
    int,
) -> bool {
    |h: int| selected_on_host(hosts[h], preferred) is Some
}

pub open spec fn default_works(hosts: Seq<HostInputs>) -> spec_fn(int) -> bool {
    |h: int| hosts[h].default_input matches Some(d) && d.has_config
}

/// The device selected among all hosts: on the first host that has the one asked for; else on the
/// first host that picks one; else the first default device that offers a configuration.
pub open spec fn selects(
    hosts: Seq<HostInputs>,
    preferred: Option<Seq<char>>,
    s: Option<SelectedDevice>,
) -> bool {
    let asked = if nonblank(preferred) is Some {
        first_where(hosts.len(), host_selects(hosts, preferred))
    } else {
        None
    };
    let free = first_where(hosts.len(), host_selects(hosts, None));
    let fallback = first_where(hosts.len(), default_works(hosts));
    if asked is Some {
        s matches Some(SelectedDevice::Listed { host, device }) && host == asked->0
            && selected_on_host(hosts[host as int], preferred) == Some(device as int)
    } else if free is Some {
        s matches Some(SelectedDevice::Listed { host, device }) && host == free->0
            && selected_on_host(hosts[host as int], None) == Some(device as int)
    } else if fallback is Some {
        s matches Some(SelectedDevice::DefaultOf { host }) && host == fallback->0
    } else {
        s is None
    }
}

fn first_host(hosts: &Vec<HostInputs>, preferred: Option<&str>) -> (r: Option<SelectedDevice>)
    ensures
        match first_where(hosts@.len(), host_selects(hosts@, hub::opt_str(preferred))) {
            Some(h) => r matches Some(SelectedDevice::Listed { host, device }) && host == h
                && selected_on_host(hosts@[h], hub::opt_str(preferred)) == Some(device as int),
            None => r is None,
        },
{
    let ghost p = host_selects(hosts@, hub::opt_str(preferred));
    let mut h: usize = 0;
    while h < hosts.len()
        invariant
            h <= hosts@.len(),
            p == host_selects(hosts@, hub::opt_str(preferred)),
            forall|j: int| 0 <= j < h ==> !#[trigger] p(j),
        decreases hosts@.len() - h,
    {
        if let Ok(device) = select_input_device_on_host(&hosts[h], preferred) {
            proof {
                assert(p(h as int));
                lemma_skip_misses(0, h as int, hosts@.len() as int, p);
            }
            return Some(SelectedDevice::Listed { host: h, device });
        }
        assert(!p(h as int));
        h += 1;
    }
    proof {
        lemma_skip_misses(0, hosts@.len() as int, hosts@.len() as int, p);
    }
    None
}

/// Selects a device among all hosts, which are given in the order in which they are asked.
pub fn select_input_device_any_host_with_preference(
    hosts: &Vec<HostInputs>,
    preferred_name: Option<&str>,
) -> (r: Result<SelectedDevice, SelectError>)
    ensures
        match r {
            Ok(s) => selects(hosts@, hub::opt_str(preferred_name), Some(s)),
            Err(e) => e == SelectError::NoDeviceOnAnyHost && selects(
                hosts@,
                hub::opt_str(preferred_name),
                None,
            ),
        },
{
    if nonblank_text(preferred_name).is_some() {
        if let Some(selected) = first_host(hosts, preferred_name) {
            return Ok(selected);
        }
    }
    if let Some(selected) = first_host(hosts, None) {
        return Ok(selected);
    }
    let ghost p = default_works(hosts@);
    let mut h: usize = 0;
    while h < hosts.len()
        invariant
            h <= hosts@.len(),
            p == default_works(hosts@),
            first_where(hosts@.len(), host_selects(hosts@, None)) is None,
            nonblank(hub::opt_str(preferred_name)) is Some ==> first_where(
                hosts@.len(),
                host_selects(hosts@, hub::opt_str(preferred_name)),
            ) is None,
            forall|j: int| 0 <= j < h ==> !#[trigger] p(j),
        decreases hosts@.len() - h,
    {
        let works = match &hosts[h].default_input {
            Some(d) => d.has_config,
            None => false,
        };
        assert(works == p(h as int));
        if works {
            proof {
                lemma_skip_misses(0, h as int, hosts@.len() as int, p);
            }
            return Ok(SelectedDevice::DefaultOf { host: h });
        }
        h += 1;
    }
    proof {
        lemma_skip_misses(0, hosts@.len() as int, hosts@.len() as int, p);
    }
    Err(SelectError::NoDeviceOnAnyHost)
}

/// Selects a device among all hosts where none was asked for.
pub fn select_input_device_any_host(hosts: &Vec<HostInputs>) -> (r: Result<
    SelectedDevice,
    SelectError,
>)
    ensures
        match r {
            Ok(s) => selects(hosts@, None, Some(s)),
            Err(e) => e == SelectError::NoDeviceOnAnyHost && selects(hosts@, None, None),
        },
{
    select_input_device_any_host_with_preference(hosts, None)
}

/// The name of a selected device.
pub open spec fn selected_name(hosts: Seq<HostInputs>, s: Option<SelectedDevice>) -> Option<
    Seq<char>,
> {
    match s {
        Some(SelectedDevice::Listed { host, device }) => config::opt_view(
            hosts[host as int].devices->0@[device as int].name,
        ),
        Some(SelectedDevice::DefaultOf { host }) => config::opt_view(
            hosts[host as int].default_input->0.name,
        ),
        None => None,
    }
}

/// A device that is selected exists.
pub proof fn selected_device_exists(
    hosts: Seq<HostInputs>,
    preferred: Option<Seq<char>>,
    s: SelectedDevice,
)
    requires
        selects(hosts, preferred, Some(s)),
    ensures
        match s {
            SelectedDevice::Listed { host, device } => host < hosts.len()
                && hosts[host as int].devices is Some && device
                < hosts[host as int].devices->0@.len() && is_usable(
                hosts[host as int].devices->0@[device as int],
            ),
            SelectedDevice::DefaultOf { host } => host < hosts.len()
                && hosts[host as int].default_input is Some
                && hosts[host as int].default_input->0.has_config,
        },
{
    lemma_first_in_range(0, hosts.len() as int, host_selects(hosts, preferred));
    lemma_first_in_range(0, hosts.len() as int, host_selects(hosts, None));
    lemma_first_in_range(0, hosts.len() as int, default_works(hosts));
    if let SelectedDevice::Listed { host, device } = s {
        selected_device_is_usable(hosts[host as int], preferred);
        selected_device_is_usable(hosts[host as int], None);
    }
}

/// The name of the device that is selected among all hosts, unless it has none or a blank one.
pub fn selected_input_device_name(hosts: &Vec<HostInputs>, preferred_name: Option<&str>) -> (r:
    Option<String>)
    ensures
        exists|s: Option<SelectedDevice>| #[trigger]
            selects(hosts@, hub::opt_str(preferred_name), s) && config::opt_view(r) == nonblank(
                selected_name(hosts@, s),
            ),
{
    match select_input_device_any_host_with_preference(hosts, preferred_name) {
        Ok(selected) => {
            proof {
                selected_device_exists(hosts@, hub::opt_str(preferred_name), selected);
            }
            let ghost chosen = Some(selected);
            let name: &Option<String> = match selected {
                SelectedDevice::Listed { host, device } => match &hosts[host].devices {
                    Some(devices) => &devices[device].name,
                    None => {
                        return None;
                    },
                },
                SelectedDevice::DefaultOf { host } => match &hosts[host].default_input {
                    Some(d) => &d.name,
                    None => {
                        return None;
                    },
                },
            };
            let r = match name {
                Some(n) => nonblank_text(Some(n.as_str())),
                None => None,
            };
            assert(selects(hosts@, hub::opt_str(preferred_name), chosen));
            r
        },
        Err(_) => {
            assert(selects(hosts@, hub::opt_str(preferred_name), None));
            None
        },
    }
}

/// At most one device is selected.
pub proof fn selection_is_unique(
    hosts: Seq<HostInputs>,
    preferred: Option<Seq<char>>,
    a: Option<SelectedDevice>,
    b: Option<SelectedDevice>,
)
    requires
        selects(hosts, preferred, a),
        selects(hosts, preferred, b),
    ensures
        a == b,
{
}

/// The name of the device that is selected where none was asked for.
pub fn preferred_input_device_name(hosts: &Vec<HostInputs>) -> (r: Option<String>)
    ensures
        exists|s: Option<SelectedDevice>| #[trigger]
            selects(hosts@, None, s) && config::opt_view(r) == nonblank(selected_name(hosts@, s)),
{
    selected_input_device_name(hosts, None)
}

/// The name of the device that is selected where none was asked for.
pub fn best_available_input_device_name(hosts: &Vec<HostInputs>) -> (r: Option<String>)
    ensures
        exists|s: Option<SelectedDevice>| #[trigger]
            selects(hosts@, None, s) && config::opt_view(r) == nonblank(selected_name(hosts@, s)),
{
    selected_input_device_name(hosts, None)
}

/// The name of the device that is selected among all hosts.
pub fn best_available_input_device_name_with_preference(
    hosts: &Vec<HostInputs>,
    preferred_name: Option<&str>,
) -> (r: Option<String>)
    ensures
        exists|s: Option<SelectedDevice>| #[trigger]
            selects(hosts@, hub::opt_str(preferred_name), s) && config::opt_view(r) == nonblank(
                selected_name(hosts@, s),
            ),
{
    selected_input_device_name(hosts, preferred_name)
}

/// A blank preference is the same as none.
pub proof fn blank_preference_is_none(hosts: Seq<HostInputs>, name: Seq<char>, s: Option<
    SelectedDevice,
>)
    requires
        text::trimmed(name).len() == 0,
    ensures
        selects(hosts, Some(name), s) == selects(hosts, None, s),
{
}

proof fn lemma_first_same(i: int, len: int, p: spec_fn(int) -> bool, q: spec_fn(int) -> bool)
    requires
        forall|j: int| i <= j < len ==> #[trigger] p(j) == q(j),
    ensures
        first_from(i, len, p) == first_from(i, len, q),
    decreases len - i,
{
    if i < len {
        assert(p(i) == q(i));
        if !p(i) {
            lemma_first_same(i + 1, len, p, q);
        }
    }
}

/// White space around a name and capital letters in it do not change which device it asks for.
pub proof fn spelling_changes_no_selection(
    hosts: Seq<HostInputs>,
    name: Seq<char>,
    other: Seq<char>,
    s: Option<SelectedDevice>,
)
    requires
        normal_name(name) == normal_name(other),
    ensures
        selects(hosts, Some(name), s) == selects(hosts, Some(other), s),
{
    text::trimming_is_done_once(name, text::CharClass::WhiteSpace);
    text::trimming_is_done_once(other, text::CharClass::WhiteSpace);
    assert(normal_name(name).len() == text::trimmed(name).len());
    assert(normal_name(other).len() == text::trimmed(other).len());
    assert forall|h: int| 0 <= h < hosts.len() implies selected_on_host(
        #[trigger] hosts[h],
        Some(name),
    ) == selected_on_host(hosts[h], Some(other)) by {}
    let p = host_selects(hosts, Some(name));
    let q = host_selects(hosts, Some(other));
    assert forall|h: int| 0 <= h < hosts.len() implies #[trigger] p(h) == q(h) by {
        assert(selected_on_host(hosts[h], Some(name)) == selected_on_host(hosts[h], Some(other)));
    }
    lemma_first_same(0, hosts.len() as int, p, q);
    lemma_first_in_range(0, hosts.len() as int, p);
}

/// A name that no host has a device for is the same as none.
pub proof fn unmatched_preference_is_none(
    hosts: Seq<HostInputs>,
    name: Seq<char>,
    s: Option<SelectedDevice>,
)
    requires
        forall|h: int|
            0 <= h < hosts.len() ==> selected_on_host(#[trigger] hosts[h], Some(name)) is None,
    ensures
        selects(hosts, Some(name), s) == selects(hosts, None, s),
{
    let p = host_selects(hosts, Some(name));
    lemma_skip_misses(0, hosts.len() as int, hosts.len() as int, p);
}

/// The name of a sound card input, as `arecord -L` lists them. Plugins and the names of default
/// devices begin otherwise.
pub open spec fn names_card(line: Seq<char>) -> bool {
    text::begins_with(line, "sysdefault:"@) || text::begins_with(line, "front:"@)
        || text::begins_with(line, "hw:"@) || text::begins_with(line, "plughw:"@)
}

/// The names of sound card inputs among some lines, without the white space around them.
pub open spec fn card_names(lines: Seq<Seq<char>>) -> Seq<Seq<char>>
    decreases lines.len(),
{
    if lines.len() == 0 {
        Seq::empty()
    } else {
        let before = card_names(lines.drop_last());
        let line = text::trimmed(lines.last());
        if names_card(line) {
            before.push(line)
        } else {
            before
        }
    }
}

/// The names of sound card inputs in the output of `arecord -L`, if there is one and it is text.
pub open spec fn listed_names(output: Option<Vec<u8>>) -> Seq<Seq<char>> {
    match output {
        Some(bytes) => if valid_utf8(bytes@) {
            card_names(text::lines_of(decode_utf8(bytes@)))
        } else {
            Seq::empty()
        },
        None => Seq::empty(),
    }
}

/// The names of sound card inputs in the output of `arecord -L`. There is no output where the
/// command could not be run or failed.
pub fn arecord_input_device_names(output: Option<Vec<u8>>) -> (r: Vec<String>)
    ensures
        text::views(r@) == listed_names(output),
{
    let mut names: Vec<String> = Vec::new();
    assert(text::views(names@) =~= Seq::<Seq<char>>::empty());
    let bytes = match output {
        Some(bytes) => bytes,
        None => {
            return names;
        },
    };
    let listed = match text::utf8_text(bytes) {
        Some(t) => t,
        None => {
            return names;
        },
    };
    let lines = text::lines(listed.as_str());
    let ghost all = text::views(lines@);
    let mut i: usize = 0;
    while i < lines.len()
        invariant
            i <= lines@.len(),
            all == text::views(lines@),
            text::views(names@) == card_names(all.take(i as int)),
        decreases lines@.len() - i,
    {
        let trimmed = text::trim(lines[i].as_str());
        let line = trimmed.as_str();
        let ghost before = names@;
        assert(all.take(i + 1).drop_last() =~= all.take(i as int));
        assert(all.take(i + 1).last() == lines@[i as int]@);
        if text::starts_with(line, "sysdefault:") || text::starts_with(line, "front:")
            || text::starts_with(line, "hw:") || text::starts_with(line, "plughw:") {
            names.push(trimmed);
            assert(text::views(names@) =~= text::views(before).push(trimmed@));
        }
        i += 1;
    }
    assert(all.take(i as int) =~= all);
    names
}

/// A candidate of some host, no monitor, has this name.
pub open spec fn offers(hosts: Seq<HostInputs>, name: Seq<char>) -> bool {
    exists|h: int, k: int| #[trigger] offers_at(hosts, h, k, name)
}

/// Candidate `k` of host `h` has this name and is no monitor.
pub open spec fn offers_at(hosts: Seq<HostInputs>, h: int, k: int, name: Seq<char>) -> bool {
    &&& 0 <= h < hosts.len()
    &&& hosts[h].devices is Some
    &&& 0 <= k < candidates_of(hosts[h].devices->0@).len()
    &&& !candidates_of(hosts[h].devices->0@)[k].is_monitor
    &&& candidates_of(hosts[h].devices->0@)[k].name == name
}

/// Candidate `k` of host `h` comes before candidate `k2` of host `h2`.
spec fn earlier(h: int, k: int, h2: int, k2: int) -> bool {
    h < h2 || (h == h2 && k < k2)
}

/// The names of all inputs, in order and each once: those of the candidates of all hosts but
/// monitors, and those of the sound cards in the output of `arecord -L`.
pub fn available_input_device_names(
    hosts: &Vec<HostInputs>,
    arecord_output: Option<Vec<u8>>,
) -> (r: Vec<String>)
    ensures
        text::is_sorted(r@),
        forall|name: Seq<char>| #[trigger]
            text::views(r@).contains(name) <==> offers(hosts@, name) || listed_names(
                arecord_output,
            ).contains(name),
{
    let mut names: Vec<String> = Vec::new();
    let mut h: usize = 0;
    while h < hosts.len()
        invariant
            h <= hosts@.len(),
            text::is_sorted(names@),
            forall|name: Seq<char>| #[trigger]
                text::views(names@).contains(name) <==> exists|h2: int, k2: int|
                    h2 < h && #[trigger] offers_at(hosts@, h2, k2, name),
        decreases hosts@.len() - h,
    {
        if let Some(devices) = &hosts[h].devices {
            let candidates = enumerate_host_input_candidates(devices);
            let ghost c = candidate_views(candidates@);
            let mut k: usize = 0;
            while k < candidates.len()
                invariant
                    h < hosts@.len(),
                    hosts@[h as int].devices == Some(*devices),
                    c == candidate_views(candidates@),
                    c == candidates_of(devices@),
                    k <= candidates@.len(),
                    text::is_sorted(names@),
                    forall|name: Seq<char>| #[trigger]
                        text::views(names@).contains(name) <==> exists|h2: int, k2: int|
                            earlier(h2, k2, h as int, k as int) && #[trigger] offers_at(
                                hosts@,
                                h2,
                                k2,
                                name,
                            ),
                decreases candidates@.len() - k,
            {
                let candidate = &candidates[k];
                let ghost before = names@;
                assert(c[k as int] == candidate@);
                if !candidate.is_monitor {
                    assert(offers_at(hosts@, h as int, k as int, candidate.name@));
                    text::insert_sorted(&mut names, candidate.name.clone());
                }
                assert forall|name: Seq<char>| #[trigger]
                    text::views(names@).contains(name) <==> exists|h2: int, k2: int|
                        earlier(h2, k2, h as int, k + 1) && #[trigger] offers_at(
                            hosts@,
                            h2,
                            k2,
                            name,
                        ) by {
                    assert(text::views(before).contains(name) <==> exists|h2: int, k2: int|
                        earlier(h2, k2, h as int, k as int) && #[trigger] offers_at(
                            hosts@,
                            h2,
                            k2,
                            name,
                        ));
                    if exists|h2: int, k2: int|
                        earlier(h2, k2, h as int, k + 1) && #[trigger] offers_at(
                            hosts@,
                            h2,
                            k2,
                            name,
                        ) {
                        let (h2, k2) = choose|h2: int, k2: int|
                            earlier(h2, k2, h as int, k + 1) && #[trigger] offers_at(
                                hosts@,
                                h2,
                                k2,
                                name,
                            );
                        if !earlier(h2, k2, h as int, k as int) {
                            assert(h2 == h && k2 == k);
                        }
                    }
                }
                k += 1;
            }
            assert forall|name: Seq<char>| #[trigger]
                text::views(names@).contains(name) <==> exists|h2: int, k2: int|
                    h2 < h + 1 && #[trigger] offers_at(hosts@, h2, k2, name) by {
                if exists|h2: int, k2: int| h2 < h + 1 && #[trigger] offers_at(hosts@, h2, k2, name) {
                    let (h2, k2) = choose|h2: int, k2: int|
                        h2 < h + 1 && #[trigger] offers_at(hosts@, h2, k2, name);
                    assert(earlier(h2, k2, h as int, k as int));
                }
            }
        }
        h += 1;
    }
    let cards = arecord_input_device_names(arecord_output);
    let ghost listed = text::views(cards@);
    let mut i: usize = 0;
    assert forall|name: Seq<char>| #[trigger]
        text::views(names@).contains(name) <==> offers(hosts@, name) || listed.take(0).contains(
            name,
        ) by {
        assert(listed.take(0) =~= Seq::<Seq<char>>::empty());
    }
    while i < cards.len()
        invariant
            i <= cards@.len(),
            listed == text::views(cards@),
            text::is_sorted(names@),
            forall|name: Seq<char>| #[trigger]
                text::views(names@).contains(name) <==> offers(hosts@, name) || listed.take(
                    i as int,
                ).contains(name),
        decreases cards@.len() - i,
    {
        let ghost before = names@;
        text::insert_sorted(&mut names, cards[i].clone());
        assert forall|name: Seq<char>| #[trigger]
            text::views(names@).contains(name) <==> offers(hosts@, name) || listed.take(
                i + 1,
            ).contains(name) by {
            let shorter = listed.take(i as int);
            let longer = listed.take(i + 1);
            assert(longer =~= shorter.push(listed[i as int]));
            assert(text::views(before).contains(name) <==> offers(hosts@, name)
                || shorter.contains(name));
            if shorter.contains(name) {
                let j = choose|j: int| 0 <= j < shorter.len() && shorter[j] == name;
                assert(longer[j] == name);
            }
            assert(longer[i as int] == listed[i as int]);
            if longer.contains(name) {
                let j = choose|j: int| 0 <= j < longer.len() && longer[j] == name;
                if j < i {
                    assert(shorter[j] == name);
                }
            }
        }
        i += 1;
    }
    assert(listed.take(i as int) =~= listed);
    names
}

} // verus!
