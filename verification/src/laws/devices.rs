//! Laws of choosing the microphone.
use vstd::prelude::*;
use vstd::string::*;
use vstd::utf8::*;

use crate::audio::input_device::{
    self, DeviceCandidate, DeviceInfo, HostInputs, SelectError, SelectedDevice,
};
use crate::laws::texts;
use crate::text;

verus! {

/// A name as it is compared: without the white space around it, and with small letters.
pub open spec fn plain(name: Seq<char>) -> Seq<char> {
    text::lowered(text::trimmed(name))
}

/// The device can be recorded from, and has a name.
pub open spec fn usable(d: DeviceInfo) -> bool {
    d.has_config && (d.name matches Some(n) && !texts::all_white(n@))
}

/// The name of a device that passes on what the sound system prefers.
pub open spec fn passes_on(name: Seq<char>) -> bool {
    plain(name) == "default"@ || plain(name) == "default input"@ || plain(name) == "pipewire"@
        || plain(name) == "pulse"@
}

/// The name of a device that records what is being played.
pub open spec fn monitors(name: Seq<char>) -> bool {
    texts::holds(plain(name), "monitor"@)
}

/// The two names are the same.
pub open spec fn same_name(a: Seq<char>, b: Seq<char>) -> bool {
    plain(a) == plain(b)
}

/// One name occurs in the other.
pub open spec fn related(a: Seq<char>, b: Seq<char>) -> bool {
    texts::holds(plain(a), plain(b)) || texts::holds(plain(b), plain(a))
}

/// The name of a device, if it has one.
pub open spec fn name_at(devices: Seq<DeviceInfo>, i: int) -> Seq<char> {
    devices[i].name->0@
}

/// `i` is the first usable device whose name has the property.
pub open spec fn is_first(
    devices: Seq<DeviceInfo>,
    i: int,
    property: spec_fn(Seq<char>) -> bool,
) -> bool {
    &&& 0 <= i < devices.len()
    &&& usable(devices[i])
    &&& property(name_at(devices, i))
    &&& forall|j: int|
        0 <= j < i && usable(#[trigger] devices[j]) ==> !property(name_at(devices, j))
}

/// No usable device has a name with the property.
pub open spec fn has_none(devices: Seq<DeviceInfo>, property: spec_fn(Seq<char>) -> bool) -> bool {
    forall|j: int|
        0 <= j < devices.len() && usable(#[trigger] devices[j]) ==> !property(name_at(devices, j))
}

/// A name that was trimmed compares as before.
proof fn lemma_plain_core(name: Seq<char>)
    ensures
        plain(text::trimmed(name)) == plain(name),
        input_device::normal_name(name) == plain(name),
        input_device::normal_name(text::trimmed(name)) == plain(name),
        plain(name).len() == text::trimmed(name).len(),
        plain(name).len() == 0 <==> texts::all_white(name),
        input_device::names_routing(name) == passes_on(name),
        input_device::names_monitor(name) == monitors(name),
        input_device::names_routing(text::trimmed(name)) == passes_on(name),
        input_device::names_monitor(text::trimmed(name)) == monitors(name),
        input_device::names_virtual(text::trimmed(name)) == (texts::all_white(name) || passes_on(
            name,
        ) || monitors(name)),
{
    text::trimming_is_done_once(name, text::CharClass::WhiteSpace);
    texts::lemma_trimmed(name);
    texts::lemma_holds(plain(name), "monitor"@);
}

proof fn lemma_usable(d: DeviceInfo)
    ensures
        input_device::is_usable(d) == usable(d),
{
    if let Some(n) = d.name {
        texts::lemma_trimmed(n@);
    }
}

/// The candidates are the usable devices, in their order.
proof fn lemma_all_candidates(devices: Seq<DeviceInfo>)
    ensures
        ({
            let c = input_device::candidates_of(devices);
            &&& forall|k: int|
                0 <= k < c.len() ==> 0 <= (#[trigger] c[k]).device < devices.len() && usable(
                    devices[c[k].device],
                ) && c[k] == input_device::candidate_of(devices[c[k].device], c[k].device)
            &&& forall|k: int, l: int|
                0 <= k < l < c.len() ==> (#[trigger] c[k]).device < (#[trigger] c[l]).device
            &&& forall|j: int|
                0 <= j < devices.len() && usable(#[trigger] devices[j]) ==> exists|k: int|
                    0 <= k < c.len() && (#[trigger] c[k]).device == j
        }),
    decreases devices.len(),
{
    if devices.len() > 0 {
        let shorter = devices.drop_last();
        let n = devices.len() - 1;
        lemma_all_candidates(shorter);
        lemma_usable(devices.last());
        let b = input_device::candidates_of(shorter);
        let c = input_device::candidates_of(devices);
        assert forall|k: int| 0 <= k < b.len() implies #[trigger] c[k] == b[k] by {}
        assert forall|k: int| 0 <= k < c.len() implies 0 <= (#[trigger] c[k]).device
            < devices.len() && usable(devices[c[k].device]) && c[k] == input_device::candidate_of(
            devices[c[k].device],
            c[k].device,
        ) by {
            if k < b.len() {
                assert(c[k] == b[k]);
                assert(devices[c[k].device] == shorter[c[k].device]);
            }
        }
        assert forall|j: int| 0 <= j < devices.len() && usable(
            #[trigger] devices[j],
        ) implies exists|k: int| 0 <= k < c.len() && (#[trigger] c[k]).device == j by {
            if j < n {
                assert(usable(shorter[j]));
                let k = choose|k: int| 0 <= k < b.len() && (#[trigger] b[k]).device == j;
                assert(c[k].device == j);
            } else {
                assert(c[b.len() as int].device == j);
            }
        }
    }
}

proof fn lemma_first(i: int, len: int, p: spec_fn(int) -> bool)
    requires
        i <= len,
    ensures
        match input_device::first_from(i, len, p) {
            Some(k) => i <= k < len && p(k) && forall|j: int| i <= j < k ==> !#[trigger] p(j),
            None => forall|j: int| i <= j < len ==> !#[trigger] p(j),
        },
    decreases len - i,
{
    if i < len && !p(i) {
        lemma_first(i + 1, len, p);
    }
}

/// The first candidate with a property is the first usable device with it.
proof fn lemma_first_device(
    devices: Seq<DeviceInfo>,
    p: spec_fn(int) -> bool,
    property: spec_fn(Seq<char>) -> bool,
)
    requires
        forall|k: int|
            0 <= k < input_device::candidates_of(devices).len() ==> #[trigger] p(k) == property(
                name_at(devices, input_device::candidates_of(devices)[k].device),
            ),
    ensures
        ({
            let c = input_device::candidates_of(devices);
            match input_device::first_where(c.len(), p) {
                Some(k) => 0 <= k < c.len() && is_first(devices, c[k].device, property),
                None => has_none(devices, property),
            }
        }),
{
    let c = input_device::candidates_of(devices);
    lemma_all_candidates(devices);
    lemma_first(0, c.len() as int, p);
    match input_device::first_where(c.len(), p) {
        Some(k) => {
            assert forall|j: int| 0 <= j < c[k].device && usable(
                #[trigger] devices[j],
            ) implies !property(name_at(devices, j)) by {
                let l = choose|l: int| 0 <= l < c.len() && (#[trigger] c[l]).device == j;
                if l >= k {
                    assert(c[k].device <= c[l].device);
                }
                assert(!p(l));
            }
        },
        None => {
            assert forall|j: int| 0 <= j < devices.len() && usable(
                #[trigger] devices[j],
            ) implies !property(name_at(devices, j)) by {
                let l = choose|l: int| 0 <= l < c.len() && (#[trigger] c[l]).device == j;
                assert(!p(l));
            }
        },
    }
}

/// The usable device that a name asks for: the first of that name, or else the first whose name
/// holds it or is held by it.
pub open spec fn asks_for(devices: Seq<DeviceInfo>, name: Seq<char>, i: int) -> bool {
    if has_none(devices, |n: Seq<char>| same_name(n, name)) {
        is_first(devices, i, |n: Seq<char>| related(n, name))
    } else {
        is_first(devices, i, |n: Seq<char>| same_name(n, name))
    }
}

proof fn lemma_asked(devices: Seq<DeviceInfo>, name: Seq<char>)
    requires
        !texts::all_white(name),
    ensures
        ({
            let c = input_device::candidates_of(devices);
            match input_device::asked_for(c, text::trimmed(name)) {
                Some(k) => 0 <= k < c.len() && asks_for(devices, name, c[k].device),
                None => has_none(devices, |n: Seq<char>| same_name(n, name)) && has_none(
                    devices,
                    |n: Seq<char>| related(n, name),
                ),
            }
        }),
{
    let c = input_device::candidates_of(devices);
    let p = plain(name);
    let same = |n: Seq<char>| same_name(n, name);
    let near = |n: Seq<char>| related(n, name);
    lemma_plain_core(name);
    lemma_all_candidates(devices);
    let exact = input_device::named_exactly(c, p);
    let alike = input_device::named_alike(c, p);
    assert forall|k: int| 0 <= k < c.len() implies #[trigger] exact(k) == same(
        name_at(devices, c[k].device),
    ) by {
        lemma_plain_core(name_at(devices, c[k].device));
    }
    assert forall|k: int| 0 <= k < c.len() implies #[trigger] alike(k) == near(
        name_at(devices, c[k].device),
    ) by {
        let n = name_at(devices, c[k].device);
        lemma_plain_core(n);
        texts::lemma_holds(plain(n), p);
        texts::lemma_holds(p, plain(n));
    }
    lemma_first_device(devices, exact, same);
    lemma_first_device(devices, alike, near);
    match input_device::first_where(c.len(), exact) {
        Some(k) => {
            assert(usable(devices[c[k].device]));
            assert(!has_none(devices, same));
        },
        None => {},
    }
}

/// A name asks for the first usable device of that name, or else for the first whose name holds it
/// anywhere or is held by it, capital letters and outer white space aside. Where there is one, it is
/// selected; where there is none, the name is told.
pub proof fn preferred_device_is_found(
    host: &HostInputs,
    name: &str,
    r: Result<usize, SelectError>,
)
    requires
        call_ensures(input_device::select_input_device_on_host, (host, Some(name)), r),
        !texts::all_white(name@),
        host.devices is Some,
    ensures
        ({
            let devices = host.devices->0@;
            let none = has_none(devices, |n: Seq<char>| same_name(n, name@)) && has_none(
                devices,
                |n: Seq<char>| related(n, name@),
            );
            &&& r is Ok <==> !none
            &&& r matches Ok(i) ==> asks_for(devices, name@, i as int)
            &&& r matches Err(e) ==> (e matches SelectError::PreferredNotFound(n)
                && texts::is_core(name@, n@))
        }),
{
    let devices = host.devices->0@;
    lemma_asked(devices, name@);
    texts::lemma_trimmed(name@);
    lemma_all_candidates(devices);
    if let Ok(i) = r {
        assert(usable(devices[i as int]));
    }
}

/// A usable device in whose name the preferred name occurs at any place is enough for a device to
/// be selected, and the name of the selected one is the preferred name, holds it or is held by it.
pub proof fn part_of_a_name_is_enough(
    host: &HostInputs,
    name: &str,
    r: Result<usize, SelectError>,
    j: int,
    at: int,
)
    requires
        call_ensures(input_device::select_input_device_on_host, (host, Some(name)), r),
        !texts::all_white(name@),
        host.devices is Some,
        0 <= j < host.devices->0@.len(),
        usable(host.devices->0@[j]),
        texts::holds_at(plain(name_at(host.devices->0@, j)), plain(name@), at),
    ensures
        r matches Ok(i) && i < host.devices->0@.len() && usable(host.devices->0@[i as int]) && (
        same_name(name_at(host.devices->0@, i as int), name@) || related(
            name_at(host.devices->0@, i as int),
            name@,
        )),
{
    preferred_device_is_found(host, name, r);
    let devices = host.devices->0@;
    let near = |n: Seq<char>| related(n, name@);
    assert(near(name_at(devices, j)));
    assert(!has_none(devices, near));
}

/// The device passes sound on.
pub open spec fn passing() -> spec_fn(Seq<char>) -> bool {
    |n: Seq<char>| passes_on(n) && !monitors(n)
}

/// The device is a microphone of its own.
pub open spec fn microphone() -> spec_fn(Seq<char>) -> bool {
    |n: Seq<char>| !passes_on(n) && !monitors(n)
}

/// The device is no monitor.
pub open spec fn audible() -> spec_fn(Seq<char>) -> bool {
    |n: Seq<char>| !monitors(n)
}

/// Any device.
pub open spec fn any() -> spec_fn(Seq<char>) -> bool {
    |n: Seq<char>| true
}

/// The device is the one that the name of the host's default asks for, and it passes sound on or is a
/// microphone of its own.
pub open spec fn is_default(host: HostInputs, i: int) -> bool {
    &&& host.default_input is Some && host.default_input->0.name is Some
    &&& !texts::all_white(host.default_input->0.name->0@)
    &&& asks_for(host.devices->0@, host.default_input->0.name->0@, i)
    &&& passes_on(name_at(host.devices->0@, i)) || !monitors(name_at(host.devices->0@, i))
}

/// Where no name is given, or a blank one, the device of the host's default is selected if it is
/// found by its name and passes sound on or is a microphone of its own. Else the first that passes
/// sound on is selected, else the first microphone, else the first that is no monitor, else the first
/// at all; there is none only where no device is usable.
pub proof fn device_is_picked(
    host: &HostInputs,
    name: Option<&str>,
    r: Result<usize, SelectError>,
)
    requires
        call_ensures(input_device::select_input_device_on_host, (host, name), r),
        name matches Some(n) ==> texts::all_white(n@),
        host.devices is Some,
    ensures
        ({
            let devices = host.devices->0@;
            &&& r is Ok <==> !has_none(devices, any())
            &&& r matches Ok(i) ==> if exists|d: int| is_default(*host, d) {
                is_default(*host, i as int)
            } else if !has_none(devices, passing()) {
                is_first(devices, i as int, passing())
            } else if !has_none(devices, microphone()) {
                is_first(devices, i as int, microphone())
            } else if !has_none(devices, audible()) {
                is_first(devices, i as int, audible())
            } else {
                is_first(devices, i as int, any())
            }
            &&& r matches Err(e) ==> e is NoDevice
        }),
{
    let devices = host.devices->0@;
    let c = input_device::candidates_of(devices);
    let given = host.default_input is Some && host.default_input->0.name is Some
        && !texts::all_white(host.default_input->0.name->0@);
    let default = host.default_input->0.name->0@;
    let (passing, microphone, audible, any) = (passing(), microphone(), audible(), any());
    if let Some(n) = name {
        texts::lemma_trimmed(n@);
    }
    lemma_all_candidates(devices);
    assert forall|k: int| 0 <= k < c.len() implies ({
        let n = name_at(devices, (#[trigger] c[k]).device);
        &&& c[k].is_routing == passes_on(n)
        &&& c[k].is_monitor == monitors(n)
        &&& c[k].is_virtual == (passes_on(n) || monitors(n))
        &&& text::trimmed(c[k].name).len() > 0
    }) by {
        let n = name_at(devices, c[k].device);
        assert(usable(devices[c[k].device]));
        lemma_plain_core(n);
        text::trimming_is_done_once(n, text::CharClass::WhiteSpace);
        texts::lemma_trimmed(n);
    }
    let p1 = input_device::routing(c);
    let p2 = input_device::microphone(c);
    let p3 = input_device::not_monitor(c);
    let p4 = |k: int| true;
    assert forall|k: int| 0 <= k < c.len() implies #[trigger] p1(k) == passing(
        name_at(devices, c[k].device),
    ) by {}
    assert forall|k: int| 0 <= k < c.len() implies #[trigger] p2(k) == microphone(
        name_at(devices, c[k].device),
    ) by {}
    assert forall|k: int| 0 <= k < c.len() implies #[trigger] p3(k) == audible(
        name_at(devices, c[k].device),
    ) by {}
    lemma_first_device(devices, p1, passing);
    lemma_first_device(devices, p2, microphone);
    lemma_first_device(devices, p3, audible);
    lemma_first_device(devices, p4, any);
    if c.len() > 0 {
        assert(input_device::first_where(c.len(), p4) == Some(0int));
        assert(usable(devices[c[0].device]));
        assert(!has_none(devices, any));
    } else {
        assert(input_device::first_where(c.len(), p4) is None);
    }
    texts::lemma_trimmed(default);
    if given {
        lemma_asked(devices, default);
        text::trimming_is_done_once(default, text::CharClass::WhiteSpace);
        match input_device::asked_for(c, text::trimmed(default)) {
            Some(k) => {
                let d = c[k].device;
                assert forall|e: int| asks_for(devices, default, e) implies e == d by {
                    lemma_asked_once(devices, default, d, e);
                }
                if passes_on(name_at(devices, d)) || !monitors(name_at(devices, d)) {
                    assert(is_default(*host, d));
                } else {
                    assert(!(exists|e: int| is_default(*host, e)));
                    assert(c[k].is_virtual && !c[k].is_routing);
                }
            },
            None => {
                assert forall|e: int| !asks_for(devices, default, e) by {
                    let near = |n: Seq<char>| related(n, default);
                    if asks_for(devices, default, e) {
                        assert(is_first(devices, e, near));
                        assert(usable(devices[e]));
                    }
                }
            },
        }
    }
    match input_device::first_where(c.len(), p1) {
        Some(k) => {
            assert(usable(devices[c[k].device]) && passing(name_at(devices, c[k].device)));
        },
        None => {},
    }
    match input_device::first_where(c.len(), p2) {
        Some(k) => {
            assert(usable(devices[c[k].device]) && microphone(name_at(devices, c[k].device)));
        },
        None => {},
    }
    match input_device::first_where(c.len(), p3) {
        Some(k) => {
            assert(usable(devices[c[k].device]) && audible(name_at(devices, c[k].device)));
        },
        None => {},
    }
}

/// A name asks for one device at most.
pub proof fn lemma_asked_once(devices: Seq<DeviceInfo>, name: Seq<char>, a: int, b: int)
    requires
        asks_for(devices, name, a),
        asks_for(devices, name, b),
    ensures
        a == b,
{
    assert(usable(devices[a]) && usable(devices[b]));
}

/// A host whose devices cannot be listed selects none.
pub proof fn unlisted_devices_are_not_selected(
    host: &HostInputs,
    name: Option<&str>,
    r: Result<usize, SelectError>,
    free: Result<usize, SelectError>,
)
    requires
        call_ensures(input_device::select_input_device_on_host, (host, name), r),
        call_ensures(input_device::select_input_device, (host,), free),
    ensures
        host.devices is None ==> (r matches Err(e) && e is EnumerationFailed) && (
        free matches Err(e) && e is EnumerationFailed),
        name is None ==> r is Ok == free is Ok && (r is Ok ==> r->Ok_0 == free->Ok_0),
{
}

/// The hosts are asked in order. A name that is not blank is looked for on all of them before any
/// host picks a device of its own; where no host selects one, the first default device that can be
/// recorded from is taken, and without one there is none.
pub proof fn hosts_are_asked_in_order(
    hosts: &Vec<HostInputs>,
    name: Option<&str>,
    asked: Seq<Result<usize, SelectError>>,
    free: Seq<Result<usize, SelectError>>,
    r: Result<SelectedDevice, SelectError>,
)
    requires
        call_ensures(
            input_device::select_input_device_any_host_with_preference,
            (hosts, name),
            r,
        ),
        asked.len() == hosts@.len() && free.len() == hosts@.len(),
        forall|h: int|
            0 <= h < hosts@.len() ==> call_ensures(
                input_device::select_input_device_on_host,
                (&#[trigger] hosts@[h], name),
                asked[h],
            ),
        forall|h: int|
            0 <= h < hosts@.len() ==> call_ensures(
                input_device::select_input_device_on_host,
                (&#[trigger] hosts@[h], None),
                free[h],
            ),
    ensures
        ({
            let wanted = name matches Some(n) && !texts::all_white(n@);
            let some_asked = exists|h: int| 0 <= h < asked.len() && #[trigger] asked[h] is Ok;
            let some_free = exists|h: int| 0 <= h < free.len() && #[trigger] free[h] is Ok;
            if wanted && some_asked {
                r matches Ok(SelectedDevice::Listed { host, device }) && host < asked.len()
                    && asked[host as int] == Ok::<usize, SelectError>(device) && forall|h: int|
                    0 <= h < host ==> #[trigger] asked[h] is Err
            } else if some_free {
                r matches Ok(SelectedDevice::Listed { host, device }) && host < free.len()
                    && free[host as int] == Ok::<usize, SelectError>(device) && forall|h: int|
                    0 <= h < host ==> #[trigger] free[h] is Err
            } else {
                match r {
                    Ok(s) => s matches SelectedDevice::DefaultOf { host } && host < hosts@.len()
                        && recordable(hosts@[host as int]) && forall|h: int|
                        0 <= h < host ==> !recordable(#[trigger] hosts@[h]),
                    Err(e) => e is NoDeviceOnAnyHost && forall|h: int|
                        0 <= h < hosts@.len() ==> !recordable(#[trigger] hosts@[h]),
                }
            }
        }),
{
    let n = hosts@.len() as int;
    if let Some(s) = name {
        texts::lemma_trimmed(s@);
    }
    let preferred = crate::streaming::hub::opt_str(name);
    let p = input_device::host_selects(hosts@, preferred);
    let q = input_device::host_selects(hosts@, None);
    let w = input_device::default_works(hosts@);
    lemma_first(0, n, p);
    lemma_first(0, n, q);
    lemma_first(0, n, w);
    assert forall|h: int| 0 <= h < n implies #[trigger] asked[h] is Ok == p(h) by {
        assert(call_ensures(
            input_device::select_input_device_on_host,
            (&hosts@[h], name),
            asked[h],
        ));
    }
    assert forall|h: int| 0 <= h < n implies #[trigger] free[h] is Ok == q(h) by {
        assert(call_ensures(
            input_device::select_input_device_on_host,
            (&hosts@[h], None),
            free[h],
        ));
    }
    assert forall|h: int| 0 <= h < n implies recordable(#[trigger] hosts@[h]) == w(h) by {}
    if let Ok(SelectedDevice::Listed { host, device }) = r {
        let h = host as int;
        if 0 <= h < n {
            assert(call_ensures(
                input_device::select_input_device_on_host,
                (&hosts@[h], name),
                asked[h],
            ));
            assert(call_ensures(
                input_device::select_input_device_on_host,
                (&hosts@[h], None),
                free[h],
            ));
            assert(asked[h] is Ok == p(h));
            assert(free[h] is Ok == q(h));
        }
    }
}

/// The default device of a host can be recorded from.
pub open spec fn recordable(host: HostInputs) -> bool {
    host.default_input matches Some(d) && d.has_config
}

/// The device that is recorded from is named by its name, without the white space around it, unless
/// it has none or a blank one.
pub proof fn selected_device_is_named(
    hosts: &Vec<HostInputs>,
    name: Option<&str>,
    selected: Result<SelectedDevice, SelectError>,
    r: Option<String>,
    best: Option<String>,
)
    requires
        call_ensures(
            input_device::select_input_device_any_host_with_preference,
            (hosts, name),
            selected,
        ),
        call_ensures(input_device::selected_input_device_name, (hosts, name), r),
        call_ensures(
            input_device::best_available_input_device_name_with_preference,
            (hosts, name),
            best,
        ),
    ensures
        ({
            let found = match selected {
                Ok(SelectedDevice::Listed { host, device }) =>
                    hosts@[host as int].devices->0@[device as int].name,
                Ok(SelectedDevice::DefaultOf { host }) =>
                    hosts@[host as int].default_input->0.name,
                Err(_) => None,
            };
            let named = found matches Some(n) && !texts::all_white(n@);
            &&& r is Some == named
            &&& r matches Some(n) ==> texts::is_core(found->0@, n@)
            &&& best is Some == r is Some && (r is Some ==> best->0@ == r->0@)
        }),
{
    let preferred = crate::streaming::hub::opt_str(name);
    let s = match selected {
        Ok(d) => Some(d),
        Err(_) => None,
    };
    assert forall|t: Option<SelectedDevice>| #[trigger]
        input_device::selects(hosts@, preferred, t) implies t == s by {
        input_device::selection_is_unique(hosts@, preferred, s, t);
    }
    match input_device::selected_name(hosts@, s) {
        Some(n) => {
            texts::lemma_trimmed(n);
        },
        None => {},
    }
}

/// Without a preference all ways to select a device agree.
pub proof fn free_selections_agree(
    hosts: &Vec<HostInputs>,
    r: Result<SelectedDevice, SelectError>,
    free: Result<SelectedDevice, SelectError>,
    name: Option<String>,
    preferred: Option<String>,
    best: Option<String>,
)
    requires
        call_ensures(
            input_device::select_input_device_any_host_with_preference,
            (hosts, None),
            r,
        ),
        call_ensures(input_device::select_input_device_any_host, (hosts,), free),
        call_ensures(input_device::selected_input_device_name, (hosts, None), name),
        call_ensures(input_device::preferred_input_device_name, (hosts,), preferred),
        call_ensures(input_device::best_available_input_device_name, (hosts,), best),
    ensures
        r is Ok == free is Ok,
        r is Ok ==> r->Ok_0 == free->Ok_0,
        name is Some == preferred is Some && (name is Some ==> name->0@ == preferred->0@),
        name is Some == best is Some && (name is Some ==> name->0@ == best->0@),
{
    let s = match r {
        Ok(d) => Some(d),
        Err(_) => None,
    };
    assert forall|t: Option<SelectedDevice>| #[trigger]
        input_device::selects(hosts@, None, t) implies t == s by {
        input_device::selection_is_unique(hosts@, None, s, t);
    }
}

/// The kinds of devices are told by their names, capital letters and outer white space aside.
pub proof fn names_tell_the_kind(
    name: &str,
    normal: String,
    monitor: bool,
    routing: bool,
    virtual_name: bool,
)
    requires
        call_ensures(input_device::normalize_name, (name,), normal),
        call_ensures(input_device::is_monitor_input_name, (name,), monitor),
        call_ensures(input_device::is_routing_input_name, (name,), routing),
        call_ensures(input_device::is_virtual_input_name, (name,), virtual_name),
    ensures
        exists|core: Seq<char>|
            texts::is_core(name@, core) && #[trigger] texts::is_lower(core, normal@),
        monitor == texts::holds(normal@, "monitor"@),
        routing == (normal@ == "default"@ || normal@ == "default input"@ || normal@ == "pipewire"@
            || normal@ == "pulse"@),
        virtual_name == (monitor || routing || normal@.len() == 0),
{
    texts::lemma_trimmed(name@);
    texts::lemma_lowered(text::trimmed(name@));
    texts::lemma_holds(normal@, "monitor"@);
    assert(texts::is_lower(text::trimmed(name@), normal@));
}

/// PipeWire is asked before PulseAudio, that before any other sound system, and ALSA last; the name
/// may hold more than that.
pub proof fn sound_systems_have_ranks(name: &str, low: Seq<char>, r: usize)
    requires
        call_ensures(input_device::host_priority, (name,), r),
        texts::is_lower(name@, low),
    ensures
        ({
            let pipewire = texts::holds(low, "pipewire"@);
            let pulse = texts::holds(low, "pulse"@);
            let alsa = texts::holds(low, "alsa"@);
            &&& r == 0 <==> pipewire
            &&& r == 1 <==> pulse && !pipewire
            &&& r == 3 <==> alsa && !pipewire && !pulse
            &&& r == 2 <==> !alsa && !pipewire && !pulse
        }),
{
    texts::lemma_lowered(name@);
    texts::lower_is_unique(name@, low, text::lowered(name@));
    texts::lemma_holds(low, "pipewire"@);
    texts::lemma_holds(low, "pulse"@);
    texts::lemma_holds(low, "alsa"@);
}

/// Every sound system is asked once, those of lower rank first, and those of the same rank in the
/// order in which they are given.
pub proof fn every_sound_system_is_asked(
    names: &Vec<String>,
    ranks: Seq<usize>,
    r: Vec<usize>,
    i: int,
    j: int,
)
    requires
        call_ensures(input_device::hosts_in_priority_order, (names,), r),
        ranks.len() == names@.len(),
        forall|h: int|
            0 <= h < ranks.len() ==> #[trigger] ranks[h] == input_device::priority_of(names@[h]@),
        0 <= i < j < r@.len(),
    ensures
        r@[i] < ranks.len() && r@[j] < ranks.len(),
        r@[i] != r@[j],
        ranks[r@[i] as int] < ranks[r@[j] as int] || ranks[r@[i] as int] == ranks[r@[j] as int]
            && r@[i] < r@[j],
        forall|h: usize| h < names@.len() ==> #[trigger] r@.contains(h),
{
    assert(input_device::asked_before(names@, r@[i] as int, r@[j] as int));
    assert(ranks[r@[i] as int] == input_device::priority_of(names@[r@[i] as int]@));
    assert(ranks[r@[j] as int] == input_device::priority_of(names@[r@[j] as int]@));
}

/// A line of `arecord -L` that begins with the name of a card input.
pub open spec fn is_card_line(line: Seq<char>, name: Seq<char>) -> bool {
    texts::is_core(line, name) && (texts::holds_at(name, "sysdefault:"@, 0) || texts::holds_at(
        name,
        "front:"@,
        0,
    ) || texts::holds_at(name, "hw:"@, 0) || texts::holds_at(name, "plughw:"@, 0))
}

proof fn lemma_cards(lines: Seq<Seq<char>>, name: Seq<char>)
    ensures
        input_device::card_names(lines).contains(name) <==> exists|i: int|
            0 <= i < lines.len() && is_card_line(#[trigger] lines[i], name),
    decreases lines.len(),
{
    if lines.len() > 0 {
        let shorter = lines.drop_last();
        let b = input_device::card_names(shorter);
        let c = input_device::card_names(lines);
        let line = text::trimmed(lines.last());
        lemma_cards(shorter, name);
        texts::lemma_trimmed(lines.last());
        texts::lemma_holds(line, "sysdefault:"@);
        texts::lemma_holds(line, "front:"@);
        texts::lemma_holds(line, "hw:"@);
        texts::lemma_holds(line, "plughw:"@);
        if c.contains(name) {
            let k = choose|k: int| 0 <= k < c.len() && c[k] == name;
            if k < b.len() {
                assert(b[k] == name);
                assert(b.contains(name));
                let i = choose|i: int|
                    0 <= i < shorter.len() && is_card_line(#[trigger] shorter[i], name);
                assert(is_card_line(lines[i], name));
            } else {
                assert(is_card_line(lines[lines.len() - 1], name));
            }
        }
        if exists|i: int| 0 <= i < lines.len() && is_card_line(#[trigger] lines[i], name) {
            let i = choose|i: int| 0 <= i < lines.len() && is_card_line(#[trigger] lines[i], name);
            if i < shorter.len() {
                assert(is_card_line(shorter[i], name));
                let k = choose|k: int| 0 <= k < b.len() && b[k] == name;
                assert(c[k] == name);
            } else {
                texts::core_is_unique(lines.last(), name, line);
                assert(c[b.len() as int] == name);
            }
        }
    }
}

/// The names of all inputs are in order and each is there once: those of the usable devices of all
/// hosts that are no monitors, and those of the sound cards that `arecord -L` lists.
pub proof fn all_inputs_are_named(
    hosts: &Vec<HostInputs>,
    output: Option<Vec<u8>>,
    cards: Vec<String>,
    r: Vec<String>,
    name: Seq<char>,
)
    requires
        call_ensures(input_device::arecord_input_device_names, (output,), cards),
        call_ensures(input_device::available_input_device_names, (hosts, output), r),
    ensures
        text::views(cards@).contains(name) <==> (output matches Some(bytes) && valid_utf8(bytes@)
            && exists|i: int|
            0 <= i < text::lines_of(decode_utf8(bytes@)).len() && is_card_line(
                #[trigger] text::lines_of(decode_utf8(bytes@))[i],
                name,
            )),
        text::views(r@).contains(name) <==> text::views(cards@).contains(name) || exists|
            h: int,
            j: int,
        |
            0 <= h < hosts@.len() && hosts@[h].devices is Some && 0 <= j
                < hosts@[h].devices->0@.len() && #[trigger] input_named(
                hosts@[h].devices->0@[j],
                name,
            ),
        forall|i: int, j: int|
            0 <= i < j < r@.len() ==> text::precedes(#[trigger] r@[i]@, #[trigger] r@[j]@),
{
    if let Some(bytes) = output {
        if valid_utf8(bytes@) {
            lemma_cards(text::lines_of(decode_utf8(bytes@)), name);
        }
    }
    let some = exists|h: int, j: int|
        0 <= h < hosts@.len() && hosts@[h].devices is Some && 0 <= j < hosts@[h].devices->0@.len()
            && #[trigger] input_named(hosts@[h].devices->0@[j], name);
    if input_device::offers(hosts@, name) {
        let (h, k) = choose|h: int, k: int| #[trigger]
            input_device::offers_at(hosts@, h, k, name);
        let devices = hosts@[h].devices->0@;
        lemma_all_candidates(devices);
        let c = input_device::candidates_of(devices)[k];
        let d = devices[c.device];
        lemma_plain_core(d.name->0@);
        texts::lemma_trimmed(d.name->0@);
        assert(input_named(hosts@[h].devices->0@[c.device], name));
    }
    if some {
        let (h, j) = choose|h: int, j: int|
            0 <= h < hosts@.len() && hosts@[h].devices is Some && 0 <= j
                < hosts@[h].devices->0@.len() && #[trigger] input_named(
                hosts@[h].devices->0@[j],
                name,
            );
        let devices = hosts@[h].devices->0@;
        lemma_all_candidates(devices);
        let d = devices[j];
        assert(usable(devices[j]));
        let k = choose|k: int|
            0 <= k < input_device::candidates_of(devices).len() && (
            #[trigger] input_device::candidates_of(devices)[k]).device == j;
        lemma_plain_core(d.name->0@);
        texts::lemma_trimmed(d.name->0@);
        texts::core_is_unique(d.name->0@, name, text::trimmed(d.name->0@));
        assert(input_device::offers_at(hosts@, h, k, name));
    }
}

/// The device is usable, no monitor, and has this name.
pub open spec fn input_named(d: DeviceInfo, name: Seq<char>) -> bool {
    usable(d) && !monitors(d.name->0@) && texts::is_core(d.name->0@, name)
}

/// The messages name what is wrong.
pub proof fn selection_errors_are_told(e: SelectError, r: String)
    requires
        call_ensures(SelectError::message, (&e,), r),
    ensures
        e is EnumerationFailed ==> r@ == "Failed to enumerate input devices"@,
        e matches SelectError::PreferredNotFound(n) ==> r@ == "Preferred input device '"@ + n@
            + "' not found on this host"@,
        e is NoDevice ==> r@ == "No input device available"@,
        e is NoDeviceOnAnyHost ==> r@ == "No input device available on any host"@,
{
}

/// Among candidates, a name asks for the first of that name, or else for the first whose name holds
/// it or is held by it; a blank name asks for none.
pub proof fn candidates_are_matched(
    candidates: &Vec<DeviceCandidate>,
    name: &str,
    r: Option<usize>,
)
    requires
        call_ensures(input_device::preferred_match_index, (candidates, name), r),
    ensures
        ({
            let c = candidates@;
            let same = exists|i: int| 0 <= i < c.len() && same_name(#[trigger] c[i].name@, name@);
            let near = exists|i: int| 0 <= i < c.len() && related(#[trigger] c[i].name@, name@);
            &&& texts::all_white(name@) ==> r is None
            &&& !texts::all_white(name@) ==> (r is Some <==> same || near)
            &&& r matches Some(k) ==> k < c.len()
            &&& r matches Some(k) ==> same ==> same_name(c[k as int].name@, name@) && forall|i: int|
                0 <= i < k ==> !same_name(#[trigger] c[i].name@, name@)
            &&& r matches Some(k) ==> !same ==> related(c[k as int].name@, name@) && forall|i: int|
                0 <= i < k ==> !related(#[trigger] c[i].name@, name@)
        }),
{
    let v = input_device::candidate_views(candidates@);
    let p = plain(name@);
    lemma_plain_core(name@);
    let exact = input_device::named_exactly(v, p);
    let alike = input_device::named_alike(v, p);
    lemma_first(0, v.len() as int, exact);
    lemma_first(0, v.len() as int, alike);
    assert forall|i: int| 0 <= i < v.len() implies exact(i) == same_name(
        #[trigger] candidates@[i].name@,
        name@,
    ) && alike(i) == related(candidates@[i].name@, name@) by {
        let n = candidates@[i].name@;
        assert(v[i].name == n);
        lemma_plain_core(n);
        texts::lemma_holds(plain(n), p);
        texts::lemma_holds(p, plain(n));
    }
}

/// The candidates are the usable devices, in their order, each under its name without the white space
/// around it.
pub proof fn candidates_are_the_usable_devices(
    devices: &Vec<DeviceInfo>,
    r: Vec<DeviceCandidate>,
    k: int,
    l: int,
)
    requires
        call_ensures(input_device::enumerate_host_input_candidates, (devices,), r),
    ensures
        0 <= k < r@.len() ==> r@[k].device < devices@.len() && usable(
            devices@[r@[k].device as int],
        ) && texts::is_core(name_at(devices@, r@[k].device as int), r@[k].name@),
        0 <= k < l < r@.len() ==> r@[k].device < r@[l].device,
        forall|j: int|
            0 <= j < devices@.len() && usable(#[trigger] devices@[j]) ==> exists|m: int|
                0 <= m < r@.len() && (#[trigger] r@[m]).device == j,
        0 <= k < r@.len() ==> r@[k].is_monitor == monitors(r@[k].name@) && r@[k].is_routing
            == passes_on(r@[k].name@) && r@[k].is_virtual == (monitors(r@[k].name@) || passes_on(
            r@[k].name@,
        )),
{
    let v = input_device::candidate_views(r@);
    lemma_all_candidates(devices@);
    assert(v.len() == r@.len());
    if 0 <= k < r@.len() {
        assert(v[k] == r@[k]@);
        let n = name_at(devices@, r@[k].device as int);
        assert(usable(devices@[v[k].device]));
        texts::lemma_trimmed(n);
        text::trimming_is_done_once(n, text::CharClass::WhiteSpace);
        lemma_plain_core(n);
        lemma_plain_core(r@[k].name@);
    }
    if 0 <= k < l < r@.len() {
        assert(v[k] == r@[k]@ && v[l] == r@[l]@);
        assert(v[k].device < v[l].device);
    }
    assert forall|j: int| 0 <= j < devices@.len() && usable(
        #[trigger] devices@[j],
    ) implies exists|m: int| 0 <= m < r@.len() && (#[trigger] r@[m]).device == j by {
        let m = choose|m: int| 0 <= m < v.len() && (#[trigger] v[m]).device == j;
        assert(v[m] == r@[m]@);
        assert(r@[m].device == j);
    }
}

} // verus!
