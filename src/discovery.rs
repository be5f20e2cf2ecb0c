use vstd::prelude::*;

verus! {

/// A device seen during a discovery round.
pub struct Device {
    /// Its advertised name.
    pub name: String,
    /// Its transport address.
    pub address: String,
}

/// The name filter accepts an advertised name: an empty filter accepts any
/// peer, another only a peer of exactly that name.
pub open spec fn accepts(filter: Seq<char>, name: Seq<char>) -> bool {
    filter.len() == 0 || name == filter
}

/// The address of the first device at index `i` or later that the filter
/// accepts.
pub open spec fn selected_from(devs: Seq<Device>, filter: Seq<char>, i: int) -> Option<Seq<char>>
    decreases devs.len() - i,
{
    if i < 0 || i >= devs.len() {
        None
    } else if accepts(filter, devs[i].name@) {
        Some(devs[i].address@)
    } else {
        selected_from(devs, filter, i + 1)
    }
}

/// The address that discovery resolves from the devices seen, in the order
/// they were seen.
pub open spec fn selected(devs: Seq<Device>, filter: Seq<char>) -> Option<Seq<char>> {
    selected_from(devs, filter, 0)
}

/// Picks the address of the first device whose advertised name matches
/// `filter`, or of the first device when `filter` is empty.
pub fn select_device(devices: &Vec<Device>, filter: &String) -> (r: Option<String>)
    ensures
        r is Some <==> selected(devices@, filter@) is Some,
        r is Some ==> r->Some_0@ == selected(devices@, filter@)->Some_0,
{
    let any = filter.as_str().is_empty();
    let mut i: usize = 0;
    while i < devices.len()
        invariant
            i <= devices@.len(),
            any == (filter@.len() == 0),
            selected(devices@, filter@) == selected_from(devices@, filter@, i as int),
        decreases devices.len() - i,
    {
        let d = &devices[i];
        if any || d.name == *filter {
            return Some(d.address.clone());
        }
        i = i + 1;
    }
    None
}

/// A non-empty filter never resolves the address of a device advertised
/// under another name; an empty filter resolves the first device seen.
pub proof fn lemma_discovery_filter(devs: Seq<Device>, filter: Seq<char>)
    ensures
        filter.len() > 0 && selected(devs, filter) is Some ==> exists|i: int|
            0 <= i < devs.len() && #[trigger] devs[i].name@ == filter && devs[i].address@
                == selected(devs, filter)->Some_0,
        (filter.len() == 0 && devs.len() > 0 ==> selected(devs, filter) == Some(devs[0].address@)),
        (devs.len() == 0 ==> selected(devs, filter) is None),
{
    if filter.len() > 0 && selected(devs, filter) is Some {
        lemma_selected_from_matches(devs, filter, 0);
    }
}

/// A resolved address comes from a device at `i` or later that the filter
/// accepts.
proof fn lemma_selected_from_matches(devs: Seq<Device>, filter: Seq<char>, i: int)
    requires
        0 <= i,
        selected_from(devs, filter, i) is Some,
    ensures
        exists|j: int|
            i <= j < devs.len() && accepts(filter, #[trigger] devs[j].name@) && devs[j].address@
                == selected_from(devs, filter, i)->Some_0,
    decreases devs.len() - i,
{
    if !accepts(filter, devs[i].name@) {
        lemma_selected_from_matches(devs, filter, i + 1);
    }
}

} // verus!
