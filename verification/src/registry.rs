//! The device registry: which devices have been seen, in the order in which each was
//! seen first, and the uptime that each reported last.

use vstd::prelude::*;

verus! {

/// A device: its identifier and the uptime in milliseconds that it reported last.
#[derive(Debug)]
pub struct Device {
    pub name: String,
    pub uptime: u32,
}

/// What a [`Device`] holds, as plain values.
pub struct DeviceRecord {
    pub name: Seq<char>,
    pub uptime: u32,
}

impl View for Device {
    type V = DeviceRecord;

    open spec fn view(&self) -> DeviceRecord {
        DeviceRecord { name: self.name@, uptime: self.uptime }
    }
}

/// What a heartbeat was to the registry.
#[derive(Clone, Copy, Debug, PartialEq, Eq, Structural)]
pub enum SightingKind {
    /// The device was not known: an entry was added for it.
    FirstSighting,
    /// The device was known: the uptime of its entry was overwritten.
    Update,
}

/// The position of the first entry for `name`, or the number of entries where there
/// is none.
pub open spec fn position(entries: Seq<DeviceRecord>, name: Seq<char>) -> int
    decreases entries.len(),
{
    if entries.len() == 0 || entries.first().name == name {
        0
    } else {
        1 + position(entries.drop_first(), name)
    }
}

/// Whether there is an entry for `name`.
pub open spec fn knows(entries: Seq<DeviceRecord>, name: Seq<char>) -> bool {
    exists|i: int| 0 <= i < entries.len() && (#[trigger] entries[i]).name == name
}

/// Whether no two entries are for the same identifier.
pub open spec fn distinct_names(entries: Seq<DeviceRecord>) -> bool {
    forall|i: int, j: int|
        0 <= i < j < entries.len() ==> (#[trigger] entries[i]).name != (#[trigger] entries[j]).name
}

/// The identifiers of the entries, in their order.
pub open spec fn names(entries: Seq<DeviceRecord>) -> Seq<Seq<char>> {
    Seq::new(entries.len(), |i: int| entries[i].name)
}

/// The uptime stored for `name`, where there is an entry for it.
pub open spec fn uptime_in(entries: Seq<DeviceRecord>, name: Seq<char>) -> Option<u32> {
    if knows(entries, name) {
        Some(entries[position(entries, name)].uptime)
    } else {
        None
    }
}

/// What a heartbeat of `name` is to a registry that holds `entries`.
pub open spec fn sighting(entries: Seq<DeviceRecord>, name: Seq<char>) -> SightingKind {
    if knows(entries, name) {
        SightingKind::Update
    } else {
        SightingKind::FirstSighting
    }
}

/// The entries after a heartbeat of `name` with `uptime`: the entry for `name` holds
/// `uptime` and stays where it is; where there was none, one is added at the end.
pub open spec fn observed(entries: Seq<DeviceRecord>, name: Seq<char>, uptime: u32) -> Seq<
    DeviceRecord,
> {
    if knows(entries, name) {
        Seq::new(
            entries.len(),
            |i: int|
                if entries[i].name == name {
                    DeviceRecord { name, uptime }
                } else {
                    entries[i]
                },
        )
    } else {
        entries.push(DeviceRecord { name, uptime })
    }
}

/// `position` is the index of the first entry for `name`, or the number of entries
/// where there is none.
pub proof fn lemma_position(entries: Seq<DeviceRecord>, name: Seq<char>)
    ensures
        0 <= position(entries, name) <= entries.len(),
        position(entries, name) < entries.len() <==> knows(entries, name),
        position(entries, name) < entries.len() ==> entries[position(entries, name)].name == name,
        forall|i: int| 0 <= i < position(entries, name) ==> (#[trigger] entries[i]).name != name,
    decreases entries.len(),
{
    if entries.len() == 0 {
    } else if entries.first().name == name {
        assert(entries[0].name == name);
    } else {
        let rest = entries.drop_first();
        lemma_position(rest, name);
        let k = position(rest, name);
        assert forall|i: int| 0 <= i < k + 1 implies (#[trigger] entries[i]).name != name by {
            if i > 0 {
                assert(rest[i - 1] == entries[i]);
            }
        }
        if k < rest.len() {
            assert(entries[k + 1] == rest[k]);
        }
        if knows(entries, name) {
            let i = choose|i: int| 0 <= i < entries.len() && (#[trigger] entries[i]).name == name;
            assert(rest[i - 1].name == name);
        }
    }
}

/// Where the entries of two registries have the same identifiers, each identifier
/// is found at the same position in both.
pub proof fn lemma_position_by_names(a: Seq<DeviceRecord>, b: Seq<DeviceRecord>, name: Seq<char>)
    requires
        names(a) == names(b),
    ensures
        position(a, name) == position(b, name),
        knows(a, name) <==> knows(b, name),
    decreases a.len(),
{
    assert(a.len() == names(a).len());
    assert(b.len() == names(b).len());
    assert forall|i: int| 0 <= i < a.len() implies (#[trigger] a[i]).name == b[i].name by {
        assert(names(a)[i] == names(b)[i]);
    }
    if a.len() > 0 && a.first().name != name {
        assert(a[0].name == b[0].name);
        assert(names(a.drop_first()) =~= names(b.drop_first())) by {
            assert forall|i: int| 0 <= i < a.len() - 1 implies names(a.drop_first())[i] == names(
                b.drop_first(),
            )[i] by {
                assert(a[i + 1].name == b[i + 1].name);
            }
        }
        lemma_position_by_names(a.drop_first(), b.drop_first(), name);
    } else if a.len() > 0 {
        assert(a[0].name == b[0].name);
    }
    lemma_position(a, name);
    lemma_position(b, name);
}

/// Where an identifier is found once an entry has been added at the end.
pub proof fn lemma_position_push(entries: Seq<DeviceRecord>, added: DeviceRecord, name: Seq<char>)
    ensures
        position(entries.push(added), name) == if knows(entries, name) {
            position(entries, name)
        } else if added.name == name {
            entries.len() as int
        } else {
            entries.len() as int + 1
        },
    decreases entries.len(),
{
    let longer = entries.push(added);
    lemma_position(entries, name);
    if entries.len() == 0 {
        assert(longer.first() == added);
        assert(longer.drop_first() =~= Seq::<DeviceRecord>::empty());
        assert(position(longer.drop_first(), name) == 0);
    } else {
        assert(longer.first() == entries.first());
        if entries.first().name == name {
            assert(entries[0].name == name);
        } else {
            let rest = entries.drop_first();
            assert(longer.drop_first() =~= rest.push(added));
            lemma_position_push(rest, added, name);
            lemma_position(rest, name);
        }
    }
}

/// What a registry knows and holds after a heartbeat: the device of the heartbeat is
/// known and has the new uptime; every other identifier is known as before, with
/// the uptime it had; and no known identifier has moved.
pub proof fn lemma_observed_lookup(
    entries: Seq<DeviceRecord>,
    name: Seq<char>,
    uptime: u32,
    other: Seq<char>,
)
    ensures
        knows(observed(entries, name, uptime), other) <==> (knows(entries, other) || other == name),
        uptime_in(observed(entries, name, uptime), other) == if other == name {
            Some(uptime)
        } else {
            uptime_in(entries, other)
        },
        knows(entries, other) ==> position(observed(entries, name, uptime), other) == position(
            entries,
            other,
        ),
        !knows(entries, name) ==> position(observed(entries, name, uptime), name) == entries.len(),
{
    let after = observed(entries, name, uptime);
    lemma_position(entries, other);
    lemma_position(after, other);
    if knows(entries, name) {
        assert(names(after) =~= names(entries));
        lemma_position_by_names(after, entries, other);
    } else {
        let added = DeviceRecord { name, uptime };
        lemma_position_push(entries, added, other);
        lemma_position_push(entries, added, name);
        if other == name {
            assert(after[entries.len() as int].name == other);
        } else if knows(entries, other) {
            assert(after[position(entries, other)].name == other);
        }
    }
}

/// A heartbeat leaves the order of the devices as it was: the identifiers of a known
/// device's registry are unchanged, and a new device comes after all others. No
/// identifier gets a second entry.
pub proof fn lemma_observe_keeps_order(entries: Seq<DeviceRecord>, name: Seq<char>, uptime: u32)
    ensures
        names(observed(entries, name, uptime)) == if knows(entries, name) {
            names(entries)
        } else {
            names(entries).push(name)
        },
        distinct_names(entries) ==> distinct_names(observed(entries, name, uptime)),
{
    let after = observed(entries, name, uptime);
    if knows(entries, name) {
        assert(names(after) =~= names(entries));
        if distinct_names(entries) {
            assert forall|i: int, j: int| 0 <= i < j < after.len() implies (#[trigger] after[i]).name
                != (#[trigger] after[j]).name by {
                assert(entries[i].name != entries[j].name);
            }
        }
    } else {
        assert(names(after) =~= names(entries).push(name));
        if distinct_names(entries) {
            assert forall|i: int, j: int| 0 <= i < j < after.len() implies (#[trigger] after[i]).name
                != (#[trigger] after[j]).name by {
                if j < entries.len() {
                    assert(entries[i].name != entries[j].name);
                } else {
                    assert(entries[i].name != name);
                }
            }
        }
    }
}

/// The same heartbeat twice: to a registry that does not know the device, the first
/// is a first sighting and the second an update; the second changes nothing, and
/// the uptime stored is the one reported.
pub proof fn lemma_observe_twice(entries: Seq<DeviceRecord>, name: Seq<char>, uptime: u32)
    requires
        !knows(entries, name),
    ensures
        sighting(entries, name) == SightingKind::FirstSighting,
        sighting(observed(entries, name, uptime), name) == SightingKind::Update,
        observed(observed(entries, name, uptime), name, uptime) == observed(entries, name, uptime),
        uptime_in(observed(observed(entries, name, uptime), name, uptime), name) == Some(uptime),
{
    lemma_observe_again(entries, name, uptime, uptime);
}

/// Two heartbeats of one device in a row, to any registry: the second is an update,
/// the registry is as if only the second had come where the device was known
/// before, and the uptime stored is the one reported last.
pub proof fn lemma_observe_again(
    entries: Seq<DeviceRecord>,
    name: Seq<char>,
    first: u32,
    second: u32,
)
    ensures
        sighting(observed(entries, name, first), name) == SightingKind::Update,
        observed(observed(entries, name, first), name, second) == observed(entries, name, second),
        uptime_in(observed(observed(entries, name, first), name, second), name) == Some(second),
{
    let once = observed(entries, name, first);
    let twice = observed(once, name, second);
    lemma_observed_lookup(entries, name, first, name);
    lemma_observed_lookup(once, name, second, name);
    assert(twice =~= observed(entries, name, second));
}

/// The entries after a run of heartbeats, each taken note of in turn.
pub open spec fn observed_all(entries: Seq<DeviceRecord>, heartbeats: Seq<DeviceRecord>) -> Seq<
    DeviceRecord,
>
    decreases heartbeats.len(),
{
    if heartbeats.len() == 0 {
        entries
    } else {
        let last = heartbeats.last();
        observed(observed_all(entries, heartbeats.drop_last()), last.name, last.uptime)
    }
}

/// The uptime that the last heartbeat of `name` in a run reported, where the run
/// holds one.
pub open spec fn latest_uptime(heartbeats: Seq<DeviceRecord>, name: Seq<char>) -> Option<u32>
    decreases heartbeats.len(),
{
    if heartbeats.len() == 0 {
        None
    } else if heartbeats.last().name == name {
        Some(heartbeats.last().uptime)
    } else {
        latest_uptime(heartbeats.drop_last(), name)
    }
}

/// However many heartbeats follow, the devices known before them keep their places:
/// their identifiers are the first of the identifiers afterwards, in the same order.
pub proof fn lemma_known_devices_stay_first(
    entries: Seq<DeviceRecord>,
    heartbeats: Seq<DeviceRecord>,
)
    ensures
        names(entries).is_prefix_of(names(observed_all(entries, heartbeats))),
    decreases heartbeats.len(),
{
    if heartbeats.len() > 0 {
        let last = heartbeats.last();
        let before = observed_all(entries, heartbeats.drop_last());
        lemma_known_devices_stay_first(entries, heartbeats.drop_last());
        lemma_observe_keeps_order(before, last.name, last.uptime);
    }
}

/// A registry that starts empty and takes note of a run of heartbeats holds one entry
/// for each device heard, the devices stand in the order in which each was heard
/// first, whatever updates came in between, and each has the uptime it reported
/// last.
pub proof fn lemma_first_sightings_in_order(heartbeats: Seq<DeviceRecord>)
    ensures
        distinct_names(observed_all(Seq::empty(), heartbeats)),
        forall|name: Seq<char>|
            knows(observed_all(Seq::empty(), heartbeats), name) <==> knows(heartbeats, name),
        forall|name: Seq<char>|
            uptime_in(observed_all(Seq::empty(), heartbeats), name) == latest_uptime(
                heartbeats,
                name,
            ),
        forall|i: int, j: int|
            #![trigger observed_all(Seq::empty(), heartbeats)[i], observed_all(Seq::empty(), heartbeats)[j]]
            0 <= i < j < observed_all(Seq::empty(), heartbeats).len() ==> position(
                heartbeats,
                observed_all(Seq::empty(), heartbeats)[i].name,
            ) < position(heartbeats, observed_all(Seq::empty(), heartbeats)[j].name),
    decreases heartbeats.len(),
{
    let registry = observed_all(Seq::empty(), heartbeats);
    if heartbeats.len() == 0 {
        assert forall|name: Seq<char>| !knows(heartbeats, name) by {}
    } else {
        let earlier = heartbeats.drop_last();
        let last = heartbeats.last();
        let before = observed_all(Seq::empty(), earlier);
        lemma_first_sightings_in_order(earlier);
        lemma_observe_keeps_order(before, last.name, last.uptime);
        assert(heartbeats =~= earlier.push(last));
        assert forall|name: Seq<char>| knows(registry, name) <==> knows(heartbeats, name) by {
            lemma_observed_lookup(before, last.name, last.uptime, name);
            lemma_position(earlier, name);
            lemma_position(heartbeats, name);
            lemma_position_push(earlier, last, name);
        }
        assert forall|name: Seq<char>| uptime_in(registry, name) == latest_uptime(
            heartbeats,
            name,
        ) by {
            lemma_observed_lookup(before, last.name, last.uptime, name);
            assert(uptime_in(before, name) == latest_uptime(earlier, name));
        }
        assert forall|i: int, j: int| 0 <= i < j < registry.len() implies position(
            heartbeats,
            (#[trigger] registry[i]).name,
        ) < position(heartbeats, (#[trigger] registry[j]).name) by {
            let a = registry[i].name;
            let b = registry[j].name;
            lemma_position_push(earlier, last, a);
            lemma_position_push(earlier, last, b);
            lemma_position(earlier, a);
            lemma_position(earlier, b);
            assert(names(registry)[i] == a && names(registry)[j] == b);
            if knows(before, last.name) {
                assert(names(before)[i] == a && names(before)[j] == b);
                assert(before[i].name == a && before[j].name == b);
            } else {
                assert(before[i].name == a);
                if j < before.len() {
                    assert(before[j].name == b);
                } else {
                    assert(b == last.name);
                }
            }
        }
    }
}

/// The devices seen so far. No identifier has two entries, and the entries stand in the
/// order in which their devices were seen first.
pub struct DeviceRegistry {
    devices: Vec<Device>,
}

impl View for DeviceRegistry {
    type V = Seq<DeviceRecord>;

    closed spec fn view(&self) -> Seq<DeviceRecord> {
        Seq::new(self.devices@.len(), |i: int| self.devices@[i]@)
    }
}

impl DeviceRegistry {
    #[verifier::type_invariant]
    spec fn well_formed(self) -> bool {
        distinct_names(self@)
    }

    /// A registry without entries.
    pub fn new() -> (registry: Self)
        ensures
            registry@ == Seq::<DeviceRecord>::empty(),
    {
        let registry = DeviceRegistry { devices: Vec::new() };
        assert(registry@ =~= Seq::<DeviceRecord>::empty());
        registry
    }

    /// The number of devices seen so far.
    pub fn len(&self) -> (n: usize)
        ensures
            n == self@.len(),
    {
        self.devices.len()
    }

    /// Whether no device has been seen.
    pub fn is_empty(&self) -> (empty: bool)
        ensures
            empty == (self@.len() == 0),
    {
        self.devices.len() == 0
    }

    /// The entry at `index`, counted in the order of first sightings.
    pub fn get(&self, index: usize) -> (device: Option<&Device>)
        ensures
            (match device {
                Some(d) => index < self@.len() && d@ == self@[index as int],
                None => index >= self@.len(),
            }),
    {
        if index < self.devices.len() {
            Some(&self.devices[index])
        } else {
            None
        }
    }

    /// The index of the entry for `device_id`, looked up by exact match.
    fn find(&self, name: &String) -> (found: Option<usize>)
        ensures
            (match found {
                Some(i) => {
                    &&& i < self@.len()
                    &&& i == position(self@, name@)
                    &&& self@[i as int].name == name@
                    &&& knows(self@, name@)
                },
                None => !knows(self@, name@),
            }),
    {
        let n: usize = self.devices.len();
        let mut i: usize = 0;
        while i < n
            invariant
                n == self@.len(),
                n == self.devices@.len(),
                i <= n,
                forall|k: int| 0 <= k < i ==> (#[trigger] self@[k]).name != name@,
            decreases n - i,
        {
            if self.devices[i].name == *name {
                proof {
                    assert(self@[i as int].name == name@);
                    lemma_position(self@, name@);
                }
                return Some(i);
            }
            i += 1;
        }
        None
    }

    /// Whether `device_id` has been seen.
    pub fn contains(&self, device_id: &str) -> (known: bool)
        ensures
            known == knows(self@, device_id@),
    {
        let name = device_id.to_owned();
        self.find(&name).is_some()
    }

    /// The uptime that `device_id` reported last, where it has been seen.
    pub fn uptime_of(&self, device_id: &str) -> (uptime: Option<u32>)
        ensures
            uptime == uptime_in(self@, device_id@),
    {
        let name = device_id.to_owned();
        match self.find(&name) {
            Some(i) => Some(self.devices[i].uptime),
            None => None,
        }
    }

    /// The identifiers of the devices seen so far, in the order of first sightings.
    pub fn device_names(&self) -> (ids: Vec<String>)
        ensures
            ids@.len() == self@.len(),
            forall|i: int| 0 <= i < ids@.len() ==> (#[trigger] ids@[i])@ == self@[i].name,
    {
        let n: usize = self.devices.len();
        let mut ids: Vec<String> = Vec::new();
        let mut i: usize = 0;
        while i < n
            invariant
                n == self@.len(),
                n == self.devices@.len(),
                i <= n,
                ids@.len() == i,
                forall|k: int| 0 <= k < i ==> (#[trigger] ids@[k])@ == self@[k].name,
            decreases n - i,
        {
            ids.push(self.devices[i].name.clone());
            i += 1;
        }
        ids
    }

    /// Takes note of a heartbeat of `device_id` that reports `uptime`. A device seen
    /// for the first time gets an entry after all others; a known one keeps its place
    /// and has its uptime overwritten.
    pub fn observe(&mut self, device_id: &str, uptime: u32) -> (kind: SightingKind)
        ensures
            kind == sighting(old(self)@, device_id@),
            final(self)@ == observed(old(self)@, device_id@, uptime),
            distinct_names(old(self)@),
            distinct_names(final(self)@),
    {
        proof {
            use_type_invariant(&*self);
        }
        let name = device_id.to_owned();
        let found = self.find(&name);
        let mut devices: Vec<Device> = Vec::new();
        std::mem::swap(&mut devices, &mut self.devices);
        let ghost before = Seq::new(devices@.len(), |i: int| devices@[i]@);
        assert(before == old(self)@);
        match found {
            Some(i) => {
                devices.set(i, Device { name, uptime });
                let ghost after = Seq::new(devices@.len(), |i: int| devices@[i]@);
                assert forall|k: int| 0 <= k < before.len() && k != i implies (#[trigger] before[k]).name
                    != device_id@ by {
                    if k < i {
                        assert(before[k].name != before[i as int].name);
                    } else {
                        assert(before[i as int].name != before[k].name);
                    }
                }
                assert(after =~= observed(before, device_id@, uptime));
                self.devices = devices;
                SightingKind::Update
            },
            None => {
                devices.push(Device { name, uptime });
                let ghost after = Seq::new(devices@.len(), |i: int| devices@[i]@);
                assert(after =~= observed(before, device_id@, uptime));
                self.devices = devices;
                SightingKind::FirstSighting
            },
        }
    }
}

} // verus!
