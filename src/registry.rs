//! The address-keyed registry of discovered peripheral handles.
use vstd::prelude::*;
use vstd::string::*;

verus! {

/// Handle of a peripheral object held by the transport driver.
pub type PeripheralHandle = u64;

/// One registered peripheral.
#[derive(Debug, Clone)]
pub struct RegistryEntry {
    pub address: String,
    pub handle: PeripheralHandle,
}

/// Map from device address to the handle of the peripheral found there.
/// Held as a vector of entries with unique addresses: vstd's specification
/// of `HashMap` proves nothing of lookups under `String` keys.
pub struct DeviceRegistry {
    entries: Vec<RegistryEntry>,
    map: Ghost<Map<Seq<char>, PeripheralHandle>>,
}

impl View for DeviceRegistry {
    type V = Map<Seq<char>, PeripheralHandle>;

    closed spec fn view(&self) -> Map<Seq<char>, PeripheralHandle> {
        self.map@
    }
}

impl DeviceRegistry {
    /// Addresses are unique among the entries, and the entries are exactly
    /// the pairs of the map.
    pub closed spec fn wf(&self) -> bool {
        &&& forall|i: int, j: int|
            0 <= i < j < self.entries@.len() ==> self.entries@[i].address@
                != self.entries@[j].address@
        &&& forall|i: int|
            0 <= i < self.entries@.len() ==> #[trigger] self.map@.contains_key(
                self.entries@[i].address@,
            ) && self.map@[self.entries@[i].address@] == self.entries@[i].handle
        &&& forall|k: Seq<char>|
            #[trigger] self.map@.contains_key(k) ==> exists|i: int|
                0 <= i < self.entries@.len() && self.entries@[i].address@ == k
    }

    pub fn new() -> (r: DeviceRegistry)
        ensures
            r.wf(),
            r@ == Map::<Seq<char>, PeripheralHandle>::empty(),
    {
        DeviceRegistry { entries: Vec::new(), map: Ghost(Map::empty()) }
    }

    /// Forgets every peripheral.
    pub fn clear(&mut self)
        ensures
            final(self).wf(),
            final(self)@ == Map::<Seq<char>, PeripheralHandle>::empty(),
    {
        self.entries.clear();
        self.map = Ghost(Map::empty());
    }

    fn position(&self, address: &str) -> (r: Option<usize>)
        requires
            self.wf(),
        ensures
            r matches Some(i) ==> i < self.entries@.len() && self.entries@[i as int].address@
                == address@,
            r is None ==> !self@.contains_key(address@),
    {
        let key = String::from_str(address);
        let mut i: usize = 0;
        while i < self.entries.len()
            invariant
                self.wf(),
                key@ == address@,
                i <= self.entries@.len(),
                forall|j: int| 0 <= j < i ==> self.entries@[j].address@ != address@,
            decreases self.entries@.len() - i,
        {
            if self.entries[i].address == key {
                return Some(i);
            }
            i = i + 1;
        }
        None
    }

    /// Records the peripheral found at `address`, replacing any earlier one.
    pub fn upsert(&mut self, address: String, handle: PeripheralHandle)
        requires
            old(self).wf(),
        ensures
            final(self).wf(),
            final(self)@ == old(self)@.insert(address@, handle),
    {
        let ghost key = address@;
        let ghost at: int;
        match self.position(address.as_str()) {
            Some(i) => {
                self.entries.set(i, RegistryEntry { address, handle });
                proof {
                    at = i as int;
                }
            },
            None => {
                self.entries.push(RegistryEntry { address, handle });
                proof {
                    at = self.entries@.len() - 1;
                }
            },
        }
        assert(self.entries@[at].address@ == key);
        self.map = Ghost(self.map@.insert(key, handle));
        assert forall|k: Seq<char>| #[trigger] self.map@.contains_key(k) implies exists|i: int|
            0 <= i < self.entries@.len() && self.entries@[i].address@ == k by {
            if k != key {
                assert(old(self)@.contains_key(k));
                let j = choose|j: int|
                    0 <= j < old(self).entries@.len() && old(self).entries@[j].address@ == k;
                assert(self.entries@[j].address@ == k);
            } else {
                assert(self.entries@[at].address@ == k);
            }
        }
    }

    /// The handle registered for `address`.
    pub fn get(&self, address: &str) -> (r: Option<PeripheralHandle>)
        requires
            self.wf(),
        ensures
            r == (if self@.contains_key(address@) {
                Some(self@[address@])
            } else {
                None
            }),
    {
        match self.position(address) {
            Some(i) => Some(self.entries[i].handle),
            None => None,
        }
    }

    /// Every registered handle.
    pub fn all(&self) -> (r: Vec<PeripheralHandle>)
        requires
            self.wf(),
        ensures
            forall|h: PeripheralHandle|
                r@.contains(h) <==> exists|k: Seq<char>|
                    #[trigger] self@.contains_key(k) && self@[k] == h,
    {
        let mut r: Vec<PeripheralHandle> = Vec::new();
        let mut i: usize = 0;
        while i < self.entries.len()
            invariant
                self.wf(),
                i <= self.entries@.len(),
                r@.len() == i,
                forall|j: int| 0 <= j < i ==> r@[j] == self.entries@[j].handle,
            decreases self.entries@.len() - i,
        {
            r.push(self.entries[i].handle);
            i = i + 1;
        }
        assert forall|h: PeripheralHandle| r@.contains(h) implies exists|k: Seq<char>|
            #[trigger] self@.contains_key(k) && self@[k] == h by {
            let j = choose|j: int| 0 <= j < r@.len() && r@[j] == h;
            assert(self@.contains_key(self.entries@[j].address@));
        }
        assert forall|h: PeripheralHandle|
            (exists|k: Seq<char>| #[trigger] self@.contains_key(k) && self@[k] == h) implies r@.contains(
            h) by {
            let k = choose|k: Seq<char>| #[trigger] self@.contains_key(k) && self@[k] == h;
            let j = choose|j: int| 0 <= j < self.entries@.len() && self.entries@[j].address@ == k;
            assert(self.map@.contains_key(self.entries@[j].address@));
            assert(r@[j] == h);
        }
        r
    }

    /// Whether no peripheral is registered.
    pub fn is_empty(&self) -> (r: bool)
        requires
            self.wf(),
        ensures
            r == (self@.dom() == Set::<Seq<char>>::empty()),
    {
        if self.entries.len() == 0 {
            assert(self@.dom() =~= Set::<Seq<char>>::empty());
            true
        } else {
            assert(self@.dom().contains(self.entries@[0].address@));
            false
        }
    }
}

} // verus!
