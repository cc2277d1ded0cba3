//! The table of devices reported by discovery, keyed by device address.

use vstd::prelude::*;
use crate::device::{BluetoothDevice, DeviceView};

verus! {

/// The map that a list of reports stands for: each address maps to the
/// descriptor of the earliest report that carries it.
pub open spec fn table_of(reports: Seq<BluetoothDevice>) -> Map<Seq<char>, DeviceView>
    decreases reports.len(),
{
    if reports.len() == 0 {
        Map::empty()
    } else {
        let earlier = table_of(reports.drop_last());
        let latest = reports.last()@;
        if earlier.contains_key(latest.address) {
            earlier
        } else {
            earlier.insert(latest.address, latest)
        }
    }
}

/// No two reports of the list carry the same address.
pub open spec fn distinct_addresses(reports: Seq<BluetoothDevice>) -> bool {
    forall|i: int, j: int|
        0 <= i < j < reports.len() ==> reports[i]@.address != reports[j]@.address
}

/// An address is a key of the table exactly when some report carries it, and
/// every key maps to a descriptor with that address.
pub proof fn lemma_table_keys(reports: Seq<BluetoothDevice>)
    ensures
        table_of(reports).dom().finite(),
        forall|a: Seq<char>|
            table_of(reports).contains_key(a) <==> exists|i: int|
                0 <= i < reports.len() && #[trigger] reports[i]@.address == a,
        forall|a: Seq<char>| #[trigger]
            table_of(reports).contains_key(a) ==> table_of(reports)[a].address == a,
    decreases reports.len(),
{
    if reports.len() > 0 {
        let front = reports.drop_last();
        lemma_table_keys(front);
        assert forall|a: Seq<char>| table_of(reports).contains_key(a) implies exists|i: int|
            0 <= i < reports.len() && #[trigger] reports[i]@.address == a by {
            if table_of(front).contains_key(a) {
                let i = choose|i: int| 0 <= i < front.len() && #[trigger] front[i]@.address == a;
                assert(reports[i]@.address == a);
            } else {
                assert(reports[reports.len() - 1]@.address == a);
            }
        }
        assert forall|a: Seq<char>|
            (exists|i: int| 0 <= i < reports.len() && #[trigger] reports[i]@.address == a)
            implies table_of(reports).contains_key(a) by {
            let i = choose|i: int| 0 <= i < reports.len() && #[trigger] reports[i]@.address == a;
            if i < front.len() {
                assert(front[i]@.address == a);
            }
        }
    }
}

/// In a list without repeated addresses every report is the one stored under
/// its address, and the table has one key per report.
pub proof fn lemma_table_of_distinct(reports: Seq<BluetoothDevice>)
    requires
        distinct_addresses(reports),
    ensures
        table_of(reports).len() == reports.len(),
        forall|i: int|
            0 <= i < reports.len() ==> table_of(reports)[#[trigger] reports[i]@.address]
                == reports[i]@,
    decreases reports.len(),
{
    if reports.len() > 0 {
        let front = reports.drop_last();
        let latest = reports.last()@;
        lemma_table_of_distinct(front);
        lemma_table_keys(front);
        if table_of(front).contains_key(latest.address) {
            let i = choose|i: int| 0 <= i < front.len() && #[trigger] front[i]@.address
                == latest.address;
            assert(reports[i]@.address == reports[reports.len() - 1]@.address);
        }
        assert forall|i: int| 0 <= i < reports.len() implies table_of(reports)[#[trigger] reports[i]@.address]
            == reports[i]@ by {
            if i < front.len() {
                assert(front[i] == reports[i]);
                assert(reports[i]@.address != reports[reports.len() - 1]@.address);
            }
        }
    }
}

/// Devices found by discovery. Each address occurs at most once; a later
/// report of a known address never replaces the stored descriptor.
pub struct DeviceTable {
    reports: Vec<BluetoothDevice>,
}

impl View for DeviceTable {
    type V = Map<Seq<char>, DeviceView>;

    closed spec fn view(&self) -> Map<Seq<char>, DeviceView> {
        table_of(self.reports@)
    }
}

impl DeviceTable {
    #[verifier::type_invariant]
    spec fn well_formed(self) -> bool {
        distinct_addresses(self.reports@)
    }

    /// Every key of the table is the address of the descriptor stored under it,
    /// and the table is finite.
    pub proof fn lemma_keyed_by_address(self)
        ensures
            self@.dom().finite(),
            forall|a: Seq<char>| #[trigger] self@.contains_key(a) ==> self@[a].address == a,
    {
        lemma_table_keys(self.reports@);
    }

    pub fn new() -> (table: Self)
        ensures
            table@ == Map::<Seq<char>, DeviceView>::empty(),
    {
        DeviceTable { reports: Vec::new() }
    }

    pub fn len(&self) -> (count: usize)
        ensures
            count == self@.len(),
    {
        proof {
            use_type_invariant(self);
            lemma_table_of_distinct(self.reports@);
        }
        self.reports.len()
    }

    pub fn is_empty(&self) -> (empty: bool)
        ensures
            empty == (self@ == Map::<Seq<char>, DeviceView>::empty()),
    {
        proof {
            use_type_invariant(self);
            lemma_table_of_distinct(self.reports@);
            lemma_table_keys(self.reports@);
            if self.reports@.len() == 0 {
                assert(self@ =~= Map::<Seq<char>, DeviceView>::empty());
            }
        }
        self.reports.len() == 0
    }

    /// The stored descriptor for `address`, if the table has one.
    pub fn get(&self, address: &String) -> (found: Option<&BluetoothDevice>)
        ensures
            found is Some <==> self@.contains_key(address@),
            found matches Some(device) ==> device@ == self@[address@],
    {
        let mut i: usize = 0;
        while i < self.reports.len()
            invariant
                i <= self.reports@.len(),
                forall|k: int| 0 <= k < i ==> self.reports@[k]@.address != address@,
            decreases self.reports@.len() - i,
        {
            if self.reports[i].address == *address {
                proof {
                    use_type_invariant(self);
                    lemma_table_of_distinct(self.reports@);
                    lemma_table_keys(self.reports@);
                    assert(self.reports@[i as int]@.address == address@);
                }
                return Some(&self.reports[i]);
            }
            i = i + 1;
        }
        proof {
            lemma_table_keys(self.reports@);
        }
        None
    }

    pub fn contains_key(&self, address: &String) -> (known: bool)
        ensures
            known == self@.contains_key(address@),
    {
        self.get(address).is_some()
    }

    /// Stores `device` under its address unless that address is already a key.
    /// Returns whether the table changed.
    pub fn insert_if_absent(&mut self, device: BluetoothDevice) -> (inserted: bool)
        ensures
            inserted == !old(self)@.contains_key(device@.address),
            final(self)@ == if inserted {
                old(self)@.insert(device@.address, device@)
            } else {
                old(self)@
            },
    {
        if self.contains_key(&device.address) {
            return false;
        }
        proof {
            use_type_invariant(&*self);
            lemma_table_keys(self.reports@);
        }
        let ghost before = self.reports@;
        let mut reports: Vec<BluetoothDevice> = Vec::new();
        std::mem::swap(&mut reports, &mut self.reports);
        reports.push(device);
        proof {
            assert(reports@.drop_last() == before);
            assert(distinct_addresses(reports@)) by {
                assert forall|i: int, j: int| 0 <= i < j < reports@.len() implies reports@[i]@.address
                    != reports@[j]@.address by {
                    if j == before.len() {
                        assert(before[i]@.address != device@.address);
                    } else {
                        assert(before[i]@.address != before[j]@.address);
                    }
                }
            }
        }
        self.reports = reports;
        true
    }

    /// Forgets every stored device.
    pub fn clear(&mut self)
        ensures
            final(self)@ == Map::<Seq<char>, DeviceView>::empty(),
    {
        self.reports = Vec::new();
    }

    /// The stored descriptors, one per address.
    pub fn devices(&self) -> (list: Vec<BluetoothDevice>)
        ensures
            distinct_addresses(list@),
            table_of(list@) == self@,
            list@.len() == self@.len(),
    {
        proof {
            use_type_invariant(self);
            lemma_table_of_distinct(self.reports@);
        }
        let mut list: Vec<BluetoothDevice> = Vec::new();
        let mut i: usize = 0;
        while i < self.reports.len()
            invariant
                i <= self.reports@.len(),
                list@ == self.reports@.take(i as int),
            decreases self.reports@.len() - i,
        {
            list.push(self.reports[i].clone());
            i = i + 1;
            assert(list@ == self.reports@.take(i as int));
        }
        assert(list@ == self.reports@);
        list
    }
}

} // verus!
