//! The owned device list and its borrowed record views.
//!
//! The native enumeration call hands back a singly-linked sequence of device
//! records that it owns until the matching release. `DevicesList` is the safe
//! owner of those records decoded into plain values: it releases them exactly
//! once, when it is dropped, and every record view borrowed from it is tied
//! to its lifetime. Iteration is forward-only, restartable per call, and
//! yields each record exactly once.

use vstd::prelude::*;

verus! {

/// Information related to the installation of one enumerated USB device.
///
/// The description is always present; the native layer guarantees it. Every
/// other string is optional, and a missing sub-interface number or driver
/// version is stored as zero, the way the native record does.
pub struct DeviceInfo {
    /// Vendor ID.
    pub vid: u16,
    /// Product ID.
    pub pid: u16,
    /// Whether the device is a composite device.
    pub is_composite: bool,
    /// Sub-interface number; zero when absent.
    pub mi: u8,
    /// Version of the driver currently in use; zero when absent.
    pub driver_version: u64,
    /// Human-readable device description.
    pub desc: String,
    /// Name of the driver currently in use, when one is installed.
    pub driver: Option<String>,
    /// Device instance ID.
    pub device_id: Option<String>,
    /// Hardware ID.
    pub hardware_id: Option<String>,
    /// Compatible ID.
    pub compatible_id: Option<String>,
    /// Upper filter name.
    pub upper_filter: Option<String>,
}

impl DeviceInfo {
    /// Vendor ID.
    pub fn vid(&self) -> (r: u16)
        ensures
            r == self.vid,
    {
        self.vid
    }

    /// Product ID.
    pub fn pid(&self) -> (r: u16)
        ensures
            r == self.pid,
    {
        self.pid
    }

    /// Whether the device is a composite device.
    pub fn is_composite(&self) -> (r: bool)
        ensures
            r == self.is_composite,
    {
        self.is_composite
    }

    /// Sub-interface number, absent when the record stores zero.
    pub fn mi(&self) -> (r: Option<u8>)
        ensures
            r is Some <==> self.mi != 0,
            r matches Some(v) ==> v == self.mi,
    {
        if self.mi != 0 {
            Some(self.mi)
        } else {
            None
        }
    }

    /// Version of the driver currently in use, absent when the record stores
    /// zero.
    pub fn driver_version(&self) -> (r: Option<u64>)
        ensures
            r is Some <==> self.driver_version != 0,
            r matches Some(v) ==> v == self.driver_version,
    {
        if self.driver_version != 0 {
            Some(self.driver_version)
        } else {
            None
        }
    }

    /// Human-readable device description.
    pub fn desc(&self) -> (r: &str)
        ensures
            r@ == self.desc@,
    {
        self.desc.as_str()
    }

    /// Name of the driver currently in use, if any.
    pub fn driver(&self) -> (r: Option<&str>)
        ensures
            r is Some <==> self.driver is Some,
            r matches Some(s) ==> self.driver matches Some(d) && s@ == d@,
    {
        match &self.driver {
            Some(s) => Some(s.as_str()),
            None => None,
        }
    }

    /// Device instance ID, if present.
    pub fn device_id(&self) -> (r: Option<&str>)
        ensures
            r is Some <==> self.device_id is Some,
            r matches Some(s) ==> self.device_id matches Some(d) && s@ == d@,
    {
        match &self.device_id {
            Some(s) => Some(s.as_str()),
            None => None,
        }
    }

    /// Hardware ID, if present.
    pub fn hardware_id(&self) -> (r: Option<&str>)
        ensures
            r is Some <==> self.hardware_id is Some,
            r matches Some(s) ==> self.hardware_id matches Some(d) && s@ == d@,
    {
        match &self.hardware_id {
            Some(s) => Some(s.as_str()),
            None => None,
        }
    }

    /// Compatible ID, if present.
    pub fn compatible_id(&self) -> (r: Option<&str>)
        ensures
            r is Some <==> self.compatible_id is Some,
            r matches Some(s) ==> self.compatible_id matches Some(d) && s@ == d@,
    {
        match &self.compatible_id {
            Some(s) => Some(s.as_str()),
            None => None,
        }
    }

    /// Upper filter name, if present.
    pub fn upper_filter(&self) -> (r: Option<&str>)
        ensures
            r is Some <==> self.upper_filter is Some,
            r matches Some(s) ==> self.upper_filter matches Some(d) && s@ == d@,
    {
        match &self.upper_filter {
            Some(s) => Some(s.as_str()),
            None => None,
        }
    }
}

/// List of information about the USB devices one enumeration call found.
///
/// The list owns its records: they live exactly as long as it does and are
/// released together with it, once, when it is dropped. Views of single
/// records are borrowed from the list and cannot outlive it.
pub struct DevicesList {
    devices: Vec<DeviceInfo>,
}

impl View for DevicesList {
    type V = Seq<DeviceInfo>;

    closed spec fn view(&self) -> Seq<DeviceInfo> {
        self.devices@
    }
}

impl DevicesList {
    /// Takes ownership of the decoded records of one enumeration call.
    pub(crate) fn from_devices(devices: Vec<DeviceInfo>) -> (r: DevicesList)
        ensures
            r@ == devices@,
    {
        DevicesList { devices }
    }

    /// Number of devices in the list.
    pub fn len(&self) -> (r: usize)
        ensures
            r == self@.len(),
    {
        self.devices.len()
    }

    /// Whether the enumeration found no device.
    pub fn is_empty(&self) -> (r: bool)
        ensures
            r == (self@.len() == 0),
    {
        self.devices.len() == 0
    }

    /// A fresh forward-only iterator over the records, starting at the head.
    ///
    /// Each call walks the unchanged list from its head again, so two
    /// iterators taken one after the other yield identical sequences.
    pub fn iter(&self) -> (it: DevicesIter)
        ensures
            it.devices() == self@,
            it.pos() == 0,
    {
        DevicesIter { list: self, pos: 0 }
    }

    /// The first device of the list, or nothing when the list is empty.
    ///
    /// An empty enumeration is a valid outcome, not an error: there is then
    /// no candidate device to prepare a driver for.
    pub fn first(&self) -> (r: Option<&DeviceInfo>)
        ensures
            r is Some <==> self@.len() > 0,
            r matches Some(d) ==> *d == self@[0],
    {
        if self.devices.len() > 0 {
            Some(&self.devices[0])
        } else {
            None
        }
    }
}

/// The record an iterator standing at position `pos` of `devices` yields
/// next: the record at that position, or nothing once past the end.
pub open spec fn yielded_at(devices: Seq<DeviceInfo>, pos: int) -> Option<DeviceInfo> {
    if 0 <= pos < devices.len() {
        Some(devices[pos])
    } else {
        None
    }
}

/// Forward-only iterator over the records of a [`DevicesList`].
pub struct DevicesIter<'a> {
    list: &'a DevicesList,
    pos: usize,
}

impl<'a> DevicesIter<'a> {
    /// The records the iterator walks.
    pub closed spec fn devices(&self) -> Seq<DeviceInfo> {
        self.list@
    }

    /// How many records have been yielded so far.
    pub closed spec fn pos(&self) -> int {
        self.pos as int
    }

    /// How many records are still to come.
    pub open spec fn remaining(&self) -> int {
        if self.pos() <= self.devices().len() {
            self.devices().len() - self.pos()
        } else {
            0
        }
    }

    /// Yields a view of the next record, or nothing once every record has
    /// been yielded. The record it yields is determined by the list contents
    /// and the position alone.
    pub fn next(&mut self) -> (r: Option<&'a DeviceInfo>)
        ensures
            final(self).devices() == old(self).devices(),
            yielded_at(old(self).devices(), old(self).pos()) matches Some(d) ==> ({
                &&& r matches Some(rd) && *rd == d
                &&& final(self).pos() == old(self).pos() + 1
            }),
            yielded_at(old(self).devices(), old(self).pos()) is None ==> r is None
                && final(self).pos() == old(self).pos(),
    {
        if self.pos < self.list.devices.len() {
            let d = &self.list.devices[self.pos];
            self.pos += 1;
            Some(d)
        } else {
            None
        }
    }

    /// Consumes the iterator and collects a view of every record still to
    /// come, in order. The collected sequence is determined by the list
    /// contents and the position alone: a fresh pass over a list of length N
    /// collects exactly the N records of the list.
    pub fn collect(self) -> (v: Vec<&'a DeviceInfo>)
        ensures
            v@.len() == self.remaining(),
            forall|i: int| 0 <= i < v@.len() ==> *v@[i] == self.devices()[self.pos() + i],
    {
        let mut it = DevicesIter { list: self.list, pos: self.pos };
        let mut v: Vec<&'a DeviceInfo> = Vec::new();
        loop
            invariant
                it.devices() == self.devices(),
                self.pos() <= it.pos(),
                v@.len() == it.pos() - self.pos(),
                forall|i: int| 0 <= i < v@.len() ==> *v@[i] == self.devices()[self.pos() + i],
                it.pos() <= it.devices().len() || it.pos() == self.pos(),
            decreases it.devices().len() - it.pos() + 1,
        {
            match it.next() {
                Some(d) => {
                    v.push(d);
                },
                None => {
                    return v;
                },
            }
        }
    }

    /// Consumes the iterator and counts what was still to come: a full pass
    /// over a list of length N yields exactly N records and then stops.
    pub fn count(self) -> (n: usize)
        ensures
            n == self.remaining(),
    {
        let mut it = DevicesIter { list: self.list, pos: self.pos };
        let mut n: usize = 0;
        loop
            invariant
                it.devices() == self.devices(),
                self.pos() <= it.pos(),
                n == it.pos() - self.pos(),
                it.pos() <= it.devices().len() || it.pos() == self.pos(),
            decreases it.devices().len() - it.pos() + 1,
        {
            match it.next() {
                Some(_) => {
                    n += 1;
                },
                None => {
                    return n;
                },
            }
        }
    }
}

/// Law: what an iterator yields next is a function of the list contents and
/// the position alone. Two passes over the same list with no change between
/// them therefore yield the same number of records with the same field
/// values, in the same order.
pub proof fn lemma_iteration_repeatable(a: DevicesIter, b: DevicesIter)
    requires
        a.devices() == b.devices(),
        a.pos() == b.pos(),
    ensures
        yielded_at(a.devices(), a.pos()) == yielded_at(b.devices(), b.pos()),
{
}

} // verus!
