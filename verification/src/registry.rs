//! The device registry: serial identity to device, with add, remove,
//! lookup, list, and the by-identity composite operations.
//!
//! A [`DeviceManager`] is modelled as a finite map from serial (a character
//! sequence) to the device's mathematical content; every operation's
//! contract is stated over that map. Entries are kept in a vector whose
//! keys are pairwise distinct — the registry's well-formedness invariant —
//! so a serial denotes at most one device.

use vstd::prelude::*;

use crate::device::DeviceStatus;
use crate::device::DeviceView;
use crate::device::ProbeOutcome;
use crate::device::QrngDevice;
use crate::device::TransferOutcome;
use crate::error::QrngError;

verus! {

/// The map denoted by a prefix of the entry vector, built entry by entry;
/// a later entry for the same key would overwrite an earlier one.
pub open spec fn map_of(s: Seq<(String, QrngDevice)>) -> Map<Seq<char>, DeviceView>
    decreases s.len(),
{
    if s.len() == 0 {
        Map::empty()
    } else {
        map_of(s.drop_last()).insert(s.last().0@, s.last().1@)
    }
}

/// No two entries carry the same serial.
pub open spec fn unique_keys(s: Seq<(String, QrngDevice)>) -> bool {
    forall|i: int, j: int| 0 <= i < j < s.len() ==> s[i].0@ != s[j].0@
}

/// A key is in the map exactly when some entry carries it.
proof fn lemma_map_of_key(s: Seq<(String, QrngDevice)>, k: Seq<char>)
    ensures
        map_of(s).contains_key(k) <==> exists|i: int| 0 <= i < s.len() && s[i].0@ == k,
    decreases s.len(),
{
    if s.len() > 0 {
        lemma_map_of_key(s.drop_last(), k);
        if s.last().0@ == k {
            assert(s[s.len() - 1].0@ == k);
        } else {
            if exists|i: int| 0 <= i < s.len() && s[i].0@ == k {
                let i = choose|i: int| 0 <= i < s.len() && s[i].0@ == k;
                assert(s.drop_last()[i].0@ == k);
            }
            if exists|i: int| 0 <= i < s.drop_last().len() && s.drop_last()[i].0@ == k {
                let i = choose|i: int| 0 <= i < s.drop_last().len() && s.drop_last()[i].0@ == k;
                assert(s[i].0@ == k);
            }
        }
    }
}

/// Dropping the last entry keeps the keys pairwise distinct.
proof fn lemma_unique_drop_last(s: Seq<(String, QrngDevice)>)
    requires
        unique_keys(s),
        s.len() > 0,
    ensures
        unique_keys(s.drop_last()),
{
    assert forall|i: int, j: int|
        0 <= i < j < s.drop_last().len() implies s.drop_last()[i].0@ != s.drop_last()[j].0@ by {
        assert(s.drop_last()[i] == s[i]);
        assert(s.drop_last()[j] == s[j]);
    }
}

/// With distinct keys, the map sends each entry's serial to that entry's device.
proof fn lemma_map_of_index(s: Seq<(String, QrngDevice)>, i: int)
    requires
        unique_keys(s),
        0 <= i < s.len(),
    ensures
        map_of(s).contains_key(s[i].0@),
        map_of(s)[s[i].0@] == s[i].1@,
    decreases s.len(),
{
    if i < s.len() - 1 {
        lemma_unique_drop_last(s);
        lemma_map_of_index(s.drop_last(), i);
        assert(s.drop_last()[i] == s[i]);
        assert(s.last().0@ != s[i].0@);
    }
}

/// With distinct keys, removing the entry at `i` removes exactly its serial
/// from the map.
proof fn lemma_map_of_remove(s: Seq<(String, QrngDevice)>, i: int)
    requires
        unique_keys(s),
        0 <= i < s.len(),
    ensures
        map_of(s.remove(i)) == map_of(s).remove(s[i].0@),
    decreases s.len(),
{
    let k = s[i].0@;
    if i == s.len() - 1 {
        assert(s.remove(i) =~= s.drop_last());
        lemma_map_of_key(s.drop_last(), k);
        assert forall|j: int| 0 <= j < s.drop_last().len() implies s.drop_last()[j].0@ != k by {
            assert(s.drop_last()[j] == s[j]);
        }
        assert(!map_of(s.drop_last()).contains_key(k));
        assert(map_of(s.drop_last()).insert(k, s.last().1@).remove(k) =~= map_of(s.drop_last()));
    } else {
        let dl = s.drop_last();
        lemma_unique_drop_last(s);
        lemma_map_of_remove(dl, i);
        assert(dl[i] == s[i]);
        assert(s.remove(i).drop_last() =~= dl.remove(i));
        assert(s.remove(i).last() == s.last());
        assert(s.last().0@ != k);
        assert(map_of(dl).remove(k).insert(s.last().0@, s.last().1@) =~= map_of(dl).insert(
            s.last().0@,
            s.last().1@,
        ).remove(k));
    }
}

/// Removing an entry keeps the remaining keys pairwise distinct, and no
/// remaining entry carries the removed entry's serial.
proof fn lemma_unique_remove(s: Seq<(String, QrngDevice)>, i: int)
    requires
        unique_keys(s),
        0 <= i < s.len(),
    ensures
        unique_keys(s.remove(i)),
        forall|j: int| 0 <= j < s.remove(i).len() ==> s.remove(i)[j].0@ != s[i].0@,
{
    s.remove_ensures(i);
    assert forall|a: int, b: int|
        0 <= a < b < s.remove(i).len() implies s.remove(i)[a].0@ != s.remove(i)[b].0@ by {
        let sa: int = if a < i { a } else { a + 1 };
        let sb: int = if b < i { b } else { b + 1 };
        assert(s.remove(i)[a] == s[sa]);
        assert(s.remove(i)[b] == s[sb]);
    }
    assert forall|j: int| 0 <= j < s.remove(i).len() implies s.remove(i)[j].0@ != s[i].0@ by {
        let sj: int = if j < i { j } else { j + 1 };
        assert(s.remove(i)[j] == s[sj]);
    }
}

/// The registry of attached devices, keyed by their serial identity.
///
/// Entries appear by explicit registration after discovery and disappear by
/// explicit removal; there is no implicit eviction. The registry hands out
/// copies of its entries; a copy still denotes the same physical device, so
/// re-registering it under the same serial publishes its new protocol state.
pub struct DeviceManager {
    devices: Vec<(String, QrngDevice)>,
}

impl View for DeviceManager {
    type V = Map<Seq<char>, DeviceView>;

    closed spec fn view(&self) -> Map<Seq<char>, DeviceView> {
        map_of(self.devices@)
    }
}

impl DeviceManager {
    /// The registry's well-formedness: serials are pairwise distinct, so
    /// each one denotes at most one entry. Constructors establish it and
    /// every operation preserves it.
    pub closed spec fn wf(&self) -> bool {
        unique_keys(self.devices@)
    }

    /// An empty registry.
    pub fn new() -> (m: DeviceManager)
        ensures
            m.wf(),
            m@ == Map::<Seq<char>, DeviceView>::empty(),
    {
        DeviceManager { devices: Vec::new() }
    }

    /// Index of the entry carrying `serial`, if any.
    fn find(&self, serial: &String) -> (r: Option<usize>)
        ensures
            match r {
                Some(i) => i < self.devices@.len() && self.devices@[i as int].0@ == serial@,
                None => forall|j: int|
                    0 <= j < self.devices@.len() ==> self.devices@[j].0@ != serial@,
            },
    {
        let n = self.devices.len();
        for i in 0..n
            invariant
                n == self.devices@.len(),
                forall|j: int| 0 <= j < i ==> self.devices@[j].0@ != serial@,
        {
            if self.devices[i].0 == *serial {
                return Some(i);
            }
        }
        None
    }

    /// Registers `device` under `serial`, its identity as the runtime read
    /// it from the device. A failed identity read registers nothing and is
    /// reported as `UsbError`; otherwise the serial now maps to this device,
    /// a prior entry under the same serial is overwritten, and every other
    /// entry is untouched.
    pub fn add_device(&mut self, device: QrngDevice, serial: Result<String, String>) -> (r: Result<
        String,
        QrngError,
    >)
        requires
            old(self).wf(),
        ensures
            final(self).wf(),
            serial matches Ok(s) ==> {
                &&& final(self)@ == old(self)@.insert(s@, device@)
                &&& r == Ok::<String, QrngError>(s)
            },
            serial matches Err(e) ==> {
                &&& final(self)@ == old(self)@
                &&& r == Err::<String, QrngError>(QrngError::UsbError(e))
            },
    {
        let s = match serial {
            Ok(s) => s,
            Err(e) => {
                return Err(QrngError::UsbError(e));
            }
        };
        let ghost before = self.devices@;
        match self.find(&s) {
            Some(i) => {
                proof {
                    lemma_map_of_remove(before, i as int);
                    lemma_unique_remove(before, i as int);
                }
                self.devices.remove(i);
            }
            None => {
                proof {
                    lemma_map_of_key(before, s@);
                }
            }
        }
        let ghost mid = self.devices@;
        proof {
            assert(map_of(mid) == map_of(before).remove(s@) || (map_of(mid) == map_of(before)
                && !map_of(before).contains_key(s@)));
            assert(forall|j: int| 0 <= j < mid.len() ==> mid[j].0@ != s@);
        }
        let key = s.clone();
        self.devices.push((key, device));
        proof {
            assert(self.devices@.drop_last() =~= mid);
            assert(self.devices@.last().0@ == s@);
            assert(map_of(self.devices@) == map_of(mid).insert(s@, device@));
            assert(map_of(self.devices@) =~= map_of(before).insert(s@, device@));
            assert forall|a: int, b: int|
                0 <= a < b < self.devices@.len()
                    implies self.devices@[a].0@ != self.devices@[b].0@ by {
                if b < self.devices@.len() - 1 {
                    assert(self.devices@[a] == mid[a]);
                    assert(self.devices@[b] == mid[b]);
                } else {
                    assert(self.devices@[a] == mid[a]);
                }
            }
        }
        Ok(s)
    }

    /// Deletes the entry under `serial`. An absent serial is refused with
    /// `DeviceNotFound`; otherwise exactly that entry disappears.
    pub fn remove_device(&mut self, serial: &String) -> (r: Result<(), QrngError>)
        requires
            old(self).wf(),
        ensures
            final(self).wf(),
            old(self)@.contains_key(serial@) ==> {
                &&& final(self)@ == old(self)@.remove(serial@)
                &&& r is Ok
            },
            !old(self)@.contains_key(serial@) ==> {
                &&& final(self)@ == old(self)@
                &&& r matches Err(QrngError::DeviceNotFound(s)) && s@ == serial@
            },
    {
        proof {
            lemma_map_of_key(self.devices@, serial@);
        }
        match self.find(serial) {
            Some(i) => {
                proof {
                    lemma_map_of_remove(self.devices@, i as int);
                    lemma_unique_remove(self.devices@, i as int);
                }
                self.devices.remove(i);
                Ok(())
            }
            None => Err(QrngError::DeviceNotFound(serial.clone())),
        }
    }

    /// Looks up the device registered under `serial`. An absent serial is
    /// refused with `DeviceNotFound`; otherwise the result is a copy of the
    /// stored entry — the same physical device, whose identity the registry
    /// maps to exactly this content.
    pub fn get_device(&self, serial: &String) -> (r: Result<QrngDevice, QrngError>)
        requires
            self.wf(),
        ensures
            self@.contains_key(serial@) ==> {
                &&& r matches Ok(d)
                &&& d@ == self@[serial@]
            },
            !self@.contains_key(serial@) ==> {
                &&& r matches Err(QrngError::DeviceNotFound(s))
                &&& s@ == serial@
            },
    {
        proof {
            lemma_map_of_key(self.devices@, serial@);
        }
        match self.find(serial) {
            Some(i) => {
                proof {
                    lemma_map_of_index(self.devices@, i as int);
                }
                Ok(self.devices[i].1)
            }
            None => Err(QrngError::DeviceNotFound(serial.clone())),
        }
    }

    /// Re-arms the device registered under `serial` by applying the outcome
    /// of its initialize sequence. An absent serial is refused with
    /// `DeviceNotFound` and nothing else happens. Otherwise a successful
    /// sequence publishes the armed device under its serial, and a failed
    /// one is forwarded as `UsbError` with the registry untouched.
    pub fn initialize_device(&mut self, serial: &String, outcome: Result<(), String>) -> (r:
        Result<(), QrngError>)
        requires
            old(self).wf(),
        ensures
            final(self).wf(),
            !old(self)@.contains_key(serial@) ==> {
                &&& final(self)@ == old(self)@
                &&& r matches Err(QrngError::DeviceNotFound(s)) && s@ == serial@
            },
            old(self)@.contains_key(serial@) && outcome is Ok ==> {
                &&& final(self)@ == old(self)@.insert(
                    serial@,
                    (DeviceView { initialized: true, ..old(self)@[serial@] }),
                )
                &&& final(self)@[serial@].initialized
                &&& r is Ok
            },
            old(self)@.contains_key(serial@) ==> (outcome matches Err(e) ==> {
                &&& final(self)@ == old(self)@
                &&& r == Err::<(), QrngError>(QrngError::UsbError(e))
            }),
    {
        let mut device = match self.get_device(serial) {
            Ok(d) => d,
            Err(e) => {
                return Err(e);
            }
        };
        match device.initialize(outcome) {
            Ok(()) => {}
            Err(e) => {
                return Err(e);
            }
        }
        match self.add_device(device, Ok(serial.clone())) {
            Ok(_) => Ok(()),
            Err(e) => Err(e),
        }
    }

    /// Reads exactly `size` bytes of entropy from the device registered
    /// under `serial` by resolving the outcome of its bounded bulk transfer.
    /// An absent serial is refused with `DeviceNotFound`; past that the
    /// device decides as [`QrngDevice::read_entropy`] says. The registry
    /// and the device's protocol state never change.
    pub fn read_entropy(&self, serial: &String, size: usize, outcome: TransferOutcome) -> (r:
        Result<Vec<u8>, QrngError>)
        requires
            self.wf(),
            outcome matches TransferOutcome::Data(buf) ==> buf@.len() == size,
        ensures
            !self@.contains_key(serial@) ==> {
                &&& r matches Err(QrngError::DeviceNotFound(s))
                &&& s@ == serial@
            },
            self@.contains_key(serial@) ==> {
                &&& !self@[serial@].initialized ==> r == Err::<Vec<u8>, QrngError>(
                    QrngError::DeviceNotInitialized,
                )
                &&& self@[serial@].initialized && size == 0 ==> {
                    &&& r matches Err(QrngError::InvalidState(m))
                    &&& m@ == crate::device::invalid_size_message()
                }
                &&& self@[serial@].initialized && size > 0 ==> match outcome {
                    TransferOutcome::Data(buf) => r == Ok::<Vec<u8>, QrngError>(buf),
                    TransferOutcome::TransferFailed(e) => r == Err::<Vec<u8>, QrngError>(
                        QrngError::CommunicationError(e),
                    ),
                    TransferOutcome::OpenFailed(e) => r == Err::<Vec<u8>, QrngError>(
                        QrngError::UsbError(e),
                    ),
                }
            },
            r matches Ok(bytes) ==> {
                &&& bytes@.len() == size
                &&& size > 0
                &&& self@.contains_key(serial@)
                &&& self@[serial@].initialized
            },
    {
        match self.get_device(serial) {
            Ok(device) => device.read_entropy(size, outcome),
            Err(e) => Err(e),
        }
    }

    /// Reports the status snapshot of the device registered under `serial`
    /// by resolving the outcome of its status probe. An absent serial is
    /// refused with `DeviceNotFound`; past that the device decides as
    /// [`QrngDevice::status`] says — in particular, every snapshot reports
    /// the device's current protocol state, whether or not the probe
    /// transfer succeeded.
    pub fn get_device_status(&self, serial: &String, probe: ProbeOutcome) -> (r: Result<
        DeviceStatus,
        QrngError,
    >)
        requires
            self.wf(),
        ensures
            !self@.contains_key(serial@) ==> {
                &&& r matches Err(QrngError::DeviceNotFound(s))
                &&& s@ == serial@
            },
            self@.contains_key(serial@) ==> {
                &&& probe matches ProbeOutcome::OpenFailed(e) ==> r == Err::<
                    DeviceStatus,
                    QrngError,
                >(QrngError::UsbError(e))
                &&& probe matches ProbeOutcome::Sample(t, v) ==> r == Ok::<
                    DeviceStatus,
                    QrngError,
                >(
                    DeviceStatus {
                        initialized: self@[serial@].initialized,
                        temperature: t,
                        voltage_decivolts: v,
                    },
                )
                &&& probe is ProbeFailed ==> r == Ok::<DeviceStatus, QrngError>(
                    DeviceStatus {
                        initialized: self@[serial@].initialized,
                        temperature: 0,
                        voltage_decivolts: 0,
                    },
                )
                &&& r matches Ok(st) ==> st.initialized == self@[serial@].initialized
            },
    {
        match self.get_device(serial) {
            Ok(device) => device.status(probe),
            Err(e) => Err(e),
        }
    }

    /// A snapshot of the registered serials: one for each entry, each
    /// registered, in unspecified order.
    pub fn list_devices(&self) -> (r: Vec<String>)
        requires
            self.wf(),
        ensures
            r@.len() == self@.dom().len(),
            forall|i: int| 0 <= i < r@.len() ==> self@.contains_key(#[trigger] r@[i]@),
            forall|k: Seq<char>| self@.contains_key(k) ==> exists|i: int|
                0 <= i < r@.len() && r@[i]@ == k,
            forall|i: int, j: int| 0 <= i < j < r@.len() ==> r@[i]@ != r@[j]@,
    {
        let mut out: Vec<String> = Vec::new();
        let n = self.devices.len();
        proof {
            lemma_map_of_dom_len(self.devices@);
        }
        for i in 0..n
            invariant
                self.wf(),
                n == self.devices@.len(),
                out@.len() == i,
                forall|j: int| 0 <= j < i ==> out@[j]@ == self.devices@[j].0@,
        {
            out.push(self.devices[i].0.clone());
        }
        proof {
            assert forall|i: int| 0 <= i < out@.len() implies self@.contains_key(out@[i]@) by {
                lemma_map_of_key(self.devices@, out@[i]@);
            }
            assert forall|k: Seq<char>| self@.contains_key(k) implies exists|i: int|
                0 <= i < out@.len() && out@[i]@ == k by {
                lemma_map_of_key(self.devices@, k);
                let i = choose|i: int| 0 <= i < self.devices@.len() && self.devices@[i].0@ == k;
                assert(out@[i]@ == k);
            }
        }
        out
    }
}

/// Law: registering a device under a serial leaves that serial mapped to
/// exactly that device's content, and removing the serial afterwards leaves
/// it mapped to nothing — stated over the registry model that `add_device`,
/// `get_device` and `remove_device` are specified with, for every registry,
/// serial and device.
pub proof fn lemma_register_round_trip(
    m: Map<Seq<char>, DeviceView>,
    serial: Seq<char>,
    d: DeviceView,
)
    ensures
        m.insert(serial, d).contains_key(serial),
        m.insert(serial, d)[serial] == d,
        !m.insert(serial, d).remove(serial).contains_key(serial),
{
}

/// With distinct keys, the map has exactly one key per entry.
proof fn lemma_map_of_dom_len(s: Seq<(String, QrngDevice)>)
    requires
        unique_keys(s),
    ensures
        map_of(s).dom().len() == s.len(),
        map_of(s).dom().finite(),
    decreases s.len(),
{
    if s.len() > 0 {
        lemma_unique_drop_last(s);
        lemma_map_of_dom_len(s.drop_last());
        lemma_map_of_key(s.drop_last(), s.last().0@);
        assert forall|j: int|
            0 <= j < s.drop_last().len() implies s.drop_last()[j].0@ != s.last().0@ by {
            assert(s.drop_last()[j] == s[j]);
        }
        assert(!map_of(s.drop_last()).contains_key(s.last().0@));
        assert(map_of(s).dom() =~= map_of(s.drop_last()).dom().insert(s.last().0@));
    }
}

} // verus!
