//! The device registry: the configured device targets and the rules that
//! govern the stored list (bounded size, lookup, replace, remove).
//!
//! Persistence of the list is a collaborator outside the library; the
//! list manipulation itself is verified here.

use vstd::prelude::*;

verus! {

/// Most device targets the registry may hold.
pub const MAX_DEVICES: usize = 6;

/// One configured access-control device.
pub struct DeviceConfig {
    pub id: String,
    pub name: String,
    pub host: String,
    pub port: u16,
    pub username: String,
    pub password: String,
}

impl DeviceConfig {
    /// Field-wise equality of two configurations, by content.
    pub open spec fn spec_same(self, other: DeviceConfig) -> bool {
        &&& self.id@ == other.id@
        &&& self.name@ == other.name@
        &&& self.host@ == other.host@
        &&& self.port == other.port
        &&& self.username@ == other.username@
        &&& self.password@ == other.password@
    }

    /// Copy a configuration.
    pub fn duplicate(&self) -> (r: DeviceConfig)
        ensures
            r.spec_same(*self),
    {
        DeviceConfig {
            id: self.id.clone(),
            name: self.name.clone(),
            host: self.host.clone(),
            port: self.port,
            username: self.username.clone(),
            password: self.password.clone(),
        }
    }
}

/// Find the first stored device with the given identifier.
pub fn get_device_by_id(devices: &Vec<DeviceConfig>, device_id: &str) -> (r: Option<
    DeviceConfig,
>)
    ensures
        r is Some <==> exists|j: int| 0 <= j < devices@.len() && devices@[j].id@ == device_id@,
        r matches Some(d) ==> exists|j: int|
            {
                &&& 0 <= j < devices@.len()
                &&& devices@[j].id@ == device_id@
                &&& d.spec_same(devices@[j])
                &&& forall|k: int| 0 <= k < j ==> devices@[k].id@ != device_id@
            },
{
    let mut i: usize = 0;
    while i < devices.len()
        invariant
            i <= devices@.len(),
            forall|k: int| 0 <= k < i ==> devices@[k].id@ != device_id@,
        decreases devices@.len() - i,
    {
        let eq = {
            let target: String = device_id.to_owned();
            devices[i].id == target
        };
        if eq {
            return Some(devices[i].duplicate());
        }
        i = i + 1;
    }
    None
}

/// Add a device to the registry unless the stored maximum is reached.
pub fn add_device(devices: &mut Vec<DeviceConfig>, device: DeviceConfig) -> (r: bool)
    ensures
        r == (old(devices)@.len() < MAX_DEVICES as int),
        r ==> final(devices)@ == old(devices)@.push(device),
        !r ==> final(devices)@ == old(devices)@,
{
    if devices.len() < MAX_DEVICES {
        devices.push(device);
        true
    } else {
        false
    }
}

/// Replace the first device whose identifier matches `device.id`.
pub fn update_device(devices: &mut Vec<DeviceConfig>, device: DeviceConfig) -> (r: bool)
    ensures
        r <==> exists|j: int|
            0 <= j < old(devices)@.len() && old(devices)@[j].id@ == device.id@,
        !r ==> final(devices)@ == old(devices)@,
        r ==> exists|j: int|
            {
                &&& 0 <= j < old(devices)@.len()
                &&& old(devices)@[j].id@ == device.id@
                &&& forall|k: int| 0 <= k < j ==> old(devices)@[k].id@ != device.id@
                &&& final(devices)@ == old(devices)@.update(j, device)
            },
{
    let mut i: usize = 0;
    while i < devices.len()
        invariant
            i <= devices@.len(),
            devices@ == old(devices)@,
            forall|k: int| 0 <= k < i ==> devices@[k].id@ != device.id@,
        decreases devices@.len() - i,
    {
        let eq = devices[i].id == device.id;
        if eq {
            devices.set(i, device);
            return true;
        }
        i = i + 1;
    }
    false
}

/// The registry with every device of the given identifier removed.
pub open spec fn spec_without_id(devices: Seq<DeviceConfig>, id: Seq<char>) -> Seq<DeviceConfig>
    decreases devices.len(),
{
    if devices.len() == 0 {
        Seq::empty()
    } else if devices.last().id@ == id {
        spec_without_id(devices.drop_last(), id)
    } else {
        spec_without_id(devices.drop_last(), id).push(devices.last())
    }
}

/// Remove every device with the given identifier; report whether any was
/// stored.
pub fn remove_device(devices: &mut Vec<DeviceConfig>, device_id: &str) -> (r: bool)
    ensures
        final(devices)@ =~= spec_without_id(old(devices)@, device_id@),
        r <==> final(devices)@.len() != old(devices)@.len(),
{
    let ghost orig = devices@;
    let n0 = devices.len();
    let target: String = device_id.to_owned();
    let mut i: usize = 0;
    let ghost mut j: int = 0;
    while i < devices.len()
        invariant
            0 <= j <= orig.len(),
            i == spec_without_id(orig.subrange(0, j), device_id@).len(),
            devices@ =~= spec_without_id(orig.subrange(0, j), device_id@) + orig.subrange(
                j,
                orig.len() as int,
            ),
            i <= devices@.len(),
            target@ == device_id@,
        decreases orig.len() - j,
    {
        let ghost prefix = orig.subrange(0, j);
        proof {
            assert(orig.subrange(0, j + 1).drop_last() =~= prefix);
            assert(orig.subrange(0, j + 1).last() == orig[j]);
            assert(devices@[i as int] == orig[j]);
        }
        if devices[i].id == target {
            devices.remove(i);
            proof {
                assert(devices@ =~= spec_without_id(orig.subrange(0, j + 1), device_id@)
                    + orig.subrange(j + 1, orig.len() as int));
            }
        } else {
            i = i + 1;
            proof {
                assert(spec_without_id(orig.subrange(0, j + 1), device_id@)
                    =~= spec_without_id(prefix, device_id@).push(orig[j]));
                assert(devices@ =~= spec_without_id(orig.subrange(0, j + 1), device_id@)
                    + orig.subrange(j + 1, orig.len() as int));
            }
        }
        proof {
            j = j + 1;
        }
    }
    proof {
        assert(j == orig.len());
        assert(orig.subrange(0, j) =~= orig);
        assert(devices@ =~= spec_without_id(orig, device_id@));
    }
    devices.len() != n0
}

} // verus!
