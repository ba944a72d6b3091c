use vstd::prelude::*;
use vstd::string::*;
use crate::error::DrmError;

verus! {

/// Whether two strings have the same bytes.
fn same_bytes(a: &str, b: &str) -> (r: bool)
    ensures
        r == (a.spec_bytes() == b.spec_bytes()),
{
    let x = a.as_bytes();
    let y = b.as_bytes();
    if x.len() != y.len() {
        return false;
    }
    let mut i: usize = 0;
    while i < x.len()
        invariant
            x@ == a.spec_bytes(),
            y@ == b.spec_bytes(),
            x@.len() == y@.len(),
            i <= x@.len(),
            forall|j: int| 0 <= j < i ==> x@[j] == y@[j],
        decreases x@.len() - i,
    {
        if x[i] != y[i] {
            return false;
        }
        i = i + 1;
    }
    assert(x@ =~= y@);
    true
}

/// The position of the first driver named like the device, if any.
pub open spec fn first_match(device: Seq<u8>, drivers: Seq<Seq<u8>>, j: int) -> bool {
    &&& 0 <= j < drivers.len()
    &&& drivers[j] == device
    &&& forall|k: int| 0 <= k < j ==> drivers[k] != device
}

/// For each discovered device, in order, the position of the first driver
/// whose name is the device's name, or none.
pub fn match_drivers(device_names: &[&str], driver_names: &[&str]) -> (r: Vec<Option<usize>>)
    ensures
        r@.len() == device_names@.len(),
        forall|i: int| 0 <= i < r@.len() ==> match #[trigger] r@[i] {
            Some(j) => first_match(
                device_names@[i].spec_bytes(),
                driver_names@.map_values(|s: &str| s.spec_bytes()),
                j as int,
            ),
            None => forall|k: int| 0 <= k < driver_names@.len() ==> driver_names@[k].spec_bytes()
                != device_names@[i].spec_bytes(),
        },
{
    let ghost names = driver_names@.map_values(|s: &str| s.spec_bytes());
    let mut out: Vec<Option<usize>> = Vec::new();
    let mut i: usize = 0;
    while i < device_names.len()
        invariant
            i <= device_names@.len(),
            names == driver_names@.map_values(|s: &str| s.spec_bytes()),
            out@.len() == i,
            forall|a: int| 0 <= a < i ==> match #[trigger] out@[a] {
                Some(j) => first_match(device_names@[a].spec_bytes(), names, j as int),
                None => forall|k: int| 0 <= k < driver_names@.len() ==> driver_names@[k].spec_bytes()
                    != device_names@[a].spec_bytes(),
            },
        decreases device_names@.len() - i,
    {
        let dev = device_names[i];
        let mut found: Option<usize> = None;
        let mut j: usize = 0;
        while j < driver_names.len()
            invariant
                i < device_names@.len(),
                j <= driver_names@.len(),
                dev == device_names@[i as int],
                names == driver_names@.map_values(|s: &str| s.spec_bytes()),
                match found {
                    None => forall|k: int| 0 <= k < j ==> driver_names@[k].spec_bytes() != dev.spec_bytes(),
                    Some(jj) => first_match(dev.spec_bytes(), names, jj as int),
                },
            decreases driver_names@.len() - j,
        {
            if found.is_none() && same_bytes(driver_names[j], dev) {
                found = Some(j);
                proof {
                    assert(names[j as int] == driver_names@[j as int].spec_bytes());
                    assert forall|k: int| 0 <= k < j implies names[k] != dev.spec_bytes() by {
                        assert(names[k] == driver_names@[k].spec_bytes());
                    }
                }
            }
            j = j + 1;
        }
        out.push(found);
        i = i + 1;
    }
    out
}

/// The outcome of bringing up the discovered devices: no device at all, or
/// no device that a driver could create, is an error.
pub fn probe_outcome(device_count: usize, created: usize) -> (r: Result<(), DrmError>)
    ensures
        r is Ok <==> device_count > 0 && created > 0,
        r matches Err(e) ==> e == DrmError::NotFound,
{
    if device_count == 0 || created == 0 {
        Err(DrmError::NotFound)
    } else {
        Ok(())
    }
}

} // verus!
