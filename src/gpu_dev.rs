use vstd::prelude::*;
use crate::error::Error;

verus! {

/// A device-level failure, as an error number.
#[derive(Debug, Clone, Copy, PartialEq, Eq, Structural)]
pub enum DeviceError {
    Errno(i32),
}

/// A discovered device with GPU function, not yet bound to a driver.
pub trait GpuDevice {
    /// Human-readable name, also used to match a driver.
    fn name(&self) -> &str;
}

/// The registered GPU devices, each by its identity, in order of
/// registration.
#[derive(Debug)]
pub struct GpuDevices {
    pub devices: Vec<u64>,
}

impl GpuDevices {
    pub fn new() -> (r: GpuDevices)
        ensures
            r.devices@ == Seq::<u64>::empty(),
    {
        GpuDevices { devices: Vec::new() }
    }

    /// A copy of the registered devices, usable after the registry is
    /// unlocked.
    pub fn snapshot(&self) -> (r: Vec<u64>)
        ensures
            r@ == self.devices@,
    {
        let mut out: Vec<u64> = Vec::new();
        let mut i: usize = 0;
        while i < self.devices.len()
            invariant
                i <= self.devices@.len(),
                out@ == self.devices@.subrange(0, i as int),
            decreases self.devices@.len() - i,
        {
            out.push(self.devices[i]);
            i = i + 1;
            assert(out@ =~= self.devices@.subrange(0, i as int));
        }
        assert(self.devices@.subrange(0, i as int) =~= self.devices@);
        out
    }

    /// Appends a device; registering always succeeds.
    pub fn register_device(&mut self, device: u64) -> (r: Result<(), Error>)
        ensures
            r is Ok,
            final(self).devices@ == old(self).devices@.push(device),
    {
        self.devices.push(device);
        Ok(())
    }

    /// Removes the first registration of `device` and returns it, or
    /// reports that it is not registered.
    pub fn unregister_device(&mut self, device: u64) -> (r: Result<u64, Error>)
        ensures
            r is Err <==> !old(self).devices@.contains(device),
            r matches Err(e) ==> e == Error::NotFound && final(self).devices@ == old(self).devices@,
            r matches Ok(d) ==> d == device && exists|i: int|
                0 <= i < old(self).devices@.len() && old(self).devices@[i] == device && (forall|j: int|
                    0 <= j < i ==> old(self).devices@[j] != device) && final(self).devices@
                    == old(self).devices@.remove(i),
    {
        let mut i: usize = 0;
        while i < self.devices.len()
            invariant
                self.devices@ == old(self).devices@,
                i <= self.devices@.len(),
                forall|j: int| 0 <= j < i ==> self.devices@[j] != device,
            decreases self.devices@.len() - i,
        {
            if self.devices[i] == device {
                let d = self.devices.remove(i);
                return Ok(d);
            }
            i = i + 1;
        }
        Err(Error::NotFound)
    }
}

} // verus!
