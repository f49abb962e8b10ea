use vstd::prelude::*;

verus! {

/// One acceleration device as the read-only enumeration reports it: its
/// index and its name, kind and backend as display strings. The shell fills
/// the listing in; the pipeline only ever reads it.
pub struct GpuDevice {
    pub id: i32,
    pub name: String,
    pub device_type: String,
    pub backend: String,
}

impl GpuDevice {
    /// Describes the device at `id`.
    pub fn new(id: i32, name: String, device_type: String, backend: String) -> (d: GpuDevice)
        ensures
            d.id == id,
            d.name@ == name@,
            d.device_type@ == device_type@,
            d.backend@ == backend@,
    {
        GpuDevice { id, name, device_type, backend }
    }
}

} // verus!
