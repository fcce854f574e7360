//! The device-selection rules of the capture core. The platform's audio host
//! is queried outside the core; what comes back — a list of devices, or
//! nothing — is decided over here: how an enumeration failure is absorbed,
//! which device is the default, and how a device presents itself.

use vstd::prelude::*;

use crate::errors::CaptureError;

verus! {

/// How the device encodes one sample on the wire.
#[derive(Clone, Copy, Debug, PartialEq, Eq, Structural)]
pub enum SampleFormat {
    F32,
    I16,
    U16,
}

/// The native stream configuration a device reports: it is fixed when the
/// device is selected and is not reconfigured mid-stream.
#[derive(Clone, Copy, Debug, PartialEq, Eq, Structural)]
pub struct StreamConfig {
    pub sample_rate: u32,
    pub channels: u16,
    pub format: SampleFormat,
}

/// What the core keeps of a system microphone: its human-readable name and
/// its native configuration. The platform's own handle stays outside.
#[derive(Debug)]
pub struct AudioDevice {
    pub name: String,
    pub config: StreamConfig,
}

impl Clone for AudioDevice {
    fn clone(&self) -> (res: Self)
        ensures
            res == *self,
    {
        AudioDevice { name: self.name.clone(), config: self.config }
    }
}

impl AudioDevice {
    /// A device record from its reported name and configuration.
    pub fn new(name: String, config: StreamConfig) -> (d: Self)
        ensures
            d.name == name,
            d.config == config,
    {
        AudioDevice { name, config }
    }
}

/// The label a device is listed under when the platform could not report a
/// name for it: the reported name where there is one, a fixed placeholder
/// otherwise. An enumeration entry is never dropped for want of a name.
pub fn display_name(name: Option<String>) -> (r: String)
    ensures
        name is Some ==> r == name->0,
        name is None ==> r@ == "unknown input device"@,
{
    match name {
        Some(n) => n,
        None => "unknown input device".to_owned(),
    }
}

/// How an enumeration attempt is absorbed: a host that answered yields its
/// devices and no error; an unreachable host yields the empty list together
/// with the enumeration error, so that the failure is reported but never
/// blocks the rest of the system.
pub fn resolve_enumeration(found: Option<Vec<AudioDevice>>) -> (r: (
    Vec<AudioDevice>,
    Option<CaptureError>,
))
    ensures
        found is Some ==> r.0 == found->0 && r.1 is None,
        found is None ==> r.0@.len() == 0 && r.1 == Some(CaptureError::DeviceEnumerationError),
{
    match found {
        Some(devices) => (devices, None),
        None => (Vec::new(), Some(CaptureError::DeviceEnumerationError)),
    }
}

/// The listing of an enumeration: one display name per device, in order.
pub fn device_names(devices: &Vec<AudioDevice>) -> (names: Vec<String>)
    ensures
        names@.len() == devices@.len(),
        forall|i: int| 0 <= i < devices@.len() ==> #[trigger] names@[i] == devices@[i].name,
{
    let mut names: Vec<String> = Vec::new();
    let mut i: usize = 0;
    while i < devices.len()
        invariant
            i <= devices.len(),
            names@.len() == i,
            forall|j: int| 0 <= j < i ==> #[trigger] names@[j] == devices@[j].name,
        decreases devices.len() - i,
    {
        names.push(devices[i].name.clone());
        i = i + 1;
    }
    names
}

/// Which device a capture session opens when none is chosen by hand: the
/// host's first listed device. On a host that reports no input device at
/// all this fails with `NoDeviceError` — and with no device there is
/// nothing a stream could be opened on.
pub fn select_default_device(devices: &Vec<AudioDevice>) -> (r: Result<AudioDevice, CaptureError>)
    ensures
        devices@.len() == 0 <==> r == Err::<AudioDevice, CaptureError>(CaptureError::NoDeviceError),
        devices@.len() > 0 ==> r is Ok && r->Ok_0 == devices@[0],
    {
    if devices.len() == 0 {
        Err(CaptureError::NoDeviceError)
    } else {
        Ok(devices[0].clone())
    }
}

} // verus!
