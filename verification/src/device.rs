//! Audio devices as the recorder sees them.
//!
//! A device is an immutable value produced by enumeration. Its `id` is either
//! a stable index into the enumerated device list or the sentinel naming the
//! system-audio capture source.

use vstd::prelude::*;

verus! {

/// One enumerated audio device.
#[derive(Debug)]
pub struct AudioDevice {
    pub is_default: bool,
    pub is_input: bool,
    pub id: String,
    pub name: String,
}

/// The `id` value that names the system-audio capture source instead of a
/// real device.
pub open spec fn system_audio_id() -> Seq<char> {
    "screencapturekit"@
}

impl AudioDevice {
    /// Whether this device stands for the system-audio capture source.
    pub open spec fn is_system_audio_spec(&self) -> bool {
        self.id@ == system_audio_id()
    }

    /// Whether this device stands for the system-audio capture source.
    pub fn is_system_audio(&self) -> (r: bool)
        ensures
            r == self.is_system_audio_spec(),
    {
        let sentinel: String = "screencapturekit".to_owned();
        self.id == sentinel
    }
}

impl Clone for AudioDevice {
    fn clone(&self) -> (r: Self)
        ensures
            r == *self,
    {
        AudioDevice {
            is_default: self.is_default,
            is_input: self.is_input,
            id: self.id.clone(),
            name: self.name.clone(),
        }
    }
}

} // verus!
