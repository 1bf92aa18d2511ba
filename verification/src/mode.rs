//! The modes a driver handle can be typed in. The driver can perform
//! certain actions only in certain modes; the mode is part of the handle's
//! type, so an action issued in the wrong mode fails to compile.

use vstd::prelude::*;

verus! {

/// The driver starts in the Off mode and transitions to Passive when the
/// start is requested.
pub struct Off;

/// In Passive mode the sensors can be inspected, but there is no control
/// over the actuators. Cleaning and songs are managed here. Switch back to
/// Off once done, to preserve battery.
pub struct Passive;

/// In Safe mode the actuators can be controlled, but safety sensors may
/// still revert the device to Passive on their own. Switch back to Off once
/// done, to preserve battery.
pub struct Safe;

/// In Full mode the actuators are under complete control and even the
/// safety sensors do not intervene. Switch back to Off once done, to
/// preserve battery.
pub struct Full;

} // verus!
