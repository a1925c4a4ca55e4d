//! Network devices.

pub mod intel_8254x;

use super::GenericDevice;
use vstd::prelude::*;

verus! {

/// A device that sends and receives frames.
pub trait NetworkDevice: GenericDevice {

}

} // verus!
