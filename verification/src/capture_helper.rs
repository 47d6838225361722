//! Helpers around capture-source selection: the capture type menu, the
//! monitor number handed in by the user, and the dimensions as they are
//! serialized for the REST API.

use vstd::prelude::*;
use crate::captures::Dimensions;

verus! {

/// Capture Types
pub enum CaptureType {
    /// Capture a camera (like your webcam)
    Camera,
    /// Capture the monitor at an index starting from 0
    Monitor(i32),
}

/// The capture type a one-character menu answer selects: '1' is the
/// camera, '2' the monitor whose 0-based index was asked for separately;
/// any other answer is rejected and the menu is shown again.
pub fn capture_type_from_answer(answer: char, monitor_index: i32) -> (r: Option<CaptureType>)
    ensures
        answer == '1' ==> r == Some(CaptureType::Camera),
        answer == '2' ==> r == Some(CaptureType::Monitor(monitor_index)),
        answer != '1' && answer != '2' ==> r is None,
{
    match answer {
        '1' => Some(CaptureType::Camera),
        '2' => Some(CaptureType::Monitor(monitor_index)),
        _ => None,
    }
}

/// Maps the 1-based monitor number a user types to the 0-based index the
/// capture backend expects; numbers below 1 are rejected.
pub fn monitor_index_from_answer(number: i32) -> (r: Option<i32>)
    ensures
        number >= 1 ==> r == Some((number - 1) as i32),
        number < 1 ==> r is None,
{
    if number <= 0 {
        None
    } else {
        Some(number - 1)
    }
}

/// Rest API Json shape for a capture device's size.
pub struct SerializedDeviceSize {
    /// width of device.
    pub width: usize,
    /// height of device
    pub height: usize,
}

impl SerializedDeviceSize {
    /// Carries a device's dimensions over into the serialized API shape.
    pub fn new(size: Dimensions) -> (r: Self)
        ensures
            r.width == size.width as usize,
            r.height == size.height as usize,
    {
        Self { width: size.width as usize, height: size.height as usize }
    }
}

} // verus!
