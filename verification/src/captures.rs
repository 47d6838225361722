//! Capture-source selection and the frame dimensions shared by the pipeline.

use vstd::prelude::*;

verus! {

/// The capture types available for the program.
pub enum CaptureType {
    /// Capture a camera (like your webcam)
    Camera,
    /// Capture the monitor at an index starting from 0
    Monitor(i32),
}

/// Width and height, in pixels, of the frames a capture device produces.
/// Established once at startup and shared read-only afterwards.
#[derive(Clone, Copy)]
pub struct Dimensions {
    /// width of device.
    pub width: u32,
    /// height of device
    pub height: u32,
}

/// Rest API Json for capture dimensions.
pub struct SerializedDimensions {
    /// width of device.
    pub width: usize,
    /// height of device
    pub height: usize,
}

impl SerializedDimensions {
    /// Converts a dimensions reference to a serialized API dimension.
    pub fn from_dimensions(size: Dimensions) -> (r: Self)
        ensures
            r.width == size.width as usize,
            r.height == size.height as usize,
    {
        Self {
            width: size.width as usize,
            height: size.height as usize,
        }
    }
}

} // verus!
