//! The rectangle type of the OpenCV bindings.

use vstd::prelude::*;

verus! {

/// A rectangle of interest in an OpenCV image: position and size.
#[allow(dead_code)]
pub struct CvRect {
    _x: i32,
    _y: i32,
    w: i32,
    h: i32,
}

} // verus!
