//! What is known about the displays on which the panel may appear.

use vstd::prelude::*;

verus! {

/// Names one display. The number is whatever the embedder uses to tell its
/// displays apart.
#[derive(Clone, Copy, Debug, PartialEq, Eq, Structural, Hash)]
pub struct OutputId(pub u64);

/// A length in millimeters.
#[derive(Clone, Copy, Debug, PartialEq, Eq, Structural)]
pub struct Millimeter(pub u32);

/// A width and a height in some unit.
#[derive(Clone, Copy, Debug, PartialEq, Eq)]
pub struct Size<T> {
    pub width: T,
    pub height: T,
}

/// How the display's contents are turned before they are shown.
#[derive(Clone, Copy, Debug, PartialEq, Eq, Structural)]
pub enum Transform {
    Normal,
    Rotated90,
    Rotated180,
    Rotated270,
    Flipped,
    FlippedRotated90,
    FlippedRotated180,
    FlippedRotated270,
}

impl Transform {
    /// Whether the transform exchanges width and height.
    pub open spec fn spec_swaps_axes(self) -> bool {
        self is Rotated90 || self is Rotated270 || self is FlippedRotated90
            || self is FlippedRotated270
    }

    /// Tells whether the transform exchanges width and height.
    pub fn swaps_axes(self) -> (swaps: bool)
        ensures
            swaps == self.spec_swaps_axes(),
    {
        match self {
            Transform::Rotated90 | Transform::Rotated270 | Transform::FlippedRotated90
            | Transform::FlippedRotated270 => true,
            _ => false,
        }
    }
}

/// The resolution of a display before its transform, in pixels.
#[derive(Clone, Copy, Debug, PartialEq, Eq)]
pub struct Mode {
    pub width: u32,
    pub height: u32,
}

/// The physical placement of a display.
#[derive(Clone, Copy, Debug, PartialEq, Eq)]
pub struct Geometry {
    pub transform: Transform,
    /// Physical extents before the transform. An extent that the display
    /// does not report is absent.
    pub phys_size: Size<Option<Millimeter>>,
}

/// All that is known about one display.
#[derive(Clone, Copy, Debug, PartialEq, Eq)]
pub struct OutputState {
    pub current_mode: Option<Mode>,
    pub geometry: Option<Geometry>,
    pub scale: u32,
}

impl OutputState {
    /// The description can be measured: the scale factor is at least one,
    /// and a physical extent that is reported is not zero.
    pub open spec fn wf(&self) -> bool {
        &&& self.scale >= 1
        &&& self.geometry matches Some(geometry) ==> {
            &&& geometry.phys_size.width matches Some(w) ==> w.0 >= 1
            &&& geometry.phys_size.height matches Some(h) ==> h.0 >= 1
        }
    }

    /// The resolution as shown, after the transform. It is known once both
    /// the mode and the geometry are.
    pub open spec fn pixel_size(&self) -> Option<Size<u32>> {
        match (self.current_mode, self.geometry) {
            (Some(mode), Some(geometry)) => Some(
                if geometry.transform.spec_swaps_axes() {
                    Size { width: mode.height, height: mode.width }
                } else {
                    Size { width: mode.width, height: mode.height }
                },
            ),
            _ => None,
        }
    }

    /// The physical extents as shown, after the transform. They are known
    /// once the geometry is.
    pub open spec fn physical_size(&self) -> Option<Size<Option<Millimeter>>> {
        match self.geometry {
            Some(geometry) => Some(
                if geometry.transform.spec_swaps_axes() {
                    Size { width: geometry.phys_size.height, height: geometry.phys_size.width }
                } else {
                    geometry.phys_size
                },
            ),
            None => None,
        }
    }

    /// Tells whether the description can be measured.
    pub fn is_valid(&self) -> (valid: bool)
        ensures
            valid == self.wf(),
    {
        if self.scale < 1 {
            return false;
        }
        match self.geometry {
            Some(geometry) => {
                let width_ok = match geometry.phys_size.width {
                    Some(w) => w.0 >= 1,
                    None => true,
                };
                let height_ok = match geometry.phys_size.height {
                    Some(h) => h.0 >= 1,
                    None => true,
                };
                width_ok && height_ok
            },
            None => true,
        }
    }

    /// Returns the resolution as shown, after the transform.
    pub fn get_pixel_size(&self) -> (size: Option<Size<u32>>)
        ensures
            size == self.pixel_size(),
    {
        match (self.current_mode, self.geometry) {
            (Some(mode), Some(geometry)) => {
                if geometry.transform.swaps_axes() {
                    Some(Size { width: mode.height, height: mode.width })
                } else {
                    Some(Size { width: mode.width, height: mode.height })
                }
            },
            _ => None,
        }
    }

    /// Returns the physical extents as shown, after the transform.
    pub fn get_physical_size(&self) -> (size: Option<Size<Option<Millimeter>>>)
        ensures
            size == self.physical_size(),
    {
        match self.geometry {
            Some(geometry) => {
                if geometry.transform.swaps_axes() {
                    Some(
                        Size {
                            width: geometry.phys_size.height,
                            height: geometry.phys_size.width,
                        },
                    )
                } else {
                    Some(geometry.phys_size)
                }
            },
            None => None,
        }
    }
}

/// What happened to a display.
#[derive(Clone, Copy, Debug, PartialEq, Eq)]
pub enum ChangeType {
    /// The display is new, or its description changed.
    Altered(OutputState),
    /// The display is gone.
    Removed,
}

/// A change to one display.
#[derive(Clone, Copy, Debug, PartialEq, Eq)]
pub struct Event {
    pub output: OutputId,
    pub change: ChangeType,
}

impl Event {
    /// A description that the event brings can be measured.
    pub open spec fn wf(&self) -> bool {
        self.change matches ChangeType::Altered(state) ==> state.wf()
    }
}

} // verus!
