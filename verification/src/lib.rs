//! Screen capture to animated image: the rules of the capture-and-encode
//! pipeline, stated and proved.
//!
//! The crate holds the geometry of capture regions, the session state
//! machine, the frame processor's naming and cropping, the decisions of the
//! capture worker and of the export step, and the selection picker's logic.
//! Everything that touches a device, a window or a file is left to the caller,
//! which hands plain values in and gets plain values back.

pub mod capture;
pub mod control;
pub mod export;
pub mod frame;
pub mod geometry;
pub mod overlay;
pub mod pixels;
pub mod selection;
pub mod state;
pub mod text;
pub mod worker;
