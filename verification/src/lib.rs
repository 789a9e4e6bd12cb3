//! The device-resource lifecycle of a window that draws one fixed scene: a
//! background grid and two concentric squares on a hardware-backed render target.

pub mod error;
pub mod geometry;
pub mod message;
pub mod scene;
pub mod session;
pub mod shell;
