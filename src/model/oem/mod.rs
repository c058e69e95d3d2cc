//! Vendor (OEM) resource shapes.
pub mod nvidia_viking;
