//! Build-time translation of GPU shader reflection data into host-side
//! type layouts and resource manifests.
//!
//! Given a reflection description of a shader's data interface, the crate
//! synthesizes host type layouts that are bit-compatible with the GPU's
//! uniform- and storage-buffer packing rules, collects the synthesized
//! types in a registry that rejects conflicting same-named declarations,
//! classifies vertex entry points, and lists the external resources a
//! caller must bind, in descriptor binding order.

use vstd::prelude::*;

pub mod game;
pub mod layout;
pub mod generate;
pub mod reflection;
pub mod registry;
pub mod renderer;
pub mod text;

verus! {

/// Which GPU buffer memory-layout rule set a type is packed under.
///
/// Uniform buffers follow the rule set that rounds every struct up to
/// 16-byte alignment; storage buffers derive a struct's alignment from
/// its fields.
#[derive(Debug, Clone, Copy, PartialEq, Eq, Structural)]
pub enum BufferKind {
    Uniform,
    Storage,
}

impl BufferKind {
    /// The `repr` annotation emitted for host types packed under this rule set.
    pub fn annotation(&self) -> (r: &'static str)
        ensures
            *self is Uniform ==> r@ == "#[repr(C, align(16))]"@,
            *self is Storage ==> r@ == "#[repr(C)]"@,
    {
        match self {
            BufferKind::Uniform => "#[repr(C, align(16))]",
            BufferKind::Storage => "#[repr(C)]",
        }
    }
}

} // verus!
