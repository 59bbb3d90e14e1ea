//! Handle and marker types shared between generated shader modules and
//! the runtime renderer.
//!
//! The renderer itself (device setup, descriptor allocation, draw
//! submission) is an external collaborator; these types only carry the
//! identities it needs, keyed by the element types the generator emits.

use vstd::prelude::*;

use std::marker::PhantomData;

verus! {

/// Marker type for shaders that don't use vertex input buffers.
/// Used as the vertex type parameter for fullscreen quads, procedural
/// geometry, and other vertex-count-driven draws.
pub enum NoVertex {
    Unused,
}

/// A marker for generated types that get written to GPU memory.
///
/// An implementing struct must carry the generator's `repr` annotation
/// and the exact field order the generator produced.
pub trait GPUWrite {

}

impl GPUWrite for u8 {

}

impl GPUWrite for u32 {

}

impl GPUWrite for NoVertex {

}

/// A marker trait for different draw call types.
pub trait DrawCall {

}

/// A marker that the pipeline uses plain draw calls, passing a vertex
/// count with no other vertex data.
pub struct DrawVertexCount;

impl DrawCall for DrawVertexCount {

}

/// A marker that the pipeline uses indexed draw calls, with
/// pre-allocated vertex and index buffers.
pub struct DrawIndexed;

impl DrawCall for DrawIndexed {

}

/// A typed handle to a pipeline owned by the renderer.
#[derive(Debug)]
pub struct PipelineHandle<T> {
    pub index: usize,
    pub _phantom_data: PhantomData<T>,
}

/// A handle to vertex and index buffers owned by the renderer.
pub struct VertexAndIndexBuffersHandle;

/// A typed handle to a uniform buffer owned by the renderer.
#[derive(Debug)]
pub struct UniformBufferHandle<T> {
    pub index: usize,
    pub _phantom_data: PhantomData<T>,
}

/// A typed handle to a storage buffer owned by the renderer.
#[derive(Debug)]
pub struct StorageBufferHandle<T> {
    pub index: usize,
    pub _phantom_data: PhantomData<T>,
}

/// A handle to a texture owned by the renderer.
pub struct TextureHandle;

/// An untyped uniform-buffer handle, as generated pipeline
/// configurations carry it.
pub struct RawUniformBufferHandle {
    pub index: usize,
}

impl RawUniformBufferHandle {
    /// Forget the element type of a uniform-buffer handle, keeping its
    /// identity.
    pub fn from_typed<T>(handle: &UniformBufferHandle<T>) -> (r: Self)
        ensures
            r.index == handle.index,
    {
        Self { index: handle.index }
    }
}

/// An untyped storage-buffer handle, as generated pipeline
/// configurations carry it.
pub struct RawStorageBufferHandle {
    pub index: usize,
}

impl RawStorageBufferHandle {
    /// Forget the element type of a storage-buffer handle, keeping its
    /// identity.
    pub fn from_typed<T>(handle: &StorageBufferHandle<T>) -> (r: Self)
        ensures
            r.index == handle.index,
    {
        Self { index: handle.index }
    }
}

/// One descriptor-set layout binding description; opaque here.
pub struct LayoutDescription;

/// Which type of draw call a pipeline uses, and the vertex data for it.
pub enum VertexConfig<V> {
    /// Indexed draw calls, with prepared vertex and index buffers.
    VertexAndIndexBuffers(Vec<V>, Vec<u32>),
    /// Plain draw calls passing a vertex count; no vertex type.
    VertexCount,
}

} // verus!
