//! The resource set: the geometry streams and the texture that are uploaded
//! once, and the checks they pass before that.

use vstd::prelude::*;
use crate::geometry::{InstanceData, Normal, TexCoord, Vertex};
use crate::texture::{DecodedTexture, TextureModel};

verus! {

/// Why the engine cannot be started.
#[derive(Clone, Copy, Debug, PartialEq, Eq, Structural)]
pub enum InitError {
    /// No device of the machine can draw and present to the window.
    NoCapableDevice,
    /// The vertex, normal and texture coordinate streams differ in length.
    MismatchedStreams,
    /// An index names a vertex that does not exist.
    IndexOutOfRange,
    /// There are more indices than one draw can cover.
    TooManyIndices,
    /// There are more instances than one draw can cover.
    TooManyInstances,
    /// The surface has no area.
    DegenerateExtent,
    /// The surface has no image.
    NoSurfaceImages,
}

/// The value of a `ResourceSet`.
pub struct ResourceModel {
    pub vertices: Seq<Vertex>,
    pub normals: Seq<Normal>,
    pub tex_coords: Seq<TexCoord>,
    pub indices: Seq<u16>,
    pub instances: Seq<InstanceData>,
    pub texture: TextureModel,
}

/// Largest number of indices or instances that one draw covers.
pub const DRAW_LIMIT: usize = 0xffff_ffff;

/// Every index names one of `vertex_count` vertices.
pub open spec fn indices_in_range(indices: Seq<u16>, vertex_count: nat) -> bool {
    forall|i: int| 0 <= i < indices.len() ==> (#[trigger] indices[i]) < vertex_count
}

/// The first thing wrong with the streams, if anything.
pub open spec fn stream_defect(
    vertices: nat,
    normals: nat,
    tex_coords: nat,
    indices: Seq<u16>,
    instances: nat,
) -> Option<InitError> {
    if normals != vertices || tex_coords != vertices {
        Some(InitError::MismatchedStreams)
    } else if !indices_in_range(indices, vertices) {
        Some(InitError::IndexOutOfRange)
    } else if indices.len() > DRAW_LIMIT {
        Some(InitError::TooManyIndices)
    } else if instances > DRAW_LIMIT {
        Some(InitError::TooManyInstances)
    } else {
        None
    }
}

impl ResourceModel {
    /// The streams fit together and one draw covers them.
    pub open spec fn consistent(self) -> bool {
        stream_defect(
            self.vertices.len(),
            self.normals.len(),
            self.tex_coords.len(),
            self.indices,
            self.instances.len(),
        ).is_none()
    }
}

/// The data the renderer draws from. It is built once and never changed.
#[derive(Debug)]
pub struct ResourceSet {
    vertices: Vec<Vertex>,
    normals: Vec<Normal>,
    tex_coords: Vec<TexCoord>,
    indices: Vec<u16>,
    instances: Vec<InstanceData>,
    texture: DecodedTexture,
}

impl View for ResourceSet {
    type V = ResourceModel;

    closed spec fn view(&self) -> ResourceModel {
        ResourceModel {
            vertices: self.vertices@,
            normals: self.normals@,
            tex_coords: self.tex_coords@,
            indices: self.indices@,
            instances: self.instances@,
            texture: self.texture@,
        }
    }
}

/// Whether every index names one of `vertex_count` vertices.
pub fn check_indices(indices: &Vec<u16>, vertex_count: usize) -> (ok: bool)
    ensures
        ok == indices_in_range(indices@, vertex_count as nat),
{
    let mut i: usize = 0;
    while i < indices.len()
        invariant
            i <= indices.len(),
            forall|k: int| 0 <= k < i ==> (#[trigger] indices@[k]) < vertex_count,
        decreases indices.len() - i,
    {
        if indices[i] as usize >= vertex_count {
            return false;
        }
        i += 1;
    }
    true
}

impl ResourceSet {
    #[verifier::type_invariant]
    spec fn checked(self) -> bool {
        self@.consistent()
    }

    /// Builds the resource set from the geometry streams, the instance
    /// offsets and the texture. The streams must fit together: one normal
    /// and one texture coordinate for every vertex, every index naming a
    /// vertex, and no more indices or instances than one draw covers.
    pub fn build(
        vertices: Vec<Vertex>,
        normals: Vec<Normal>,
        tex_coords: Vec<TexCoord>,
        indices: Vec<u16>,
        instances: Vec<InstanceData>,
        texture: DecodedTexture,
    ) -> (r: Result<ResourceSet, InitError>)
        ensures
            match r {
                Ok(set) => set@.consistent() && set@ == (ResourceModel {
                    vertices: vertices@,
                    normals: normals@,
                    tex_coords: tex_coords@,
                    indices: indices@,
                    instances: instances@,
                    texture: texture@,
                }),
                Err(e) => stream_defect(
                    vertices@.len(),
                    normals@.len(),
                    tex_coords@.len(),
                    indices@,
                    instances@.len(),
                ) == Some(e),
            },
    {
        if normals.len() != vertices.len() || tex_coords.len() != vertices.len() {
            return Err(InitError::MismatchedStreams);
        }
        if !check_indices(&indices, vertices.len()) {
            return Err(InitError::IndexOutOfRange);
        }
        if indices.len() > DRAW_LIMIT {
            return Err(InitError::TooManyIndices);
        }
        if instances.len() > DRAW_LIMIT {
            return Err(InitError::TooManyInstances);
        }
        Ok(ResourceSet { vertices, normals, tex_coords, indices, instances, texture })
    }

    /// Number of indices of the draw.
    pub fn index_count(&self) -> (n: u32)
        ensures
            n == self@.indices.len(),
    {
        proof {
            use_type_invariant(self);
        }
        self.indices.len() as u32
    }

    /// Number of instances of the draw.
    pub fn instance_count(&self) -> (n: u32)
        ensures
            n == self@.instances.len(),
    {
        proof {
            use_type_invariant(self);
        }
        self.instances.len() as u32
    }

    pub fn vertices(&self) -> (v: &Vec<Vertex>)
        ensures
            v@ == self@.vertices,
    {
        &self.vertices
    }

    pub fn normals(&self) -> (v: &Vec<Normal>)
        ensures
            v@ == self@.normals,
            v@.len() == self@.vertices.len(),
    {
        proof {
            use_type_invariant(self);
        }
        &self.normals
    }

    pub fn tex_coords(&self) -> (v: &Vec<TexCoord>)
        ensures
            v@ == self@.tex_coords,
            v@.len() == self@.vertices.len(),
    {
        proof {
            use_type_invariant(self);
        }
        &self.tex_coords
    }

    pub fn indices(&self) -> (v: &Vec<u16>)
        ensures
            v@ == self@.indices,
            indices_in_range(v@, self@.vertices.len()),
    {
        proof {
            use_type_invariant(self);
        }
        &self.indices
    }

    pub fn instances(&self) -> (v: &Vec<InstanceData>)
        ensures
            v@ == self@.instances,
    {
        &self.instances
    }

    pub fn texture(&self) -> (t: &DecodedTexture)
        ensures
            t@ == self@.texture,
    {
        &self.texture
    }
}

} // verus!
