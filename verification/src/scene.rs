//! The scene that rendering reads: what the accelerator reported of its
//! extent, the lights, the meshes, and the materials and textures that the
//! primitives refer to.

use crate::geometry::Bounds3;
use crate::light::Light;
use crate::material::Material;
use crate::shape::Triangle;
use crate::shape::TriangleMesh;
use crate::texture::TextureArena;
use vstd::prelude::*;

verus! {

/// A shape with its material, a place among the materials of the scene,
/// and with the light that it carries where it emits, a place among the
/// lights.
#[derive(Clone, Copy, Debug, PartialEq, Eq, Structural)]
pub struct GeometricPrimitive {
    pub shape: Triangle,
    pub material: usize,
    pub area_light: Option<usize>,
}

/// What the accelerator over the primitives reports of their extent: the
/// box around all of them, and the boxes of its nodes.
#[derive(Debug)]
pub struct Extent {
    pub world: Bounds3,
    pub boxes: Vec<Bounds3>,
}

/// Whether the primitives refer to what is there: each to one of
/// `materials` materials, and each that emits to an area light among the
/// lights that is carried by its own shape.
pub open spec fn primitives_refer(
    primitives: Seq<GeometricPrimitive>,
    lights: Seq<Light>,
    materials: nat,
) -> bool {
    forall|i: int|
        0 <= i < primitives.len() ==> {
            &&& (#[trigger] primitives[i]).material < materials
            &&& primitives[i].area_light matches Some(l) ==> l < lights.len() && (
            lights[l as int] matches Light::Area(a) && a.shape == primitives[i].shape)
        }
}

/// Primitives that refer to what is there still do when lights are added
/// at the end and materials are added.
pub proof fn primitives_refer_on(
    primitives: Seq<GeometricPrimitive>,
    lights: Seq<Light>,
    materials: nat,
    more_lights: Seq<Light>,
    more_materials: nat,
)
    requires
        primitives_refer(primitives, lights, materials),
        materials <= more_materials,
    ensures
        primitives_refer(primitives, lights + more_lights, more_materials),
{
    assert forall|i: int| 0 <= i < primitives.len() implies {
        &&& (#[trigger] primitives[i]).material < more_materials
        &&& primitives[i].area_light matches Some(l) ==> l < (lights + more_lights).len() && (
        (lights + more_lights)[l as int] matches Light::Area(a) && a.shape == primitives[i].shape)
    } by {
        if let Some(l) = primitives[i].area_light {
            assert((lights + more_lights)[l as int] == lights[l as int]);
        }
    }
}

/// A scene ready for rendering.
pub struct RenderScene {
    pub extent: Extent,
    pub lights: Vec<Light>,
    pub infinite_lights: Vec<Light>,
    pub meshes: Vec<TriangleMesh>,
    pub primitives: Vec<GeometricPrimitive>,
    pub materials: Vec<Material>,
    pub textures: TextureArena,
}

impl RenderScene {
    /// The box around the whole scene.
    pub fn world_bound(&self) -> (b: Bounds3)
        ensures
            b == self.extent.world,
    {
        self.extent.world
    }

    /// The boxes of the nodes of the accelerator.
    pub fn get_bounding_boxes(&self) -> (boxes: Vec<Bounds3>)
        ensures
            boxes@ == self.extent.boxes@,
    {
        let mut boxes: Vec<Bounds3> = Vec::new();
        let mut i: usize = 0;
        while i < self.extent.boxes.len()
            invariant
                i <= self.extent.boxes@.len(),
                boxes@ == self.extent.boxes@.take(i as int),
            decreases self.extent.boxes@.len() - i,
        {
            boxes.push(self.extent.boxes[i]);
            assert(self.extent.boxes@.take(i + 1) =~= self.extent.boxes@.take(i as int).push(
                self.extent.boxes@[i as int],
            ));
            i = i + 1;
        }
        assert(self.extent.boxes@.take(i as int) =~= self.extent.boxes@);
        boxes
    }
}

} // verus!
