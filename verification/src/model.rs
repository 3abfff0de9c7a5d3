//! What drawing has to know of a loaded model.
use vstd::prelude::*;

verus! {

/// A mesh: how many indices its index buffer holds, and which of its model's
/// materials it is drawn with.
#[derive(Clone, Copy, Debug, PartialEq)]
pub struct Mesh {
    pub num_indices: u32,
    pub material: Option<usize>,
}

/// A material: whether it has a diffuse texture to bind.
#[derive(Clone, Copy, Debug, PartialEq, Eq, Structural)]
pub struct Material {
    pub has_diffuse: bool,
}

/// A model: its meshes and the materials that they refer to.
#[derive(Debug, PartialEq)]
pub struct Model {
    pub meshes: Vec<Mesh>,
    pub materials: Vec<Material>,
}

impl Model {
    /// Mesh `i` names one of the materials, and that material has a diffuse texture.
    pub open spec fn mesh_textured(&self, i: int) -> bool {
        &&& self.meshes@[i].material matches Some(material)
        &&& material < self.materials@.len()
        &&& self.materials@[material as int].has_diffuse
    }

    /// Every mesh has a diffuse texture to be drawn with.
    pub open spec fn textured(&self) -> bool {
        forall|i: int| 0 <= i < self.meshes@.len() ==> #[trigger] self.mesh_textured(i)
    }

    /// Whether every mesh has a diffuse texture to be drawn with.
    pub fn is_textured(&self) -> (textured: bool)
        ensures
            textured == self.textured(),
            textured <==> forall|i: int|
                0 <= i < self.meshes@.len() ==> {
                    &&& (#[trigger] self.meshes@[i]).material is Some
                    &&& self.meshes@[i].material->0 < self.materials@.len()
                    &&& self.materials@[self.meshes@[i].material->0 as int].has_diffuse
                },
    {
        let mut i: usize = 0;
        while i < self.meshes.len()
            invariant
                0 <= i <= self.meshes@.len(),
                forall|j: int| 0 <= j < i ==> #[trigger] self.mesh_textured(j),
            decreases self.meshes@.len() - i,
        {
            let drawable = match self.meshes[i].material {
                Some(material) => material < self.materials.len()
                    && self.materials[material].has_diffuse,
                None => false,
            };
            assert(drawable == self.mesh_textured(i as int));
            if !drawable {
                return false;
            }
            i = i + 1;
        }
        assert forall|j: int| 0 <= j < self.meshes@.len() implies ({
            &&& (#[trigger] self.meshes@[j]).material is Some
            &&& self.meshes@[j].material->0 < self.materials@.len()
            &&& self.materials@[self.meshes@[j].material->0 as int].has_diffuse
        }) by {
            assert(self.mesh_textured(j));
        }
        true
    }
}

/// Every mesh, wherever it stands, names a material that is there and has a texture; and one
/// mesh that does not is enough.
pub proof fn lemma_textured_means_every_mesh(model: Model, i: int)
    requires
        0 <= i < model.meshes@.len(),
    ensures
        model.textured() ==> {
            &&& model.meshes@[i].material is Some
            &&& model.meshes@[i].material->0 < model.materials@.len()
            &&& model.materials@[model.meshes@[i].material->0 as int].has_diffuse
        },
        model.meshes@[i].material is None ==> !model.textured(),
        model.meshes@[i].material matches Some(material) ==> {
            &&& material >= model.materials@.len() ==> !model.textured()
            &&& material < model.materials@.len() && !model.materials@[material as int].has_diffuse
                ==> !model.textured()
        },
{
    if model.textured() {
        assert(model.mesh_textured(i));
    }
}

/// A model without meshes has nothing that lacks a texture. One more mesh keeps a model
/// textured exactly if it has a texture itself.
pub proof fn lemma_textures_are_counted_mesh_by_mesh(before: Model, after: Model, mesh: Mesh)
    requires
        after.meshes@ == before.meshes@.push(mesh),
        after.materials@ == before.materials@,
    ensures
        before.meshes@.len() == 0 ==> before.textured(),
        after.textured() <==> before.textured() && mesh.material is Some && mesh.material->0
            < before.materials@.len() && before.materials@[mesh.material->0 as int].has_diffuse,
{
    let last = before.meshes@.len() as int;
    assert(after.meshes@[last] == mesh);
    assert forall|i: int| 0 <= i < last implies after.mesh_textured(i) == before.mesh_textured(
        i,
    ) by {
        assert(after.meshes@[i] == before.meshes@[i]);
    }
    if after.textured() {
        assert(after.mesh_textured(last));
        assert forall|i: int| 0 <= i < last implies #[trigger] before.mesh_textured(i) by {
            assert(after.mesh_textured(i));
        }
    }
    if before.textured() && after.mesh_textured(last) {
        assert forall|i: int| 0 <= i < after.meshes@.len() implies #[trigger] after.mesh_textured(
            i,
        ) by {
            if i < last {
                assert(before.mesh_textured(i));
            }
        }
    }
}

} // verus!
