use vstd::prelude::*;

use crate::frame::MeshInfo;

verus! {

/// Why a model's data cannot be used.
#[derive(Clone, Copy, PartialEq, Eq, Structural, Debug)]
pub enum AssetError {
    /// A material names no diffuse texture.
    MissingTexture,
    /// A mesh has fewer texture coordinates or normals than positions.
    MalformedMesh,
    /// A mesh has more indices than one draw can address.
    TooManyIndices,
}

/// A vertex of a loaded model, as the shaders read it.
pub struct ModelVertex<T> {
    pub position: [T; 3],
    pub tex_coords: [T; 2],
    pub normal: [T; 3],
}

/// Where assets are read from: the published directory when it exists,
/// the renderer's own otherwise.
pub fn asset_root(public_dir_exists: bool) -> (r: &'static str)
    ensures
        r@ == (if public_dir_exists {
            "public/assets"@
        } else {
            "assets"@
        }),
{
    proof {
        reveal_strlit("public/assets");
        reveal_strlit("assets");
    }
    if public_dir_exists {
        "public/assets"
    } else {
        "assets"
    }
}

/// The texture file a material is drawn with; a material without one is
/// an error.
pub fn texture_name(diffuse_texture: Option<String>) -> (r: Result<String, AssetError>)
    ensures
        diffuse_texture matches Some(n) ==> r matches Ok(m) && m@ == n@,
        diffuse_texture is None ==> r == Err::<String, AssetError>(AssetError::MissingTexture),
{
    match diffuse_texture {
        Some(n) => Ok(n),
        None => Err(AssetError::MissingTexture),
    }
}

/// How a loaded mesh is drawn: all of its `index_count` indices, with its
/// material, or the first material when it names none.
pub fn mesh_info(index_count: usize, material_id: Option<usize>) -> (r: Result<MeshInfo, AssetError>)
    ensures
        r is Ok <==> index_count <= u32::MAX,
        r matches Ok(m) ==> m.num_elements == index_count && m.material == match material_id {
            Some(id) => id,
            None => 0,
        },
        r is Err ==> r == Err::<MeshInfo, AssetError>(AssetError::TooManyIndices),
{
    if index_count > u32::MAX as usize {
        return Err(AssetError::TooManyIndices);
    }
    let material = match material_id {
        Some(id) => id,
        None => 0,
    };
    Ok(MeshInfo { num_elements: index_count as u32, material })
}

/// Groups a mesh's flat attribute lists into vertices: vertex `i` takes
/// positions `3i..3i+3`, texture coordinates `2i..2i+2` and normals
/// `3i..3i+3`. There is one vertex per whole position triple; a mesh whose
/// texture coordinates or normals run out first is malformed.
pub fn mesh_vertices<T: Copy>(positions: &Vec<T>, tex_coords: &Vec<T>, normals: &Vec<T>) -> (r: Result<Vec<ModelVertex<T>>, AssetError>)
    ensures
        r is Ok <==> tex_coords@.len() >= 2 * (positions@.len() / 3) && normals@.len() >= 3 * (
        positions@.len() / 3),
        r is Err ==> r == Err::<Vec<ModelVertex<T>>, AssetError>(AssetError::MalformedMesh),
        r matches Ok(v) ==> {
            &&& v@.len() == positions@.len() / 3
            &&& forall|i: int|
                0 <= i < v@.len() ==> {
                    &&& (#[trigger] v@[i]).position@ == positions@.subrange(3 * i, 3 * i + 3)
                    &&& v@[i].tex_coords@ == tex_coords@.subrange(2 * i, 2 * i + 2)
                    &&& v@[i].normal@ == normals@.subrange(3 * i, 3 * i + 3)
                }
        },
{
    let n = positions.len() / 3;
    if tex_coords.len() / 2 < n || normals.len() / 3 < n {
        return Err(AssetError::MalformedMesh);
    }
    let mut r: Vec<ModelVertex<T>> = Vec::new();
    let mut i: usize = 0;
    while i < n
        invariant
            n == positions@.len() / 3,
            positions@.len() <= usize::MAX,
            tex_coords@.len() >= 2 * n,
            normals@.len() >= 3 * n,
            i <= n,
            r@.len() == i,
            forall|j: int|
                0 <= j < i ==> {
                    &&& (#[trigger] r@[j]).position@ == positions@.subrange(3 * j, 3 * j + 3)
                    &&& r@[j].tex_coords@ == tex_coords@.subrange(2 * j, 2 * j + 2)
                    &&& r@[j].normal@ == normals@.subrange(3 * j, 3 * j + 3)
                },
        decreases n - i,
    {
        proof {
            vstd::arithmetic::div_mod::lemma_fundamental_div_mod(positions@.len() as int, 3);
        }
        let p = 3 * i;
        let t = 2 * i;
        let v = ModelVertex {
            position: [positions[p], positions[p + 1], positions[p + 2]],
            tex_coords: [tex_coords[t], tex_coords[t + 1]],
            normal: [normals[p], normals[p + 1], normals[p + 2]],
        };
        assert(v.position@ =~= positions@.subrange(3 * i, 3 * i + 3));
        assert(v.tex_coords@ =~= tex_coords@.subrange(2 * i, 2 * i + 2));
        assert(v.normal@ =~= normals@.subrange(3 * i, 3 * i + 3));
        r.push(v);
        i = i + 1;
    }
    Ok(r)
}

} // verus!
