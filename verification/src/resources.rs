//! Loaded assets, and the computations that loading them needs.

use vstd::prelude::*;

use crate::named_map::NamedMap;

verus! {

/// The loaded assets, each under the name of the file it came from: models,
/// environment cube maps and the bind groups that show those maps.
pub struct ResourceManager<M, C, B> {
    pub models: NamedMap<M>,
    pub cube_textures: NamedMap<C>,
    pub bind_groups: NamedMap<B>,
}

impl<M, C, B> ResourceManager<M, C, B> {
    /// Nothing loaded.
    pub fn new() -> (manager: Self)
        ensures
            manager.models@ == Map::<Seq<char>, M>::empty(),
            manager.cube_textures@ == Map::<Seq<char>, C>::empty(),
            manager.bind_groups@ == Map::<Seq<char>, B>::empty(),
    {
        ResourceManager {
            models: NamedMap::new(),
            cube_textures: NamedMap::new(),
            bind_groups: NamedMap::new(),
        }
    }

    /// The model loaded from `name`.
    pub fn get_model(&self, name: &str) -> (model: Option<&M>)
        ensures
            match model {
                Some(m) => self.models@.contains_key(name@) && *m == self.models@[name@],
                None => !self.models@.contains_key(name@),
            },
    {
        self.models.get(name)
    }

    /// The bind group of the environment map loaded from `name`.
    pub fn get_bind_group(&self, name: &str) -> (group: Option<&B>)
        ensures
            match group {
                Some(g) => self.bind_groups@.contains_key(name@) && *g == self.bind_groups@[name@],
                None => !self.bind_groups@.contains_key(name@),
            },
    {
        self.bind_groups.get(name)
    }

    /// The cube map loaded from `name`.
    pub fn get_cube_texture(&self, name: &str) -> (texture: Option<&C>)
        ensures
            match texture {
                Some(t) => self.cube_textures@.contains_key(name@) && *t
                    == self.cube_textures@[name@],
                None => !self.cube_textures@.contains_key(name@),
            },
    {
        self.cube_textures.get(name)
    }

    /// Whether loading the model `name` has work to do: it has not been
    /// loaded yet.
    pub fn needs_model(&self, name: &str) -> (needed: bool)
        ensures
            needed == !self.models@.contains_key(name@),
    {
        !self.models.contains_key(name)
    }

    /// Whether loading the environment map `name` has work to do: its cube
    /// map has not been made yet.
    pub fn needs_environment(&self, name: &str) -> (needed: bool)
        ensures
            needed == !self.cube_textures@.contains_key(name@),
    {
        !self.cube_textures.contains_key(name)
    }

    /// Stores a loaded model under `name`.
    pub fn insert_model(&mut self, name: &str, model: M)
        ensures
            final(self).models@ == old(self).models@.insert(name@, model),
            final(self).cube_textures@ == old(self).cube_textures@,
            final(self).bind_groups@ == old(self).bind_groups@,
    {
        self.models.insert(name.to_owned(), model);
    }

    /// Stores an environment map made from `name`: its bind group and its
    /// cube map.
    pub fn insert_environment(&mut self, name: &str, cube_texture: C, bind_group: B)
        ensures
            final(self).models@ == old(self).models@,
            final(self).cube_textures@ == old(self).cube_textures@.insert(name@, cube_texture),
            final(self).bind_groups@ == old(self).bind_groups@.insert(name@, bind_group),
    {
        self.bind_groups.insert(name.to_owned(), bind_group);
        self.cube_textures.insert(name.to_owned(), cube_texture);
    }
}

/// Once a model is stored, loading it again has no work to do and looking
/// it up gives what was stored.
pub proof fn law_model_loads_once<M>(models: Map<Seq<char>, M>, name: Seq<char>, model: M)
    ensures
        models.insert(name, model).contains_key(name),
        models.insert(name, model)[name] == model,
{
}

/// Whether a texture path names a texture embedded in the scene file
/// (such paths start with `*`).
pub open spec fn spec_is_embedded_reference(path: Seq<char>) -> bool {
    path.len() > 0 && path[0] == '*'
}

/// Whether a texture path names a texture embedded in the scene file.
pub fn is_embedded_reference(path: &str) -> (embedded: bool)
    ensures
        embedded == spec_is_embedded_reference(path@),
{
    path.unicode_len() > 0 && path.get_char(0) == '*'
}

/// What a material offers for one texture type.
pub struct TextureSlot {
    /// How many textures of this type the material has.
    pub count: usize,
    /// The path of the first one (meaningful when `count > 0`).
    pub path: String,
    /// The scene embeds a texture under that path.
    pub embedded_found: bool,
}

/// Where a material texture is read from.
#[derive(Clone, Copy, PartialEq, Eq, Debug, Structural)]
pub enum TextureSource {
    /// The texture embedded in the scene under the slot's path.
    Embedded { slot: usize },
    /// The file at the slot's path.
    File { slot: usize },
}

impl TextureSource {
    pub open spec fn spec_slot(self) -> usize {
        match self {
            TextureSource::Embedded { slot } => slot,
            TextureSource::File { slot } => slot,
        }
    }
}

/// Whether a slot yields a texture: it has one, and if that one is embedded
/// the scene holds it.
pub open spec fn spec_slot_usable(slot: TextureSlot) -> bool {
    slot.count > 0 && (!spec_is_embedded_reference(slot.path@) || slot.embedded_found)
}

/// Where to read a material texture from, trying the texture types in
/// order: the first type that yields a texture, or none.
pub fn select_material_texture(slots: &Vec<TextureSlot>) -> (source: Option<TextureSource>)
    ensures
        match source {
            None => forall|i: int| 0 <= i < slots@.len() ==> !spec_slot_usable(#[trigger] slots@[i]),
            Some(src) => {
                let i = src.spec_slot() as int;
                &&& 0 <= i < slots@.len()
                &&& spec_slot_usable(slots@[i])
                &&& forall|j: int| 0 <= j < i ==> !spec_slot_usable(#[trigger] slots@[j])
                &&& (src is Embedded <==> spec_is_embedded_reference(slots@[i].path@))
            },
        },
{
    let n = slots.len();
    let mut i: usize = 0;
    while i < n
        invariant
            n == slots@.len(),
            i <= n,
            forall|j: int| 0 <= j < i ==> !spec_slot_usable(#[trigger] slots@[j]),
        decreases n - i,
    {
        let slot = &slots[i];
        if slot.count > 0 {
            if is_embedded_reference(slot.path.as_str()) {
                if slot.embedded_found {
                    return Some(TextureSource::Embedded { slot: i });
                }
            } else {
                return Some(TextureSource::File { slot: i });
            }
        }
        i += 1;
    }
    None
}

/// The vertex indices of a mesh and how many there are.
pub struct MeshIndices {
    pub indices: Vec<u32>,
    /// The count as the GPU draw call takes it.
    pub num_elements: u32,
}

/// The index buffer of a mesh: the indices of its faces, face after face.
pub fn build_mesh_indices(faces: &Vec<Vec<u32>>) -> (mesh: MeshIndices)
    ensures
        mesh.indices@ == faces@.map_values(|f: Vec<u32>| f@).flatten(),
        mesh.num_elements == mesh.indices@.len() as u32,
{
    let ghost fs = faces@.map_values(|f: Vec<u32>| f@);
    let mut indices: Vec<u32> = Vec::new();
    let n = faces.len();
    let mut i: usize = 0;
    while i < n
        invariant
            n == faces@.len(),
            fs == faces@.map_values(|f: Vec<u32>| f@),
            i <= n,
            indices@ == fs.take(i as int).flatten(),
        decreases n - i,
    {
        let face = &faces[i];
        let k = face.len();
        let ghost before = indices@;
        let mut j: usize = 0;
        while j < k
            invariant
                k == face@.len(),
                j <= k,
                indices@ == before + face@.take(j as int),
            decreases k - j,
        {
            indices.push(face[j]);
            assert(face@.take(j + 1) =~= face@.take(j as int).push(face@[j as int]));
            j += 1;
        }
        proof {
            assert(face@.take(k as int) =~= face@);
            assert(fs[i as int] == face@);
            assert(fs.take(i + 1) =~= fs.take(i as int).push(fs[i as int]));
            fs.take(i as int).lemma_flatten_push(fs[i as int]);
        }
        i += 1;
    }
    assert(fs.take(n as int) =~= fs);
    let num_elements = indices.len() as u32;
    MeshIndices { indices, num_elements }
}

/// One texel of an uncompressed embedded texture.
#[derive(Clone, Copy, PartialEq, Eq, Debug, Structural)]
pub struct Texel {
    pub r: u8,
    pub g: u8,
    pub b: u8,
    pub a: u8,
}

/// The texels as RGBA bytes, four per texel, in order.
pub fn texels_to_rgba(texels: &Vec<Texel>) -> (bytes: Vec<u8>)
    ensures
        bytes@.len() == 4 * texels@.len(),
        forall|i: int|
            #![trigger texels@[i]]
            0 <= i < texels@.len() ==> {
                &&& bytes@[4 * i] == texels@[i].r
                &&& bytes@[4 * i + 1] == texels@[i].g
                &&& bytes@[4 * i + 2] == texels@[i].b
                &&& bytes@[4 * i + 3] == texels@[i].a
            },
{
    let mut bytes: Vec<u8> = Vec::new();
    let n = texels.len();
    let mut i: usize = 0;
    while i < n
        invariant
            n == texels@.len(),
            i <= n,
            bytes@.len() == 4 * i,
            forall|j: int|
                #![trigger texels@[j]]
                0 <= j < i ==> {
                    &&& bytes@[4 * j] == texels@[j].r
                    &&& bytes@[4 * j + 1] == texels@[j].g
                    &&& bytes@[4 * j + 2] == texels@[j].b
                    &&& bytes@[4 * j + 3] == texels@[j].a
                },
        decreases n - i,
    {
        let t = texels[i];
        bytes.push(t.r);
        bytes.push(t.g);
        bytes.push(t.b);
        bytes.push(t.a);
        i += 1;
    }
    bytes
}

/// The side of the square of texels that one compute workgroup converts.
pub const WORKGROUP_SIZE: u32 = 16;

/// The number of workgroups per side that cover a cube face of `dst_size`
/// texels.
pub fn workgroup_count(dst_size: u32) -> (count: u32)
    requires
        dst_size <= u32::MAX - 15,
    ensures
        count == (dst_size + 15) / 16,
        count * 16 >= dst_size,
        count * 16 < dst_size + 16,
{
    (dst_size + 15) / WORKGROUP_SIZE
}

/// The bytes in one row of an RGBA image with four 4-byte channels.
pub fn hdr_bytes_per_row(width: u32) -> (bytes: u32)
    requires
        width * 16 <= u32::MAX,
    ensures
        bytes == width * 16,
{
    width * 16
}

} // verus!
