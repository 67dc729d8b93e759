use vstd::prelude::*;

verus! {

/// One vertex position; each component is the bit pattern of an `f32`.
#[derive(Clone, Copy, Debug, PartialEq, Eq, Structural)]
pub struct Vertex {
    pub x: u32,
    pub y: u32,
    pub z: u32,
}

/// Four color channels; each is the bit pattern of an `f32`.
#[derive(Clone, Copy, Debug, PartialEq, Eq, Structural)]
pub struct Rgba {
    pub r: u32,
    pub g: u32,
    pub b: u32,
    pub a: u32,
}

/// The GPU material record: ambient, diffuse and specular colors.
#[derive(Clone, Copy, Debug, PartialEq, Eq, Structural)]
pub struct Material {
    pub ambient: Rgba,
    pub diffuse: Rgba,
    pub specular: Rgba,
}

/// One primitive of a mesh; `positions` is `None` when it has no position accessor.
#[derive(Debug)]
pub struct PrimitiveData {
    pub positions: Option<Vec<Vertex>>,
}

/// One mesh: its primitives in document order.
#[derive(Debug)]
pub struct MeshData {
    pub primitives: Vec<PrimitiveData>,
}

/// How the GPU may use a buffer after its one upload.
#[derive(Clone, Copy, Debug, PartialEq, Eq, Structural)]
pub enum BufferUsage {
    /// Vertex-stage input.
    Vertex,
    /// Storage buffer bound to a shader.
    Storage,
}

/// The contents of a GPU buffer, uploaded once, and its usage.
#[derive(Debug)]
pub struct BufferUpload {
    pub contents: Vec<u8>,
    pub usage: BufferUsage,
}

/// A scene made ready for the GPU: its vertex and material records, and the
/// two buffers that hold them.
#[derive(Debug)]
pub struct SceneUpload {
    pub vertices: Vec<Vertex>,
    pub materials: Vec<Material>,
    pub vertex_buffer: BufferUpload,
    pub material_buffer: BufferUpload,
}

/// Bytes per vertex record: three tightly packed 32-bit floats.
pub const VERTEX_STRIDE: u64 = 12;

/// Bytes per material record: three groups of four 32-bit floats.
pub const MATERIAL_STRIDE: u64 = 48;

/// All channels zero; the bit pattern of `0.0f32` is zero.
pub open spec fn zero_rgba() -> Rgba {
    Rgba { r: 0, g: 0, b: 0, a: 0 }
}

/// The material record made from a base color factor.
pub open spec fn material_of(base_color: Rgba) -> Material {
    Material { ambient: base_color, diffuse: zero_rgba(), specular: zero_rgba() }
}

/// The vertices a primitive contributes.
pub open spec fn primitive_vertices(p: PrimitiveData) -> Seq<Vertex> {
    match p.positions {
        Some(v) => v@,
        None => Seq::empty(),
    }
}

/// The vertices of the first `n` primitives, in order.
pub open spec fn primitives_vertices(ps: Seq<PrimitiveData>, n: int) -> Seq<Vertex>
    decreases n,
{
    if n <= 0 {
        Seq::empty()
    } else {
        primitives_vertices(ps, n - 1) + primitive_vertices(ps[n - 1])
    }
}

/// The vertices a mesh contributes: its primitives', concatenated in order.
pub open spec fn mesh_vertices(m: MeshData) -> Seq<Vertex> {
    primitives_vertices(m.primitives@, m.primitives@.len() as int)
}

/// The vertices of the first `n` meshes, in order.
pub open spec fn meshes_vertices(ms: Seq<MeshData>, n: int) -> Seq<Vertex>
    decreases n,
{
    if n <= 0 {
        Seq::empty()
    } else {
        meshes_vertices(ms, n - 1) + mesh_vertices(ms[n - 1])
    }
}

/// The vertex sequence of a whole scene: mesh order outer, primitive order
/// inner, position order innermost.
pub open spec fn scene_vertices(ms: Seq<MeshData>) -> Seq<Vertex> {
    meshes_vertices(ms, ms.len() as int)
}

/// Number of positions a primitive carries.
pub open spec fn primitive_count(p: PrimitiveData) -> nat {
    match p.positions {
        Some(v) => v@.len(),
        None => 0,
    }
}

/// Sum of the position counts of the first `n` primitives.
pub open spec fn primitives_count(ps: Seq<PrimitiveData>, n: int) -> nat
    decreases n,
{
    if n <= 0 {
        0
    } else {
        primitives_count(ps, n - 1) + primitive_count(ps[n - 1])
    }
}

/// Sum of the position counts of the first `n` meshes.
pub open spec fn meshes_count(ms: Seq<MeshData>, n: int) -> nat
    decreases n,
{
    if n <= 0 {
        0
    } else {
        meshes_count(ms, n - 1) + primitives_count(ms[n - 1].primitives@, ms[n - 1].primitives@.len() as int)
    }
}

/// The 32-bit words of a vertex sequence, three per vertex.
pub open spec fn vertex_words(vs: Seq<Vertex>) -> Seq<u32>
    decreases vs.len(),
{
    if vs.len() == 0 {
        Seq::empty()
    } else {
        let v = vs.last();
        vertex_words(vs.drop_last()) + seq![v.x, v.y, v.z]
    }
}

/// The four words of a color.
pub open spec fn rgba_words(c: Rgba) -> Seq<u32> {
    seq![c.r, c.g, c.b, c.a]
}

/// The 32-bit words of a material sequence, twelve per material.
pub open spec fn material_words(ms: Seq<Material>) -> Seq<u32>
    decreases ms.len(),
{
    if ms.len() == 0 {
        Seq::empty()
    } else {
        material_words(ms.drop_last()) + material_record_words(ms.last())
    }
}

/// The twelve words of one material: ambient, diffuse, specular.
pub open spec fn material_record_words(m: Material) -> Seq<u32> {
    rgba_words(m.ambient) + rgba_words(m.diffuse) + rgba_words(m.specular)
}

/// The four bytes of a word, least significant first.
pub open spec fn le_bytes(w: u32) -> Seq<u8> {
    seq![(w % 256) as u8, ((w / 256) % 256) as u8, ((w / 65536) % 256) as u8, (w / 16777216) as u8]
}

/// The four bytes of a word, most significant first.
pub open spec fn be_bytes(w: u32) -> Seq<u8> {
    seq![(w / 16777216) as u8, ((w / 65536) % 256) as u8, ((w / 256) % 256) as u8, (w % 256) as u8]
}

/// The words as bytes, each word least significant byte first.
pub open spec fn words_le(ws: Seq<u32>) -> Seq<u8>
    decreases ws.len(),
{
    if ws.len() == 0 {
        Seq::empty()
    } else {
        words_le(ws.drop_last()) + le_bytes(ws.last())
    }
}

/// The words as bytes, each word most significant byte first.
pub open spec fn words_be(ws: Seq<u32>) -> Seq<u8>
    decreases ws.len(),
{
    if ws.len() == 0 {
        Seq::empty()
    } else {
        words_be(ws.drop_last()) + be_bytes(ws.last())
    }
}

proof fn lemma_material_words_len(ms: Seq<Material>)
    ensures
        material_words(ms).len() == 12 * ms.len(),
    decreases ms.len(),
{
    if ms.len() > 0 {
        lemma_material_words_len(ms.drop_last());
    }
}

/// Material `i` occupies words `12 * i` up to `12 * i + 12` of the material
/// words, in the order ambient, diffuse, specular.
pub proof fn lemma_material_words_at(ms: Seq<Material>, i: int)
    requires
        0 <= i < ms.len(),
    ensures
        material_words(ms).len() == 12 * ms.len(),
        material_words(ms).subrange(12 * i, 12 * i + 12) == material_record_words(ms[i]),
    decreases ms.len(),
{
    lemma_material_words_len(ms);
    let prefix = ms.drop_last();
    lemma_material_words_len(prefix);
    if i == ms.len() - 1 {
        assert(material_words(ms).subrange(12 * i, 12 * i + 12) =~= material_record_words(ms[i]));
    } else {
        lemma_material_words_at(prefix, i);
        assert(prefix[i] == ms[i]);
        assert(material_words(ms).subrange(12 * i, 12 * i + 12) =~= material_words(prefix).subrange(
            12 * i,
            12 * i + 12,
        ));
    }
}

/// The material buffer holds one twelve-word record per base color, in the
/// scene's order: the first four words are that base color, the other eight
/// (diffuse and specular) are zero.
pub proof fn lemma_material_buffer_layout(base_colors: Seq<Rgba>, ms: Seq<Material>, i: int)
    requires
        ms.len() == base_colors.len(),
        forall|k: int| 0 <= k < ms.len() ==> ms[k] == material_of(#[trigger] base_colors[k]),
        0 <= i < ms.len(),
    ensures
        material_words(ms).len() == 12 * base_colors.len(),
        material_words(ms).subrange(12 * i, 12 * i + 4) == rgba_words(base_colors[i]),
        forall|j: int| 12 * i + 4 <= j < 12 * i + 12 ==> material_words(ms)[j] == 0,
{
    lemma_material_words_at(ms, i);
    let w = material_words(ms);
    let rec = material_record_words(ms[i]);
    assert(ms[i] == material_of(base_colors[i]));
    assert forall|j: int| 12 * i + 4 <= j < 12 * i + 12 implies w[j] == 0 by {
        assert(w[j] == w.subrange(12 * i, 12 * i + 12)[j - 12 * i]);
        assert(rec[j - 12 * i] == 0);
    }
    assert(w.subrange(12 * i, 12 * i + 4) =~= rec.subrange(0, 4)) by {
        assert forall|j: int| 0 <= j < 4 implies w.subrange(12 * i, 12 * i + 4)[j] == rec.subrange(0, 4)[j] by {
            assert(w[12 * i + j] == w.subrange(12 * i, 12 * i + 12)[j]);
        }
    }
    assert(rec.subrange(0, 4) =~= rgba_words(base_colors[i]));
}

proof fn lemma_primitives_count(ps: Seq<PrimitiveData>, n: int)
    requires
        0 <= n <= ps.len(),
    ensures
        primitives_vertices(ps, n).len() == primitives_count(ps, n),
    decreases n,
{
    if n > 0 {
        lemma_primitives_count(ps, n - 1);
    }
}

proof fn lemma_meshes_count(ms: Seq<MeshData>, n: int)
    requires
        0 <= n <= ms.len(),
    ensures
        meshes_vertices(ms, n).len() == meshes_count(ms, n),
    decreases n,
{
    if n > 0 {
        lemma_meshes_count(ms, n - 1);
        lemma_primitives_count(ms[n - 1].primitives@, ms[n - 1].primitives@.len() as int);
    }
}

/// The vertex sequence of a scene holds exactly as many records as its
/// primitives carry positions, summed over every primitive of every mesh.
pub proof fn lemma_scene_vertex_count(ms: Seq<MeshData>)
    ensures
        scene_vertices(ms).len() == meshes_count(ms, ms.len() as int),
{
    lemma_meshes_count(ms, ms.len() as int);
}

proof fn lemma_meshes_prefix(ms: Seq<MeshData>, m: MeshData, n: int)
    requires
        0 <= n <= ms.len(),
    ensures
        meshes_vertices(ms.push(m), n) == meshes_vertices(ms, n),
    decreases n,
{
    if n > 0 {
        lemma_meshes_prefix(ms, m, n - 1);
        assert(ms.push(m)[n - 1] == ms[n - 1]);
    }
}

/// Appending a mesh to a scene appends exactly that mesh's vertices, in
/// order, after the scene's own.
pub proof fn lemma_append_mesh(ms: Seq<MeshData>, m: MeshData)
    ensures
        scene_vertices(ms.push(m)) == scene_vertices(ms) + mesh_vertices(m),
{
    lemma_meshes_prefix(ms, m, ms.len() as int);
    assert(ms.push(m)[ms.len() as int] == m);
}

/// Concatenates the positions of every primitive of every mesh, in document order.
pub fn ingest_vertices(meshes: &Vec<MeshData>) -> (r: Vec<Vertex>)
    ensures
        r@ == scene_vertices(meshes@),
{
    let mut out: Vec<Vertex> = Vec::new();
    let mut i: usize = 0;
    while i < meshes.len()
        invariant
            i <= meshes@.len(),
            out@ == meshes_vertices(meshes@, i as int),
        decreases meshes@.len() - i,
    {
        let mesh = &meshes[i];
        let ghost before = out@;
        let mut j: usize = 0;
        while j < mesh.primitives.len()
            invariant
                i < meshes@.len(),
                *mesh == meshes@[i as int],
                j <= mesh.primitives@.len(),
                out@ == before + primitives_vertices(mesh.primitives@, j as int),
            decreases mesh.primitives@.len() - j,
        {
            let ghost mid = out@;
            match &mesh.primitives[j].positions {
                Some(positions) => {
                    let mut k: usize = 0;
                    while k < positions.len()
                        invariant
                            k <= positions@.len(),
                            out@ == mid + positions@.subrange(0, k as int),
                        decreases positions@.len() - k,
                    {
                        out.push(positions[k]);
                        k = k + 1;
                        assert(positions@.subrange(0, k as int) =~= positions@.subrange(0, k - 1) + seq![positions@[k - 1]]);
                    }
                    assert(positions@.subrange(0, k as int) =~= positions@);
                },
                None => {},
            }
            assert(out@ =~= before + primitives_vertices(mesh.primitives@, j + 1));
            j = j + 1;
        }
        i = i + 1;
        assert(out@ =~= meshes_vertices(meshes@, i as int));
    }
    out
}

/// One material record per base color factor, in the same order: the factor
/// fills the ambient channel, diffuse and specular stay zero.
pub fn ingest_materials(base_colors: &Vec<Rgba>) -> (r: Vec<Material>)
    ensures
        r@.len() == base_colors@.len(),
        forall|i: int| 0 <= i < r@.len() ==> r@[i] == material_of(#[trigger] base_colors@[i]),
{
    let mut out: Vec<Material> = Vec::new();
    let mut i: usize = 0;
    while i < base_colors.len()
        invariant
            i <= base_colors@.len(),
            out@.len() == i,
            forall|k: int| 0 <= k < i ==> out@[k] == material_of(#[trigger] base_colors@[k]),
        decreases base_colors@.len() - i,
    {
        let zero = Rgba { r: 0, g: 0, b: 0, a: 0 };
        out.push(Material { ambient: base_colors[i], diffuse: zero, specular: zero });
        i = i + 1;
    }
    out
}

/// The 32-bit words of the vertex buffer, three per vertex, in order.
pub fn vertex_buffer_words(vertices: &Vec<Vertex>) -> (r: Vec<u32>)
    ensures
        r@ == vertex_words(vertices@),
        r@.len() == 3 * vertices@.len(),
{
    let mut out: Vec<u32> = Vec::new();
    let mut i: usize = 0;
    while i < vertices.len()
        invariant
            i <= vertices@.len(),
            out@ == vertex_words(vertices@.subrange(0, i as int)),
            out@.len() == 3 * i,
        decreases vertices@.len() - i,
    {
        let v = vertices[i];
        out.push(v.x);
        out.push(v.y);
        out.push(v.z);
        proof {
            let next = vertices@.subrange(0, i + 1);
            assert(next.drop_last() =~= vertices@.subrange(0, i as int));
            assert(out@ =~= vertex_words(next));
        }
        i = i + 1;
    }
    assert(vertices@.subrange(0, i as int) =~= vertices@);
    out
}

/// The 32-bit words of the material buffer, twelve per material, in order.
pub fn material_buffer_words(materials: &Vec<Material>) -> (r: Vec<u32>)
    ensures
        r@ == material_words(materials@),
        r@.len() == 12 * materials@.len(),
{
    let mut out: Vec<u32> = Vec::new();
    let mut i: usize = 0;
    while i < materials.len()
        invariant
            i <= materials@.len(),
            out@ == material_words(materials@.subrange(0, i as int)),
            out@.len() == 12 * i,
        decreases materials@.len() - i,
    {
        let m = materials[i];
        push_rgba(&mut out, m.ambient);
        push_rgba(&mut out, m.diffuse);
        push_rgba(&mut out, m.specular);
        proof {
            let next = materials@.subrange(0, i + 1);
            assert(next.drop_last() =~= materials@.subrange(0, i as int));
            assert(out@ =~= material_words(next));
        }
        i = i + 1;
    }
    assert(materials@.subrange(0, i as int) =~= materials@);
    out
}

fn push_rgba(out: &mut Vec<u32>, c: Rgba)
    ensures
        final(out)@ == old(out)@ + rgba_words(c),
{
    out.push(c.r);
    out.push(c.g);
    out.push(c.b);
    out.push(c.a);
    assert(out@ =~= old(out)@ + rgba_words(c));
}

/// Relies on bytemuck::cast_slice from `u32` to `u8`: the same memory seen as
/// bytes, four per word in the machine's byte order, which is either little or
/// big endian for every word alike.
#[verifier::external_body]
fn words_as_bytes(words: &Vec<u32>) -> (r: Vec<u8>)
    ensures
        r@.len() == 4 * words@.len(),
        r@ == words_le(words@) || r@ == words_be(words@),
{
    bytemuck::cast_slice::<u32, u8>(words.as_slice()).to_vec()
}

/// The contents uploaded to the vertex buffer: the vertex words as bytes,
/// `VERTEX_STRIDE` bytes per vertex.
pub fn vertex_buffer_bytes(vertices: &Vec<Vertex>) -> (r: Vec<u8>)
    ensures
        r@.len() == VERTEX_STRIDE * vertices@.len(),
        r@ == words_le(vertex_words(vertices@)) || r@ == words_be(vertex_words(vertices@)),
{
    let words = vertex_buffer_words(vertices);
    words_as_bytes(&words)
}

/// The contents uploaded to the material buffer: the material words as bytes,
/// `MATERIAL_STRIDE` bytes per material.
pub fn material_buffer_bytes(materials: &Vec<Material>) -> (r: Vec<u8>)
    ensures
        r@.len() == MATERIAL_STRIDE * materials@.len(),
        r@ == words_le(material_words(materials@)) || r@ == words_be(material_words(materials@)),
{
    let words = material_buffer_words(materials);
    words_as_bytes(&words)
}

/// The draw call's vertex range end: the number of vertices, or `None` when it
/// does not fit the 32-bit range a draw call takes.
pub fn vertex_count(vertices: &Vec<Vertex>) -> (r: Option<u32>)
    ensures
        r == (if vertices@.len() <= u32::MAX { Some(vertices@.len() as u32) } else { None::<u32> }),
{
    let n = vertices.len();
    if n <= 0xffff_ffffusize {
        Some(n as u32)
    } else {
        None
    }
}

/// The vertex buffer: the vertex bytes, for vertex-stage input.
pub fn vertex_buffer(vertices: &Vec<Vertex>) -> (r: BufferUpload)
    ensures
        r.usage == BufferUsage::Vertex,
        r.contents@.len() == VERTEX_STRIDE * vertices@.len(),
        r.contents@ == words_le(vertex_words(vertices@)) || r.contents@ == words_be(vertex_words(vertices@)),
{
    BufferUpload { contents: vertex_buffer_bytes(vertices), usage: BufferUsage::Vertex }
}

/// The material buffer: the material bytes, for a storage binding.
pub fn material_buffer(materials: &Vec<Material>) -> (r: BufferUpload)
    ensures
        r.usage == BufferUsage::Storage,
        r.contents@.len() == MATERIAL_STRIDE * materials@.len(),
        r.contents@ == words_le(material_words(materials@)) || r.contents@ == words_be(
            material_words(materials@),
        ),
{
    BufferUpload { contents: material_buffer_bytes(materials), usage: BufferUsage::Storage }
}

/// Ingests a scene: its vertices in document order and one material per base
/// color, and the two buffers that hold them.
pub fn ingest_scene(meshes: &Vec<MeshData>, base_colors: &Vec<Rgba>) -> (r: SceneUpload)
    ensures
        r.vertices@ == scene_vertices(meshes@),
        r.vertices@.len() == meshes_count(meshes@, meshes@.len() as int),
        r.materials@.len() == base_colors@.len(),
        forall|i: int| 0 <= i < r.materials@.len() ==> r.materials@[i] == material_of(#[trigger] base_colors@[i]),
        r.vertex_buffer.usage == BufferUsage::Vertex,
        r.vertex_buffer.contents@.len() == VERTEX_STRIDE * meshes_count(meshes@, meshes@.len() as int),
        r.vertex_buffer.contents@ == words_le(vertex_words(scene_vertices(meshes@)))
            || r.vertex_buffer.contents@ == words_be(vertex_words(scene_vertices(meshes@))),
        r.material_buffer.usage == BufferUsage::Storage,
        r.material_buffer.contents@.len() == MATERIAL_STRIDE * base_colors@.len(),
        r.material_buffer.contents@ == words_le(material_words(r.materials@))
            || r.material_buffer.contents@ == words_be(material_words(r.materials@)),
{
    let vertices = ingest_vertices(meshes);
    proof {
        lemma_scene_vertex_count(meshes@);
    }
    let materials = ingest_materials(base_colors);
    let vertex_buffer = vertex_buffer(&vertices);
    let material_buffer = material_buffer(&materials);
    SceneUpload { vertices, materials, vertex_buffer, material_buffer }
}

} // verus!
