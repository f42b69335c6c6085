use std::path::PathBuf;
use ultraviolet::Mat4;
use vstd::prelude::*;
use vstd::multiset::Multiset;
use vstd::std_specs::cmp::PartialEqSpecImpl;
use vstd::utf8::encode_utf8;

verus! {

/// `std::path::PathBuf`, carried through opaquely.
#[verifier::external_type_specification]
#[verifier::external_body]
pub struct ExPathBuf(PathBuf);

/// `ultraviolet::Mat4`, a transform matrix, carried through opaquely.
#[verifier::external_type_specification]
#[verifier::external_body]
pub struct ExMat4(Mat4);

/// A material: a name and the compiled vertex and fragment shaders it draws with.
pub struct Material {
    pub name: String,
    pub vertex_shader_path: PathBuf,
    pub fragment_shader_path: PathBuf,
}

impl Material {
    pub fn new(name: String, vertex_shader_path: PathBuf, fragment_shader_path: PathBuf) -> (r:
        Self)
        ensures
            r.name == name,
            r.vertex_shader_path == vertex_shader_path,
            r.fragment_shader_path == fragment_shader_path,
    {
        Material { name, vertex_shader_path, fragment_shader_path }
    }
}

/// What a texture is sampled for.
#[derive(Clone, Copy, Debug, PartialEq, Eq, Structural)]
pub enum MapType {
    Diffuse,
    Normal,
}

/// A texture to be loaded from an image file.
pub struct Texture {
    pub name: String,
    pub file_path: PathBuf,
    pub map_type: MapType,
}

/// The decoded pixels of a texture, four bytes per pixel.
pub struct TextureRaw {
    pub buffer: Vec<u8>,
    pub width: u32,
    pub height: u32,
    pub bit_depth: u32,
    pub size: u32,
}

/// Bytes per pixel of decoded textures (RGBA, eight bits per channel).
pub const TEXTURE_BIT_DEPTH: u32 = 4;

impl Texture {
    /// A texture read from `file_path`; the map type defaults to diffuse.
    pub fn new(name: &String, file_path: PathBuf, map_type: Option<MapType>) -> (r: Self)
        ensures
            r.name == *name,
            r.file_path == file_path,
            r.map_type == match map_type {
                Some(m) => m,
                None => MapType::Diffuse,
            },
    {
        let map_type = match map_type {
            Some(m) => m,
            None => MapType::Diffuse,
        };
        Texture { name: name.clone(), file_path, map_type }
    }
}

impl TextureRaw {
    /// Decoded RGBA pixels of a `width` by `height` image; its size in bytes is the pixel count
    /// times the bit depth.
    pub fn from_rgba8(buffer: Vec<u8>, width: u32, height: u32) -> (r: Self)
        requires
            width * height * TEXTURE_BIT_DEPTH <= u32::MAX,
        ensures
            r.buffer == buffer,
            r.width == width,
            r.height == height,
            r.bit_depth == TEXTURE_BIT_DEPTH,
            r.size == width * height * TEXTURE_BIT_DEPTH,
    {
        assert(width * height <= width * height * 4) by (nonlinear_arith);
        let bit_depth = TEXTURE_BIT_DEPTH;
        let size = width * height * bit_depth;
        TextureRaw { buffer, width, height, bit_depth, size }
    }
}

/// A mesh to draw with a material, placed in the world by a transform.
pub struct Renderable {
    pub mesh_name: String,
    pub material_name: String,
    pub transform: Mat4,
}

impl Renderable {
    pub fn new(mesh_name: String, material_name: String, transform: Mat4) -> (r: Self)
        ensures
            r.mesh_name == mesh_name,
            r.material_name == material_name,
            r.transform == transform,
    {
        Renderable { mesh_name, material_name, transform }
    }
}

/// Two renderables are equal when they use the same material and the same mesh, wherever they
/// are placed.
pub open spec fn same_draw(a: &Renderable, b: &Renderable) -> bool {
    a.material_name@ == b.material_name@ && a.mesh_name@ == b.mesh_name@
}

impl PartialEq for Renderable {
    fn eq(&self, other: &Self) -> (r: bool) {
        self.material_name == other.material_name && self.mesh_name == other.mesh_name
    }
}

impl PartialEqSpecImpl for Renderable {
    open spec fn obeys_eq_spec() -> bool {
        true
    }

    open spec fn eq_spec(&self, other: &Renderable) -> bool {
        same_draw(self, other)
    }
}

/// The result of comparing two values.
#[derive(Clone, Copy, Debug, PartialEq, Eq, Structural)]
pub enum Order {
    Less,
    Equal,
    Greater,
}

/// Lexicographic order of byte strings (a proper prefix comes first).
pub open spec fn bytes_lt(a: Seq<u8>, b: Seq<u8>) -> bool
    decreases a.len(),
{
    if a.len() == 0 {
        b.len() > 0
    } else if b.len() == 0 {
        false
    } else if a[0] != b[0] {
        a[0] < b[0]
    } else {
        bytes_lt(a.drop_first(), b.drop_first())
    }
}

/// The order of two byte strings as an [`Order`].
pub open spec fn bytes_order(a: Seq<u8>, b: Seq<u8>) -> Order {
    if bytes_lt(a, b) {
        Order::Less
    } else if a == b {
        Order::Equal
    } else {
        Order::Greater
    }
}

/// The UTF-8 bytes of a string, by which strings are ordered.
pub open spec fn name_bytes(s: &String) -> Seq<u8> {
    encode_utf8(s@)
}

/// Renderables are ordered by material name, then by mesh name, so that draws sharing a
/// material (and then a mesh) come next to each other.
pub open spec fn renderable_lt(a: &Renderable, b: &Renderable) -> bool {
    ||| bytes_lt(name_bytes(&a.material_name), name_bytes(&b.material_name))
    ||| name_bytes(&a.material_name) == name_bytes(&b.material_name) && bytes_lt(
        name_bytes(&a.mesh_name),
        name_bytes(&b.mesh_name),
    )
}

/// A sequence of renderables in draw order.
pub open spec fn renderables_sorted(s: Seq<Renderable>) -> bool {
    forall|i: int, j: int| 0 <= i < j < s.len() ==> !renderable_lt(&s[j], &s[i])
}

pub proof fn lemma_bytes_lt_irreflexive(a: Seq<u8>)
    ensures
        !bytes_lt(a, a),
    decreases a.len(),
{
    if a.len() > 0 {
        lemma_bytes_lt_irreflexive(a.drop_first());
    }
}

pub proof fn lemma_bytes_lt_transitive(a: Seq<u8>, b: Seq<u8>, c: Seq<u8>)
    requires
        bytes_lt(a, b),
        bytes_lt(b, c),
    ensures
        bytes_lt(a, c),
    decreases a.len(),
{
    if a.len() > 0 && b.len() > 0 && c.len() > 0 && a[0] == b[0] && b[0] == c[0] {
        lemma_bytes_lt_transitive(a.drop_first(), b.drop_first(), c.drop_first());
    }
}

/// Of two different byte strings, exactly one comes first.
pub proof fn lemma_bytes_lt_total(a: Seq<u8>, b: Seq<u8>)
    ensures
        a != b ==> (bytes_lt(a, b) || bytes_lt(b, a)),
        !(bytes_lt(a, b) && bytes_lt(b, a)),
    decreases a.len(),
{
    if a.len() > 0 && b.len() > 0 && a[0] == b[0] {
        lemma_bytes_lt_total(a.drop_first(), b.drop_first());
        if a != b {
            if a.drop_first() == b.drop_first() {
                assert(a =~= seq![a[0]] + a.drop_first());
                assert(b =~= seq![b[0]] + b.drop_first());
            }
        }
    } else if a.len() == 0 && b.len() == 0 {
        assert(a =~= b);
    }
}

/// The render order is a strict total order on (material, mesh) names.
pub proof fn lemma_renderable_order(a: Renderable, b: Renderable, c: Renderable)
    ensures
        !renderable_lt(&a, &a),
        !(renderable_lt(&a, &b) && renderable_lt(&b, &a)),
        renderable_lt(&a, &b) && renderable_lt(&b, &c) ==> renderable_lt(&a, &c),
        !renderable_lt(&a, &b) && !renderable_lt(&b, &a) ==> name_bytes(&a.material_name)
            == name_bytes(&b.material_name) && name_bytes(&a.mesh_name) == name_bytes(
            &b.mesh_name,
        ),
{
    let (am, bm, cm) = (
        name_bytes(&a.material_name),
        name_bytes(&b.material_name),
        name_bytes(&c.material_name),
    );
    let (ah, bh, ch) = (name_bytes(&a.mesh_name), name_bytes(&b.mesh_name), name_bytes(&c.mesh_name));
    lemma_bytes_lt_irreflexive(am);
    lemma_bytes_lt_irreflexive(ah);
    lemma_bytes_lt_total(am, bm);
    lemma_bytes_lt_total(ah, bh);
    if renderable_lt(&a, &b) && renderable_lt(&b, &c) {
        if bytes_lt(am, bm) && bytes_lt(bm, cm) {
            lemma_bytes_lt_transitive(am, bm, cm);
        }
        if bytes_lt(ah, bh) && bytes_lt(bh, ch) {
            lemma_bytes_lt_transitive(ah, bh, ch);
        }
    }
}

/// Compares two byte strings lexicographically.
pub fn compare_bytes(a: &[u8], b: &[u8]) -> (r: Order)
    ensures
        r == bytes_order(a@, b@),
{
    let mut i: usize = 0;
    proof {
        assert(a@.skip(0) =~= a@);
        assert(b@.skip(0) =~= b@);
    }
    while i < a.len() && i < b.len()
        invariant
            i <= a@.len(),
            i <= b@.len(),
            a@.subrange(0, i as int) == b@.subrange(0, i as int),
            bytes_lt(a@, b@) == bytes_lt(a@.skip(i as int), b@.skip(i as int)),
            bytes_lt(b@, a@) == bytes_lt(b@.skip(i as int), a@.skip(i as int)),
        decreases a@.len() - i,
    {
        if a[i] != b[i] {
            proof {
                lemma_bytes_lt_total(a@, b@);
            }
            if a[i] < b[i] {
                return Order::Less;
            } else {
                return Order::Greater;
            }
        }
        proof {
            assert(a@.skip(i as int).drop_first() =~= a@.skip(i + 1));
            assert(b@.skip(i as int).drop_first() =~= b@.skip(i + 1));
            assert(a@.subrange(0, i + 1) =~= a@.subrange(0, i as int).push(a@[i as int]));
            assert(b@.subrange(0, i + 1) =~= b@.subrange(0, i as int).push(b@[i as int]));
        }
        i = i + 1;
    }
    proof {
        lemma_bytes_lt_total(a@, b@);
        if a.len() == b.len() {
            assert(a@ =~= a@.subrange(0, i as int));
            assert(b@ =~= b@.subrange(0, i as int));
        } else if i == a.len() {
            assert(a@ =~= a@.subrange(0, i as int));
        } else {
            assert(b@ =~= b@.subrange(0, i as int));
        }
    }
    if a.len() < b.len() {
        Order::Less
    } else if a.len() == b.len() {
        Order::Equal
    } else {
        Order::Greater
    }
}

/// Compares two names by their UTF-8 bytes (the order of Rust strings).
pub fn compare_names(a: &String, b: &String) -> (r: Order)
    ensures
        r == bytes_order(name_bytes(a), name_bytes(b)),
{
    compare_bytes(a.as_str().as_bytes(), b.as_str().as_bytes())
}

impl Renderable {
    /// Compares two renderables in draw order: by material name, then by mesh name.
    pub fn compare(&self, other: &Self) -> (r: Order)
        ensures
            (r == Order::Less) == renderable_lt(self, other),
            (r == Order::Greater) == renderable_lt(other, self),
            (r == Order::Equal) == (!renderable_lt(self, other) && !renderable_lt(other, self)),
    {
        proof {
            lemma_renderable_order(*self, *other, *self);
            lemma_renderable_order(*other, *self, *other);
        }
        match compare_names(&self.material_name, &other.material_name) {
            Order::Equal => compare_names(&self.mesh_name, &other.mesh_name),
            ordering => ordering,
        }
    }
}

/// Sorts renderables into draw order, keeping every renderable exactly once.
pub fn sort_renderables(scene: &mut Vec<Renderable>)
    ensures
        renderables_sorted(final(scene)@),
        final(scene)@.to_multiset() == old(scene)@.to_multiset(),
{
    broadcast use vstd::seq_lib::group_to_multiset_ensures;

    let ghost original = scene@;
    let mut sorted: Vec<Renderable> = Vec::new();
    while scene.len() > 0
        invariant
            renderables_sorted(sorted@),
            sorted@.to_multiset().add(scene@.to_multiset()) == original.to_multiset(),
        decreases scene@.len(),
    {
        let ghost before = scene@;
        let item = scene.pop().unwrap();
        proof {
            assert(before =~= scene@.push(item));
        }
        let mut p: usize = 0;
        while p < sorted.len() && !(item.compare(&sorted[p]) == Order::Less)
            invariant
                p <= sorted@.len(),
                forall|k: int| 0 <= k < p ==> !renderable_lt(&item, &sorted@[k]),
            decreases sorted@.len() - p,
        {
            p = p + 1;
        }
        let ghost prev = sorted@;
        proof {
            assert forall|i: int, j: int|
                0 <= i < j < prev.len() + 1 implies !renderable_lt(
                &#[trigger] prev.insert(p as int, item)[j],
                &#[trigger] prev.insert(p as int, item)[i],
            ) by {
                let s = prev.insert(p as int, item);
                if j == p {
                    assert(s[i] == prev[i]);
                } else if i == p {
                    assert(s[j] == prev[j - 1]);
                    if p < prev.len() {
                        assert(renderable_lt(&item, &prev[p as int]));
                        lemma_renderable_order(prev[j - 1], item, prev[p as int]);
                        if p < j - 1 {
                            assert(!renderable_lt(&prev[j - 1], &prev[p as int]));
                        }
                    }
                } else {
                    let pi = if i < p { i } else { i - 1 };
                    let pj = if j < p { j } else { j - 1 };
                    assert(s[i] == prev[pi]);
                    assert(s[j] == prev[pj]);
                }
            }
        }
        sorted.insert(p, item);
        proof {
            let s = sorted@;
            s.to_multiset_ensures();
            before.to_multiset_ensures();
            scene@.to_multiset_ensures();
            assert(s.remove(p as int) =~= prev);
            assert(s[p as int] == item);
            assert(s.contains(item));
            assert(s.remove(p as int).to_multiset() == s.to_multiset().remove(s[p as int]));
            assert(prev.to_multiset() == s.to_multiset().remove(item));
            assert(s.to_multiset().count(item) > 0);
            assert(s.to_multiset() =~= prev.to_multiset().insert(item));
            assert(before.to_multiset() =~= scene@.to_multiset().insert(item));
            assert(s.to_multiset().add(scene@.to_multiset()) =~= prev.to_multiset().add(
                before.to_multiset(),
            ));
        }
    }
    proof {
        assert(scene@ =~= Seq::<Renderable>::empty());
        assert(scene@.to_multiset() =~= Multiset::empty());
        assert(sorted@.to_multiset().add(Multiset::empty()) =~= sorted@.to_multiset());
    }
    *scene = sorted;
}

} // verus!
