//! The scene store: spheres, the material table, random generation, and
//! the validated upload forms of both GPU buffers.
//!
//! Sphere centers live in a volume the embedder samples with its
//! floating-point generator and hands in as bit patterns; the material
//! pick for each sphere is drawn here, through the random-number crate.
//! A pick is allowed to land past the material table — that is the
//! documented "no material" sentinel of generated content, not a broken
//! scene — and is clamped into range when the primitive buffer is built
//! for upload.

use vstd::prelude::*;

use crate::encode::{words_bytes, words_to_bytes};
use crate::fbits::F32_ONE_BITS;

verus! {

/// How many indices past the material table the generator may pick: the
/// headroom that makes the "no material" sentinel reachable.
pub const MATERIAL_PICK_HEADROOM: u32 = 4;

/// One renderable sphere. The center is widened to four lanes (x, y, z,
/// z), matching the storage-buffer stride; a negative radius (carried, as
/// everything real-valued, as an `f32` bit pattern) is a valid encoding
/// for hollow geometry.
#[derive(Clone, Copy, PartialEq, Eq, Debug)]
pub struct Sphere {
    pub center: [u32; 4],
    pub radius: u32,
    pub material_index: u32,
}

/// One material: base color and the three scalar response parameters, all
/// `f32` bit patterns.
#[derive(Clone, Copy, PartialEq, Eq, Debug)]
pub struct Material {
    pub color: [u32; 4],
    pub metallic: u32,
    pub roughness: u32,
    pub specular: u32,
}

/// The material kinds the shading model distinguishes.
#[derive(Clone, Copy, PartialEq, Eq, Structural, Debug)]
pub enum MaterialType {
    Metal,
}

/// Relies on rand's `Rng::gen_range` over the half-open range `0..bound`
/// on a thread-local generator: the sample lies in the range. The call
/// panics only on an empty range, which the precondition rules out.
#[verifier::external_body]
fn sample_below(bound: u32) -> (r: u32)
    requires
        bound >= 1,
    ensures
        r < bound,
{
    rand::Rng::gen_range(&mut rand::thread_rng(), 0..bound)
}

impl Material {
    pub fn new(color: [u32; 4], metallic: u32, roughness: u32, specular: u32) -> (m: Material)
        ensures
            m == (Material { color, metallic, roughness, specular }),
    {
        Material { color, metallic, roughness, specular }
    }
}

/// The sphere stands at `center` with unit radius and a material pick
/// inside the generator's headroom.
pub open spec fn sphere_placed(s: Sphere, center: [u32; 3], materials_len: u32) -> bool {
    &&& s.center@ == seq![center@[0], center@[1], center@[2], center@[2]]
    &&& s.radius == F32_ONE_BITS
    &&& s.material_index < materials_len + MATERIAL_PICK_HEADROOM
}

impl Sphere {
    /// Widen a three-lane center to the four-lane storage form (x, y, z, z).
    pub fn new(center: &[u32; 3], radius: u32, material_index: u32) -> (s: Sphere)
        ensures
            s.center@ == seq![center@[0], center@[1], center@[2], center@[2]],
            s.radius == radius,
            s.material_index == material_index,
    {
        let s = Sphere {
            center: [center[0], center[1], center[2], center[2]],
            radius,
            material_index,
        };
        proof {
            assert(s.center@ =~= seq![center@[0], center@[1], center@[2], center@[2]]);
        }
        s
    }

    /// One unit sphere per given center, each with an independently drawn
    /// material pick in `0 .. materials_len + MATERIAL_PICK_HEADROOM`.
    pub fn random_bunch(centers: &Vec<[u32; 3]>, materials_len: u32) -> (v: Vec<Sphere>)
        requires
            materials_len >= 1,
            materials_len + MATERIAL_PICK_HEADROOM <= u32::MAX,
        ensures
            v@.len() == centers@.len(),
            forall|i: int|
                0 <= i < v@.len() ==> #[trigger] sphere_placed(v@[i], centers@[i], materials_len),
    {
        let mut v: Vec<Sphere> = Vec::new();
        let n = centers.len();
        let mut i: usize = 0;
        while i < n
            invariant
                n == centers@.len(),
                i <= n,
                v@.len() == i,
                materials_len >= 1,
                materials_len + MATERIAL_PICK_HEADROOM <= u32::MAX,
                forall|j: int|
                    0 <= j < i ==> #[trigger] sphere_placed(v@[j], centers@[j], materials_len),
            decreases n - i,
        {
            let pick = sample_below(materials_len + MATERIAL_PICK_HEADROOM);
            let s = Sphere::new(&centers[i], F32_ONE_BITS, pick);
            v.push(s);
            i = i + 1;
        }
        v
    }
}

/// A material index clamped into the table: out-of-range picks fall back
/// to the last material, the default for generated content.
pub open spec fn clamped_index(idx: u32, mat_len: int) -> int {
    if idx < mat_len {
        idx as int
    } else {
        mat_len - 1
    }
}

/// The eight words of one sphere in the primitive storage buffer: the
/// four-lane center, the radius, the validated material index, and two
/// words of padding.
pub open spec fn sphere_upload_words(s: Sphere, mat_len: int) -> Seq<u32> {
    s.center@ + seq![s.radius, clamped_index(s.material_index, mat_len) as u32, 0u32, 0u32]
}

pub open spec fn spheres_upload_words(ss: Seq<Sphere>, mat_len: int) -> Seq<u32>
    decreases ss.len(),
{
    if ss.len() == 0 {
        Seq::empty()
    } else {
        sphere_upload_words(ss[0], mat_len) + spheres_upload_words(ss.drop_first(), mat_len)
    }
}

/// The eight words of one material in the material storage buffer: the
/// color, the three response parameters, and one word of padding.
pub open spec fn material_words(m: Material) -> Seq<u32> {
    m.color@ + seq![m.metallic, m.roughness, m.specular, 0u32]
}

pub open spec fn materials_words(ms: Seq<Material>) -> Seq<u32>
    decreases ms.len(),
{
    if ms.len() == 0 {
        Seq::empty()
    } else {
        material_words(ms[0]) + materials_words(ms.drop_first())
    }
}

proof fn lemma_spheres_upload_words_push(ss: Seq<Sphere>, s: Sphere, mat_len: int)
    ensures
        spheres_upload_words(ss.push(s), mat_len)
            == spheres_upload_words(ss, mat_len) + sphere_upload_words(s, mat_len),
    decreases ss.len(),
{
    if ss.len() == 0 {
        assert(ss.push(s)[0] == s);
        assert(ss.push(s).drop_first() =~= Seq::<Sphere>::empty());
        assert(spheres_upload_words(ss.push(s).drop_first(), mat_len) =~= Seq::<u32>::empty());
        assert(spheres_upload_words(ss.push(s), mat_len)
            =~= spheres_upload_words(ss, mat_len) + sphere_upload_words(s, mat_len));
    } else {
        assert(ss.push(s).drop_first() =~= ss.drop_first().push(s));
        lemma_spheres_upload_words_push(ss.drop_first(), s, mat_len);
        assert(spheres_upload_words(ss.push(s), mat_len)
            =~= spheres_upload_words(ss, mat_len) + sphere_upload_words(s, mat_len));
    }
}

pub proof fn lemma_spheres_upload_words_len(ss: Seq<Sphere>, mat_len: int)
    ensures
        spheres_upload_words(ss, mat_len).len() == 8 * ss.len(),
    decreases ss.len(),
{
    if ss.len() > 0 {
        lemma_spheres_upload_words_len(ss.drop_first(), mat_len);
    }
}

proof fn lemma_materials_words_push(ms: Seq<Material>, m: Material)
    ensures
        materials_words(ms.push(m)) == materials_words(ms) + material_words(m),
    decreases ms.len(),
{
    if ms.len() == 0 {
        assert(ms.push(m)[0] == m);
        assert(ms.push(m).drop_first() =~= Seq::<Material>::empty());
        assert(materials_words(ms.push(m).drop_first()) =~= Seq::<u32>::empty());
        assert(materials_words(ms.push(m))
            =~= materials_words(ms) + material_words(m));
    } else {
        assert(ms.push(m).drop_first() =~= ms.drop_first().push(m));
        lemma_materials_words_push(ms.drop_first(), m);
        assert(materials_words(ms.push(m))
            =~= materials_words(ms) + material_words(m));
    }
}

pub proof fn lemma_materials_words_len(ms: Seq<Material>)
    ensures
        materials_words(ms).len() == 8 * ms.len(),
    decreases ms.len(),
{
    if ms.len() > 0 {
        lemma_materials_words_len(ms.drop_first());
    }
}

/// The scene store: the ordered primitives and the material table they
/// reference. Immutable between reloads; a reload replaces both wholesale.
pub struct Scene {
    pub spheres: Vec<Sphere>,
    pub materials: Vec<Material>,
}

impl Scene {
    /// At least one material (so the upload clamp has a fallback), with
    /// headroom for the sentinel picks.
    pub open spec fn wf(self) -> bool {
        1 <= self.materials@.len()
            && self.materials@.len() + MATERIAL_PICK_HEADROOM <= u32::MAX
    }

    /// Generate a scene: one unit sphere per center the embedder sampled,
    /// with material picks drawn here, over the given material table.
    pub fn new(centers: &Vec<[u32; 3]>, materials: Vec<Material>) -> (s: Scene)
        requires
            1 <= materials@.len(),
            materials@.len() + MATERIAL_PICK_HEADROOM <= u32::MAX,
        ensures
            s.wf(),
            s.materials == materials,
            s.spheres@.len() == centers@.len(),
            forall|i: int|
                0 <= i < s.spheres@.len()
                    ==> #[trigger] sphere_placed(s.spheres@[i], centers@[i], materials@.len() as u32),
    {
        let materials_len = materials.len() as u32;
        let spheres = Sphere::random_bunch(centers, materials_len);
        Scene { spheres, materials }
    }

    /// Replace the whole scene with a freshly generated one: the primitive
    /// list and the material table change identity, nothing of the old
    /// scene survives.
    pub fn reload(&mut self, centers: &Vec<[u32; 3]>, materials: Vec<Material>)
        requires
            1 <= materials@.len(),
            materials@.len() + MATERIAL_PICK_HEADROOM <= u32::MAX,
        ensures
            final(self).wf(),
            final(self).materials == materials,
            final(self).spheres@.len() == centers@.len(),
            forall|i: int|
                0 <= i < final(self).spheres@.len()
                    ==> #[trigger] sphere_placed(
                        final(self).spheres@[i],
                        centers@[i],
                        materials@.len() as u32,
                    ),
    {
        *self = Scene::new(centers, materials);
    }

    /// The primitive storage buffer, validated at upload time: every
    /// material index is clamped into the table before it reaches the GPU,
    /// so the kernel never reads past the material buffer.
    pub fn primitives_as_bytes(&self) -> (r: Vec<u8>)
        requires
            self.wf(),
        ensures
            r@ == words_bytes(spheres_upload_words(self.spheres@, self.materials@.len() as int)),
            r@.len() == 32 * self.spheres@.len(),
    {
        let mat_len = self.materials.len() as u32;
        let mut words: Vec<u32> = Vec::new();
        let n = self.spheres.len();
        let mut i: usize = 0;
        while i < n
            invariant
                n == self.spheres@.len(),
                i <= n,
                mat_len == self.materials@.len(),
                mat_len >= 1,
                words@ == spheres_upload_words(self.spheres@.take(i as int), mat_len as int),
            decreases n - i,
        {
            let s = &self.spheres[i];
            let validated = if s.material_index < mat_len {
                s.material_index
            } else {
                mat_len - 1
            };
            words.push(s.center[0]);
            words.push(s.center[1]);
            words.push(s.center[2]);
            words.push(s.center[3]);
            words.push(s.radius);
            words.push(validated);
            words.push(0);
            words.push(0);
            proof {
                lemma_spheres_upload_words_push(
                    self.spheres@.take(i as int),
                    self.spheres@[i as int],
                    mat_len as int,
                );
                assert(self.spheres@.take(i as int).push(self.spheres@[i as int])
                    =~= self.spheres@.take(i as int + 1));
                assert(words@ =~= spheres_upload_words(
                    self.spheres@.take(i as int + 1),
                    mat_len as int,
                ));
            }
            i = i + 1;
        }
        proof {
            assert(self.spheres@.take(n as int) =~= self.spheres@);
            lemma_spheres_upload_words_len(self.spheres@, mat_len as int);
        }
        words_to_bytes(&words)
    }

    /// The material storage buffer: the table serialized in order.
    pub fn materials_as_bytes(&self) -> (r: Vec<u8>)
        ensures
            r@ == words_bytes(materials_words(self.materials@)),
            r@.len() == 32 * self.materials@.len(),
    {
        let mut words: Vec<u32> = Vec::new();
        let n = self.materials.len();
        let mut i: usize = 0;
        while i < n
            invariant
                n == self.materials@.len(),
                i <= n,
                words@ == materials_words(self.materials@.take(i as int)),
            decreases n - i,
        {
            let m = &self.materials[i];
            words.push(m.color[0]);
            words.push(m.color[1]);
            words.push(m.color[2]);
            words.push(m.color[3]);
            words.push(m.metallic);
            words.push(m.roughness);
            words.push(m.specular);
            words.push(0);
            proof {
                lemma_materials_words_push(
                    self.materials@.take(i as int),
                    self.materials@[i as int],
                );
                assert(self.materials@.take(i as int).push(self.materials@[i as int])
                    =~= self.materials@.take(i as int + 1));
                assert(words@ =~= materials_words(self.materials@.take(i as int + 1)));
            }
            i = i + 1;
        }
        proof {
            assert(self.materials@.take(n as int) =~= self.materials@);
            lemma_materials_words_len(self.materials@);
        }
        words_to_bytes(&words)
    }
}

} // verus!
