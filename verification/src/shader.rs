use vstd::prelude::*;
use crate::vertex::Attribute;

verus! {

/// Identifier of a shader in a gx3d asset file.
pub type Id = u64;

pub const WHITE_ID: Id = 0;

pub const DIRECTIONAL_TEXTURED_SPECULATED_NOCUBE_FULLSHADOW_OPAQUE_ID: Id = 2207629967616;

/// Number of bytes a shader id takes in a gx3d file.
pub const ID_BYTES_COUNT: usize = 6;

/// The shaders that the engine knows.
pub open spec fn is_known_shader_id(id: Id) -> bool {
    id == WHITE_ID || id == DIRECTIONAL_TEXTURED_SPECULATED_NOCUBE_FULLSHADOW_OPAQUE_ID
}

/// The number whose big-endian base-256 digits are `s`.
pub open spec fn big_endian_value(s: Seq<u8>) -> nat
    decreases s.len(),
{
    if s.len() == 0 {
        0
    } else {
        (big_endian_value(s.drop_last()) * 256 + s.last()) as nat
    }
}

/// 2 to the 64th: the number of values of a `u64`.
pub open spec fn u64_modulus() -> nat {
    0x1_0000_0000_0000_0000
}

proof fn lemma_shift_or_byte(x: u64, b: u8)
    ensures
        ((x << 8u64) | (b as u64)) as int == (x as int * 256 + b as int) % (u64_modulus() as int),
{
    assert(((x << 8u64) | (b as u64)) == (x % 0x100_0000_0000_0000u64) * 256 + (b as u64)) by (bit_vector);
    let m = u64_modulus() as int;
    let h = 0x100_0000_0000_0000int;
    vstd::arithmetic::div_mod::lemma_fundamental_div_mod(x as int, h);
    let q = (x as int) / h;
    let r = (x as int) % h;
    assert(x as int * 256 + b as int == (r * 256 + b as int) + q * m) by (nonlinear_arith)
        requires
            x as int == h * q + r,
            m == h * 256,
    ;
    assert(0 <= r * 256 + (b as int) < m) by (nonlinear_arith)
        requires
            0 <= r < h,
            0 <= (b as int) < 256,
            m == h * 256,
    ;
    vstd::arithmetic::div_mod::lemma_mod_multiples_vanish(q, r * 256 + b as int, m);
    vstd::arithmetic::div_mod::lemma_small_mod((r * 256 + b as int) as nat, m as nat);
}

proof fn lemma_mod_step(a: int, b: int)
    requires
        a >= 0,
        0 <= b < 256,
    ensures
        ((a % (u64_modulus() as int)) * 256 + b) % (u64_modulus() as int) == (a * 256 + b) % (u64_modulus() as int),
{
    let m = u64_modulus() as int;
    vstd::arithmetic::div_mod::lemma_fundamental_div_mod(a, m);
    let q = a / m;
    let r = a % m;
    assert(a * 256 + b == (r * 256 + b) + (q * 256) * m) by (nonlinear_arith)
        requires a == q * m + r;
    vstd::arithmetic::div_mod::lemma_mod_multiples_vanish(q * 256, r * 256 + b, m);
}

/// Reads a shader id from its bytes in a gx3d file: the bytes are the digits
/// of the id, most significant first; bytes beyond the last eight shift out.
pub fn from_gx3d_id(v: Vec<u8>) -> (id: Id)
    ensures
        id as int == big_endian_value(v@) as int % (u64_modulus() as int),
{
    let mut id: Id = 0;
    let mut i: usize = 0;
    while i < v.len()
        invariant
            0 <= i <= v.len(),
            id as int == big_endian_value(v@.take(i as int)) as int % (u64_modulus() as int),
        decreases v.len() - i,
    {
        let b = v[i];
        proof {
            let pre = v@.take(i as int);
            let post = v@.take(i + 1);
            assert(post.drop_last() =~= pre);
            assert(post.last() == b);
            lemma_shift_or_byte(id, b);
            lemma_mod_step(big_endian_value(pre) as int, b as int);
        }
        id = (id << 8u64) | (b as u64);
        i = i + 1;
    }
    assert(v@.take(v.len() as int) =~= v@);
    id
}

/// Size in bytes of one vertex of the shader `sid`.
pub open spec fn spec_vertex_size(sid: Id) -> nat {
    if sid == WHITE_ID {
        12
    } else {
        32
    }
}

/// Size in bytes of one vertex of the shader `sid`.
pub fn get_vertex_size(sid: Id) -> (size: usize)
    requires
        is_known_shader_id(sid),
    ensures
        size == spec_vertex_size(sid),
{
    if sid == WHITE_ID {
        12
    } else {
        32
    }
}

/// The vertex layout that the shader `id` reads.
pub open spec fn spec_vertex_attributes(id: Id) -> Seq<Attribute> {
    if id == WHITE_ID {
        seq![Attribute::Vec3F32]
    } else {
        seq![Attribute::Vec3F32, Attribute::Vec3F32, Attribute::Vec2F32]
    }
}

/// The vertex layout that the shader `id` reads.
pub fn shader_id_to_vertex_attributes(id: Id) -> (attrs: Vec<Attribute>)
    requires
        is_known_shader_id(id),
    ensures
        attrs@ == spec_vertex_attributes(id),
{
    if id == WHITE_ID {
        vec![Attribute::Vec3F32]
    } else {
        vec![Attribute::Vec3F32, Attribute::Vec3F32, Attribute::Vec2F32]
    }
}

/// The pipeline stage a resource is bound to.
#[derive(PartialEq, Eq, Structural, Clone, Copy, Debug)]
pub enum BindingStage {
    Vertex,
    Fragment,
}

/// The kind of a shader resource.
#[derive(PartialEq, Eq, Structural, Clone, Copy, Debug)]
pub enum ResourceType {
    Uniform,
}

/// The resources that the shader `id` binds: each one is the stages it is
/// visible in, its count and its kind. Both known shaders bind one uniform
/// visible to the vertex stage.
pub fn shader_id_resources(id: Id) -> (res: Vec<(Vec<BindingStage>, u32, ResourceType)>)
    requires
        is_known_shader_id(id),
    ensures
        res@.len() == 1,
        res@[0].0@ == seq![BindingStage::Vertex],
        res@[0].1 == 1,
        res@[0].2 == ResourceType::Uniform,
{
    let mut res = Vec::new();
    res.push((vec![BindingStage::Vertex], 1u32, ResourceType::Uniform));
    res
}

/// Byte sizes of the uniform blocks of the known shaders.
pub struct UniformSizes {
    pub white: usize,
    pub directional_textured_speculated_nocube_fullshadow_opaque: usize,
}

/// Size in bytes of the uniform block of the shader `id`.
pub fn shader_uniform_size(id: Id, sizes: &UniformSizes) -> (size: usize)
    requires
        is_known_shader_id(id),
    ensures
        id == WHITE_ID ==> size == sizes.white,
        id == DIRECTIONAL_TEXTURED_SPECULATED_NOCUBE_FULLSHADOW_OPAQUE_ID ==> size
            == sizes.directional_textured_speculated_nocube_fullshadow_opaque,
{
    if id == WHITE_ID {
        sizes.white
    } else {
        sizes.directional_textured_speculated_nocube_fullshadow_opaque
    }
}

/// Size in bytes of a vertex laid out as `attrs`.
pub open spec fn spec_layout_size(attrs: Seq<Attribute>) -> nat
    decreases attrs.len(),
{
    if attrs.len() == 0 {
        0
    } else {
        spec_layout_size(attrs.drop_last()) + attrs.last().spec_byte_size()
    }
}

/// The vertex size of a shader is the size of the vertex layout it reads.
pub proof fn law_vertex_size_matches_layout(id: Id)
    requires
        is_known_shader_id(id),
    ensures
        spec_vertex_size(id) == spec_layout_size(spec_vertex_attributes(id)),
{
    let a = spec_vertex_attributes(id);
    reveal_with_fuel(spec_layout_size, 4);
    if id == WHITE_ID {
        assert(a.drop_last() =~= Seq::<Attribute>::empty());
    } else {
        assert(a.drop_last() =~= seq![Attribute::Vec3F32, Attribute::Vec3F32]);
        assert(a.drop_last().drop_last() =~= seq![Attribute::Vec3F32]);
        assert(a.drop_last().drop_last().drop_last() =~= Seq::<Attribute>::empty());
    }
}

proof fn lemma_big_endian_bound(s: Seq<u8>)
    ensures
        big_endian_value(s) < vstd::arithmetic::power::pow(256, s.len()),
    decreases s.len(),
{
    vstd::arithmetic::power::lemma_pow_positive(256, s.len());
    if s.len() > 0 {
        let d = s.drop_last();
        lemma_big_endian_bound(d);
        let p = vstd::arithmetic::power::pow(256, d.len());
        vstd::arithmetic::power::lemma_pow_adds(256, d.len(), 1);
        vstd::arithmetic::power::lemma_pow1(256);
        let v = big_endian_value(d) as int;
        let l = s.last() as int;
        assert(v * 256 + l < p * 256) by (nonlinear_arith)
            requires
                0 <= v < p,
                0 <= l < 256,
        ;
        assert(vstd::arithmetic::power::pow(256, s.len()) == p * 256);
    }
}

/// Ids of at most eight bytes are read exactly: none of their digits shifts
/// out. In particular the six-byte ids of gx3d files are below 2^48.
pub proof fn law_short_ids_exact(s: Seq<u8>)
    requires
        s.len() <= 8,
    ensures
        big_endian_value(s) < u64_modulus(),
        big_endian_value(s) as int % (u64_modulus() as int) == big_endian_value(s),
        s.len() == ID_BYTES_COUNT ==> big_endian_value(s) < 0x1_0000_0000_0000,
{
    lemma_big_endian_bound(s);
    vstd::arithmetic::power::lemma_pow_increases(256, s.len(), 8);
    assert(vstd::arithmetic::power::pow(256, 8) == u64_modulus() && vstd::arithmetic::power::pow(256, 6) == 0x1_0000_0000_0000) by {
        reveal_with_fuel(vstd::arithmetic::power::pow, 9);
    }
    vstd::arithmetic::div_mod::lemma_small_mod(big_endian_value(s), u64_modulus());
}

/// A shader program made of pipeline stages of type `S`.
pub trait Shader<S> {
    /// The stages of the program, in pipeline order.
    spec fn stages(&self) -> Seq<S>;

    /// The number of stages.
    fn get_stages_count(&self) -> (n: usize)
        ensures
            n == self.stages().len(),
    ;

    /// The stage at `i`.
    fn get_stage(&self, i: usize) -> (s: &S)
        requires
            i < self.stages().len(),
        ensures
            *s == self.stages()[i as int],
    ;

    /// The vertex stage, the first one.
    fn get_vertex_stage(&self) -> (s: &S)
        requires
            self.stages().len() >= 1,
        ensures
            *s == self.stages()[0],
    ;

    /// The fragment stage, the second one.
    fn get_fragment_stage(&self) -> (s: &S)
        requires
            self.stages().len() >= 2,
        ensures
            *s == self.stages()[1],
    ;
}

/// A shader program with a vertex stage and a fragment stage.
pub struct TwoStage<S> {
    pub vertex: S,
    pub fragment: S,
}

impl<S> TwoStage<S> {
    /// The program made of the two stages.
    pub fn new(vertex: S, fragment: S) -> (p: Self)
        ensures
            p.vertex == vertex,
            p.fragment == fragment,
    {
        TwoStage { vertex, fragment }
    }

    /// The program itself, seen as a two-stage program.
    pub fn as_two_stage(&self) -> (p: &Self)
        ensures
            *p == *self,
    {
        self
    }
}

impl<S> Shader<S> for TwoStage<S> {
    open spec fn stages(&self) -> Seq<S> {
        seq![self.vertex, self.fragment]
    }

    fn get_stages_count(&self) -> (n: usize) {
        2
    }

    fn get_stage(&self, i: usize) -> (s: &S) {
        if i == 0 {
            &self.vertex
        } else {
            &self.fragment
        }
    }

    fn get_vertex_stage(&self) -> (s: &S) {
        &self.vertex
    }

    fn get_fragment_stage(&self) -> (s: &S) {
        &self.fragment
    }
}

} // verus!
