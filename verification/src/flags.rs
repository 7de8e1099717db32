//! Bit sets that classify scattering lobes and lights.

use vstd::prelude::*;

verus! {

pub const BSDF_REFLECTION: u32 = 1;

pub const BSDF_TRANSMISSION: u32 = 2;

pub const BSDF_DIFFUSE: u32 = 4;

pub const BSDF_GLOSSY: u32 = 8;

pub const BSDF_SPECULAR: u32 = 16;

pub const BSDF_ALL: u32 = 31;

/// One property of a scattering lobe.
#[derive(Clone, Copy, Debug, PartialEq, Eq, Structural)]
pub enum LobeFlag {
    Reflection,
    Transmission,
    Diffuse,
    Glossy,
    Specular,
}

/// The bit that stands for a lobe property.
pub open spec fn lobe_bit(f: LobeFlag) -> u32 {
    match f {
        LobeFlag::Reflection => BSDF_REFLECTION,
        LobeFlag::Transmission => BSDF_TRANSMISSION,
        LobeFlag::Diffuse => BSDF_DIFFUSE,
        LobeFlag::Glossy => BSDF_GLOSSY,
        LobeFlag::Specular => BSDF_SPECULAR,
    }
}

/// The set of lobe properties that a word of bits stands for.
pub open spec fn lobe_flags_of(bits: u32) -> Set<LobeFlag> {
    Set::new(|f: LobeFlag| bits & lobe_bit(f) != 0)
}

/// A set of lobe properties. Only the five known bits are ever set.
#[derive(Clone, Copy, Debug)]
pub struct BxDFType {
    bits: u32,
}

impl View for BxDFType {
    type V = Set<LobeFlag>;

    closed spec fn view(&self) -> Set<LobeFlag> {
        lobe_flags_of(self.bits)
    }
}

proof fn lemma_lobe_bits_union(a: u32, b: u32)
    ensures
        lobe_flags_of(a | b) == lobe_flags_of(a).union(lobe_flags_of(b)),
{
    assert forall|f: LobeFlag| lobe_flags_of(a | b).contains(f) == (lobe_flags_of(a).contains(f)
        || lobe_flags_of(b).contains(f)) by {
        let m = lobe_bit(f);
        assert(((a | b) & m != 0) == ((a & m != 0) || (b & m != 0))) by (bit_vector);
    }
    assert(lobe_flags_of(a | b) =~= lobe_flags_of(a).union(lobe_flags_of(b)));
}

proof fn lemma_lobe_bits_intersect(a: u32, b: u32)
    ensures
        lobe_flags_of(a & b) == lobe_flags_of(a).intersect(lobe_flags_of(b)),
{
    assert forall|f: LobeFlag| lobe_flags_of(a & b).contains(f) == (lobe_flags_of(a).contains(f)
        && lobe_flags_of(b).contains(f)) by {
        let m = lobe_bit(f);
        assert(m == 1 || m == 2 || m == 4 || m == 8 || m == 16);
        assert((m == 1 || m == 2 || m == 4 || m == 8 || m == 16) ==> (((a & b) & m != 0) == ((a & m
            != 0) && (b & m != 0)))) by (bit_vector);
    }
    assert(lobe_flags_of(a & b) =~= lobe_flags_of(a).intersect(lobe_flags_of(b)));
}

proof fn lemma_lobe_bits_subset(a: u32, b: u32)
    requires
        a <= BSDF_ALL,
    ensures
        (a & b == a) <==> lobe_flags_of(a).subset_of(lobe_flags_of(b)),
{
    let sa = lobe_flags_of(a);
    let sb = lobe_flags_of(b);
    assert((a <= 31 && (a & 1 != 0 ==> b & 1 != 0) && (a & 2 != 0 ==> b & 2 != 0) && (a & 4 != 0
        ==> b & 4 != 0) && (a & 8 != 0 ==> b & 8 != 0) && (a & 16 != 0 ==> b & 16 != 0)) ==> a & b
        == a) by (bit_vector);
    if sa.subset_of(sb) {
        assert(sa.contains(LobeFlag::Reflection) ==> sb.contains(LobeFlag::Reflection));
        assert(sa.contains(LobeFlag::Transmission) ==> sb.contains(LobeFlag::Transmission));
        assert(sa.contains(LobeFlag::Diffuse) ==> sb.contains(LobeFlag::Diffuse));
        assert(sa.contains(LobeFlag::Glossy) ==> sb.contains(LobeFlag::Glossy));
        assert(sa.contains(LobeFlag::Specular) ==> sb.contains(LobeFlag::Specular));
    }
    if a & b == a {
        assert forall|f: LobeFlag| sa.contains(f) implies sb.contains(f) by {
            let m = lobe_bit(f);
            assert((a & b == a && a & m != 0) ==> b & m != 0) by (bit_vector);
        }
    }
}

proof fn lemma_lobe_bits_equal(a: u32, b: u32)
    requires
        a <= BSDF_ALL,
        b <= BSDF_ALL,
    ensures
        (a == b) <==> lobe_flags_of(a) == lobe_flags_of(b),
{
    lemma_lobe_bits_subset(a, b);
    lemma_lobe_bits_subset(b, a);
    assert((a & b == a && b & a == b) ==> a == b) by (bit_vector);
    assert(a & a == a) by (bit_vector);
    if lobe_flags_of(a) == lobe_flags_of(b) {
        assert(lobe_flags_of(a).subset_of(lobe_flags_of(b)));
        assert(lobe_flags_of(b).subset_of(lobe_flags_of(a)));
    }
}

proof fn lemma_lobe_bit_single(f: LobeFlag)
    ensures
        lobe_flags_of(lobe_bit(f)) == Set::<LobeFlag>::empty().insert(f),
{
    assert(1u32 & 1 != 0 && 1u32 & 2 == 0 && 1u32 & 4 == 0 && 1u32 & 8 == 0 && 1u32 & 16 == 0)
        by (bit_vector);
    assert(2u32 & 1 == 0 && 2u32 & 2 != 0 && 2u32 & 4 == 0 && 2u32 & 8 == 0 && 2u32 & 16 == 0)
        by (bit_vector);
    assert(4u32 & 1 == 0 && 4u32 & 2 == 0 && 4u32 & 4 != 0 && 4u32 & 8 == 0 && 4u32 & 16 == 0)
        by (bit_vector);
    assert(8u32 & 1 == 0 && 8u32 & 2 == 0 && 8u32 & 4 == 0 && 8u32 & 8 != 0 && 8u32 & 16 == 0)
        by (bit_vector);
    assert(16u32 & 1 == 0 && 16u32 & 2 == 0 && 16u32 & 4 == 0 && 16u32 & 8 == 0 && 16u32 & 16
        != 0) by (bit_vector);
    assert forall|g: LobeFlag| lobe_flags_of(lobe_bit(f)).contains(g) == (g == f) by {
        let m = lobe_bit(g);
    }
    assert(lobe_flags_of(lobe_bit(f)) =~= Set::<LobeFlag>::empty().insert(f));
}

impl BxDFType {
    #[verifier::type_invariant]
    closed spec fn known_bits_only(self) -> bool {
        self.bits <= BSDF_ALL
    }

    /// The set with no property.
    pub fn empty() -> (t: BxDFType)
        ensures
            t@ == Set::<LobeFlag>::empty(),
    {
        assert forall|f: LobeFlag| !lobe_flags_of(0).contains(f) by {
            let m = lobe_bit(f);
            assert(0u32 & m == 0) by (bit_vector);
        }
        assert(lobe_flags_of(0) =~= Set::<LobeFlag>::empty());
        BxDFType { bits: 0 }
    }

    /// The set that holds one property.
    pub fn single(f: LobeFlag) -> (t: BxDFType)
        ensures
            t@ == Set::<LobeFlag>::empty().insert(f),
    {
        proof {
            lemma_lobe_bit_single(f);
        }
        match f {
            LobeFlag::Reflection => BxDFType { bits: BSDF_REFLECTION },
            LobeFlag::Transmission => BxDFType { bits: BSDF_TRANSMISSION },
            LobeFlag::Diffuse => BxDFType { bits: BSDF_DIFFUSE },
            LobeFlag::Glossy => BxDFType { bits: BSDF_GLOSSY },
            LobeFlag::Specular => BxDFType { bits: BSDF_SPECULAR },
        }
    }

    /// The set of all five properties.
    pub fn all() -> (t: BxDFType)
        ensures
            t@ == Set::<LobeFlag>::full(),
    {
        assert forall|f: LobeFlag| lobe_flags_of(31).contains(f) by {
            let m = lobe_bit(f);
            assert(31u32 & 1 != 0 && 31u32 & 2 != 0 && 31u32 & 4 != 0 && 31u32 & 8 != 0 && 31u32
                & 16 != 0) by (bit_vector);
        }
        assert(lobe_flags_of(31) =~= Set::<LobeFlag>::full());
        BxDFType { bits: BSDF_ALL }
    }

    /// The set that a word of bits stands for, if the word sets no unknown bit.
    pub fn from_bits(bits: u32) -> (t: Option<BxDFType>)
        ensures
            t.is_some() <==> bits <= BSDF_ALL,
            t matches Some(s) ==> s@ == lobe_flags_of(bits),
    {
        if bits <= BSDF_ALL {
            Some(BxDFType { bits })
        } else {
            None
        }
    }

    /// The word of bits that stands for this set.
    pub fn bits(&self) -> (bits: u32)
        ensures
            bits <= BSDF_ALL,
            lobe_flags_of(bits) == self@,
    {
        proof {
            use_type_invariant(self);
        }
        self.bits
    }

    /// Whether the set holds the property.
    pub fn has(&self, f: LobeFlag) -> (r: bool)
        ensures
            r == self@.contains(f),
    {
        let m: u32 = match f {
            LobeFlag::Reflection => BSDF_REFLECTION,
            LobeFlag::Transmission => BSDF_TRANSMISSION,
            LobeFlag::Diffuse => BSDF_DIFFUSE,
            LobeFlag::Glossy => BSDF_GLOSSY,
            LobeFlag::Specular => BSDF_SPECULAR,
        };
        self.bits & m != 0
    }

    /// The properties of either set.
    pub fn union(self, other: BxDFType) -> (t: BxDFType)
        ensures
            t@ == self@.union(other@),
    {
        proof {
            use_type_invariant(self);
            use_type_invariant(other);
            lemma_lobe_bits_union(self.bits, other.bits);
            let a = self.bits;
            let b = other.bits;
            assert(a <= 31 && b <= 31 ==> (a | b) <= 31) by (bit_vector);
        }
        BxDFType { bits: self.bits | other.bits }
    }

    /// The properties common to both sets.
    pub fn intersection(self, other: BxDFType) -> (t: BxDFType)
        ensures
            t@ == self@.intersect(other@),
    {
        proof {
            use_type_invariant(self);
            lemma_lobe_bits_intersect(self.bits, other.bits);
            let a = self.bits;
            let b = other.bits;
            assert(a <= 31 ==> (a & b) <= 31) by (bit_vector);
        }
        BxDFType { bits: self.bits & other.bits }
    }

    /// Whether every property of `other` is in this set.
    pub fn contains(&self, other: BxDFType) -> (r: bool)
        ensures
            r == other@.subset_of(self@),
    {
        proof {
            use_type_invariant(other);
            lemma_lobe_bits_subset(other.bits, self.bits);
            let a = self.bits;
            let b = other.bits;
            assert(a & b == b & a) by (bit_vector);
        }
        self.bits & other.bits == other.bits
    }

    /// Whether both sets hold the same properties.
    pub fn same(&self, other: &BxDFType) -> (r: bool)
        ensures
            r == (self@ == other@),
    {
        proof {
            use_type_invariant(self);
            use_type_invariant(other);
            lemma_lobe_bits_equal(self.bits, other.bits);
        }
        self.bits == other.bits
    }
}

pub const DELTA_POSITION: u32 = 1;

pub const DELTA_DIRECTION: u32 = 2;

pub const AREA: u32 = 4;

pub const INFINITE: u32 = 8;

pub const LIGHT_ALL: u32 = 15;

/// One property of a light.
#[derive(Clone, Copy, Debug, PartialEq, Eq, Structural)]
pub enum LightFlag {
    DeltaPosition,
    DeltaDirection,
    Area,
    Infinite,
}

/// The bit that stands for a light property.
pub open spec fn light_bit(f: LightFlag) -> u32 {
    match f {
        LightFlag::DeltaPosition => DELTA_POSITION,
        LightFlag::DeltaDirection => DELTA_DIRECTION,
        LightFlag::Area => AREA,
        LightFlag::Infinite => INFINITE,
    }
}

/// The set of light properties that a word of bits stands for.
pub open spec fn light_flags_of(bits: u32) -> Set<LightFlag> {
    Set::new(|f: LightFlag| bits & light_bit(f) != 0)
}

/// A set of light properties. Only the four known bits are ever set.
#[derive(Clone, Copy, Debug)]
pub struct LightFlags {
    bits: u32,
}

impl View for LightFlags {
    type V = Set<LightFlag>;

    closed spec fn view(&self) -> Set<LightFlag> {
        light_flags_of(self.bits)
    }
}

proof fn lemma_light_bit_single(f: LightFlag)
    ensures
        light_flags_of(light_bit(f)) == Set::<LightFlag>::empty().insert(f),
{
    assert(1u32 & 1 != 0 && 1u32 & 2 == 0 && 1u32 & 4 == 0 && 1u32 & 8 == 0) by (bit_vector);
    assert(2u32 & 1 == 0 && 2u32 & 2 != 0 && 2u32 & 4 == 0 && 2u32 & 8 == 0) by (bit_vector);
    assert(4u32 & 1 == 0 && 4u32 & 2 == 0 && 4u32 & 4 != 0 && 4u32 & 8 == 0) by (bit_vector);
    assert(8u32 & 1 == 0 && 8u32 & 2 == 0 && 8u32 & 4 == 0 && 8u32 & 8 != 0) by (bit_vector);
    assert forall|g: LightFlag| light_flags_of(light_bit(f)).contains(g) == (g == f) by {
        let m = light_bit(g);
    }
    assert(light_flags_of(light_bit(f)) =~= Set::<LightFlag>::empty().insert(f));
}

proof fn lemma_light_bits_subset(a: u32, b: u32)
    requires
        a <= LIGHT_ALL,
    ensures
        (a & b == a) <==> light_flags_of(a).subset_of(light_flags_of(b)),
{
    let sa = light_flags_of(a);
    let sb = light_flags_of(b);
    assert((a <= 15 && (a & 1 != 0 ==> b & 1 != 0) && (a & 2 != 0 ==> b & 2 != 0) && (a & 4 != 0
        ==> b & 4 != 0) && (a & 8 != 0 ==> b & 8 != 0)) ==> a & b == a) by (bit_vector);
    if sa.subset_of(sb) {
        assert(sa.contains(LightFlag::DeltaPosition) ==> sb.contains(LightFlag::DeltaPosition));
        assert(sa.contains(LightFlag::DeltaDirection) ==> sb.contains(LightFlag::DeltaDirection));
        assert(sa.contains(LightFlag::Area) ==> sb.contains(LightFlag::Area));
        assert(sa.contains(LightFlag::Infinite) ==> sb.contains(LightFlag::Infinite));
    }
    if a & b == a {
        assert forall|f: LightFlag| sa.contains(f) implies sb.contains(f) by {
            let m = light_bit(f);
            assert((a & b == a && a & m != 0) ==> b & m != 0) by (bit_vector);
        }
    }
}

impl LightFlags {
    #[verifier::type_invariant]
    closed spec fn known_bits_only(self) -> bool {
        self.bits <= LIGHT_ALL
    }

    /// The set that holds one property.
    pub fn single(f: LightFlag) -> (t: LightFlags)
        ensures
            t@ == Set::<LightFlag>::empty().insert(f),
    {
        proof {
            lemma_light_bit_single(f);
        }
        match f {
            LightFlag::DeltaPosition => LightFlags { bits: DELTA_POSITION },
            LightFlag::DeltaDirection => LightFlags { bits: DELTA_DIRECTION },
            LightFlag::Area => LightFlags { bits: AREA },
            LightFlag::Infinite => LightFlags { bits: INFINITE },
        }
    }

    /// The word of bits that stands for this set.
    pub fn bits(&self) -> (bits: u32)
        ensures
            bits <= LIGHT_ALL,
            light_flags_of(bits) == self@,
    {
        proof {
            use_type_invariant(self);
        }
        self.bits
    }

    /// Whether every property of `other` is in this set.
    pub fn contains(&self, other: LightFlags) -> (r: bool)
        ensures
            r == other@.subset_of(self@),
    {
        proof {
            use_type_invariant(other);
            lemma_light_bits_subset(other.bits, self.bits);
            let a = self.bits;
            let b = other.bits;
            assert(a & b == b & a) by (bit_vector);
        }
        self.bits & other.bits == other.bits
    }
}

} // verus!
