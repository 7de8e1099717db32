//! The scattering at one surface point: a short list of lobes and the frame
//! in which they are evaluated.

use crate::bxdf::cosine_density;
use crate::bxdf::BxDF;
use crate::bxdf::BxDFInterface;
use crate::bxdf::Density;
use crate::bxdf::LobeValue;
use crate::flags::BxDFType;
use crate::flags::LobeFlag;
use crate::geometry::Vector3;
use crate::interaction::SurfaceMediumInteraction;
use crate::scalar::Scalar;
use vstd::prelude::*;

verus! {

/// The number of lobes that one surface point can have.
pub const MAX_BXDFS: usize = 8;

/// Those of the lobes that have all their properties among `flags`, in
/// their order.
pub open spec fn matching_lobes(lobes: Seq<BxDF>, flags: Set<LobeFlag>) -> Seq<BxDF>
    decreases lobes.len(),
{
    if lobes.len() == 0 {
        Seq::<BxDF>::empty()
    } else if lobes.last().flags().subset_of(flags) {
        matching_lobes(lobes.drop_last(), flags).push(lobes.last())
    } else {
        matching_lobes(lobes.drop_last(), flags)
    }
}

/// The density with which continuous sampling of a lobe draws `wi` for
/// `wo`.
pub open spec fn lobe_density(b: BxDF, wo: Vector3, wi: Vector3) -> Density {
    if b.cosine_sampled() {
        cosine_density(wo, wi)
    } else {
        Density::Zero
    }
}

/// The frame in which the lobes of a surface point are evaluated, and the
/// relative index of refraction there.
#[derive(Clone, Copy, Debug, PartialEq, Eq, Structural)]
pub struct ScatteringFrame {
    pub eta: Scalar,
    /// The shading normal.
    pub ns: Vector3,
    /// The geometric normal.
    pub ng: Vector3,
    /// The first tangent of the shading frame.
    pub ss: Vector3,
    /// The second tangent of the shading frame.
    pub ts: Vector3,
}

/// The frame that a scattering takes from a surface point.
pub open spec fn frame_at(si: SurfaceMediumInteraction, eta: Scalar) -> ScatteringFrame {
    ScatteringFrame {
        eta,
        ns: si.shading.n,
        ng: si.n,
        ss: si.shading.dpdu,
        ts: si.shading.dpdv,
    }
}

/// The lobes at a surface point, in the order in which they were added,
/// with the frame of the point. A list is made empty and grows only through
/// `add`, which refuses to go beyond `MAX_BXDFS`.
#[derive(Clone, Debug)]
pub struct BSDF {
    frame: ScatteringFrame,
    bxdfs: Vec<BxDF>,
}

impl BSDF {
    /// The lobes, in the order in which they were added.
    pub closed spec fn lobes(self) -> Seq<BxDF> {
        self.bxdfs@
    }

    /// The frame of the surface point.
    pub closed spec fn frame(self) -> ScatteringFrame {
        self.frame
    }

    /// A scattering without lobes at the frame of `si`.
    pub fn new(si: &SurfaceMediumInteraction, eta: Scalar) -> (b: BSDF)
        ensures
            b.frame() == frame_at(*si, eta),
            b.lobes() == Seq::<BxDF>::empty(),
    {
        BSDF {
            frame: ScatteringFrame {
                eta,
                ns: si.shading.n,
                ng: si.n,
                ss: si.shading.dpdu,
                ts: si.shading.dpdv,
            },
            bxdfs: Vec::new(),
        }
    }

    /// The frame of the surface point.
    pub fn basis(&self) -> (f: ScatteringFrame)
        ensures
            f == self.frame(),
    {
        self.frame
    }

    /// The number of lobes.
    pub fn len(&self) -> (n: usize)
        ensures
            n == self.lobes().len(),
    {
        self.bxdfs.len()
    }

    /// The lobe at `i`.
    pub fn get(&self, i: usize) -> (b: &BxDF)
        requires
            i < self.lobes().len(),
        ensures
            *b == self.lobes()[i as int],
    {
        &self.bxdfs[i]
    }

    /// Appends a lobe. The list must not be full: a material that adds
    /// more lobes than the capacity is in error.
    pub fn add(&mut self, b: BxDF)
        requires
            old(self).lobes().len() < MAX_BXDFS,
        ensures
            final(self).lobes() == old(self).lobes().push(b),
            final(self).lobes().len() <= MAX_BXDFS,
            final(self).frame() == old(self).frame(),
    {
        self.bxdfs.push(b);
    }

    /// How many lobes have all their properties among `flags`.
    pub fn num_components(&self, flags: BxDFType) -> (n: usize)
        ensures
            n == matching_lobes(self.lobes(), flags@).len(),
            n <= self.lobes().len(),
    {
        let mut n: usize = 0;
        let mut i: usize = 0;
        while i < self.bxdfs.len()
            invariant
                i <= self.bxdfs@.len(),
                n <= i,
                n == matching_lobes(self.bxdfs@.take(i as int), flags@).len(),
            decreases self.bxdfs@.len() - i,
        {
            assert(self.bxdfs@.take(i + 1).drop_last() =~= self.bxdfs@.take(i as int));
            if self.bxdfs[i].matches_flags(flags) {
                n = n + 1;
            }
            i = i + 1;
        }
        assert(self.bxdfs@.take(i as int) =~= self.bxdfs@);
        n
    }

    /// The place of the lobe that comes `n`-th, counting from zero, among
    /// the lobes that have all their properties among `flags`: the lobe
    /// from which a direction is drawn. `None` where fewer lobes match.
    pub fn matching_component(&self, flags: BxDFType, n: usize) -> (place: Option<usize>)
        ensures
            match place {
                Some(i) => {
                    &&& i < self.lobes().len()
                    &&& self.lobes()[i as int].flags().subset_of(flags@)
                    &&& matching_lobes(self.lobes().take(i as int), flags@).len() == n
                },
                None => matching_lobes(self.lobes(), flags@).len() <= n,
            },
    {
        let mut seen: usize = 0;
        let mut i: usize = 0;
        while i < self.bxdfs.len()
            invariant
                i <= self.bxdfs@.len(),
                seen <= i,
                seen <= n,
                seen == matching_lobes(self.bxdfs@.take(i as int), flags@).len(),
            decreases self.bxdfs@.len() - i,
        {
            assert(self.bxdfs@.take(i + 1).drop_last() =~= self.bxdfs@.take(i as int));
            if self.bxdfs[i].matches_flags(flags) {
                if seen == n {
                    return Some(i);
                }
                seen = seen + 1;
            }
            i = i + 1;
        }
        assert(self.bxdfs@.take(i as int) =~= self.bxdfs@);
        None
    }

    /// The values, for light arriving from `wi` and leaving towards `wo`
    /// in the shading frame, of the lobes that have all their properties
    /// among `flags`, in their order. The value of the scattering is their
    /// sum.
    pub fn f(&self, wo: &Vector3, wi: &Vector3, flags: BxDFType) -> (values: Vec<LobeValue>)
        ensures
            values@ == matching_lobes(self.lobes(), flags@).map_values(
                |b: BxDF| b.value(*wo, *wi),
            ),
    {
        let ghost value = |b: BxDF| b.value(*wo, *wi);
        let mut values: Vec<LobeValue> = Vec::new();
        let mut i: usize = 0;
        while i < self.bxdfs.len()
            invariant
                i <= self.bxdfs@.len(),
                value == |b: BxDF| b.value(*wo, *wi),
                values@ == matching_lobes(self.bxdfs@.take(i as int), flags@).map_values(value),
            decreases self.bxdfs@.len() - i,
        {
            assert(self.bxdfs@.take(i + 1).drop_last() =~= self.bxdfs@.take(i as int));
            if self.bxdfs[i].matches_flags(flags) {
                values.push(self.bxdfs[i].f(wo, wi));
                assert(values@ =~= matching_lobes(self.bxdfs@.take(i + 1), flags@).map_values(
                    value,
                ));
            }
            i = i + 1;
        }
        assert(self.bxdfs@.take(i as int) =~= self.bxdfs@);
        values
    }

    /// The densities with which the lobes that have all their properties
    /// among `flags` draw `wi` for `wo`, in their order. The density of the
    /// scattering is their mean.
    pub fn pdf(&self, wo: &Vector3, wi: &Vector3, flags: BxDFType) -> (densities: Vec<Density>)
        ensures
            densities@ == matching_lobes(self.lobes(), flags@).map_values(
                |b: BxDF| lobe_density(b, *wo, *wi),
            ),
    {
        let ghost density = |b: BxDF| lobe_density(b, *wo, *wi);
        let mut densities: Vec<Density> = Vec::new();
        let mut i: usize = 0;
        while i < self.bxdfs.len()
            invariant
                i <= self.bxdfs@.len(),
                density == |b: BxDF| lobe_density(b, *wo, *wi),
                densities@ == matching_lobes(self.bxdfs@.take(i as int), flags@).map_values(
                    density,
                ),
            decreases self.bxdfs@.len() - i,
        {
            assert(self.bxdfs@.take(i + 1).drop_last() =~= self.bxdfs@.take(i as int));
            if self.bxdfs[i].matches_flags(flags) {
                densities.push(self.bxdfs[i].pdf(wo, wi));
                assert(densities@ =~= matching_lobes(self.bxdfs@.take(i + 1), flags@).map_values(
                    density,
                ));
            }
            i = i + 1;
        }
        assert(self.bxdfs@.take(i as int) =~= self.bxdfs@);
        densities
    }
}

} // verus!
