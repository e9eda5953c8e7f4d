use vstd::prelude::*;

verus! {

/// The closed set of material variants a surface can carry.
#[derive(Clone, Copy, Debug, PartialEq, Eq, Structural)]
pub enum MaterialKind {
    Lambertian,
    Metal,
    Dielectric,
    BlinnPhong,
    CookTorrance,
    Disney,
}

/// The two scattering contracts a material may be asked for.
#[derive(Clone, Copy, Debug, PartialEq, Eq, Structural)]
pub enum Sampling {
    /// `scatter`: one attenuation and one scattered ray.
    Simple,
    /// `scatter_importance`: a scattered ray, a contribution already divided
    /// by the mixed diffuse/specular density and weighted by the balance
    /// heuristic, and that density.
    Importance,
}

impl MaterialKind {
    /// The microfacet variants, whose lobes mix cosine-weighted diffuse and
    /// GGX visible-normal sampling.
    pub open spec fn spec_is_microfacet(self) -> bool {
        self == MaterialKind::CookTorrance || self == MaterialKind::Disney
    }

    pub fn is_microfacet(&self) -> (r: bool)
        ensures
            r == self.spec_is_microfacet(),
    {
        match self {
            MaterialKind::CookTorrance | MaterialKind::Disney => true,
            _ => false,
        }
    }

    /// Whether the simple contract can ever accept a sample; the principled
    /// (Disney) model is defined by importance sampling only, and its simple
    /// scatter always absorbs.
    pub fn has_simple_scatter(&self) -> (r: bool)
        ensures
            r == (*self != MaterialKind::Disney),
    {
        match self {
            MaterialKind::Disney => false,
            _ => true,
        }
    }

    /// The contract the estimator uses for this variant: the importance
    /// sampled, MIS-weighted path for microfacet materials, the simple one
    /// as the fallback for analytic and non-microfacet materials.
    pub fn preferred_sampling(&self) -> (r: Sampling)
        ensures
            r == (if self.spec_is_microfacet() {
                Sampling::Importance
            } else {
                Sampling::Simple
            }),
    {
        if self.is_microfacet() {
            Sampling::Importance
        } else {
            Sampling::Simple
        }
    }
}

/// A handle by which a surface shares a material of a pool.
#[derive(Clone, Copy, Debug, PartialEq, Eq, Structural)]
pub struct MaterialId {
    pub index: usize,
}

/// The materials of a scene, built once and then only read: any number of
/// surfaces hold handles to one entry instead of owning it.
pub struct MaterialPool<M> {
    items: Vec<M>,
}

impl<M> View for MaterialPool<M> {
    type V = Seq<M>;

    closed spec fn view(&self) -> Seq<M> {
        self.items@
    }
}

impl<M> MaterialPool<M> {
    pub fn new() -> (p: MaterialPool<M>)
        ensures
            p@ == Seq::<M>::empty(),
    {
        MaterialPool { items: Vec::new() }
    }

    /// Adds a material and returns its handle, the position it was stored at.
    pub fn add(&mut self, m: M) -> (id: MaterialId)
        ensures
            final(self)@ == old(self)@.push(m),
            id.index == old(self)@.len(),
    {
        let id = MaterialId { index: self.items.len() };
        self.items.push(m);
        id
    }

    pub fn len(&self) -> (n: usize)
        ensures
            n == self@.len(),
    {
        self.items.len()
    }

    /// Whether `id` names a material of this pool.
    pub fn contains(&self, id: MaterialId) -> (r: bool)
        ensures
            r == (id.index < self@.len()),
    {
        id.index < self.items.len()
    }

    /// The material a handle names, or `None` for a handle of no material of
    /// this pool.
    pub fn get(&self, id: MaterialId) -> (r: Option<&M>)
        ensures
            r is Some <==> id.index < self@.len(),
            r matches Some(m) ==> *m == self@[id.index as int],
    {
        if id.index < self.items.len() {
            Some(&self.items[id.index])
        } else {
            None
        }
    }
}

} // verus!
