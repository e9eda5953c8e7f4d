use crust_render::material::{MaterialId, MaterialKind, MaterialPool, Sampling};

#[test]
fn microfacet_variants_prefer_importance_sampling() {
    assert_eq!(MaterialKind::CookTorrance.preferred_sampling(), Sampling::Importance);
    assert_eq!(MaterialKind::Disney.preferred_sampling(), Sampling::Importance);
    assert_eq!(MaterialKind::Lambertian.preferred_sampling(), Sampling::Simple);
    assert_eq!(MaterialKind::Metal.preferred_sampling(), Sampling::Simple);
    assert_eq!(MaterialKind::Dielectric.preferred_sampling(), Sampling::Simple);
    assert_eq!(MaterialKind::BlinnPhong.preferred_sampling(), Sampling::Simple);
    assert!(MaterialKind::Disney.is_microfacet());
    assert!(!MaterialKind::BlinnPhong.is_microfacet());
}

#[test]
fn principled_material_has_no_simple_scatter() {
    assert!(!MaterialKind::Disney.has_simple_scatter());
    assert!(MaterialKind::CookTorrance.has_simple_scatter());
    assert!(MaterialKind::Lambertian.has_simple_scatter());
}

#[test]
fn pool_hands_out_positions_and_shares_entries() {
    let mut pool: MaterialPool<&str> = MaterialPool::new();
    assert_eq!(pool.len(), 0);
    let ground = pool.add("ground");
    let glass = pool.add("glass");
    assert_eq!(ground, MaterialId { index: 0 });
    assert_eq!(glass, MaterialId { index: 1 });
    assert_eq!(pool.len(), 2);
    assert_eq!(pool.get(ground), Some(&"ground"));
    assert_eq!(pool.get(glass), Some(&"glass"));
    assert_eq!(pool.get(glass), pool.get(MaterialId { index: 1 }));
    assert!(pool.contains(glass));
    assert!(!pool.contains(MaterialId { index: 2 }));
    assert_eq!(pool.get(MaterialId { index: 2 }), None);
}
