use assimp_import::{
    AnimBehavior, BlendMode, ForeignEnum, LightSourceType, MetadataType, PostProcessSteps,
    PrimitiveTypes, SceneFlags, ShadingMode, TextureFlags, TextureMapMode, TextureMapping,
    TextureOp, TextureType,
};

fn round_trips<E: ForeignEnum + Copy + PartialEq + std::fmt::Debug>(variants: &[E], codes: &[u32]) {
    assert_eq!(variants.len(), codes.len());
    for (v, c) in variants.iter().zip(codes.iter()) {
        assert_eq!(v.to_ffi(), *c);
        assert_eq!(E::from_ffi(*c), Some(*v));
        assert_eq!(E::from_ffi(v.to_ffi()), Some(*v));
    }
    for x in 0..64u32 {
        if !codes.contains(&x) {
            assert_eq!(E::from_ffi(x), None);
        }
    }
    assert_eq!(E::from_ffi(u32::MAX), None);
    assert_eq!(E::from_ffi(0x7fff_ffff), None);
}

#[test]
fn texture_op_round_trips() {
    round_trips(
        &[
            TextureOp::Multiply,
            TextureOp::Add,
            TextureOp::Subtract,
            TextureOp::Divide,
            TextureOp::SmoothAdd,
            TextureOp::SignedAdd,
        ],
        &[0, 1, 2, 3, 4, 5],
    );
}

#[test]
fn texture_map_mode_round_trips() {
    round_trips(
        &[
            TextureMapMode::Wrap,
            TextureMapMode::Clamp,
            TextureMapMode::Decal,
            TextureMapMode::Mirror,
        ],
        &[0, 1, 3, 2],
    );
}

#[test]
fn texture_mapping_round_trips() {
    round_trips(
        &[
            TextureMapping::Uv,
            TextureMapping::Sphere,
            TextureMapping::Cylinder,
            TextureMapping::Box,
            TextureMapping::Plane,
            TextureMapping::Other,
        ],
        &[0, 1, 2, 3, 4, 5],
    );
}

#[test]
fn texture_type_round_trips() {
    round_trips(
        &[
            TextureType::NoTexture,
            TextureType::Diffuse,
            TextureType::Specular,
            TextureType::Ambient,
            TextureType::Emissive,
            TextureType::Height,
            TextureType::Normals,
            TextureType::Shininess,
            TextureType::Opacity,
            TextureType::Displacement,
            TextureType::Lightmap,
            TextureType::Reflection,
            TextureType::Unknown,
        ],
        &[0, 1, 2, 3, 4, 5, 6, 7, 8, 9, 10, 11, 12],
    );
}

#[test]
fn shading_mode_round_trips() {
    round_trips(
        &[
            ShadingMode::Flat,
            ShadingMode::Gouraud,
            ShadingMode::Phong,
            ShadingMode::Blinn,
            ShadingMode::Toon,
            ShadingMode::OrenNayar,
            ShadingMode::Minnaert,
            ShadingMode::CookTorrance,
            ShadingMode::NoShading,
            ShadingMode::Fresnel,
        ],
        &[1, 2, 3, 4, 5, 6, 7, 8, 9, 10],
    );
}

#[test]
fn shading_mode_has_no_variant_for_zero() {
    assert_eq!(ShadingMode::from_ffi(0), None);
    assert_eq!(ShadingMode::from_ffi(11), None);
}

#[test]
fn blend_mode_round_trips() {
    round_trips(&[BlendMode::Default, BlendMode::Additive], &[0, 1]);
}

#[test]
fn anim_behavior_round_trips() {
    round_trips(
        &[
            AnimBehavior::Default,
            AnimBehavior::Constant,
            AnimBehavior::Linear,
            AnimBehavior::Repeat,
        ],
        &[0, 1, 2, 3],
    );
}

#[test]
fn light_source_type_round_trips() {
    round_trips(
        &[
            LightSourceType::Undefined,
            LightSourceType::Directional,
            LightSourceType::Point,
            LightSourceType::Spot,
            LightSourceType::Ambient,
            LightSourceType::Area,
        ],
        &[0, 1, 2, 3, 4, 5],
    );
}

#[test]
fn metadata_type_round_trips() {
    round_trips(
        &[
            MetadataType::Bool,
            MetadataType::Int,
            MetadataType::UInt64,
            MetadataType::Float,
            MetadataType::AiString,
            MetadataType::AiVector3D,
        ],
        &[0, 1, 2, 3, 4, 5],
    );
}

#[test]
fn signed_codes_below_zero_are_rejected() {
    assert_eq!(assimp_import::translate::from_signed::<BlendMode>(-1), None);
    assert_eq!(assimp_import::translate::from_signed::<BlendMode>(i32::MIN), None);
    assert_eq!(assimp_import::translate::from_signed::<BlendMode>(1), Some(BlendMode::Additive));
    assert_eq!(assimp_import::translate::from_signed::<ShadingMode>(2), Some(ShadingMode::Gouraud));
    assert_eq!(assimp_import::translate::from_signed::<ShadingMode>(0), None);
}

#[test]
fn scene_flags_accept_known_bits_only() {
    assert_eq!(SceneFlags::from_bits(0), Some(SceneFlags::empty()));
    assert_eq!(SceneFlags::from_bits(0x1f), Some(SceneFlags::all()));
    assert_eq!(SceneFlags::from_bits(0x20), None);
    assert_eq!(SceneFlags::from_bits(0x21), None);
    assert_eq!(SceneFlags::from_bits(0x8000_0000), None);
    let f = SceneFlags::from_bits(assimp_import::scene::INCOMPLETE | assimp_import::scene::TERRAIN).unwrap();
    assert_eq!(f.bits(), 0x11);
    assert!(f.contains(SceneFlags::from_bits_truncate(assimp_import::scene::INCOMPLETE)));
    assert!(f.contains(SceneFlags::from_bits_truncate(assimp_import::scene::TERRAIN)));
    assert!(!f.contains(SceneFlags::from_bits_truncate(assimp_import::scene::VALIDATED)));
    assert!(!f.is_empty());
    assert!(SceneFlags::empty().is_empty());
}

#[test]
fn scene_flag_constants() {
    assert_eq!(assimp_import::scene::INCOMPLETE, 0x1);
    assert_eq!(assimp_import::scene::VALIDATED, 0x2);
    assert_eq!(assimp_import::scene::VALIDATION_WARNING, 0x4);
    assert_eq!(assimp_import::scene::NON_VERBOSE_FORMAT, 0x8);
    assert_eq!(assimp_import::scene::TERRAIN, 0x10);
}

#[test]
fn primitive_types_accept_known_bits_only() {
    assert_eq!(PrimitiveTypes::all().bits(), 0xf);
    assert_eq!(PrimitiveTypes::from_bits(0x10), None);
    let f = PrimitiveTypes::from_bits(assimp_import::mesh::TRIANGLE).unwrap();
    assert_eq!(f.bits(), 4);
    let g = f.union(PrimitiveTypes::from_bits(assimp_import::mesh::LINE).unwrap());
    assert_eq!(g.bits(), 6);
    assert!(g.contains(f));
    assert!(!f.contains(g));
    assert_eq!(PrimitiveTypes::from_bits_truncate(0x1f).bits(), 0xf);
    assert_eq!(assimp_import::mesh::POINT, 1);
    assert_eq!(assimp_import::mesh::POLYGON, 8);
}

#[test]
fn texture_flags_accept_known_bits_only() {
    assert_eq!(TextureFlags::all().bits(), 0x7);
    assert_eq!(TextureFlags::from_bits(8), None);
    assert_eq!(TextureFlags::from_bits(5).unwrap().bits(), 5);
    assert_eq!(TextureFlags::from_bits_truncate(0xff).bits(), 7);
    assert_eq!(assimp_import::material::INVERT, 1);
    assert_eq!(assimp_import::material::USE_ALPHA, 2);
    assert_eq!(assimp_import::material::IGNORE_ALPHA, 4);
}

#[test]
fn post_process_steps_accept_known_bits_only() {
    assert_eq!(PostProcessSteps::all().bits(), 0x7ffbfff);
    assert_eq!(PostProcessSteps::from_bits(0x4000), None);
    assert_eq!(PostProcessSteps::from_bits(0x8000_000), None);
    let f = PostProcessSteps::from_bits(
        assimp_import::postprocess::TRIANGULATE | assimp_import::postprocess::SORT_BY_PTYPE,
    )
    .unwrap();
    assert_eq!(f.bits(), 0x8008);
    assert_eq!(PostProcessSteps::from_bits_truncate(0xffff_ffff).bits(), 0x7ffbfff);
    assert_eq!(assimp_import::postprocess::CALC_TANGENT_SPACE, 0x1);
    assert_eq!(assimp_import::postprocess::DEBONE, 0x4000000);
}
