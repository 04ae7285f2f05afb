use assimp_import::prim::{RawColor4, RawString, RawVector2, Single};
use assimp_import::{
    BlendMode, ForeignEnum, Material, MaterialKey, Record, ShadingMode, TextureBinding,
    TextureMapMode, TextureMapping, TextureOp, TextureStack, TextureType, UvTransform,
};

fn f(x: f32) -> Single {
    Single::from_bits(x.to_bits())
}

fn g(x: Single) -> f32 {
    f32::from_bits(x.to_bits())
}

fn text(s: &str) -> RawString {
    RawString { length: s.len() as u32, data: s.as_bytes().to_vec() }
}

fn blank() -> Material {
    Material {
        name: None,
        two_sided: None,
        shading_model: None,
        wireframe: None,
        blend_func: None,
        opacity: None,
        bump_scaling: None,
        shininess: None,
        shininess_strength: None,
        reflectivity: None,
        refraction_index: None,
        color_diffuse: None,
        color_ambient: None,
        color_specular: None,
        color_emissive: None,
        color_transparent: None,
        color_reflective: None,
        textures: Vec::new(),
    }
}

fn binding(path: &str) -> TextureBinding {
    let mut b = TextureBinding::initial();
    b.path = text(path);
    b
}

fn stacks(diffuse: Vec<Option<TextureBinding>>) -> Vec<TextureStack> {
    let mut all = Vec::new();
    for code in 0..13 {
        if code == 1 {
            all.push(TextureStack { count: diffuse.len() as u32, slots: diffuse.clone() });
        } else {
            all.push(TextureStack { count: 0, slots: Vec::new() });
        }
    }
    all
}

#[test]
fn unset_keys_take_their_defaults() {
    let m = blank();
    assert!(m.is_well_formed());
    let p = m.material_properties();
    assert_eq!(p.name, "");
    assert!(!p.twosided);
    assert_eq!(p.shading_mode, ShadingMode::Gouraud);
    assert!(!p.wireframe);
    assert_eq!(p.blend_mode, BlendMode::Default);
    assert_eq!(g(p.opacity), 1.0);
    assert_eq!(g(p.bumpscaling), 0.0);
    assert_eq!(g(p.shininess), 0.0);
    assert_eq!(g(p.shininess_strength), 1.0);
    assert_eq!(g(p.reflectivity), 0.0);
    assert_eq!(g(p.refracti), 1.0);
    let black = [f(0.0); 4];
    assert_eq!(p.color_diffuse, black);
    assert_eq!(p.color_ambient, black);
    assert_eq!(p.color_specular, black);
    assert_eq!(p.color_emissive, black);
    assert_eq!(p.color_transparent, black);
    assert_eq!(p.color_reflective, black);
}

#[test]
fn opacity_defaults_to_one() {
    let mut m = blank();
    m.refraction_index = Some(f(1.33));
    m.shading_model = Some(3);
    assert_eq!(g(m.material_properties().opacity), 1.0);
}

#[test]
fn refraction_index_defaults_to_one() {
    let mut m = blank();
    m.opacity = Some(f(0.25));
    assert_eq!(g(m.material_properties().refracti), 1.0);
}

#[test]
fn shading_model_defaults_to_gouraud() {
    let mut m = blank();
    m.opacity = Some(f(0.25));
    m.blend_func = Some(1);
    assert_eq!(m.material_properties().shading_mode, ShadingMode::Gouraud);
}

#[test]
fn set_keys_are_reported() {
    let mut m = blank();
    m.name = Some(text("brass"));
    m.two_sided = Some(1);
    m.shading_model = Some(8);
    m.wireframe = Some(-3);
    m.blend_func = Some(1);
    m.opacity = Some(f(0.5));
    m.bump_scaling = Some(f(2.0));
    m.shininess = Some(f(64.0));
    m.shininess_strength = Some(f(0.75));
    m.reflectivity = Some(f(0.125));
    m.refraction_index = Some(f(1.5));
    m.color_diffuse = Some(RawColor4 { r: f(0.1), g: f(0.2), b: f(0.3), a: f(0.4) });
    m.color_reflective = Some(RawColor4 { r: f(0.9), g: f(0.8), b: f(0.7), a: f(0.6) });
    assert!(m.is_well_formed());
    let p = m.material_properties();
    assert_eq!(p.name, "brass");
    assert!(p.twosided);
    assert_eq!(p.shading_mode, ShadingMode::CookTorrance);
    assert!(p.wireframe);
    assert_eq!(p.blend_mode, BlendMode::Additive);
    assert_eq!(g(p.opacity), 0.5);
    assert_eq!(g(p.bumpscaling), 2.0);
    assert_eq!(g(p.shininess), 64.0);
    assert_eq!(g(p.shininess_strength), 0.75);
    assert_eq!(g(p.reflectivity), 0.125);
    assert_eq!(g(p.refracti), 1.5);
    assert_eq!(p.color_diffuse, [f(0.1), f(0.2), f(0.3), f(0.4)]);
    assert_eq!(p.color_reflective, [f(0.9), f(0.8), f(0.7), f(0.6)]);
    assert_eq!(p.color_ambient, [f(0.0); 4]);
}

#[test]
fn flag_set_to_zero_is_clear() {
    let mut m = blank();
    m.two_sided = Some(0);
    m.wireframe = Some(0);
    let p = m.material_properties();
    assert!(!p.twosided);
    assert!(!p.wireframe);
}

#[test]
fn empty_name_answer_is_an_empty_name() {
    let mut m = blank();
    m.name = Some(RawString { length: 0, data: Vec::new() });
    assert!(m.is_well_formed());
    assert_eq!(m.material_properties().name, "");
}

#[test]
fn codes_outside_their_domain_are_not_well_formed() {
    let mut m = blank();
    m.shading_model = Some(0);
    assert!(!m.is_well_formed());
    m.shading_model = Some(11);
    assert!(!m.is_well_formed());
    m.shading_model = Some(-1);
    assert!(!m.is_well_formed());
    m.shading_model = Some(10);
    assert!(m.is_well_formed());
    m.blend_func = Some(2);
    assert!(!m.is_well_formed());
    m.blend_func = Some(0);
    m.name = Some(RawString { length: 1, data: vec![0x80] });
    assert!(!m.is_well_formed());
}

#[test]
fn semantic_without_slots_counts_zero() {
    let m = blank();
    assert_eq!(m.count_texture_properties(TextureType::Diffuse), 0);
    assert_eq!(m.count_texture_properties(TextureType::Unknown), 0);
    assert!(m.texture_properties(TextureType::Diffuse, 0).is_none());
}

#[test]
fn slot_beyond_the_count_is_absent() {
    let mut m = blank();
    m.textures = stacks(vec![Some(binding("a.png")), Some(binding("b.png"))]);
    assert!(m.is_well_formed());
    assert_eq!(m.count_texture_properties(TextureType::Diffuse), 2);
    assert_eq!(m.count_texture_properties(TextureType::Specular), 0);
    assert!(m.texture_properties(TextureType::Diffuse, 2).is_none());
    assert!(m.texture_properties(TextureType::Diffuse, 3).is_none());
    assert!(m.texture_properties(TextureType::Diffuse, u32::MAX).is_none());
    assert!(m.texture_properties(TextureType::Specular, 0).is_none());
}

#[test]
fn slot_within_the_count_has_two_wrap_modes() {
    let mut m = blank();
    m.textures = stacks(vec![Some(binding("a.png")), Some(binding("b.png"))]);
    for i in 0..2 {
        let p = m.texture_properties(TextureType::Diffuse, i).unwrap();
        assert_eq!(p.map_mode.len(), 2);
    }
    assert_eq!(m.texture_properties(TextureType::Diffuse, 0).unwrap().texture_ref, "a.png");
    assert_eq!(m.texture_properties(TextureType::Diffuse, 1).unwrap().texture_ref, "b.png");
}

#[test]
fn slot_that_the_store_says_nothing_more_of_has_the_initial_values() {
    let mut m = blank();
    m.textures = stacks(vec![Some(binding("*0"))]);
    let p = m.texture_properties(TextureType::Diffuse, 0).unwrap();
    assert_eq!(p.texture_ref, "*0");
    assert_eq!(p.mapping, TextureMapping::Other);
    assert_eq!(p.uv_index, None);
    assert_eq!(g(p.blend), 0.0);
    assert_eq!(p.op, TextureOp::Multiply);
    assert_eq!(p.map_mode, [TextureMapMode::Wrap, TextureMapMode::Wrap]);
    assert_eq!(p.flags.bits(), 0);
}

#[test]
fn slot_values_are_decoded() {
    let b = TextureBinding {
        path: text("wood.jpg"),
        mapping: 0,
        uv_index: 2,
        blend: f(0.5),
        op: 5,
        map_mode: [3, 2],
        flags: 6,
    };
    assert!(b.is_well_formed());
    let mut m = blank();
    m.textures = stacks(vec![Some(b)]);
    let p = m.texture_properties(TextureType::Diffuse, 0).unwrap();
    assert_eq!(p.texture_ref, "wood.jpg");
    assert_eq!(p.mapping, TextureMapping::Uv);
    assert_eq!(p.uv_index, Some(2));
    assert_eq!(g(p.blend), 0.5);
    assert_eq!(p.op, TextureOp::SignedAdd);
    assert_eq!(p.map_mode, [TextureMapMode::Decal, TextureMapMode::Mirror]);
    assert_eq!(p.flags.bits(), 6);
    assert!(p.flags.contains(assimp_import::TextureFlags::from_bits_truncate(assimp_import::material::USE_ALPHA)));
}

#[test]
fn uv_index_zero_is_an_index() {
    let mut b = binding("t.png");
    b.uv_index = 0;
    let mut m = blank();
    m.textures = stacks(vec![Some(b)]);
    assert_eq!(m.texture_properties(TextureType::Diffuse, 0).unwrap().uv_index, Some(0));
}

#[test]
fn slot_whose_query_failed_is_absent() {
    let mut m = blank();
    m.textures = stacks(vec![None, Some(binding("b.png"))]);
    assert!(m.is_well_formed());
    assert_eq!(m.count_texture_properties(TextureType::Diffuse), 2);
    assert!(m.texture_properties(TextureType::Diffuse, 0).is_none());
    assert_eq!(m.texture_properties(TextureType::Diffuse, 1).unwrap().texture_ref, "b.png");
}

#[test]
fn bindings_outside_their_domains_are_not_well_formed() {
    assert!(!TextureBinding::initial().is_well_formed());
    assert!(binding("x").is_well_formed());
    let mut b = binding("x");
    b.mapping = 6;
    assert!(!b.is_well_formed());
    let mut b = binding("x");
    b.op = 6;
    assert!(!b.is_well_formed());
    let mut b = binding("x");
    b.map_mode = [0, 4];
    assert!(!b.is_well_formed());
    let mut b = binding("x");
    b.map_mode = [4, 0];
    assert!(!b.is_well_formed());
    let mut b = binding("x");
    b.flags = 8;
    assert!(!b.is_well_formed());
    let mut m = blank();
    m.textures = stacks(vec![Some(b)]);
    assert!(!m.is_well_formed());
}

#[test]
fn stack_that_counts_more_slots_than_it_has_is_not_well_formed() {
    let s = TextureStack { count: 2, slots: vec![Some(binding("a"))] };
    assert!(!s.is_well_formed());
    let t = TextureStack { count: 1, slots: vec![Some(binding("a")), None] };
    assert!(t.is_well_formed());
}

#[test]
fn well_known_keys_are_spelled_as_the_store_spells_them() {
    assert_eq!(MaterialKey::Name.name(), "?mat.name");
    assert_eq!(MaterialKey::TwoSided.name(), "$mat.twosided");
    assert_eq!(MaterialKey::ShadingModel.name(), "$mat.shadingm");
    assert_eq!(MaterialKey::Wireframe.name(), "$mat.wireframe");
    assert_eq!(MaterialKey::BlendFunc.name(), "$mat.blend");
    assert_eq!(MaterialKey::Opacity.name(), "$mat.opacity");
    assert_eq!(MaterialKey::BumpScaling.name(), "$mat.bumpscaling");
    assert_eq!(MaterialKey::Shininess.name(), "$mat.shininess");
    assert_eq!(MaterialKey::ShininessStrength.name(), "$mat.shinpercent");
    assert_eq!(MaterialKey::Reflectivity.name(), "$mat.reflectivity");
    assert_eq!(MaterialKey::RefractionIndex.name(), "$mat.refracti");
    assert_eq!(MaterialKey::ColorDiffuse.name(), "$clr.diffuse");
    assert_eq!(MaterialKey::ColorAmbient.name(), "$clr.ambient");
    assert_eq!(MaterialKey::ColorSpecular.name(), "$clr.specular");
    assert_eq!(MaterialKey::ColorEmissive.name(), "$clr.emissive");
    assert_eq!(MaterialKey::ColorTransparent.name(), "$clr.transparent");
    assert_eq!(MaterialKey::ColorReflective.name(), "$clr.reflective");
    assert_eq!(assimp_import::DEFAULT_MATERIAL_NAME, "DefaultMaterial");
}

#[test]
fn uv_transform_hands_its_parts_through() {
    let t = UvTransform {
        translation: RawVector2 { x: f(0.5), y: f(-0.5) },
        scaling: RawVector2 { x: f(2.0), y: f(3.0) },
        rotation: f(1.25),
    };
    assert_eq!(t.translation(), [f(0.5), f(-0.5)]);
    assert_eq!(t.scaling(), [f(2.0), f(3.0)]);
    assert_eq!(g(t.rotation()), 1.25);
}

#[test]
fn all_semantics_stand_at_the_place_of_their_code() {
    let all = TextureType::all();
    assert_eq!(all.len(), 13);
    for (i, t) in all.iter().enumerate() {
        assert_eq!(t.to_ffi() as usize, i);
    }
    assert_eq!(all[0], TextureType::NoTexture);
    assert_eq!(all[1], TextureType::Diffuse);
    assert_eq!(all[12], TextureType::Unknown);
}

#[test]
fn stack_is_found_by_the_code_of_its_semantic() {
    let mut m = blank();
    m.textures = TextureType::all()
        .iter()
        .map(|t| TextureStack {
            count: 1,
            slots: vec![Some(binding(&format!("{:?}.png", t)))],
        })
        .collect();
    assert!(m.is_well_formed());
    for t in TextureType::all() {
        assert_eq!(m.count_texture_properties(t), 1);
        assert_eq!(m.texture_properties(t, 0).unwrap().texture_ref, format!("{:?}.png", t));
    }
}
