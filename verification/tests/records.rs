use assimp_import::prim::{
    Double, RawColor3, RawMatrix4, RawQuaternion, RawString, RawVector2, RawVector3, Single,
};
use assimp_import::{
    AnimBehavior, Animation, Bone, Camera, Face, Light, LightSourceType, Mesh, NodeAnim, QuatKey,
    Record, VectorKey, VertexWeight,
};

fn f(x: f32) -> Single {
    Single::from_bits(x.to_bits())
}

fn d(x: f64) -> Double {
    Double::from_bits(x.to_bits())
}

fn text(s: &str) -> RawString {
    RawString { length: s.len() as u32, data: s.as_bytes().to_vec() }
}

fn v3(x: f32, y: f32, z: f32) -> RawVector3 {
    RawVector3 { x: f(x), y: f(y), z: f(z) }
}

fn matrix(seed: f32) -> RawMatrix4 {
    RawMatrix4 {
        a1: f(seed),
        a2: f(seed + 1.0),
        a3: f(seed + 2.0),
        a4: f(seed + 3.0),
        b1: f(seed + 4.0),
        b2: f(seed + 5.0),
        b3: f(seed + 6.0),
        b4: f(seed + 7.0),
        c1: f(seed + 8.0),
        c2: f(seed + 9.0),
        c3: f(seed + 10.0),
        c4: f(seed + 11.0),
        d1: f(seed + 12.0),
        d2: f(seed + 13.0),
        d3: f(seed + 14.0),
        d4: f(seed + 15.0),
    }
}

fn triangle() -> Mesh {
    Mesh {
        primitive_types: 4,
        num_vertices: 3,
        num_faces: 1,
        vertices: Some(vec![[f(0.0); 3], [f(1.0), f(0.0), f(0.0)], [f(0.0), f(1.0), f(0.0)]]),
        normals: None,
        tangents: None,
        bitangents: None,
        colors: Default::default(),
        texture_coords: Default::default(),
        num_uv_components: [0; 8],
        faces: Some(vec![Face { num_indices: 3, indices: Some(vec![0, 1, 2]) }]),
        num_bones: 0,
        bones: None,
        material_index: 0,
        name: text("tri"),
    }
}

#[test]
fn mesh_hands_out_its_channels() {
    let mut m = triangle();
    m.normals = Some(vec![[f(0.0), f(0.0), f(1.0)]; 3]);
    m.colors[1] = Some(vec![[f(1.0); 4]; 3]);
    m.texture_coords[7] = Some(vec![[f(0.5); 3]; 3]);
    m.num_uv_components[7] = 2;
    m.material_index = 5;
    assert!(m.is_well_formed());
    assert_eq!(m.name(), Some("tri"));
    assert_eq!(m.primitive_types().bits(), 4);
    assert_eq!(m.vertices().len(), 3);
    assert_eq!(m.vertices()[1], [f(1.0), f(0.0), f(0.0)]);
    assert_eq!(m.normals().len(), 3);
    assert!(m.tangents().is_empty());
    assert!(m.bitangents().is_empty());
    assert!(m.colors(0).is_empty());
    assert_eq!(m.colors(1).len(), 3);
    assert!(m.texture_coords(0).is_empty());
    assert_eq!(m.texture_coords(7).len(), 3);
    assert_eq!(m.num_uv_components(7), 2);
    assert_eq!(m.num_uv_components(0), 0);
    assert_eq!(m.material_idx(), 5);
    assert_eq!(m.faces().len(), 1);
    assert_eq!(m.faces()[0].indices(), &[0, 1, 2]);
    assert!(m.bones().is_empty());
}

#[test]
fn channel_beyond_the_last_is_empty() {
    let mut m = triangle();
    m.num_uv_components = [3; 8];
    assert!(m.colors(8).is_empty());
    assert!(m.colors(usize::MAX).is_empty());
    assert!(m.texture_coords(8).is_empty());
    assert_eq!(m.num_uv_components(8), 0);
    assert_eq!(m.num_uv_components(usize::MAX), 0);
    assert_eq!(m.num_uv_components(7), 3);
    assert_eq!(assimp_import::MAX_COLOR_SETS, 8);
    assert_eq!(assimp_import::MAX_TEXTURE_COORDS, 8);
}

#[test]
fn mesh_without_a_name_has_none() {
    let mut m = triangle();
    m.name = text("");
    assert!(m.is_well_formed());
    assert_eq!(m.name(), None);
}

#[test]
fn mesh_with_a_short_channel_is_not_well_formed() {
    let mut m = triangle();
    m.normals = Some(vec![[f(0.0); 3]; 2]);
    assert!(!m.is_well_formed());
    let mut m = triangle();
    m.colors[7] = Some(Vec::new());
    assert!(!m.is_well_formed());
    let mut m = triangle();
    m.texture_coords[3] = Some(vec![[f(0.0); 3]; 2]);
    assert!(!m.is_well_formed());
    let mut m = triangle();
    m.num_vertices = 4;
    assert!(!m.is_well_formed());
}

#[test]
fn mesh_with_a_broken_face_or_bone_is_not_well_formed() {
    let mut m = triangle();
    m.faces = Some(vec![Face { num_indices: 4, indices: Some(vec![0, 1, 2]) }]);
    assert!(!m.is_well_formed());
    let mut m = triangle();
    m.num_faces = 2;
    assert!(!m.is_well_formed());
    let mut m = triangle();
    m.num_bones = 1;
    m.bones = Some(vec![Bone {
        name: text(""),
        num_weights: 0,
        weights: None,
        offset_matrix: matrix(0.0),
    }]);
    assert!(!m.is_well_formed());
    let mut m = triangle();
    m.primitive_types = 0x10;
    assert!(!m.is_well_formed());
}

#[test]
fn face_is_its_indices() {
    let face = Face { num_indices: 2, indices: Some(vec![7, 9, 11]) };
    assert!(face.is_well_formed());
    assert_eq!(face.indices(), &[7, 9]);
    let none = Face { num_indices: 3, indices: None };
    assert!(none.is_well_formed());
    assert!(none.indices().is_empty());
}

#[test]
fn bone_hands_out_its_parts() {
    let b = Bone {
        name: text("spine"),
        num_weights: 2,
        weights: Some(vec![
            VertexWeight { vertex_id: 4, weight: f(0.25) },
            VertexWeight { vertex_id: 9, weight: f(0.75) },
        ]),
        offset_matrix: matrix(1.0),
    };
    assert!(b.is_well_formed());
    assert_eq!(b.name(), "spine");
    assert_eq!(b.weights().len(), 2);
    assert_eq!(b.weights()[1].vertex_idx(), 9);
    assert_eq!(f32::from_bits(b.weights()[1].weight().to_bits()), 0.75);
    let m = b.offset_matrix();
    assert_eq!(m[0], [f(1.0), f(2.0), f(3.0), f(4.0)]);
    assert_eq!(m[3], [f(13.0), f(14.0), f(15.0), f(16.0)]);
}

fn channel() -> NodeAnim {
    NodeAnim {
        node_name: text("arm"),
        num_position_keys: 1,
        position_keys: Some(vec![VectorKey { time: d(0.0), value: v3(1.0, 2.0, 3.0) }]),
        num_rotation_keys: 2,
        rotation_keys: Some(vec![
            QuatKey {
                time: d(0.0),
                value: RawQuaternion { w: f(1.0), x: f(0.0), y: f(0.0), z: f(0.0) },
            },
            QuatKey {
                time: d(2.5),
                value: RawQuaternion { w: f(0.0), x: f(1.0), y: f(0.0), z: f(0.0) },
            },
        ]),
        num_scaling_keys: 0,
        scaling_keys: None,
        pre_state: 1,
        post_state: 3,
    }
}

#[test]
fn channel_hands_out_its_parts() {
    let c = channel();
    assert!(c.is_well_formed());
    assert_eq!(c.node_name(), "arm");
    assert_eq!(c.position_keys().len(), 1);
    assert_eq!(c.position_keys()[0].value(), [f(1.0), f(2.0), f(3.0)]);
    assert_eq!(f64::from_bits(c.position_keys()[0].time().to_bits()), 0.0);
    assert_eq!(c.rotation_keys().len(), 2);
    assert_eq!(f64::from_bits(c.rotation_keys()[1].time().to_bits()), 2.5);
    assert_eq!(c.rotation_keys()[1].value(), [f(0.0), f(1.0), f(0.0), f(0.0)]);
    assert!(c.scaling_keys().is_empty());
    assert_eq!(c.pre_state(), AnimBehavior::Constant);
    assert_eq!(c.post_state(), AnimBehavior::Repeat);
}

#[test]
fn channel_outside_its_domains_is_not_well_formed() {
    let mut c = channel();
    c.pre_state = 4;
    assert!(!c.is_well_formed());
    let mut c = channel();
    c.post_state = 4;
    assert!(!c.is_well_formed());
    let mut c = channel();
    c.node_name = text("");
    assert!(!c.is_well_formed());
    let mut c = channel();
    c.num_rotation_keys = 3;
    assert!(!c.is_well_formed());
}

#[test]
fn animation_hands_out_its_parts() {
    let a = Animation {
        name: text("walk"),
        duration: d(40.0),
        ticks_per_second: d(24.0),
        num_channels: 1,
        channels: Some(vec![channel()]),
    };
    assert!(a.is_well_formed());
    assert_eq!(a.name(), Some("walk"));
    assert_eq!(f64::from_bits(a.duration().to_bits()), 40.0);
    assert_eq!(f64::from_bits(a.ticks_per_second().to_bits()), 24.0);
    assert_eq!(a.channels().len(), 1);
    assert_eq!(a.channels()[0].node_name(), "arm");
    let unnamed = Animation { name: text(""), ..a.clone() };
    assert_eq!(unnamed.name(), None);
    let mut broken = a.clone();
    broken.channels.as_mut().unwrap()[0].pre_state = 9;
    assert!(!broken.is_well_formed());
}

fn lamp() -> Light {
    Light {
        name: text("lamp"),
        source_type: 3,
        position: v3(1.0, 2.0, 3.0),
        direction: v3(0.0, -1.0, 0.0),
        up: v3(0.0, 0.0, 1.0),
        attenuation_constant: f(1.0),
        attenuation_linear: f(0.5),
        attenuation_quadratic: f(0.25),
        color_diffuse: RawColor3 { r: f(1.0), g: f(0.9), b: f(0.8) },
        color_specular: RawColor3 { r: f(0.7), g: f(0.6), b: f(0.5) },
        color_ambient: RawColor3 { r: f(0.4), g: f(0.3), b: f(0.2) },
        angle_inner_cone: f(0.3),
        angle_outer_cone: f(0.6),
        size: RawVector2 { x: f(2.0), y: f(4.0) },
    }
}

#[test]
fn light_hands_out_its_parts() {
    let l = lamp();
    assert!(l.is_well_formed());
    assert_eq!(l.name(), "lamp");
    assert_eq!(l.source_type(), LightSourceType::Spot);
    assert_eq!(l.position(), [f(1.0), f(2.0), f(3.0)]);
    assert_eq!(l.direction(), [f(0.0), f(-1.0), f(0.0)]);
    assert_eq!(l.up(), [f(0.0), f(0.0), f(1.0)]);
    assert_eq!(l.attenuation_constant(), f(1.0));
    assert_eq!(l.attenuation_linear(), f(0.5));
    assert_eq!(l.attenuation_quadratic(), f(0.25));
    assert_eq!(l.color_diffuse(), [f(1.0), f(0.9), f(0.8)]);
    assert_eq!(l.color_specular(), [f(0.7), f(0.6), f(0.5)]);
    assert_eq!(l.color_ambient(), [f(0.4), f(0.3), f(0.2)]);
    assert_eq!(l.angle_inner_cone(), f(0.3));
    assert_eq!(l.angle_outer_cone(), f(0.6));
    assert_eq!(l.size(), [f(2.0), f(4.0)]);
}

#[test]
fn light_outside_its_domain_is_not_well_formed() {
    let mut l = lamp();
    l.source_type = 6;
    assert!(!l.is_well_formed());
    let mut l = lamp();
    l.name = text("");
    assert!(!l.is_well_formed());
}

#[test]
fn camera_hands_out_its_parts() {
    let c = Camera {
        name: text("main"),
        position: v3(1.0, 2.0, 3.0),
        up: v3(0.0, 1.0, 0.0),
        look_at: v3(0.0, 0.0, 1.0),
        horizontal_fov: f(0.78),
        clip_plane_near: f(0.1),
        clip_plane_far: f(1000.0),
        aspect: f(1.5),
    };
    assert!(c.is_well_formed());
    assert_eq!(c.name(), "main");
    assert_eq!(c.position(), [f(1.0), f(2.0), f(3.0)]);
    assert_eq!(c.up(), [f(0.0), f(1.0), f(0.0)]);
    assert_eq!(c.look_at(), [f(0.0), f(0.0), f(1.0)]);
    assert_eq!(c.horizontal_fov(), f(0.78));
    assert_eq!(c.clip_plane_near(), f(0.1));
    assert_eq!(c.clip_plane_far(), f(1000.0));
    assert_eq!(c.aspect(), f(1.5));
    let unnamed = Camera { name: text(""), ..c };
    assert!(!unnamed.is_well_formed());
}
