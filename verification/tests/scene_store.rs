use raytracer::camera::{Camera, CameraRaw};
use raytracer::fbits::F32_ONE_BITS;
use raytracer::scene::{Material, MaterialType, Scene, Sphere, MATERIAL_PICK_HEADROOM};

fn plain_materials(n: usize) -> Vec<Material> {
    (0..n)
        .map(|i| Material::new([10 + i as u32; 4], 1, 2, 3))
        .collect()
}

#[test]
fn sphere_new_widens_the_center_to_xyzz() {
    let s = Sphere::new(&[7, 8, 9], 0x4000_0000, 1);
    assert_eq!(s.center, [7, 8, 9, 9]);
    assert_eq!(s.radius, 0x4000_0000);
    assert_eq!(s.material_index, 1);
}

#[test]
fn random_bunch_places_one_unit_sphere_per_center() {
    let centers: Vec<[u32; 3]> = (0..50).map(|i| [i, i + 1, i + 2]).collect();
    let spheres = Sphere::random_bunch(&centers, 2);
    assert_eq!(spheres.len(), 50);
    for (i, s) in spheres.iter().enumerate() {
        let c = centers[i];
        assert_eq!(s.center, [c[0], c[1], c[2], c[2]]);
        assert_eq!(s.radius, F32_ONE_BITS);
        // the material pick may overshoot the table (the "no material"
        // sentinel) but never the documented headroom
        assert!(s.material_index < 2 + MATERIAL_PICK_HEADROOM);
    }
}

#[test]
fn random_bunch_picks_vary_across_the_headroom() {
    // with one material and four sentinel slots, 200 draws that all land
    // on a single value would mean the picks ignore the generator
    let centers: Vec<[u32; 3]> = (0..200).map(|i| [i, i, i]).collect();
    let spheres = Sphere::random_bunch(&centers, 1);
    let first = spheres[0].material_index;
    assert!(spheres.iter().any(|s| s.material_index != first));
}

#[test]
fn scene_new_keeps_the_material_table() {
    let centers: Vec<[u32; 3]> = vec![[1, 2, 3]];
    let materials = plain_materials(3);
    let scene = Scene::new(&centers, materials.clone());
    assert_eq!(scene.materials.len(), 3);
    assert_eq!(scene.materials[1].color, [11; 4]);
    assert_eq!(scene.spheres.len(), 1);
}

#[test]
fn scene_reload_replaces_everything() {
    let centers: Vec<[u32; 3]> = vec![[1, 2, 3], [4, 5, 6]];
    let mut scene = Scene::new(&centers, plain_materials(2));
    let new_centers: Vec<[u32; 3]> = vec![[9, 9, 9], [8, 8, 8], [7, 7, 7]];
    scene.reload(&new_centers, plain_materials(5));
    assert_eq!(scene.spheres.len(), 3);
    assert_eq!(scene.materials.len(), 5);
    assert_eq!(scene.spheres[0].center, [9, 9, 9, 9]);
}

#[test]
fn primitive_bytes_layout_is_exact() {
    let scene = Scene {
        spheres: vec![Sphere::new(&[1, 2, 3], 0x3F80_0000, 0)],
        materials: plain_materials(2),
    };
    let bytes = scene.primitives_as_bytes();
    let expected: Vec<u8> = [1u32, 2, 3, 3, 0x3F80_0000, 0, 0, 0]
        .iter()
        .flat_map(|w| w.to_le_bytes())
        .collect();
    assert_eq!(bytes, expected);
}

#[test]
fn out_of_range_material_index_is_clamped_at_upload() {
    let scene = Scene {
        spheres: vec![
            Sphere::new(&[0, 0, 0], F32_ONE_BITS, 1),
            Sphere::new(&[0, 0, 0], F32_ONE_BITS, 5),
        ],
        materials: plain_materials(2),
    };
    let bytes = scene.primitives_as_bytes();
    assert_eq!(bytes.len(), 64);
    // word 5 of each 8-word record is the validated material index
    let idx0 = u32::from_le_bytes(bytes[20..24].try_into().unwrap());
    let idx1 = u32::from_le_bytes(bytes[52..56].try_into().unwrap());
    assert_eq!(idx0, 1); // in range: kept
    assert_eq!(idx1, 1); // past the table: clamped to the last material
}

#[test]
fn material_bytes_layout_is_exact() {
    let scene = Scene {
        spheres: vec![],
        materials: vec![Material::new([4, 5, 6, 7], 8, 9, 10)],
    };
    let bytes = scene.materials_as_bytes();
    let expected: Vec<u8> = [4u32, 5, 6, 7, 8, 9, 10, 0]
        .iter()
        .flat_map(|w| w.to_le_bytes())
        .collect();
    assert_eq!(bytes, expected);
    assert!(scene.primitives_as_bytes().is_empty());
}

#[test]
fn camera_raw_bytes_are_the_forty_words_little_endian() {
    let c = Camera::new(640, 480);
    let wtp: [u32; 16] = core::array::from_fn(|i| 100 + i as u32);
    let ptw: [u32; 16] = core::array::from_fn(|i| 200 + i as u32);
    let raw = c.to_raw(&wtp, &ptw);
    assert_eq!(raw.pos, [c.pos[0], c.pos[1], c.pos[2], c.pos[2]]);
    assert_eq!(raw.focal_length, c.z_near);
    let bytes = raw.to_bytes();
    assert_eq!(bytes.len(), 160);
    let mut expected: Vec<u8> = Vec::new();
    for w in wtp.iter().chain(ptw.iter()) {
        expected.extend_from_slice(&w.to_le_bytes());
    }
    for w in [raw.pos[0], raw.pos[1], raw.pos[2], raw.pos[3]] {
        expected.extend_from_slice(&w.to_le_bytes());
    }
    for w in [raw.focal_length, raw.samples_per_pixel, raw.frames_to_render, raw.current_frame] {
        expected.extend_from_slice(&w.to_le_bytes());
    }
    assert_eq!(bytes, expected);
}

#[test]
fn camera_raw_carries_the_tunables() {
    let mut c = Camera::new(640, 480);
    c.increase_frame();
    c.increase_frame();
    let m: [u32; 16] = [0; 16];
    let raw: CameraRaw = c.to_raw(&m, &m);
    assert_eq!(raw.samples_per_pixel, 1);
    assert_eq!(raw.frames_to_render, 8);
    assert_eq!(raw.current_frame, 2);
}

#[test]
fn material_type_metal_exists() {
    let t = MaterialType::Metal;
    assert_eq!(t, MaterialType::Metal);
}
