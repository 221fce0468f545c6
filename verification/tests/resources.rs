use poritzcraft::geometry::{
    cube_indices, cube_normals, cube_tex_coords, cube_vertices, instance_grid, InstanceData,
};
use poritzcraft::resources::{check_indices, InitError, ResourceSet};
use poritzcraft::surface::{window_size_dependent_setup, FramebufferLayout};
use poritzcraft::renderer::Extent;
use poritzcraft::texture::DecodedTexture;
use poritzcraft::timing::Elapsed;

fn white() -> DecodedTexture {
    DecodedTexture::new(1, 1, vec![255, 255, 255, 255]).unwrap()
}

#[test]
fn cube_tables_build_a_resource_set() {
    let set = ResourceSet::build(
        cube_vertices(),
        cube_normals(),
        cube_tex_coords(),
        cube_indices(),
        instance_grid(100, 1, 100),
        white(),
    )
    .unwrap();
    assert_eq!(set.index_count(), 36);
    assert_eq!(set.instance_count(), 10_000);
    assert_eq!(set.vertices(), &cube_vertices());
    assert_eq!(set.normals(), &cube_normals());
    assert_eq!(set.tex_coords(), &cube_tex_coords());
    assert_eq!(set.indices(), &cube_indices());
    assert_eq!(set.instances().len(), 10_000);
    assert_eq!(set.texture().width(), 1);
    assert_eq!(set.texture().height(), 1);
    assert_eq!(set.texture().data(), &vec![255u8, 255, 255, 255]);
}

#[test]
fn single_instance_builds_a_resource_set() {
    let set = ResourceSet::build(
        cube_vertices(),
        cube_normals(),
        cube_tex_coords(),
        cube_indices(),
        vec![InstanceData { x: 0, y: 0, z: 0 }],
        white(),
    )
    .unwrap();
    assert_eq!(set.instance_count(), 1);
}

#[test]
fn streams_of_different_length_are_refused() {
    let mut normals = cube_normals();
    normals.pop();
    let r = ResourceSet::build(
        cube_vertices(),
        normals,
        cube_tex_coords(),
        cube_indices(),
        instance_grid(1, 1, 1),
        white(),
    );
    assert_eq!(r.err(), Some(InitError::MismatchedStreams));

    let mut tex_coords = cube_tex_coords();
    tex_coords.push(tex_coords[0]);
    let r = ResourceSet::build(
        cube_vertices(),
        cube_normals(),
        tex_coords,
        cube_indices(),
        instance_grid(1, 1, 1),
        white(),
    );
    assert_eq!(r.err(), Some(InitError::MismatchedStreams));
}

#[test]
fn index_beyond_the_vertices_is_refused() {
    let mut indices = cube_indices();
    indices[35] = 24;
    let r = ResourceSet::build(
        cube_vertices(),
        cube_normals(),
        cube_tex_coords(),
        indices,
        instance_grid(1, 1, 1),
        white(),
    );
    assert_eq!(r.err(), Some(InitError::IndexOutOfRange));
}

#[test]
fn mismatched_streams_are_reported_before_bad_indices() {
    let r = ResourceSet::build(
        cube_vertices(),
        Vec::new(),
        cube_tex_coords(),
        vec![100],
        instance_grid(1, 1, 1),
        white(),
    );
    assert_eq!(r.err(), Some(InitError::MismatchedStreams));
}

#[test]
fn check_indices_compares_with_the_vertex_count() {
    assert!(check_indices(&vec![0, 1, 2], 3));
    assert!(!check_indices(&vec![0, 3, 2], 3));
    assert!(check_indices(&Vec::new(), 0));
    assert!(!check_indices(&vec![0], 0));
}

#[test]
fn setup_pairs_every_image_with_the_depth_attachment() {
    let extent = Extent { width: 800, height: 600 };
    let layout = window_size_dependent_setup(extent, 3);
    assert_eq!(layout.extent, extent);
    assert_eq!(layout.depth_extent, extent);
    assert_eq!(layout.viewport, extent);
    assert_eq!(
        layout.framebuffers,
        vec![
            FramebufferLayout { color_image: 0, depth_extent: extent },
            FramebufferLayout { color_image: 1, depth_extent: extent },
            FramebufferLayout { color_image: 2, depth_extent: extent },
        ]
    );
}

#[test]
fn setup_without_images_has_no_framebuffers() {
    let layout = window_size_dependent_setup(Extent { width: 4, height: 4 }, 0);
    assert!(layout.framebuffers.is_empty());
    assert_eq!(layout.viewport, Extent { width: 4, height: 4 });
}

#[test]
fn elapsed_needs_nanoseconds_below_one_second() {
    assert_eq!(Elapsed::new(3, 999_999_999), Some(Elapsed { secs: 3, subsec_nanos: 999_999_999 }));
    assert_eq!(Elapsed::new(3, 1_000_000_000), None);
    assert_eq!(Elapsed::new(0, u32::MAX), None);
}

#[test]
fn rotation_is_one_radian_per_second() {
    assert_eq!(Elapsed { secs: 0, subsec_nanos: 0 }.rotation_nanos(), 0);
    assert_eq!(Elapsed { secs: 1, subsec_nanos: 0 }.rotation_nanos(), 1_000_000_000);
    assert_eq!(Elapsed { secs: 12, subsec_nanos: 345 }.rotation_nanos(), 12_000_000_345);
    assert_eq!(
        Elapsed { secs: u64::MAX, subsec_nanos: 999_999_999 }.rotation_nanos(),
        18_446_744_073_709_551_615_999_999_999
    );
}

#[test]
fn rotation_never_decreases() {
    let times = [(0u64, 0u32), (0, 1), (0, 999_999_999), (1, 0), (1, 5), (2, 0)];
    let mut last: u128 = 0;
    for (secs, nanos) in times {
        let angle = Elapsed::new(secs, nanos).unwrap().rotation_nanos();
        assert!(angle >= last);
        last = angle;
    }
}
