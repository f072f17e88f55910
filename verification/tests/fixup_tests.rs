use rsglobe::fixup::{
    asset_loaded, cubemap_poll, normal_map_poll, Cubemap, ImageInfo, LoadReport, NormalMap,
};

fn fresh_cubemap() -> Cubemap {
    Cubemap { is_loaded: false, image_handle: 11 }
}

fn stacked_image() -> ImageInfo {
    // A 2:1-per-face stack: six 512x512 faces piled into 512x3072.
    ImageInfo { width: 512, height: 3072, array_layers: 1 }
}

#[test]
fn cubemap_poll_before_ready_mutates_nothing() {
    let mut cubemap = fresh_cubemap();
    let action = cubemap_poll(&mut cubemap, LoadReport::Loading, stacked_image());
    assert!(!cubemap.is_loaded);
    assert_eq!(cubemap.image_handle, 11);
    assert_eq!(action.reinterpret_layers, None);
    assert!(!action.set_cube_view);
    assert!(!action.reassign_skybox);
}

#[test]
fn cubemap_failed_load_never_fires() {
    let mut cubemap = fresh_cubemap();
    for _ in 0..10 {
        let action = cubemap_poll(&mut cubemap, LoadReport::Failed, stacked_image());
        assert!(!cubemap.is_loaded);
        assert!(!action.reassign_skybox);
        assert_eq!(action.reinterpret_layers, None);
    }
}

#[test]
fn stacked_cubemap_reinterprets_into_six_layers() {
    let mut cubemap = fresh_cubemap();
    let action = cubemap_poll(&mut cubemap, LoadReport::Ready, stacked_image());
    assert!(cubemap.is_loaded);
    assert_eq!(action.reinterpret_layers, Some(6));
    assert!(action.set_cube_view);
    assert!(action.reassign_skybox);
}

#[test]
fn square_cubemap_image_is_not_reinterpreted() {
    let mut cubemap = fresh_cubemap();
    let square = ImageInfo { width: 512, height: 512, array_layers: 1 };
    let action = cubemap_poll(&mut cubemap, LoadReport::Ready, square);
    assert!(cubemap.is_loaded);
    assert_eq!(action.reinterpret_layers, None);
    assert!(!action.set_cube_view);
    assert!(action.reassign_skybox);
}

#[test]
fn already_layered_image_is_left_alone() {
    let mut cubemap = fresh_cubemap();
    let layered = ImageInfo { width: 512, height: 3072, array_layers: 6 };
    let action = cubemap_poll(&mut cubemap, LoadReport::Ready, layered);
    assert!(cubemap.is_loaded);
    assert_eq!(action.reinterpret_layers, None);
    assert!(!action.set_cube_view);
    assert!(action.reassign_skybox);
}

#[test]
fn fixup_fires_exactly_once() {
    let mut cubemap = fresh_cubemap();
    let mut fired = 0;
    let reports = [
        LoadReport::Loading,
        LoadReport::Loading,
        LoadReport::Ready,
        LoadReport::Ready,
        LoadReport::Ready,
    ];
    for report in reports {
        let action = cubemap_poll(&mut cubemap, report, stacked_image());
        if action.reassign_skybox {
            fired += 1;
        }
    }
    assert_eq!(fired, 1);
    assert!(cubemap.is_loaded);
}

#[test]
fn normal_map_format_fixup_fires_exactly_once() {
    let mut normalmap = NormalMap { is_loaded: false, image_handle: 3 };
    assert!(!normal_map_poll(&mut normalmap, LoadReport::Loading));
    assert!(normal_map_poll(&mut normalmap, LoadReport::Ready));
    assert!(normalmap.is_loaded);
    assert!(!normal_map_poll(&mut normalmap, LoadReport::Ready));
    assert_eq!(normalmap.image_handle, 3);
}

#[test]
fn frame_poll_drives_both_resources() {
    let mut cubemap = fresh_cubemap();
    let mut normalmap = NormalMap { is_loaded: false, image_handle: 3 };
    let actions = asset_loaded(
        &mut cubemap,
        &mut normalmap,
        LoadReport::Ready,
        stacked_image(),
        LoadReport::Loading,
    );
    assert_eq!(actions.cubemap.reinterpret_layers, Some(6));
    assert!(!actions.normal_map_rgba);
    let actions = asset_loaded(
        &mut cubemap,
        &mut normalmap,
        LoadReport::Ready,
        stacked_image(),
        LoadReport::Ready,
    );
    assert_eq!(actions.cubemap.reinterpret_layers, None);
    assert!(!actions.cubemap.reassign_skybox);
    assert!(actions.normal_map_rgba);
}
