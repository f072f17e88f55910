use rsglobe::rotation::Axis;
use rsglobe::scene::{
    initial_orientation_word, setup, texture_path, CameraController, InitialOrientation,
    SceneConfig, SceneEntity, SkyboxParams, TextureKey,
};

fn standard() -> SceneConfig {
    SceneConfig {
        draw_clouds: true,
        debug_markers: false,
        day_texture: true,
        skybox: true,
        camera: CameraController::Orbit,
    }
}

#[test]
fn default_config_is_the_standard_variant() {
    assert_eq!(SceneConfig::default(), standard());
}

#[test]
fn standard_plan_assets_in_request_order() {
    let plan = setup(&standard());
    assert_eq!(
        plan.assets,
        vec![
            TextureKey::EarthDay,
            TextureKey::EarthNight,
            TextureKey::EarthSpecular,
            TextureKey::EarthClouds,
            TextureKey::EarthNormal,
            TextureKey::Skybox,
        ]
    );
}

#[test]
fn standard_plan_spawns_globe_clouds_light_camera() {
    let plan = setup(&standard());
    assert_eq!(plan.entities.len(), 4);
    match &plan.entities[0] {
        SceneEntity::Globe {
            orientation,
            radius_milli,
            mesh_longitudes,
            mesh_latitudes,
            generated_tangents,
            base_color_texture,
            emissive,
            emissive_texture,
            normal_map_texture,
            occlusion_texture,
            perceptual_roughness_milli,
            metallic_roughness_texture,
            reflectance_milli,
        } => {
            assert_eq!(*orientation, InitialOrientation::HalfTurnZ);
            assert_eq!(*radius_milli, 1000);
            assert_eq!((*mesh_longitudes, *mesh_latitudes), (512, 512));
            assert!(*generated_tangents);
            assert_eq!(*base_color_texture, TextureKey::EarthDay);
            assert_eq!((emissive.red, emissive.green, emissive.blue), (250, 250, 250));
            assert_eq!(*emissive_texture, Some(TextureKey::EarthNight));
            assert_eq!(*normal_map_texture, TextureKey::EarthNormal);
            assert_eq!(*occlusion_texture, TextureKey::EarthClouds);
            assert_eq!(*perceptual_roughness_milli, 750);
            assert_eq!(*metallic_roughness_texture, TextureKey::EarthSpecular);
            assert_eq!(*reflectance_milli, 250);
        }
        other => panic!("expected the globe first, got {:?}", other),
    }
    match &plan.entities[1] {
        SceneEntity::CloudLayer { radius_milli, base_color, alpha_to_coverage, double_sided, .. } => {
            assert_eq!(*radius_milli, 1010);
            assert_eq!(base_color.alpha, 800);
            assert!(*alpha_to_coverage);
            assert!(*double_sided);
        }
        other => panic!("expected the cloud layer second, got {:?}", other),
    }
    match &plan.entities[2] {
        SceneEntity::SunLight { illuminance_lux, shadows_enabled, shadow_map_size, position_milli, .. } => {
            assert_eq!(*illuminance_lux, 10000);
            assert!(*shadows_enabled);
            assert_eq!(*shadow_map_size, 131072);
            assert_eq!(
                (position_milli.x, position_milli.y, position_milli.z),
                (-4000, 4000, 4000)
            );
        }
        other => panic!("expected the sun light third, got {:?}", other),
    }
    match &plan.entities[3] {
        SceneEntity::OrbitCamera { controller, eye_milli, up, msaa_samples, skybox, .. } => {
            assert_eq!(*controller, CameraController::Orbit);
            assert_eq!((eye_milli.x, eye_milli.y, eye_milli.z), (-2000, 5000, 5000));
            assert_eq!(*up, Axis::Y);
            assert_eq!(*msaa_samples, 4);
            assert_eq!(*skybox, Some(SkyboxParams { brightness: 1000 }));
        }
        other => panic!("expected the camera last, got {:?}", other),
    }
}

#[test]
fn debug_variant_adds_axes_and_marker() {
    let config = SceneConfig { debug_markers: true, ..standard() };
    let plan = setup(&config);
    assert_eq!(plan.entities.len(), 8);
    let axes: Vec<&SceneEntity> = plan
        .entities
        .iter()
        .filter(|e| matches!(e, SceneEntity::DebugAxis { .. }))
        .collect();
    assert_eq!(axes.len(), 3);
    match &plan.entities[5] {
        SceneEntity::SurfaceMarker { position, height_milli, radius_milli, subdivisions, .. } => {
            assert_eq!(position.lat_microdeg, 60_192_060);
            assert_eq!(position.lon_microdeg, 24_945_831);
            assert_eq!(*height_milli, 2000);
            assert_eq!(*radius_milli, 10);
            assert_eq!(*subdivisions, 10);
        }
        other => panic!("expected the surface marker, got {:?}", other),
    }
}

#[test]
fn clouds_toggle_controls_the_cloud_layer() {
    let config = SceneConfig { draw_clouds: false, ..standard() };
    let plan = setup(&config);
    assert_eq!(plan.entities.len(), 3);
    assert!(!plan
        .entities
        .iter()
        .any(|e| matches!(e, SceneEntity::CloudLayer { .. })));
}

#[test]
fn skybox_toggle_controls_asset_camera_and_tracking() {
    let config = SceneConfig { skybox: false, ..standard() };
    let plan = setup(&config);
    assert!(!plan.assets.contains(&TextureKey::Skybox));
    assert!(!plan.track_cubemap);
    match plan.entities.last().unwrap() {
        SceneEntity::OrbitCamera { skybox, .. } => assert_eq!(*skybox, None),
        other => panic!("expected the camera last, got {:?}", other),
    }
    let with = setup(&standard());
    assert!(with.track_cubemap);
    assert!(with.track_normal_map);
}

#[test]
fn night_base_texture_has_no_emissive_layer() {
    let config = SceneConfig { day_texture: false, ..standard() };
    let plan = setup(&config);
    match &plan.entities[0] {
        SceneEntity::Globe { base_color_texture, emissive, emissive_texture, .. } => {
            assert_eq!(*base_color_texture, TextureKey::EarthNight);
            assert_eq!(*emissive_texture, None);
            assert_eq!((emissive.red, emissive.green, emissive.blue), (0, 0, 0));
        }
        other => panic!("expected the globe first, got {:?}", other),
    }
}

#[test]
fn pan_orbit_controller_is_carried_through() {
    let config = SceneConfig { camera: CameraController::PanOrbit, ..standard() };
    let plan = setup(&config);
    match plan.entities.last().unwrap() {
        SceneEntity::OrbitCamera { controller, .. } => {
            assert_eq!(*controller, CameraController::PanOrbit)
        }
        other => panic!("expected the camera last, got {:?}", other),
    }
}

#[test]
fn texture_paths() {
    assert_eq!(texture_path(TextureKey::EarthDay), "textures/earth_day.jpg");
    assert_eq!(texture_path(TextureKey::EarthNight), "textures/earth_night.jpg");
    assert_eq!(texture_path(TextureKey::EarthSpecular), "textures/earth_specular.png");
    assert_eq!(texture_path(TextureKey::EarthClouds), "textures/earth_clouds.png");
    assert_eq!(texture_path(TextureKey::EarthNormal), "textures/earth_normal.png");
    assert_eq!(texture_path(TextureKey::Skybox), "textures/skybox.png");
}

#[test]
fn initial_orientation_words() {
    assert!(initial_orientation_word(InitialOrientation::Identity).steps.is_empty());
    let half_z = initial_orientation_word(InitialOrientation::HalfTurnZ);
    assert_eq!(half_z.steps.len(), 1);
    assert_eq!(half_z.steps[0].axis, Axis::Z);
    assert_eq!(half_z.steps[0].angle_nanoturns, 500_000_000);
    let x_then_z = initial_orientation_word(InitialOrientation::QuarterTurnXThenZ);
    assert_eq!(x_then_z.steps.len(), 2);
    assert_eq!(x_then_z.steps[0].axis, Axis::X);
    assert_eq!(x_then_z.steps[1].axis, Axis::Z);
    assert_eq!(x_then_z.steps[0].angle_nanoturns, 250_000_000);
}
