//! Scene construction.
//!
//! A viewer variant is a configuration record: clouds on or off, debug
//! markers on or off, day or night base texture, skybox on or off, and the
//! choice of camera-control plugin. One parameterized builder turns a
//! configuration into a scene plan — the full list of image assets to
//! request and entities to spawn, with every mesh, material, light and
//! camera parameter as a plain value. The host engine executes the plan;
//! nothing in it depends on engine state, so the whole construction is
//! verified against the spec-level plan below.
//!
//! Lengths are in thousandths of the world unit (the globe radius is one
//! unit), colors and material factors in thousandths, angles in the
//! nano-turn words of [`crate::rotation`].

use vstd::prelude::*;
use crate::geo::GeodeticPoint;
use crate::rotation::Axis;
use crate::rotation::AxisRotation;
use crate::rotation::Orientation;
use crate::rotation::wf_word;

verus! {

/// Which camera-control plugin drives the orbit camera.
#[derive(Clone, Copy, PartialEq, Eq, Structural, Debug)]
pub enum CameraController {
    /// The look-transform orbit controller.
    Orbit,
    /// The pan-orbit controller.
    PanOrbit,
}

/// The compile-time toggles of the viewer variants, gathered into one
/// runtime record.
#[derive(Clone, Copy, PartialEq, Eq, Structural, Debug)]
pub struct SceneConfig {
    /// Spawn the translucent cloud layer.
    pub draw_clouds: bool,
    /// Spawn the axis capsules and the surface marker.
    pub debug_markers: bool,
    /// Use the daylight texture as the base color (with the night lights
    /// as emissive); otherwise the night texture is the base color.
    pub day_texture: bool,
    /// Request the skybox image and give the camera a skybox.
    pub skybox: bool,
    /// The camera-control plugin to wire in.
    pub camera: CameraController,
}

impl Default for SceneConfig {
    /// The standard variant: clouds and skybox on, debug off, daylight
    /// base, orbit controller.
    fn default() -> (c: Self)
        ensures
            c == (SceneConfig {
                draw_clouds: true,
                debug_markers: false,
                day_texture: true,
                skybox: true,
                camera: CameraController::Orbit,
            }),
    {
        SceneConfig {
            draw_clouds: true,
            debug_markers: false,
            day_texture: true,
            skybox: true,
            camera: CameraController::Orbit,
        }
    }
}

/// The image assets a scene can request.
#[derive(Clone, Copy, PartialEq, Eq, Structural, Debug)]
pub enum TextureKey {
    /// Daylight surface colors.
    EarthDay,
    /// Night-side city lights.
    EarthNight,
    /// Specular/roughness map.
    EarthSpecular,
    /// Cloud cover, also used as the globe's occlusion map.
    EarthClouds,
    /// Surface normal map.
    EarthNormal,
    /// Vertically stacked skybox faces.
    Skybox,
}

/// The asset path each texture is loaded from.
pub open spec fn spec_texture_path(key: TextureKey) -> Seq<char> {
    match key {
        TextureKey::EarthDay => "textures/earth_day.jpg"@,
        TextureKey::EarthNight => "textures/earth_night.jpg"@,
        TextureKey::EarthSpecular => "textures/earth_specular.png"@,
        TextureKey::EarthClouds => "textures/earth_clouds.png"@,
        TextureKey::EarthNormal => "textures/earth_normal.png"@,
        TextureKey::Skybox => "textures/skybox.png"@,
    }
}

/// The asset path each texture is loaded from.
pub fn texture_path(key: TextureKey) -> (path: &'static str)
    ensures
        path@ == spec_texture_path(key),
{
    match key {
        TextureKey::EarthDay => "textures/earth_day.jpg",
        TextureKey::EarthNight => "textures/earth_night.jpg",
        TextureKey::EarthSpecular => "textures/earth_specular.png",
        TextureKey::EarthClouds => "textures/earth_clouds.png",
        TextureKey::EarthNormal => "textures/earth_normal.png",
        TextureKey::Skybox => "textures/skybox.png",
    }
}

/// A color with channels in thousandths (one thousand is full intensity).
#[derive(Clone, Copy, PartialEq, Eq, Structural, Debug)]
pub struct ColorMilli {
    /// Red channel, in thousandths.
    pub red: u32,
    /// Green channel, in thousandths.
    pub green: u32,
    /// Blue channel, in thousandths.
    pub blue: u32,
    /// Alpha channel, in thousandths.
    pub alpha: u32,
}

/// A point or direction, in thousandths of the world unit.
#[derive(Clone, Copy, PartialEq, Eq, Structural, Debug)]
pub struct Vec3Milli {
    /// World x, in thousandths.
    pub x: i64,
    /// World y, in thousandths.
    pub y: i64,
    /// World z, in thousandths.
    pub z: i64,
}

/// The initial orientation a mesh is spawned with, as a short word of
/// quarter and half turns.
#[derive(Clone, Copy, PartialEq, Eq, Structural, Debug)]
pub enum InitialOrientation {
    /// No rotation.
    Identity,
    /// Half a turn about the z axis (the globe's seam faces away).
    HalfTurnZ,
    /// A quarter turn about the x axis.
    QuarterTurnX,
    /// A quarter turn about x, then a quarter turn about z.
    QuarterTurnXThenZ,
}

/// The rotation word of an initial orientation, in nano-turns.
pub open spec fn spec_initial_word(o: InitialOrientation) -> Seq<AxisRotation> {
    match o {
        InitialOrientation::Identity => Seq::empty(),
        InitialOrientation::HalfTurnZ => seq![
            AxisRotation { axis: Axis::Z, angle_nanoturns: 500_000_000 },
        ],
        InitialOrientation::QuarterTurnX => seq![
            AxisRotation { axis: Axis::X, angle_nanoturns: 250_000_000 },
        ],
        InitialOrientation::QuarterTurnXThenZ => seq![
            AxisRotation { axis: Axis::X, angle_nanoturns: 250_000_000 },
            AxisRotation { axis: Axis::Z, angle_nanoturns: 250_000_000 },
        ],
    }
}

/// Builds the reduced rotation word of an initial orientation, ready to be
/// advanced frame by frame.
pub fn initial_orientation_word(o: InitialOrientation) -> (r: Orientation)
    ensures
        r.steps@ == spec_initial_word(o),
        r.wf(),
{
    let mut steps: Vec<AxisRotation> = Vec::new();
    match o {
        InitialOrientation::Identity => {},
        InitialOrientation::HalfTurnZ => {
            steps.push(AxisRotation { axis: Axis::Z, angle_nanoturns: 500_000_000 });
        },
        InitialOrientation::QuarterTurnX => {
            steps.push(AxisRotation { axis: Axis::X, angle_nanoturns: 250_000_000 });
        },
        InitialOrientation::QuarterTurnXThenZ => {
            steps.push(AxisRotation { axis: Axis::X, angle_nanoturns: 250_000_000 });
            steps.push(AxisRotation { axis: Axis::Z, angle_nanoturns: 250_000_000 });
        },
    }
    proof {
        assert(steps@ =~= spec_initial_word(o));
        assert(wf_word(steps@));
    }
    Orientation { steps }
}

/// Skybox parameters of the camera.
#[derive(Clone, Copy, PartialEq, Eq, Structural, Debug)]
pub struct SkyboxParams {
    /// Skybox brightness, in the engine's luminance units.
    pub brightness: u64,
}

/// One entity of the constructed scene, with every spawn parameter as a
/// plain value.
#[derive(Clone, Copy, PartialEq, Eq, Debug)]
pub enum SceneEntity {
    /// A thin colored capsule along one world axis, spawned only in debug
    /// variants to visualize the frame.
    DebugAxis {
        /// How the capsule (built along its local y axis) is turned.
        orientation: InitialOrientation,
        /// Capsule radius, milli-units.
        radius_milli: u64,
        /// Capsule length, milli-units.
        length_milli: u64,
        /// Capsule color.
        color: ColorMilli,
    },
    /// The globe sphere with the earth material.
    Globe {
        /// Spawn orientation.
        orientation: InitialOrientation,
        /// Sphere radius, milli-units.
        radius_milli: u64,
        /// UV-sphere longitude subdivisions.
        mesh_longitudes: u32,
        /// UV-sphere latitude subdivisions.
        mesh_latitudes: u32,
        /// Whether tangents are generated for normal mapping.
        generated_tangents: bool,
        /// Base color texture: daylight or night side.
        base_color_texture: TextureKey,
        /// Uniform emissive color, thousandths per channel.
        emissive: ColorMilli,
        /// Emissive texture (the night lights), when the daylight texture
        /// is the base.
        emissive_texture: Option<TextureKey>,
        /// Surface normal map.
        normal_map_texture: TextureKey,
        /// Occlusion map (the cloud cover shadows the surface).
        occlusion_texture: TextureKey,
        /// Perceptual roughness, thousandths.
        perceptual_roughness_milli: u32,
        /// Metallic/roughness texture.
        metallic_roughness_texture: TextureKey,
        /// Reflectance, thousandths.
        reflectance_milli: u32,
    },
    /// The translucent cloud sphere just above the globe.
    CloudLayer {
        /// Spawn orientation.
        orientation: InitialOrientation,
        /// Sphere radius, milli-units.
        radius_milli: u64,
        /// UV-sphere longitude subdivisions.
        mesh_longitudes: u32,
        /// UV-sphere latitude subdivisions.
        mesh_latitudes: u32,
        /// Whether tangents are generated.
        generated_tangents: bool,
        /// Base color with its translucency.
        base_color: ColorMilli,
        /// Cloud cover texture.
        base_color_texture: TextureKey,
        /// Alpha-to-coverage blending.
        alpha_to_coverage: bool,
        /// Render both faces of the sphere.
        double_sided: bool,
    },
    /// A small sphere pinned to a geodetic position on the globe's
    /// surface, spawned only in debug variants.
    SurfaceMarker {
        /// Where on the globe the marker sits.
        position: GeodeticPoint,
        /// Distance of the marker from the globe's center, milli-units.
        height_milli: u64,
        /// Marker sphere radius, milli-units.
        radius_milli: u64,
        /// Icosphere subdivisions of the marker mesh.
        subdivisions: u32,
        /// Marker color.
        color: ColorMilli,
    },
    /// The directional sun light.
    SunLight {
        /// Illuminance in lux.
        illuminance_lux: u64,
        /// Whether the light casts shadows.
        shadows_enabled: bool,
        /// Shadow map resolution per side.
        shadow_map_size: u32,
        /// Light position, milli-units.
        position_milli: Vec3Milli,
        /// The point the light looks at, milli-units.
        target_milli: Vec3Milli,
        /// The world axis that is "up" for the light's frame.
        up: Axis,
    },
    /// The orbit camera.
    OrbitCamera {
        /// Which camera-control plugin steers it.
        controller: CameraController,
        /// Initial eye position, milli-units.
        eye_milli: Vec3Milli,
        /// Orbit target, milli-units.
        target_milli: Vec3Milli,
        /// The world axis that is "up" for the camera.
        up: Axis,
        /// Multisample anti-aliasing sample count.
        msaa_samples: u32,
        /// Gaussian shadow filtering.
        gaussian_shadow_filter: bool,
        /// The camera's skybox, when the variant has one.
        skybox: Option<SkyboxParams>,
    },
}

/// The fully constructed scene: assets to request, entities to spawn,
/// global render settings, and which deferred fixups to track.
#[derive(Clone, PartialEq, Eq, Debug)]
pub struct ScenePlan {
    /// Image assets to request, in order.
    pub assets: Vec<TextureKey>,
    /// Entities to spawn, in order.
    pub entities: Vec<SceneEntity>,
    /// Window clear color.
    pub clear_color: ColorMilli,
    /// Ambient light color.
    pub ambient_color: ColorMilli,
    /// Ambient light brightness, thousandths.
    pub ambient_brightness_milli: u64,
    /// Track the skybox image for the cube-array fixup.
    pub track_cubemap: bool,
    /// Track the normal map image for the pixel-format fixup.
    pub track_normal_map: bool,
}

/// Pure red at full alpha.
pub open spec fn color_red() -> ColorMilli {
    ColorMilli { red: 1000, green: 0, blue: 0, alpha: 1000 }
}

/// Pure green at full alpha.
pub open spec fn color_green() -> ColorMilli {
    ColorMilli { red: 0, green: 1000, blue: 0, alpha: 1000 }
}

/// Pure blue at full alpha.
pub open spec fn color_blue() -> ColorMilli {
    ColorMilli { red: 0, green: 0, blue: 1000, alpha: 1000 }
}

/// Black at full alpha.
pub open spec fn color_black() -> ColorMilli {
    ColorMilli { red: 0, green: 0, blue: 0, alpha: 1000 }
}

/// A debug axis capsule: capsules extend along their local y axis, so the
/// three world axes are covered by the identity and the two quarter-turn
/// orientations.
pub open spec fn debug_axis_entity(orientation: InitialOrientation, color: ColorMilli) -> SceneEntity {
    SceneEntity::DebugAxis { orientation, radius_milli: 5, length_milli: 5000, color }
}

/// The globe entity of a configuration: night lights glow as emissive only
/// over the daylight base texture.
pub open spec fn globe_entity(config: SceneConfig) -> SceneEntity {
    SceneEntity::Globe {
        orientation: InitialOrientation::HalfTurnZ,
        radius_milli: 1000,
        mesh_longitudes: 512,
        mesh_latitudes: 512,
        generated_tangents: true,
        base_color_texture: if config.day_texture {
            TextureKey::EarthDay
        } else {
            TextureKey::EarthNight
        },
        emissive: if config.day_texture {
            ColorMilli { red: 250, green: 250, blue: 250, alpha: 1000 }
        } else {
            color_black()
        },
        emissive_texture: if config.day_texture {
            Some(TextureKey::EarthNight)
        } else {
            None
        },
        normal_map_texture: TextureKey::EarthNormal,
        occlusion_texture: TextureKey::EarthClouds,
        perceptual_roughness_milli: 750,
        metallic_roughness_texture: TextureKey::EarthSpecular,
        reflectance_milli: 250,
    }
}

/// The cloud layer entity.
pub open spec fn cloud_entity() -> SceneEntity {
    SceneEntity::CloudLayer {
        orientation: InitialOrientation::HalfTurnZ,
        radius_milli: 1010,
        mesh_longitudes: 512,
        mesh_latitudes: 512,
        generated_tangents: true,
        base_color: ColorMilli { red: 1000, green: 1000, blue: 1000, alpha: 800 },
        base_color_texture: TextureKey::EarthClouds,
        alpha_to_coverage: true,
        double_sided: true,
    }
}

/// The debug surface marker, pinned over Helsinki at twice the globe
/// radius.
pub open spec fn marker_entity() -> SceneEntity {
    SceneEntity::SurfaceMarker {
        position: GeodeticPoint { lat_microdeg: 60_192_060, lon_microdeg: 24_945_831 },
        height_milli: 2000,
        radius_milli: 10,
        subdivisions: 10,
        color: color_red(),
    }
}

/// The sun light entity.
pub open spec fn light_entity() -> SceneEntity {
    SceneEntity::SunLight {
        illuminance_lux: 10000,
        shadows_enabled: true,
        shadow_map_size: 131072,
        position_milli: Vec3Milli { x: -4000i64, y: 4000, z: 4000 },
        target_milli: Vec3Milli { x: 0, y: 0, z: 0 },
        up: Axis::Y,
    }
}

/// The camera entity of a configuration.
pub open spec fn camera_entity(config: SceneConfig) -> SceneEntity {
    SceneEntity::OrbitCamera {
        controller: config.camera,
        eye_milli: Vec3Milli { x: -2000i64, y: 5000, z: 5000 },
        target_milli: Vec3Milli { x: 0, y: 0, z: 0 },
        up: Axis::Y,
        msaa_samples: 4,
        gaussian_shadow_filter: true,
        skybox: if config.skybox {
            Some(SkyboxParams { brightness: 1000 })
        } else {
            None
        },
    }
}

/// The assets a configuration requests: the five earth textures always,
/// the skybox image only when the variant has a skybox.
pub open spec fn planned_assets(config: SceneConfig) -> Seq<TextureKey> {
    let base = seq![
        TextureKey::EarthDay,
        TextureKey::EarthNight,
        TextureKey::EarthSpecular,
        TextureKey::EarthClouds,
        TextureKey::EarthNormal,
    ];
    if config.skybox {
        base.push(TextureKey::Skybox)
    } else {
        base
    }
}

/// The entities a configuration spawns, in spawn order: the debug axes,
/// the globe, the cloud layer, the surface marker, the sun light, the
/// camera — each present exactly when its toggle asks for it.
pub open spec fn planned_entities(config: SceneConfig) -> Seq<SceneEntity> {
    (if config.debug_markers {
        seq![
            debug_axis_entity(InitialOrientation::Identity, color_red()),
            debug_axis_entity(InitialOrientation::QuarterTurnX, color_green()),
            debug_axis_entity(InitialOrientation::QuarterTurnXThenZ, color_blue()),
        ]
    } else {
        Seq::empty()
    }) + seq![globe_entity(config)] + (if config.draw_clouds {
        seq![cloud_entity()]
    } else {
        Seq::empty()
    }) + (if config.debug_markers {
        seq![marker_entity()]
    } else {
        Seq::empty()
    }) + seq![light_entity(), camera_entity(config)]
}

/// Builds the scene plan of a configuration.
pub fn setup(config: &SceneConfig) -> (plan: ScenePlan)
    ensures
        plan.assets@ == planned_assets(*config),
        plan.entities@ == planned_entities(*config),
        plan.clear_color == color_black(),
        plan.ambient_color == color_black(),
        plan.ambient_brightness_milli == 100,
        plan.track_cubemap == config.skybox,
        plan.track_normal_map,
{
    let mut assets: Vec<TextureKey> = Vec::new();
    assets.push(TextureKey::EarthDay);
    assets.push(TextureKey::EarthNight);
    assets.push(TextureKey::EarthSpecular);
    assets.push(TextureKey::EarthClouds);
    assets.push(TextureKey::EarthNormal);
    if config.skybox {
        assets.push(TextureKey::Skybox);
    }
    proof {
        assert(assets@ =~= planned_assets(*config));
    }

    let mut entities: Vec<SceneEntity> = Vec::new();
    if config.debug_markers {
        entities.push(
            SceneEntity::DebugAxis {
                orientation: InitialOrientation::Identity,
                radius_milli: 5,
                length_milli: 5000,
                color: ColorMilli { red: 1000, green: 0, blue: 0, alpha: 1000 },
            },
        );
        entities.push(
            SceneEntity::DebugAxis {
                orientation: InitialOrientation::QuarterTurnX,
                radius_milli: 5,
                length_milli: 5000,
                color: ColorMilli { red: 0, green: 1000, blue: 0, alpha: 1000 },
            },
        );
        entities.push(
            SceneEntity::DebugAxis {
                orientation: InitialOrientation::QuarterTurnXThenZ,
                radius_milli: 5,
                length_milli: 5000,
                color: ColorMilli { red: 0, green: 0, blue: 1000, alpha: 1000 },
            },
        );
    }
    entities.push(
        SceneEntity::Globe {
            orientation: InitialOrientation::HalfTurnZ,
            radius_milli: 1000,
            mesh_longitudes: 512,
            mesh_latitudes: 512,
            generated_tangents: true,
            base_color_texture: if config.day_texture {
                TextureKey::EarthDay
            } else {
                TextureKey::EarthNight
            },
            emissive: if config.day_texture {
                ColorMilli { red: 250, green: 250, blue: 250, alpha: 1000 }
            } else {
                ColorMilli { red: 0, green: 0, blue: 0, alpha: 1000 }
            },
            emissive_texture: if config.day_texture {
                Some(TextureKey::EarthNight)
            } else {
                None
            },
            normal_map_texture: TextureKey::EarthNormal,
            occlusion_texture: TextureKey::EarthClouds,
            perceptual_roughness_milli: 750,
            metallic_roughness_texture: TextureKey::EarthSpecular,
            reflectance_milli: 250,
        },
    );
    if config.draw_clouds {
        entities.push(
            SceneEntity::CloudLayer {
                orientation: InitialOrientation::HalfTurnZ,
                radius_milli: 1010,
                mesh_longitudes: 512,
                mesh_latitudes: 512,
                generated_tangents: true,
                base_color: ColorMilli { red: 1000, green: 1000, blue: 1000, alpha: 800 },
                base_color_texture: TextureKey::EarthClouds,
                alpha_to_coverage: true,
                double_sided: true,
            },
        );
    }
    if config.debug_markers {
        entities.push(
            SceneEntity::SurfaceMarker {
                position: GeodeticPoint { lat_microdeg: 60_192_060, lon_microdeg: 24_945_831 },
                height_milli: 2000,
                radius_milli: 10,
                subdivisions: 10,
                color: ColorMilli { red: 1000, green: 0, blue: 0, alpha: 1000 },
            },
        );
    }
    entities.push(
        SceneEntity::SunLight {
            illuminance_lux: 10000,
            shadows_enabled: true,
            shadow_map_size: 131072,
            position_milli: Vec3Milli { x: -4000, y: 4000, z: 4000 },
            target_milli: Vec3Milli { x: 0, y: 0, z: 0 },
            up: Axis::Y,
        },
    );
    entities.push(
        SceneEntity::OrbitCamera {
            controller: config.camera,
            eye_milli: Vec3Milli { x: -2000, y: 5000, z: 5000 },
            target_milli: Vec3Milli { x: 0, y: 0, z: 0 },
            up: Axis::Y,
            msaa_samples: 4,
            gaussian_shadow_filter: true,
            skybox: if config.skybox {
                Some(SkyboxParams { brightness: 1000 })
            } else {
                None
            },
        },
    );
    proof {
        assert(entities@ =~= planned_entities(*config));
    }

    ScenePlan {
        assets,
        entities,
        clear_color: ColorMilli { red: 0, green: 0, blue: 0, alpha: 1000 },
        ambient_color: ColorMilli { red: 0, green: 0, blue: 0, alpha: 1000 },
        ambient_brightness_milli: 100,
        track_cubemap: config.skybox,
        track_normal_map: true,
    }
}

/// Law: the plan of a configuration contains the surface marker exactly
/// when the configuration asks for debug markers.
pub proof fn lemma_debug_marker_iff(config: SceneConfig)
    ensures
        (exists|i: int|
            0 <= i < planned_entities(config).len() && #[trigger] planned_entities(config)[i]
                is SurfaceMarker) <==> config.debug_markers,
{
    let s = planned_entities(config);
    if config.debug_markers {
        let i: int = if config.draw_clouds {
            5
        } else {
            4
        };
        assert(s[i] == marker_entity());
        assert(s[i] is SurfaceMarker);
    } else {
        assert forall|i: int| 0 <= i < s.len() implies !(#[trigger] s[i] is SurfaceMarker) by {
            if config.draw_clouds {
                assert(s.len() == 4);
                assert(s[0] == globe_entity(config));
                assert(s[1] == cloud_entity());
                assert(s[2] == light_entity());
                assert(s[3] == camera_entity(config));
            } else {
                assert(s.len() == 3);
                assert(s[0] == globe_entity(config));
                assert(s[1] == light_entity());
                assert(s[2] == camera_entity(config));
            }
        }
    }
}

/// Law: the plan of a configuration contains the cloud layer exactly when
/// the configuration asks for clouds.
pub proof fn lemma_cloud_layer_iff(config: SceneConfig)
    ensures
        (exists|i: int|
            0 <= i < planned_entities(config).len() && #[trigger] planned_entities(config)[i]
                is CloudLayer) <==> config.draw_clouds,
{
    let s = planned_entities(config);
    if config.draw_clouds {
        let i: int = if config.debug_markers {
            4
        } else {
            1
        };
        assert(s[i] == cloud_entity());
        assert(s[i] is CloudLayer);
    } else {
        assert forall|i: int| 0 <= i < s.len() implies !(#[trigger] s[i] is CloudLayer) by {
            if config.debug_markers {
                assert(s.len() == 7);
                assert(s[0] == debug_axis_entity(InitialOrientation::Identity, color_red()));
                assert(s[1] == debug_axis_entity(InitialOrientation::QuarterTurnX, color_green()));
                assert(s[2] == debug_axis_entity(
                    InitialOrientation::QuarterTurnXThenZ,
                    color_blue(),
                ));
                assert(s[3] == globe_entity(config));
                assert(s[4] == marker_entity());
                assert(s[5] == light_entity());
                assert(s[6] == camera_entity(config));
            } else {
                assert(s.len() == 3);
                assert(s[0] == globe_entity(config));
                assert(s[1] == light_entity());
                assert(s[2] == camera_entity(config));
            }
        }
    }
}

} // verus!
