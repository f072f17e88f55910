//! Deferred texture fixup.
//!
//! Two image resources are requested at startup and finish loading at some
//! later frame: a vertically stacked skybox image that must be reinterpreted
//! as a six-layer cube array, and a normal map whose pixel format must be
//! forced to an RGBA layout. Both fixups must run exactly once, and only
//! after the asset system reports the image fully loaded.
//!
//! The poll itself is pure decision logic: given the tracked handle state and
//! what the asset system reports this frame, it advances the handle state and
//! returns the engine-side work to perform. The caller owns the engine and
//! carries the returned actions out.

use vstd::prelude::*;

verus! {

/// What the asset system reports for a pending image when it is polled.
///
/// A failed load is representable so that silent degradation (the fixup
/// never firing) is a provable outcome rather than an accident.
#[derive(Clone, Copy, PartialEq, Eq, Debug)]
pub enum LoadReport {
    /// The image has been requested and is still being decoded.
    Loading,
    /// The image is fully loaded and its metadata can be read.
    Ready,
    /// The load failed; the image will never become ready.
    Failed,
}

/// Metadata of a decoded image, as the engine exposes it.
#[derive(Clone, Copy, PartialEq, Eq, Debug)]
pub struct ImageInfo {
    /// Width in pixels.
    pub width: u32,
    /// Height in pixels.
    pub height: u32,
    /// How many array layers the texture currently has; a freshly decoded
    /// 2D image has exactly one.
    pub array_layers: u32,
}

/// The skybox cubemap resource: an image handle plus the one-shot flag that
/// records whether the post-load fixup has been applied.
#[derive(Clone, PartialEq, Eq, Debug)]
pub struct Cubemap {
    /// True once the post-load fixup has run; never reset.
    pub is_loaded: bool,
    /// Identifier of the image resource inside the asset system.
    pub image_handle: u64,
}

/// The globe's normal map resource, with the same one-shot fixup flag.
#[derive(Clone, PartialEq, Eq, Debug)]
pub struct NormalMap {
    /// True once the post-load fixup has run; never reset.
    pub is_loaded: bool,
    /// Identifier of the image resource inside the asset system.
    pub image_handle: u64,
}

/// Engine-side work that one cubemap poll asks for.
#[derive(Clone, Copy, PartialEq, Eq, Debug)]
pub struct CubemapAction {
    /// When present: reinterpret the stacked 2D image as an array texture
    /// with this many layers.
    pub reinterpret_layers: Option<u32>,
    /// Give the texture view the cube dimension.
    pub set_cube_view: bool,
    /// Point the scene's skybox components at the finished image.
    pub reassign_skybox: bool,
}

/// How many square faces the image stacks vertically.
pub open spec fn stacked_layer_count(image: ImageInfo) -> int {
    image.height as int / image.width as int
}

/// A decoded image is reinterpreted only when it still has a single array
/// layer and its height stacks more than one face. A square image is already
/// in its final single-layer shape and is left alone; an image that already
/// has several layers was reinterpreted before and must not be touched again.
pub open spec fn needs_reinterpret(image: ImageInfo) -> bool {
    image.array_layers == 1 && stacked_layer_count(image) >= 2
}

/// The poll that asks for no engine work at all.
pub open spec fn no_cubemap_action() -> CubemapAction {
    CubemapAction { reinterpret_layers: None, set_cube_view: false, reassign_skybox: false }
}

/// The cubemap fixup fires exactly when it has not fired before and the
/// asset system reports the image ready.
pub open spec fn cubemap_fires(c: Cubemap, report: LoadReport) -> bool {
    !c.is_loaded && report is Ready
}

/// One poll of the cubemap: the next handle state and the engine work owed.
pub open spec fn cubemap_step(c: Cubemap, report: LoadReport, image: ImageInfo) -> (Cubemap,
    CubemapAction) {
    if !cubemap_fires(c, report) {
        (c, no_cubemap_action())
    } else {
        (
            Cubemap { is_loaded: true, image_handle: c.image_handle },
            CubemapAction {
                reinterpret_layers: if needs_reinterpret(image) {
                    Some(stacked_layer_count(image) as u32)
                } else {
                    None
                },
                set_cube_view: needs_reinterpret(image),
                reassign_skybox: true,
            },
        )
    }
}

/// One poll of the normal map: the next handle state, and whether the
/// RGBA pixel-format fixup is owed this frame.
pub open spec fn normal_map_step(n: NormalMap, report: LoadReport) -> (NormalMap, bool) {
    if n.is_loaded || !(report is Ready) {
        (n, false)
    } else {
        (NormalMap { is_loaded: true, image_handle: n.image_handle }, true)
    }
}

/// Polls the cubemap resource once.
///
/// A zero-width image is wrongly shaped for the stacked-face computation;
/// it is excluded for the one poll that would read it.
pub fn cubemap_poll(cubemap: &mut Cubemap, report: LoadReport, image: ImageInfo) -> (action:
    CubemapAction)
    requires
        cubemap_fires(*old(cubemap), report) ==> image.width > 0,
    ensures
        (*final(cubemap), action) == cubemap_step(*old(cubemap), report, image),
{
    if cubemap.is_loaded {
        return CubemapAction { reinterpret_layers: None, set_cube_view: false, reassign_skybox: false };
    }
    match report {
        LoadReport::Ready => {
            let faces: u32 = image.height / image.width;
            let reinterpret = image.array_layers == 1 && faces >= 2;
            cubemap.is_loaded = true;
            CubemapAction {
                reinterpret_layers: if reinterpret {
                    Some(faces)
                } else {
                    None
                },
                set_cube_view: reinterpret,
                reassign_skybox: true,
            }
        },
        _ => CubemapAction { reinterpret_layers: None, set_cube_view: false, reassign_skybox: false },
    }
}

/// Polls the normal map resource once. Returns whether the engine owes the
/// RGBA pixel-format rewrite this frame.
pub fn normal_map_poll(normalmap: &mut NormalMap, report: LoadReport) -> (apply_rgba_format: bool)
    ensures
        (*final(normalmap), apply_rgba_format) == normal_map_step(*old(normalmap), report),
{
    if !normalmap.is_loaded {
        match report {
            LoadReport::Ready => {
                normalmap.is_loaded = true;
                true
            },
            _ => false,
        }
    } else {
        false
    }
}

/// Engine-side work owed after one frame's poll of both deferred resources.
#[derive(Clone, Copy, PartialEq, Eq, Debug)]
pub struct FrameFixupActions {
    /// Work owed on the skybox cubemap.
    pub cubemap: CubemapAction,
    /// Whether the normal map's pixel format must be rewritten to RGBA.
    pub normal_map_rgba: bool,
}

/// One frame of the per-frame fixup system: polls both deferred resources.
pub fn asset_loaded(
    cubemap: &mut Cubemap,
    normalmap: &mut NormalMap,
    cubemap_report: LoadReport,
    cubemap_image: ImageInfo,
    normal_report: LoadReport,
) -> (actions: FrameFixupActions)
    requires
        cubemap_fires(*old(cubemap), cubemap_report) ==> cubemap_image.width > 0,
    ensures
        (*final(cubemap), actions.cubemap) == cubemap_step(
            *old(cubemap),
            cubemap_report,
            cubemap_image,
        ),
        (*final(normalmap), actions.normal_map_rgba) == normal_map_step(
            *old(normalmap),
            normal_report,
        ),
{
    let cubemap_action = cubemap_poll(cubemap, cubemap_report, cubemap_image);
    let normal_map_rgba = normal_map_poll(normalmap, normal_report);
    FrameFixupActions { cubemap: cubemap_action, normal_map_rgba }
}

/// The cubemap state after a whole run of polls.
pub open spec fn cubemap_after_polls(c: Cubemap, polls: Seq<(LoadReport, ImageInfo)>) -> Cubemap
    decreases polls.len(),
{
    if polls.len() == 0 {
        c
    } else {
        cubemap_after_polls(cubemap_step(c, polls[0].0, polls[0].1).0, polls.drop_first())
    }
}

/// How many polls of a run fire the fixup.
pub open spec fn cubemap_fixup_count(c: Cubemap, polls: Seq<(LoadReport, ImageInfo)>) -> int
    decreases polls.len(),
{
    if polls.len() == 0 {
        0int
    } else {
        (if cubemap_fires(c, polls[0].0) {
            1int
        } else {
            0int
        }) + cubemap_fixup_count(cubemap_step(c, polls[0].0, polls[0].1).0, polls.drop_first())
    }
}

/// Law: a poll whose report is not `Ready` mutates nothing and asks for no
/// engine work.
pub proof fn lemma_poll_before_ready_is_noop(c: Cubemap, report: LoadReport, image: ImageInfo)
    requires
        !(report is Ready),
    ensures
        cubemap_step(c, report, image) == (c, no_cubemap_action()),
{
}

/// Law: once the fixup flag is set, no run of polls, of any length and with
/// any reports, changes the cubemap state again.
pub proof fn lemma_fixed_cubemap_stays_fixed(c: Cubemap, polls: Seq<(LoadReport, ImageInfo)>)
    requires
        c.is_loaded,
    ensures
        cubemap_after_polls(c, polls) == c,
    decreases polls.len(),
{
    if polls.len() > 0 {
        lemma_fixed_cubemap_stays_fixed(cubemap_step(c, polls[0].0, polls[0].1).0,
            polls.drop_first());
    }
}

/// Law: the normal map's format fixup never fires twice: a poll that fires
/// leaves a state whose every later poll is a no-op.
pub proof fn lemma_normal_map_fixes_once(n: NormalMap, r1: LoadReport, r2: LoadReport)
    ensures
        normal_map_step(n, r1).1 ==> !normal_map_step(normal_map_step(n, r1).0, r2).1,
        normal_map_step(n, r1).1 ==> normal_map_step(normal_map_step(n, r1).0, r2).0
            == normal_map_step(n, r1).0,
{
}

/// Law: starting from a handle whose fixup has not run, a run of polls fires
/// the fixup exactly once when some poll reports the image ready, and never
/// otherwise; starting from a fixed-up handle it never fires again.
pub proof fn lemma_fixup_exactly_once(c: Cubemap, polls: Seq<(LoadReport, ImageInfo)>)
    ensures
        c.is_loaded ==> cubemap_fixup_count(c, polls) == 0,
        !c.is_loaded ==> cubemap_fixup_count(c, polls) == (if (exists|i: int|
            0 <= i < polls.len() && #[trigger] polls[i].0 is Ready) {
            1int
        } else {
            0int
        }),
    decreases polls.len(),
{
    if polls.len() > 0 {
        let next = cubemap_step(c, polls[0].0, polls[0].1).0;
        lemma_fixup_exactly_once(next, polls.drop_first());
        if c.is_loaded {
            assert(cubemap_fixup_count(c, polls) == 0);
        } else if polls[0].0 is Ready {
            assert(next.is_loaded);
            assert(cubemap_fixup_count(c, polls) == 1);
            assert(polls[0].0 is Ready);
        } else {
            assert(next == c);
            if exists|i: int| 0 <= i < polls.len() && #[trigger] polls[i].0 is Ready {
                let i = choose|i: int| 0 <= i < polls.len() && #[trigger] polls[i].0 is Ready;
                assert(i != 0);
                assert(polls.drop_first()[i - 1].0 is Ready);
                assert(exists|j: int|
                    0 <= j < polls.drop_first().len() && #[trigger] polls.drop_first()[j].0
                        is Ready);
            } else {
                assert(forall|j: int|
                    0 <= j < polls.drop_first().len() ==> !(#[trigger] polls.drop_first()[j].0
                        is Ready)) by {
                    assert(forall|j: int|
                        0 <= j < polls.drop_first().len() ==> polls.drop_first()[j]
                            == #[trigger] polls[j + 1]);
                }
            }
        }
    }
}

} // verus!
