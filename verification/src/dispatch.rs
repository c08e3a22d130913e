//! The raytrace dispatcher's resource model and the per-frame recording
//! protocol.
//!
//! The dispatcher owns two same-size color textures: a write-only front
//! target the compute stage fills, and a sampled cache the presenter
//! reads. The graphics API forbids binding one resource as a storage
//! write target and a filtered sample source at once, so the frame must
//! publish the front target into the cache with an explicit copy before
//! the presenter may read anything. [`TargetPair`] models the pair —
//! dimensions for real, contents as ghost slots — and [`FramePass`] is a
//! token that forces the three recorded operations into their one legal
//! order: dispatch, publish, present.

use vstd::prelude::*;

use crate::camera::Camera;

verus! {

/// The dispatcher's two color textures. `width` and `height` are the real
/// texture dimensions; `front` and `cache` are ghost slots holding the
/// accumulation frame index each texture was last written for, so the
/// single-writer/single-reader handoff between the compute stage and the
/// presenter can be stated: after a publish, the cache holds exactly the
/// most recently completed dispatch.
pub struct TargetPair {
    pub width: u32,
    pub height: u32,
    /// Frame index the front target was last dispatched for.
    pub front: Ghost<Option<u32>>,
    /// Frame index the cache holds: the most recently published dispatch.
    pub cache: Ghost<Option<u32>>,
}

impl TargetPair {
    /// Fresh textures: sized to the viewport, nothing rendered yet.
    pub fn new(width: u32, height: u32) -> (t: TargetPair)
        ensures
            t.width == width,
            t.height == height,
            t.front@ is None,
            t.cache@ is None,
    {
        TargetPair { width, height, front: Ghost(None), cache: Ghost(None) }
    }

    /// Record that both textures were recreated at a new viewport size.
    /// This must happen before the next dispatch after a window resize:
    /// dispatching into stale-size textures is the documented invalid
    /// state. Recreated textures hold nothing.
    pub fn resize(&mut self, width: u32, height: u32)
        ensures
            final(self).width == width,
            final(self).height == height,
            final(self).front@ is None,
            final(self).cache@ is None,
    {
        self.width = width;
        self.height = height;
        self.front = Ghost(None);
        self.cache = Ghost(None);
    }

    /// Whether the textures match the viewport the camera renders at.
    pub fn matches_viewport(&self, camera: &Camera) -> (r: bool)
        ensures
            r == (self.width == camera.width && self.height == camera.height),
    {
        self.width == camera.width && self.height == camera.height
    }

    /// The compute grid that covers the full viewport, one workgroup per
    /// pixel.
    pub fn dispatch_grid(&self) -> (g: (u32, u32, u32))
        ensures
            g.0 == self.width,
            g.1 == self.height,
            g.2 == 1,
    {
        (self.width, self.height, 1)
    }
}

/// How far one frame's command recording has come.
#[derive(Clone, Copy, PartialEq, Eq, Structural, Debug)]
pub enum PassStage {
    Started,
    Computed,
    Published,
    Presented,
}

/// A token that walks one frame's command recording through its required
/// order: the compute dispatch writes the front target, the publish copy
/// moves it into the cache, and only then may the present pass sample the
/// cache. The embedder records the matching GPU command beside each call;
/// all three land in a single submission, whose queue-internal ordering
/// makes the recorded order the executed order.
pub struct FramePass {
    pub stage: PassStage,
    /// The accumulation frame index this pass renders.
    pub frame: u32,
}

impl FramePass {
    /// Start recording the frame the camera is currently accumulating.
    pub fn begin(camera: &Camera) -> (p: FramePass)
        ensures
            p.stage == PassStage::Started,
            p.frame == camera.current_frame,
    {
        FramePass { stage: PassStage::Started, frame: camera.current_frame }
    }

    /// Record the compute dispatch: the front target now holds this
    /// frame's result; the cache is untouched.
    pub fn record_compute(&mut self, targets: &mut TargetPair)
        requires
            old(self).stage == PassStage::Started,
        ensures
            final(self).stage == PassStage::Computed,
            final(self).frame == old(self).frame,
            final(targets).front@ == Some(old(self).frame),
            final(targets).cache@ == old(targets).cache@,
            final(targets).width == old(targets).width,
            final(targets).height == old(targets).height,
    {
        self.stage = PassStage::Computed;
        targets.front = Ghost(Some(self.frame));
    }

    /// Record the publish copy from the front target into the cache: the
    /// cache now holds the most recently completed dispatch.
    pub fn record_publish(&mut self, targets: &mut TargetPair)
        requires
            old(self).stage == PassStage::Computed,
            old(targets).front@ == Some(old(self).frame),
        ensures
            final(self).stage == PassStage::Published,
            final(self).frame == old(self).frame,
            final(targets).cache@ == Some(old(self).frame),
            final(targets).front@ == old(targets).front@,
            final(targets).width == old(targets).width,
            final(targets).height == old(targets).height,
    {
        self.stage = PassStage::Published;
        targets.cache = Ghost(Some(self.frame));
    }

    /// Record the present pass. It samples only the cache — never the
    /// front target — and the cache must hold a published frame.
    pub fn record_present(&mut self, targets: &TargetPair)
        requires
            old(self).stage == PassStage::Published,
            targets.cache@ is Some,
        ensures
            final(self).stage == PassStage::Presented,
            final(self).frame == old(self).frame,
    {
        self.stage = PassStage::Presented;
    }
}

} // verus!
