//! The Vello backend's renderer life cycle: whether the renderer is ready or
//! loading, what a background load should build, and the performance
//! overlay. Creating the renderer and drawing are left to the caller.

use vstd::prelude::*;

verus! {

/// Memory tier of the device, which bounds the renderer's start-up threads.
#[derive(Debug, Clone, Copy, PartialEq, Eq, Structural)]
pub enum DeviceMemoryTier {
    LowEnd,
    MidRange,
    HighEnd,
}

/// Anti-aliasing support to build the renderer with.
#[derive(Debug, Clone, Copy, PartialEq, Eq, Structural)]
pub enum AaSupportChoice {
    /// Area anti-aliasing only: fastest start.
    AreaOnly,
    /// Every anti-aliasing mode.
    All,
}

/// What a background renderer load builds.
#[derive(Debug, Clone, Copy, PartialEq, Eq, Structural)]
pub struct RendererLoadPlan {
    /// Anti-aliasing support to build.
    pub aa_support: AaSupportChoice,
    /// The cache does not hold the full pipeline set.
    pub needs_full_load: bool,
    /// There is no cache at all.
    pub is_first_launch: bool,
}

/// The plan for a cache holding `cache_stage`: no cache is a first launch
/// with area-only AA; a stage 1 cache upgrades to full AA; a stage 2 cache
/// is a full cache hit with full AA.
pub open spec fn plan_for_cache(cache_stage: Option<u8>) -> RendererLoadPlan {
    let needs_full_load = cache_stage != Some(2u8);
    let is_first_launch = cache_stage is None;
    RendererLoadPlan {
        aa_support: if needs_full_load && is_first_launch {
            AaSupportChoice::AreaOnly
        } else {
            AaSupportChoice::All
        },
        needs_full_load,
        is_first_launch,
    }
}

/// Start-up threads for the renderer: 2 on low-end devices, 4 on mid-range
/// ones, the available parallelism on high-end ones; none when that is 0 or
/// unknown.
pub open spec fn thread_count_for(tier: DeviceMemoryTier, available: Option<usize>) -> Option<usize> {
    match tier {
        DeviceMemoryTier::LowEnd => Some(2),
        DeviceMemoryTier::MidRange => Some(4),
        DeviceMemoryTier::HighEnd => match available {
            Some(n) => if n == 0 { None } else { Some(n) },
            None => None,
        },
    }
}

/// Number of renderer start-up threads for a device.
pub fn init_thread_count(tier: DeviceMemoryTier, available: Option<usize>) -> (r: Option<usize>)
    ensures
        r == thread_count_for(tier, available),
{
    match tier {
        DeviceMemoryTier::LowEnd => Some(2),
        DeviceMemoryTier::MidRange => Some(4),
        DeviceMemoryTier::HighEnd => match available {
            Some(n) => if n == 0 { None } else { Some(n) },
            None => None,
        },
    }
}

/// What follows once a background load has created the renderer.
#[derive(Debug, Clone, Copy, PartialEq, Eq, Structural)]
pub struct RendererFollowUp {
    /// Write the pipeline cache as a stage 1 cache.
    pub save_stage1_cache: bool,
    /// Build a second renderer with every anti-aliasing mode in the
    /// background.
    pub upgrade_to_full_aa: bool,
}

/// The follow-up for `plan` on a device of `tier`: the stage 1 cache is saved
/// only when the cache lacked the full pipeline set, and a first launch
/// upgrades to full anti-aliasing unless the device is low-end.
pub open spec fn follow_up_for(plan: RendererLoadPlan, tier: DeviceMemoryTier) -> RendererFollowUp {
    RendererFollowUp {
        save_stage1_cache: plan.needs_full_load,
        upgrade_to_full_aa: plan.is_first_launch && tier != DeviceMemoryTier::LowEnd,
    }
}

/// Decides what to do after the renderer of `plan` was created.
pub fn after_renderer_created(plan: &RendererLoadPlan, tier: DeviceMemoryTier) -> (r: RendererFollowUp)
    ensures
        r == follow_up_for(*plan, tier),
{
    let low_end = match tier {
        DeviceMemoryTier::LowEnd => true,
        _ => false,
    };
    RendererFollowUp {
        save_stage1_cache: plan.needs_full_load,
        upgrade_to_full_aa: plan.is_first_launch && !low_end,
    }
}

/// A cache holding the full pipeline set is neither saved again nor
/// followed by an upgrade; a first launch saves a stage 1 cache and, unless
/// the device is low-end, upgrades to full anti-aliasing; a stage 1 cache is
/// saved again and not upgraded, since it loads with full anti-aliasing.
pub proof fn lemma_follow_up_by_cache(tier: DeviceMemoryTier)
    ensures
        follow_up_for(plan_for_cache(Some(2u8)), tier) == (RendererFollowUp {
            save_stage1_cache: false,
            upgrade_to_full_aa: false,
        }),
        follow_up_for(plan_for_cache(None), tier) == (RendererFollowUp {
            save_stage1_cache: true,
            upgrade_to_full_aa: tier != DeviceMemoryTier::LowEnd,
        }),
        follow_up_for(plan_for_cache(Some(1u8)), tier) == (RendererFollowUp {
            save_stage1_cache: true,
            upgrade_to_full_aa: false,
        }),
        plan_for_cache(Some(1u8)).aa_support == AaSupportChoice::All,
{
}

/// What a frame does once it starts.
#[derive(Debug, Clone, Copy, PartialEq, Eq, Structural)]
pub enum FrameStart {
    /// The renderer is still loading: clear the surface and keep the frame
    /// rate while the shaders compile.
    ClearSurface,
    /// The viewport is empty: nothing is drawn and nothing is submitted.
    Skip,
    /// Draw the frame.
    Render,
}

/// The start of a frame with a `width` x `height` viewport: a renderer that
/// is not ready clears the surface, whatever the viewport; an empty viewport
/// draws nothing; otherwise the frame is drawn.
pub open spec fn frame_start_for(renderer_ready: bool, width: u32, height: u32) -> FrameStart {
    if !renderer_ready {
        FrameStart::ClearSurface
    } else if width == 0 || height == 0 {
        FrameStart::Skip
    } else {
        FrameStart::Render
    }
}

/// Decides how a frame starts.
pub fn frame_start(renderer_ready: bool, width: u32, height: u32) -> (r: FrameStart)
    ensures
        r == frame_start_for(renderer_ready, width, height),
{
    if !renderer_ready {
        FrameStart::ClearSurface
    } else if width == 0 || height == 0 {
        FrameStart::Skip
    } else {
        FrameStart::Render
    }
}

/// Renderer state and overlay of the Vello backend.
pub struct VelloBackend {
    renderer_ready: bool,
    renderer_loading: bool,
    perf_overlay_visible: bool,
    deferred_init: Option<Option<u8>>,
}

impl VelloBackend {
    /// A renderer has been created.
    pub closed spec fn spec_ready(&self) -> bool {
        self.renderer_ready
    }

    /// A background load is running.
    pub closed spec fn spec_loading(&self) -> bool {
        self.renderer_loading
    }

    /// The performance overlay is shown.
    pub closed spec fn spec_overlay(&self) -> bool {
        self.perf_overlay_visible
    }

    /// Start-up information waiting for the first load: the stage the
    /// pipeline cache holds, if any.
    pub closed spec fn spec_deferred(&self) -> Option<Option<u8>> {
        self.deferred_init
    }

    /// A backend with no renderer, no load running, the overlay hidden and
    /// no start-up information.
    pub fn new() -> (r: Self)
        ensures
            !r.spec_ready(),
            !r.spec_loading(),
            !r.spec_overlay(),
            r.spec_deferred() is None,
    {
        VelloBackend {
            renderer_ready: false,
            renderer_loading: false,
            perf_overlay_visible: false,
            deferred_init: None,
        }
    }

    /// Whether the renderer is ready for rendering.
    pub fn is_renderer_ready(&self) -> (r: bool)
        ensures
            r == self.spec_ready(),
    {
        self.renderer_ready
    }

    /// Whether a background load is running.
    pub fn is_renderer_loading(&self) -> (r: bool)
        ensures
            r == self.spec_loading(),
    {
        self.renderer_loading
    }

    /// Shows the performance overlay.
    pub fn enable_perf_overlay(&mut self)
        ensures
            final(self).spec_overlay(),
            final(self).spec_ready() == old(self).spec_ready(),
            final(self).spec_loading() == old(self).spec_loading(),
            final(self).spec_deferred() == old(self).spec_deferred(),
    {
        if !self.perf_overlay_visible {
            self.perf_overlay_visible = true;
        }
    }

    /// Hides the performance overlay.
    pub fn disable_perf_overlay(&mut self)
        ensures
            !final(self).spec_overlay(),
            final(self).spec_ready() == old(self).spec_ready(),
            final(self).spec_loading() == old(self).spec_loading(),
            final(self).spec_deferred() == old(self).spec_deferred(),
    {
        if self.perf_overlay_visible {
            self.perf_overlay_visible = false;
        }
    }

    /// Whether the performance overlay is shown.
    pub fn is_perf_overlay_visible(&self) -> (r: bool)
        ensures
            r == self.spec_overlay(),
    {
        self.perf_overlay_visible
    }

    /// Keeps the start-up information for the first load: the stage that
    /// the pipeline cache holds, if any.
    pub fn store_deferred_init_info(&mut self, cache_stage: Option<u8>)
        ensures
            final(self).spec_deferred() == Some(cache_stage),
            final(self).spec_ready() == old(self).spec_ready(),
            final(self).spec_loading() == old(self).spec_loading(),
            final(self).spec_overlay() == old(self).spec_overlay(),
    {
        self.deferred_init = Some(cache_stage);
    }

    /// Decides whether to start a background renderer load now. Nothing
    /// starts when the renderer is ready, a load is running, or there is no
    /// start-up information; otherwise the information is taken, the backend
    /// counts as loading, and the plan for the cache is returned.
    pub fn begin_renderer_load(&mut self) -> (r: Option<RendererLoadPlan>)
        ensures
            old(self).spec_ready() || old(self).spec_loading() || old(self).spec_deferred() is None
                ==> r is None && *final(self) == *old(self),
            !(old(self).spec_ready() || old(self).spec_loading() || old(self).spec_deferred() is None)
                ==> {
                &&& r == Some(plan_for_cache(old(self).spec_deferred().unwrap()))
                &&& final(self).spec_loading()
                &&& final(self).spec_deferred() is None
                &&& final(self).spec_ready() == old(self).spec_ready()
                &&& final(self).spec_overlay() == old(self).spec_overlay()
            },
    {
        if self.renderer_ready {
            return None;
        }
        if self.renderer_loading {
            return None;
        }
        let info = match self.deferred_init {
            Some(i) => i,
            None => return None,
        };
        self.deferred_init = None;
        let cache_stage = info;
        let needs_full_load = match cache_stage {
            Some(s) => s != 2,
            None => true,
        };
        let is_first_launch = cache_stage.is_none();
        self.renderer_loading = true;
        let aa_support = if needs_full_load && is_first_launch {
            AaSupportChoice::AreaOnly
        } else {
            AaSupportChoice::All
        };
        Some(RendererLoadPlan { aa_support, needs_full_load, is_first_launch })
    }

    /// Records the end of a background load: the backend stops loading, and
    /// the renderer is ready when it was created.
    pub fn finish_renderer_load(&mut self, created: bool)
        ensures
            !final(self).spec_loading(),
            final(self).spec_ready() == (old(self).spec_ready() || created),
            final(self).spec_overlay() == old(self).spec_overlay(),
            final(self).spec_deferred() == old(self).spec_deferred(),
    {
        if created {
            self.renderer_ready = true;
        }
        self.renderer_loading = false;
    }
}

/// A full cache skips the full load and builds every AA mode; no cache is a
/// first launch with area-only AA; a first launch always needs the full load.
pub proof fn lemma_cache_plans(stage: Option<u8>)
    ensures
        plan_for_cache(stage).is_first_launch ==> plan_for_cache(stage).needs_full_load,
        plan_for_cache(stage).aa_support == AaSupportChoice::AreaOnly <==> stage is None,
        plan_for_cache(Some(2u8)) == (RendererLoadPlan {
            aa_support: AaSupportChoice::All,
            needs_full_load: false,
            is_first_launch: false,
        }),
        plan_for_cache(None) == (RendererLoadPlan {
            aa_support: AaSupportChoice::AreaOnly,
            needs_full_load: true,
            is_first_launch: true,
        }),
{
}

/// Drawing-only backend for Vello: the Vello backend and the directory for
/// its data.
pub struct VelloDrawingBackend {
    vello_backend: VelloBackend,
    data_dir: String,
}

impl VelloDrawingBackend {
    /// The backend inside.
    pub closed spec fn spec_backend(&self) -> VelloBackend {
        self.vello_backend
    }

    /// The data directory.
    pub closed spec fn spec_data_dir(&self) -> Seq<char> {
        self.data_dir@
    }

    /// A drawing backend with a new Vello backend and no data directory.
    pub fn new() -> (r: Self)
        ensures
            !r.spec_backend().spec_ready(),
            !r.spec_backend().spec_loading(),
            !r.spec_backend().spec_overlay(),
            r.spec_backend().spec_deferred() is None,
            r.spec_data_dir() == Seq::<char>::empty(),
    {
        VelloDrawingBackend { vello_backend: VelloBackend::new(), data_dir: String::new() }
    }

    /// A drawing backend with a new Vello backend and `data_dir`.
    pub fn with_data_dir(data_dir: String) -> (r: Self)
        ensures
            !r.spec_backend().spec_ready(),
            !r.spec_backend().spec_loading(),
            !r.spec_backend().spec_overlay(),
            r.spec_backend().spec_deferred() is None,
            r.spec_data_dir() == data_dir@,
    {
        VelloDrawingBackend { vello_backend: VelloBackend::new(), data_dir }
    }

    /// The Vello backend inside.
    pub fn vello_backend(&self) -> (r: &VelloBackend)
        ensures
            *r == self.spec_backend(),
    {
        &self.vello_backend
    }

    /// The Vello backend inside, for updates.
    pub fn vello_backend_mut(&mut self) -> (r: &mut VelloBackend)
        ensures
            *r == old(self).spec_backend(),
            final(self).spec_backend() == *final(r),
            final(self).spec_data_dir() == old(self).spec_data_dir(),
    {
        &mut self.vello_backend
    }

    /// The data directory, as given to the backend at initialization.
    pub fn data_dir(&self) -> (r: &str)
        ensures
            r@ == self.spec_data_dir(),
    {
        self.data_dir.as_str()
    }
}

/// Factory for direct Vello backends.
pub struct VelloBackendFactory;

impl VelloBackendFactory {
    pub fn new() -> Self {
        VelloBackendFactory
    }

    /// A new Vello backend: no renderer, no load, no overlay.
    pub fn create(&self) -> (r: VelloBackend)
        ensures
            !r.spec_ready(),
            !r.spec_loading(),
            !r.spec_overlay(),
            r.spec_deferred() is None,
    {
        VelloBackend::new()
    }

    /// The backend's name.
    pub fn name(&self) -> (r: &'static str)
        ensures
            r@ == "vello"@,
    {
        "vello"
    }
}

impl Default for VelloBackendFactory {
    fn default() -> Self {
        VelloBackendFactory::new()
    }
}

/// What a graphics backend offers its host.
#[derive(Debug, Clone, Copy, PartialEq, Eq, Structural)]
pub struct BackendCapabilities {
    /// A performance overlay can be shown.
    pub perf_overlay: bool,
    /// GPU timings are measured.
    pub gpu_timing: bool,
    /// The renderer is warmed up before its first frame.
    pub renderer_warmup: bool,
    /// Surfaces are created on the main thread.
    pub main_thread_surface_creation: bool,
    /// Frames are drawn on the main thread.
    pub main_thread_rendering: bool,
    /// Frames are presented by an explicit call.
    pub explicit_present: bool,
}

/// Factory for Vello and wgpu runtime and backend pairs.
pub struct VelloGraphicsFactory;

impl VelloGraphicsFactory {
    pub fn new() -> Self {
        VelloGraphicsFactory
    }

    /// The backend's name.
    pub fn backend_name(&self) -> (r: &'static str)
        ensures
            r@ == "vello"@,
    {
        "vello"
    }

    /// What the Vello backend offers: everything but drawing on the main
    /// thread.
    pub fn capabilities(&self) -> (r: BackendCapabilities)
        ensures
            r == (BackendCapabilities {
                perf_overlay: true,
                gpu_timing: true,
                renderer_warmup: true,
                main_thread_surface_creation: true,
                main_thread_rendering: false,
                explicit_present: true,
            }),
    {
        BackendCapabilities {
            perf_overlay: true,
            gpu_timing: true,
            renderer_warmup: true,
            main_thread_surface_creation: true,
            main_thread_rendering: false,
            explicit_present: true,
        }
    }

    /// A new drawing backend with no data directory.
    pub fn create_backend(&self) -> (r: VelloDrawingBackend)
        ensures
            !r.spec_backend().spec_ready(),
            !r.spec_backend().spec_loading(),
            !r.spec_backend().spec_overlay(),
            r.spec_backend().spec_deferred() is None,
            r.spec_data_dir() == Seq::<char>::empty(),
    {
        VelloDrawingBackend::new()
    }
}

impl Default for VelloGraphicsFactory {
    fn default() -> Self {
        VelloGraphicsFactory::new()
    }
}

} // verus!
