//! Graphics surface lifecycle manager, as a platform-agnostic state machine.
//!
//! The manager owns, for one window, the model of the GPU backend handles:
//! backend instance, selected adapter, logical device, command queue,
//! presentation surface and surface configuration.  The handles themselves
//! are platform objects held by the embedding; this model records which of
//! them exist and what the surface is configured to, and every operation
//! states exactly how that record changes.  The embedding performs the
//! matching backend calls and reports their completion back
//! (see [`WindowState::graphics_ready`]), which keeps one logical
//! `initialize_graphics` operation expressible both as a blocking wait
//! (desktop, mobile) and as a spawned continuation (browser) with the same
//! observable end state.

use vstd::prelude::*;

verus! {

/// Reference to the OS-owned window: an opaque identity plus the window's
/// current inner size.  The native window object stays with the embedding.
#[derive(Clone, Copy, PartialEq, Eq, Structural, Debug)]
pub struct WindowHandle {
    /// Identity of the window within the embedding.
    pub id: u64,
    /// Current inner width in physical pixels.
    pub width: u32,
    /// Current inner height in physical pixels.
    pub height: u32,
}

/// Target platform family; resource limit selection is a pure function
/// of this value.
#[derive(Clone, Copy, PartialEq, Eq, Structural, Debug)]
pub enum Platform {
    /// Windows, Linux, BSD or macOS.
    Desktop,
    /// Android or iOS: reduced texture-dimension caps.
    Mobile,
    /// Web browser: compute-shader-related limits disabled.
    Browser,
}

/// The device limits requested when opening the logical device.
#[derive(Clone, Copy, PartialEq, Eq, Structural, Debug)]
pub struct GpuLimits {
    /// Largest allowed width/height of a 2D texture.
    pub max_texture_dimension_2d: u32,
    /// Largest number of color attachments in a render pass.
    pub max_color_attachments: u32,
    /// Largest compute workgroup count per dimension; 0 disables compute.
    pub max_compute_workgroups_per_dimension: u32,
}

/// Configuration the presentation surface was last configured with.
#[derive(Clone, Copy, PartialEq, Eq, Structural, Debug)]
pub struct SurfaceConfig {
    /// Configured width in physical pixels.
    pub width: u32,
    /// Configured height in physical pixels.
    pub height: u32,
}

/// State of one window's presentation stack.
///
/// A `WindowState` cannot exist without its window; the GPU handles are
/// each optional and appear in order: instance first, then adapter, then
/// device and queue together.  The surface needs the instance; its
/// configuration needs the surface.
#[derive(Clone, Copy, PartialEq, Eq, Structural, Debug)]
pub struct WindowState {
    /// Handle to the window which holds the drawable surface.
    pub window: WindowHandle,
    /// Whether the backend instance exists.
    pub has_instance: bool,
    /// Whether an adapter has been selected.
    pub has_adapter: bool,
    /// Whether the logical device is open.
    pub has_device: bool,
    /// Whether the command queue exists (opened together with the device).
    pub has_queue: bool,
    /// Whether the presentation surface exists.
    pub has_surface: bool,
    /// What the surface is configured to, if it has been configured.
    pub surface_config: Option<SurfaceConfig>,
    /// Whether an `initialize_graphics` request has been issued whose
    /// completion has not yet been reported.
    pub init_pending: bool,
}

impl WindowState {
    /// Well-formedness: the handles appear in dependency order, the
    /// configuration needs the surface, and an initialization is pending
    /// only while the device does not exist yet.
    pub open spec fn inv(self) -> bool {
        &&& self.has_adapter ==> self.has_instance
        &&& self.has_device ==> self.has_adapter
        &&& self.has_queue == self.has_device
        &&& self.has_surface ==> self.has_instance
        &&& self.surface_config is Some ==> self.has_surface
        &&& self.init_pending ==> !self.has_device
    }

    /// Whether a frame may be drawn: device, queue and a configured
    /// surface all exist.
    pub open spec fn spec_is_ready(self) -> bool {
        self.has_device && self.has_queue && self.has_adapter && self.has_surface
            && self.surface_config is Some
    }

    /// Whether a frame may be drawn.
    pub fn is_ready(&self) -> (ready: bool)
        ensures
            ready == self.spec_is_ready(),
    {
        self.has_device && self.has_queue && self.has_adapter && self.has_surface
            && self.surface_config.is_some()
    }

    /// Stores the window handle without touching the GPU.  Always succeeds.
    pub fn new(window: WindowHandle) -> (state: WindowState)
        ensures
            state.inv(),
            state.window == window,
            !state.has_instance,
            !state.has_adapter,
            !state.has_device,
            !state.has_queue,
            !state.has_surface,
            state.surface_config is None,
            !state.init_pending,
    {
        WindowState {
            window,
            has_instance: false,
            has_adapter: false,
            has_device: false,
            has_queue: false,
            has_surface: false,
            surface_config: None,
            init_pending: false,
        }
    }

    /// Best limits for the target: generous defaults on desktop, reduced
    /// texture-dimension caps on mobile, and compute disabled in a browser.
    pub fn get_limits(&self, platform: Platform) -> (limits: GpuLimits)
        ensures
            limits == spec_limits_for(platform),
    {
        match platform {
            Platform::Desktop => GpuLimits {
                max_texture_dimension_2d: 8192,
                max_color_attachments: 8,
                max_compute_workgroups_per_dimension: 65535,
            },
            Platform::Mobile => GpuLimits {
                max_texture_dimension_2d: 2048,
                max_color_attachments: 8,
                max_compute_workgroups_per_dimension: 65535,
            },
            Platform::Browser => GpuLimits {
                max_texture_dimension_2d: 2048,
                max_color_attachments: 4,
                max_compute_workgroups_per_dimension: 0,
            },
        }
    }

    /// Begins the one logical graphics-initialization operation: the
    /// embedding is now expected to acquire instance, adapter, device,
    /// queue and surface and report back through [`Self::graphics_ready`].
    /// Until then the manager is not ready.
    pub fn initialize_graphics(&mut self)
        requires
            old(self).inv(),
            !old(self).has_device,
        ensures
            final(self).inv(),
            *final(self) == (WindowState { init_pending: true, ..*old(self) }),
    {
        self.init_pending = true;
    }

    /// Reports that the backend finished initializing: instance, adapter,
    /// device, queue and surface all exist, and the surface is configured
    /// to the given size.  Identical end state whether the acquisition
    /// blocked the caller or ran as a spawned continuation.
    pub fn graphics_ready(&mut self, width: u32, height: u32)
        requires
            old(self).inv(),
        ensures
            final(self).inv(),
            final(self).spec_is_ready(),
            *final(self) == (WindowState {
                window: WindowHandle { width, height, ..old(self).window },
                has_instance: true,
                has_adapter: true,
                has_device: true,
                has_queue: true,
                has_surface: true,
                surface_config: Some(SurfaceConfig { width, height }),
                init_pending: false,
            }),
    {
        self.window = WindowHandle { width, height, ..self.window };
        self.has_instance = true;
        self.has_adapter = true;
        self.has_device = true;
        self.has_queue = true;
        self.has_surface = true;
        self.surface_config = Some(SurfaceConfig { width, height });
        self.init_pending = false;
    }

    /// Rebuilds only the presentation surface against the existing device
    /// and adapter (used after a suspend/resume cycle that destroyed the
    /// native surface but not the logical device).  If device or adapter
    /// do not exist yet this is a no-op that owes the caller a warning,
    /// never a panic.
    pub fn recreate_surface(&mut self) -> (warned: bool)
        requires
            old(self).inv(),
        ensures
            final(self).inv(),
            *final(self) == spec_recreate_surface(*old(self)),
            warned == !(old(self).has_device && old(self).has_adapter),
            warned ==> *final(self) == *old(self),
            !warned ==> *final(self) == (WindowState {
                has_surface: true,
                surface_config: Some(SurfaceConfig {
                    width: old(self).window.width,
                    height: old(self).window.height,
                }),
                ..*old(self)
            }),
    {
        if !self.has_device || !self.has_adapter {
            return true;
        }
        self.has_surface = true;
        self.surface_config = Some(SurfaceConfig {
            width: self.window.width,
            height: self.window.height,
        });
        false
    }

    /// Records the window's new inner size and, when the presentation
    /// stack exists, reconfigures the surface to it.  Safe to call
    /// redundantly; before initialization it only records the size and
    /// owes a warning.
    pub fn resize(&mut self, width: u32, height: u32) -> (applied: bool)
        requires
            old(self).inv(),
        ensures
            final(self).inv(),
            *final(self) == spec_resize(*old(self), width, height),
            final(self).window == (WindowHandle { width, height, ..old(self).window }),
            applied == (old(self).has_device && old(self).has_adapter && old(self).has_surface),
            applied ==> *final(self) == (WindowState {
                window: WindowHandle { width, height, ..old(self).window },
                surface_config: Some(SurfaceConfig { width, height }),
                ..*old(self)
            }),
            !applied ==> *final(self) == (WindowState {
                window: WindowHandle { width, height, ..old(self).window },
                ..*old(self)
            }),
    {
        self.window = WindowHandle { width, height, ..self.window };
        if self.has_device && self.has_adapter && self.has_surface {
            self.surface_config = Some(SurfaceConfig { width, height });
            return true;
        }
        false
    }
}

/// Limit selection is a pure function of the target platform.
pub open spec fn spec_limits_for(platform: Platform) -> GpuLimits {
    match platform {
        Platform::Desktop => GpuLimits {
            max_texture_dimension_2d: 8192,
            max_color_attachments: 8,
            max_compute_workgroups_per_dimension: 65535,
        },
        Platform::Mobile => GpuLimits {
            max_texture_dimension_2d: 2048,
            max_color_attachments: 8,
            max_compute_workgroups_per_dimension: 65535,
        },
        Platform::Browser => GpuLimits {
            max_texture_dimension_2d: 2048,
            max_color_attachments: 4,
            max_compute_workgroups_per_dimension: 0,
        },
    }
}

/// Resizing is idempotent: a second resize to the same dimensions leaves
/// the state where the first put it.
pub proof fn lemma_resize_idempotent(state: WindowState, width: u32, height: u32)
    requires
        state.inv(),
    ensures
        spec_resize(spec_resize(state, width, height), width, height)
            == spec_resize(state, width, height),
{
}

/// Spec-level transition of [`WindowState::recreate_surface`]: a no-op
/// while device or adapter are missing, otherwise a fresh surface
/// configured to the window's current size.
pub open spec fn spec_recreate_surface(state: WindowState) -> WindowState {
    if state.has_device && state.has_adapter {
        WindowState {
            has_surface: true,
            surface_config: Some(SurfaceConfig {
                width: state.window.width,
                height: state.window.height,
            }),
            ..state
        }
    } else {
        state
    }
}

/// Spec-level transition of [`WindowState::resize`].
pub open spec fn spec_resize(state: WindowState, width: u32, height: u32) -> WindowState {
    if state.has_device && state.has_adapter && state.has_surface {
        WindowState {
            window: WindowHandle { width, height, ..state.window },
            surface_config: Some(SurfaceConfig { width, height }),
            ..state
        }
    } else {
        WindowState {
            window: WindowHandle { width, height, ..state.window },
            ..state
        }
    }
}

} // verus!
