//! The GPU side of one drawable: negotiated surface configuration and the
//! binding that ties the shared adapter, device and queue to the one
//! presentable surface a session owns.
//!
//! The adapter, device, queue and surface themselves live in the unverified
//! shell; here they appear as the numeric handles the shell assigned. What is
//! verified is the configuration policy: which format is picked, what a
//! configuration holds, and that a released surface is never configured
//! again.

use vstd::prelude::*;

verus! {

/// When a submitted frame is shown. The core always asks for `Fifo`:
/// vsync-locked, never tearing.
#[derive(Clone, Copy, PartialEq, Eq, Structural, Debug)]
pub enum PresentMode {
    Fifo,
    Mailbox,
    Immediate,
}

/// A negotiated surface configuration. The usage is always render-attachment;
/// the format is one of those the surface reported as supported.
#[derive(Clone, Copy, PartialEq, Eq, Structural, Debug)]
pub struct SurfaceConfig {
    pub format: u64,
    pub width: u32,
    pub height: u32,
    pub present_mode: PresentMode,
}

/// The format the core picks from what a surface reports it supports: the
/// first one reported, if any.
pub fn choose_format(formats: &Vec<u64>) -> (r: Option<u64>)
    ensures
        r is Some <==> formats@.len() > 0,
        formats@.len() > 0 ==> r == Some(formats@[0]),
{
    if formats.len() == 0 {
        None
    } else {
        Some(formats[0])
    }
}

/// The configuration the core asks for at a given size: first reported
/// format, vsync-locked presentation. `None` exactly when the surface
/// reported no format at all.
pub fn plan_surface_config(formats: &Vec<u64>, width: u32, height: u32) -> (r: Option<
    SurfaceConfig,
>)
    ensures
        r is Some <==> formats@.len() > 0,
        formats@.len() > 0 ==> r == Some(
            (SurfaceConfig { format: formats@[0], width, height, present_mode: PresentMode::Fifo }),
        ),
{
    match choose_format(formats) {
        Some(format) => Some(
            SurfaceConfig { format, width, height, present_mode: PresentMode::Fifo },
        ),
        None => None,
    }
}

/// The GPU objects backing one session: handles of the process-wide adapter,
/// device and queue, the format fixed for the surface at creation, whether
/// the presentable surface still exists, and the configuration it holds now.
#[derive(Clone, Copy, PartialEq, Eq, Structural, Debug)]
pub struct GpuSurfaceBinding {
    pub adapter: u64,
    pub device: u64,
    pub queue: u64,
    pub format: u64,
    pub surface_alive: bool,
    pub config: Option<SurfaceConfig>,
}

/// The configuration a binding holds after being applied at a size.
pub open spec fn config_at(b: GpuSurfaceBinding, width: u32, height: u32) -> SurfaceConfig {
    SurfaceConfig { format: b.format, width, height, present_mode: PresentMode::Fifo }
}

/// A binding never carries a configuration of another format or of a
/// presentation mode the core does not ask for.
pub open spec fn binding_wf(b: GpuSurfaceBinding) -> bool {
    b.config matches Some(c) ==> c.format == b.format && c.present_mode is Fifo
}

impl GpuSurfaceBinding {
    /// A fresh binding over the shared context: surface alive, nothing
    /// negotiated yet.
    pub fn new(adapter: u64, device: u64, queue: u64, format: u64) -> (b: GpuSurfaceBinding)
        ensures
            b == (GpuSurfaceBinding {
                adapter,
                device,
                queue,
                format,
                surface_alive: true,
                config: None,
            }),
            binding_wf(b),
    {
        GpuSurfaceBinding { adapter, device, queue, format, surface_alive: true, config: None }
    }

    /// Record that the surface was configured at this size. Only a live
    /// surface can be configured.
    pub fn apply_size(&mut self, width: u32, height: u32)
        requires
            old(self).surface_alive,
        ensures
            *final(self) == (GpuSurfaceBinding {
                config: Some(config_at(*old(self), width, height)),
                ..*old(self)
            }),
            binding_wf(*final(self)),
    {
        self.config = Some(
            SurfaceConfig {
                format: self.format,
                width,
                height,
                present_mode: PresentMode::Fifo,
            },
        );
    }

    /// Record that the presentable surface was released. Safe to repeat; the
    /// last negotiated configuration is kept as history.
    pub fn release(&mut self)
        ensures
            *final(self) == (GpuSurfaceBinding { surface_alive: false, ..*old(self) }),
    {
        self.surface_alive = false;
    }

    /// Whether a configuration has been applied and is still current.
    pub fn is_configured(&self) -> (r: bool)
        ensures
            r == (self.config is Some),
    {
        match self.config {
            Some(..) => true,
            None => false,
        }
    }
}

} // verus!
