//! The choices made when a GPU device and a presentable surface are set up,
//! and the surface settings kept in step with the host's size.
use vstd::prelude::*;
use crate::host::{step, HostEvent, HostState, Reaction};

verus! {

/// The device limits asked for, above the common defaults; every other limit
/// stays at the downlevel defaults of the graphics API.
#[derive(Debug, Clone, Copy, PartialEq, Eq, Structural)]
pub struct DeviceLimits {
    pub max_uniform_buffer_binding_size: u32,
    pub max_storage_buffer_binding_size: u32,
    pub max_texture_array_layers: u32,
}

impl DeviceLimits {
    /// 64 KiB uniform bindings, 256 MiB storage bindings and 768 texture
    /// array layers.
    pub fn required() -> (r: DeviceLimits)
        ensures
            r == (DeviceLimits {
                max_uniform_buffer_binding_size: 65536,
                max_storage_buffer_binding_size: 268435456,
                max_texture_array_layers: 768,
            }),
    {
        assert(128u32 << 21u32 == 268435456u32) by (bit_vector);
        DeviceLimits {
            max_uniform_buffer_binding_size: 65536,
            max_storage_buffer_binding_size: 128 << 21u32,
            max_texture_array_layers: 256 * 3,
        }
    }
}

#[derive(Debug, Clone, Copy, PartialEq, Eq, Structural)]
pub enum PresentMode {
    /// Wait for vertical sync; frames queue up first in, first out.
    Fifo,
    Immediate,
    Mailbox,
}

/// How the surface is configured: texture format `F` and alpha mode `A` as
/// the surface reported them, the size in pixels, the present mode and the
/// number of frames that may be queued. The surface is always a render
/// attachment.
#[derive(Debug)]
pub struct SurfaceSettings<F, A> {
    pub format: F,
    pub alpha_mode: A,
    pub width: u32,
    pub height: u32,
    pub present_mode: PresentMode,
    pub max_frame_latency: u32,
}

/// The settings for a surface that supports `formats` and `alpha_modes`, in
/// the order the surface reported them: the first of each, vsynced, at most
/// two frames queued.
pub fn initial_settings<F: Copy, A: Copy>(formats: &Vec<F>, alpha_modes: &Vec<A>, width: u32, height: u32) -> (r: Option<SurfaceSettings<F, A>>)
    ensures
        r is Some <==> formats@.len() > 0 && alpha_modes@.len() > 0,
        r matches Some(s) ==> s == (SurfaceSettings {
            format: formats@[0],
            alpha_mode: alpha_modes@[0],
            width,
            height,
            present_mode: PresentMode::Fifo,
            max_frame_latency: 2,
        }),
{
    if formats.len() == 0 || alpha_modes.len() == 0 {
        return None;
    }
    Some(SurfaceSettings {
        format: formats[0],
        alpha_mode: alpha_modes[0],
        width,
        height,
        present_mode: PresentMode::Fifo,
        max_frame_latency: 2,
    })
}

/// The host state together with the settings of the surface drawn on: the
/// settings always carry the host's size.
pub struct RenderTarget<F, A> {
    pub host: HostState,
    pub surface: SurfaceSettings<F, A>,
}

impl<F: Copy, A: Copy> RenderTarget<F, A> {
    pub open spec fn wf(&self) -> bool {
        &&& self.host.wf()
        &&& self.surface.width == self.host.width
        &&& self.surface.height == self.host.height
    }

    /// A fresh host state of the size in `surface`.
    pub fn new(surface: SurfaceSettings<F, A>) -> (r: RenderTarget<F, A>)
        requires
            surface.width > 0,
            surface.height > 0,
        ensures
            r.wf(),
            r.surface == surface,
            r.host@.keys == Set::<winit::keyboard::PhysicalKey>::empty(),
            r.host.cursor.dragging_from is None,
    {
        RenderTarget { host: HostState::new(surface.width, surface.height), surface }
    }

    /// Takes a new size; on `true` the surface must be configured anew with
    /// `self.surface` before the next frame, and the renderer told.
    pub fn resize(&mut self, width: i64, height: i64) -> (accepted: bool)
        requires
            old(self).wf(),
            width <= u32::MAX,
            height <= u32::MAX,
        ensures
            final(self).wf(),
            accepted == (width > 0 && height > 0),
            accepted ==> final(self).surface == (SurfaceSettings { width: width as u32, height: height as u32, ..old(self).surface }),
            !accepted ==> final(self).surface == old(self).surface,
            final(self).host@ == crate::host::resized(old(self).host@, width as int, height as int),
    {
        let accepted = self.host.resize(width, height);
        if accepted {
            self.surface.width = self.host.width;
            self.surface.height = self.host.height;
        }
        accepted
    }

    /// Takes in one window event, keeping the surface settings at the host's
    /// size; on `Reaction::Resized` the surface must be configured anew with
    /// `self.surface` before the renderer is told.
    pub fn handle(&mut self, event: &HostEvent) -> (r: Reaction)
        requires
            old(self).wf(),
        ensures
            final(self).wf(),
            (final(self).host@, r) == step(old(self).host@, *event),
            final(self).surface == (SurfaceSettings {
                width: final(self).host.width,
                height: final(self).host.height,
                ..old(self).surface
            }),
    {
        let r = self.host.handle(event);
        self.surface.width = self.host.width;
        self.surface.height = self.host.height;
        r
    }
}

} // verus!
