//! Choices made while the presentation surface is set up and kept alive.
//!
//! The application asks the device what the surface supports and what went
//! wrong with it; what to make of the answers is decided here.

use vstd::prelude::*;
use crate::gpu::{TextureFormat, TextureUsages};

verus! {

/// Frames that may be queued for presentation.
pub const FRAME_LATENCY: u32 = 3;

/// How presentation is paced.
#[derive(Clone, Copy, Debug, PartialEq, Eq)]
pub enum PresentMode {
    AutoVsync,
    AutoNoVsync,
    Fifo,
    FifoRelaxed,
    Immediate,
    Mailbox,
}

/// How the surface is configured. `format_index` is the position of `format`
/// in the list of formats the surface offered.
#[derive(Clone, Copy, Debug, PartialEq, Eq)]
pub struct SurfaceConfiguration {
    pub usage: TextureUsages,
    pub format: TextureFormat,
    pub format_index: usize,
    pub width: u32,
    pub height: u32,
    pub present_mode: PresentMode,
    pub desired_maximum_frame_latency: u32,
}

/// Whether `index` is the first position in `formats` with a format the
/// display pass can present into.
pub open spec fn first_presentable(formats: Seq<TextureFormat>, index: int) -> bool {
    &&& 0 <= index < formats.len()
    &&& formats[index].presentable()
    &&& forall|j: int| 0 <= j < index ==> !(#[trigger] formats[j]).presentable()
}

/// Whether `formats` holds no format the display pass can present into.
pub open spec fn none_presentable(formats: Seq<TextureFormat>) -> bool {
    forall|j: int| 0 <= j < formats.len() ==> !(#[trigger] formats[j]).presentable()
}

/// The configuration for a surface of the given size whose chosen format is
/// at `index` of `formats`: a render attachment, paced by vertical sync.
pub open spec fn configuration_for(
    formats: Seq<TextureFormat>,
    index: int,
    width: u32,
    height: u32,
) -> SurfaceConfiguration {
    SurfaceConfiguration {
        usage: TextureUsages {
            copy_src: false,
            copy_dst: false,
            texture_binding: false,
            storage_binding: false,
            render_attachment: true,
        },
        format: formats[index],
        format_index: index as usize,
        width,
        height,
        present_mode: PresentMode::AutoVsync,
        desired_maximum_frame_latency: FRAME_LATENCY,
    }
}

/// Picks the surface format: the first of `formats`, in the order the
/// surface offers them, that the display pass can present into.
pub fn choose_surface_format(formats: &Vec<TextureFormat>) -> (choice: Option<usize>)
    ensures
        match choice {
            Some(index) => first_presentable(formats@, index as int),
            None => none_presentable(formats@),
        },
{
    let mut i: usize = 0;
    while i < formats.len()
        invariant
            i <= formats.len(),
            forall|j: int| 0 <= j < i ==> !(#[trigger] formats@[j]).presentable(),
        decreases formats.len() - i,
    {
        match formats[i] {
            TextureFormat::Rgba8Unorm | TextureFormat::Bgra8Unorm => {
                return Some(i);
            },
            _ => {},
        }
        i += 1;
    }
    None
}

/// Configures a surface of `width` by `height` that offers `formats`.
/// There is no configuration exactly when none of the formats can be
/// presented into.
pub fn configure_surface(formats: &Vec<TextureFormat>, width: u32, height: u32) -> (configuration:
    Option<SurfaceConfiguration>)
    ensures
        match configuration {
            Some(c) => first_presentable(formats@, c.format_index as int) && c == configuration_for(
                formats@,
                c.format_index as int,
                width,
                height,
            ),
            None => none_presentable(formats@),
        },
{
    match choose_surface_format(formats) {
        Some(index) => Some(
            SurfaceConfiguration {
                usage: TextureUsages {
                    copy_src: false,
                    copy_dst: false,
                    texture_binding: false,
                    storage_binding: false,
                    render_attachment: true,
                },
                format: formats[index],
                format_index: index,
                width,
                height,
                present_mode: PresentMode::AutoVsync,
                desired_maximum_frame_latency: FRAME_LATENCY,
            },
        ),
        None => None,
    }
}

impl SurfaceConfiguration {
    /// Takes over a new size, unless one of its sides is zero: a surface
    /// cannot be configured empty, so such a size is ignored. Returns whether
    /// the surface has to be configured again.
    pub fn resize(&mut self, width: u32, height: u32) -> (changed: bool)
        ensures
            changed == (width > 0 && height > 0),
            changed ==> *final(self) == (SurfaceConfiguration { width, height, ..*old(self) }),
            !changed ==> *final(self) == *old(self),
    {
        if width > 0 && height > 0 {
            self.width = width;
            self.height = height;
            true
        } else {
            false
        }
    }
}

/// Why the surface gave no texture to draw into.
#[derive(Clone, Copy, Debug, PartialEq, Eq)]
pub enum SurfaceError {
    Timeout,
    Outdated,
    Lost,
    OutOfMemory,
}

/// What to do after the surface gave no texture.
#[derive(Clone, Copy, Debug, PartialEq, Eq)]
pub enum Recovery {
    /// Configure the surface again for the window's current size.
    Reconfigure,
    /// Leave the event loop.
    Exit,
    /// Report the error and try again with the next frame.
    Report,
}

/// A surface that is lost or outdated is configured again; without memory
/// the viewer gives up; anything else passes.
pub open spec fn recovery_for(error: SurfaceError) -> Recovery {
    match error {
        SurfaceError::Lost | SurfaceError::Outdated => Recovery::Reconfigure,
        SurfaceError::OutOfMemory => Recovery::Exit,
        SurfaceError::Timeout => Recovery::Report,
    }
}

/// Decides how to go on after the surface gave no texture.
pub fn recover(error: SurfaceError) -> (recovery: Recovery)
    ensures
        recovery == recovery_for(error),
{
    match error {
        SurfaceError::Lost | SurfaceError::Outdated => Recovery::Reconfigure,
        SurfaceError::OutOfMemory => Recovery::Exit,
        SurfaceError::Timeout => Recovery::Report,
    }
}

} // verus!
