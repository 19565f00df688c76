//! Capture stream configuration.
//!
//! A configuration is a plain record of capture parameters with no identity
//! beyond its field values. Setters only store; nothing is checked until a
//! session is created, where an invalid configuration is rejected whole.

use vstd::prelude::*;

verus! {

use crate::geometry::Point;
use crate::geometry::Rect;
use crate::geometry::Size;
use crate::format::SCStreamPixelFormat;
use crate::time::CMTime;

/// The audio sample rates a capture stream supports.
#[derive(Copy, Clone, Debug, PartialEq, Eq, Structural)]
pub enum SCStreamSampleRate {
    R8000,
    R16000,
    R24000,
    R48000,
}

impl SCStreamSampleRate {
    pub open spec fn spec_to_isize(&self) -> isize {
        match self {
            Self::R8000 => 8000,
            Self::R16000 => 16000,
            Self::R24000 => 24000,
            Self::R48000 => 48000,
        }
    }

    #[verifier::when_used_as_spec(spec_to_isize)]
    pub fn to_isize(&self) -> (r: isize)
        ensures
            r == self.spec_to_isize(),
    {
        match self {
            Self::R8000 => 8000,
            Self::R16000 => 16000,
            Self::R24000 => 24000,
            Self::R48000 => 48000,
        }
    }
}

/// The color matrix applied to captured frames.
#[derive(Copy, Clone, Debug, PartialEq, Eq, Structural)]
pub enum SCStreamColorMatrix {
    ItuR709_2,
    ItuR601_4,
    Smpte240M1995,
}

/// The color behind transparent regions of captured frames.
#[derive(Copy, Clone, Debug, PartialEq, Eq, Structural)]
pub enum SCStreamBackgroundColor {
    Black,
    White,
    Clear,
}

/// The capture parameters of a stream: output geometry, pixel format and
/// colors, frame pacing, and audio settings.
#[derive(Clone, Debug)]
pub struct SCStreamConfiguration {
    pub size: Size,
    pub source_rect: Rect,
    pub scales_to_fit: bool,
    pub pixel_format: SCStreamPixelFormat,
    pub color_matrix: SCStreamColorMatrix,
    pub background_color: SCStreamBackgroundColor,
    pub queue_depth: isize,
    pub minimum_time_interval: CMTime,
    pub sample_rate: SCStreamSampleRate,
    pub show_cursor: bool,
    pub capture_audio: bool,
    pub channel_count: isize,
    pub exclude_current_process_audio: bool,
}

impl SCStreamConfiguration {
    pub open spec fn spec_default() -> SCStreamConfiguration {
        SCStreamConfiguration {
            size: Size { width: 0, height: 0 },
            source_rect: Rect { origin: Point { x: 0, y: 0 }, size: Size { width: 0, height: 0 } },
            scales_to_fit: false,
            pixel_format: SCStreamPixelFormat::BGRA8888,
            color_matrix: SCStreamColorMatrix::ItuR709_2,
            background_color: SCStreamBackgroundColor::Black,
            queue_depth: 3,
            minimum_time_interval: CMTime::spec_invalid(),
            sample_rate: SCStreamSampleRate::R48000,
            show_cursor: true,
            capture_audio: false,
            channel_count: 2,
            exclude_current_process_audio: false,
        }
    }

    /// A configuration a session will accept: no negative geometry, a
    /// non-negative queue depth, and at least one audio channel.
    pub open spec fn spec_is_valid(&self) -> bool {
        &&& self.size.width >= 0
        &&& self.size.height >= 0
        &&& self.source_rect.size.width >= 0
        &&& self.source_rect.size.height >= 0
        &&& self.queue_depth >= 0
        &&& self.channel_count >= 1
    }

    #[verifier::when_used_as_spec(spec_is_valid)]
    pub fn is_valid(&self) -> (r: bool)
        ensures
            r == self.spec_is_valid(),
    {
        self.size.width >= 0 && self.size.height >= 0 && self.source_rect.size.width >= 0
            && self.source_rect.size.height >= 0 && self.queue_depth >= 0 && self.channel_count
            >= 1
    }

    pub fn new() -> (r: SCStreamConfiguration)
        ensures
            r == Self::spec_default(),
            r.spec_is_valid(),
    {
        SCStreamConfiguration {
            size: Size { width: 0, height: 0 },
            source_rect: Rect { origin: Point { x: 0, y: 0 }, size: Size { width: 0, height: 0 } },
            scales_to_fit: false,
            pixel_format: SCStreamPixelFormat::BGRA8888,
            color_matrix: SCStreamColorMatrix::ItuR709_2,
            background_color: SCStreamBackgroundColor::Black,
            queue_depth: 3,
            minimum_time_interval: CMTime::invalid(),
            sample_rate: SCStreamSampleRate::R48000,
            show_cursor: true,
            capture_audio: false,
            channel_count: 2,
            exclude_current_process_audio: false,
        }
    }

    pub fn set_size(&mut self, size: Size)
        ensures
            *final(self) == (SCStreamConfiguration { size, ..*old(self) }),
    {
        self.size = size;
    }

    pub fn set_source_rect(&mut self, source_rect: Rect)
        ensures
            *final(self) == (SCStreamConfiguration { source_rect, ..*old(self) }),
    {
        self.source_rect = source_rect;
    }

    pub fn set_scales_to_fit(&mut self, scales_to_fit: bool)
        ensures
            *final(self) == (SCStreamConfiguration { scales_to_fit, ..*old(self) }),
    {
        self.scales_to_fit = scales_to_fit;
    }

    pub fn set_pixel_format(&mut self, pixel_format: SCStreamPixelFormat)
        ensures
            *final(self) == (SCStreamConfiguration { pixel_format, ..*old(self) }),
    {
        self.pixel_format = pixel_format;
    }

    pub fn set_color_matrix(&mut self, color_matrix: SCStreamColorMatrix)
        ensures
            *final(self) == (SCStreamConfiguration { color_matrix, ..*old(self) }),
    {
        self.color_matrix = color_matrix;
    }

    pub fn set_background_color(&mut self, background_color: SCStreamBackgroundColor)
        ensures
            *final(self) == (SCStreamConfiguration { background_color, ..*old(self) }),
    {
        self.background_color = background_color;
    }

    pub fn set_queue_depth(&mut self, queue_depth: isize)
        ensures
            *final(self) == (SCStreamConfiguration { queue_depth, ..*old(self) }),
    {
        self.queue_depth = queue_depth;
    }

    pub fn set_minimum_time_interval(&mut self, minimum_time_interval: CMTime)
        ensures
            *final(self) == (SCStreamConfiguration { minimum_time_interval, ..*old(self) }),
    {
        self.minimum_time_interval = minimum_time_interval;
    }

    pub fn set_sample_rate(&mut self, sample_rate: SCStreamSampleRate)
        ensures
            *final(self) == (SCStreamConfiguration { sample_rate, ..*old(self) }),
    {
        self.sample_rate = sample_rate;
    }

    pub fn set_show_cursor(&mut self, show_cursor: bool)
        ensures
            *final(self) == (SCStreamConfiguration { show_cursor, ..*old(self) }),
    {
        self.show_cursor = show_cursor;
    }

    pub fn set_capture_audio(&mut self, capture_audio: bool)
        ensures
            *final(self) == (SCStreamConfiguration { capture_audio, ..*old(self) }),
    {
        self.capture_audio = capture_audio;
    }

    pub fn set_channel_count(&mut self, channel_count: isize)
        ensures
            *final(self) == (SCStreamConfiguration { channel_count, ..*old(self) }),
    {
        self.channel_count = channel_count;
    }

    pub fn set_exclude_current_process_audio(&mut self, exclude_current_process_audio: bool)
        ensures
            *final(self) == (SCStreamConfiguration { exclude_current_process_audio, ..*old(self) }),
    {
        self.exclude_current_process_audio = exclude_current_process_audio;
    }
}

} // verus!
