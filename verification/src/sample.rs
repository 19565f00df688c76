//! Sample buffers and the copy-on-receive rule.
//!
//! The operating system hands each delivered sample over as a transient
//! buffer that is only valid for the duration of the callback. Before a
//! sample may outlive the callback or cross a thread it must be deep
//! copied; the copy owns one retain of a fresh native object, recorded in
//! the retain ledger. A copy that the native side reports as failed yields
//! an error and leaves the ledger untouched — no destination slot leaks.

use vstd::prelude::*;

verus! {

use crate::format::CGDisplayStreamFrameStatus;
use crate::format::CMFormatDescription;
use crate::format::CMMediaType;
use crate::geometry::Rect;
use crate::handle::OwnedHandle;
use crate::handle::RetainTable;
use crate::handle::spec_release;
use crate::time::CMTime;

/// How many planar buffers the fixed-size destination of an audio buffer
/// list extraction can hold.
pub const K_AUDIO_BUFFER_LIST_CAPACITY: usize = 8;

/// The per-frame attachment dictionary the capture subsystem hangs on a
/// video sample.
#[derive(Clone, Debug)]
pub struct SampleAttachment {
    pub status: i32,
    pub display_time: u64,
    pub scale_factor_percent: u32,
    pub content_rect: Rect,
    pub dirty_rects: Vec<Rect>,
}

impl SampleAttachment {
    /// The frame status this attachment reports, when its raw code is
    /// recognized.
    pub fn frame_status(&self) -> (r: Option<CGDisplayStreamFrameStatus>)
        ensures
            r == CGDisplayStreamFrameStatus::spec_from_i32(self.status),
    {
        CGDisplayStreamFrameStatus::from_i32(self.status)
    }
}

/// One planar audio buffer: its channel count and raw bytes.
#[derive(Clone, Debug)]
pub struct AudioBuffer {
    pub number_channels: u32,
    pub data: Vec<u8>,
}

/// A list of planar audio buffers, one per non-interleaved channel.
#[derive(Clone, Debug)]
pub struct AudioBufferList {
    pub buffers: Vec<AudioBuffer>,
}

impl AudioBufferList {
    pub fn new() -> (r: AudioBufferList)
        ensures
            r.buffers@.len() == 0,
    {
        AudioBufferList { buffers: Vec::new() }
    }

    pub fn number_buffers(&self) -> (r: usize)
        ensures
            r == self.buffers@.len(),
    {
        self.buffers.len()
    }

    /// The bytes of one channel's buffer: nothing for a channel index past
    /// the end, the channel's data otherwise.
    pub fn channel_data(&self, channel: usize) -> (r: Option<&Vec<u8>>)
        ensures
            match r {
                Some(d) => channel < self.buffers@.len() && d@ == self.buffers@[channel as int].data@,
                None => channel >= self.buffers@.len(),
            },
    {
        if channel >= self.buffers.len() {
            None
        } else {
            Some(&self.buffers[channel].data)
        }
    }
}

impl Default for AudioBufferList {
    fn default() -> (r: Self)
        ensures
            r.buffers@.len() == 0,
    {
        AudioBufferList { buffers: Vec::new() }
    }
}

/// The retained backing storage of an extracted audio buffer list; it owns
/// one retain of the native block buffer recorded in the ledger.
#[derive(Debug)]
pub struct CMBlockBuffer {
    pub handle: OwnedHandle,
}

impl CMBlockBuffer {
    /// Gives the backing storage's one retain back.
    pub fn release(self, table: &mut RetainTable)
        requires
            old(table).spec_is_live(self.handle.spec_id()),
        ensures
            final(table).counts() == spec_release(
                old(table).counts(),
                self.handle.spec_id() as int,
            ),
    {
        self.handle.release(table);
    }
}

/// The native copy call failed; no sample was produced.
#[derive(Copy, Clone, Debug, PartialEq, Eq, Structural)]
pub struct CopyFailed;

/// Why an audio buffer list could not be extracted from a sample.
#[derive(Copy, Clone, Debug, PartialEq, Eq, Structural)]
pub enum AudioBufferListError {
    /// The sample does not carry audio.
    NotAudio,
    /// The fixed-size destination cannot hold this many buffers.
    ArrayTooSmall,
}

/// A sample as the operating system presents it inside a callback: the
/// payload, and the status its native deep-copy call will report. The
/// buffer is only valid for the duration of the callback; it must be
/// copied before it is kept.
#[derive(Clone, Debug)]
pub struct TransientSampleBuffer {
    pub presentation_timestamp: CMTime,
    pub duration: CMTime,
    pub format: CMFormatDescription,
    pub attachments: Vec<SampleAttachment>,
    pub audio: Option<AudioBufferList>,
    pub copy_status: i32,
}

impl TransientSampleBuffer {
    /// A transient buffer carries an audio payload exactly when its format
    /// says audio.
    pub open spec fn well_formed(&self) -> bool {
        &&& self.format.well_formed()
        &&& (self.audio is Some <==> CMMediaType::spec_from_ostype(self.format.media_type)
            == Some(CMMediaType::Audio))
    }
}

/// An owned deep copy of one delivered sample. It owns one retain of the
/// copied native object; its attributes are readable without further
/// native calls.
#[derive(Debug)]
pub struct CMSampleBuffer {
    pub handle: OwnedHandle,
    pub presentation_timestamp: CMTime,
    pub duration: CMTime,
    pub format: CMFormatDescription,
    pub attachments: Vec<SampleAttachment>,
    pub audio: Option<AudioBufferList>,
}

impl CMSampleBuffer {
    /// A sample carries an audio payload exactly when its format says
    /// audio.
    pub open spec fn well_formed(&self) -> bool {
        &&& self.format.well_formed()
        &&& (self.audio is Some <==> CMMediaType::spec_from_ostype(self.format.media_type)
            == Some(CMMediaType::Audio))
    }

    /// Deep-copies a transient buffer before the callback returns. When
    /// the native copy call reports failure the result is `CopyFailed`,
    /// nothing panics, and the ledger is exactly as it was: the would-be
    /// destination slot is not leaked. On success the copy owns one retain
    /// of a fresh object and carries the transient buffer's payload.
    pub fn copy_from_transient(table: &mut RetainTable, transient: TransientSampleBuffer) -> (r:
        Result<CMSampleBuffer, CopyFailed>)
        ensures
            transient.copy_status != 0 ==> r is Err && *final(table) == *old(table),
            transient.copy_status == 0 ==> match r {
                Ok(buf) => {
                    &&& final(table).counts() == old(table).counts().push(1u64)
                    &&& buf.handle == OwnedHandle::spec_new(old(table).counts().len() as usize)
                    &&& buf.handle.spec_id() == old(table).counts().len()
                    &&& final(table).spec_is_live(buf.handle.spec_id())
                    &&& buf.presentation_timestamp == transient.presentation_timestamp
                    &&& buf.duration == transient.duration
                    &&& buf.format == transient.format
                    &&& buf.attachments == transient.attachments
                    &&& buf.audio == transient.audio
                    &&& transient.well_formed() ==> buf.well_formed()
                },
                Err(_) => false,
            },
    {
        if transient.copy_status != 0 {
            Err(CopyFailed)
        } else {
            let id = table.allocate();
            Ok(
                CMSampleBuffer {
                    handle: OwnedHandle::from_retained(id),
                    presentation_timestamp: transient.presentation_timestamp,
                    duration: transient.duration,
                    format: transient.format,
                    attachments: transient.attachments,
                    audio: transient.audio,
                },
            )
        }
    }

    pub fn get_presentation_timestamp(&self) -> (r: CMTime)
        ensures
            r == self.presentation_timestamp,
    {
        self.presentation_timestamp
    }

    pub fn get_duration(&self) -> (r: CMTime)
        ensures
            r == self.duration,
    {
        self.duration
    }

    pub fn get_format_description(&self) -> (r: CMFormatDescription)
        ensures
            r == self.format,
    {
        self.format
    }

    /// The sample's attachments, in delivery order; empty when the
    /// subsystem reported none.
    pub fn get_sample_attachment_array(&self) -> (r: &Vec<SampleAttachment>)
        ensures
            r@ == self.attachments@,
    {
        &self.attachments
    }

    /// Extracts the planar audio view of an audio sample, together with
    /// the retained backing storage that owns it; the view borrows from
    /// the sample and must not outlive the backing handle's release. A
    /// sample without audio or with more buffers than the fixed-size
    /// destination holds yields an error and leaves the ledger untouched.
    pub fn get_audio_buffer_list_with_block_buffer(&self, table: &mut RetainTable) -> (r: Result<
        (&AudioBufferList, CMBlockBuffer),
        AudioBufferListError,
    >)
        ensures
            match r {
                Ok((list, block)) => {
                    &&& self.audio is Some
                    &&& list == self.audio->Some_0
                    &&& list.buffers@.len() <= K_AUDIO_BUFFER_LIST_CAPACITY
                    &&& final(table).counts() == old(table).counts().push(1u64)
                    &&& block.handle.spec_id() == old(table).counts().len()
                    &&& final(table).spec_is_live(block.handle.spec_id())
                },
                Err(e) => {
                    &&& *final(table) == *old(table)
                    &&& e == AudioBufferListError::NotAudio <==> self.audio is None
                    &&& (self.audio is Some ==> e == AudioBufferListError::ArrayTooSmall
                        && self.audio->Some_0.buffers@.len() > K_AUDIO_BUFFER_LIST_CAPACITY)
                },
            },
    {
        match &self.audio {
            None => Err(AudioBufferListError::NotAudio),
            Some(list) => {
                if list.buffers.len() > K_AUDIO_BUFFER_LIST_CAPACITY {
                    Err(AudioBufferListError::ArrayTooSmall)
                } else {
                    let id = table.allocate();
                    Ok((list, CMBlockBuffer { handle: OwnedHandle::from_retained(id) }))
                }
            },
        }
    }

    /// Consumes the sample, giving its one retain back.
    pub fn release(self, table: &mut RetainTable)
        requires
            old(table).spec_is_live(self.handle.spec_id()),
        ensures
            final(table).counts() == spec_release(
                old(table).counts(),
                self.handle.spec_id() as int,
            ),
    {
        self.handle.release(table);
    }
}

} // verus!
