//! Media formats: four-byte type tags, pixel formats, media kinds, and the
//! audio stream description attached to audio samples.

use vstd::prelude::*;

verus! {

/// A four-byte type tag, as media types and pixel formats are named.
#[derive(Copy, Clone, Debug, PartialEq, Eq)]
pub struct OSType(pub [u8; 4]);

impl OSType {
    /// The tag's bytes reinterpreted as a little-endian 32-bit word.
    pub open spec fn spec_as_u32(&self) -> int {
        self.0[0] + self.0[1] * 0x100 + self.0[2] * 0x10000 + self.0[3] * 0x1000000
    }

    /// The same word read as a signed 32-bit value.
    pub open spec fn spec_as_i32(&self) -> int {
        if self.spec_as_u32() < 0x80000000 {
            self.spec_as_u32()
        } else {
            self.spec_as_u32() - 0x100000000
        }
    }

    pub fn as_u32(&self) -> (r: u32)
        ensures
            r == self.spec_as_u32(),
    {
        let b = self.0;
        b[0] as u32 + b[1] as u32 * 0x100 + b[2] as u32 * 0x10000 + b[3] as u32 * 0x1000000
    }

    pub fn as_i32(&self) -> (r: i32)
        ensures
            r == self.spec_as_i32(),
    {
        let u = self.as_u32();
        if u < 0x80000000 {
            u as i32
        } else {
            (u as i64 - 0x100000000i64) as i32
        }
    }
}

/// The pixel formats a capture stream can deliver, each named by a fixed
/// four-byte tag.
#[derive(Copy, Clone, Debug, PartialEq, Eq, Structural)]
pub enum SCStreamPixelFormat {
    BGRA8888,
    L10R,
    V420,
    F420,
}

impl SCStreamPixelFormat {
    pub open spec fn spec_to_ostype(&self) -> OSType {
        match self {
            Self::BGRA8888 => OSType([66u8, 71u8, 82u8, 65u8]),
            Self::L10R => OSType([108u8, 49u8, 48u8, 114u8]),
            Self::V420 => OSType([52u8, 50u8, 48u8, 118u8]),
            Self::F420 => OSType([52u8, 50u8, 48u8, 102u8]),
        }
    }

    #[verifier::when_used_as_spec(spec_to_ostype)]
    pub fn to_ostype(&self) -> (r: OSType)
        ensures
            r == self.spec_to_ostype(),
    {
        match self {
            Self::BGRA8888 => OSType(['B' as u8, 'G' as u8, 'R' as u8, 'A' as u8]),
            Self::L10R => OSType(['l' as u8, '1' as u8, '0' as u8, 'r' as u8]),
            Self::V420 => OSType(['4' as u8, '2' as u8, '0' as u8, 'v' as u8]),
            Self::F420 => OSType(['4' as u8, '2' as u8, '0' as u8, 'f' as u8]),
        }
    }
}

/// The kind of media a format description describes.
#[derive(Copy, Clone, Debug, PartialEq, Eq, Structural)]
pub enum CMMediaType {
    Audio,
    Video,
}

impl CMMediaType {
    /// The media kind named by a type tag: `vide` is video, `soun` is
    /// audio, and every other tag is unrecognized.
    pub open spec fn spec_from_ostype(ostype: OSType) -> Option<CMMediaType> {
        if ostype.0[0] == 118 && ostype.0[1] == 105 && ostype.0[2] == 100 && ostype.0[3] == 101 {
            Some(CMMediaType::Video)
        } else if ostype.0[0] == 115 && ostype.0[1] == 111 && ostype.0[2] == 117 && ostype.0[3]
            == 110 {
            Some(CMMediaType::Audio)
        } else {
            None
        }
    }

    pub fn from_ostype(ostype: OSType) -> (r: Option<CMMediaType>)
        ensures
            r == Self::spec_from_ostype(ostype),
    {
        let b = ostype.0;
        if b[0] == 'v' as u8 && b[1] == 'i' as u8 && b[2] == 'd' as u8 && b[3] == 'e' as u8 {
            Some(CMMediaType::Video)
        } else if b[0] == 's' as u8 && b[1] == 'o' as u8 && b[2] == 'u' as u8 && b[3] == 'n' as u8 {
            Some(CMMediaType::Audio)
        } else {
            None
        }
    }

    pub fn video_ostype() -> (r: OSType)
        ensures
            Self::spec_from_ostype(r) == Some(CMMediaType::Video),
    {
        OSType(['v' as u8, 'i' as u8, 'd' as u8, 'e' as u8])
    }

    pub fn audio_ostype() -> (r: OSType)
        ensures
            Self::spec_from_ostype(r) == Some(CMMediaType::Audio),
    {
        OSType(['s' as u8, 'o' as u8, 'u' as u8, 'n' as u8])
    }
}

/// The fixed-size description of an audio stream: rate, layout and sample
/// width. The sample rate is kept in whole hertz.
#[derive(Copy, Clone, Debug, PartialEq, Eq, Structural)]
pub struct AudioStreamBasicDescription {
    pub sample_rate: u32,
    pub format_id: u32,
    pub format_flags: u32,
    pub bytes_per_packet: u32,
    pub frames_per_packet: u32,
    pub bytes_per_frame: u32,
    pub channels_per_frame: u32,
    pub bits_per_channel: u32,
    pub reserved: u32,
}

/// A sample's format description: its media type tag, and for audio the
/// basic stream description.
#[derive(Copy, Clone, Debug)]
pub struct CMFormatDescription {
    pub media_type: OSType,
    pub audio_description: Option<AudioStreamBasicDescription>,
}

/// An audio format description: a format description known to describe
/// audio, with its basic stream description at hand.
#[derive(Copy, Clone, Debug)]
pub struct CMAudioFormatDescription {
    pub basic_description: AudioStreamBasicDescription,
}

impl CMFormatDescription {
    /// A format description carries an audio stream description exactly
    /// when its media type says audio.
    pub open spec fn well_formed(&self) -> bool {
        self.audio_description is Some <==> CMMediaType::spec_from_ostype(self.media_type)
            == Some(CMMediaType::Audio)
    }

    pub fn video() -> (r: CMFormatDescription)
        ensures
            r.well_formed(),
            CMMediaType::spec_from_ostype(r.media_type) == Some(CMMediaType::Video),
    {
        CMFormatDescription { media_type: CMMediaType::video_ostype(), audio_description: None }
    }

    pub fn audio(description: AudioStreamBasicDescription) -> (r: CMFormatDescription)
        ensures
            r.well_formed(),
            CMMediaType::spec_from_ostype(r.media_type) == Some(CMMediaType::Audio),
            r.audio_description == Some(description),
    {
        CMFormatDescription {
            media_type: CMMediaType::audio_ostype(),
            audio_description: Some(description),
        }
    }

    pub fn get_media_type(&self) -> (r: OSType)
        ensures
            r == self.media_type,
    {
        self.media_type
    }

    /// Views this description as an audio format description, when its
    /// media type is audio.
    pub fn as_audio_format_description(&self) -> (r: Option<CMAudioFormatDescription>)
        requires
            self.well_formed(),
        ensures
            match r {
                Some(a) => CMMediaType::spec_from_ostype(self.media_type)
                    == Some(CMMediaType::Audio) && Some(a.basic_description)
                    == self.audio_description,
                None => CMMediaType::spec_from_ostype(self.media_type)
                    != Some(CMMediaType::Audio),
            },
    {
        match CMMediaType::from_ostype(self.media_type) {
            Some(CMMediaType::Audio) => match &self.audio_description {
                Some(d) => Some(CMAudioFormatDescription { basic_description: *d }),
                None => None,
            },
            _ => None,
        }
    }
}

impl CMAudioFormatDescription {
    pub fn get_basic_stream_description(&self) -> (r: AudioStreamBasicDescription)
        ensures
            r == self.basic_description,
    {
        self.basic_description
    }
}

/// The status a display stream reports with each frame callback.
#[derive(Copy, Clone, Debug, PartialEq, Eq, Structural)]
pub enum CGDisplayStreamFrameStatus {
    Complete,
    Idle,
    Blank,
    Stopped,
}

impl CGDisplayStreamFrameStatus {
    pub open spec fn spec_from_i32(x: i32) -> Option<CGDisplayStreamFrameStatus> {
        if x == 0 {
            Some(Self::Complete)
        } else if x == 1 {
            Some(Self::Idle)
        } else if x == 2 {
            Some(Self::Blank)
        } else if x == 3 {
            Some(Self::Stopped)
        } else {
            None
        }
    }

    #[verifier::when_used_as_spec(spec_from_i32)]
    pub fn from_i32(x: i32) -> (r: Option<Self>)
        ensures
            r == Self::spec_from_i32(x),
    {
        match x {
            0 => Some(Self::Complete),
            1 => Some(Self::Idle),
            2 => Some(Self::Blank),
            3 => Some(Self::Stopped),
            _ => None,
        }
    }
}

/// The numeric type stored in a boxed number object.
#[derive(Copy, Clone, Debug, PartialEq, Eq, Structural)]
pub enum CFNumberType {
    I8,
    I16,
    I32,
    I64,
    F32,
    F64,
    Char,
    Short,
    Int,
    Long,
    LongLong,
    Float,
    Double,
    CFIndex,
    NSInteger,
    CGFloat,
}

impl CFNumberType {
    pub open spec fn spec_to_isize(self) -> isize {
        match self {
            Self::I8 => 1,
            Self::I16 => 2,
            Self::I32 => 3,
            Self::I64 => 4,
            Self::F32 => 5,
            Self::F64 => 6,
            Self::Char => 7,
            Self::Short => 8,
            Self::Int => 9,
            Self::Long => 10,
            Self::LongLong => 11,
            Self::Float => 12,
            Self::Double => 13,
            Self::CFIndex => 14,
            Self::NSInteger => 15,
            Self::CGFloat => 16,
        }
    }

    #[verifier::when_used_as_spec(spec_to_isize)]
    pub fn to_isize(self) -> (r: isize)
        ensures
            r == self.spec_to_isize(),
    {
        match self {
            Self::I8 => 1,
            Self::I16 => 2,
            Self::I32 => 3,
            Self::I64 => 4,
            Self::F32 => 5,
            Self::F64 => 6,
            Self::Char => 7,
            Self::Short => 8,
            Self::Int => 9,
            Self::Long => 10,
            Self::LongLong => 11,
            Self::Float => 12,
            Self::Double => 13,
            Self::CFIndex => 14,
            Self::NSInteger => 15,
            Self::CGFloat => 16,
        }
    }

    pub open spec fn spec_from_i32(x: i32) -> Option<CFNumberType> {
        if x == 1 {
            Some(Self::I8)
        } else if x == 2 {
            Some(Self::I16)
        } else if x == 3 {
            Some(Self::I32)
        } else if x == 4 {
            Some(Self::I64)
        } else if x == 5 {
            Some(Self::F32)
        } else if x == 6 {
            Some(Self::F64)
        } else if x == 7 {
            Some(Self::Char)
        } else if x == 8 {
            Some(Self::Short)
        } else if x == 9 {
            Some(Self::Int)
        } else if x == 10 {
            Some(Self::Long)
        } else if x == 11 {
            Some(Self::LongLong)
        } else if x == 12 {
            Some(Self::Float)
        } else if x == 13 {
            Some(Self::Double)
        } else if x == 14 {
            Some(Self::CFIndex)
        } else if x == 15 {
            Some(Self::NSInteger)
        } else if x == 16 {
            Some(Self::CGFloat)
        } else {
            None
        }
    }

    #[verifier::when_used_as_spec(spec_from_i32)]
    pub fn from_i32(x: i32) -> (r: Option<Self>)
        ensures
            r == Self::spec_from_i32(x),
    {
        match x {
            1 => Some(Self::I8),
            2 => Some(Self::I16),
            3 => Some(Self::I32),
            4 => Some(Self::I64),
            5 => Some(Self::F32),
            6 => Some(Self::F64),
            7 => Some(Self::Char),
            8 => Some(Self::Short),
            9 => Some(Self::Int),
            10 => Some(Self::Long),
            11 => Some(Self::LongLong),
            12 => Some(Self::Float),
            13 => Some(Self::Double),
            14 => Some(Self::CFIndex),
            15 => Some(Self::NSInteger),
            16 => Some(Self::CGFloat),
            _ => None,
        }
    }
}

/// Every numeric type code survives the round trip through its stored
/// form: decoding the code a type encodes to yields the type again.
pub proof fn lemma_cfnumber_type_round_trip(t: CFNumberType)
    ensures
        CFNumberType::spec_from_i32(t.spec_to_isize() as i32) == Some(t),
{
}

} // verus!
