use capture_core::clock::MachTimebase;
use capture_core::clock::RelativeTimer;
use capture_core::content::CGWindowID;
use capture_core::format::CFNumberType;
use capture_core::format::CGDisplayStreamFrameStatus;
use capture_core::format::CMMediaType;
use capture_core::format::OSType;
use capture_core::format::SCStreamPixelFormat;
use capture_core::geometry::Point;
use capture_core::geometry::Rect;
use capture_core::geometry::Size;

#[test]
fn test_ostype_words() {
    // 'BGRA' read little-endian: 66 + 71*256 + 82*65536 + 65*16777216.
    let bgra = SCStreamPixelFormat::BGRA8888.to_ostype();
    assert_eq!(bgra.0, [b'B', b'G', b'R', b'A']);
    assert_eq!(bgra.as_u32(), 66 + 71 * 256 + 82 * 65536 + 65 * 16777216);
    assert_eq!(bgra.as_i32(), bgra.as_u32() as i32);

    // A high last byte makes the signed reading negative.
    let high = OSType([0, 0, 0, 255]);
    assert_eq!(high.as_u32(), 4278190080);
    assert_eq!(high.as_i32(), -16777216);
}

#[test]
fn test_pixel_format_tags() {
    assert_eq!(SCStreamPixelFormat::L10R.to_ostype().0, [b'l', b'1', b'0', b'r']);
    assert_eq!(SCStreamPixelFormat::V420.to_ostype().0, [b'4', b'2', b'0', b'v']);
    assert_eq!(SCStreamPixelFormat::F420.to_ostype().0, [b'4', b'2', b'0', b'f']);
}

#[test]
fn test_media_type_from_ostype() {
    assert_eq!(
        CMMediaType::from_ostype(OSType([b'v', b'i', b'd', b'e'])),
        Some(CMMediaType::Video)
    );
    assert_eq!(
        CMMediaType::from_ostype(OSType([b's', b'o', b'u', b'n'])),
        Some(CMMediaType::Audio)
    );
    assert_eq!(CMMediaType::from_ostype(OSType([b't', b'e', b'x', b't'])), None);
}

#[test]
fn test_frame_status_codes() {
    assert_eq!(CGDisplayStreamFrameStatus::from_i32(0), Some(CGDisplayStreamFrameStatus::Complete));
    assert_eq!(CGDisplayStreamFrameStatus::from_i32(1), Some(CGDisplayStreamFrameStatus::Idle));
    assert_eq!(CGDisplayStreamFrameStatus::from_i32(2), Some(CGDisplayStreamFrameStatus::Blank));
    assert_eq!(CGDisplayStreamFrameStatus::from_i32(3), Some(CGDisplayStreamFrameStatus::Stopped));
    assert_eq!(CGDisplayStreamFrameStatus::from_i32(4), None);
    assert_eq!(CGDisplayStreamFrameStatus::from_i32(-1), None);
}

#[test]
fn test_cfnumber_type_codes() {
    let all = [
        CFNumberType::I8,
        CFNumberType::I16,
        CFNumberType::I32,
        CFNumberType::I64,
        CFNumberType::F32,
        CFNumberType::F64,
        CFNumberType::Char,
        CFNumberType::Short,
        CFNumberType::Int,
        CFNumberType::Long,
        CFNumberType::LongLong,
        CFNumberType::Float,
        CFNumberType::Double,
        CFNumberType::CFIndex,
        CFNumberType::NSInteger,
        CFNumberType::CGFloat,
    ];
    for (i, t) in all.iter().enumerate() {
        assert_eq!(t.to_isize(), i as isize + 1);
        assert_eq!(CFNumberType::from_i32(i as i32 + 1), Some(*t));
    }
    assert_eq!(CFNumberType::from_i32(0), None);
    assert_eq!(CFNumberType::from_i32(17), None);
}

#[test]
fn test_window_id_raw() {
    assert_eq!(CGWindowID(7).raw(), 7);
}

#[test]
fn test_rect_contains() {
    let r = Rect { origin: Point { x: 10, y: 20 }, size: Size { width: 100, height: 50 } };
    assert!(r.contains(Point { x: 10, y: 20 }));
    assert!(r.contains(Point { x: 110, y: 70 }));
    assert!(r.contains(Point { x: 60, y: 45 }));
    assert!(!r.contains(Point { x: 9, y: 45 }));
    assert!(!r.contains(Point { x: 111, y: 45 }));
    assert!(!r.contains(Point { x: 60, y: 71 }));
}

#[test]
fn test_rect_from_bounds() {
    let r = Rect::from_bounds(-10, 5, 90, 55);
    assert_eq!(r.origin, Point { x: -10, y: 5 });
    assert_eq!(r.size, Size { width: 100, height: 50 });
}

#[test]
fn test_relative_timer_baseline() {
    let mut timer = RelativeTimer::new();
    assert_eq!(timer.note(1000), 0);
    assert_eq!(timer.note(1500), 500);
    assert_eq!(timer.note(2500), 1500);
    // A tick count behind the baseline reports zero, never wraps.
    assert_eq!(timer.note(900), 0);
}

#[test]
fn test_timebase_conversion() {
    // 24 ticks at 125/3 nanoseconds per tick are exactly 1000 ns.
    let tb = MachTimebase { numer: 125, denom: 3 };
    assert_eq!(tb.ticks_to_nanos(24), 1000);
    // Rounding is downward: 25 ticks are 1041.66 ns.
    assert_eq!(tb.ticks_to_nanos(25), 1041);
    let identity = MachTimebase { numer: 1, denom: 1 };
    assert_eq!(identity.ticks_to_nanos(123456789), 123456789);
}
