use ibt_reader::events::{Event, EventValue, Events};
use ibt_reader::headers::VarHeader;
use ibt_reader::{DecodeError, MemorySource};

fn record_bytes() -> Vec<u8> {
    let mut r = vec![0u8; 32];
    r[0..8].copy_from_slice(&2.5f64.to_le_bytes());
    r[8..12].copy_from_slice(&(-7i32).to_le_bytes());
    r[12..16].copy_from_slice(&1.5f32.to_le_bytes());
    r[16..20].copy_from_slice(&0xDEADBEEFu32.to_le_bytes());
    r[21] = 1;
    r[23] = b'R';
    r
}

fn var(ty: i32, offset: i32) -> VarHeader {
    VarHeader {
        var_type: ty,
        offset,
        count: 1,
        count_as_time: 0,
        name: String::new(),
        description: String::new(),
        unit: String::new(),
    }
}

#[test]
fn test_event_decode_each_type() {
    let e = Event::new(record_bytes());
    assert_eq!(
        e.get_by_header(&var(5, 0)),
        Ok(EventValue::Float64(2.5f64.to_bits()))
    );
    assert_eq!(e.get_by_header(&var(2, 8)), Ok(EventValue::Int(-7)));
    assert_eq!(
        e.get_by_header(&var(4, 12)),
        Ok(EventValue::Float32(1.5f32.to_bits()))
    );
    assert_eq!(
        e.get_by_header(&var(3, 16)),
        Ok(EventValue::BitField(0xDEADBEEF))
    );
    assert_eq!(e.get_by_header(&var(1, 20)), Ok(EventValue::Bool(true)));
    assert_eq!(e.get_by_header(&var(0, 22)), Ok(EventValue::Char('R')));
    assert_eq!(
        e.get_by_header(&var(7, 0)),
        Err(DecodeError::UnsupportedType)
    );
    assert_eq!(
        e.get_by_header(&var(5, 28)),
        Err(DecodeError::OutOfBounds)
    );
    assert_eq!(
        e.get_by_header(&var(2, -4)),
        Err(DecodeError::OutOfBounds)
    );
}

#[test]
fn test_event_accessors() {
    let v = EventValue::BitField(0xF0);
    assert_eq!(v.as_bitfield(), Some(0xF0));
    assert_eq!(v.as_int(), None);
    assert_eq!(v.as_bool(), None);
    assert_eq!(v.as_char(), None);
    assert_eq!(v.as_float_32_bits(), None);
    assert_eq!(v.as_float_64_bits(), None);
}

#[test]
fn test_events_walk_region() {
    // A region of three whole records and a half record of padding.
    let mut data = vec![0u8; 16]; // region offset 16
    for _ in 0..3 {
        data.extend_from_slice(&record_bytes());
    }
    data.extend_from_slice(&record_bytes()[..16]);
    let mut src = MemorySource::new(data);
    let mut events = Events {
        file: &mut src,
        length: 32,
        buf_offset: 16,
        current: 0,
    };
    let mut seen = 0;
    while let Some(e) = events.next() {
        assert_eq!(
            e.get_by_header(&var(0, 22)),
            Ok(EventValue::Char('R'))
        );
        seen += 1;
    }
    assert_eq!(seen, 3);
    assert_eq!(events.current, 3);
}
