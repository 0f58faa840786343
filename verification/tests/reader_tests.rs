use ibt_reader::constants::{Flags, TrackLocation};
use ibt_reader::headers::{DiskHeader, Header, VarHeader};
use ibt_reader::samples::{Sample, SampleValue};
use ibt_reader::{DecodeError, IbtReader, MemorySource, ReadSeek};

const STRIDE: i32 = 32;
const VAR_OFF: i32 = 144;
const NUM_VARS: i32 = 9;
const SI_OFF: i32 = VAR_OFF + NUM_VARS * 144;

fn put_i32(buf: &mut [u8], at: usize, v: i32) {
    buf[at..at + 4].copy_from_slice(&v.to_le_bytes());
}

fn build_header(si_len: i32, buf_offset: i32) -> Vec<u8> {
    let mut h = vec![0u8; 112];
    put_i32(&mut h, 0, 2); // version
    put_i32(&mut h, 4, 1); // status
    put_i32(&mut h, 8, 60); // tick rate
    put_i32(&mut h, 12, 0); // session info update
    put_i32(&mut h, 16, si_len);
    put_i32(&mut h, 20, SI_OFF);
    put_i32(&mut h, 24, NUM_VARS);
    put_i32(&mut h, 28, VAR_OFF);
    put_i32(&mut h, 32, 1); // buffer count
    put_i32(&mut h, 36, STRIDE);
    put_i32(&mut h, 52, buf_offset);
    h
}

fn build_var(ty: i32, offset: i32, name: &[u8], desc: &[u8], unit: &[u8]) -> Vec<u8> {
    let mut v = vec![0u8; 144];
    put_i32(&mut v, 0, ty);
    put_i32(&mut v, 4, offset);
    put_i32(&mut v, 8, 1); // element count
    v[12] = 0; // count-as-time flag
    v[16..16 + name.len()].copy_from_slice(name);
    v[48..48 + desc.len()].copy_from_slice(desc);
    v[112..112 + unit.len()].copy_from_slice(unit);
    v
}

fn session_text_bytes() -> Vec<u8> {
    let mut t = b"WeekendInfo:\n TrackName: spielberg gp\n Currency: ".to_vec();
    t.push(0x80); // CP1252 euro sign
    t.push(b'\n');
    t
}

fn build_record(k: usize) -> Vec<u8> {
    let mut r = vec![0u8; STRIDE as usize];
    r[0..8].copy_from_slice(&(k as f64).to_le_bytes());
    put_i32(&mut r, 8, 1000 + k as i32);
    r[12..16].copy_from_slice(&991.8974f32.to_le_bytes());
    r[16..20].copy_from_slice(&268698112u32.to_le_bytes());
    r[21] = (k % 2) as u8;
    r[23] = b'A' + k as u8;
    r
}

/// A complete capture: header, descriptor table, session text, then
/// `num_records` tick records and `trailing` extra bytes after the last one.
fn build_capture(num_records: usize, trailing: usize) -> Vec<u8> {
    let si = session_text_bytes();
    let buf_offset = SI_OFF as usize + si.len();
    let mut d = build_header(si.len() as i32, buf_offset as i32);
    d.resize(VAR_OFF as usize, 0);
    let vars: Vec<Vec<u8>> = vec![
        build_var(5, 0, b"SessionTime", b"Seconds since session start", b"s"),
        build_var(2, 8, b"SessionTick", b"Current update number", b""),
        build_var(4, 12, b"RPM", b"Engine rpm", b"revs/min"),
        build_var(3, 16, b"SessionFlags", b"Session flags", b"irsdk_Flags"),
        build_var(1, 20, b"OnPitRoad", b"Is the player on pit road", b""),
        build_var(0, 22, b"PlayerGearChar", b"Gear as a letter", b""),
        build_var(4, 24, b"RPM", b"Duplicate channel name", b"revs/min"),
        build_var(6, 0, b"Mystery", b"Tag outside the known set", b""),
        build_var(4, 30, b"TooFar", b"Offset near the end of a record", b""),
    ];
    for v in vars {
        d.extend_from_slice(&v);
    }
    assert_eq!(d.len(), SI_OFF as usize);
    d.extend_from_slice(&si);
    assert_eq!(d.len(), buf_offset);
    for k in 0..num_records {
        d.extend_from_slice(&build_record(k));
    }
    for _ in 0..trailing {
        d.push(0xEE);
    }
    d
}

fn open_fixture(num_records: usize, trailing: usize) -> IbtReader<MemorySource> {
    IbtReader::new(MemorySource::new(build_capture(num_records, trailing))).unwrap()
}

#[test]
fn test_header_round_trip() {
    let reader = open_fixture(3, 0);
    let h: &Header = &reader.header;
    assert_eq!(h.version, 2);
    assert_eq!(h.status, 1);
    assert_eq!(h.tick_rate, 60);
    assert_eq!(h.sesion_info_update, 0);
    assert_eq!(h.sesion_info_length, session_text_bytes().len() as i32);
    assert_eq!(h.sesion_info_offset, SI_OFF);
    assert_eq!(h.num_vars, NUM_VARS);
    assert_eq!(h.var_header_offset, VAR_OFF);
    assert_eq!(h.num_buf, 1);
    assert_eq!(h.buf_len, STRIDE);
    assert_eq!(h.buf_offset, SI_OFF + session_text_bytes().len() as i32);
}

#[test]
fn test_disk_header_overlays_bytes_at_offset_32() {
    let reader = open_fixture(3, 0);
    let d: &DiskHeader = &reader.disk_header;
    // The disk summary region starts at byte 32, where the capture header
    // holds the buffer count (1), so the date field carries bits 0x1.
    assert_eq!(d.start_date_bits, 1);
    assert_eq!(d.start_date_bits, 1e-45f32.to_bits());
    // Bytes 40..48 are reserved zeros.
    assert_eq!(d.start_time_bits, 0);
    // Bytes 48..56: four zero bytes then the record region offset.
    let expected_end = (reader.header.buf_offset as u64) << 32;
    assert_eq!(d.end_time_bits, expected_end);
    assert_eq!(d.lap_count, 0);
    assert_eq!(d.record_count, 0);
}

#[test]
fn test_descriptor_count_matches_header() {
    let reader = open_fixture(3, 0);
    assert_eq!(reader.vars.len(), reader.header.num_vars as usize);
    assert_eq!(reader.vars.len(), 9);
}

#[test]
fn test_descriptor_fields() {
    let reader = open_fixture(3, 0);
    let first: &VarHeader = &reader.vars[0];
    assert_eq!(first.var_type, 5);
    assert_eq!(first.offset, 0);
    assert_eq!(first.count, 1);
    assert_eq!(first.count_as_time, 0);
    assert_eq!(first.name, "SessionTime");
    assert_eq!(first.description, "Seconds since session start");
    assert_eq!(first.unit, "s");
}

#[test]
fn test_find_channel() {
    let reader = open_fixture(3, 0);
    let st = reader.find_var("SessionTime".to_string()).unwrap();
    assert_eq!(st.offset, 0);
    assert_eq!(st.var_type, 5);
    assert_eq!(st.name, "SessionTime");
    assert_eq!(st.description, "Seconds since session start");
    assert_eq!(st.unit, "s");
    let tick = reader.find_var("SessionTick".to_string()).unwrap();
    assert_eq!(tick.offset, 8);
    assert!(reader.find_var("NoSuchChannel".to_string()).is_none());
}

#[test]
fn test_find_channel_first_match_wins() {
    let reader = open_fixture(3, 0);
    // Two descriptors are named RPM; the lookup must return the earlier one.
    let rpm = reader.find_var("RPM".to_string()).unwrap();
    assert_eq!(rpm.offset, 12);
    assert_eq!(rpm.description, "Engine rpm");
}

#[test]
fn test_queries_are_idempotent() {
    let reader = open_fixture(3, 0);
    let h1 = reader.header;
    let h2 = reader.header;
    assert_eq!(h1, h2);
    let d1 = reader.disk_header;
    let d2 = reader.disk_header;
    assert_eq!(d1, d2);
    let a = reader.find_var("RPM".to_string()).unwrap();
    let b = reader.find_var("RPM".to_string()).unwrap();
    assert_eq!(a.var_type, b.var_type);
    assert_eq!(a.offset, b.offset);
    assert_eq!(a.name, b.name);
    assert_eq!(a.description, b.description);
    assert_eq!(a.unit, b.unit);
    let s1 = reader.session_info.clone();
    let s2 = reader.session_info.clone();
    assert_eq!(s1, s2);
}

#[test]
fn test_session_info_text_decoded() {
    let reader = open_fixture(3, 0);
    assert!(reader.session_info.contains("TrackName: spielberg gp"));
    // Byte 0x80 must come out as the euro sign, not as itself: the text
    // passes through the code page, not through a byte copy.
    assert!(reader.session_info.contains('\u{20AC}'));
    assert_eq!(
        reader.session_info.chars().count(),
        session_text_bytes().len()
    );
}

#[test]
fn test_iteration_totality() {
    for (records, trailing) in [(3usize, 0usize), (3, 10), (0, 5), (50, 31)] {
        let mut reader = open_fixture(records, trailing);
        let mut it = reader.samples();
        let all = it.collect_vec();
        assert_eq!(all.len(), records);
    }
}

#[test]
fn test_iteration_restarts_from_zero() {
    let mut reader = open_fixture(4, 0);
    let first = reader.samples().collect_vec();
    let second = reader.samples().collect_vec();
    assert_eq!(first.len(), 4);
    assert_eq!(second.len(), 4);
}

#[test]
fn test_boundary_eof_terminates_cleanly() {
    // Trailing bytes shorter than one stride must end the sequence, not fail.
    let mut reader = open_fixture(2, (STRIDE - 1) as usize);
    let mut it = reader.samples();
    assert!(it.next().is_some());
    assert!(it.next().is_some());
    assert!(it.next().is_none());
    // The iterator stays ended.
    assert!(it.next().is_none());
}

#[test]
fn test_typed_decode_known_values() {
    let mut reader = open_fixture(3, 0);
    let time = reader.find_var("SessionTime".to_string()).unwrap();
    let tick = reader.find_var("SessionTick".to_string()).unwrap();
    let rpm = reader.find_var("RPM".to_string()).unwrap();
    let flags = reader.find_var("SessionFlags".to_string()).unwrap();
    let pit = reader.find_var("OnPitRoad".to_string()).unwrap();
    let gear = reader.find_var("PlayerGearChar".to_string()).unwrap();
    let all = reader.samples().collect_vec();
    let s = &all[1];
    assert_eq!(
        s.get_by_header(&time).unwrap(),
        SampleValue::Float64(1f64.to_bits())
    );
    assert_eq!(s.get_by_header(&tick).unwrap(), SampleValue::Int(1001));
    assert_eq!(
        s.get_by_header(&rpm).unwrap(),
        SampleValue::Float32(991.8974f32.to_bits())
    );
    assert_eq!(
        s.get_by_header(&flags).unwrap(),
        SampleValue::BitField(268698112)
    );
    assert_eq!(s.get_by_header(&pit).unwrap(), SampleValue::Bool(true));
    assert_eq!(s.get_by_header(&gear).unwrap(), SampleValue::Char('B'));
    let s0 = &all[0];
    assert_eq!(s0.get_by_header(&pit).unwrap(), SampleValue::Bool(false));
    assert_eq!(s0.get_by_header(&gear).unwrap(), SampleValue::Char('A'));
}

#[test]
fn test_bitfield_mask_against_flag() {
    let mut reader = open_fixture(3, 0);
    let flags = reader.find_var("SessionFlags".to_string()).unwrap();
    let all = reader.samples().collect_vec();
    let mask = all[1]
        .get_by_header(&flags)
        .unwrap()
        .as_bitfield()
        .unwrap();
    assert_eq!(mask & Flags::Checkered.value(), 0);
    assert_ne!(mask & Flags::StartHidden.value(), 0);
}

#[test]
fn test_decode_errors() {
    let reader = open_fixture(1, 0);
    let mystery = reader.find_var("Mystery".to_string()).unwrap();
    let too_far = reader.find_var("TooFar".to_string()).unwrap();
    let record = Sample::new(build_record(0));
    assert_eq!(
        record.get_by_header(&mystery),
        Err(DecodeError::UnsupportedType)
    );
    // A four-byte read at offset 30 of a 32-byte record crosses the end.
    assert_eq!(record.get_by_header(&too_far), Err(DecodeError::OutOfBounds));
    // A decode failure does not poison other decodes of the same record.
    let tick = reader.find_var("SessionTick".to_string()).unwrap();
    assert_eq!(record.get_by_header(&tick), Ok(SampleValue::Int(1000)));
}

#[test]
fn test_accessor_type_mismatch() {
    let v = SampleValue::Int(7);
    assert_eq!(v.as_int(), Some(7));
    assert_eq!(v.as_bool(), None);
    assert_eq!(v.as_char(), None);
    assert_eq!(v.as_bitfield(), None);
    assert_eq!(v.as_float_32_bits(), None);
    assert_eq!(v.as_float_64_bits(), None);
    let f = SampleValue::Float32(991.8974f32.to_bits());
    assert_eq!(f.as_float_32_bits(), Some(991.8974f32.to_bits()));
    assert_eq!(f.as_int(), None);
}

#[test]
fn test_open_truncated_header() {
    let whole = build_capture(1, 0);
    // Shorter than the two fixed header regions demand.
    let short = whole[..100].to_vec();
    match IbtReader::new(MemorySource::new(short)) {
        Err(DecodeError::TruncatedInput) => {}
        _ => panic!("a short header region must be a truncation error"),
    }
}

#[test]
fn test_open_truncated_descriptor_table() {
    let whole = build_capture(1, 0);
    // Cut inside the descriptor table.
    let short = whole[..(VAR_OFF as usize + 100)].to_vec();
    match IbtReader::new(MemorySource::new(short)) {
        Err(DecodeError::TruncatedInput) => {}
        _ => panic!("a short descriptor table must be a truncation error"),
    }
}

#[test]
fn test_code_page_accepts_every_byte() {
    // The code page maps all 256 byte values; only NUL padding is stripped,
    // so a name field of bytes 1..=31 keeps all 31 characters and text
    // decoding can never fail.
    let mut name = Vec::new();
    for b in 1u8..32 {
        name.push(b);
    }
    let mut d = vec![0u8; 112];
    put_i32(&mut d, 16, 0); // empty session text
    put_i32(&mut d, 20, 144); // session text offset
    put_i32(&mut d, 24, 1); // one descriptor
    put_i32(&mut d, 28, 144); // descriptor table offset
    d.resize(144, 0);
    let var = build_var(4, 0, &name, &[0xFFu8, 0x80, 0x9D], b"");
    d.extend_from_slice(&var);
    let reader = IbtReader::new(MemorySource::new(d)).unwrap();
    assert_eq!(reader.vars.len(), 1);
    assert_eq!(reader.vars[0].name.chars().count(), 31);
    let desc: Vec<char> = reader.vars[0].description.chars().collect();
    assert_eq!(desc, vec!['\u{FF}', '\u{20AC}', '\u{9D}']);
}

#[test]
fn test_memory_source_read_at() {
    let mut src = MemorySource::new(vec![10u8, 11, 12, 13, 14]);
    assert_eq!(src.read_at(1, 3), Ok(vec![11u8, 12, 13]));
    assert_eq!(src.read_at(3, 3), Err(DecodeError::TruncatedInput));
    assert_eq!(src.read_at(5, 0), Ok(Vec::new()));
    assert_eq!(src.read_at(6, 0), Err(DecodeError::TruncatedInput));
}

#[test]
fn test_get_var_header_reads_table() {
    let mut src = MemorySource::new(build_capture(1, 0));
    let probe = MemorySource::new(build_capture(1, 0));
    let header = IbtReader::new(probe).unwrap().header;
    let table = ibt_reader::get_var_header(&mut src, &header).unwrap();
    assert_eq!(table.len(), (NUM_VARS * 144) as usize);
    // The table starts with the first descriptor: type tag 5.
    assert_eq!(&table[0..4], &5i32.to_le_bytes());
}

/// A byte source whose device always fails.
struct BrokenSource;

impl ReadSeek for BrokenSource {
    fn read_at(&mut self, _from: u64, _size: usize) -> Result<Vec<u8>, DecodeError> {
        Err(DecodeError::IoFailure)
    }
}

#[test]
fn test_open_io_failure_surfaces() {
    match IbtReader::new(BrokenSource) {
        Err(DecodeError::IoFailure) => {}
        _ => panic!("a device error must surface as an io failure"),
    }
}

#[test]
fn test_constant_values() {
    assert_eq!(Flags::Checkered.value(), 0x1);
    assert_eq!(Flags::StartGo.value(), 0x80000000);
    assert_eq!(Flags::Repair.value(), 0x00100000);
    assert_eq!(TrackLocation::NotInWorld.value(), -1);
    assert_eq!(TrackLocation::OnTrack.value(), 3);
}
