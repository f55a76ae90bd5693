use mseed::archive::{MSTraceID, MSTraceList, MSTraceSegment};
use mseed::ident::{i8_to_string, trim_field, Nslc};
use mseed::reader::{read_status, MSError, MSFileParam, MSRecord, MSF_UNPACKDATA, MSF_VALIDATECRC};
use mseed::sample::{decode_i32_le, MSSampleType};
use mseed::timeconv::{nstime_to_time, CalendarParts};

fn parts(year: u16, yday: u16) -> CalendarParts {
    CalendarParts { year, yday, hour: 1, minute: 2, second: 3, nanosecond: 4 }
}

fn le_bytes(vals: &[i32]) -> Vec<u8> {
    let mut out = Vec::new();
    for v in vals {
        out.extend_from_slice(&v.to_le_bytes());
    }
    out
}

fn int_segment(vals: &[i32]) -> MSTraceSegment {
    let n = vals.len() as i64;
    MSTraceSegment::new(parts(2020, 1), parts(2020, 2), n, n, b'i' as i8, le_bytes(vals)).unwrap()
}

fn channel(segs: Vec<MSTraceSegment>) -> MSTraceID {
    let ident = Nslc::from_fields("XX        ", "STA       ", "          ", "BHZ       ");
    MSTraceID::new("FDSN:XX_STA__B_H_Z".to_string(), ident, parts(2020, 1), parts(2020, 2), 1, segs)
        .unwrap()
}

#[test]
fn sample_type_tags() {
    assert_eq!(MSSampleType::Integer32.as_char(), 'i' as i8);
    assert_eq!(MSSampleType::Float32.as_char(), 'f' as i8);
    assert_eq!(MSSampleType::Float64.as_char(), 'd' as i8);
    assert_eq!(MSSampleType::from_char(105), Some(MSSampleType::Integer32));
    assert_eq!(MSSampleType::from_char(100), Some(MSSampleType::Float64));
    assert_eq!(MSSampleType::from_char(97), None);
    assert_eq!(MSSampleType::Float64.width(), 8);
}

#[test]
fn decodes_little_endian_integers() {
    let bytes = le_bytes(&[-47237, -47304, i32::MAX, i32::MIN]);
    assert_eq!(decode_i32_le(&bytes, 4), vec![-47237, -47304, i32::MAX, i32::MIN]);
    assert_eq!(decode_i32_le(&bytes, 1), vec![-47237]);
    assert_eq!(decode_i32_le(&bytes, 0), Vec::<i32>::new());
}

#[test]
fn c_buffer_to_string_drops_nuls() {
    assert_eq!(i8_to_string(&[78, 76, 0, 0]), "NL");
    assert_eq!(i8_to_string(&[0, 65, 0, 66]), "AB");
    assert_eq!(i8_to_string(&[]), "");
}

#[test]
fn trims_padded_fields() {
    assert_eq!(trim_field("  AB  "), "AB");
    assert_eq!(trim_field("A B"), "A B");
    assert_eq!(trim_field("     "), "");
    assert_eq!(trim_field(""), "");
    assert_eq!(trim_field("\tAB\0\0"), "AB");
    assert_eq!(trim_field(" \n\r "), "");
}

#[test]
fn identity_parse_twice_is_identical() {
    let a = Nslc::from_fields("IU   ", "ANMO ", "00   ", "BHZ  ");
    let b = Nslc::from_fields("IU   ", "ANMO ", "00   ", "BHZ  ");
    assert_eq!(a.id(), "IU_ANMO_00_BHZ");
    assert_eq!(a.id(), b.id());
    let c = Nslc::from_fields(&a.net, &a.sta, &a.loc, &a.cha);
    assert_eq!(c.id(), a.id());
}

#[test]
fn status_codes_map_to_outcomes() {
    assert_eq!(read_status(0), Ok(()));
    assert_eq!(read_status(1), Err(MSError::EOF));
    assert_eq!(read_status(-4), Err(MSError::Error(-4)));
}

#[test]
fn reader_defaults_and_flags() {
    let mut fp = MSFileParam::new("./tests/multiple.seed");
    assert_eq!(fp.filename(), "./tests/multiple.seed");
    assert_eq!(fp.flags(), MSF_UNPACKDATA);
    assert_eq!(fp.verbosity(), 0);
    assert_eq!(fp.cursor(), 0);
    fp.validate_crc(true);
    assert_eq!(fp.flags(), MSF_UNPACKDATA | MSF_VALIDATECRC);
    fp.unpack_data(false);
    assert_eq!(fp.flags(), MSF_VALIDATECRC);
    fp.unpack_data(true);
    fp.validate_crc(false);
    assert_eq!(fp.flags(), MSF_UNPACKDATA);
    fp.verbose(true);
    assert_eq!(fp.verbosity(), 1);
}

#[test]
fn record_sequence_ends_at_eof() {
    let mut fp = MSFileParam::new("a.seed");
    assert_eq!(fp.advance(0, 512), Some(Ok(())));
    assert_eq!(fp.cursor(), 512);
    assert_eq!(fp.advance(0, 1024), Some(Ok(())));
    assert_eq!(fp.advance(1, 1024), None);
    assert!(!fp.wants_read());
    assert_eq!(fp.advance(0, 2048), None);
    assert_eq!(fp.cursor(), 1024);
}

#[test]
fn record_sequence_ends_after_error() {
    let mut fp = MSFileParam::new("a.seed");
    assert_eq!(fp.advance(0, 512), Some(Ok(())));
    assert_eq!(fp.advance(-3, 512), Some(Err(MSError::Error(-3))));
    assert!(!fp.wants_read());
    assert_eq!(fp.advance(0, 1024), None);
}

#[test]
fn calendar_parts_to_utc() {
    let t = nstime_to_time(&parts(2020, 60)).unwrap();
    let expected = time::PrimitiveDateTime::new(
        time::Date::try_from_yo(2020, 60).unwrap(),
        time::Time::try_from_hms_nano(1, 2, 3, 4).unwrap(),
    )
    .assume_utc();
    assert_eq!(t, expected);
    assert!(nstime_to_time(&parts(2020, 366)).is_some());
    assert!(nstime_to_time(&parts(2019, 366)).is_none());
    assert!(nstime_to_time(&parts(2019, 0)).is_none());
    let mut late = parts(2019, 1);
    late.hour = 24;
    assert!(nstime_to_time(&late).is_none());
    assert!(!late.is_valid());
}

#[test]
fn record_fields() {
    let ident = Nslc::from_fields("IU   ", "ANMO ", "00   ", "BHZ  ");
    let rec = MSRecord::new(
        "FDSN:IU_ANMO_00_B_H_Z".to_string(),
        ident,
        1,
        512,
        100,
        100,
        parts(2020, 60),
        "2020,060,01:02:03.000000004".to_string(),
    )
    .unwrap();
    assert_eq!(rec.sid(), "FDSN:IU_ANMO_00_B_H_Z");
    assert_eq!(rec.id(), "IU_ANMO_00_BHZ");
    assert_eq!(rec.network(), "IU");
    assert_eq!(rec.station(), "ANMO");
    assert_eq!(rec.location(), "00");
    assert_eq!(rec.channel(), "BHZ");
    assert_eq!(rec.numsamples(), 100);
    assert_eq!(rec.reclen(), 512);
    assert_eq!(rec.start_time(), nstime_to_time(&parts(2020, 60)).unwrap());
    let bad = Nslc::from_fields("", "", "", "");
    assert!(MSRecord::new(String::new(), bad, 1, 512, 0, 0, parts(2019, 366), String::new()).is_none());
}

#[test]
fn integer_segment_samples() {
    let seg = int_segment(&[-47237, -47304, 12]);
    assert!(seg.data_unpacked());
    assert_eq!(seg.datasize(), 12);
    assert_eq!(seg.to_vec_i32(), Some(vec![-47237, -47304, 12]));
}

#[test]
fn undecoded_segment_has_no_samples() {
    let seg = MSTraceSegment::new(parts(2020, 1), parts(2020, 1), 288000, 0, b'i' as i8, Vec::new())
        .unwrap();
    assert!(!seg.data_unpacked());
    assert_eq!(seg.to_vec_i32(), Some(Vec::new()));
    assert_eq!(seg.conversion_request(MSSampleType::Float64), None);
    let mut seg = seg;
    assert_eq!(seg.convert_data(MSSampleType::Integer32, Ok(vec![0; 4])), Err(MSError::Error(-1)));
    assert_eq!(seg.datasize(), 0);
}

#[test]
fn segment_rejects_bad_fields() {
    assert!(MSTraceSegment::new(parts(2020, 1), parts(2020, 1), 1, 1, b'x' as i8, vec![0; 4]).is_none());
    assert!(MSTraceSegment::new(parts(2020, 1), parts(2020, 1), 2, 2, b'i' as i8, vec![0; 4]).is_none());
    assert!(MSTraceSegment::new(parts(2020, 1), parts(2020, 1), 1, 1, b'd' as i8, vec![0; 4]).is_none());
    assert!(MSTraceSegment::new(parts(2019, 366), parts(2020, 1), 0, 0, b'i' as i8, vec![]).is_none());
}

#[test]
fn conversion_to_native_type_keeps_bytes() {
    let mut seg = int_segment(&[5, -6]);
    let before = seg.data().clone();
    assert_eq!(seg.conversion_request(MSSampleType::Integer32), None);
    assert_eq!(seg.convert_data(MSSampleType::Integer32, Err(-9)), Ok(()));
    assert_eq!(seg.data(), &before);
    assert_eq!(seg.sampletype(), MSSampleType::Integer32);
}

#[test]
fn conversion_outcomes() {
    let floats: Vec<u8> = [1.0f32, -2.0f32].iter().flat_map(|f| f.to_le_bytes()).collect();
    let mut seg = MSTraceSegment::new(parts(2020, 1), parts(2020, 1), 2, 2, b'f' as i8, floats.clone())
        .unwrap();
    assert_eq!(seg.to_vec_i32(), None);
    assert_eq!(seg.conversion_request(MSSampleType::Integer32), Some('i' as i8));
    assert_eq!(seg.convert_data(MSSampleType::Integer32, Err(-7)), Err(MSError::Error(-7)));
    assert_eq!(seg.data(), &floats);
    assert_eq!(seg.convert_data(MSSampleType::Integer32, Ok(vec![1, 0, 0])), Err(MSError::Error(-1)));
    assert_eq!(seg.sampletype(), MSSampleType::Float32);
    assert_eq!(seg.convert_data(MSSampleType::Integer32, Ok(le_bytes(&[1, -2]))), Ok(()));
    assert_eq!(seg.sampletype(), MSSampleType::Integer32);
    assert_eq!(seg.to_vec_i32(), Some(vec![1, -2]));
}

#[test]
fn channel_fields() {
    let ch = channel(vec![int_segment(&[1]), int_segment(&[2, 3])]);
    assert_eq!(ch.network(), "XX");
    assert_eq!(ch.station(), "STA");
    assert_eq!(ch.location(), "");
    assert_eq!(ch.channel(), "BHZ");
    assert_eq!(ch.id(), "XX_STA__BHZ");
    assert_eq!(ch.pubversion(), 1);
    assert_eq!(ch.numsegments(), 2);
    assert_eq!(ch.segments()[1].to_vec_i32(), Some(vec![2, 3]));
    assert_eq!(ch.start_time(), nstime_to_time(&parts(2020, 1)).unwrap());
    assert_eq!(ch.end_time(), nstime_to_time(&parts(2020, 2)).unwrap());
    let ident = Nslc::from_fields("", "", "", "");
    assert!(MSTraceID::new(String::new(), ident, parts(2019, 366), parts(2020, 1), 1, vec![]).is_none());
}

#[test]
fn archive_load_and_traverse() {
    let mut tl = MSTraceList::new("./tests/multiple.seed");
    assert!(!tl.is_loaded());
    assert_eq!(tl.read(vec![channel(vec![int_segment(&[-47237, -47304])])]), Ok(()));
    assert!(tl.is_loaded());
    assert_eq!(tl.numtraces(), 1);
    let first: Vec<i32> = tl.traces()[0].segments()[0].to_vec_i32().unwrap();
    assert_eq!(first, vec![-47237, -47304]);
    assert_eq!(tl.traces().len(), tl.traces().len());
}

#[test]
fn archive_segment_conversion() {
    let floats: Vec<u8> = [3.0f64].iter().flat_map(|f| f.to_le_bytes()).collect();
    let seg = MSTraceSegment::new(parts(2020, 1), parts(2020, 1), 1, 1, b'd' as i8, floats).unwrap();
    let mut tl = MSTraceList::new("x.seed");
    tl.read(vec![channel(vec![int_segment(&[9]), seg])]).unwrap();
    assert_eq!(tl.convert_segment(0, 1, MSSampleType::Integer32, Ok(le_bytes(&[3]))), Ok(()));
    assert_eq!(tl.traces()[0].segments()[1].to_vec_i32(), Some(vec![3]));
    assert_eq!(tl.traces()[0].segments()[0].to_vec_i32(), Some(vec![9]));
}

#[test]
fn channel_rejects_inconsistent_segments() {
    let ident = || Nslc::from_fields("XX", "STA", "", "BHZ");
    assert!(MSTraceID::new(String::new(), ident(), parts(2020, 1), parts(2020, 2), 1, vec![]).is_none());
    let late = MSTraceSegment::new(parts(2020, 5), parts(2020, 6), 0, 0, b'i' as i8, vec![]).unwrap();
    let early = MSTraceSegment::new(parts(2020, 1), parts(2020, 2), 0, 0, b'i' as i8, vec![]).unwrap();
    assert!(MSTraceID::new(String::new(), ident(), parts(2020, 5), parts(2020, 6), 1, vec![late, early]).is_none());
    let a = MSTraceSegment::new(parts(2020, 1), parts(2020, 2), 0, 0, b'i' as i8, vec![]).unwrap();
    let b = MSTraceSegment::new(parts(2020, 5), parts(2020, 6), 0, 0, b'i' as i8, vec![]).unwrap();
    let ch = MSTraceID::new(String::new(), ident(), parts(2020, 1), parts(2020, 6), 1, vec![a, b]).unwrap();
    assert_eq!(ch.numsegments(), 2);
    let a = MSTraceSegment::new(parts(2020, 1), parts(2020, 2), 0, 0, b'i' as i8, vec![]).unwrap();
    assert!(MSTraceID::new(String::new(), ident(), parts(2020, 1), parts(2020, 3), 1, vec![a]).is_none());
    assert!(MSTraceSegment::new(parts(2020, 2), parts(2020, 1), 0, 0, b'i' as i8, vec![]).is_none());
}

#[test]
fn archive_rejects_duplicate_identities() {
    let mut tl = MSTraceList::new("x.seed");
    let r = tl.read(vec![channel(vec![int_segment(&[1])]), channel(vec![int_segment(&[2])])]);
    assert_eq!(r, Err(MSError::Error(-1)));
    assert!(!tl.is_loaded());
}
