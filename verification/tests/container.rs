//! Container-level tests: directory decoding, property lists, image
//! sections, and every structural-corruption site.

use x3f_time::cursor::X3fReader;
use x3f_time::error::{FormatReason, IoReason, X3fError};
use x3f_time::props::extract_utf16_string;
use x3f_time::reader::read_x3f_time;
use x3f_time::resolve::Provenance;

fn le32(v: u32) -> [u8; 4] {
    v.to_le_bytes()
}

fn utf16(s: &str) -> Vec<u16> {
    s.encode_utf16().collect()
}

/// A property-list section body: header, counts, entry pairs, code units.
fn prop_section(entries: &[(u32, u32)], units: &[u16]) -> Vec<u8> {
    let mut b = b"SECp".to_vec();
    b.extend(le32(0x20000));
    b.extend(le32(entries.len() as u32));
    b.extend(le32(0));
    b.extend(le32(0));
    b.extend(le32(units.len() as u32));
    for (n, v) in entries {
        b.extend(le32(*n));
        b.extend(le32(*v));
    }
    for u in units {
        b.extend(u.to_le_bytes());
    }
    b
}

/// An image section body with the given header fields and payload.
fn image_section(image_type: u32, data_format: u32, payload: &[u8]) -> Vec<u8> {
    let mut b = b"SECi".to_vec();
    b.extend(le32(0x20000));
    b.extend(le32(image_type));
    b.extend(le32(data_format));
    b.extend(le32(640));
    b.extend(le32(480));
    b.extend(le32(1920));
    b.extend(payload);
    b
}

/// A whole container: header, the given sections, a directory listing them
/// in order, and the trailer.
fn build_container(sections: &[([u8; 4], Vec<u8>)]) -> Vec<u8> {
    let mut data = b"FOVb".to_vec();
    data.extend(le32(0x20000));
    let mut entries: Vec<(u32, u32, [u8; 4])> = Vec::new();
    for (tag, body) in sections {
        entries.push((data.len() as u32, body.len() as u32, *tag));
        data.extend(body);
    }
    let dir_off = data.len() as u32;
    data.extend(b"SECd");
    data.extend(le32(0x20000));
    data.extend(le32(entries.len() as u32));
    for (off, len, tag) in &entries {
        data.extend(le32(*off));
        data.extend(le32(*len));
        data.extend(tag);
    }
    data.extend(le32(dir_off));
    data
}

fn reader_for(data: Vec<u8>) -> X3fReader {
    X3fReader {
        data,
        pos: 0,
        properties: Vec::new(),
        exif_datetime: None,
        exif_offset: None,
        from_tz: None,
    }
}

#[test]
fn directory_entries_in_disk_order() {
    let sections = vec![
        (*b"CAMF", vec![1, 2, 3]),
        (*b"XXXX", vec![9; 10]),
        (*b"YYYY", vec![]),
    ];
    let data = build_container(&sections);
    let mut r = reader_for(data);
    r.check_identifier().unwrap();
    let entries = r.read_directory_entries().unwrap();
    assert_eq!(entries.len(), 3);
    assert_eq!(entries[0].name, b"CAMF".to_vec());
    assert_eq!(entries[0].offset, 8);
    assert_eq!(entries[0].length, 3);
    assert_eq!(entries[1].name, b"XXXX".to_vec());
    assert_eq!(entries[1].offset, 11);
    assert_eq!(entries[1].length, 10);
    assert_eq!(entries[2].name, b"YYYY".to_vec());
    assert_eq!(entries[2].offset, 21);
    assert_eq!(entries[2].length, 0);
}

#[test]
fn property_list_round_trip_non_contiguous() {
    // four texts laid out value-first and with gaps: entries index the
    // shared buffer, they do not split it sequentially
    let mut units: Vec<u16> = Vec::new();
    let v1_off = units.len() as u32;
    units.extend(utf16("1500000000"));
    units.push(0);
    units.push(0xABCD); // junk between texts, reachable from no entry
    let n2_off = units.len() as u32;
    units.extend(utf16("LENS"));
    units.push(0);
    let n1_off = units.len() as u32;
    units.extend(utf16("TIME"));
    units.push(0);
    let v2_off = units.len() as u32;
    units.extend(utf16("30mm F1.4"));
    units.push(0);
    let body = prop_section(&[(n1_off, v1_off), (n2_off, v2_off)], &units);
    let data = build_container(&[(*b"PROP", body)]);
    let mut r = reader_for(data);
    let props = r.read_property_list(8).unwrap();
    assert_eq!(props.len(), 2);
    assert_eq!(props[0].name, "TIME");
    assert_eq!(props[0].value, "1500000000");
    assert_eq!(props[1].name, "LENS");
    assert_eq!(props[1].value, "30mm F1.4");
}

#[test]
fn property_offsets_out_of_range_decode_empty() {
    let mut units: Vec<u16> = utf16("OK");
    units.push(0);
    // name offset far outside the buffer, value fine
    let body = prop_section(&[(500, 0)], &units);
    let data = build_container(&[(*b"PROP", body)]);
    let mut r = reader_for(data);
    let props = r.read_property_list(8).unwrap();
    assert_eq!(props.len(), 1);
    assert_eq!(props[0].name, "");
    assert_eq!(props[0].value, "OK");
}

#[test]
fn property_text_without_terminator_runs_to_end() {
    let units = utf16("END"); // no NUL anywhere
    let body = prop_section(&[(0, 1)], &units);
    let data = build_container(&[(*b"PROP", body)]);
    let mut r = reader_for(data);
    let props = r.read_property_list(8).unwrap();
    assert_eq!(props[0].name, "END");
    assert_eq!(props[0].value, "ND");
}

#[test]
fn extract_utf16_string_edges() {
    let buf: Vec<u16> = vec![0x41, 0x42, 0, 0x43];
    assert_eq!(extract_utf16_string(&buf, 0), "AB");
    assert_eq!(extract_utf16_string(&buf, 2), "");
    assert_eq!(extract_utf16_string(&buf, 3), "C");
    assert_eq!(extract_utf16_string(&buf, 4), "");
    assert_eq!(extract_utf16_string(&buf, 100), "");
    // an unpaired surrogate is invalid UTF-16: the fallback is empty
    let bad: Vec<u16> = vec![0xD800, 0x41];
    assert_eq!(extract_utf16_string(&bad, 0), "");
}

#[test]
fn non_thumbnail_image_reads_no_payload() {
    // the file ends right after the 28-byte image header: if the reader
    // consumed any payload byte for a non-thumbnail image, decoding failed
    let body = image_section(1, 5, &[]);
    let data = build_container(&[(*b"IMA2", body)]);
    let mut r = reader_for(data);
    // the directory entry claims a huge section; only the header exists
    let img = r.read_image(8, 1_000_000).unwrap();
    assert_eq!(img.image_type, 1);
    assert_eq!(img.data_format, 5);
    assert_eq!(img.columns, 640);
    assert_eq!(img.rows, 480);
    assert_eq!(img.row_stride, 1920);
    assert!(img.data.is_empty());
    assert!(!img.is_jpeg_thumbnail());
    assert_eq!(r.pos, 8 + 28);
}

#[test]
fn thumbnail_image_reads_exact_payload() {
    let payload = [0xFFu8, 0xD8, 0xFF, 0xE1, 1, 2, 3];
    let body = image_section(2, 18, &payload);
    let data = build_container(&[(*b"IMA2", body)]);
    let mut r = reader_for(data);
    let img = r.read_image(8, 28 + payload.len() as u32).unwrap();
    assert!(img.is_jpeg_thumbnail());
    assert_eq!(img.data, payload.to_vec());
}

#[test]
fn thumbnail_shorter_than_header_is_format_error() {
    let body = image_section(2, 18, &[]);
    let data = build_container(&[(*b"IMA2", body)]);
    let mut r = reader_for(data);
    let err = r.read_image(8, 27).unwrap_err();
    assert_eq!(err, X3fError::Format(FormatReason::ImageLengthUnderflow));
}

#[test]
fn unparseable_thumbnail_payload_is_not_fatal() {
    // a JPEG thumbnail whose payload the metadata reader cannot parse:
    // the file still decodes, with no embedded metadata
    let payload = [0u8; 64];
    let mut body = image_section(2, 18, &payload);
    body.truncate(28 + payload.len());
    let data = build_container(&[(*b"IMA2", body)]);
    let result = read_x3f_time(data, None).unwrap();
    assert!(result.is_none());
}

#[test]
fn end_to_end_device_clock_fixture() {
    // header, trailer, one directory entry of tag PROP with a single
    // property TIME = "1500000000", no image entries
    let mut units: Vec<u16> = Vec::new();
    let n_off = units.len() as u32;
    units.extend(utf16("TIME"));
    units.push(0);
    let v_off = units.len() as u32;
    units.extend(utf16("1500000000"));
    units.push(0);
    let body = prop_section(&[(n_off, v_off)], &units);
    let data = build_container(&[(*b"PROP", body)]);
    let resolved = read_x3f_time(data, None).unwrap().unwrap();
    assert_eq!(resolved.provenance, Provenance::DeviceClock);
    // 1,500,000,000 s after the epoch is 2017-07-14T02:40:00Z exactly
    assert_eq!(resolved.epoch_seconds, 1_500_000_000);
}

#[test]
fn negative_device_clock_value() {
    let mut units: Vec<u16> = Vec::new();
    units.extend(utf16("TIME"));
    units.push(0);
    let v_off = units.len() as u32;
    units.extend(utf16("-86400"));
    units.push(0);
    let body = prop_section(&[(0, v_off)], &units);
    let data = build_container(&[(*b"PROP", body)]);
    let resolved = read_x3f_time(data, None).unwrap().unwrap();
    assert_eq!(resolved.epoch_seconds, -86_400);
    assert_eq!(resolved.provenance, Provenance::DeviceClock);
}

#[test]
fn corrupt_container_magic() {
    let mut data = build_container(&[]);
    data[0] = b'G';
    assert_eq!(
        read_x3f_time(data, None).unwrap_err(),
        X3fError::Format(FormatReason::ContainerMagic)
    );
}

#[test]
fn corrupt_directory_magic() {
    let sections = [(*b"CAMF", vec![0u8; 4])];
    let mut data = build_container(&sections);
    let dir_off = 8 + 4; // header + one section body
    data[dir_off] = b'Z';
    assert_eq!(
        read_x3f_time(data, None).unwrap_err(),
        X3fError::Format(FormatReason::DirectoryMagic)
    );
}

#[test]
fn corrupt_directory_version() {
    let mut data = build_container(&[]);
    let dir_off = 8;
    data[dir_off + 4] = 0xFF;
    assert_eq!(
        read_x3f_time(data, None).unwrap_err(),
        X3fError::Format(FormatReason::DirectoryVersion)
    );
}

#[test]
fn corrupt_property_magic() {
    let body = prop_section(&[], &[]);
    let mut data = build_container(&[(*b"PROP", body)]);
    data[8] = b'Q';
    assert_eq!(
        read_x3f_time(data, None).unwrap_err(),
        X3fError::Format(FormatReason::PropertyMagic)
    );
}

#[test]
fn corrupt_property_version() {
    let body = prop_section(&[], &[]);
    let mut data = build_container(&[(*b"PROP", body)]);
    data[8 + 4] = 0xFF;
    assert_eq!(
        read_x3f_time(data, None).unwrap_err(),
        X3fError::Format(FormatReason::PropertyVersion)
    );
}

#[test]
fn unsupported_property_encoding() {
    let mut body = prop_section(&[], &[]);
    body[12] = 7; // encoding code != 0
    let data = build_container(&[(*b"PROP", body)]);
    assert_eq!(
        read_x3f_time(data, None).unwrap_err(),
        X3fError::Format(FormatReason::PropertyEncoding)
    );
}

#[test]
fn corrupt_image_magic() {
    let body = image_section(1, 5, &[]);
    let mut data = build_container(&[(*b"IMA2", body)]);
    data[8] = b'W';
    assert_eq!(
        read_x3f_time(data, None).unwrap_err(),
        X3fError::Format(FormatReason::ImageMagic)
    );
}

#[test]
fn corrupt_image_version() {
    let body = image_section(1, 5, &[]);
    let mut data = build_container(&[(*b"IMA2", body)]);
    data[8 + 5] = 0xEE;
    assert_eq!(
        read_x3f_time(data, None).unwrap_err(),
        X3fError::Format(FormatReason::ImageVersion)
    );
}

#[test]
fn truncated_stream_is_io_error() {
    assert_eq!(
        read_x3f_time(vec![b'F', b'O'], None).unwrap_err(),
        X3fError::Io(IoReason::UnexpectedEof)
    );
    assert_eq!(read_x3f_time(Vec::new(), None).unwrap_err(), X3fError::Io(IoReason::UnexpectedEof));
}

#[test]
fn trailer_pointing_past_end_is_io_error() {
    let mut data = build_container(&[]);
    let n = data.len();
    data[n - 4..].copy_from_slice(&le32(0xFFFF_0000));
    assert_eq!(
        read_x3f_time(data, None).unwrap_err(),
        X3fError::Io(IoReason::SeekPastEnd)
    );
}

#[test]
fn properties_and_lookup_after_decode() {
    let mut units: Vec<u16> = Vec::new();
    units.extend(utf16("TIME"));
    units.push(0);
    let v_off = units.len() as u32;
    units.extend(utf16("42"));
    units.push(0);
    let body = prop_section(&[(0, v_off)], &units);
    let data = build_container(&[(*b"PROP", body)]);
    let reader = X3fReader::new(data, None).unwrap();
    assert_eq!(reader.get_property("TIME"), Some(&"42".to_string()));
    assert_eq!(reader.get_property("LENS"), None);
    // duplicate names: the first occurrence wins
    assert_eq!(reader.properties.len(), 1);
}

#[test]
fn duplicate_property_names_first_wins() {
    let mut units: Vec<u16> = Vec::new();
    units.extend(utf16("TIME"));
    units.push(0);
    let v1 = units.len() as u32;
    units.extend(utf16("1"));
    units.push(0);
    let v2 = units.len() as u32;
    units.extend(utf16("2"));
    units.push(0);
    let body = prop_section(&[(0, v1), (0, v2)], &units);
    let data = build_container(&[(*b"PROP", body)]);
    let reader = X3fReader::new(data, None).unwrap();
    assert_eq!(reader.get_property("TIME"), Some(&"1".to_string()));
}
