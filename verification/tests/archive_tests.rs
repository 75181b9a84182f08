use email_image::archive::{do_unzip, ArchiveError};
use email_image::bytes::join_buffers;
use std::io::{Cursor, Write};
use zip::write::SimpleFileOptions;
use zip::{CompressionMethod, ZipWriter};

fn package(entries: &[(&str, &[u8])], method: CompressionMethod) -> Vec<u8> {
    let mut writer = ZipWriter::new(Cursor::new(Vec::new()));
    let options = SimpleFileOptions::default().compression_method(method);
    for (name, content) in entries {
        writer.start_file(*name, options).unwrap();
        writer.write_all(content).unwrap();
    }
    writer.finish().unwrap().into_inner()
}

fn sample(len: usize, seed: u8) -> Vec<u8> {
    (0..len).map(|i| (i as u8).wrapping_mul(31).wrapping_add(seed)).collect()
}

#[test]
fn single_entry_comes_out_byte_for_byte() {
    let content = sample(5000, 7);
    let bytes = package(&[("font.ttf", &content)], CompressionMethod::Deflated);
    assert_eq!(do_unzip(bytes), Ok(content));
}

#[test]
fn single_stored_entry_comes_out_byte_for_byte() {
    let content = sample(300, 1);
    let bytes = package(&[("font.ttf", &content)], CompressionMethod::Stored);
    assert_eq!(do_unzip(bytes), Ok(content));
}

#[test]
fn extraction_is_not_the_package_itself() {
    let content = vec![0u8; 4096];
    let bytes = package(&[("zeros.bin", &content)], CompressionMethod::Deflated);
    assert_ne!(bytes, content);
    assert!(bytes.len() < content.len());
    assert_eq!(do_unzip(bytes), Ok(content));
}

#[test]
fn entries_are_joined_in_archive_order() {
    let first = sample(10, 3);
    let second = sample(20, 9);
    let third: Vec<u8> = Vec::new();
    let fourth = sample(5, 200);
    let bytes = package(
        &[("b.ttf", &first), ("a.ttf", &second), ("empty", &third), ("c.ttf", &fourth)],
        CompressionMethod::Deflated,
    );
    let mut expected = first.clone();
    expected.extend_from_slice(&second);
    expected.extend_from_slice(&fourth);
    assert_eq!(do_unzip(bytes), Ok(expected));
}

#[test]
fn package_without_entries_gives_no_bytes() {
    let bytes = package(&[], CompressionMethod::Stored);
    assert_eq!(do_unzip(bytes), Ok(Vec::new()));
}

#[test]
fn bytes_that_are_no_archive_are_corrupt() {
    assert_eq!(do_unzip(Vec::new()), Err(ArchiveError::Corrupt));
    assert_eq!(do_unzip(b"this is no archive at all".to_vec()), Err(ArchiveError::Corrupt));
    assert_eq!(do_unzip(vec![0u8; 1000]), Err(ArchiveError::Corrupt));
}

#[test]
fn truncated_package_is_corrupt() {
    let content = sample(100, 5);
    let mut bytes = package(&[("font.ttf", &content)], CompressionMethod::Stored);
    bytes.truncate(bytes.len() - 10);
    assert_eq!(do_unzip(bytes), Err(ArchiveError::Corrupt));
}

#[test]
fn damaged_entry_is_a_read_failure() {
    let content = sample(64, 11);
    let mut bytes = package(&[("font.ttf", &content)], CompressionMethod::Stored);
    let at = bytes.windows(content.len()).position(|w| w == &content[..]).unwrap();
    bytes[at + 5] ^= 0xff;
    assert_eq!(do_unzip(bytes), Err(ArchiveError::ReadFailure));
}

#[test]
fn damage_in_a_later_entry_fails_the_whole_extraction() {
    let first = sample(40, 2);
    let second = sample(40, 99);
    let mut bytes = package(&[("a", &first), ("b", &second)], CompressionMethod::Stored);
    let at = bytes.windows(second.len()).position(|w| w == &second[..]).unwrap();
    bytes[at] ^= 0x01;
    assert_eq!(do_unzip(bytes), Err(ArchiveError::ReadFailure));
}

#[test]
fn entry_of_unknown_compression_is_a_read_failure() {
    let content = sample(32, 4);
    let mut bytes = package(&[("font.ttf", &content)], CompressionMethod::Stored);
    // The compression method stands in the central directory header, 10 bytes
    // after its signature.
    let signature = [0x50u8, 0x4b, 0x01, 0x02];
    let at = bytes.windows(4).position(|w| w == signature).unwrap();
    bytes[at + 10] = 77;
    assert_eq!(do_unzip(bytes), Err(ArchiveError::ReadFailure));
}

#[test]
fn buffers_are_joined_without_separators() {
    assert_eq!(join_buffers(&Vec::new()), Vec::<u8>::new());
    assert_eq!(join_buffers(&vec![vec![1u8, 2, 3]]), vec![1u8, 2, 3]);
    assert_eq!(join_buffers(&vec![vec![1u8], vec![], vec![2, 3], vec![4]]), vec![1u8, 2, 3, 4]);
    assert_eq!(join_buffers(&vec![vec![], vec![]]), Vec::<u8>::new());
}

#[test]
fn archive_errors_describe_themselves() {
    assert_eq!(ArchiveError::Corrupt.message(), "The font package is not a valid archive");
    assert_eq!(
        ArchiveError::ReadFailure.message(),
        "An entry of the font package could not be read"
    );
}
