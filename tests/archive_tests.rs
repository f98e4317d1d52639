use std::io::Write;

use saorsa_cli::archive::{extract, extract_member, ArchiveFormat};
use saorsa_cli::error::DownloadError;

fn targz(entries: &[(&str, &[u8])]) -> Vec<u8> {
    let gz = flate2::write::GzEncoder::new(Vec::new(), flate2::Compression::default());
    let mut builder = tar::Builder::new(gz);
    for (name, data) in entries {
        let mut header = tar::Header::new_gnu();
        header.set_size(data.len() as u64);
        header.set_mode(0o755);
        header.set_cksum();
        builder.append_data(&mut header, name, *data).unwrap();
    }
    builder.into_inner().unwrap().finish().unwrap()
}

fn zipped(entries: &[(&str, &[u8])]) -> Vec<u8> {
    let mut writer = zip::ZipWriter::new(std::io::Cursor::new(Vec::new()));
    for (name, data) in entries {
        writer
            .start_file(*name, zip::write::SimpleFileOptions::default())
            .unwrap();
        writer.write_all(data).unwrap();
    }
    writer.finish().unwrap().into_inner()
}

#[test]
fn tar_gz_round_trip() {
    let content: Vec<u8> = (0..5000u32).map(|i| (i * 7 % 251) as u8).collect();
    let archive = targz(&[("README.md", b"readme"), ("toolX", &content)]);
    let out = extract_member(&archive, ArchiveFormat::TarGz, "toolX", "").unwrap();
    assert_eq!(out, content);
}

#[test]
fn zip_round_trip() {
    let content: Vec<u8> = (0..5000u32).map(|i| (i * 13 % 241) as u8).collect();
    let archive = zipped(&[("LICENSE", b"license"), ("toolX", &content)]);
    let out = extract_member(&archive, ArchiveFormat::Zip, "toolX", ".exe").unwrap();
    assert_eq!(out, content);
}

#[test]
fn member_is_matched_by_base_name() {
    let archive = targz(&[("dist/bin/tool", b"nested")]);
    assert_eq!(
        extract(&archive, ".tar.gz", "tool", "").unwrap(),
        b"nested".to_vec()
    );
}

#[test]
fn first_matching_member_wins() {
    let archive = targz(&[("a/tool", b"first"), ("b/tool", b"second")]);
    assert_eq!(
        extract_member(&archive, ArchiveFormat::TarGz, "tool", "").unwrap(),
        b"first".to_vec()
    );
}

#[test]
fn zip_accepts_member_with_binary_suffix() {
    let archive = zipped(&[("tool.exe", b"windows binary")]);
    assert_eq!(
        extract(&archive, ".zip", "tool", ".exe").unwrap(),
        b"windows binary".to_vec()
    );
}

#[test]
fn tar_does_not_accept_binary_suffix() {
    let archive = targz(&[("tool.exe", b"x")]);
    assert!(matches!(
        extract_member(&archive, ArchiveFormat::TarGz, "tool", ".exe"),
        Err(DownloadError::MemberNotFound(m)) if m == "tool"
    ));
}

#[test]
fn missing_member_is_reported() {
    let archive = zipped(&[("other", b"x")]);
    assert!(matches!(
        extract(&archive, ".zip", "tool", ""),
        Err(DownloadError::MemberNotFound(m)) if m == "tool"
    ));
}

#[test]
fn corrupt_archive_is_reported() {
    assert!(matches!(
        extract_member(b"not an archive", ArchiveFormat::TarGz, "tool", ""),
        Err(DownloadError::InvalidArchive)
    ));
    assert!(matches!(
        extract_member(b"not an archive", ArchiveFormat::Zip, "tool", ""),
        Err(DownloadError::InvalidArchive)
    ));
}

#[test]
fn unknown_format_is_refused() {
    assert!(matches!(
        extract(b"", ".rar", "tool", ""),
        Err(DownloadError::UnsupportedArchiveFormat(f)) if f == ".rar"
    ));
    assert_eq!(ArchiveFormat::from_extension(".zip"), Ok(ArchiveFormat::Zip));
    assert_eq!(ArchiveFormat::from_extension(".tar.gz"), Ok(ArchiveFormat::TarGz));
}

#[test]
fn member_is_matched_after_backslash() {
    let archive = zipped(&[("dist\\tool.exe", b"win")]);
    assert_eq!(extract(&archive, ".zip", "tool", ".exe").unwrap(), b"win".to_vec());
}

fn damage_second_local_header(mut archive: Vec<u8>) -> Vec<u8> {
    let sig = [0x50u8, 0x4b, 0x03, 0x04];
    let second = archive
        .windows(4)
        .enumerate()
        .filter(|(_, w)| *w == sig)
        .map(|(i, _)| i)
        .nth(1)
        .unwrap();
    archive[second] = 0;
    archive
}

#[test]
fn damaged_entry_after_member_does_not_matter() {
    let archive = damage_second_local_header(zipped(&[("tool", b"good"), ("later", b"x")]));
    assert_eq!(extract(&archive, ".zip", "tool", "").unwrap(), b"good".to_vec());
    assert!(matches!(
        extract(&archive, ".zip", "later", ""),
        Err(DownloadError::InvalidArchive)
    ));
}
