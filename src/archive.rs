use vstd::prelude::*;
use crate::error::DownloadError;
use crate::text::{base_name, concat, file_name, str_eq};

verus! {

/// The payload of a gzip stream, or `None` when it is not valid gzip.
pub uninterp spec fn gunzip_of(data: Seq<u8>) -> Option<Seq<u8>>;

/// The (path, contents) of each entry of a tar stream, in order, up to the
/// first entry that cannot be read; and whether the whole stream was read.
pub uninterp spec fn tar_members_of(data: Seq<u8>) -> (Seq<(Seq<char>, Seq<u8>)>, bool);

/// The (name, contents) of each entry of a zip archive, in central-directory
/// order, up to the first entry that cannot be read; and whether every entry
/// was read.
pub uninterp spec fn zip_members_of(data: Seq<u8>) -> (Seq<(Seq<char>, Seq<u8>)>, bool);

/// One file held in an archive.
pub struct ArchiveEntry {
    pub name: String,
    pub contents: Vec<u8>,
}

pub open spec fn entries_view(es: Seq<ArchiveEntry>) -> Seq<(Seq<char>, Seq<u8>)> {
    es.map_values(|e: ArchiveEntry| (e.name@, e.contents@))
}

/// Relies on flate2::read::GzDecoder: the decompressed payload of a gzip stream.
#[verifier::external_body]
fn gunzip(data: &[u8]) -> (r: Option<Vec<u8>>)
    ensures
        match r {
            Some(v) => gunzip_of(data@) == Some(v@),
            None => gunzip_of(data@) is None,
        },
{
    let mut out = Vec::new();
    std::io::Read::read_to_end(&mut flate2::read::GzDecoder::new(data), &mut out).ok()?;
    Some(out)
}

/// Relies on tar::Archive::entries and Entry::path_bytes: each entry's path
/// (invalid UTF-8 replaced) and contents, in order, until one fails to read.
#[verifier::external_body]
fn tar_members(data: &[u8]) -> (r: (Vec<ArchiveEntry>, bool))
    ensures
        tar_members_of(data@) == (entries_view(r.0@), r.1),
{
    let mut out = Vec::new();
    let complete = (|| -> Option<()> {
        for entry in tar::Archive::new(data).entries().ok()? {
            let mut entry = entry.ok()?;
            let name = String::from_utf8_lossy(&entry.path_bytes()).into_owned();
            let mut contents = Vec::new();
            std::io::Read::read_to_end(&mut entry, &mut contents).ok()?;
            out.push(ArchiveEntry { name, contents });
        }
        Some(())
    })().is_some();
    (out, complete)
}

/// Relies on zip::ZipArchive::by_index: each entry's name and contents, by
/// index, until one fails to read.
#[verifier::external_body]
fn zip_members(data: &[u8]) -> (r: (Vec<ArchiveEntry>, bool))
    ensures
        zip_members_of(data@) == (entries_view(r.0@), r.1),
{
    let mut out = Vec::new();
    let complete = (|| -> Option<()> {
        let mut archive = zip::ZipArchive::new(std::io::Cursor::new(data)).ok()?;
        for i in 0..archive.len() {
            let mut file = archive.by_index(i).ok()?;
            let name = file.name().ok()?.into_owned();
            let mut contents = Vec::new();
            std::io::Read::read_to_end(&mut file, &mut contents).ok()?;
            out.push(ArchiveEntry { name, contents });
        }
        Some(())
    })().is_some();
    (out, complete)
}

/// The two archive formats in which release assets come.
#[derive(Debug, Clone, Copy, PartialEq, Eq, Structural)]
pub enum ArchiveFormat {
    /// A gzip-compressed tar stream.
    TarGz,
    /// A zip archive.
    Zip,
}

/// The entries of an archive of the given format that can be read, in order,
/// and whether the whole archive could be read.
pub open spec fn members_of(format: ArchiveFormat, data: Seq<u8>) -> (
    Seq<(Seq<char>, Seq<u8>)>,
    bool,
) {
    match format {
        ArchiveFormat::TarGz => match gunzip_of(data) {
            Some(t) => tar_members_of(t),
            None => (seq![], false),
        },
        ArchiveFormat::Zip => zip_members_of(data),
    }
}

/// Whether an entry path names the wanted member: its base name equals the
/// member's name, or, in a zip archive, that name with the binary suffix.
pub open spec fn names_member(
    format: ArchiveFormat,
    path: Seq<char>,
    member: Seq<char>,
    suffix: Seq<char>,
) -> bool {
    base_name(path) == member || (format == ArchiveFormat::Zip && base_name(path) == member
        + suffix)
}

/// `i` is the first entry that names the member.
pub open spec fn is_first_member(
    es: Seq<(Seq<char>, Seq<u8>)>,
    format: ArchiveFormat,
    member: Seq<char>,
    suffix: Seq<char>,
    i: int,
) -> bool {
    0 <= i < es.len() && names_member(format, es[i].0, member, suffix) && forall|j: int|
        0 <= j < i ==> !names_member(format, #[trigger] es[j].0, member, suffix)
}

pub open spec fn holds_member(
    es: Seq<(Seq<char>, Seq<u8>)>,
    format: ArchiveFormat,
    member: Seq<char>,
    suffix: Seq<char>,
) -> bool {
    exists|i: int| 0 <= i < es.len() && names_member(format, #[trigger] es[i].0, member, suffix)
}

/// What extracting `member` from an archive of the given format returns: the
/// contents of the first entry that names it, among the entries read before
/// any unreadable one; else `InvalidArchive` when part of the archive could
/// not be read; else `MemberNotFound`.
pub open spec fn extracted(
    format: ArchiveFormat,
    data: Seq<u8>,
    member: Seq<char>,
    suffix: Seq<char>,
    r: Result<Vec<u8>, DownloadError>,
) -> bool {
    let (es, complete) = members_of(format, data);
    if holds_member(es, format, member, suffix) {
        r matches Ok(c) && exists|i: int|
            is_first_member(es, format, member, suffix, i) && c@ == es[i].1
    } else if complete {
        r matches Err(DownloadError::MemberNotFound(m)) && m@ == member
    } else {
        r matches Err(DownloadError::InvalidArchive)
    }
}

impl ArchiveFormat {
    /// The format for an archive extension; `UnsupportedArchiveFormat` for any
    /// tag but `.tar.gz` and `.zip`.
    pub fn from_extension(ext: &str) -> (r: Result<ArchiveFormat, DownloadError>)
        ensures
            ext@ == ".tar.gz"@ ==> r == Ok::<ArchiveFormat, DownloadError>(ArchiveFormat::TarGz),
            ext@ == ".zip"@ ==> r == Ok::<ArchiveFormat, DownloadError>(ArchiveFormat::Zip),
            ext@ != ".tar.gz"@ && ext@ != ".zip"@ ==> (r matches Err(
                DownloadError::UnsupportedArchiveFormat(t),
            ) && t@ == ext@),
    {
        proof {
            reveal_strlit(".tar.gz");
            reveal_strlit(".zip");
            assert(".zip"@.len() != ".tar.gz"@.len());
        }
        if str_eq(ext, ".tar.gz") {
            Ok(ArchiveFormat::TarGz)
        } else if str_eq(ext, ".zip") {
            Ok(ArchiveFormat::Zip)
        } else {
            Err(DownloadError::UnsupportedArchiveFormat(String::from_str(ext)))
        }
    }
}

/// Index of the first entry that names the member.
fn find_member(es: &Vec<ArchiveEntry>, format: ArchiveFormat, member: &str, suffix: &str) -> (r:
    Option<usize>)
    ensures
        match r {
            Some(i) => is_first_member(entries_view(es@), format, member@, suffix@, i as int),
            None => !holds_member(entries_view(es@), format, member@, suffix@),
        },
{
    let ghost v = entries_view(es@);
    let with_suffix = concat(member, suffix);
    let zip = match format {
        ArchiveFormat::Zip => true,
        ArchiveFormat::TarGz => false,
    };
    let mut i: usize = 0;
    while i < es.len()
        invariant
            v == entries_view(es@),
            with_suffix@ == member@ + suffix@,
            zip == (format == ArchiveFormat::Zip),
            i <= es.len(),
            forall|j: int| 0 <= j < i ==> !names_member(format, #[trigger] v[j].0, member@, suffix@),
        decreases es.len() - i,
    {
        let base = file_name(es[i].name.as_str());
        assert(v[i as int].0 == es@[i as int].name@);
        if str_eq(base, member) || (zip && str_eq(base, with_suffix.as_str())) {
            return Some(i);
        }
        i += 1;
    }
    None
}

/// The contents of the first entry of the archive that names `member` (in a
/// zip archive, `member` with `suffix` appended counts too).
pub fn extract_member(data: &[u8], format: ArchiveFormat, member: &str, suffix: &str) -> (r:
    Result<Vec<u8>, DownloadError>)
    ensures
        extracted(format, data@, member@, suffix@, r),
{
    let (es, complete) = match format {
        ArchiveFormat::TarGz => match gunzip(data) {
            Some(t) => tar_members(t.as_slice()),
            None => (Vec::new(), false),
        },
        ArchiveFormat::Zip => zip_members(data),
    };
    proof {
        assert(entries_view(Seq::<ArchiveEntry>::empty()) =~= seq![]);
    }
    match find_member(&es, format, member, suffix) {
        Some(i) => {
            let ghost v = entries_view(es@);
            let mut es = es;
            let e = es.swap_remove(i);
            assert(e.contents@ == v[i as int].1);
            Ok(e.contents)
        },
        None => if complete {
            Err(DownloadError::MemberNotFound(String::from_str(member)))
        } else {
            Err(DownloadError::InvalidArchive)
        },
    }
}

/// Extraction by archive extension tag: `UnsupportedArchiveFormat` for an
/// unknown tag, else as `extract_member`.
pub fn extract(data: &[u8], ext: &str, member: &str, suffix: &str) -> (r: Result<
    Vec<u8>,
    DownloadError,
>)
    ensures
        ext@ == ".tar.gz"@ ==> extracted(ArchiveFormat::TarGz, data@, member@, suffix@, r),
        ext@ == ".zip"@ ==> extracted(ArchiveFormat::Zip, data@, member@, suffix@, r),
        ext@ != ".tar.gz"@ && ext@ != ".zip"@ ==> (r matches Err(
            DownloadError::UnsupportedArchiveFormat(t),
        ) && t@ == ext@),
{
    let format = ArchiveFormat::from_extension(ext)?;
    extract_member(data, format, member, suffix)
}

} // verus!
