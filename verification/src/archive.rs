//! Extraction of the font file from a downloaded package, a zip archive held
//! in memory.

use vstd::prelude::*;
use vstd::string::*;
use crate::bytes::{join_buffers, lemma_join_of_one, views};

verus! {

/// The archive reader of the `zip` crate. Nothing of its inside is known here.
#[verifier::external_type_specification]
#[verifier::external_body]
#[verifier::reject_recursive_types(R)]
pub struct ExZipArchive<R>(zip::read::ZipArchive<R>);

/// The in-memory reader of the standard library, over which an archive is
/// opened.
#[verifier::external_type_specification]
#[verifier::external_body]
#[verifier::reject_recursive_types(T)]
pub struct ExCursor<T>(std::io::Cursor<T>);

/// The error type of the `zip` crate. It is carried out of the trusted calls
/// and mapped to an [`ArchiveError`] at once.
#[verifier::external_type_specification]
#[verifier::external_body]
pub struct ExZipError(zip::result::ZipError);

/// Why a package could not be extracted.
#[derive(Clone, Copy, Debug, PartialEq, Eq, Structural)]
pub enum ArchiveError {
    /// The bytes are no archive that can be opened.
    Corrupt,
    /// The archive opens, and one of its entries cannot be read in full.
    ReadFailure,
}

impl ArchiveError {
    /// The text that describes this error to the user.
    pub open spec fn message_of(self) -> Seq<char> {
        match self {
            ArchiveError::Corrupt => "The font package is not a valid archive"@,
            ArchiveError::ReadFailure => "An entry of the font package could not be read"@,
        }
    }

    /// The text that describes this error to the user.
    pub fn message(&self) -> (text: String)
        ensures
            text@ == self.message_of(),
    {
        match self {
            ArchiveError::Corrupt => String::from_str("The font package is not a valid archive"),
            ArchiveError::ReadFailure => String::from_str(
                "An entry of the font package could not be read",
            ),
        }
    }
}

/// What an open archive holds: for each entry, in the order of the archive's
/// directory, the entry's decompressed content, or `None` where the entry
/// cannot be read in full.
pub uninterp spec fn archive_entries(archive: zip::read::ZipArchive<std::io::Cursor<Vec<u8>>>) -> Seq<
    Option<Seq<u8>>,
>;

/// What opening `bytes` as an archive gives: the entries of the archive, or
/// `None` where the bytes cannot be opened.
pub uninterp spec fn package_entries(bytes: Seq<u8>) -> Option<Seq<Option<Seq<u8>>>>;

/// Whether every entry can be read in full.
pub open spec fn all_readable(entries: Seq<Option<Seq<u8>>>) -> bool {
    forall|i: int| 0 <= i < entries.len() ==> (#[trigger] entries[i]) is Some
}

/// The contents of the entries, in order.
pub open spec fn payloads(entries: Seq<Option<Seq<u8>>>) -> Seq<Seq<u8>> {
    Seq::new(entries.len(), |i: int| entries[i]->0)
}

/// What extraction gives for the outcome of opening a package: the contents
/// of all entries one after the other, without separators, where the package
/// opens and every entry can be read.
pub open spec fn extraction(directory: Option<Seq<Option<Seq<u8>>>>) -> Result<
    Seq<u8>,
    ArchiveError,
> {
    match directory {
        None => Err(ArchiveError::Corrupt),
        Some(entries) => if all_readable(entries) {
            Ok(payloads(entries).flatten())
        } else {
            Err(ArchiveError::ReadFailure)
        },
    }
}

/// The result of an extraction with the output buffer taken by its view.
pub open spec fn outcome(result: Result<Vec<u8>, ArchiveError>) -> Result<Seq<u8>, ArchiveError> {
    match result {
        Ok(buffer) => Ok(buffer@),
        Err(e) => Err(e),
    }
}

/// Calls `zip::read::ZipArchive::new` on a `std::io::Cursor` over `bytes`.
///
/// Trusted: whether the archive opens, and what its entries then hold,
/// depends on the bytes alone; [`package_entries`] names it.
#[verifier::external_body]
fn open_archive(bytes: Vec<u8>) -> (result: Result<
    zip::read::ZipArchive<std::io::Cursor<Vec<u8>>>,
    zip::result::ZipError,
>)
    ensures
        match result {
            Ok(archive) => package_entries(bytes@) == Some(archive_entries(archive)),
            Err(_) => package_entries(bytes@) is None,
        },
{
    zip::read::ZipArchive::new(std::io::Cursor::new(bytes))
}

/// Calls `zip::read::ZipArchive::len`.
///
/// Trusted: the number returned is the number of entries of the archive.
#[verifier::external_body]
fn entry_count(archive: &zip::read::ZipArchive<std::io::Cursor<Vec<u8>>>) -> (count: usize)
    ensures
        count == archive_entries(*archive).len(),
{
    archive.len()
}

/// Calls `zip::read::ZipArchive::by_index` and reads the entry to its end
/// with `std::io::Read::read_to_end`.
///
/// Trusted: the call succeeds exactly where `index` is that of an entry that
/// can be read in full, and then returns the entry's decompressed content;
/// reading does not change what the archive holds.
#[verifier::external_body]
fn read_entry(archive: &mut zip::read::ZipArchive<std::io::Cursor<Vec<u8>>>, index: usize) -> (result:
    Result<Vec<u8>, zip::result::ZipError>)
    ensures
        archive_entries(*final(archive)) == archive_entries(*old(archive)),
        match result {
            Ok(content) => index < archive_entries(*old(archive)).len() && archive_entries(
                *old(archive),
            )[index as int] == Some(content@),
            Err(_) => index >= archive_entries(*old(archive)).len() || archive_entries(
                *old(archive),
            )[index as int] is None,
        },
{
    let mut entry = archive.by_index(index)?;
    let mut content = Vec::new();
    std::io::Read::read_to_end(&mut entry, &mut content)?;
    Ok(content)
}

/// Reads every entry of `archive`, in order, and stops at the first that
/// cannot be read.
fn read_entries(archive: &mut zip::read::ZipArchive<std::io::Cursor<Vec<u8>>>) -> (result: Result<
    Vec<Vec<u8>>,
    ArchiveError,
>)
    ensures
        archive_entries(*final(archive)) == archive_entries(*old(archive)),
        match result {
            Ok(contents) => all_readable(archive_entries(*old(archive))) && views(contents@)
                == payloads(archive_entries(*old(archive))),
            Err(e) => e == ArchiveError::ReadFailure && !all_readable(
                archive_entries(*old(archive)),
            ),
        },
{
    let ghost entries = archive_entries(*archive);
    let count = entry_count(archive);
    let mut contents: Vec<Vec<u8>> = Vec::new();
    let mut i: usize = 0;
    while i < count
        invariant
            i <= count,
            count == entries.len(),
            entries == archive_entries(*old(archive)),
            archive_entries(*archive) == entries,
            contents@.len() == i,
            forall|k: int| 0 <= k < i ==> (#[trigger] entries[k]) == Some(contents@[k]@),
        decreases count - i,
    {
        match read_entry(archive, i) {
            Ok(content) => {
                contents.push(content);
            },
            Err(_) => {
                assert(entries[i as int] is None);
                return Err(ArchiveError::ReadFailure);
            },
        }
        i += 1;
    }
    assert(views(contents@) =~= payloads(entries));
    Ok(contents)
}

/// Extracts the font file from a package.
///
/// Opens `bytes` as a zip archive and returns the decompressed contents of
/// all its entries, joined in the archive's order. For an archive of one
/// entry, which is what the provider sends, that is the entry's content; an
/// archive of several is not narrowed to one of them. Fails with [`ArchiveError::Corrupt`]
/// exactly where the bytes do not open as an archive, and with
/// [`ArchiveError::ReadFailure`] exactly where they do and some entry cannot
/// be read in full.
pub fn do_unzip(bytes: Vec<u8>) -> (result: Result<Vec<u8>, ArchiveError>)
    ensures
        outcome(result) == extraction(package_entries(bytes@)),
{
    match open_archive(bytes) {
        Err(_) => Err(ArchiveError::Corrupt),
        Ok(opened_archive) => {
            let mut archive = opened_archive;
            match read_entries(&mut archive) {
                Err(e) => Err(e),
                Ok(contents) => Ok(join_buffers(&contents)),
            }
        },
    }
}

/// A package of exactly one entry, which can be read, is extracted to that
/// entry's content, byte for byte.
pub proof fn lemma_single_entry_is_extracted_whole(content: Seq<u8>)
    ensures
        extraction(Some(seq![Some(content)])) == Ok::<Seq<u8>, ArchiveError>(content),
{
    let entries = seq![Some(content)];
    assert(all_readable(entries));
    assert(payloads(entries) =~= seq![content]);
    lemma_join_of_one(content);
}

/// A package that opens without entries is extracted to no bytes at all.
pub proof fn lemma_empty_package_is_extracted_empty()
    ensures
        extraction(Some(Seq::<Option<Seq<u8>>>::empty())) == Ok::<Seq<u8>, ArchiveError>(
            Seq::empty(),
        ),
{
    let entries = Seq::<Option<Seq<u8>>>::empty();
    assert(all_readable(entries));
    assert(payloads(entries) =~= Seq::<Seq<u8>>::empty());
}

/// Extraction fails in one way only for each package: as corrupt where the
/// package does not open, as a read failure where it opens and an entry
/// cannot be read; and it succeeds in every other case.
pub proof fn lemma_extraction_fails_for_one_reason(directory: Option<Seq<Option<Seq<u8>>>>)
    ensures
        extraction(directory) == Err::<Seq<u8>, ArchiveError>(ArchiveError::Corrupt)
            <==> directory is None,
        extraction(directory) == Err::<Seq<u8>, ArchiveError>(ArchiveError::ReadFailure)
            <==> directory is Some && !all_readable(directory->0),
        extraction(directory) is Ok <==> directory is Some && all_readable(directory->0),
{
}

} // verus!
