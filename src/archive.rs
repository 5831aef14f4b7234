//! Unpacking a downloaded archive into named byte blobs, through the zip
//! crate.

use vstd::prelude::*;

use std::io::{Cursor, Read};
use zip::ZipArchive;

verus! {

/// zip's archive reader, over an archive held in memory.
#[verifier::external_type_specification]
#[verifier::external_body]
#[verifier::reject_recursive_types(R)]
pub struct ExZipArchive<R>(ZipArchive<R>);

/// std's in-memory reader, which zip reads the archive through.
#[verifier::external_type_specification]
#[verifier::external_body]
#[verifier::reject_recursive_types(T)]
pub struct ExCursor<T>(Cursor<T>);

/// The bytes that an opened archive reads from.
pub uninterp spec fn zip_source(a: ZipArchive<Cursor<Vec<u8>>>) -> Seq<u8>;

/// Whether `ZipArchive::new` can read the central directory of `b`.
pub uninterp spec fn archive_opens(b: Seq<u8>) -> bool;

/// How many files `ZipArchive::new` finds listed in the archive `b`.
pub uninterp spec fn listed_files(b: Seq<u8>) -> nat;

/// Whether the `i`-th file of the archive `b` can be taken out and read.
pub uninterp spec fn entry_reads(b: Seq<u8>, i: nat) -> bool;

/// The name that the archive `b` gives its `i`-th file.
pub uninterp spec fn entry_name(b: Seq<u8>, i: nat) -> Seq<char>;

/// The decompressed bytes of the `i`-th file of the archive `b`.
pub uninterp spec fn entry_data(b: Seq<u8>, i: nat) -> Seq<u8>;

/// Relies on `ZipArchive::new` over an in-memory `Cursor`: it reads the
/// central directory from the bytes alone, or fails with a `ZipError`,
/// handed on as its text.
#[verifier::external_body]
fn open_archive(bytes: Vec<u8>) -> (r: Result<ZipArchive<Cursor<Vec<u8>>>, String>)
    ensures
        r is Ok <==> archive_opens(bytes@),
        r matches Ok(a) ==> zip_source(a) == bytes@,
{
    ZipArchive::new(Cursor::new(bytes)).map_err(|e| e.to_string())
}

/// Relies on `ZipArchive::len`: the number of files the central directory
/// lists.
#[verifier::external_body]
fn file_count(a: &ZipArchive<Cursor<Vec<u8>>>) -> (r: usize)
    ensures
        r == listed_files(zip_source(*a)),
{
    a.len()
}

/// Relies on `ZipArchive::by_index_decrypt` and the `Read` impl of the
/// entry it returns: the entry's name and its decompressed bytes, or the
/// text of the error. The entry is found by the offsets that the central
/// directory gives, so the outcome depends on the archive's bytes and `i`
/// alone. With no password to give, an encrypted entry is an error;
/// `by_index` would panic on some of them. Reading moves only the
/// underlying reader, not the bytes it reads.
#[verifier::external_body]
fn read_file(a: &mut ZipArchive<Cursor<Vec<u8>>>, i: usize) -> (r: Result<(String, Vec<u8>), String>)
    ensures
        zip_source(*final(a)) == zip_source(*old(a)),
        r is Ok <==> entry_reads(zip_source(*old(a)), i as nat),
        r matches Ok((name, data)) ==> name@ == entry_name(zip_source(*old(a)), i as nat)
            && data@ == entry_data(zip_source(*old(a)), i as nat),
{
    let mut file = match a.by_index_decrypt(i, b"") {
        Ok(Ok(file)) => file,
        Ok(Err(e)) => return Err(e.to_string()),
        Err(e) => return Err(e.to_string()),
    };
    let mut data = Vec::new();
    file.read_to_end(&mut data).map_err(|e| e.to_string())?;
    Ok((file.name().to_string(), data))
}

/// A file taken out of an archive.
#[derive(Debug)]
pub struct ArchiveFile {
    pub name: String,
    pub data: Vec<u8>,
}

/// Whether the archive `b` opens and every file it lists reads.
pub open spec fn archive_reads(b: Seq<u8>) -> bool {
    &&& archive_opens(b)
    &&& forall|i: nat| i < listed_files(b) ==> #[trigger] entry_reads(b, i)
}

/// `files` are the files of the archive `b`, each with its name and bytes,
/// in the order of its central directory.
pub open spec fn files_of(files: Seq<ArchiveFile>, b: Seq<u8>) -> bool {
    &&& files.len() == listed_files(b)
    &&& forall|k: int|
        0 <= k < files.len() ==> (#[trigger] files[k]).name@ == entry_name(b, k as nat)
            && files[k].data@ == entry_data(b, k as nat)
}

/// Every file of an archive, in the order of its central directory, when
/// the archive opens and each of its files reads; otherwise the text of
/// zip's error.
pub fn unpack(bytes: Vec<u8>) -> (r: Result<Vec<ArchiveFile>, String>)
    ensures
        r is Ok <==> archive_reads(bytes@),
        r matches Ok(files) ==> files_of(files@, bytes@),
{
    let ghost b = bytes@;
    let mut archive = match open_archive(bytes) {
        Ok(a) => a,
        Err(e) => return Err(e),
    };
    let n = file_count(&archive);
    let mut files: Vec<ArchiveFile> = Vec::new();
    let mut i: usize = 0;
    while i < n
        invariant
            i <= n,
            zip_source(archive) == b,
            b == bytes@,
            archive_opens(b),
            n == listed_files(b),
            files@.len() == i,
            forall|k: nat| k < i ==> #[trigger] entry_reads(b, k),
            forall|k: int|
                0 <= k < i ==> (#[trigger] files@[k]).name@ == entry_name(b, k as nat)
                    && files@[k].data@ == entry_data(b, k as nat),
        decreases n - i,
    {
        match read_file(&mut archive, i) {
            Ok((name, data)) => files.push(ArchiveFile { name, data }),
            Err(e) => {
                assert(!entry_reads(b, i as nat));
                return Err(e);
            },
        }
        i = i + 1;
    }
    Ok(files)
}

} // verus!
