//! Archive extraction into host-supplied storage.
//!
//! The host names a source archive and a destination root; the host shim
//! reads the archive into memory and writes each extracted entry itself
//! through its own callback. This crate's part is the middle: decode the
//! in-memory archive and return every entry, exactly once and in archive
//! order, or fail as a whole. Error detail is collapsed to a single
//! generic failure, which is all the boundary carries.

use vstd::prelude::*;
use vstd::string::StringExecFns;

use crate::marshal::{lossy_of, marshal_text};

verus! {

/// The single failure the extraction boundary reports; the cause (an
/// unreadable file, a malformed archive, a damaged entry) is deliberately
/// not distinguished.
#[derive(Clone, Copy, Debug, PartialEq, Eq, Structural)]
pub enum ExtractError {
    Failed,
}

impl ExtractError {
    /// The one message the boundary logs for a failed extraction.
    pub fn message(&self) -> (m: String)
        ensures
            m@ == "Failed to extract"@,
    {
        String::from_str("Failed to extract")
    }
}

/// One archive entry: its path inside the archive and its decompressed
/// bytes.
#[derive(Clone, Debug)]
pub struct ZipEntry {
    pub name: String,
    pub data: Vec<u8>,
}

/// The mathematical shape of a sequence of entries: each is the pair of
/// its name and its bytes.
pub open spec fn entries_model(es: Seq<ZipEntry>) -> Seq<(Seq<char>, Seq<u8>)> {
    es.map(|i: int, e: ZipEntry| (e.name@, e.data@))
}

/// What the zip format decoder makes of the given bytes: `None` when the
/// central directory is malformed, otherwise every entry's name and
/// decompressed bytes, in archive order. A function of the bytes alone.
pub uninterp spec fn zip_parse(data: Seq<u8>) -> Option<Seq<(Seq<char>, Seq<u8>)>>;

#[verifier::external_type_specification]
#[verifier::external_body]
#[verifier::reject_recursive_types(T)]
pub struct ExCursor<T>(std::io::Cursor<T>);

#[verifier::external_type_specification]
#[verifier::external_body]
#[verifier::reject_recursive_types(R)]
pub struct ExZipArchive<R>(zip::ZipArchive<R>);

/// The entries that an opened archive holds, in archive order.
pub uninterp spec fn zip_contents(a: zip::ZipArchive<std::io::Cursor<Vec<u8>>>) -> Seq<
    (Seq<char>, Seq<u8>),
>;

/// Relies on `zip::ZipArchive::new`: reads the archive's central
/// directory from the buffer; a malformed directory yields `Err`, and
/// nothing panics.
#[verifier::external_body]
fn zip_open(data: Vec<u8>) -> (r: Result<zip::ZipArchive<std::io::Cursor<Vec<u8>>>, ExtractError>)
    ensures
        r is Ok <==> zip_parse(data@) is Some,
        r matches Ok(a) ==> zip_contents(a) == zip_parse(data@).unwrap(),
{
    match zip::ZipArchive::new(std::io::Cursor::new(data)) {
        Ok(a) => Ok(a),
        Err(_) => Err(ExtractError::Failed),
    }
}

/// Relies on `zip::ZipArchive::len`: the number of entries named by the
/// central directory.
#[verifier::external_body]
fn zip_len(a: &zip::ZipArchive<std::io::Cursor<Vec<u8>>>) -> (n: usize)
    ensures
        n == zip_contents(*a).len(),
{
    a.len()
}

/// Relies on `zip::ZipArchive::by_index`: hands out one entry's name and
/// a reader for its bytes, which are read out in full here; a damaged
/// entry yields `Err`, and the archive's directory is left as it was.
#[verifier::external_body]
fn zip_entry(a: &mut zip::ZipArchive<std::io::Cursor<Vec<u8>>>, i: usize) -> (r: Result<
    ZipEntry,
    ExtractError,
>)
    requires
        i < zip_contents(*old(a)).len(),
    ensures
        zip_contents(*final(a)) == zip_contents(*old(a)),
        r matches Ok(e) ==> (e.name@, e.data@) == zip_contents(*old(a))[i as int],
{
    match a.by_index(i) {
        Ok(mut f) => {
            let name = f.name().to_string();
            let mut data = Vec::new();
            match std::io::Read::read_to_end(&mut f, &mut data) {
                Ok(_) => Ok(ZipEntry { name, data }),
                Err(_) => Err(ExtractError::Failed),
            }
        },
        Err(_) => Err(ExtractError::Failed),
    }
}

/// Decodes the whole in-memory archive. On success every entry is
/// returned exactly once, in archive order, with its decompressed bytes;
/// on any failure (malformed directory, damaged entry) the whole
/// operation fails with the one generic error and no partial result.
#[verifier::loop_isolation(false)]
pub fn rsl_extract_zip(archive: Vec<u8>) -> (r: Result<Vec<ZipEntry>, ExtractError>)
    ensures
        zip_parse(archive@) is None ==> r is Err,
        r matches Ok(es) ==> zip_parse(archive@) matches Some(ps) && entries_model(es@) == ps,
        zip_parse(archive@) matches Some(ps) ==> (ps.len() == 0 ==> r is Ok),
{
    let ghost bytes = archive@;
    let mut a = match zip_open(archive) {
        Ok(a) => a,
        Err(e) => {
            return Err(e);
        },
    };
    let n = zip_len(&a);
    let mut out: Vec<ZipEntry> = Vec::new();
    let mut i: usize = 0;
    while i < n
        invariant
            zip_parse(bytes) is Some,
            zip_contents(a) == zip_parse(bytes).unwrap(),
            n == zip_contents(a).len(),
            i <= n,
            out@.len() == i,
            forall|j: int|
                0 <= j < i ==> entries_model(out@)[j] == zip_contents(a)[j],
        decreases n - i,
    {
        match zip_entry(&mut a, i) {
            Ok(e) => out.push(e),
            Err(err) => {
                return Err(err);
            },
        }
        i += 1;
    }
    proof {
        assert(entries_model(out@) =~= zip_parse(bytes).unwrap());
    }
    Ok(out)
}

/// Marshals the two path arguments of an extraction request: if either is
/// a null pointer (`None`) the request is rejected before anything else
/// is touched, otherwise both paths are decoded lossily.
pub fn marshal_paths(from_file: Option<&Vec<u8>>, to_folder: Option<&Vec<u8>>) -> (r: Option<
    (String, String),
>)
    ensures
        r is Some <==> (from_file is Some && to_folder is Some),
        from_file matches Some(f) ==> (to_folder matches Some(t) ==> r matches Some(p) && p.0@
            == lossy_of(f@) && p.1@ == lossy_of(t@)),
{
    let from = match marshal_text(from_file) {
        None => {
            return None;
        },
        Some(s) => s,
    };
    let to = match marshal_text(to_folder) {
        None => {
            return None;
        },
        Some(s) => s,
    };
    Some((from, to))
}

/// The status code the host receives for an extraction outcome: zero for
/// success, minus one for failure.
pub fn extract_status(r: &Result<Vec<ZipEntry>, ExtractError>) -> (s: i32)
    ensures
        s == 0 <==> r is Ok,
        s == -1 <==> r is Err,
{
    match r {
        Ok(_) => 0,
        Err(_) => -1,
    }
}

} // verus!
