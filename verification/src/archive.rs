use vstd::prelude::*;

verus! {

#[verifier::external_type_specification]
#[verifier::external_body]
#[verifier::reject_recursive_types(R)]
pub struct ExZipArchive<R>(zip::ZipArchive<R>);

#[verifier::external_type_specification]
#[verifier::external_body]
#[verifier::reject_recursive_types(T)]
pub struct ExCursor<T>(std::io::Cursor<T>);

/// Mathematical view of an opened archive: every listed entry name, in the
/// order of the container's central directory, and the bytes of each entry
/// whose data can be read.
pub struct ArchiveModel {
    pub names: Seq<Seq<char>>,
    pub entries: Map<Seq<char>, Seq<u8>>,
}

/// The model of an opened archive.
pub uninterp spec fn archive_model(a: &zip::ZipArchive<std::io::Cursor<Vec<u8>>>) -> ArchiveModel;

/// The archive written in `b`, or `None` when `b` is not a readable
/// zip-compatible container: what `zip::ZipArchive::new` reads from those
/// bytes, a pure function of them.
pub uninterp spec fn zip_model_of(b: Seq<u8>) -> Option<ArchiveModel>;

/// Relies on `zip::ZipArchive::new`: reading the central directory of a
/// zip-compatible container is a pure function of its bytes.
#[verifier::external_body]
pub(crate) fn open_archive(data: Vec<u8>) -> (r: Option<
    zip::ZipArchive<std::io::Cursor<Vec<u8>>>,
>)
    ensures
        (r is Some) == (zip_model_of(data@) is Some),
        r matches Some(a) ==> Some(archive_model(&a)) == zip_model_of(data@),
{
    zip::ZipArchive::new(std::io::Cursor::new(data)).ok()
}

/// Relies on `zip::ZipArchive::file_names`: it yields every listed entry
/// name, in the order of the archive's central directory.
#[verifier::external_body]
pub(crate) fn entry_names(a: &zip::ZipArchive<std::io::Cursor<Vec<u8>>>) -> (r: Vec<String>)
    ensures
        r@.map_values(|s: String| s@) == archive_model(a).names,
{
    a.file_names().map(|s| s.to_owned()).collect()
}

/// Relies on `zip::ZipArchive::by_name` and on the `Read` impl of
/// `zip::read::ZipFile`: `by_name` finds the entry listed under the name, and
/// reading it yields the entry's decompressed bytes. An entry whose data
/// cannot be decompressed counts as unreadable, not among the model's
/// entries.
#[verifier::external_body]
pub(crate) fn read_entry(a: &mut zip::ZipArchive<std::io::Cursor<Vec<u8>>>, name: &str) -> (r:
    Option<Vec<u8>>)
    ensures
        archive_model(final(a)) == archive_model(old(a)),
        (r is Some) == archive_model(old(a)).entries.dom().contains(name@),
        r matches Some(b) ==> b@ == archive_model(old(a)).entries[name@],
{
    match a.by_name(name) {
        Ok(mut f) => {
            let mut buf: Vec<u8> = Vec::new();
            match std::io::Read::read_to_end(&mut f, &mut buf) {
                Ok(_) => Some(buf),
                Err(_) => None,
            }
        },
        Err(_) => None,
    }
}

/// Relies on `String::from_utf8`, as vstd's UTF-8 model describes it: `Some`
/// exactly when the bytes are valid UTF-8, returning their decoding.
#[verifier::external_body]
pub(crate) fn bytes_to_string(b: Vec<u8>) -> (r: Option<String>)
    ensures
        (r is Some) == vstd::utf8::valid_utf8(b@),
        r matches Some(s) ==> s@ == vstd::utf8::decode_utf8(b@),
{
    String::from_utf8(b).ok()
}

} // verus!
