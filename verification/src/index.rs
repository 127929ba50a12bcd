use vstd::prelude::*;

use crate::archive::{archive_model, bytes_to_string, read_entry, ArchiveModel};
use crate::errors::{ConvertError, ErrV};
use crate::jsonmodel::{
    json_of, json_str_array_field, json_str_field, parse_json, value_as_array, value_as_str,
    value_get, JsonVal,
};
use crate::text::concat2;

verus! {

/// The metadata record of a notebook: at least its display name.
pub struct NotebookMetadata {
    pub visible_name: String,
}

/// The content record of a notebook: its page identifiers, in study order.
pub struct NotebookIndex {
    pub pages: Vec<String>,
}

/// What reading the notebook's metadata entry from an archive yields: the
/// display name, or the failure that reading it runs into. The entry must be
/// present, hold UTF-8 text, parse as JSON, and carry a string field
/// `visibleName`.
pub open spec fn spec_read_metadata(m: ArchiveModel, uuid: Seq<char>) -> Result<Seq<char>, ErrV> {
    let name = uuid + ".metadata"@;
    if !m.entries.dom().contains(name) {
        Result::Err(ErrV::MissingManifest(Option::Some(name)))
    } else if !vstd::utf8::valid_utf8(m.entries[name]) {
        Result::Err(ErrV::MalformedIndex(name))
    } else {
        match json_of(vstd::utf8::decode_utf8(m.entries[name])) {
            Option::None => Result::Err(ErrV::MalformedIndex(name)),
            Option::Some(j) => match json_str_field(j, "visibleName"@) {
                Option::None => Result::Err(ErrV::MalformedIndex(name)),
                Option::Some(s) => Result::Ok(s),
            },
        }
    }
}

/// What reading the notebook's content entry from an archive yields: the
/// ordered page identifiers, or the failure that reading them runs into. The
/// entry must be present, hold UTF-8 text, parse as JSON, and carry an array
/// of strings under `pages`.
pub open spec fn spec_read_index(m: ArchiveModel, uuid: Seq<char>) -> Result<
    Seq<Seq<char>>,
    ErrV,
> {
    let name = uuid + ".content"@;
    if !m.entries.dom().contains(name) {
        Result::Err(ErrV::MissingManifest(Option::Some(name)))
    } else if !vstd::utf8::valid_utf8(m.entries[name]) {
        Result::Err(ErrV::MalformedIndex(name))
    } else {
        match json_of(vstd::utf8::decode_utf8(m.entries[name])) {
            Option::None => Result::Err(ErrV::MalformedIndex(name)),
            Option::Some(j) => match json_str_array_field(j, "pages"@) {
                Option::None => Result::Err(ErrV::MalformedIndex(name)),
                Option::Some(ps) => Result::Ok(ps),
            },
        }
    }
}

/// Reads and parses the notebook's metadata entry `<uuid>.metadata`.
pub fn read_metadata(
    zip: &mut zip::ZipArchive<std::io::Cursor<Vec<u8>>>,
    uuid: &str,
) -> (r: Result<NotebookMetadata, ConvertError>)
    ensures
        archive_model(final(zip)) == archive_model(old(zip)),
        (match spec_read_metadata(archive_model(old(zip)), uuid@) {
            Result::Ok(s) => r matches Ok(md) && md.visible_name@ == s,
            Result::Err(e) => r matches Err(err) && err@ == e,
        }),
{
    let entry = concat2(uuid, ".metadata");
    let data = match read_entry(zip, entry.as_str()) {
        Some(d) => d,
        None => {
            return Err(ConvertError::MissingManifest(Some(entry)));
        },
    };
    let text = match bytes_to_string(data) {
        Some(t) => t,
        None => {
            return Err(ConvertError::MalformedIndex(entry));
        },
    };
    let value = match parse_json(text.as_str()) {
        Some(v) => v,
        None => {
            return Err(ConvertError::MalformedIndex(entry));
        },
    };
    let name_value = match value_get(&value, "visibleName") {
        Some(x) => x,
        None => {
            return Err(ConvertError::MalformedIndex(entry));
        },
    };
    match value_as_str(name_value) {
        Some(s) => Ok(NotebookMetadata { visible_name: s.to_owned() }),
        None => Err(ConvertError::MalformedIndex(entry)),
    }
}

/// Reads and parses the notebook's content entry `<uuid>.content`.
#[verifier::loop_isolation(false)]
pub fn read_index(zip: &mut zip::ZipArchive<std::io::Cursor<Vec<u8>>>, uuid: &str) -> (r: Result<
    NotebookIndex,
    ConvertError,
>)
    ensures
        archive_model(final(zip)) == archive_model(old(zip)),
        (match spec_read_index(archive_model(old(zip)), uuid@) {
            Result::Ok(ps) => r matches Ok(ix) && ix.pages@.map_values(|p: String| p@) == ps,
            Result::Err(e) => r matches Err(err) && err@ == e,
        }),
{
    let entry = concat2(uuid, ".content");
    let data = match read_entry(zip, entry.as_str()) {
        Some(d) => d,
        None => {
            return Err(ConvertError::MissingManifest(Some(entry)));
        },
    };
    let text = match bytes_to_string(data) {
        Some(t) => t,
        None => {
            return Err(ConvertError::MalformedIndex(entry));
        },
    };
    let value = match parse_json(text.as_str()) {
        Some(v) => v,
        None => {
            return Err(ConvertError::MalformedIndex(entry));
        },
    };
    let pages_value = match value_get(&value, "pages") {
        Some(x) => x,
        None => {
            return Err(ConvertError::MalformedIndex(entry));
        },
    };
    let arr = match value_as_array(pages_value) {
        Some(a) => a,
        None => {
            return Err(ConvertError::MalformedIndex(entry));
        },
    };
    let ghost elems = (match crate::jsonmodel::value_rep(*pages_value) {
        JsonVal::Arr(es) => es,
        _ => Seq::empty(),
    });
    let mut pages: Vec<String> = Vec::new();
    let mut i: usize = 0;
    while i < arr.len()
        invariant
            i <= arr.len(),
            arr@.len() == elems.len(),
            forall|j: int| 0 <= j < elems.len() ==> crate::jsonmodel::value_rep(arr@[j]) == elems[j],
            forall|j: int| 0 <= j < i ==> elems[j] is Str,
            pages@.len() == i,
            forall|j: int| 0 <= j < i ==> pages@[j]@ == crate::jsonmodel::string_seq_of(elems)[j],
        decreases arr.len() - i,
    {
        let element = &arr[i];
        proof {
            assert(crate::jsonmodel::value_rep(*element) == elems[i as int]);
        }
        match value_as_str(element) {
            Some(s) => {
                let owned = s.to_owned();
                proof {
                    assert(crate::jsonmodel::string_seq_of(elems)[i as int] == owned@);
                }
                pages.push(owned);
            },
            None => {
                proof {
                    assert(!(elems[i as int] is Str));
                    assert(!crate::jsonmodel::all_strings(elems));
                }
                return Err(ConvertError::MalformedIndex(entry));
            },
        }
        i += 1;
    }
    proof {
        assert(crate::jsonmodel::all_strings(elems));
        assert(pages@.map_values(|p: String| p@) =~= crate::jsonmodel::string_seq_of(elems));
    }
    Ok(NotebookIndex { pages })
}

} // verus!
