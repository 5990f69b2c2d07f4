//! The import of one file that the host hands over as a name and a data
//! URL: the name is checked, the payload is cut out of the URL and decoded,
//! and the file to write comes out.

use crate::codec::{decode_padded_text, decode_padded_text_spec, CodecError};
use crate::snapshot::{FileData, FileDataView};
use crate::text::{chars_of, find, first_occurrence, matches_at, occurs, occurs_at};
use vstd::prelude::*;

verus! {

/// Why an import was refused.
#[derive(Debug, Clone, Copy, PartialEq, Eq, Structural)]
pub enum ImportError {
    /// The file name holds a character other than an ASCII letter, a digit,
    /// or one of `.`, `-`, `_`, `~`.
    InvalidFileName,
    /// The data does not start with `data:`, or holds no `;base64,`.
    InvalidDataUrl,
    /// What follows `;base64,` is no padded base64 text.
    InvalidPayload,
}

/// Whether `c` may stand in the name of an imported file.
pub open spec fn is_file_name_char(c: char) -> bool {
    ||| '0' <= c <= '9'
    ||| 'a' <= c <= 'z'
    ||| 'A' <= c <= 'Z'
    ||| c == '.'
    ||| c == '-'
    ||| c == '_'
    ||| c == '~'
}

/// Whether every character of `name` may stand in a file name.
pub open spec fn valid_file_name(name: Seq<char>) -> bool {
    forall|i: int| 0 <= i < name.len() ==> is_file_name_char(#[trigger] name[i])
}

/// The payload of a data URL: what follows the first `;base64,` of a text
/// that starts with `data:`; `None` where the text does not start so or
/// holds no such mark.
pub open spec fn data_url_payload(data: Seq<char>) -> Option<Seq<char>> {
    if occurs_at(data, "data:"@, 0) && occurs(data, ";base64,"@) {
        let at = choose|i: int| first_occurrence(data, ";base64,"@, i);
        Some(data.skip(at + ";base64,"@.len()))
    } else {
        None
    }
}

/// What `process_import_file` returns: nothing to do where the name or the
/// data is missing; else the name is judged first, then the shape of the
/// URL, then the payload.
pub open spec fn import_spec(name: Option<Seq<char>>, data: Option<Seq<char>>) -> Result<
    Option<FileDataView>,
    ImportError,
> {
    if name is None || data is None {
        Ok(None)
    } else if !valid_file_name(name->Some_0) {
        Err(ImportError::InvalidFileName)
    } else {
        match data_url_payload(data->Some_0) {
            None => Err(ImportError::InvalidDataUrl),
            Some(payload) => match decode_padded_text_spec(payload) {
                Ok(bytes) => Ok(Some(FileDataView { path: name->Some_0, data: bytes })),
                Err(_) => Err(ImportError::InvalidPayload),
            },
        }
    }
}

/// An import outcome as contracts speak of it.
pub open spec fn import_view(out: Result<Option<FileData>, ImportError>) -> Result<
    Option<FileDataView>,
    ImportError,
> {
    match out {
        Ok(Some(file)) => Ok(Some(file@)),
        Ok(None) => Ok(None),
        Err(e) => Err(e),
    }
}

/// Tells whether every character of `name` may stand in a file name.
pub fn is_valid_file_name(name: &str) -> (valid: bool)
    ensures
        valid == valid_file_name(name@),
{
    let chars = chars_of(name);
    let mut i: usize = 0;
    while i < chars.len()
        invariant
            i <= chars.len(),
            chars@ == name@,
            forall|k: int| 0 <= k < i ==> is_file_name_char(#[trigger] name@[k]),
        decreases chars.len() - i,
    {
        let c = chars[i];
        let allowed = ('0' <= c && c <= '9') || ('a' <= c && c <= 'z') || ('A' <= c && c <= 'Z')
            || c == '.' || c == '-' || c == '_' || c == '~';
        if !allowed {
            assert(!is_file_name_char(name@[i as int]));
            return false;
        }
        i += 1;
    }
    true
}

/// Cuts the payload out of a data URL.
pub fn payload_of_data_url(data: &str) -> (out: Option<&str>)
    ensures
        out is Some == data_url_payload(data@) is Some,
        out matches Some(payload) ==> data_url_payload(data@) == Some(payload@),
{
    let chars = chars_of(data);
    let scheme = chars_of("data:");
    let mark = chars_of(";base64,");
    if !matches_at(&chars, &scheme, 0) {
        return None;
    }
    match find(&chars, &mark) {
        None => None,
        Some(at) => {
            proof {
                // Only one index is the first, so it is the one the contract picks.
                let chosen = choose|i: int| first_occurrence(data@, ";base64,"@, i);
                assert(first_occurrence(data@, ";base64,"@, at as int));
                assert(chosen == at);
            }
            assert(at + mark.len() <= chars.len());
            let start: usize = at + mark.len();
            let payload = data.substring_char(start, chars.len());
            Some(payload)
        },
    }
}

/// Turns a file name and a data URL, as the host hands them over, into the
/// file to write.
///
/// Where either is missing there is nothing to import. Otherwise the name
/// must be made of ASCII letters, digits, `.`, `-`, `_` and `~`; the data
/// must start with `data:` and hold `;base64,`; and what follows the first
/// `;base64,` must be padded base64 text. The file has the name as its path
/// and the decoded bytes as its content.
pub fn process_import_file(file_name: Option<String>, file_data: Option<String>) -> (out: Result<
    Option<FileData>,
    ImportError,
>)
    ensures
        import_view(out) == import_spec(
            match file_name {
                Some(name) => Some(name@),
                None => None,
            },
            match file_data {
                Some(data) => Some(data@),
                None => None,
            },
        ),
{
    let (name, data) = match (file_name, file_data) {
        (Some(name), Some(data)) => (name, data),
        _ => {
            return Ok(None);
        },
    };
    if !is_valid_file_name(name.as_str()) {
        return Err(ImportError::InvalidFileName);
    }
    let payload = match payload_of_data_url(data.as_str()) {
        Some(payload) => payload,
        None => {
            return Err(ImportError::InvalidDataUrl);
        },
    };
    match decode_padded_text(payload) {
        Ok(bytes) => Ok(Some(FileData { path: name, data: bytes })),
        Err(_) => Err(ImportError::InvalidPayload),
    }
}

} // verus!
