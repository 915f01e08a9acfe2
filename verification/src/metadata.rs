//! The metadata that comes with a request.

use tonic::metadata::errors::ToStrError;
use tonic::metadata::MetadataMap;
use vstd::prelude::*;

verus! {

/// `tonic::metadata::MetadataMap`, the metadata of one gRPC call.
#[verifier::external_type_specification]
#[verifier::external_body]
pub struct ExMetadataMap(MetadataMap);

/// `tonic::metadata::errors::ToStrError`, the refusal to read a metadata value as text.
#[verifier::external_type_specification]
#[verifier::external_body]
pub struct ExToStrError(ToStrError);

/// The entries of `metadata` in the order in which the map is walked, the values of one key
/// side by side: for each its key in lower case, the bytes of its value, and whether the
/// value is marked as sensitive.
pub uninterp spec fn metadata_entries(metadata: MetadataMap) -> Seq<(Seq<char>, Seq<u8>, bool)>;

/// The text that `Debug` writes for a metadata map with the given entries.
pub uninterp spec fn metadata_debug_text(entries: Seq<(Seq<char>, Seq<u8>, bool)>) -> Seq<char>;

/// The value of the first entry under `key`.
pub open spec fn lookup(entries: Seq<(Seq<char>, Seq<u8>, bool)>, key: Seq<char>) -> Option<Seq<u8>>
    decreases entries.len(),
{
    if entries.len() == 0 {
        None
    } else if entries[0].0 == key {
        Some(entries[0].1)
    } else {
        lookup(entries.drop_first(), key)
    }
}

/// `key` is made of lower case letters and no longer than the keys that are looked up letter
/// by letter; such a key is stored as it is written.
pub open spec fn is_plain_key(key: Seq<char>) -> bool {
    &&& 1 <= key.len() <= 64
    &&& forall|i: int| 0 <= i < key.len() ==> 'a' <= #[trigger] key[i] <= 'z'
}

/// All bytes are printable ASCII characters or tabs.
pub open spec fn is_visible_ascii(bytes: Seq<u8>) -> bool {
    forall|i: int| 0 <= i < bytes.len() ==> (32 <= #[trigger] bytes[i] < 127 || bytes[i] == 9)
}

/// ASCII bytes read as characters.
pub open spec fn ascii_text(bytes: Seq<u8>) -> Seq<char> {
    bytes.map_values(|b: u8| b as char)
}

/// What reading the first value under a key as text gives: nothing where there is no such
/// value, its text where all of it is visible ASCII, and a failure where it is not.
pub open spec fn lookup_text(
    entries: Seq<(Seq<char>, Seq<u8>, bool)>,
    key: Seq<char>,
) -> Option<Result<Seq<char>, ()>> {
    match lookup(entries, key) {
        None => None,
        Some(bytes) => if is_visible_ascii(bytes) {
            Some(Ok(ascii_text(bytes)))
        } else {
            Some(Err(()))
        },
    }
}

/// `tonic::metadata::MetadataMap::get`, with the value that it finds handed out through
/// `MetadataValue::to_str`.
///
/// Claimed: for a key of lower case letters, `get` finds the first value under that key and
/// nothing where there is none; `to_str` succeeds exactly on values of visible ASCII, and
/// then gives these bytes as characters.
#[verifier::external_body]
pub(crate) fn get_text(metadata: &MetadataMap, key: &str) -> (r: Option<Result<String, ToStrError>>)
    requires
        is_plain_key(key@),
    ensures
        match r {
            None => lookup_text(metadata_entries(*metadata), key@) is None,
            Some(Ok(text)) => lookup_text(metadata_entries(*metadata), key@) == Some(
                Ok::<Seq<char>, ()>(text@),
            ),
            Some(Err(_)) => lookup_text(metadata_entries(*metadata), key@) == Some(
                Err::<Seq<char>, ()>(()),
            ),
        },
{
    metadata.get(key).map(|value| value.to_str().map(|text| text.to_string()))
}

/// The `Display` text of `tonic::metadata::errors::ToStrError`.
///
/// Claimed: the error carries nothing, and its text is always the same.
#[verifier::external_body]
pub(crate) fn to_str_error_text(error: &ToStrError) -> (r: String)
    ensures
        r@ == "failed to convert metadata to a str"@,
{
    format!("{error}")
}

/// The `Debug` text of `tonic::metadata::MetadataMap`.
///
/// Claimed: it is made from the entries alone, in the order in which the map is walked.
#[verifier::external_body]
pub(crate) fn debug_text(metadata: &MetadataMap) -> (r: String)
    ensures
        r@ == metadata_debug_text(metadata_entries(*metadata)),
{
    format!("{metadata:?}")
}

} // verus!
