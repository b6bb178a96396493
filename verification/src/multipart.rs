//! Binary uploads: choosing the one source of the content among those a
//! caller supplied, and laying out the parts of a multipart body.

use vstd::prelude::*;
use crate::client::{Body, TumblrClientError};
use crate::order::Pair;
use crate::params::ParamList;
use crate::query::{owned_pairs_of, to_owned_pairs};
use crate::text::{chars_of, decimal, decimal_of, push_all, string_of};

verus! {

/// Where the content of an upload comes from. Exactly one of the three.
#[derive(Debug, PartialEq, Eq)]
pub enum UploadPayload<'a> {
    /// The content lies at this address; the server fetches it.
    Remote(&'a str),
    /// The content itself, Base64-encoded, sent as a text field.
    Inline(&'a str),
    /// The paths of local files, each sent as a file part, in this order.
    Files(Vec<&'a str>),
}

/// The source to use among those supplied: the remote address where there
/// is one, else the inline data where there is some, else the files. Nothing
/// supplied is an error.
pub open spec fn selected<'a>(
    source: Option<&'a str>,
    data64: Option<&'a str>,
    data: Option<Vec<&'a str>>,
) -> Result<UploadPayload<'a>, TumblrClientError> {
    match (source, data64, data) {
        (Some(address), _, _) => Ok(UploadPayload::Remote(address)),
        (None, Some(encoded), _) => Ok(UploadPayload::Inline(encoded)),
        (None, None, Some(files)) => Ok(UploadPayload::Files(files)),
        (None, None, None) => Err(TumblrClientError::MissingPhotoSource),
    }
}

/// Chooses the source of an upload by strict priority: `source` wins over
/// `data64`, which wins over `data`; what loses is ignored. Where none of the
/// three is supplied the upload is rejected.
pub fn select_upload<'a>(
    source: Option<&'a str>,
    data64: Option<&'a str>,
    data: Option<Vec<&'a str>>,
) -> (r: Result<UploadPayload<'a>, TumblrClientError>)
    ensures
        r == selected(source, data64, data),
        source is Some && data64 is Some && data is Some ==> r == Ok::<
            UploadPayload<'a>,
            TumblrClientError,
        >(UploadPayload::Remote(source->0)),
        source is None && data64 is None && data is None ==> r is Err,
{
    match source {
        Some(address) => Ok(UploadPayload::Remote(address)),
        None => match data64 {
            Some(encoded) => Ok(UploadPayload::Inline(encoded)),
            None => match data {
                Some(files) => Ok(UploadPayload::Files(files)),
                None => Err(TumblrClientError::MissingPhotoSource),
            },
        },
    }
}

/// The name of the file part with index `i` of the field `field`:
/// `field[i]`.
pub open spec fn part_name(field: Seq<char>, i: nat) -> Seq<char> {
    field.push('[') + decimal(i).push(']')
}

/// The file parts of an upload: for each path its part name and the path, in
/// the order of the paths.
pub open spec fn file_parts_of(field: Seq<char>, files: Seq<&str>) -> Seq<Pair> {
    Seq::new(files.len(), |i: int| (part_name(field, i as nat), files[i]@))
}

/// The file parts for `files` under the field `field`: the part for the
/// `i`-th path is named `field[i]`, counting from zero, and the parts keep
/// the order of the paths.
pub fn file_parts(field: &str, files: &[&str]) -> (r: Vec<(String, String)>)
    ensures
        owned_pairs_of(r@) == file_parts_of(field@, files@),
{
    let mut r: Vec<(String, String)> = Vec::new();
    let mut i: usize = 0;
    assert(owned_pairs_of(r@) == file_parts_of(field@, files@).take(0));
    while i < files.len()
        invariant
            i <= files.len(),
            owned_pairs_of(r@) == file_parts_of(field@, files@).take(i as int),
        decreases files.len() - i,
    {
        let mut name: Vec<char> = chars_of(field);
        name.push('[');
        let digits = decimal_of(i as u64);
        push_all(&mut name, &digits);
        name.push(']');
        assert(name@ == part_name(field@, i as nat));
        let ghost before = owned_pairs_of(r@);
        r.push((string_of(&name), files[i].to_owned()));
        assert(owned_pairs_of(r@) == before.push((part_name(field@, i as nat), files@[i as int]@)));
        i += 1;
    }
    assert(file_parts_of(field@, files@).take(files.len() as int) == file_parts_of(
        field@,
        files@,
    ));
    r
}

/// The multipart body of an upload, as texts: the text fields as given, then
/// the file parts.
pub open spec fn is_multipart(
    body: Body,
    fields: Seq<Pair>,
    field: Seq<char>,
    files: Seq<&str>,
) -> bool {
    body matches Body::Multipart { fields: f, files: p } && owned_pairs_of(f@) == fields
        && owned_pairs_of(p@) == file_parts_of(field, files)
}

/// The multipart body that carries the parameter set `fields` as text
/// fields, each name once, as they stand and in their order, followed by one
/// file part for each of `files`.
pub fn multipart_body(fields: &ParamList, field: &str, files: &[&str]) -> (r: Body)
    ensures
        is_multipart(r, fields@, field@, files@),
{
    Body::Multipart {
        fields: to_owned_pairs(fields.pairs().as_slice()),
        files: file_parts(field, files),
    }
}

} // verus!
