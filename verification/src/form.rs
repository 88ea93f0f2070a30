//! The outgoing multipart form, held as `reqwest::multipart::Form` behind
//! trusted wrappers.
//!
//! The form is modelled by two projections of its part list: `form_texts`,
//! the text fields in insertion order, and `form_files`, the file parts in
//! insertion order. Every wrapper states over these what the corresponding
//! `reqwest` builder method does.

use vstd::prelude::*;

verus! {

#[verifier::external_type_specification]
#[verifier::external_body]
pub struct ExForm(reqwest::multipart::Form);

#[verifier::external_type_specification]
#[verifier::external_body]
pub struct ExPart(reqwest::multipart::Part);

/// The text fields a form holds, in insertion order: (name, value).
pub uninterp spec fn form_texts(f: reqwest::multipart::Form) -> Seq<(Seq<char>, Seq<char>)>;

/// The file parts a form holds, in insertion order:
/// (field name, content bytes, filename metadata).
pub uninterp spec fn form_files(f: reqwest::multipart::Form) -> Seq<
    (Seq<char>, Seq<u8>, Option<Seq<char>>),
>;

/// The raw content bytes of a part.
pub uninterp spec fn part_data(p: reqwest::multipart::Part) -> Seq<u8>;

/// The filename metadata of a part, where one was set.
pub uninterp spec fn part_name(p: reqwest::multipart::Part) -> Option<Seq<char>>;

/// Relies on reqwest::multipart::Form::new: a form without any content.
#[verifier::external_body]
pub(crate) fn form_new() -> (f: reqwest::multipart::Form)
    ensures
        form_texts(f) == Seq::<(Seq<char>, Seq<char>)>::empty(),
        form_files(f) == Seq::<(Seq<char>, Seq<u8>, Option<Seq<char>>)>::empty(),
{
    reqwest::multipart::Form::new()
}

/// Relies on reqwest::multipart::Form::text: appends one text field with the
/// given name and value, and touches no other part.
#[verifier::external_body]
pub(crate) fn form_add_text(f: reqwest::multipart::Form, name: String, value: String) -> (r:
    reqwest::multipart::Form)
    ensures
        form_texts(r) == form_texts(f).push((name@, value@)),
        form_files(r) == form_files(f),
{
    f.text(name, value)
}

/// Relies on reqwest::multipart::Part::bytes: a part holding the given raw
/// bytes, with no filename metadata set.
#[verifier::external_body]
pub(crate) fn part_from_bytes(data: Vec<u8>) -> (p: reqwest::multipart::Part)
    ensures
        part_data(p) == data@,
        part_name(p) is None,
{
    reqwest::multipart::Part::bytes(data)
}

/// Relies on reqwest::multipart::Part::file_name: sets the filename metadata
/// and keeps the content bytes.
#[verifier::external_body]
pub(crate) fn part_with_name(p: reqwest::multipart::Part, filename: String) -> (r:
    reqwest::multipart::Part)
    ensures
        part_data(r) == part_data(p),
        part_name(r) == Some(filename@),
{
    p.file_name(filename)
}

/// Relies on reqwest::multipart::Form::part: appends the given part under the
/// given field name, and touches no text field.
#[verifier::external_body]
pub(crate) fn form_add_file(f: reqwest::multipart::Form, name: String, p: reqwest::multipart::Part) -> (r:
    reqwest::multipart::Form)
    ensures
        form_files(r) == form_files(f).push((name@, part_data(p), part_name(p))),
        form_texts(r) == form_texts(f),
{
    f.part(name, p)
}

} // verus!
