//! Upload options, the typed response record, and the assembly of the
//! multipart text fields for one upload request.

use vstd::prelude::*;
use vstd::string::StringExecFns;
use crate::access_policy::AccessPolicy;
use crate::error::UploadError;
use crate::form::form_add_file;
use crate::form::form_add_text;
use crate::form::form_files;
use crate::form::form_new;
use crate::form::form_texts;
use crate::form::part_from_bytes;
use crate::form::part_with_name;
use crate::json::get_str_member;
use crate::json::json_error_text;
use crate::json::json_is_valid;
use crate::json::json_str_fields;
use crate::json::parse_json;
use crate::json::value_str_fields;
use crate::access_policy::policy_text;
use crate::render::bool_text;
use crate::render::dec_text;
use crate::render::render_bool;
use crate::render::render_u64;

verus! {

/// Options for uploading an image.
///
/// Every field is independently optional; an absent field is omitted from
/// the outgoing request entirely.
pub struct GyazoUploadOptions {
    /// Visibility of the uploaded image; the server defaults to `Anyone`.
    pub access_policy: Option<AccessPolicy>,
    /// Whether metadata such as URL and title is public.
    pub metadata_is_public: Option<bool>,
    /// The URL of the website captured in the image.
    pub referer_url: Option<String>,
    /// The name of the application used to capture the image.
    pub app: Option<String>,
    /// The title of the website captured in the image.
    pub title: Option<String>,
    /// A comment or description for the uploaded image.
    pub desc: Option<String>,
    /// The creation time of the image, in whole seconds since the Unix epoch.
    pub created_at: Option<u64>,
    /// The ID of the collection to which the image should be added.
    pub collection_id: Option<String>,
}

/// Options with no field populated.
pub open spec fn empty_options() -> GyazoUploadOptions {
    GyazoUploadOptions {
        access_policy: None,
        metadata_is_public: None,
        referer_url: None,
        app: None,
        title: None,
        desc: None,
        created_at: None,
        collection_id: None,
    }
}

impl Default for GyazoUploadOptions {
    /// Options with no field populated.
    fn default() -> (r: Self)
        ensures
            r == empty_options(),
    {
        GyazoUploadOptions {
            access_policy: None,
            metadata_is_public: None,
            referer_url: None,
            app: None,
            title: None,
            desc: None,
            created_at: None,
            collection_id: None,
        }
    }
}

/// The record returned by the service on a successful upload.
///
/// Every field is required in the response; a body missing any of them is
/// rejected as a decode error.
pub struct UploadResponse {
    /// Timestamp when the image was created.
    pub created_at: String,
    /// Unique identifier of the uploaded image.
    pub image_id: String,
    /// Permalink URL of the image.
    pub permalink_url: String,
    /// URL of the thumbnail.
    pub thumb_url: String,
    /// Type tag of the response.
    pub response_type: String,
    /// Direct URL to the uploaded image.
    pub url: String,
}

/// The options that take effect: the given ones, or none populated.
pub open spec fn effective_options(options: Option<&GyazoUploadOptions>) -> GyazoUploadOptions {
    match options {
        Some(o) => *o,
        None => empty_options(),
    }
}

/// The leading text fields of the outgoing form: the access token, then one
/// field for each populated option among the first half of the field order.
pub open spec fn head_text_fields(token: Seq<char>, o: GyazoUploadOptions) -> Seq<
    (Seq<char>, Seq<char>),
> {
    let s = seq![("access_token"@, token)];
    let s = if o.access_policy is Some {
        s.push(("access_policy"@, policy_text(o.access_policy->0)))
    } else {
        s
    };
    let s = if o.metadata_is_public is Some {
        s.push(("metadata_is_public"@, bool_text(o.metadata_is_public->0)))
    } else {
        s
    };
    let s = if o.referer_url is Some {
        s.push(("referer_url"@, o.referer_url->0@))
    } else {
        s
    };
    let s = if o.app is Some {
        s.push(("app"@, o.app->0@))
    } else {
        s
    };
    s
}

/// The text fields of the outgoing form, in order: the access token first,
/// then exactly one field per populated option, each under its fixed name,
/// with boolean and numeric values rendered to their canonical text.
pub open spec fn spec_text_fields(token: Seq<char>, o: GyazoUploadOptions) -> Seq<
    (Seq<char>, Seq<char>),
> {
    let s = head_text_fields(token, o);
    let s = if o.title is Some {
        s.push(("title"@, o.title->0@))
    } else {
        s
    };
    let s = if o.desc is Some {
        s.push(("desc"@, o.desc->0@))
    } else {
        s
    };
    let s = if o.created_at is Some {
        s.push(("created_at"@, dec_text(o.created_at->0 as nat)))
    } else {
        s
    };
    let s = if o.collection_id is Some {
        s.push(("collection_id"@, o.collection_id->0@))
    } else {
        s
    };
    s
}

/// The view of a list of name/value pairs: both sides as character sequences.
pub open spec fn fields_view(s: Seq<(String, String)>) -> Seq<(Seq<char>, Seq<char>)> {
    s.map_values(|p: (String, String)| (p.0@, p.1@))
}

/// Assembles the text fields of the upload form: the access token first,
/// then one field per populated option, in the fixed field order.
pub fn upload_text_fields(access_token: &String, options: Option<&GyazoUploadOptions>) -> (r: Vec<
    (String, String),
>)
    ensures
        fields_view(r@) == spec_text_fields(access_token@, effective_options(options)),
{
    let mut r: Vec<(String, String)> = Vec::new();
    r.push(("access_token".to_owned(), access_token.clone()));
    if let Some(o) = options {
        if let Some(p) = &o.access_policy {
            r.push(("access_policy".to_owned(), p.as_str().to_owned()));
        }
        if let Some(b) = &o.metadata_is_public {
            r.push(("metadata_is_public".to_owned(), render_bool(*b)));
        }
        if let Some(u) = &o.referer_url {
            r.push(("referer_url".to_owned(), u.clone()));
        }
        if let Some(a) = &o.app {
            r.push(("app".to_owned(), a.clone()));
        }
        if let Some(t) = &o.title {
            r.push(("title".to_owned(), t.clone()));
        }
        if let Some(d) = &o.desc {
            r.push(("desc".to_owned(), d.clone()));
        }
        if let Some(c) = &o.created_at {
            r.push(("created_at".to_owned(), render_u64(*c)));
        }
        if let Some(i) = &o.collection_id {
            r.push(("collection_id".to_owned(), i.clone()));
        }
    }
    proof {
        assert(fields_view(r@) =~= spec_text_fields(access_token@, effective_options(options)));
    }
    r
}

/// Builds the full multipart form for one upload: the text fields as
/// `spec_text_fields` lists them, and exactly one file part, named
/// `imagedata`, holding the image bytes under the given filename.
pub fn build_upload_form(
    access_token: &String,
    file_name: String,
    image_data: Vec<u8>,
    options: Option<&GyazoUploadOptions>,
) -> (f: reqwest::multipart::Form)
    ensures
        form_texts(f) == spec_text_fields(access_token@, effective_options(options)),
        form_files(f) == seq![("imagedata"@, image_data@, Some(file_name@))],
{
    let fields = upload_text_fields(access_token, options);
    let mut f = form_new();
    let part = part_with_name(part_from_bytes(image_data), file_name);
    f = form_add_file(f, "imagedata".to_owned(), part);
    proof {
        assert(form_files(f) =~= seq![("imagedata"@, image_data@, Some(file_name@))]);
        assert(form_texts(f) =~= fields_view(fields@).take(0));
    }
    let n = fields.len();
    let mut i: usize = 0;
    while i < n
        invariant
            n == fields.len(),
            i <= n,
            form_texts(f) == fields_view(fields@).take(i as int),
            form_files(f) == seq![("imagedata"@, image_data@, Some(file_name@))],
            fields_view(fields@) == spec_text_fields(access_token@, effective_options(options)),
        decreases n - i,
    {
        let name = fields[i].0.clone();
        let value = fields[i].1.clone();
        f = form_add_text(f, name, value);
        proof {
            assert(form_texts(f) =~= fields_view(fields@).take(i as int + 1));
        }
        i = i + 1;
    }
    proof {
        assert(fields_view(fields@).take(n as int) =~= fields_view(fields@));
    }
    f
}

/// Whether a response body holds every member the upload response requires,
/// as a string.
pub open spec fn response_complete(m: Map<Seq<char>, Seq<char>>) -> bool {
    &&& m.contains_key("created_at"@)
    &&& m.contains_key("image_id"@)
    &&& m.contains_key("permalink_url"@)
    &&& m.contains_key("thumb_url"@)
    &&& m.contains_key("type"@)
    &&& m.contains_key("url"@)
}

/// Whether a decoded record carries exactly the members of the body,
/// untransformed.
pub open spec fn response_matches(r: UploadResponse, m: Map<Seq<char>, Seq<char>>) -> bool {
    &&& r.created_at@ == m["created_at"@]
    &&& r.image_id@ == m["image_id"@]
    &&& r.permalink_url@ == m["permalink_url"@]
    &&& r.thumb_url@ == m["thumb_url"@]
    &&& r.response_type@ == m["type"@]
    &&& r.url@ == m["url"@]
}

/// The first required member a body lacks, in the record's field order.
pub open spec fn first_missing(m: Map<Seq<char>, Seq<char>>) -> Seq<char> {
    if !m.contains_key("created_at"@) {
        "created_at"@
    } else if !m.contains_key("image_id"@) {
        "image_id"@
    } else if !m.contains_key("permalink_url"@) {
        "permalink_url"@
    } else if !m.contains_key("thumb_url"@) {
        "thumb_url"@
    } else if !m.contains_key("type"@) {
        "type"@
    } else {
        "url"@
    }
}

/// The decode message for a body lacking a required member.
pub open spec fn missing_member_text(name: Seq<char>) -> Seq<char> {
    "missing field "@ + name
}

/// The decode error for a missing required member.
fn missing_member(name: &str) -> (e: UploadError)
    ensures
        e matches UploadError::DecodeError(m) && m@ == missing_member_text(name@),
{
    UploadError::DecodeError("missing field ".to_owned().concat(name))
}

/// Reads the upload record out of a parsed response document. Succeeds
/// exactly where every required member is present as a string, and then
/// hands the member values out unchanged; otherwise reports the first
/// missing member.
pub fn extract_response(v: &serde_json::Value) -> (r: Result<UploadResponse, UploadError>)
    ensures
        match r {
            Ok(resp) => response_complete(value_str_fields(*v)) && response_matches(
                resp,
                value_str_fields(*v),
            ),
            Err(e) => !response_complete(value_str_fields(*v)) && (e
                matches UploadError::DecodeError(m) && m@ == missing_member_text(
                first_missing(value_str_fields(*v)),
            )),
        },
{
    let created_at = match get_str_member(v, "created_at") {
        Some(s) => s,
        None => {
            return Err(missing_member("created_at"));
        },
    };
    let image_id = match get_str_member(v, "image_id") {
        Some(s) => s,
        None => {
            return Err(missing_member("image_id"));
        },
    };
    let permalink_url = match get_str_member(v, "permalink_url") {
        Some(s) => s,
        None => {
            return Err(missing_member("permalink_url"));
        },
    };
    let thumb_url = match get_str_member(v, "thumb_url") {
        Some(s) => s,
        None => {
            return Err(missing_member("thumb_url"));
        },
    };
    let response_type = match get_str_member(v, "type") {
        Some(s) => s,
        None => {
            return Err(missing_member("type"));
        },
    };
    let url = match get_str_member(v, "url") {
        Some(s) => s,
        None => {
            return Err(missing_member("url"));
        },
    };
    Ok(
        UploadResponse {
            created_at,
            image_id,
            permalink_url,
            thumb_url,
            response_type,
            url,
        },
    )
}

/// Decodes a success response body. Succeeds exactly where the body is valid
/// JSON whose top-level object holds every required member as a string, and
/// then hands the member values out unchanged; every other body is a decode
/// error.
pub fn decode_body(body: &[u8]) -> (r: Result<UploadResponse, UploadError>)
    ensures
        match r {
            Ok(resp) => json_is_valid(body@) && response_complete(json_str_fields(body@))
                && response_matches(resp, json_str_fields(body@)),
            Err(e) => e matches UploadError::DecodeError(m) && !(json_is_valid(body@)
                && response_complete(json_str_fields(body@))) && (json_is_valid(body@) ==> m@
                == missing_member_text(first_missing(json_str_fields(body@)))),
        },
{
    match parse_json(body) {
        Ok(v) => extract_response(&v),
        Err(e) => Err(UploadError::DecodeError(json_error_text(&e))),
    }
}

/// Whether an HTTP status code counts as success.
pub open spec fn is_success_status(status: u16) -> bool {
    200 <= status < 300
}

/// Turns the service's answer into the typed result. Any non-success status
/// is surfaced with its code and without a record; a success status hands
/// the body to the decoder.
pub fn handle_response(status: u16, body: &[u8]) -> (r: Result<UploadResponse, UploadError>)
    ensures
        match r {
            Ok(resp) => is_success_status(status) && json_is_valid(body@) && response_complete(
                json_str_fields(body@),
            ) && response_matches(resp, json_str_fields(body@)),
            Err(e) => match e {
                UploadError::HttpStatusError(c) => c == status && !is_success_status(status),
                UploadError::DecodeError(m) => is_success_status(status) && !(json_is_valid(body@)
                    && response_complete(json_str_fields(body@))) && (json_is_valid(body@) ==> m@
                    == missing_member_text(first_missing(json_str_fields(body@)))),
                _ => false,
            },
        },
{
    if status < 200 || status >= 300 {
        return Err(UploadError::HttpStatusError(status));
    }
    decode_body(body)
}

/// Builds the upload form from the outcome of reading the image file. A
/// failed read is surfaced as a file-read error, and no form — so nothing to
/// send — exists in that case.
pub fn prepare_upload(
    file_read: Result<Vec<u8>, String>,
    access_token: &String,
    file_name: String,
    options: Option<&GyazoUploadOptions>,
) -> (r: Result<reqwest::multipart::Form, UploadError>)
    ensures
        match r {
            Ok(f) => file_read is Ok && form_texts(f) == spec_text_fields(
                access_token@,
                effective_options(options),
            ) && form_files(f) == seq![("imagedata"@, file_read->Ok_0@, Some(file_name@))],
            Err(e) => file_read is Err && (e matches UploadError::FileReadError(m) && m@
                == file_read->Err_0@),
        },
{
    match file_read {
        Ok(data) => Ok(build_upload_form(access_token, file_name, data, options)),
        Err(m) => Err(UploadError::FileReadError(m)),
    }
}

/// One where the condition holds, zero where it does not.
pub open spec fn ind(b: bool) -> nat {
    if b {
        1nat
    } else {
        0nat
    }
}

/// How many fields of a list satisfy a condition.
pub open spec fn count_if(
    s: Seq<(Seq<char>, Seq<char>)>,
    pred: spec_fn((Seq<char>, Seq<char>)) -> bool,
) -> nat
    decreases s.len(),
{
    if s.len() == 0 {
        0nat
    } else {
        count_if(s.drop_last(), pred) + ind(pred(s.last()))
    }
}

proof fn lemma_count_if_push(
    s: Seq<(Seq<char>, Seq<char>)>,
    x: (Seq<char>, Seq<char>),
    pred: spec_fn((Seq<char>, Seq<char>)) -> bool,
)
    ensures
        count_if(s.push(x), pred) == count_if(s, pred) + ind(pred(x)),
{
    assert(s.push(x).drop_last() =~= s);
    assert(s.push(x).last() == x);
}

/// Law: a condition holds of exactly as many outgoing text fields as of the
/// fields owed — the access-token field, and one field per populated option
/// under its fixed name with its canonical value. Every statement about
/// which fields go out, and how often, is an instance of this count.
proof fn lemma_count_head_fields(
    token: Seq<char>,
    o: GyazoUploadOptions,
    pred: spec_fn((Seq<char>, Seq<char>)) -> bool,
)
    ensures
        count_if(head_text_fields(token, o), pred) == ind(pred(("access_token"@, token))) + ind(
            o.access_policy is Some && pred(("access_policy"@, policy_text(o.access_policy->0))),
        ) + ind(
            o.metadata_is_public is Some && pred(
                ("metadata_is_public"@, bool_text(o.metadata_is_public->0)),
            ),
        ) + ind(o.referer_url is Some && pred(("referer_url"@, o.referer_url->0@))) + ind(
            o.app is Some && pred(("app"@, o.app->0@)),
        ),
{
    let s0 = seq![("access_token"@, token)];
    assert(count_if(s0, pred) == ind(pred(("access_token"@, token)))) by {
        reveal_with_fuel(count_if, 2);
        assert(s0.drop_last() =~= Seq::<(Seq<char>, Seq<char>)>::empty());
        assert(s0.last() == ("access_token"@, token));
    };
    let s1 = if o.access_policy is Some {
        s0.push(("access_policy"@, policy_text(o.access_policy->0)))
    } else {
        s0
    };
    if o.access_policy is Some {
        lemma_count_if_push(s0, ("access_policy"@, policy_text(o.access_policy->0)), pred);
    }
    let s2 = if o.metadata_is_public is Some {
        s1.push(("metadata_is_public"@, bool_text(o.metadata_is_public->0)))
    } else {
        s1
    };
    if o.metadata_is_public is Some {
        lemma_count_if_push(s1, ("metadata_is_public"@, bool_text(o.metadata_is_public->0)), pred);
    }
    let s3 = if o.referer_url is Some {
        s2.push(("referer_url"@, o.referer_url->0@))
    } else {
        s2
    };
    if o.referer_url is Some {
        lemma_count_if_push(s2, ("referer_url"@, o.referer_url->0@), pred);
    }
    let s4 = if o.app is Some {
        s3.push(("app"@, o.app->0@))
    } else {
        s3
    };
    if o.app is Some {
        lemma_count_if_push(s3, ("app"@, o.app->0@), pred);
    }
    assert(head_text_fields(token, o) == s4);
}

/// Law: a condition holds of exactly as many outgoing text fields as of the
/// fields owed — the access-token field, and one field per populated option
/// under its fixed name with its canonical value. Every statement about
/// which fields go out, and how often, is an instance of this count.
pub proof fn lemma_count_text_fields(
    token: Seq<char>,
    o: GyazoUploadOptions,
    pred: spec_fn((Seq<char>, Seq<char>)) -> bool,
)
    ensures
        count_if(spec_text_fields(token, o), pred) == ind(pred(("access_token"@, token))) + ind(
            o.access_policy is Some && pred(("access_policy"@, policy_text(o.access_policy->0))),
        ) + ind(
            o.metadata_is_public is Some && pred(
                ("metadata_is_public"@, bool_text(o.metadata_is_public->0)),
            ),
        ) + ind(o.referer_url is Some && pred(("referer_url"@, o.referer_url->0@))) + ind(
            o.app is Some && pred(("app"@, o.app->0@)),
        ) + ind(o.title is Some && pred(("title"@, o.title->0@))) + ind(
            o.desc is Some && pred(("desc"@, o.desc->0@)),
        ) + ind(o.created_at is Some && pred(("created_at"@, dec_text(o.created_at->0 as nat))))
            + ind(o.collection_id is Some && pred(("collection_id"@, o.collection_id->0@))),
{
    lemma_count_head_fields(token, o, pred);
    let s4 = head_text_fields(token, o);
    let s5 = if o.title is Some {
        s4.push(("title"@, o.title->0@))
    } else {
        s4
    };
    if o.title is Some {
        lemma_count_if_push(s4, ("title"@, o.title->0@), pred);
    }
    let s6 = if o.desc is Some {
        s5.push(("desc"@, o.desc->0@))
    } else {
        s5
    };
    if o.desc is Some {
        lemma_count_if_push(s5, ("desc"@, o.desc->0@), pred);
    }
    let s7 = if o.created_at is Some {
        s6.push(("created_at"@, dec_text(o.created_at->0 as nat)))
    } else {
        s6
    };
    if o.created_at is Some {
        lemma_count_if_push(s6, ("created_at"@, dec_text(o.created_at->0 as nat)), pred);
    }
    let s8 = if o.collection_id is Some {
        s7.push(("collection_id"@, o.collection_id->0@))
    } else {
        s7
    };
    if o.collection_id is Some {
        lemma_count_if_push(s7, ("collection_id"@, o.collection_id->0@), pred);
    }
    assert(spec_text_fields(token, o) == s8);
}

/// Law: with no option populated, the outgoing text fields are exactly the
/// access-token field and nothing else. (The one image part beside it is
/// stated by the `form_files` clause of `build_upload_form`.)
pub proof fn lemma_no_options_only_token(token: Seq<char>)
    ensures
        spec_text_fields(token, empty_options()) == seq![("access_token"@, token)],
{
    assert(spec_text_fields(token, empty_options()) =~= seq![("access_token"@, token)]);
}

/// Law: a given field name occurs in the outgoing text fields exactly once
/// where it is the access-token field's or a populated option's fixed name,
/// and never otherwise.
pub proof fn lemma_one_field_per_option(token: Seq<char>, o: GyazoUploadOptions, name: Seq<char>)
    ensures
        count_if(spec_text_fields(token, o), |p: (Seq<char>, Seq<char>)| p.0 == name) == ind(
            name == "access_token"@,
        ) + ind(o.access_policy is Some && name == "access_policy"@) + ind(
            o.metadata_is_public is Some && name == "metadata_is_public"@,
        ) + ind(o.referer_url is Some && name == "referer_url"@) + ind(
            o.app is Some && name == "app"@,
        ) + ind(o.title is Some && name == "title"@) + ind(o.desc is Some && name == "desc"@)
            + ind(o.created_at is Some && name == "created_at"@) + ind(
            o.collection_id is Some && name == "collection_id"@,
        ),
{
    lemma_count_text_fields(token, o, |p: (Seq<char>, Seq<char>)| p.0 == name);
}

/// Law: a (name, value) pair occurs in the outgoing text fields exactly once
/// where it is the access-token field or a populated option's field with its
/// canonical value — booleans as `true`/`false`, timestamps as decimal —
/// and never otherwise.
pub proof fn lemma_canonical_field_values(
    token: Seq<char>,
    o: GyazoUploadOptions,
    name: Seq<char>,
    value: Seq<char>,
)
    ensures
        count_if(spec_text_fields(token, o), |p: (Seq<char>, Seq<char>)| p == (name, value)) == ind(
            (name, value) == ("access_token"@, token),
        ) + ind(
            o.access_policy is Some && (name, value) == (
                "access_policy"@,
                policy_text(o.access_policy->0),
            ),
        ) + ind(
            o.metadata_is_public is Some && (name, value) == (
                "metadata_is_public"@,
                bool_text(o.metadata_is_public->0),
            ),
        ) + ind(o.referer_url is Some && (name, value) == ("referer_url"@, o.referer_url->0@))
            + ind(o.app is Some && (name, value) == ("app"@, o.app->0@)) + ind(
            o.title is Some && (name, value) == ("title"@, o.title->0@),
        ) + ind(o.desc is Some && (name, value) == ("desc"@, o.desc->0@)) + ind(
            o.created_at is Some && (name, value) == (
                "created_at"@,
                dec_text(o.created_at->0 as nat),
            ),
        ) + ind(
            o.collection_id is Some && (name, value) == ("collection_id"@, o.collection_id->0@),
        ),
{
    lemma_count_text_fields(token, o, |p: (Seq<char>, Seq<char>)| p == (name, value));
}

} // verus!
