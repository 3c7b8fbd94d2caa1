//! The protocol client's computations: the authentication header, request
//! URLs, the declarative header tables, the JSON request bodies, and the
//! classification of responses into the typed error.
//!
//! The HTTP calls themselves live outside the library; callers hand the
//! outcome of each call back in as plain values.

use vstd::prelude::*;
use vstd::string::StrSliceExecFns;
use vstd::string::StringExecFns;
use vstd::string::StringSliceAdditionalSpecFns;
use base64::Engine;
use crate::encoding::dec_chars_of;
use crate::encoding::json_string_of;
use crate::encoding::percent_encode;
use crate::encoding::percent_encoding_of;
use crate::encoding::push_char;
use crate::encoding::push_dec;
use crate::encoding::push_json_string;
use crate::encoding::u64_string;
use crate::structs::B2FileRetention;
use crate::structs::B2FileRetentionPeriod;
use crate::structs::B2UpdateFileRetentionBody;
use crate::structs::B2BasicError;
use crate::structs::B2BasicErrorBody;
use crate::structs::B2FinishLargeFileBody;
use crate::structs::B2GetUploadUrlBody;
use crate::structs::B2ListFilesBody;
use crate::structs::B2StartLargeFileUploadBody;
use crate::structs::B2UploadFileHeaders;
use crate::structs::B2UploadPartHeaders;

verus! {

// ---------------------------------------------------------------------
// Authentication
// ---------------------------------------------------------------------
/// The base64 encoding (standard alphabet, unpadded) of `key_id:secret`,
/// as the Basic authentication scheme carries it.
pub uninterp spec fn basic_auth_of(key_id: Seq<char>, secret: Seq<char>) -> Seq<char>;

/// Relies on base64's `STANDARD_NO_PAD` engine: the encoding of
/// `key_id:secret` depends on the two strings alone.
#[verifier::external_body]
fn encode_credentials(key_id: &str, secret: &str) -> (r: String)
    requires
        key_id.spec_bytes().len() + secret.spec_bytes().len() < 0x10000000,
    ensures
        r@ == basic_auth_of(key_id@, secret@),
{
    base64::engine::general_purpose::STANDARD_NO_PAD.encode(format!("{}:{}", key_id, secret))
}

/// The value of the Authorization header of the account-authorization call.
pub fn basic_auth_header(key_id: &str, secret: &str) -> (r: String)
    requires
        key_id.spec_bytes().len() + secret.spec_bytes().len() < 0x10000000,
    ensures
        r@ == "Basic "@ + basic_auth_of(key_id@, secret@),
{
    let encoded = encode_credentials(key_id, secret);
    let mut out = "Basic ".to_owned();
    out.append(encoded.as_str());
    out
}

/// The content type every upload declares; the service detects the real
/// type itself.
pub fn auto_content_type() -> (r: &'static str)
    ensures
        r@ == "b2/x-auto"@,
{
    "b2/x-auto"
}

// ---------------------------------------------------------------------
// Request URLs
// ---------------------------------------------------------------------
/// The URL of a named API call under the session's API base.
pub fn api_url(api_base: &str, api_name: &str) -> (r: String)
    ensures
        r@ == api_base@ + "/b2api/v2/"@ + api_name@,
{
    let mut out = api_base.to_owned();
    out.append("/b2api/v2/");
    out.append(api_name);
    out
}

/// The URL of a get-upload-part-url call: the file handle rides along as a
/// percent-encoded query value.
pub fn upload_part_url_query(api_base: &str, file_id: &str) -> (r: String)
    ensures
        r@ == api_base@ + "/b2api/v2/"@ + "b2_get_upload_part_url"@ + "?fileId="@
            + percent_encoding_of(file_id.spec_bytes()),
{
    let mut out = api_url(api_base, "b2_get_upload_part_url");
    out.append("?fileId=");
    let encoded = percent_encode(file_id);
    out.append(encoded.as_str());
    out
}

// ---------------------------------------------------------------------
// Response classification
// ---------------------------------------------------------------------
/// Whether an HTTP status signals an error, whatever the body holds.
pub fn is_error_status(status: u16) -> (r: bool)
    ensures
        r == (status >= 400),
{
    status >= 400
}

/// Whether a part-upload failure is the transient service-busy signal that
/// asks for a fresh part URL and a retry of the same part. Only this exact
/// status is retryable at the part level.
pub fn is_service_busy(err: &B2BasicError) -> (r: bool)
    ensures
        r == (err matches B2BasicError::RequestError(b) && b.status == 503),
{
    match err {
        B2BasicError::RequestError(b) => b.status == 503,
        _ => false,
    }
}

/// What one protocol call came back with, before classification: a
/// transport failure, or a response with its status, the decode attempt of
/// the success body, and the decode attempt of the error body.
pub enum RawResponse<T> {
    /// The request could not be sent or the response not received.
    TransportFailed(String),
    /// A response arrived with this status; `decoded` is the success body's
    /// decode attempt (its failure text otherwise), `error_body` the error
    /// body's decode when one arrived and decoded.
    Arrived(u16, Result<T, String>, Option<B2BasicErrorBody>),
}

/// Classifies one response: a transport failure is `RequestSendError`; a
/// status of 400 or above is `RequestError`, carrying the decoded error
/// body or an empty one with the same status; below 400 the decoded body is
/// the result, and a body that would not decode is `JsonParseError`.
pub fn handle_response<T>(outcome: RawResponse<T>) -> (res: Result<T, B2BasicError>)
    ensures
        (match outcome {
            RawResponse::TransportFailed(m) => res matches Err(e) && e == B2BasicError::RequestSendError(
                m,
            ),
            RawResponse::Arrived(status, decoded, error_body) => {
                if status >= 400 {
                    match error_body {
                        Some(b) => res matches Err(e) && e == B2BasicError::RequestError(b),
                        None => res matches Err(e) && (e matches B2BasicError::RequestError(b)
                            && b.status == status && b.code@.len() == 0 && b.message@.len() == 0),
                    }
                } else {
                    match decoded {
                        Ok(v) => res matches Ok(w) && w == v,
                        Err(m) => res matches Err(e) && e == B2BasicError::JsonParseError(m),
                    }
                }
            },
        }),
{
    match outcome {
        RawResponse::TransportFailed(m) => Err(B2BasicError::RequestSendError(m)),
        RawResponse::Arrived(status, decoded, error_body) => {
            if status >= 400 {
                match error_body {
                    Some(b) => Err(B2BasicError::RequestError(b)),
                    None => Err(
                        B2BasicError::RequestError(
                            B2BasicErrorBody { status, code: String::new(), message: String::new() },
                        ),
                    ),
                }
            } else {
                match decoded {
                    Ok(v) => Ok(v),
                    Err(m) => Err(B2BasicError::JsonParseError(m)),
                }
            }
        },
    }
}

// ---------------------------------------------------------------------
// Header tables
// ---------------------------------------------------------------------
/// One header pair when the value is nonempty, nothing otherwise: empty or
/// absent values are omitted from the outgoing request, never sent empty.
pub open spec fn str_pair(name: Seq<char>, value: Seq<char>) -> Seq<(Seq<char>, Seq<char>)> {
    if value.len() > 0 {
        seq![(name, value)]
    } else {
        Seq::empty()
    }
}

pub open spec fn opt_str_pair(name: Seq<char>, value: Option<String>) -> Seq<
    (Seq<char>, Seq<char>),
> {
    match value {
        Some(s) => str_pair(name, s@),
        None => Seq::empty(),
    }
}

/// A numeric header pair; a decimal rendering is never empty.
pub open spec fn num_pair(name: Seq<char>, value: nat) -> Seq<(Seq<char>, Seq<char>)> {
    seq![(name, dec_chars_of(value))]
}

pub open spec fn opt_num_pair(name: Seq<char>, value: Option<u32>) -> Seq<
    (Seq<char>, Seq<char>),
> {
    match value {
        Some(v) => num_pair(name, v as nat),
        None => Seq::empty(),
    }
}

fn push_str_pair(out: &mut Vec<(String, String)>, name: &str, value: &str)
    ensures
        final(out).deep_view() == old(out).deep_view() + str_pair(name@, value@),
{
    if !value.is_empty() {
        out.push((name.to_owned(), value.to_owned()));
    }
    proof {
        assert(out.deep_view() =~= old(out).deep_view() + str_pair(name@, value@));
    }
}

fn push_num_pair(out: &mut Vec<(String, String)>, name: &str, value: u64)
    ensures
        final(out).deep_view() == old(out).deep_view() + num_pair(name@, value as nat),
{
    out.push((name.to_owned(), u64_string(value)));
    proof {
        assert(out.deep_view() =~= old(out).deep_view() + num_pair(name@, value as nat));
    }
}

impl B2UploadFileHeaders {
    /// The wire headers of a single-shot upload: a fixed table of field to
    /// header name, with empty or absent values left out.
    pub open spec fn spec_header_pairs(self) -> Seq<(Seq<char>, Seq<char>)> {
        str_pair("Authorization"@, self.authorization@) + str_pair(
            "X-Bz-File-Name"@,
            self.file_name@,
        ) + str_pair("Content-Type"@, self.content_type@) + num_pair(
            "Content-Length"@,
            self.content_length as nat,
        ) + str_pair("X-Bz-Content-Sha1"@, self.content_sha1@) + opt_num_pair(
            "X-Bz-Info-src_last_modified_millis"@,
            self.src_last_modified_millis,
        ) + opt_str_pair("X-Bz-Info-b2-content-disposition"@, self.b2_content_disposition)
            + opt_str_pair("X-Bz-Info-b2-content-language"@, self.b2_content_language)
            + opt_str_pair("X-Bz-Info-b2-expires"@, self.b2_expires) + opt_str_pair(
            "X-Bz-Info-b2-cache-control"@,
            self.b2_cache_control,
        ) + opt_str_pair("X-Bz-Info-b2-content-encoding"@, self.b2_content_encoding)
            + opt_num_pair("X-Bz-Custom-Upload-Timestamp"@, self.custom_upload_timestamp) + (
        match self.legal_hold {
            Some(h) => str_pair("X-Bz-File-Legal-Hold"@, h.wire_name()),
            None => Seq::empty(),
        }) + (match self.retention_mode {
            Some(m) => str_pair("X-Bz-File-Retention-Mode"@, m.wire_name()),
            None => Seq::empty(),
        }) + opt_num_pair(
            "X-Bz-File-Retention-Retain-Until-Timestamp"@,
            self.retention_retain_until_timestamp,
        ) + (match self.server_side_encryption {
            Some(a) => str_pair("X-Bz-Server-Side-Encryption"@, a.wire_name()),
            None => Seq::empty(),
        }) + (match self.server_side_encryption_customer_algorithm {
            Some(a) => str_pair("X-Bz-Server-Side-Encryption-Customer-Algorithm"@, a.wire_name()),
            None => Seq::empty(),
        }) + opt_str_pair(
            "X-Bz-Server-Side-Encryption-Customer-Key"@,
            self.server_side_encryption_customer_key,
        ) + opt_str_pair(
            "X-Bz-Server-Side-Encryption-Customer-Key-Md5"@,
            self.server_side_encryption_customer_key_md5,
        )
    }

    #[verifier::rlimit(100)]
    pub fn header_pairs(&self) -> (r: Vec<(String, String)>)
        ensures
            r.deep_view() == self.spec_header_pairs(),
    {
        let mut out: Vec<(String, String)> = Vec::new();
        push_str_pair(&mut out, "Authorization", self.authorization.as_str());
        push_str_pair(&mut out, "X-Bz-File-Name", self.file_name.as_str());
        push_str_pair(&mut out, "Content-Type", self.content_type.as_str());
        push_num_pair(&mut out, "Content-Length", self.content_length as u64);
        push_str_pair(&mut out, "X-Bz-Content-Sha1", self.content_sha1.as_str());
        match &self.src_last_modified_millis {
            Some(v) => push_num_pair(&mut out, "X-Bz-Info-src_last_modified_millis", *v as u64),
            None => (),
        }
        match &self.b2_content_disposition {
            Some(s) => push_str_pair(&mut out, "X-Bz-Info-b2-content-disposition", s.as_str()),
            None => (),
        }
        match &self.b2_content_language {
            Some(s) => push_str_pair(&mut out, "X-Bz-Info-b2-content-language", s.as_str()),
            None => (),
        }
        match &self.b2_expires {
            Some(s) => push_str_pair(&mut out, "X-Bz-Info-b2-expires", s.as_str()),
            None => (),
        }
        match &self.b2_cache_control {
            Some(s) => push_str_pair(&mut out, "X-Bz-Info-b2-cache-control", s.as_str()),
            None => (),
        }
        match &self.b2_content_encoding {
            Some(s) => push_str_pair(&mut out, "X-Bz-Info-b2-content-encoding", s.as_str()),
            None => (),
        }
        match &self.custom_upload_timestamp {
            Some(v) => push_num_pair(&mut out, "X-Bz-Custom-Upload-Timestamp", *v as u64),
            None => (),
        }
        match &self.legal_hold {
            Some(h) => push_str_pair(&mut out, "X-Bz-File-Legal-Hold", h.as_str()),
            None => (),
        }
        match &self.retention_mode {
            Some(m) => push_str_pair(&mut out, "X-Bz-File-Retention-Mode", m.as_str()),
            None => (),
        }
        match &self.retention_retain_until_timestamp {
            Some(v) => push_num_pair(
                &mut out,
                "X-Bz-File-Retention-Retain-Until-Timestamp",
                *v as u64,
            ),
            None => (),
        }
        match &self.server_side_encryption {
            Some(a) => push_str_pair(&mut out, "X-Bz-Server-Side-Encryption", a.as_str()),
            None => (),
        }
        match &self.server_side_encryption_customer_algorithm {
            Some(a) => push_str_pair(
                &mut out,
                "X-Bz-Server-Side-Encryption-Customer-Algorithm",
                a.as_str(),
            ),
            None => (),
        }
        match &self.server_side_encryption_customer_key {
            Some(s) => push_str_pair(
                &mut out,
                "X-Bz-Server-Side-Encryption-Customer-Key",
                s.as_str(),
            ),
            None => (),
        }
        match &self.server_side_encryption_customer_key_md5 {
            Some(s) => push_str_pair(
                &mut out,
                "X-Bz-Server-Side-Encryption-Customer-Key-Md5",
                s.as_str(),
            ),
            None => (),
        }
        proof {
            assert(out.deep_view() =~= self.spec_header_pairs());
        }
        out
    }
}

impl B2UploadPartHeaders {
    /// The wire headers of one part upload.
    pub open spec fn spec_header_pairs(self) -> Seq<(Seq<char>, Seq<char>)> {
        str_pair("Authorization"@, self.authorization@) + num_pair(
            "X-Bz-Part-Number"@,
            self.part_number as nat,
        ) + num_pair("Content-Length"@, self.content_length as nat) + str_pair(
            "X-Bz-Content-Sha1"@,
            self.content_sha1@,
        ) + (match self.server_side_encryption_customer_algorithm {
            Some(a) => str_pair("X-Bz-Server-Side-Encryption-Customer-Algorithm"@, a.wire_name()),
            None => Seq::empty(),
        }) + opt_str_pair(
            "X-Bz-Server-Side-Encryption-Customer-Key"@,
            self.server_side_encryption_customer_key,
        ) + opt_str_pair(
            "X-Bz-Server-Side-Encryption-Customer-Key-Md5"@,
            self.server_side_encryption_customer_key_md5,
        )
    }

    pub fn header_pairs(&self) -> (r: Vec<(String, String)>)
        ensures
            r.deep_view() == self.spec_header_pairs(),
    {
        let mut out: Vec<(String, String)> = Vec::new();
        push_str_pair(&mut out, "Authorization", self.authorization.as_str());
        push_num_pair(&mut out, "X-Bz-Part-Number", self.part_number as u64);
        push_num_pair(&mut out, "Content-Length", self.content_length as u64);
        push_str_pair(&mut out, "X-Bz-Content-Sha1", self.content_sha1.as_str());
        match &self.server_side_encryption_customer_algorithm {
            Some(a) => push_str_pair(
                &mut out,
                "X-Bz-Server-Side-Encryption-Customer-Algorithm",
                a.as_str(),
            ),
            None => (),
        }
        match &self.server_side_encryption_customer_key {
            Some(s) => push_str_pair(
                &mut out,
                "X-Bz-Server-Side-Encryption-Customer-Key",
                s.as_str(),
            ),
            None => (),
        }
        match &self.server_side_encryption_customer_key_md5 {
            Some(s) => push_str_pair(
                &mut out,
                "X-Bz-Server-Side-Encryption-Customer-Key-Md5",
                s.as_str(),
            ),
            None => (),
        }
        proof {
            assert(out.deep_view() =~= self.spec_header_pairs());
        }
        out
    }
}

/// The wire headers a metadata map adds to a single-shot upload: each key
/// under the fixed custom-header-name prefix, with empty values omitted.
pub open spec fn spec_info_header_pairs(info: Seq<(Seq<char>, Seq<char>)>) -> Seq<
    (Seq<char>, Seq<char>),
>
    decreases info.len(),
{
    if info.len() == 0 {
        Seq::empty()
    } else {
        str_pair("X-Bz-Info-"@ + info[0].0, info[0].1) + spec_info_header_pairs(info.skip(1))
    }
}

proof fn lemma_info_header_pairs_push(info: Seq<(Seq<char>, Seq<char>)>, p: (Seq<char>, Seq<char>))
    ensures
        spec_info_header_pairs(info.push(p)) == spec_info_header_pairs(info) + str_pair(
            "X-Bz-Info-"@ + p.0,
            p.1,
        ),
    decreases info.len(),
{
    if info.len() == 0 {
        assert(info.push(p).skip(1) =~= Seq::<(Seq<char>, Seq<char>)>::empty());
        assert(info.push(p)[0] == p);
        assert(spec_info_header_pairs(Seq::<(Seq<char>, Seq<char>)>::empty()) =~= Seq::<
            (Seq<char>, Seq<char>),
        >::empty());
        assert(spec_info_header_pairs(info.push(p)) =~= spec_info_header_pairs(info) + str_pair(
            "X-Bz-Info-"@ + p.0,
            p.1,
        ));
    } else {
        assert(info.push(p).skip(1) =~= info.skip(1).push(p));
        assert(info.push(p)[0] == info[0]);
        lemma_info_header_pairs_push(info.skip(1), p);
        assert(spec_info_header_pairs(info.push(p)) =~= spec_info_header_pairs(info) + str_pair(
            "X-Bz-Info-"@ + p.0,
            p.1,
        ));
    }
}

/// Maps a metadata list to its wire headers.
pub fn file_info_header_pairs(info: &Vec<(String, String)>) -> (r: Vec<(String, String)>)
    ensures
        r.deep_view() == spec_info_header_pairs(info.deep_view()),
{
    let mut out: Vec<(String, String)> = Vec::new();
    let n = info.len();
    let mut i: usize = 0;
    while i < n
        invariant
            i <= n == info@.len(),
            out.deep_view() == spec_info_header_pairs(info.deep_view().take(i as int)),
        decreases n - i,
    {
        let mut name = "X-Bz-Info-".to_owned();
        name.append(info[i].0.as_str());
        push_str_pair(&mut out, name.as_str(), info[i].1.as_str());
        proof {
            let ghost dv = info.deep_view();
            assert(dv.take(i + 1 as int) =~= dv.take(i as int).push(dv[i as int]));
            lemma_info_header_pairs_push(dv.take(i as int), dv[i as int]);
            assert(out.deep_view() =~= spec_info_header_pairs(dv.take(i + 1 as int)));
        }
        i = i + 1;
    }
    proof {
        assert(info.deep_view().take(n as int) =~= info.deep_view());
    }
    out
}

// ---------------------------------------------------------------------
// JSON request bodies
// ---------------------------------------------------------------------
/// Renderings joined by commas, as the members of a JSON object or array.
pub open spec fn comma_joined(items: Seq<Seq<char>>) -> Seq<char>
    decreases items.len(),
{
    if items.len() == 0 {
        Seq::empty()
    } else if items.len() == 1 {
        items[0]
    } else {
        items[0] + seq![','] + comma_joined(items.skip(1))
    }
}

proof fn lemma_comma_joined_push(items: Seq<Seq<char>>, x: Seq<char>)
    ensures
        comma_joined(items.push(x)) == if items.len() == 0 {
            x
        } else {
            comma_joined(items) + seq![','] + x
        },
    decreases items.len(),
{
    if items.len() == 0 {
        assert(items.push(x)[0] == x);
        assert(comma_joined(items.push(x)) == x);
    } else if items.len() == 1 {
        assert(items.push(x)[0] == items[0]);
        assert(items.push(x).skip(1) =~= items.skip(1).push(x));
        assert(items.skip(1).push(x) =~= seq![x]);
        assert(comma_joined(seq![x]) == x);
        assert(comma_joined(items.push(x)) =~= comma_joined(items) + seq![','] + x);
    } else {
        assert(items.push(x)[0] == items[0]);
        assert(items.push(x).skip(1) =~= items.skip(1).push(x));
        lemma_comma_joined_push(items.skip(1), x);
        assert(comma_joined(items.push(x)) =~= comma_joined(items) + seq![','] + x);
    }
}

/// The body of a get-upload-url request.
pub open spec fn spec_get_upload_url_body(bucket_id: Seq<char>) -> Seq<char> {
    "{\"bucketId\":"@ + json_string_of(bucket_id) + "}"@
}

pub fn get_upload_url_body(body: &B2GetUploadUrlBody) -> (r: String)
    ensures
        r@ == spec_get_upload_url_body(body.bucket_id@),
{
    let mut out = "{\"bucketId\":".to_owned();
    push_json_string(&mut out, body.bucket_id.as_str());
    out.append("}");
    proof {
        assert(out@ =~= spec_get_upload_url_body(body.bucket_id@));
    }
    out
}

/// One member of a fileInfo object: the percent-encoded key and value as a
/// JSON pair.
pub open spec fn spec_file_info_member(p: (Seq<char>, Seq<char>)) -> Seq<char> {
    json_string_of(p.0) + seq![':'] + json_string_of(p.1)
}

/// The rendered members of a fileInfo object, in the given order.
pub open spec fn spec_file_info_members(info: Seq<(Seq<char>, Seq<char>)>) -> Seq<Seq<char>> {
    Seq::new(info.len(), |i: int| spec_file_info_member(info[i]))
}

/// Each digest rendered as a JSON string literal, in the given order.
pub open spec fn spec_json_string_items(items: Seq<Seq<char>>) -> Seq<Seq<char>> {
    Seq::new(items.len(), |i: int| json_string_of(items[i]))
}

/// The body of a start-large-file request; the fileInfo object appears only
/// when metadata was given.
pub open spec fn spec_start_large_file_body(
    bucket_id: Seq<char>,
    file_name: Seq<char>,
    content_type: Seq<char>,
    info: Seq<(Seq<char>, Seq<char>)>,
) -> Seq<char> {
    let base = "{\"bucketId\":"@ + json_string_of(bucket_id) + ",\"fileName\":"@ + json_string_of(
        file_name,
    ) + ",\"contentType\":"@ + json_string_of(content_type);
    if info.len() == 0 {
        base + "}"@
    } else {
        base + ",\"fileInfo\":{"@ + comma_joined(spec_file_info_members(info)) + "}}"@
    }
}

pub fn start_large_file_body(body: &B2StartLargeFileUploadBody) -> (r: String)
    ensures
        r@ == spec_start_large_file_body(
            body.bucket_id@,
            body.file_name@,
            body.content_type@,
            body.file_info.deep_view(),
        ),
{
    let mut out = "{\"bucketId\":".to_owned();
    push_json_string(&mut out, body.bucket_id.as_str());
    out.append(",\"fileName\":");
    push_json_string(&mut out, body.file_name.as_str());
    out.append(",\"contentType\":");
    push_json_string(&mut out, body.content_type.as_str());
    let n = body.file_info.len();
    if n == 0 {
        out.append("}");
        proof {
            assert(out@ =~= spec_start_large_file_body(
                body.bucket_id@,
                body.file_name@,
                body.content_type@,
                body.file_info.deep_view(),
            ));
        }
        return out;
    }
    out.append(",\"fileInfo\":{");
    let ghost info = body.file_info.deep_view();
    let ghost members = spec_file_info_members(info);
    let ghost prefix = out@;
    let mut i: usize = 0;
    while i < n
        invariant
            0 < n == body.file_info@.len(),
            info == body.file_info.deep_view(),
            members == spec_file_info_members(info),
            i <= n,
            out@ == prefix + comma_joined(members.take(i as int)),
        decreases n - i,
    {
        if i > 0 {
            push_char(&mut out, ',');
        }
        let pair = &body.file_info[i];
        push_json_string(&mut out, pair.0.as_str());
        push_char(&mut out, ':');
        push_json_string(&mut out, pair.1.as_str());
        proof {
            assert(members.take(i + 1 as int) =~= members.take(i as int).push(members[i as int]));
            lemma_comma_joined_push(members.take(i as int), members[i as int]);
            assert(members[i as int] == spec_file_info_member(info[i as int]));
            assert(out@ =~= prefix + comma_joined(members.take(i + 1 as int)));
        }
        i = i + 1;
    }
    out.append("}}");
    proof {
        assert(members.take(n as int) =~= members);
        assert(out@ =~= spec_start_large_file_body(
            body.bucket_id@,
            body.file_name@,
            body.content_type@,
            info,
        ));
    }
    out
}

/// The body of a finish-large-file request: the file handle and the digest
/// list, in part order.
pub open spec fn spec_finish_large_file_body(file_id: Seq<char>, sha1s: Seq<Seq<char>>) -> Seq<
    char,
> {
    "{\"fileId\":"@ + json_string_of(file_id) + ",\"partSha1Array\":["@ + comma_joined(
        spec_json_string_items(sha1s),
    ) + "]}"@
}

pub fn finish_large_file_body(body: &B2FinishLargeFileBody) -> (r: String)
    ensures
        r@ == spec_finish_large_file_body(body.file_id@, body.part_sha1_array.deep_view()),
{
    let mut out = "{\"fileId\":".to_owned();
    push_json_string(&mut out, body.file_id.as_str());
    out.append(",\"partSha1Array\":[");
    let ghost sha1s = body.part_sha1_array.deep_view();
    let ghost members = spec_json_string_items(sha1s);
    let ghost prefix = out@;
    let n = body.part_sha1_array.len();
    let mut i: usize = 0;
    while i < n
        invariant
            n == body.part_sha1_array@.len(),
            sha1s == body.part_sha1_array.deep_view(),
            members == spec_json_string_items(sha1s),
            i <= n,
            out@ == prefix + comma_joined(members.take(i as int)),
        decreases n - i,
    {
        if i > 0 {
            push_char(&mut out, ',');
        }
        push_json_string(&mut out, body.part_sha1_array[i].as_str());
        proof {
            assert(members.take(i + 1 as int) =~= members.take(i as int).push(members[i as int]));
            lemma_comma_joined_push(members.take(i as int), members[i as int]);
            assert(members[i as int] == json_string_of(sha1s[i as int]));
            assert(out@ =~= prefix + comma_joined(members.take(i + 1 as int)));
        }
        i = i + 1;
    }
    out.append("]}");
    proof {
        assert(members.take(n as int) =~= members);
        assert(out@ =~= spec_finish_large_file_body(body.file_id@, sha1s));
    }
    out
}

/// The body of a list-file-names request; absent options are left out.
pub open spec fn spec_list_files_body(
    bucket_id: Seq<char>,
    start_file_name: Option<String>,
    max_file_count: Option<u32>,
    prefix: Option<String>,
    delimiter: Option<String>,
) -> Seq<char> {
    "{"@ + comma_joined(
        spec_list_files_members(bucket_id, start_file_name, max_file_count, prefix, delimiter),
    ) + "}"@
}

pub fn list_files_body(body: &B2ListFilesBody) -> (r: String)
    ensures
        r@ == spec_list_files_body(
            body.bucket_id@,
            body.start_file_name,
            body.max_file_count,
            body.prefix,
            body.delimiter,
        ),
{
    let mut members: Vec<String> = Vec::new();
    let mut m0 = "\"bucketId\":".to_owned();
    push_json_string(&mut m0, body.bucket_id.as_str());
    members.push(m0);
    match &body.start_file_name {
        Some(s) => {
            let mut m = "\"startFileName\":".to_owned();
            push_json_string(&mut m, s.as_str());
            members.push(m);
        },
        None => (),
    }
    match &body.max_file_count {
        Some(c) => {
            let mut m = "\"maxFileCount\":".to_owned();
            let rendered = u64_string(*c as u64);
            m.append(rendered.as_str());
            members.push(m);
        },
        None => (),
    }
    match &body.prefix {
        Some(s) => {
            let mut m = "\"prefix\":".to_owned();
            push_json_string(&mut m, s.as_str());
            members.push(m);
        },
        None => (),
    }
    match &body.delimiter {
        Some(s) => {
            let mut m = "\"delimiter\":".to_owned();
            push_json_string(&mut m, s.as_str());
            members.push(m);
        },
        None => (),
    }
    proof {
        assert(members.deep_view() =~= spec_list_files_members(
            body.bucket_id@,
            body.start_file_name,
            body.max_file_count,
            body.prefix,
            body.delimiter,
        ));
    }
    let joined = join_comma(&members);
    let mut out = "{".to_owned();
    out.append(joined.as_str());
    out.append("}");
    proof {
        assert(out@ =~= spec_list_files_body(
            body.bucket_id@,
            body.start_file_name,
            body.max_file_count,
            body.prefix,
            body.delimiter,
        ));
    }
    out
}

/// A retention period as the wire carries it, or a JSON null.
pub open spec fn spec_retention_period(p: Option<B2FileRetentionPeriod>) -> Seq<char> {
    match p {
        Some(period) => "{\"duration\":"@ + dec_chars_of(period.duration as nat) + ",\"unit\":"@
            + json_string_of(period.unit@) + "}"@,
        None => "null"@,
    }
}

/// A file-retention value: the mode always, the period only when a mode is
/// set.
pub open spec fn spec_file_retention(r: B2FileRetention) -> Seq<char> {
    match r.mode {
        Some(m) => "{\"mode\":"@ + json_string_of(m@) + ",\"period\":"@ + spec_retention_period(
            r.period,
        ) + "}"@,
        None => "{\"mode\":null}"@,
    }
}

/// The body of an update-file-retention request.
pub open spec fn spec_update_file_retention_body(b: B2UpdateFileRetentionBody) -> Seq<char> {
    "{\"fileName\":"@ + json_string_of(b.file_name@) + ",\"fileId\":"@ + json_string_of(b.file_id@)
        + ",\"fileRetention\":"@ + spec_file_retention(b.file_retention) + (
    match b.bypass_governance {
        Some(true) => ",\"bypassGovernance\":true}"@,
        Some(false) => ",\"bypassGovernance\":false}"@,
        None => "}"@,
    })
}

pub fn update_file_retention_body(body: &B2UpdateFileRetentionBody) -> (r: String)
    ensures
        r@ == spec_update_file_retention_body(*body),
{
    let mut out = "{\"fileName\":".to_owned();
    push_json_string(&mut out, body.file_name.as_str());
    out.append(",\"fileId\":");
    push_json_string(&mut out, body.file_id.as_str());
    out.append(",\"fileRetention\":");
    match &body.file_retention.mode {
        Some(mode) => {
            out.append("{\"mode\":");
            push_json_string(&mut out, mode.as_str());
            out.append(",\"period\":");
            match &body.file_retention.period {
                Some(period) => {
                    out.append("{\"duration\":");
                    push_dec(&mut out, period.duration);
                    out.append(",\"unit\":");
                    push_json_string(&mut out, period.unit.as_str());
                    out.append("}");
                },
                None => {
                    out.append("null");
                },
            }
            out.append("}");
        },
        None => {
            out.append("{\"mode\":null}");
        },
    }
    match &body.bypass_governance {
        Some(true) => out.append(",\"bypassGovernance\":true}"),
        Some(false) => out.append(",\"bypassGovernance\":false}"),
        None => out.append("}"),
    }
    proof {
        assert(out@ =~= spec_update_file_retention_body(*body));
    }
    out
}

/// The member list of a list-file-names body.
pub open spec fn spec_list_files_members(
    bucket_id: Seq<char>,
    start_file_name: Option<String>,
    max_file_count: Option<u32>,
    prefix: Option<String>,
    delimiter: Option<String>,
) -> Seq<Seq<char>> {
    seq!["\"bucketId\":"@ + json_string_of(bucket_id)] + (match start_file_name {
        Some(s) => seq!["\"startFileName\":"@ + json_string_of(s@)],
        None => Seq::empty(),
    }) + (match max_file_count {
        Some(c) => seq!["\"maxFileCount\":"@ + dec_chars_of(c as nat)],
        None => Seq::empty(),
    }) + (match prefix {
        Some(s) => seq!["\"prefix\":"@ + json_string_of(s@)],
        None => Seq::empty(),
    }) + (match delimiter {
        Some(s) => seq!["\"delimiter\":"@ + json_string_of(s@)],
        None => Seq::empty(),
    })
}

/// Joins rendered members with commas.
pub fn join_comma(items: &Vec<String>) -> (r: String)
    ensures
        r@ == comma_joined(items.deep_view()),
{
    let mut out = String::new();
    let n = items.len();
    let mut i: usize = 0;
    while i < n
        invariant
            i <= n == items@.len(),
            out@ == comma_joined(items.deep_view().take(i as int)),
        decreases n - i,
    {
        if i > 0 {
            push_char(&mut out, ',');
        }
        out.append(items[i].as_str());
        proof {
            let ghost dv = items.deep_view();
            assert(dv.take(i + 1 as int) =~= dv.take(i as int).push(dv[i as int]));
            lemma_comma_joined_push(dv.take(i as int), dv[i as int]);
            assert(out@ =~= comma_joined(dv.take(i + 1 as int)));
        }
        i = i + 1;
    }
    proof {
        assert(items.deep_view().take(n as int) =~= items.deep_view());
    }
    out
}

} // verus!
