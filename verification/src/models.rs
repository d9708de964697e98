//! The data model of the publish pipeline: content blocks, requests,
//! commit payloads, responses, and the error taxonomy.

use vstd::prelude::*;
use crate::numfmt::{two_digits, four_digits, append_two_digits, append_four_digits};

verus! {

/// Spec-level value of a `ChasmError`.
#[verifier::ext_equal]
pub ghost enum SpecError {
    InvalidCommitRequest,
    InvalidCommitJSON,
    FilenameMissing,
    PostfolderMissing,
    ImageDataMissing,
    RepoMissing,
    AccessTokenMissing,
    MalformedField { field: Seq<char> },
    LocalWriteFailed { cause: Seq<char> },
}

impl SpecError {
    /// The human-readable description of each error kind.
    pub open spec fn description(self) -> Seq<char> {
        match self {
            SpecError::InvalidCommitRequest => "Invalid Commit Request"@,
            SpecError::InvalidCommitJSON => "Invalid Commit JSON"@,
            SpecError::FilenameMissing => "Filename missing"@,
            SpecError::PostfolderMissing => "Postfolder missing"@,
            SpecError::ImageDataMissing => "Image Data Missing"@,
            SpecError::RepoMissing => "Repo Missing"@,
            SpecError::AccessTokenMissing => "Access Token Missing"@,
            SpecError::MalformedField { field } => "Malformed field: "@ + field,
            SpecError::LocalWriteFailed { cause } => "Local write failed: "@ + cause,
        }
    }
}

/// The closed error taxonomy of the publish pipeline. Callers branch on
/// the kind; the two payload-carrying variants name the offending field
/// or the underlying I/O cause.
#[derive(Debug, Clone)]
pub enum ChasmError {
    /// The transport call to the remote content API failed.
    InvalidCommitRequest,
    /// The remote API answered, but its body did not match the expected shape.
    InvalidCommitJSON,
    FilenameMissing,
    PostfolderMissing,
    ImageDataMissing,
    RepoMissing,
    AccessTokenMissing,
    /// A scalar field's bytes were not valid text.
    MalformedField { field: String },
    /// Directory creation or the file write failed locally.
    LocalWriteFailed { cause: String },
}

impl View for ChasmError {
    type V = SpecError;

    open spec fn view(&self) -> SpecError {
        match self {
            ChasmError::InvalidCommitRequest => SpecError::InvalidCommitRequest,
            ChasmError::InvalidCommitJSON => SpecError::InvalidCommitJSON,
            ChasmError::FilenameMissing => SpecError::FilenameMissing,
            ChasmError::PostfolderMissing => SpecError::PostfolderMissing,
            ChasmError::ImageDataMissing => SpecError::ImageDataMissing,
            ChasmError::RepoMissing => SpecError::RepoMissing,
            ChasmError::AccessTokenMissing => SpecError::AccessTokenMissing,
            ChasmError::MalformedField { field } => SpecError::MalformedField { field: field@ },
            ChasmError::LocalWriteFailed { cause } => SpecError::LocalWriteFailed { cause: cause@ },
        }
    }
}

impl ChasmError {
    /// A human-readable description of the error, for the client-facing
    /// failure response.
    pub fn description(&self) -> (r: String)
        ensures
            r@ == self@.description(),
    {
        match self {
            ChasmError::InvalidCommitRequest => "Invalid Commit Request".to_owned(),
            ChasmError::InvalidCommitJSON => "Invalid Commit JSON".to_owned(),
            ChasmError::FilenameMissing => "Filename missing".to_owned(),
            ChasmError::PostfolderMissing => "Postfolder missing".to_owned(),
            ChasmError::ImageDataMissing => "Image Data Missing".to_owned(),
            ChasmError::RepoMissing => "Repo Missing".to_owned(),
            ChasmError::AccessTokenMissing => "Access Token Missing".to_owned(),
            ChasmError::MalformedField { field } => {
                let mut s = "Malformed field: ".to_owned();
                s.append(field.as_str());
                s
            },
            ChasmError::LocalWriteFailed { cause } => {
                let mut s = "Local write failed: ".to_owned();
                s.append(cause.as_str());
                s
            },
        }
    }
}

/// A UTC timestamp broken into calendar fields; the model of a post's date.
#[derive(Debug, Clone, Copy, PartialEq, Eq, Structural)]
pub struct Timestamp {
    pub year: u32,
    pub month: u32,
    pub day: u32,
    pub hour: u32,
    pub minute: u32,
    pub second: u32,
}

impl Timestamp {
    /// Calendar ranges of the fields; the year stays within four digits.
    pub open spec fn well_formed(self) -> bool {
        &&& self.year <= 9999
        &&& 1 <= self.month <= 12
        &&& 1 <= self.day <= 31
        &&& self.hour <= 23
        &&& self.minute <= 59
        &&& self.second <= 59
    }

    /// The fixed ISO-8601 UTC form `YYYY-MM-DDTHH:MM:SSZ`.
    pub open spec fn spec_format(self) -> Seq<char> {
        four_digits(self.year as int) + seq!['-'] + two_digits(self.month as int) + seq!['-']
            + two_digits(self.day as int) + seq!['T'] + two_digits(self.hour as int) + seq![':']
            + two_digits(self.minute as int) + seq![':'] + two_digits(self.second as int)
            + seq!['Z']
    }

    /// Writes the timestamp in the fixed ISO-8601 UTC form.
    pub fn format(&self) -> (r: String)
        requires
            self.well_formed(),
        ensures
            r@ == self.spec_format(),
    {
        let mut out = String::new();
        append_four_digits(&mut out, self.year);
        out.append("-");
        append_two_digits(&mut out, self.month);
        out.append("-");
        append_two_digits(&mut out, self.day);
        out.append("T");
        append_two_digits(&mut out, self.hour);
        out.append(":");
        append_two_digits(&mut out, self.minute);
        out.append(":");
        append_two_digits(&mut out, self.second);
        out.append("Z");
        proof {
            reveal_strlit("-");
            reveal_strlit("T");
            reveal_strlit(":");
            reveal_strlit("Z");
            assert(out@ =~= self.spec_format());
        }
        out
    }
}

/// One renderable fragment of a post body. The set is closed and flat:
/// no variant carries nested blocks.
#[derive(Debug, Clone)]
pub enum ContentPart {
    Header { text: String },
    Paragraph { text: String },
    Image { filename: String },
    Link { title: String, url: String },
}

/// The destination of a publish call: exactly one variant is active per
/// request.
#[derive(Debug, Clone)]
pub enum ContentLocation {
    Github { repo: String, access_token: String },
    Local { path: String },
}

/// A decoded document-publish request.
#[derive(Debug, Clone)]
pub struct PostContent {
    pub date: Timestamp,
    pub postfolder: String,
    pub title: Option<String>,
    pub content: Vec<ContentPart>,
    pub location: ContentLocation,
}

/// What `base64_encode` returns for the given bytes.
pub uninterp spec fn base64_of(bytes: Seq<u8>) -> Seq<char>;

/// Relies on `base64::encode`: the standard alphabet with padding. The
/// output is a function of the input bytes alone, four characters for
/// every started three-byte group.
#[verifier::external_body]
fn base64_encode(bytes: &[u8]) -> (r: String)
    ensures
        r@ == base64_of(bytes@),
        r@.len() == 4 * ((bytes@.len() + 2) / 3),
{
    base64::encode(bytes)
}

/// Spec-level value of a `CommitContent`.
#[verifier::ext_equal]
pub ghost struct SpecCommit {
    pub message: Seq<char>,
    pub content: Seq<char>,
    pub path: Seq<char>,
}

/// A create-or-update payload for the remote content API: a commit
/// message, the base64-encoded file content, and the path under the
/// repository where the file is stored.
#[derive(Debug, Clone)]
pub struct CommitContent {
    pub message: String,
    pub content: String,
    pub path: String,
}

impl View for CommitContent {
    type V = SpecCommit;

    open spec fn view(&self) -> SpecCommit {
        SpecCommit { message: self.message@, content: self.content@, path: self.path@ }
    }
}

impl CommitContent {
    /// Builds the payload for a text document: the content slot holds the
    /// base64 encoding of the document's UTF-8 bytes.
    pub fn new(message: String, content: String, path: String) -> (r: CommitContent)
        ensures
            r@.message == message@,
            r@.content == base64_of(vstd::utf8::encode_utf8(content@)),
            r@.path == path@,
    {
        let encoded = base64_encode(content.as_str().as_bytes());
        CommitContent { message, content: encoded, path }
    }

    /// Builds the payload for raw image bytes.
    pub fn new_from_image(message: String, content: Vec<u8>, path: String) -> (r: CommitContent)
        ensures
            r@.message == message@,
            r@.content == base64_of(content@),
            r@.path == path@,
    {
        let encoded = base64_encode(content.as_slice());
        CommitContent { message, content: encoded, path }
    }
}

/// The decoded body of a successful remote commit.
#[derive(Debug, Clone)]
pub struct CommitResponse {
    pub content: CommitResponseContent,
}

/// The part of the remote response the pipeline keeps: the public URL of
/// the stored file.
#[derive(Debug, Clone)]
pub struct CommitResponseContent {
    pub download_url: String,
}

/// The uniform success payload of an image upload: the commit response
/// when the remote destination was used (`None` for a local write), and
/// the original client filename.
#[derive(Debug, Clone)]
pub struct ImageUploadResponse {
    pub commit_response: Option<CommitResponse>,
    pub filename: String,
}

} // verus!
