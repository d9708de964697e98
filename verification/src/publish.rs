//! The publish orchestrator. A request resolves to exactly one store
//! action — one create-or-update call against the remote content API,
//! or one file write under a local base path — and the outcome of that
//! action maps back to the uniform response shape. The surrounding
//! server performs the action and reports its outcome; no store call
//! can happen unless a plan was produced.

use vstd::prelude::*;
use vstd::utf8::encode_utf8;
use crate::models::{
    base64_of, ChasmError, CommitContent, CommitResponse, ContentLocation, ImageUploadResponse,
    PostContent, SpecCommit, SpecError,
};
use crate::render::{render_document, spec_document};
use crate::demux::{demux_fields, spec_demux, SpecUpload, UploadField, UploadRequest};
use crate::paths::{
    document_logical_path, image_logical_path, join_path, spec_document_path, spec_image_path,
};
use crate::jsonfmt::{commit_body, spec_commit_body};

verus! {

/// Spec-level value of a `StoreAction`.
#[verifier::ext_equal]
pub ghost enum SpecAction {
    RemotePut { url: Seq<char>, access_token: Seq<char>, body: Seq<char> },
    LocalWrite { path: Seq<char>, bytes: Seq<u8> },
}

/// The single externally observable write a publish request resolves
/// to: one create-or-update call against the remote content API, or
/// one file write under a local base path.
#[derive(Debug, Clone)]
pub enum StoreAction {
    RemotePut { url: String, access_token: String, body: String },
    LocalWrite { path: String, bytes: Vec<u8> },
}

impl View for StoreAction {
    type V = SpecAction;

    open spec fn view(&self) -> SpecAction {
        match self {
            StoreAction::RemotePut { url, access_token, body } => SpecAction::RemotePut {
                url: url@,
                access_token: access_token@,
                body: body@,
            },
            StoreAction::LocalWrite { path, bytes } => SpecAction::LocalWrite {
                path: path@,
                bytes: bytes@,
            },
        }
    }
}

/// The URL of the create-or-update call for a repository and a path.
pub open spec fn spec_commit_url(repo: Seq<char>, path: Seq<char>) -> Seq<char> {
    "https://api.github.com/repos/"@ + repo + "/contents/"@ + path
}

/// Builds the URL of the create-or-update call.
fn commit_url(repo: &String, path: &String) -> (r: String)
    ensures
        r@ == spec_commit_url(repo@, path@),
{
    let mut out = "https://api.github.com/repos/".to_owned();
    out.append(repo.as_str());
    out.append("/contents/");
    out.append(path.as_str());
    proof {
        assert(out@ =~= spec_commit_url(repo@, path@));
    }
    out
}

/// The commit payload of a rendered document.
pub open spec fn spec_document_commit(req: PostContent) -> SpecCommit {
    SpecCommit {
        message: "Add post"@,
        content: base64_of(encode_utf8(spec_document(req.title, req.date, req.content@))),
        path: spec_document_path(req.postfolder@),
    }
}

/// The one store action a document-publish request resolves to: for
/// the remote destination, a commit of the rendered document at
/// `content/<postfolder>/index.md`; for the local destination, a write
/// of the document bytes under the base path.
pub open spec fn spec_document_plan(req: PostContent) -> SpecAction {
    match req.location {
        ContentLocation::Github { repo, access_token } => SpecAction::RemotePut {
            url: spec_commit_url(repo@, spec_document_path(req.postfolder@)),
            access_token: access_token@,
            body: spec_commit_body(spec_document_commit(req)),
        },
        ContentLocation::Local { path } => SpecAction::LocalWrite {
            path: path@ + "/"@ + spec_document_path(req.postfolder@),
            bytes: encode_utf8(spec_document(req.title, req.date, req.content@)),
        },
    }
}

/// Destination exclusivity: a request whose destination is local
/// resolves to a local write and never to a transport call, and a
/// request whose destination is the remote repository resolves to a
/// transport call and never to a filesystem write.
pub proof fn lemma_destination_exclusive(req: PostContent)
    ensures
        req.location is Local <==> spec_document_plan(req) is LocalWrite,
        req.location is Github <==> spec_document_plan(req) is RemotePut,
{
}

/// Resolves a document-publish request: renders the document, builds
/// its logical path, and selects the one store action of the declared
/// destination.
pub fn plan_document_publish(req: &PostContent) -> (r: StoreAction)
    requires
        req.date.well_formed(),
    ensures
        r@ == spec_document_plan(*req),
{
    let doc = render_document(&req.title, &req.date, &req.content);
    let path = document_logical_path(&req.postfolder);
    match &req.location {
        ContentLocation::Github { repo, access_token } => {
            let url = commit_url(repo, &path);
            let content = CommitContent::new("Add post".to_owned(), doc, path);
            proof {
                assert(content@ =~= spec_document_commit(*req));
            }
            let body = commit_body(&content);
            let r = StoreAction::RemotePut { url, access_token: access_token.clone(), body };
            proof {
                assert(r@ =~= spec_document_plan(*req));
            }
            r
        },
        ContentLocation::Local { path: base } => {
            let full = join_path(base, &path);
            let r = StoreAction::LocalWrite { path: full, bytes: doc.as_str().as_bytes_vec() };
            proof {
                assert(r@ =~= spec_document_plan(*req));
            }
            r
        },
    }
}

/// Spec-level value of an `ImagePlan`.
#[verifier::ext_equal]
pub ghost struct SpecImagePlan {
    pub action: SpecAction,
    pub filename: Seq<char>,
}

/// A resolved image upload: the one store action, and the client
/// filename echoed in the success response.
#[derive(Debug, Clone)]
pub struct ImagePlan {
    pub action: StoreAction,
    pub filename: String,
}

impl View for ImagePlan {
    type V = SpecImagePlan;

    open spec fn view(&self) -> SpecImagePlan {
        SpecImagePlan { action: self.action@, filename: self.filename@ }
    }
}

/// The commit payload of an uploaded image.
pub open spec fn spec_image_commit(payload: Seq<u8>, path: Seq<char>) -> SpecCommit {
    SpecCommit { message: "Add image"@, content: base64_of(payload), path: path }
}

/// How a classified upload resolves. The required slots are checked in
/// order — a non-empty filename, the post folder, a non-empty payload —
/// and each absence fails fast, naming the missing field. A base path
/// selects the local destination; otherwise the remote destination
/// requires the repository and the credential.
pub open spec fn spec_upload_plan(u: SpecUpload) -> Result<SpecImagePlan, SpecError> {
    match u.filename {
        None => Err(SpecError::FilenameMissing),
        Some(fname) => if fname.len() == 0 {
            Err(SpecError::FilenameMissing)
        } else {
            match u.postfolder {
                None => Err(SpecError::PostfolderMissing),
                Some(pf) => match u.payload {
                    None => Err(SpecError::ImageDataMissing),
                    Some(payload) => if payload.len() == 0 {
                        Err(SpecError::ImageDataMissing)
                    } else {
                        let path = spec_image_path(pf, fname);
                        match u.local_path {
                            Some(base) => Ok(
                                SpecImagePlan {
                                    action: SpecAction::LocalWrite {
                                        path: base + "/"@ + path,
                                        bytes: payload,
                                    },
                                    filename: fname,
                                },
                            ),
                            None => match u.repo {
                                None => Err(SpecError::RepoMissing),
                                Some(repo) => match u.access_token {
                                    None => Err(SpecError::AccessTokenMissing),
                                    Some(token) => Ok(
                                        SpecImagePlan {
                                            action: SpecAction::RemotePut {
                                                url: spec_commit_url(repo, path),
                                                access_token: token,
                                                body: spec_commit_body(
                                                    spec_image_commit(payload, path),
                                                ),
                                            },
                                            filename: fname,
                                        },
                                    ),
                                },
                            },
                        }
                    },
                },
            }
        },
    }
}

/// The end-to-end resolution of one upload stream: classification,
/// validation, and the plan.
pub open spec fn spec_image_plan(fields: Seq<UploadField>) -> Result<SpecImagePlan, SpecError> {
    match spec_demux(fields) {
        Ok(u) => spec_upload_plan(u),
        Err(e) => Err(e),
    }
}

/// Resolves a classified upload into its plan.
pub fn plan_upload(u: UploadRequest) -> (r: Result<ImagePlan, ChasmError>)
    ensures
        match spec_upload_plan(u@) {
            Ok(p) => r matches Ok(ep) && ep@ == p,
            Err(e) => r matches Err(ce) && ce@ == e,
        },
{
    let filename = match u.filename {
        Some(f) => f,
        None => {
            return Err(ChasmError::FilenameMissing);
        },
    };
    if filename.as_str().is_empty() {
        return Err(ChasmError::FilenameMissing);
    }
    let postfolder = match u.postfolder {
        Some(p) => p,
        None => {
            return Err(ChasmError::PostfolderMissing);
        },
    };
    let payload = match u.payload {
        Some(b) => b,
        None => {
            return Err(ChasmError::ImageDataMissing);
        },
    };
    if payload.is_empty() {
        return Err(ChasmError::ImageDataMissing);
    }
    let path = image_logical_path(&postfolder, &filename);
    match u.local_path {
        Some(base) => {
            let full = join_path(&base, &path);
            let r = ImagePlan {
                action: StoreAction::LocalWrite { path: full, bytes: payload },
                filename,
            };
            proof {
                assert(Ok::<SpecImagePlan, SpecError>(r@) =~= spec_upload_plan(u@));
            }
            Ok(r)
        },
        None => {
            let repo = match u.repo {
                Some(rp) => rp,
                None => {
                    return Err(ChasmError::RepoMissing);
                },
            };
            let token = match u.access_token {
                Some(t) => t,
                None => {
                    return Err(ChasmError::AccessTokenMissing);
                },
            };
            let url = commit_url(&repo, &path);
            let content = CommitContent::new_from_image("Add image".to_owned(), payload, path);
            let body = commit_body(&content);
            let r = ImagePlan {
                action: StoreAction::RemotePut { url, access_token: token, body },
                filename,
            };
            proof {
                assert(Ok::<SpecImagePlan, SpecError>(r@) =~= spec_upload_plan(u@));
            }
            Ok(r)
        },
    }
}

/// Resolves one upload stream end to end: demultiplexes the buffered
/// fields, validates the required slots, and plans the one store
/// action. No store call can be made unless this returns a plan.
pub fn plan_image_upload(fields: Vec<UploadField>) -> (r: Result<ImagePlan, ChasmError>)
    ensures
        match spec_image_plan(fields@) {
            Ok(p) => r matches Ok(ep) && ep@ == p,
            Err(e) => r matches Err(ce) && ce@ == e,
        },
{
    match demux_fields(fields) {
        Ok(u) => plan_upload(u),
        Err(e) => Err(e),
    }
}

/// A field sequence with no file field never resolves to a store
/// action: the upload fails before any store call, and when every
/// field decodes, the error is precisely the missing file.
pub proof fn lemma_missing_file_fails(fields: Seq<UploadField>)
    requires
        forall|i: int| 0 <= i < fields.len() ==> fields[i].name@ != "file"@,
    ensures
        spec_image_plan(fields) is Err,
        spec_demux(fields) is Ok ==> spec_image_plan(fields) == Err::<SpecImagePlan, SpecError>(
            SpecError::FilenameMissing,
        ),
{
    lemma_no_file_no_filename(fields);
}

/// Without a file field the filename slot stays empty through the whole
/// pass.
proof fn lemma_no_file_no_filename(fields: Seq<UploadField>)
    requires
        forall|i: int| 0 <= i < fields.len() ==> fields[i].name@ != "file"@,
    ensures
        spec_demux(fields) matches Ok(u) ==> u.filename is None,
    decreases fields.len(),
{
    if fields.len() > 0 {
        assert(forall|i: int|
            0 <= i < fields.drop_last().len() ==> fields.drop_last()[i].name@ != "file"@);
        lemma_no_file_no_filename(fields.drop_last());
    }
}

/// What the commit transport collaborator reports for its one call.
#[derive(Debug, Clone)]
pub enum TransportEvent {
    /// The call did not succeed at the network or HTTP layer.
    Failed,
    /// The call succeeded, but the response body did not decode into
    /// the expected shape.
    BodyMalformed,
    /// The call succeeded and the decoded response carried the public
    /// URL of the stored file.
    Committed { download_url: String },
}

/// Maps the transport report of one remote commit to the pipeline's
/// result: a transport-level failure surfaces unchanged as
/// `InvalidCommitRequest` and is never reported as success, an
/// undecodable response surfaces as `InvalidCommitJSON`, and a decoded
/// response becomes the commit response carrying the public URL.
pub fn commit_outcome(ev: TransportEvent) -> (r: Result<CommitResponse, ChasmError>)
    ensures
        match ev {
            TransportEvent::Failed => r matches Err(e) && e@ == SpecError::InvalidCommitRequest,
            TransportEvent::BodyMalformed => r matches Err(e) && e@
                == SpecError::InvalidCommitJSON,
            TransportEvent::Committed { download_url } => r matches Ok(cr)
                && cr.content.download_url@ == download_url@,
        },
{
    match ev {
        TransportEvent::Failed => Err(ChasmError::InvalidCommitRequest),
        TransportEvent::BodyMalformed => Err(ChasmError::InvalidCommitJSON),
        TransportEvent::Committed { download_url } => Ok(
            CommitResponse {
                content: crate::models::CommitResponseContent { download_url },
            },
        ),
    }
}

/// The report of one local filesystem write.
#[derive(Debug, Clone)]
pub enum LocalWriteEvent {
    Written,
    /// Directory creation or the write failed; carries the I/O cause.
    Failed { cause: String },
}

/// Maps the report of one local write: a failure wraps the underlying
/// cause as `LocalWriteFailed`; success needs no payload, since a local
/// write yields no public URL.
pub fn local_outcome(ev: LocalWriteEvent) -> (r: Result<(), ChasmError>)
    ensures
        match ev {
            LocalWriteEvent::Written => r is Ok,
            LocalWriteEvent::Failed { cause } => r matches Err(e) && e@
                == SpecError::LocalWriteFailed { cause: cause@ },
        },
{
    match ev {
        LocalWriteEvent::Written => Ok(()),
        LocalWriteEvent::Failed { cause } => Err(ChasmError::LocalWriteFailed { cause }),
    }
}

/// The success payload of an image stored remotely: the commit
/// response, and the original filename beside it.
pub fn image_remote_response(response: CommitResponse, filename: String) -> (r:
    ImageUploadResponse)
    ensures
        r.commit_response matches Some(c) && c.content.download_url@
            == response.content.download_url@,
        r.filename@ == filename@,
{
    ImageUploadResponse { commit_response: Some(response), filename }
}

/// The success payload of an image stored locally: no public URL, and
/// the original filename echoed back.
pub fn image_local_response(filename: String) -> (r: ImageUploadResponse)
    ensures
        r.commit_response is None,
        r.filename@ == filename@,
{
    ImageUploadResponse { commit_response: None, filename }
}

} // verus!
