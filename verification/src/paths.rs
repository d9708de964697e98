//! Logical path construction. Client-supplied names are sanitized so
//! every stored file stays confined under the `content/<postfolder>/`
//! root, whichever destination stores it.

use vstd::prelude::*;

verus! {

/// What `sanitize_name` returns for the given name.
pub uninterp spec fn sanitized_of(s: Seq<char>) -> Seq<char>;

/// A single path component free of traversal: it holds no separator
/// and is not a dot component, so joining it under a directory cannot
/// escape that directory.
pub open spec fn traversal_free(s: Seq<char>) -> bool {
    &&& forall|i: int| 0 <= i < s.len() ==> s[i] != '/' && s[i] != '\\'
    &&& s != seq!['.']
    &&& s != seq!['.', '.']
}

/// Relies on `sanitize_filename::sanitize`: the result is a function of
/// the input alone; path separators and the other illegal characters
/// are removed and a name consisting only of dots is emptied, so the
/// result is a traversal-free component.
#[verifier::external_body]
fn sanitize_name(s: &String) -> (r: String)
    ensures
        r@ == sanitized_of(s@),
        traversal_free(r@),
{
    sanitize_filename::sanitize(s)
}

/// The logical path of a rendered document: `content/<postfolder>/index.md`,
/// with the folder name sanitized.
pub open spec fn spec_document_path(postfolder: Seq<char>) -> Seq<char> {
    "content/"@ + sanitized_of(postfolder) + "/index.md"@
}

/// The logical path of an uploaded image:
/// `content/<postfolder>/<sanitized filename>`.
pub open spec fn spec_image_path(postfolder: Seq<char>, filename: Seq<char>) -> Seq<char> {
    "content/"@ + sanitized_of(postfolder) + "/"@ + sanitized_of(filename)
}

/// Builds the logical path of a document. The folder component is
/// sanitized, so the path stays confined under the content root.
pub fn document_logical_path(postfolder: &String) -> (r: String)
    ensures
        r@ == spec_document_path(postfolder@),
        traversal_free(sanitized_of(postfolder@)),
{
    let mut out = "content/".to_owned();
    let pf = sanitize_name(postfolder);
    out.append(pf.as_str());
    out.append("/index.md");
    proof {
        assert(out@ =~= spec_document_path(postfolder@));
    }
    out
}

/// Builds the logical path of an uploaded image. Both the folder and
/// the client filename are sanitized into traversal-free components, so
/// the path stays confined under `content/<postfolder>/`.
pub fn image_logical_path(postfolder: &String, filename: &String) -> (r: String)
    ensures
        r@ == spec_image_path(postfolder@, filename@),
        traversal_free(sanitized_of(postfolder@)),
        traversal_free(sanitized_of(filename@)),
{
    let mut out = "content/".to_owned();
    let pf = sanitize_name(postfolder);
    out.append(pf.as_str());
    out.append("/");
    let fname = sanitize_name(filename);
    out.append(fname.as_str());
    proof {
        assert(out@ =~= spec_image_path(postfolder@, filename@));
    }
    out
}

/// Joins a base directory and a relative path with a single separator.
pub fn join_path(base: &String, rel: &String) -> (r: String)
    ensures
        r@ == base@ + "/"@ + rel@,
{
    let mut out = base.clone();
    out.append("/");
    out.append(rel.as_str());
    proof {
        assert(out@ =~= base@ + "/"@ + rel@);
    }
    out
}

} // verus!
