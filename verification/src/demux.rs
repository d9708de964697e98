//! The multipart field demultiplexer: classifies a sequence of named,
//! fully buffered upload fields into scalar string slots and the one
//! binary file slot. Fields are handled in arrival order; a duplicate
//! name overwrites the earlier value; an unrecognized name is ignored;
//! a scalar field whose bytes are not valid text fails the whole
//! operation.

use vstd::prelude::*;
use vstd::utf8::{valid_utf8, decode_utf8};
use crate::models::{ChasmError, SpecError};

verus! {

/// One multipart field, already drained into a buffer by the transport
/// layer: its name, the client-supplied filename if any, and its bytes.
#[derive(Debug, Clone)]
pub struct UploadField {
    pub name: String,
    pub filename: Option<String>,
    pub data: Vec<u8>,
}

/// Spec-level value of an `UploadRequest`.
#[verifier::ext_equal]
pub ghost struct SpecUpload {
    pub access_token: Option<Seq<char>>,
    pub repo: Option<Seq<char>>,
    pub local_path: Option<Seq<char>>,
    pub postfolder: Option<Seq<char>>,
    pub filename: Option<Seq<char>>,
    pub payload: Option<Seq<u8>>,
}

/// The classified result of demultiplexing: every scalar slot the
/// pipeline knows, the client filename, and the binary payload. Each
/// slot is optional at the wire level; validation happens downstream.
#[derive(Debug, Clone)]
pub struct UploadRequest {
    pub access_token: Option<String>,
    pub repo: Option<String>,
    pub local_path: Option<String>,
    pub postfolder: Option<String>,
    pub filename: Option<String>,
    pub payload: Option<Vec<u8>>,
}

/// The view of an optional string slot.
pub open spec fn opt_str_view(o: Option<String>) -> Option<Seq<char>> {
    match o {
        Some(s) => Some(s@),
        None => None,
    }
}

/// The view of the optional binary payload.
pub open spec fn opt_bytes_view(o: Option<Vec<u8>>) -> Option<Seq<u8>> {
    match o {
        Some(b) => Some(b@),
        None => None,
    }
}

impl View for UploadRequest {
    type V = SpecUpload;

    open spec fn view(&self) -> SpecUpload {
        SpecUpload {
            access_token: opt_str_view(self.access_token),
            repo: opt_str_view(self.repo),
            local_path: opt_str_view(self.local_path),
            postfolder: opt_str_view(self.postfolder),
            filename: opt_str_view(self.filename),
            payload: opt_bytes_view(self.payload),
        }
    }
}

/// The upload with every slot still empty.
pub open spec fn spec_empty_upload() -> SpecUpload {
    SpecUpload {
        access_token: None,
        repo: None,
        local_path: None,
        postfolder: None,
        filename: None,
        payload: None,
    }
}

/// How one field changes the classified upload: a recognized scalar
/// name overwrites its slot with the decoded text, the file field fills
/// the filename and payload slots, and any other name leaves the upload
/// unchanged. A scalar field with invalid text, or a file field without
/// a client filename, fails the whole operation.
pub open spec fn spec_apply_field(acc: SpecUpload, f: UploadField) -> Result<
    SpecUpload,
    SpecError,
> {
    if f.name@ == "access_token"@ {
        if valid_utf8(f.data@) {
            Ok(SpecUpload { access_token: Some(decode_utf8(f.data@)), ..acc })
        } else {
            Err(SpecError::MalformedField { field: f.name@ })
        }
    } else if f.name@ == "repo"@ {
        if valid_utf8(f.data@) {
            Ok(SpecUpload { repo: Some(decode_utf8(f.data@)), ..acc })
        } else {
            Err(SpecError::MalformedField { field: f.name@ })
        }
    } else if f.name@ == "local_path"@ {
        if valid_utf8(f.data@) {
            Ok(SpecUpload { local_path: Some(decode_utf8(f.data@)), ..acc })
        } else {
            Err(SpecError::MalformedField { field: f.name@ })
        }
    } else if f.name@ == "postfolder"@ {
        if valid_utf8(f.data@) {
            Ok(SpecUpload { postfolder: Some(decode_utf8(f.data@)), ..acc })
        } else {
            Err(SpecError::MalformedField { field: f.name@ })
        }
    } else if f.name@ == "file"@ {
        match f.filename {
            Some(n) => Ok(SpecUpload { filename: Some(n@), payload: Some(f.data@), ..acc }),
            None => Err(SpecError::FilenameMissing),
        }
    } else {
        Ok(acc)
    }
}

/// The classified upload after one left-to-right pass over the fields:
/// later fields overwrite earlier ones of the same name, and the first
/// failing field fails the whole pass.
pub open spec fn spec_demux(fields: Seq<UploadField>) -> Result<SpecUpload, SpecError>
    decreases fields.len(),
{
    if fields.len() == 0 {
        Ok(spec_empty_upload())
    } else {
        match spec_demux(fields.drop_last()) {
            Ok(acc) => spec_apply_field(acc, fields.last()),
            Err(e) => Err(e),
        }
    }
}

/// Once a prefix of the fields fails, the whole sequence fails with the
/// same error: nothing after the first bad field is taken.
pub proof fn lemma_demux_err_persists(fields: Seq<UploadField>, k: int)
    requires
        0 <= k <= fields.len(),
        spec_demux(fields.subrange(0, k)) is Err,
    ensures
        spec_demux(fields) == spec_demux(fields.subrange(0, k)),
    decreases fields.len() - k,
{
    if k < fields.len() {
        assert(fields.subrange(0, k + 1).drop_last() =~= fields.subrange(0, k));
        assert(spec_demux(fields.subrange(0, k + 1)) == spec_demux(fields.subrange(0, k)));
        lemma_demux_err_persists(fields, k + 1);
    } else {
        assert(fields.subrange(0, k) =~= fields);
    }
}

/// One failing field at position `k` fails the whole sequence with its
/// error.
proof fn lemma_demux_step_err(all: Seq<UploadField>, k: int, acc: SpecUpload, e: SpecError)
    requires
        0 <= k < all.len(),
        spec_demux(all.subrange(0, k)) == Ok::<SpecUpload, SpecError>(acc),
        spec_apply_field(acc, all[k]) == Err::<SpecUpload, SpecError>(e),
    ensures
        spec_demux(all) == Err::<SpecUpload, SpecError>(e),
{
    assert(all.subrange(0, k + 1).drop_last() =~= all.subrange(0, k));
    assert(all.subrange(0, k + 1).last() == all[k]);
    assert(spec_demux(all.subrange(0, k + 1)) == Err::<SpecUpload, SpecError>(e));
    lemma_demux_err_persists(all, k + 1);
}

/// Whether the name of this String equals the given name.
fn name_is(name: &String, expected: &str) -> (r: bool)
    ensures
        r == (name@ == expected@),
{
    let e = expected.to_owned();
    *name == e
}

/// Relies on `String::from_utf8`: succeeds exactly when the bytes are
/// valid UTF-8, and then returns their decoding.
#[verifier::external_body]
fn utf8_to_string(bytes: Vec<u8>) -> (r: Option<String>)
    ensures
        r is Some <==> valid_utf8(bytes@),
        r matches Some(s) ==> s@ == decode_utf8(bytes@),
{
    String::from_utf8(bytes).ok()
}

/// Demultiplexes the buffered fields of one upload stream in arrival
/// order. Returns the classified upload, or the error of the first
/// failing field: `MalformedField` for a scalar whose bytes are not
/// valid text, `FilenameMissing` for a file field without a client
/// filename.
#[verifier::loop_isolation(false)]
pub fn demux_fields(fields: Vec<UploadField>) -> (r: Result<UploadRequest, ChasmError>)
    ensures
        match spec_demux(fields@) {
            Ok(su) => r matches Ok(u) && u@ == su,
            Err(e) => r matches Err(ce) && ce@ == e,
        },
{
    let ghost all = fields@;
    let mut rest = fields;
    let mut out = UploadRequest {
        access_token: None,
        repo: None,
        local_path: None,
        postfolder: None,
        filename: None,
        payload: None,
    };
    let ghost mut k: int = 0;
    proof {
        assert(all.subrange(0, 0) =~= Seq::<UploadField>::empty());
        assert(rest@ =~= all.subrange(0, all.len() as int));
    }
    while rest.len() > 0
        invariant
            0 <= k <= all.len(),
            rest@ == all.subrange(k, all.len() as int),
            spec_demux(all.subrange(0, k)) == Ok::<SpecUpload, SpecError>(out@),
        decreases rest.len(),
    {
        let f = rest.remove(0);
        proof {
            assert(f == all[k]);
            assert(rest@ =~= all.subrange(k + 1, all.len() as int));
            assert(all.subrange(0, k + 1).drop_last() =~= all.subrange(0, k));
            assert(all.subrange(0, k + 1).last() == all[k]);
        }
        let ghost acc = out@;
        if name_is(&f.name, "access_token") {
            match utf8_to_string(f.data) {
                Some(s) => {
                    out.access_token = Some(s);
                },
                None => {
                    proof {
                        lemma_demux_step_err(
                            all,
                            k,
                            acc,
                            SpecError::MalformedField { field: all[k].name@ },
                        );
                    }
                    return Err(ChasmError::MalformedField { field: f.name });
                },
            }
        } else if name_is(&f.name, "repo") {
            match utf8_to_string(f.data) {
                Some(s) => {
                    out.repo = Some(s);
                },
                None => {
                    proof {
                        lemma_demux_step_err(
                            all,
                            k,
                            acc,
                            SpecError::MalformedField { field: all[k].name@ },
                        );
                    }
                    return Err(ChasmError::MalformedField { field: f.name });
                },
            }
        } else if name_is(&f.name, "local_path") {
            match utf8_to_string(f.data) {
                Some(s) => {
                    out.local_path = Some(s);
                },
                None => {
                    proof {
                        lemma_demux_step_err(
                            all,
                            k,
                            acc,
                            SpecError::MalformedField { field: all[k].name@ },
                        );
                    }
                    return Err(ChasmError::MalformedField { field: f.name });
                },
            }
        } else if name_is(&f.name, "postfolder") {
            match utf8_to_string(f.data) {
                Some(s) => {
                    out.postfolder = Some(s);
                },
                None => {
                    proof {
                        lemma_demux_step_err(
                            all,
                            k,
                            acc,
                            SpecError::MalformedField { field: all[k].name@ },
                        );
                    }
                    return Err(ChasmError::MalformedField { field: f.name });
                },
            }
        } else if name_is(&f.name, "file") {
            match f.filename {
                Some(n) => {
                    out.filename = Some(n);
                    out.payload = Some(f.data);
                },
                None => {
                    proof {
                        lemma_demux_step_err(all, k, acc, SpecError::FilenameMissing);
                    }
                    return Err(ChasmError::FilenameMissing);
                },
            }
        }
        proof {
            assert(spec_apply_field(acc, all[k]) == Ok::<SpecUpload, SpecError>(out@));
            assert(spec_demux(all.subrange(0, k + 1)) == Ok::<SpecUpload, SpecError>(out@));
            k = k + 1;
        }
    }
    proof {
        assert(all.subrange(0, k) =~= all);
    }
    Ok(out)
}

} // verus!
