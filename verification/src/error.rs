//! The library's error type, mirroring the server's error taxonomy.
use vstd::prelude::*;

verus! {

/// Errors surfaced to callers of the library.
#[derive(Clone, Debug)]
pub enum AstralError {
    /// The request is malformed or violates a validation rule.
    BadRequest(String),
    /// A referenced track, album, artist or blob does not exist.
    NotFound(String),
    /// The caller lacks the permission for this operation.
    Unauthorized(String),
    /// A FLAC container could not be parsed.
    FlacError(String),
    /// An MP3 (ID3) container could not be parsed.
    Id3Error(String),
    /// An M4A container could not be parsed.
    M4aError(String),
    /// A stream or subprocess failed.
    IoError(String),
}

impl AstralError {
    /// Short machine-readable tag of the error variant.
    pub fn error_type(&self) -> (r: &'static str)
        ensures
            self is BadRequest <==> r@ == "bad_request"@,
            self is NotFound <==> r@ == "not_found"@,
            self is Unauthorized <==> r@ == "unauthorized"@,
            self is FlacError <==> r@ == "flac"@,
            self is Id3Error <==> r@ == "id3"@,
            self is M4aError <==> r@ == "m4a"@,
            self is IoError <==> r@ == "io"@,
    {
        proof {
            reveal_strlit("bad_request");
            reveal_strlit("not_found");
            reveal_strlit("unauthorized");
            reveal_strlit("flac");
            reveal_strlit("id3");
            reveal_strlit("m4a");
            reveal_strlit("io");
            assert("flac"@[0] == 'f' && "id3"@[0] == 'i' && "m4a"@[0] == 'm' && "io"@[0] == 'i');
            assert("id3"@.len() == 3 && "io"@.len() == 2 && "bad_request"@.len() == 11
                && "not_found"@.len() == 9 && "unauthorized"@.len() == 12 && "flac"@.len() == 4
                && "m4a"@.len() == 3);
        }
        match self {
            AstralError::BadRequest(_) => "bad_request",
            AstralError::NotFound(_) => "not_found",
            AstralError::Unauthorized(_) => "unauthorized",
            AstralError::FlacError(_) => "flac",
            AstralError::Id3Error(_) => "id3",
            AstralError::M4aError(_) => "m4a",
            AstralError::IoError(_) => "io",
        }
    }

    /// The human-readable message carried by the error.
    pub fn message(&self) -> (r: &String)
        ensures
            self matches AstralError::BadRequest(m) ==> r@ == m@,
            self matches AstralError::NotFound(m) ==> r@ == m@,
            self matches AstralError::Unauthorized(m) ==> r@ == m@,
            self matches AstralError::FlacError(m) ==> r@ == m@,
            self matches AstralError::Id3Error(m) ==> r@ == m@,
            self matches AstralError::M4aError(m) ==> r@ == m@,
            self matches AstralError::IoError(m) ==> r@ == m@,
    {
        match self {
            AstralError::BadRequest(m) => m,
            AstralError::NotFound(m) => m,
            AstralError::Unauthorized(m) => m,
            AstralError::FlacError(m) => m,
            AstralError::Id3Error(m) => m,
            AstralError::M4aError(m) => m,
            AstralError::IoError(m) => m,
        }
    }
}

} // verus!
