//! The service's request decisions: who may upload, what an upload answers,
//! and when a delete request may remove a file.
use vstd::prelude::*;

use crate::names::{new_stored_filename, safe_name, storage_path, stored_name_of, upload_dir, valid_id};
use crate::page::{file_url, file_url_of};
use crate::token::{same_text, token_accepted, token_of, verify_token, generate_token};

verus! {

/// Process-wide settings, read once at startup and passed to each handler.
pub struct Config {
    /// The shared secret: the upload credential and the token key.
    pub secret: String,
    /// The base URL under which the service is reached, without a trailing `/`.
    pub public_url: String,
}

/// What a successful upload answers.
#[derive(Debug, Clone, PartialEq, Eq)]
pub struct UploadResponse {
    pub success: bool,
    /// The raw-file URL of the stored file.
    pub url: String,
    /// The URL that deletes the stored file, carrying its delete token.
    pub delete_url: String,
}

/// Why a request is refused.
#[derive(Debug, Clone, Copy, PartialEq, Eq, Structural)]
pub enum ServiceError {
    /// A wrong or missing credential, or a wrong delete token.
    Unauthorized,
    /// The named file does not exist.
    NotFound,
    /// An upload's stored name could address something outside the upload
    /// directory.
    InvalidName,
    /// The upload carried no file.
    MalformedRequest,
}

pub const BEARER: &'static str = "Bearer ";

pub const DELETE_ROUTE: &'static str = "/delete/";

pub const SLASH: &'static str = "/";

/// The `Authorization` header value that grants uploads.
pub open spec fn credential_of(secret: Seq<char>) -> Seq<char> {
    BEARER@ + secret
}

/// The URL that deletes a stored file.
pub open spec fn delete_url_of(public_url: Seq<char>, name: Seq<char>, secret: Seq<char>) -> Seq<
    char,
> {
    public_url + DELETE_ROUTE@ + token_of(name, secret) + SLASH@ + name
}

/// The answer to a delete request for `name` with `token`, given whether the
/// file exists: the path to remove, or the refusal. The token is checked
/// before anything else; a name that fails the path check can name no file
/// of the upload directory, so it is not found.
pub open spec fn delete_result_of(secret: Seq<char>, token: Seq<char>, name: Seq<char>, exists: bool) -> Result<
    Seq<char>,
    ServiceError,
> {
    if !token_accepted(name, token, secret) {
        Err(ServiceError::Unauthorized)
    } else if !safe_name(name) || !exists {
        Err(ServiceError::NotFound)
    } else {
        Ok(upload_dir() + name)
    }
}

impl ServiceError {
    /// The HTTP status that reports this refusal.
    pub fn status_code(&self) -> (r: u16)
        ensures
            r == match self {
                ServiceError::Unauthorized => 401u16,
                ServiceError::NotFound => 404u16,
                ServiceError::InvalidName => 400u16,
                ServiceError::MalformedRequest => 400u16,
            },
    {
        match self {
            ServiceError::Unauthorized => 401,
            ServiceError::NotFound => 404,
            ServiceError::InvalidName => 400,
            ServiceError::MalformedRequest => 400,
        }
    }
}

impl Config {
    pub fn new(secret: String, public_url: String) -> (r: Config)
        ensures
            r.secret@ == secret@,
            r.public_url@ == public_url@,
    {
        Config { secret, public_url }
    }
}

/// Whether an upload request's `Authorization` header, where it has one,
/// is exactly `Bearer ` followed by the shared secret. Compared in constant
/// time.
pub fn validate_password(auth_header: Option<&str>, secret: &str) -> (r: bool)
    ensures
        r == (auth_header is Some && auth_header->0@ == credential_of(secret@)),
{
    match auth_header {
        Some(h) => {
            let mut expected = BEARER.to_owned();
            expected.append(secret);
            same_text(h, expected.as_str())
        },
        None => false,
    }
}

/// The answer to a successful upload stored as `name`: its page URL and its
/// delete URL.
pub fn upload_response(config: &Config, name: &str) -> (r: UploadResponse)
    ensures
        r.success,
        r.url@ == file_url_of(config.public_url@, name@),
        r.delete_url@ == delete_url_of(config.public_url@, name@, config.secret@),
{
    let url = file_url(config.public_url.as_str(), name);
    let token = generate_token(name, config.secret.as_str());
    let mut delete_url = config.public_url.clone();
    delete_url.append(DELETE_ROUTE);
    delete_url.append(token.as_str());
    delete_url.append(SLASH);
    delete_url.append(name);
    UploadResponse { success: true, url, delete_url }
}

/// Decides, for one field of an upload's multipart body, the name to
/// store it under: only the first field that carries a client file name is
/// stored, so a field is taken where none was stored before and it has one.
pub fn name_for_field(already_stored: bool, client_name: Option<&str>) -> (r: Option<String>)
    ensures
        r is Some <==> (!already_stored && client_name is Some),
        r is Some ==> exists|id: Seq<char>|
            valid_id(id) && r->0@ == stored_name_of(id, client_name->0@),
{
    if already_stored {
        return None;
    }
    match client_name {
        Some(n) => Some(new_stored_filename(n)),
        None => None,
    }
}

/// Ends an upload request: the answer for the stored file `saved`, or
/// `MalformedRequest` where the request carried no file.
pub fn finish_upload(config: &Config, saved: Option<&str>) -> (r: Result<UploadResponse, ServiceError>)
    ensures
        match saved {
            Some(name) => r is Ok && r->Ok_0.success && r->Ok_0.url@ == file_url_of(
                config.public_url@,
                name@,
            ) && r->Ok_0.delete_url@ == delete_url_of(config.public_url@, name@, config.secret@),
            None => r == Err::<UploadResponse, ServiceError>(ServiceError::MalformedRequest),
        },
{
    match saved {
        Some(name) => Ok(upload_response(config, name)),
        None => Err(ServiceError::MalformedRequest),
    }
}

/// First step of a delete request: checks the token for `name`, then the
/// name itself, and gives the path of the file to remove. Nothing on disk
/// is consulted before the token has been accepted.
pub fn authorize_delete(config: &Config, token: &str, name: &str) -> (r: Result<String, ServiceError>)
    ensures
        match r {
            Ok(p) => token_accepted(name@, token@, config.secret@) && safe_name(name@) && p@
                == upload_dir() + name@,
            Err(e) => e == (if !token_accepted(name@, token@, config.secret@) {
                ServiceError::Unauthorized
            } else {
                ServiceError::NotFound
            }) && !(token_accepted(name@, token@, config.secret@) && safe_name(name@)),
        },
{
    if !verify_token(name, token, config.secret.as_str()) {
        return Err(ServiceError::Unauthorized);
    }
    match storage_path(name) {
        Some(p) => Ok(p),
        None => Err(ServiceError::NotFound),
    }
}

/// Second step of a delete request: given the first step's answer and
/// whether the file it located exists, the path to remove or the refusal.
pub fn delete_outcome(authorized: Result<String, ServiceError>, exists: bool) -> (r: Result<
    String,
    ServiceError,
>)
    ensures
        match authorized {
            Ok(p) => if exists {
                r is Ok && r->Ok_0@ == p@
            } else {
                r == Err::<String, ServiceError>(ServiceError::NotFound)
            },
            Err(e) => r == Err::<String, ServiceError>(e),
        },
{
    match authorized {
        Ok(p) => if exists {
            Ok(p)
        } else {
            Err(ServiceError::NotFound)
        },
        Err(e) => Err(e),
    }
}

/// The answer to a delete request for `name` carrying `token`, where
/// `exists` tells whether the file is present: the path to remove, or why
/// the request is refused.
pub fn delete_file(config: &Config, token: &str, name: &str, exists: bool) -> (r: Result<
    String,
    ServiceError,
>)
    ensures
        match r {
            Ok(p) => delete_result_of(config.secret@, token@, name@, exists) == Ok::<
                Seq<char>,
                ServiceError,
            >(p@),
            Err(e) => delete_result_of(config.secret@, token@, name@, exists) == Err::<
                Seq<char>,
                ServiceError,
            >(e),
        },
{
    delete_outcome(authorize_delete(config, token, name), exists)
}

/// Deleting twice with the same valid token succeeds once and then finds
/// nothing: after the first delete removes the file from the store, the
/// second answers `NotFound`.
pub proof fn lemma_second_delete_not_found(store: Set<Seq<char>>, name: Seq<char>, secret: Seq<char>)
    requires
        safe_name(name),
        store.contains(name),
    ensures
        delete_result_of(secret, token_of(name, secret), name, store.contains(name)) == Ok::<
            Seq<char>,
            ServiceError,
        >(upload_dir() + name),
        delete_result_of(secret, token_of(name, secret), name, store.remove(name).contains(name))
            == Err::<Seq<char>, ServiceError>(ServiceError::NotFound),
{
}

} // verus!
