//! Store configuration, the library's errors, and the choice of credentials.
use vstd::prelude::*;
use crate::text::{copy_str, is_blank, trims_to_empty};

verus! {

/// Where the store lives and how to authenticate against it.
#[derive(Clone, Debug)]
pub struct BigQueryConfig {
    /// Whether tables are to be dropped before a sync; no code path reads it.
    pub drop_tables: bool,
    pub project_id: String,
    pub dataset_id: String,
    /// Path of a service-account key file.
    pub credentials_path: String,
    /// A service-account key, inline as JSON.
    pub credentials_json: String,
}

/// Errors of client construction.
#[derive(Clone, Debug)]
pub enum BigQueryError {
    InvalidCredentialsJson(String),
    ClientInitError(String),
    MissingCredentials,
}

/// The errors of the adapter: client initialization, table provisioning,
/// inserts and queries. The text of each describes the failure.
#[derive(Clone, Debug)]
pub enum GcpClientError {
    InvalidCredentialsJson(String),
    ClientInitError(String),
    MissingCredentials,
    /// A table could not be created.
    Provision(String),
    /// A bulk insert failed.
    Insert(String),
    /// A query failed.
    Query(String),
}

/// The credentials to build a client from.
#[derive(Clone, Debug)]
pub enum CredentialSource {
    /// An inline JSON service-account key.
    Json(String),
    /// The path of a service-account key file.
    KeyFile(String),
}

/// Chooses the credentials: the inline JSON key where it is not blank, else
/// the key file path where that is not blank, else `MissingCredentials`.
pub fn select_credentials(cfg: &BigQueryConfig) -> (r: Result<CredentialSource, BigQueryError>)
    ensures
        !is_blank(cfg.credentials_json@) ==> (r matches Ok(CredentialSource::Json(s)) && s@ == cfg.credentials_json@),
        is_blank(cfg.credentials_json@) && !is_blank(cfg.credentials_path@)
            ==> (r matches Ok(CredentialSource::KeyFile(p)) && p@ == cfg.credentials_path@),
        is_blank(cfg.credentials_json@) && is_blank(cfg.credentials_path@)
            ==> r matches Err(BigQueryError::MissingCredentials),
{
    if !trims_to_empty(cfg.credentials_json.as_str()) {
        return Ok(CredentialSource::Json(copy_str(cfg.credentials_json.as_str())));
    }
    if !trims_to_empty(cfg.credentials_path.as_str()) {
        return Ok(CredentialSource::KeyFile(copy_str(cfg.credentials_path.as_str())));
    }
    Err(BigQueryError::MissingCredentials)
}

/// The initialization error for a failed client construction.
pub fn init_error(e: BigQueryError) -> (r: GcpClientError)
    ensures
        e is MissingCredentials ==> r is MissingCredentials,
        e matches BigQueryError::InvalidCredentialsJson(m) ==> r matches GcpClientError::InvalidCredentialsJson(n) && n == m,
        e matches BigQueryError::ClientInitError(m) ==> r matches GcpClientError::ClientInitError(n) && n == m,
{
    match e {
        BigQueryError::InvalidCredentialsJson(m) => GcpClientError::InvalidCredentialsJson(m),
        BigQueryError::ClientInitError(m) => GcpClientError::ClientInitError(m),
        BigQueryError::MissingCredentials => GcpClientError::MissingCredentials,
    }
}

} // verus!
