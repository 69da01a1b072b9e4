//! Credential resolution for remote clusters: extracts the credential
//! bundle from a secret's data and parses it as a kubeconfig document.
//! Fetching the secret and building a client from the parsed bundle are
//! network work and stay with the caller.

use vstd::prelude::*;

use crate::errors::{Error, ErrorV};
use crate::model::{lookup_value, spec_lookup};

verus! {

/// Relies on kube's kubeconfig file model: the parsed form of a credential
/// bundle. The library carries it opaquely; the caller builds a client
/// configuration from it (with certificate verification disabled, the
/// documented trust relaxation for self-issued remote certificates).
#[verifier::external_type_specification]
#[verifier::external_body]
pub struct ExKubeconfig(kube::config::Kubeconfig);

/// Whether a byte blob is a well-formed kubeconfig document.
pub uninterp spec fn kubeconfig_parses(bytes: Seq<u8>) -> bool;

/// Relies on serde_yaml::from_slice with kube::config::Kubeconfig as the
/// target type: parsing is deterministic, so whether the bytes form a
/// well-formed kubeconfig document is a function of the bytes alone.
#[verifier::external_body]
fn parse_kubeconfig(bytes: &Vec<u8>) -> (r: Result<kube::config::Kubeconfig, String>)
    ensures
        r is Ok <==> kubeconfig_parses(bytes@),
{
    serde_yaml::from_slice::<kube::config::Kubeconfig>(bytes).map_err(|e| e.to_string())
}

/// The data field under which the credential bundle is stored.
pub open spec fn credential_key() -> Seq<char> {
    "value"@
}

/// The credential-bundle field name as an owned string.
pub fn credential_field() -> (r: String)
    ensures
        r@ == credential_key(),
{
    "value".to_owned()
}

/// The byte blob stored under the credential-bundle field, if any.
pub open spec fn credential_blob(data: Option<Seq<(Seq<char>, Seq<u8>)>>) -> Option<Seq<u8>> {
    match data {
        None => None,
        Some(pairs) => spec_lookup(pairs, credential_key()),
    }
}

/// Turns a fetched secret's data into a parsed credential bundle: fails
/// when the secret carries no data, when the bundle field is missing, and
/// when the blob is not a well-formed kubeconfig document — each a
/// malformed-credential error.
pub fn resolve_credential(data: &Option<Vec<(String, Vec<u8>)>>) -> (r: Result<
    kube::config::Kubeconfig,
    Error,
>)
    ensures
        r is Ok <==> (credential_blob(data.deep_view()) is Some && kubeconfig_parses(
            credential_blob(data.deep_view())->0,
        )),
        r matches Err(e) ==> e.deep_view() is CredentialMalformed,
{
    match data {
        None => Err(Error::CredentialMalformed("credential secret has no data".to_owned())),
        Some(pairs) => {
            match lookup_value(pairs, &credential_field()) {
                None => Err(
                    Error::CredentialMalformed(
                        "credential secret has no bundle field".to_owned(),
                    ),
                ),
                Some(blob) => {
                    proof {
                        assert(blob.deep_view() =~= blob@);
                    }
                    match parse_kubeconfig(blob) {
                        Ok(parsed) => Ok(parsed),
                        Err(message) => Err(Error::CredentialMalformed(message)),
                    }
                },
            }
        },
    }
}

} // verus!
