//! Planning the storage of a refreshed token as a cluster secret, and the
//! authorization header for requesting it.
//!
//! The cluster API calls themselves live outside; this module decides, from
//! a secret's current data, what the stored data must become.

use crate::point::StrMap;
use vstd::prelude::*;
use vstd::string::StringSliceAdditionalSpecFns;

verus! {

/// Options of the secret-storing output.
#[derive(Debug)]
pub struct Opts {
    /// The name of the secret to generate.
    pub secret_name: String,
    /// The key of the secret in which to store the token.
    pub secret_key: String,
    /// The namespace in which to store the secret.
    pub namespace: Option<String>,
    /// The context to use.
    pub context: Option<String>,
    /// The cluster to use.
    pub cluster: Option<String>,
}

/// Failure to plan the secret update.
#[derive(Debug, PartialEq, Eq)]
pub enum Error {
    /// The secret exists but carries no data map.
    InvalidSecret(String),
    /// The key to patch was not found in the secret's data.
    SecretKeyNotFound(String, String),
}

/// What `base64::encode` (standard alphabet, padded) writes for the given
/// bytes.
pub uninterp spec fn base64_chars_of(data: Seq<u8>) -> Seq<char>;

/// Relies on `base64::encode`: the standard-alphabet, padded encoding is a
/// function of the input bytes alone, four output characters for every
/// three input bytes begun, all of them ASCII.
#[verifier::external_body]
fn b64_encode(data: &[u8]) -> (r: String)
    ensures
        r@ == base64_chars_of(data@),
        r@.len() == ((data@.len() + 2) / 3) * 4,
        vstd::string::string_is_ascii(&r),
{
    base64::encode(data)
}

/// The encoding's text as bytes, which is how a secret stores it.
pub open spec fn base64_utf8_of(data: Seq<u8>) -> Seq<u8> {
    vstd::utf8::encode_utf8(base64_chars_of(data))
}

/// The value `Basic <base64 of "id:secret">` carried by the token request.
pub fn basic_auth_header(client_id: &str, client_secret: &str) -> (r: String)
    ensures
        r@ == "Basic "@ + base64_chars_of(
            client_id.spec_bytes() + seq![58u8] + client_secret.spec_bytes(),
        ),
{
    let mut data: Vec<u8> = Vec::new();
    data.extend_from_slice(client_id.as_bytes());
    data.push(58);
    data.extend_from_slice(client_secret.as_bytes());
    let encoded = b64_encode(data.as_slice());
    let mut header = "Basic ".to_owned();
    header.append(encoded.as_str());
    proof {
        assert(data@ =~= client_id.spec_bytes() + seq![58u8] + client_secret.spec_bytes());
    }
    header
}

/// A secret's data: named binary values.
pub type SecretData = StrMap<Vec<u8>>;

fn copy_secret_data(m: &SecretData) -> (r: SecretData)
    ensures
        r@ == m@,
{
    let entries = m.entries();
    let n = entries.len();
    let mut out: SecretData = StrMap::new();
    let mut i: usize = 0;
    while i < n
        invariant
            i <= n,
            n == entries@.len(),
            crate::point::map_of(entries@) == m@,
            out@ == crate::point::map_of(entries@.take(i as int)),
        decreases n - i,
    {
        let entry = &entries[i];
        let mut value: Vec<u8> = Vec::new();
        value.extend_from_slice(entry.1.as_slice());
        proof {
            assert(value@ =~= entries@[i as int].1@);
        }
        out.insert(entry.0.clone(), value);
        proof {
            assert(entries@.take(i + 1).drop_last() =~= entries@.take(i as int));
            assert(entries@.take(i + 1).last() == entries@[i as int]);
        }
        i += 1;
    }
    proof {
        assert(entries@.take(n as int) =~= entries@);
    }
    out
}

/// Plan the patch of an existing secret: replace the configured key's value
/// with the encoded token, leaving every other entry alone.
pub fn plan_secret_patch(
    data: Option<&SecretData>,
    secret_name: &str,
    secret_key: &str,
    token: &str,
) -> (r: Result<SecretData, Error>)
    ensures
        data is None ==> (r matches Err(Error::InvalidSecret(n)) && n@ == secret_name@),
        data matches Some(m) ==> if !m@.contains_key(secret_key@) {
            r matches Err(Error::SecretKeyNotFound(n, k)) && n@ == secret_name@ && k@
                == secret_key@
        } else {
            r matches Ok(upd) && upd@ == m@.insert(
                secret_key@,
                base64_utf8_of(token.spec_bytes()),
            )
        },
{
    let m = match data {
        Some(m) => m,
        None => {
            return Err(Error::InvalidSecret(secret_name.to_owned()));
        },
    };
    if !m.contains_key(secret_key) {
        return Err(Error::SecretKeyNotFound(secret_name.to_owned(), secret_key.to_owned()));
    }
    let mut updated = copy_secret_data(m);
    let encoded = b64_encode(token.as_bytes());
    updated.insert(secret_key.to_owned(), encoded.as_str().as_bytes_vec());
    Ok(updated)
}

/// What a lookup of the secret found.
#[derive(Debug)]
pub enum SecretLookup<'a> {
    /// No secret of that name exists yet.
    Absent,
    /// The secret exists, with its data map when it carries one.
    Found(Option<&'a SecretData>),
}

/// Decide, from what the lookup found, what the stored data must become:
/// patch the existing secret's data, or create a fresh single-entry map.
pub fn plan_secret_update(
    found: SecretLookup<'_>,
    secret_name: &str,
    secret_key: &str,
    token: &str,
) -> (r: Result<SecretData, Error>)
    ensures
        found is Absent ==> (r matches Ok(data) && data@ == Map::<Seq<char>, Seq<u8>>::empty()
            .insert(secret_key@, base64_utf8_of(token.spec_bytes()))),
        found matches SecretLookup::Found(existing) ==> {
            &&& (existing is None ==> (r matches Err(Error::InvalidSecret(n)) && n@
                == secret_name@))
            &&& (existing matches Some(m) ==> if !m@.contains_key(secret_key@) {
                r matches Err(Error::SecretKeyNotFound(n, k)) && n@ == secret_name@ && k@
                    == secret_key@
            } else {
                r matches Ok(upd) && upd@ == m@.insert(
                    secret_key@,
                    base64_utf8_of(token.spec_bytes()),
                )
            })
        },
{
    match found {
        SecretLookup::Absent => Ok(plan_secret_create(secret_key, token)),
        SecretLookup::Found(existing) => plan_secret_patch(
            existing,
            secret_name,
            secret_key,
            token,
        ),
    }
}

/// Plan a fresh secret's data: one entry, the configured key bound to the
/// encoded token.
pub fn plan_secret_create(secret_key: &str, token: &str) -> (r: SecretData)
    ensures
        r@ == Map::<Seq<char>, Seq<u8>>::empty().insert(
            secret_key@,
            base64_utf8_of(token.spec_bytes()),
        ),
{
    let mut data: SecretData = StrMap::new();
    let encoded = b64_encode(token.as_bytes());
    data.insert(secret_key.to_owned(), encoded.as_str().as_bytes_vec());
    data
}

} // verus!
