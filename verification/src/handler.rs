//! The credential-check request handler.
//!
//! [`check_credentials`] validates the anonymity prefix of an inbound request
//! against the length bounds [`MIN_PREFIX_LEN`] and [`MAX_PREFIX_LEN`] and, on
//! success, shapes the response. A rejected request yields an [`ApiError`]
//! whose plain-text message embeds the observed length and the violated bound.

use vstd::prelude::*;
use vstd::string::StrSliceExecFns;
use vstd::string::StringExecFns;
use crate::decimal::spec_decimal;
use crate::decimal::usize_to_decimal;

verus! {

/// Smallest allowed character length of the anonymity prefix.
pub const MIN_PREFIX_LEN: usize = 4;

/// Largest allowed character length of the anonymity prefix.
pub const MAX_PREFIX_LEN: usize = 6;

/// The request body for the `check_credentials` endpoint.
pub struct CcRequest {
    /// Prefix of the hashed email.
    pub prefix: String,
    /// Cryptographically treated email-password combination.
    pub credentials: String,
}

/// The response body for the `check_credentials` endpoint.
pub struct CcResponse {
    /// The double-blinded user input.
    pub credentials: String,
    /// Cryptographically treated email-password combinations associated with
    /// the user-provided prefix.
    pub matches: Vec<String>,
}

/// Errors that can occur when checking credentials.
pub enum ApiError {
    /// The prefix was shorter than [`MIN_PREFIX_LEN`]; `len` is its length.
    PrefixTooShort { len: usize },
    /// The prefix was longer than [`MAX_PREFIX_LEN`]; `len` is its length.
    PrefixTooLong { len: usize },
    /// The breach-lookup collaborator could not be reached. The collaborator
    /// is external to this core, which only carries the error category.
    LookupUnavailable,
}

impl ApiError {
    /// The plain-text response body that reports this error.
    pub open spec fn spec_message(self) -> Seq<char> {
        match self {
            ApiError::PrefixTooShort { len } => "Prefix has a length of "@
                + spec_decimal(len as nat) + ", but the minimum is "@ + spec_decimal(
                MIN_PREFIX_LEN as nat,
            ),
            ApiError::PrefixTooLong { len } => "Prefix has a length of "@ + spec_decimal(
                len as nat,
            ) + ", but the maximum is "@ + spec_decimal(MAX_PREFIX_LEN as nat),
            ApiError::LookupUnavailable => "The breach lookup service is unavailable"@,
        }
    }

    /// The HTTP status code of the response that reports this error: a
    /// validation error is a client error, an unreachable collaborator a
    /// server error.
    pub open spec fn spec_status_code(self) -> u16 {
        match self {
            ApiError::PrefixTooShort { .. } => 400,
            ApiError::PrefixTooLong { .. } => 400,
            ApiError::LookupUnavailable => 503,
        }
    }

    /// Renders the plain-text response body for this error.
    pub fn message(&self) -> (r: String)
        ensures
            r@ == self.spec_message(),
    {
        match self {
            ApiError::PrefixTooShort { len } => {
                let mut s = String::from_str("Prefix has a length of ");
                let observed = usize_to_decimal(*len);
                s.append(observed.as_str());
                s.append(", but the minimum is ");
                let bound = usize_to_decimal(MIN_PREFIX_LEN);
                s.append(bound.as_str());
                proof {
                    assert(s@ =~= self.spec_message());
                }
                s
            },
            ApiError::PrefixTooLong { len } => {
                let mut s = String::from_str("Prefix has a length of ");
                let observed = usize_to_decimal(*len);
                s.append(observed.as_str());
                s.append(", but the maximum is ");
                let bound = usize_to_decimal(MAX_PREFIX_LEN);
                s.append(bound.as_str());
                proof {
                    assert(s@ =~= self.spec_message());
                }
                s
            },
            ApiError::LookupUnavailable => String::from_str(
                "The breach lookup service is unavailable",
            ),
        }
    }

    /// The HTTP status code of the response that reports this error.
    pub fn status_code(&self) -> (r: u16)
        ensures
            r == self.spec_status_code(),
    {
        match self {
            ApiError::PrefixTooShort { .. } => 400,
            ApiError::PrefixTooLong { .. } => 400,
            ApiError::LookupUnavailable => 503,
        }
    }
}

/// Checks whether an email-password combination is known to have been involved
/// in a data breach.
///
/// The prefix length is validated against the shared bounds; a request inside
/// the bounds is never rejected on length grounds. The breach-lookup
/// collaborator is external to this core and currently stubbed, so the
/// response carries its fixed placeholder values.
pub fn check_credentials(body: &CcRequest) -> (r: Result<CcResponse, ApiError>)
    ensures
        body.prefix@.len() > MAX_PREFIX_LEN ==> (r matches Err(e) && e
            == (ApiError::PrefixTooLong { len: body.prefix@.len() as usize })),
        body.prefix@.len() < MIN_PREFIX_LEN ==> (r matches Err(e) && e
            == (ApiError::PrefixTooShort { len: body.prefix@.len() as usize })),
        MIN_PREFIX_LEN <= body.prefix@.len() <= MAX_PREFIX_LEN ==> (r matches Ok(resp)
            && resp.credentials@ == "placeholder"@ && resp.matches@.len() == 1
            && resp.matches@[0]@ == "placeholder"@),
{
    let len = body.prefix.as_str().unicode_len();
    if len > MAX_PREFIX_LEN {
        return Err(ApiError::PrefixTooLong { len });
    }
    if len < MIN_PREFIX_LEN {
        return Err(ApiError::PrefixTooShort { len });
    }
    let mut found: Vec<String> = Vec::new();
    found.push(String::from_str("placeholder"));
    Ok(CcResponse { credentials: String::from_str("placeholder"), matches: found })
}

} // verus!
