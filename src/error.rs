use vstd::prelude::*;

verus! {

/// The store's error type, `async_session::Error` (anyhow's `Error`), carried
/// as the cause of a failed store operation.
#[verifier::external_type_specification]
#[verifier::external_body]
pub struct ExStoreError(async_session::Error);

/// Why binding a session to a reply failed.
#[derive(Debug)]
pub enum SessionError {
    /// The store failed to destroy a session that was marked destroyed.
    DestroyError { source: async_session::Error },
    /// The store failed to persist a session whose data changed.
    StoreError { source: async_session::Error },
    /// The cookie could not be written as a header value.
    CookieEncodingError,
}

} // verus!
