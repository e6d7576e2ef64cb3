//! Request classification: the method and path of a freshly received request
//! head decide, before any body is read, which of three outcomes the request
//! gets, together with its body ceiling and timeout budget.

use vstd::prelude::*;
use crate::bytes::{bytes_eq, tail_from};
use crate::paths::SLASH;
use crate::text::{post_method, post_method_bytes};

verus! {

/// The body ceiling for a store request: one mebibyte.
pub const STORE_BODY_CAP: usize = 1024 * 1024;

/// The body ceiling for a request that needs no body.
pub const QUICK_BODY_CAP: usize = 1024;

/// The timeout budget, in whole seconds, granted to a store request.
pub const STORE_TIMEOUT_SECS: u64 = 10;

/// The extra nanoseconds of the minimal timeout budget granted to a request
/// that needs no body.
pub const QUICK_TIMEOUT_NANOS: u32 = 1;

/// The disposition of one request, decided from its method and path alone.
pub enum Outcome {
    /// Store the request body under the given name (the path without its
    /// leading slash, byte for byte).
    Store { name: Vec<u8> },
    /// Answer with the fixed not-found response.
    PageNotFound,
    /// Answer with the fixed method-not-allowed response; `allow` is the
    /// value of the `Allow` header.
    MethodNotAllowed { allow: Vec<u8> },
}

/// How much body may be buffered for a request, and how long it may take:
/// the deadline is the moment of classification plus this budget.
pub struct Budget {
    /// The most body bytes that will be buffered before the handler runs.
    pub max_body_bytes: usize,
    /// Whole seconds of the timeout budget.
    pub timeout_secs: u64,
    /// Nanoseconds of the timeout budget, below one second.
    pub timeout_nanos: u32,
}

/// A path that may name a stored file: it starts with a slash and keeps at
/// least two bytes after it.
pub open spec fn is_store_path(p: Seq<u8>) -> bool {
    p.len() > 2 && p[0] == SLASH
}

/// The generous budget of a store request.
pub open spec fn is_store_budget(b: Budget) -> bool {
    b.max_body_bytes == STORE_BODY_CAP
    && b.timeout_secs == STORE_TIMEOUT_SECS
    && b.timeout_nanos == 0
}

/// The minimal budget of a request whose answer needs no body.
pub open spec fn is_quick_budget(b: Budget) -> bool {
    b.max_body_bytes == QUICK_BODY_CAP
    && b.timeout_secs == 0
    && b.timeout_nanos == QUICK_TIMEOUT_NANOS
}

/// Classifies a request head. A path of the store shape asked for with
/// `POST` stores the path without its leading slash; the same path with any
/// other method is refused with the allowed method; every other path — in
/// particular `/`, the empty path, and any path of two bytes or fewer — is
/// not found.
pub fn classify(method: &Vec<u8>, path: &Vec<u8>) -> (r: (Outcome, Budget))
    ensures
        is_store_path(path@) && method@ == post_method() ==> ((r.0 matches Outcome::Store {
            name,
        } && name@ == path@.skip(1)) && is_store_budget(r.1)),
        is_store_path(path@) && method@ != post_method() ==> ((r.0 matches Outcome::MethodNotAllowed {
            allow,
        } && allow@ == post_method()) && is_quick_budget(r.1)),
        !is_store_path(path@) ==> (r.0 is PageNotFound && is_quick_budget(r.1)),
{
    if path.len() > 2 && path[0] == SLASH {
        let post = post_method_bytes();
        if bytes_eq(method.as_slice(), post.as_slice()) {
            let name = tail_from(path, 1);
            (
                Outcome::Store { name },
                Budget {
                    max_body_bytes: STORE_BODY_CAP,
                    timeout_secs: STORE_TIMEOUT_SECS,
                    timeout_nanos: 0,
                },
            )
        } else {
            (
                Outcome::MethodNotAllowed { allow: post },
                Budget {
                    max_body_bytes: QUICK_BODY_CAP,
                    timeout_secs: 0,
                    timeout_nanos: QUICK_TIMEOUT_NANOS,
                },
            )
        }
    } else {
        (
            Outcome::PageNotFound,
            Budget {
                max_body_bytes: QUICK_BODY_CAP,
                timeout_secs: 0,
                timeout_nanos: QUICK_TIMEOUT_NANOS,
            },
        )
    }
}

} // verus!
