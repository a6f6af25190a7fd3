//! Client side of the Automation dispatch protocol: the tagged-value codec,
//! the invocation engine's decisions, and a small mail-folder layer on top.
//!
//! Remote calls themselves are performed by the caller; the library decides
//! what to call next and what each reply means.
use vstd::prelude::*;

pub mod application;
pub mod dispatch;
pub mod variant;

use dispatch::DispatchError;
use variant::{TypedVariant, VariantError};

verus! {

/// Locale identifier sent with every name lookup and invocation.
pub const LOCALE_USER_DEFAULT: u32 = 0x0400;

/// Every failure the client reports.
#[derive(Debug, PartialEq, Eq)]
pub enum WinError {
    VariantError(VariantError),
    DispatchError(DispatchError),
    /// A failure of the runtime itself, by its result code.
    Internal(i32),
}

/// `e` says that `method` answered with `v`, a value of an unexpected kind.
pub open spec fn is_mismatch(e: WinError, method: Seq<char>, v: TypedVariant) -> bool {
    &&& e matches WinError::VariantError(VariantError::Mismatch { method: m, result })
    &&& m@ == method
    &&& result == v
}

/// Builds the error for a reply of an unexpected kind.
pub fn mismatch(method: &str, result: TypedVariant) -> (e: WinError)
    ensures
        is_mismatch(e, method@, result),
{
    WinError::VariantError(VariantError::Mismatch { method: method.to_owned(), result })
}

} // verus!
