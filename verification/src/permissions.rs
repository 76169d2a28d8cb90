//! The permissions that every specifier of a fetch, redirect targets
//! included, must pass.

use crate::error::{permission_denied, FetchError, FetchErrorView};
use crate::http_cache::written_view;
use crate::specifier::Specifier;
use vstd::prelude::*;

verus! {

/// A predicate on specifiers. An implementation outside this library answers
/// for the contract of `check_specifier` itself.
pub trait Permissions {
    /// Whether the serialized URL `specifier` may be fetched.
    open spec fn allows(&self, specifier: Seq<char>) -> bool {
        arbitrary()
    }

    /// The error for a specifier that may not be fetched.
    open spec fn denial(&self, specifier: Seq<char>) -> FetchErrorView {
        permission_denied(specifier)
    }

    /// Checks whether `specifier` may be fetched.
    fn check_specifier(&self, specifier: &Specifier) -> (r: Result<(), FetchError>)
        ensures
            written_view(r) == if self.allows(specifier@) {
                Ok::<(), FetchErrorView>(())
            } else {
                Err::<(), FetchErrorView>(self.denial(specifier@))
            },
    ;
}

/// What checking `specifier` against the permissions `permissions` gives.
pub open spec fn checked<P: Permissions>(permissions: P, specifier: Seq<char>) -> Result<
    (),
    FetchErrorView,
> {
    if permissions.allows(specifier) {
        Ok(())
    } else {
        Err(permissions.denial(specifier))
    }
}

/// The permissions that allow every specifier.
#[derive(Clone, Copy, Debug)]
pub struct AllowAll;

impl Permissions for AllowAll {
    open spec fn allows(&self, specifier: Seq<char>) -> bool {
        true
    }

    fn check_specifier(&self, specifier: &Specifier) -> (r: Result<(), FetchError>) {
        Ok(())
    }
}

} // verus!
