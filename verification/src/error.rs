//! The closed error taxonomy of the authorization core.
//!
//! Configuration defects (`EmptyPermissionGroupList`, `InvalidPublic`) and
//! genuine denials (`Unauthorized`) are both terminal for the action but
//! must stay distinguishable; a source's own lookup failure is carried
//! through unchanged in `Std`.

use crate::context::Addr;
use vstd::prelude::*;

verus! {

/// The result type of every fallible operation in this library.
pub type NeptAuthResult<T> = Result<T, NeptAuthError>;

/// Everything that can go wrong during an authorization check.
#[derive(Debug, PartialEq)]
pub enum NeptAuthError {
    /// A source's own lookup failed; the underlying failure is carried
    /// through as its rendered message, unchanged.
    Std(String),
    /// The caller is genuinely not permitted: an expected runtime outcome,
    /// not a defect. Carries the caller address and a rendering of the
    /// pre-merge source list for audit.
    Unauthorized { sender: Addr, permission_group: String },
    /// `Public` appeared alongside other entries during a merge; a
    /// configuration defect in the calling contract.
    InvalidPublic,
    /// A resolver returned zero sources; a configuration defect in the
    /// calling contract.
    EmptyPermissionGroupList,
}

/// The mathematical model of a [`NeptAuthError`]: the same variants over
/// character sequences instead of heap-allocated values.
#[verifier::ext_equal]
pub enum AuthErrorView {
    Std(Seq<char>),
    Unauthorized { sender: Seq<char>, permission_group: Seq<char> },
    InvalidPublic,
    EmptyPermissionGroupList,
}

/// The rendered message of each error, as the embedding application is
/// meant to display it.
pub open spec fn message_view(e: AuthErrorView) -> Seq<char> {
    match e {
        AuthErrorView::Std(msg) => msg,
        AuthErrorView::Unauthorized { sender, permission_group } => "Neptune Auth Error - Unauthorized: "@
            + sender + " is not "@ + permission_group,
        AuthErrorView::InvalidPublic => "Neptune Auth Error - Public must be only entry in permission group list"@,
        AuthErrorView::EmptyPermissionGroupList => "Neptune Auth Error - Empty permission group list"@,
    }
}

impl NeptAuthError {
    /// The human-readable message of this error, as [`message_view`]
    /// states it.
    pub fn message(&self) -> (r: String)
        ensures
            r@ == message_view(self@),
    {
        match self {
            NeptAuthError::Std(msg) => msg.clone(),
            NeptAuthError::Unauthorized { sender, permission_group } => {
                let mut out = String::from_str("Neptune Auth Error - Unauthorized: ");
                out.append(sender.as_str());
                out.append(" is not ");
                out.append(permission_group.as_str());
                out
            },
            NeptAuthError::InvalidPublic => String::from_str(
                "Neptune Auth Error - Public must be only entry in permission group list",
            ),
            NeptAuthError::EmptyPermissionGroupList => String::from_str(
                "Neptune Auth Error - Empty permission group list",
            ),
        }
    }
}

impl View for NeptAuthError {
    type V = AuthErrorView;

    open spec fn view(&self) -> AuthErrorView {
        match self {
            NeptAuthError::Std(msg) => AuthErrorView::Std(msg@),
            NeptAuthError::Unauthorized { sender, permission_group } => AuthErrorView::Unauthorized {
                sender: sender@,
                permission_group: permission_group@,
            },
            NeptAuthError::InvalidPublic => AuthErrorView::InvalidPublic,
            NeptAuthError::EmptyPermissionGroupList => AuthErrorView::EmptyPermissionGroupList,
        }
    }
}

} // verus!
