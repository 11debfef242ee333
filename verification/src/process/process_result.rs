//! What serving a request ends in: an outcome to report, or a failure of
//! one of the two collaborators that can fail.

use crate::db::models::{
    checked_account_views, WebsiteAccountWithDeadLink, WebsiteAccountWithDeadLinkView,
};
use vstd::prelude::*;

verus! {

/// Why a request could not be served. The text is the collaborator's own
/// account of what went wrong; it is logged, never sent to the client.
#[derive(Debug, Clone, PartialEq, Eq)]
pub enum ProError {
    /// The store failed.
    DbError(String),
    /// The login check turned the password down, or could not run.
    IdentityError(String),
}

/// What a [`ProError`] holds, as mathematical values.
pub enum ProErrorView {
    DbError(Seq<char>),
    IdentityError(Seq<char>),
}

impl View for ProError {
    type V = ProErrorView;

    open spec fn view(&self) -> ProErrorView {
        match self {
            ProError::DbError(reason) => ProErrorView::DbError(reason@),
            ProError::IdentityError(reason) => ProErrorView::IdentityError(reason@),
        }
    }
}

/// What a served request reports back.
#[derive(Debug, Clone, PartialEq, Eq)]
pub enum ProOk {
    /// The action was carried out; there is nothing more to say.
    Ack,
    /// Every stored credential, each with the verdict of its link check.
    Info(Vec<WebsiteAccountWithDeadLink>),
    /// For every stored site its identifier and whether its link is dead.
    DeadLink(Vec<(i32, bool)>),
}

/// What a [`ProOk`] holds, as mathematical values.
pub enum ProOkView {
    Ack,
    Info(Seq<WebsiteAccountWithDeadLinkView>),
    DeadLink(Seq<(i32, bool)>),
}

impl View for ProOk {
    type V = ProOkView;

    open spec fn view(&self) -> ProOkView {
        match self {
            ProOk::Ack => ProOkView::Ack,
            ProOk::Info(list) => ProOkView::Info(checked_account_views(list@)),
            ProOk::DeadLink(list) => ProOkView::DeadLink(list@),
        }
    }
}

/// The view of a finished request, outcome or failure.
pub open spec fn result_view(result: Result<ProOk, ProError>) -> Result<ProOkView, ProErrorView> {
    match result {
        Ok(outcome) => Ok(outcome@),
        Err(failure) => Err(failure@),
    }
}

} // verus!
