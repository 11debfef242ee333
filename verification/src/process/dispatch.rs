//! Carrying out an action.
//!
//! Every action needs the help of a collaborator that lives outside this
//! library: the login check, the store, or the network. The dispatcher
//! therefore works in steps. [`handle_action`] names the first call to
//! make; the host makes it and reports what came of it as an [`Event`];
//! [`resume`] then either names one more call or finishes with the result.
//! Nothing is retried: the first failure of a collaborator ends the
//! request.

use crate::db::models::{
    account_views, WebsiteAccount, WebsiteAccountView, WebsiteAccountWithDeadLink,
};
use crate::db::pair_views;
use crate::process::action::{Action, ActionView};
use crate::process::check_dead_link::{
    check_dead_link, check_dead_link_info, dead_link_listing, dead_link_report, sites_to_probe,
    urls_to_probe, ProbeOutcome,
};
use crate::process::process_result::{result_view, ProError, ProErrorView, ProOk, ProOkView};
use vstd::prelude::*;

verus! {

/// A call that the host makes on the dispatcher's behalf.
#[derive(Debug, Clone, PartialEq, Eq)]
pub enum Effect {
    /// Check `password` against the login of the user the vault runs as.
    Authenticate { password: String },
    /// Read every stored credential.
    LoadAccounts,
    /// Store `record` as a new credential; the store assigns its
    /// identifier.
    InsertAccount { record: WebsiteAccount },
    /// Overwrite the credential `id` with these values. No row with that
    /// identifier is no failure.
    UpdateAccount {
        id: i32,
        account: String,
        password: String,
        site_name: Option<String>,
        site_url: String,
        note: Option<String>,
    },
    /// Remove the credential `website_id`. No row with that identifier is
    /// no failure.
    DeleteAccount { website_id: i32 },
    /// Read the site URL and identifier of every stored credential.
    LoadIdAndUrl,
    /// Send one GET request to each of `urls`, all at once, and wait for
    /// all of them.
    Probe { urls: Vec<String> },
}

/// What an [`Effect`] holds, as mathematical values.
pub enum EffectView {
    Authenticate { password: Seq<char> },
    LoadAccounts,
    InsertAccount { record: WebsiteAccountView },
    UpdateAccount {
        id: i32,
        account: Seq<char>,
        password: Seq<char>,
        site_name: Option<Seq<char>>,
        site_url: Seq<char>,
        note: Option<Seq<char>>,
    },
    DeleteAccount { website_id: i32 },
    LoadIdAndUrl,
    Probe { urls: Seq<Seq<char>> },
}

/// The texts of `urls`, in order.
pub open spec fn url_views(urls: Seq<String>) -> Seq<Seq<char>> {
    Seq::new(urls.len(), |i: int| urls[i]@)
}

impl View for Effect {
    type V = EffectView;

    open spec fn view(&self) -> EffectView {
        match self {
            Effect::Authenticate { password } => EffectView::Authenticate { password: password@ },
            Effect::LoadAccounts => EffectView::LoadAccounts,
            Effect::InsertAccount { record } => EffectView::InsertAccount { record: record@ },
            Effect::UpdateAccount { id, account, password, site_name, site_url, note } => {
                EffectView::UpdateAccount {
                    id: *id,
                    account: account@,
                    password: password@,
                    site_name: site_name.deep_view(),
                    site_url: site_url@,
                    note: note.deep_view(),
                }
            },
            Effect::DeleteAccount { website_id } => EffectView::DeleteAccount {
                website_id: *website_id,
            },
            Effect::LoadIdAndUrl => EffectView::LoadIdAndUrl,
            Effect::Probe { urls } => EffectView::Probe { urls: url_views(urls@) },
        }
    }
}

/// What the host reports after making a call. A failure carries the
/// collaborator's own account of what went wrong.
#[derive(Debug, PartialEq, Eq)]
pub enum Event {
    /// The login check ran: the password was accepted, or it was not.
    Authenticated { verdict: Result<(), String> },
    /// The store was asked for every credential.
    AccountsLoaded { accounts: Result<Vec<WebsiteAccount>, String> },
    /// The store was asked to insert, update or delete.
    Stored { outcome: Result<(), String> },
    /// The store was asked for the site URLs and identifiers.
    IdAndUrlLoaded { pairs: Result<Vec<(String, i32)>, String> },
    /// All probes have ended; outcome `i` belongs to URL `i`.
    Probed { outcomes: Vec<ProbeOutcome> },
}

/// What an [`Event`] holds, as mathematical values.
pub enum EventView {
    Authenticated { verdict: Result<(), Seq<char>> },
    AccountsLoaded { accounts: Result<Seq<WebsiteAccountView>, Seq<char>> },
    Stored { outcome: Result<(), Seq<char>> },
    IdAndUrlLoaded { pairs: Result<Seq<(Seq<char>, i32)>, Seq<char>> },
    Probed { outcomes: Seq<ProbeOutcome> },
}

impl View for Event {
    type V = EventView;

    open spec fn view(&self) -> EventView {
        match self {
            Event::Authenticated { verdict } => EventView::Authenticated {
                verdict: match verdict {
                    Ok(_) => Ok(()),
                    Err(reason) => Err(reason@),
                },
            },
            Event::AccountsLoaded { accounts } => EventView::AccountsLoaded {
                accounts: match accounts {
                    Ok(list) => Ok(account_views(list@)),
                    Err(reason) => Err(reason@),
                },
            },
            Event::Stored { outcome } => EventView::Stored {
                outcome: match outcome {
                    Ok(_) => Ok(()),
                    Err(reason) => Err(reason@),
                },
            },
            Event::IdAndUrlLoaded { pairs } => EventView::IdAndUrlLoaded {
                pairs: match pairs {
                    Ok(list) => Ok(pair_views(list@)),
                    Err(reason) => Err(reason@),
                },
            },
            Event::Probed { outcomes } => EventView::Probed { outcomes: outcomes@ },
        }
    }
}

/// What the dispatcher is waiting for, and what it keeps meanwhile.
#[derive(Debug, Clone, PartialEq, Eq)]
pub enum Pending {
    /// The verdict of the login check.
    Login,
    /// The outcome of an insert, update or delete.
    Store,
    /// The stored credentials, to be listed.
    Accounts,
    /// The site URLs and identifiers, to be checked.
    IdAndUrl,
    /// The outcomes of the probes of these credentials' sites.
    AccountProbes { accounts: Vec<WebsiteAccount> },
    /// The outcomes of the probes of these sites.
    LinkProbes { pairs: Vec<(String, i32)> },
}

/// What a [`Pending`] holds, as mathematical values.
pub enum PendingView {
    Login,
    Store,
    Accounts,
    IdAndUrl,
    AccountProbes { accounts: Seq<WebsiteAccountView> },
    LinkProbes { pairs: Seq<(Seq<char>, i32)> },
}

impl View for Pending {
    type V = PendingView;

    open spec fn view(&self) -> PendingView {
        match self {
            Pending::Login => PendingView::Login,
            Pending::Store => PendingView::Store,
            Pending::Accounts => PendingView::Accounts,
            Pending::IdAndUrl => PendingView::IdAndUrl,
            Pending::AccountProbes { accounts } => PendingView::AccountProbes {
                accounts: account_views(accounts@),
            },
            Pending::LinkProbes { pairs } => PendingView::LinkProbes { pairs: pair_views(pairs@) },
        }
    }
}

/// What the dispatcher does next.
#[derive(Debug, PartialEq, Eq)]
pub enum Step {
    /// The host makes the call `effect` and resumes `pending` with what
    /// came of it.
    Perform { effect: Effect, pending: Pending },
    /// The request is served; `result` is to be answered.
    Finish { result: Result<ProOk, ProError> },
}

/// What a [`Step`] holds, as mathematical values.
pub enum StepView {
    Perform { effect: EffectView, pending: PendingView },
    Finish { result: Result<ProOkView, ProErrorView> },
}

impl View for Step {
    type V = StepView;

    open spec fn view(&self) -> StepView {
        match self {
            Step::Perform { effect, pending } => StepView::Perform {
                effect: effect@,
                pending: pending@,
            },
            Step::Finish { result } => StepView::Finish { result: result_view(*result) },
        }
    }
}

/// The first call that `action` needs, and what the dispatcher then waits
/// for.
pub open spec fn first_step(action: ActionView) -> (PendingView, EffectView) {
    match action {
        ActionView::CheckIdentity { password } => (
            PendingView::Login,
            EffectView::Authenticate { password },
        ),
        ActionView::GetInfo => (PendingView::Accounts, EffectView::LoadAccounts),
        ActionView::AddWebsiteAccount { account, password, site_url, site_name, note } => (
            PendingView::Store,
            EffectView::InsertAccount {
                record: WebsiteAccountView {
                    id: None,
                    account,
                    password,
                    site_url,
                    site_name,
                    note,
                },
            },
        ),
        ActionView::ChangeWebsiteAccount {
            id,
            new_account,
            new_password,
            new_site_name,
            new_site_url,
            new_note,
        } => (
            PendingView::Store,
            EffectView::UpdateAccount {
                id,
                account: new_account,
                password: new_password,
                site_name: new_site_name,
                site_url: new_site_url,
                note: new_note,
            },
        ),
        ActionView::DeleteWebsiteAccount { website_id } => (
            PendingView::Store,
            EffectView::DeleteAccount { website_id },
        ),
        ActionView::CheckDeadLink => (PendingView::IdAndUrl, EffectView::LoadIdAndUrl),
    }
}

/// The site URLs of `accounts`, in order.
pub open spec fn site_urls(accounts: Seq<WebsiteAccountView>) -> Seq<Seq<char>> {
    Seq::new(accounts.len(), |i: int| accounts[i].site_url)
}

/// The URLs of `pairs`, in order.
pub open spec fn pair_urls(pairs: Seq<(Seq<char>, i32)>) -> Seq<Seq<char>> {
    Seq::new(pairs.len(), |i: int| pairs[i].0)
}

/// What the dispatcher does when `event` arrives while it waits for
/// `pending`; nothing when `event` is no answer to what it waits for.
///
/// A verdict or an outcome of the store ends the request: success with an
/// acknowledgement, failure with the matching error. Loaded credentials or
/// pairs lead to one probe per entry, a failed load ends the request. The
/// outcomes of the probes, one per entry, end it with the listing or the
/// report.
pub open spec fn next_step(pending: PendingView, event: EventView) -> Option<StepView> {
    match (pending, event) {
        (PendingView::Login, EventView::Authenticated { verdict }) => Some(
            StepView::Finish {
                result: match verdict {
                    Ok(_) => Ok(ProOkView::Ack),
                    Err(reason) => Err(ProErrorView::IdentityError(reason)),
                },
            },
        ),
        (PendingView::Store, EventView::Stored { outcome }) => Some(
            StepView::Finish {
                result: match outcome {
                    Ok(_) => Ok(ProOkView::Ack),
                    Err(reason) => Err(ProErrorView::DbError(reason)),
                },
            },
        ),
        (PendingView::Accounts, EventView::AccountsLoaded { accounts }) => Some(
            match accounts {
                Ok(accounts) => StepView::Perform {
                    effect: EffectView::Probe { urls: site_urls(accounts) },
                    pending: PendingView::AccountProbes { accounts },
                },
                Err(reason) => StepView::Finish { result: Err(ProErrorView::DbError(reason)) },
            },
        ),
        (PendingView::IdAndUrl, EventView::IdAndUrlLoaded { pairs }) => Some(
            match pairs {
                Ok(pairs) => StepView::Perform {
                    effect: EffectView::Probe { urls: pair_urls(pairs) },
                    pending: PendingView::LinkProbes { pairs },
                },
                Err(reason) => StepView::Finish { result: Err(ProErrorView::DbError(reason)) },
            },
        ),
        (PendingView::AccountProbes { accounts }, EventView::Probed { outcomes }) => {
            if outcomes.len() == accounts.len() {
                Some(
                    StepView::Finish {
                        result: Ok(ProOkView::Info(dead_link_listing(accounts, outcomes))),
                    },
                )
            } else {
                None
            }
        },
        (PendingView::LinkProbes { pairs }, EventView::Probed { outcomes }) => {
            if outcomes.len() == pairs.len() {
                Some(
                    StepView::Finish {
                        result: Ok(ProOkView::DeadLink(dead_link_report(pairs, outcomes))),
                    },
                )
            } else {
                None
            }
        },
        _ => None,
    }
}

/// Whether `step` is the exec-level counterpart of `expected`.
pub open spec fn stepped_as(step: Option<Step>, expected: Option<StepView>) -> bool {
    match step {
        Some(step) => expected == Some(step@),
        None => expected is None,
    }
}

/// Starts serving `action`: names the call to make first and what to
/// resume with once it has been made.
pub fn handle_action(action: Action) -> (start: (Pending, Effect))
    ensures
        (start.0@, start.1@) == first_step(action@),
{
    match action {
        Action::CheckIdentity { password } => (Pending::Login, Effect::Authenticate { password }),
        Action::GetInfo => (Pending::Accounts, Effect::LoadAccounts),
        Action::AddWebsiteAccount { account, password, site_url, site_name, note } => (
            Pending::Store,
            Effect::InsertAccount {
                record: WebsiteAccount { id: None, account, password, site_url, site_name, note },
            },
        ),
        Action::ChangeWebsiteAccount {
            id,
            new_account,
            new_password,
            new_site_name,
            new_site_url,
            new_note,
        } => (
            Pending::Store,
            Effect::UpdateAccount {
                id,
                account: new_account,
                password: new_password,
                site_name: new_site_name,
                site_url: new_site_url,
                note: new_note,
            },
        ),
        Action::DeleteWebsiteAccount { website_id } => (
            Pending::Store,
            Effect::DeleteAccount { website_id },
        ),
        Action::CheckDeadLink => (Pending::IdAndUrl, Effect::LoadIdAndUrl),
    }
}

/// Goes on serving a request after the host has made a call: `pending` is
/// what the dispatcher was waiting for, `event` what the host reports.
///
/// Returns `None`, and does nothing, exactly when `event` is no answer to
/// `pending`: an event of another kind, or probe outcomes that are not one
/// per entry.
pub fn resume(pending: Pending, event: Event) -> (step: Option<Step>)
    ensures
        stepped_as(step, next_step(pending@, event@)),
{
    match (pending, event) {
        (Pending::Login, Event::Authenticated { verdict }) => {
            match verdict {
                Ok(_) => Some(Step::Finish { result: Ok(ProOk::Ack) }),
                Err(reason) => Some(Step::Finish { result: Err(ProError::IdentityError(reason)) }),
            }
        },
        (Pending::Store, Event::Stored { outcome }) => {
            match outcome {
                Ok(_) => Some(Step::Finish { result: Ok(ProOk::Ack) }),
                Err(reason) => Some(Step::Finish { result: Err(ProError::DbError(reason)) }),
            }
        },
        (Pending::Accounts, Event::AccountsLoaded { accounts }) => {
            match accounts {
                Ok(accounts) => {
                    let urls: Vec<String> = sites_to_probe(&accounts);
                    proof {
                        assert(url_views(urls@) =~= site_urls(account_views(accounts@)));
                    }
                    Some(
                        Step::Perform {
                            effect: Effect::Probe { urls },
                            pending: Pending::AccountProbes { accounts },
                        },
                    )
                },
                Err(reason) => Some(Step::Finish { result: Err(ProError::DbError(reason)) }),
            }
        },
        (Pending::IdAndUrl, Event::IdAndUrlLoaded { pairs }) => {
            match pairs {
                Ok(pairs) => {
                    let urls: Vec<String> = urls_to_probe(&pairs);
                    proof {
                        assert(url_views(urls@) =~= pair_urls(pair_views(pairs@)));
                    }
                    Some(
                        Step::Perform {
                            effect: Effect::Probe { urls },
                            pending: Pending::LinkProbes { pairs },
                        },
                    )
                },
                Err(reason) => Some(Step::Finish { result: Err(ProError::DbError(reason)) }),
            }
        },
        (Pending::AccountProbes { accounts }, Event::Probed { outcomes }) => {
            if outcomes.len() == accounts.len() {
                let listing: Vec<WebsiteAccountWithDeadLink> = check_dead_link_info(
                    accounts,
                    outcomes,
                );
                Some(Step::Finish { result: Ok(ProOk::Info(listing)) })
            } else {
                None
            }
        },
        (Pending::LinkProbes { pairs }, Event::Probed { outcomes }) => {
            if outcomes.len() == pairs.len() {
                let report: Vec<(i32, bool)> = check_dead_link(pairs, outcomes);
                Some(Step::Finish { result: Ok(ProOk::DeadLink(report)) })
            } else {
                None
            }
        },
        _ => None,
    }
}

} // verus!
