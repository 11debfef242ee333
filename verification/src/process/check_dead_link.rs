//! The link check: what a probe of a site says about its link, and how the
//! verdicts of many probes are matched with the entries they belong to.
//!
//! The probes themselves are sent elsewhere, one per entry and all at once.
//! Whatever order they finish in, their outcomes are handed to this module
//! in the order of the entries, and the report keeps that order.

use crate::db::models::{
    account_views, checked_account_views, with_dead_link, WebsiteAccount, WebsiteAccountView,
    WebsiteAccountWithDeadLink, WebsiteAccountWithDeadLinkView,
};
use crate::db::pair_views;
use vstd::prelude::*;

verus! {

/// How one probe of a site ended.
#[derive(Debug, Clone, Copy, PartialEq, Eq)]
pub enum ProbeOutcome {
    /// The site answered with this HTTP status code.
    Answered { status: u16 },
    /// No answer came: the name did not resolve, the connection failed or
    /// timed out, or the exchange broke off.
    Unreachable,
}

/// Whether `status` is an HTTP success status, one from 200 to 299.
pub open spec fn is_success(status: u16) -> bool {
    200 <= status < 300
}

/// Whether a probe that ended in `outcome` shows a dead link: every
/// outcome but an answer with a success status does.
pub open spec fn is_dead(outcome: ProbeOutcome) -> bool {
    match outcome {
        ProbeOutcome::Answered { status } => !is_success(status),
        ProbeOutcome::Unreachable => true,
    }
}

/// Tells whether a probe that ended in `outcome` shows a dead link.
pub fn is_dead_link(outcome: ProbeOutcome) -> (dead: bool)
    ensures
        dead == is_dead(outcome),
{
    match outcome {
        ProbeOutcome::Answered { status } => !(200 <= status && status < 300),
        ProbeOutcome::Unreachable => true,
    }
}

/// The URLs to probe for `url_list`, one per entry and in its order.
pub fn urls_to_probe(url_list: &Vec<(String, i32)>) -> (urls: Vec<String>)
    ensures
        urls@.len() == url_list@.len(),
        forall|i: int| 0 <= i < urls@.len() ==> (#[trigger] urls@[i])@ == url_list@[i].0@,
{
    let mut urls: Vec<String> = Vec::new();
    let mut i: usize = 0;
    while i < url_list.len()
        invariant
            i <= url_list@.len(),
            urls@.len() == i,
            forall|k: int| 0 <= k < i ==> (#[trigger] urls@[k])@ == url_list@[k].0@,
        decreases url_list@.len() - i,
    {
        urls.push(url_list[i].0.clone());
        i = i + 1;
    }
    urls
}

/// The URLs to probe for the records `accounts`, one per record and in
/// their order.
pub fn sites_to_probe(accounts: &Vec<WebsiteAccount>) -> (urls: Vec<String>)
    ensures
        urls@.len() == accounts@.len(),
        forall|i: int| 0 <= i < urls@.len() ==> (#[trigger] urls@[i])@ == accounts@[i].site_url@,
{
    let mut urls: Vec<String> = Vec::new();
    let mut i: usize = 0;
    while i < accounts.len()
        invariant
            i <= accounts@.len(),
            urls@.len() == i,
            forall|k: int| 0 <= k < i ==> (#[trigger] urls@[k])@ == accounts@[k].site_url@,
        decreases accounts@.len() - i,
    {
        urls.push(accounts[i].site_url.clone());
        i = i + 1;
    }
    urls
}

/// The report for the entries `pairs` whose probes ended in `outcomes`:
/// entry `i` contributes its identifier and the verdict on outcome `i`.
pub open spec fn dead_link_report(
    pairs: Seq<(Seq<char>, i32)>,
    outcomes: Seq<ProbeOutcome>,
) -> Seq<(i32, bool)> {
    Seq::new(pairs.len(), |i: int| (pairs[i].1, is_dead(outcomes[i])))
}

/// The listing for the records `accounts` whose probes ended in
/// `outcomes`: record `i` is kept as it is and gains the verdict on
/// outcome `i`.
pub open spec fn dead_link_listing(
    accounts: Seq<WebsiteAccountView>,
    outcomes: Seq<ProbeOutcome>,
) -> Seq<WebsiteAccountWithDeadLinkView> {
    Seq::new(accounts.len(), |i: int| with_dead_link(accounts[i], is_dead(outcomes[i])))
}

/// Matches the `(url, id)` entries of `url_list` with the outcomes of their
/// probes and reports, for each entry in order, its identifier and whether
/// its link is dead.
pub fn check_dead_link(url_list: Vec<(String, i32)>, outcomes: Vec<ProbeOutcome>) -> (report: Vec<
    (i32, bool),
>)
    requires
        outcomes@.len() == url_list@.len(),
    ensures
        report@ == dead_link_report(pair_views(url_list@), outcomes@),
        report@.len() == url_list@.len(),
        forall|i: int| 0 <= i < report@.len() ==> (#[trigger] report@[i]).0 == url_list@[i].1,
{
    let mut report: Vec<(i32, bool)> = Vec::new();
    let mut i: usize = 0;
    while i < url_list.len()
        invariant
            outcomes@.len() == url_list@.len(),
            i <= url_list@.len(),
            report@.len() == i,
            forall|k: int|
                0 <= k < i ==> #[trigger] report@[k] == (url_list@[k].1, is_dead(outcomes@[k])),
        decreases url_list@.len() - i,
    {
        report.push((url_list[i].1, is_dead_link(outcomes[i])));
        i = i + 1;
    }
    proof {
        assert(report@ =~= dead_link_report(pair_views(url_list@), outcomes@));
    }
    report
}

/// Matches the records of `url_list` with the outcomes of the probes of
/// their sites and returns every record, in order, with its verdict.
pub fn check_dead_link_info(url_list: Vec<WebsiteAccount>, outcomes: Vec<ProbeOutcome>) -> (listing:
    Vec<WebsiteAccountWithDeadLink>)
    requires
        outcomes@.len() == url_list@.len(),
    ensures
        checked_account_views(listing@) == dead_link_listing(account_views(url_list@), outcomes@),
        listing@.len() == url_list@.len(),
{
    let mut listing: Vec<WebsiteAccountWithDeadLink> = Vec::new();
    let ghost all = url_list@;
    for account in it: url_list
        invariant
            it.seq() == all,
            outcomes@.len() == all.len(),
            listing@.len() == it.index(),
            forall|k: int|
                0 <= k < it.index() ==> (#[trigger] listing@[k])@ == with_dead_link(
                    all[k]@,
                    is_dead(outcomes@[k]),
                ),
    {
        let ghost i = it.index();
        assert(i < all.len());
        let dead_link: bool = is_dead_link(outcomes[listing.len()]);
        listing.push(
            WebsiteAccountWithDeadLink {
                id: account.id,
                account: account.account,
                password: account.password,
                site_url: account.site_url,
                site_name: account.site_name,
                note: account.note,
                dead_link,
            },
        );
    }
    proof {
        assert(checked_account_views(listing@) =~= dead_link_listing(
            account_views(all),
            outcomes@,
        ));
    }
    listing
}

/// A site that answers with status 200 is alive; one that answers with a
/// client or server error, from 400 to 599, is dead; so is one that cannot
/// be reached at all.
pub proof fn lemma_probe_verdicts(status: u16)
    ensures
        !is_dead(ProbeOutcome::Answered { status: 200 }),
        400 <= status <= 599 ==> is_dead(ProbeOutcome::Answered { status }),
        is_success(status) <==> !is_dead(ProbeOutcome::Answered { status }),
        is_dead(ProbeOutcome::Unreachable),
{
}

/// A report has exactly one row per entry, and row `i` pairs the
/// identifier of entry `i` with the verdict on its own probe: which probe
/// ended first has no part in it.
pub proof fn lemma_report_keeps_entries(pairs: Seq<(Seq<char>, i32)>, outcomes: Seq<ProbeOutcome>)
    requires
        outcomes.len() == pairs.len(),
    ensures
        dead_link_report(pairs, outcomes).len() == pairs.len(),
        forall|i: int|
            0 <= i < pairs.len() ==> #[trigger] dead_link_report(pairs, outcomes)[i] == (
                pairs[i].1,
                is_dead(outcomes[i]),
            ),
{
}

/// A listing has exactly one row per record, and row `i` is record `i`,
/// unchanged, with the verdict on its own probe.
pub proof fn lemma_listing_keeps_records(
    accounts: Seq<WebsiteAccountView>,
    outcomes: Seq<ProbeOutcome>,
)
    requires
        outcomes.len() == accounts.len(),
    ensures
        dead_link_listing(accounts, outcomes).len() == accounts.len(),
        forall|i: int|
            0 <= i < accounts.len() ==> #[trigger] dead_link_listing(accounts, outcomes)[i]
                == with_dead_link(accounts[i], is_dead(outcomes[i])),
{
}

} // verus!
