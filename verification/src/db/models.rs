//! The credential records that the vault stores and lists.

use vstd::prelude::*;

verus! {

/// One stored credential. `id` is absent until the store has assigned one.
#[derive(Debug, Clone, PartialEq, Eq)]
pub struct WebsiteAccount {
    pub id: Option<i32>,
    pub account: String,
    pub password: String,
    pub site_url: String,
    pub site_name: Option<String>,
    pub note: Option<String>,
}

/// What a [`WebsiteAccount`] holds, as mathematical values.
pub struct WebsiteAccountView {
    pub id: Option<i32>,
    pub account: Seq<char>,
    pub password: Seq<char>,
    pub site_url: Seq<char>,
    pub site_name: Option<Seq<char>>,
    pub note: Option<Seq<char>>,
}

impl View for WebsiteAccount {
    type V = WebsiteAccountView;

    open spec fn view(&self) -> WebsiteAccountView {
        WebsiteAccountView {
            id: self.id,
            account: self.account@,
            password: self.password@,
            site_url: self.site_url@,
            site_name: self.site_name.deep_view(),
            note: self.note.deep_view(),
        }
    }
}

/// A credential together with the verdict of the link check on its site:
/// `dead_link` is true when the site did not answer with a success status.
#[derive(Debug, Clone, PartialEq, Eq)]
pub struct WebsiteAccountWithDeadLink {
    pub id: Option<i32>,
    pub account: String,
    pub password: String,
    pub site_url: String,
    pub site_name: Option<String>,
    pub note: Option<String>,
    pub dead_link: bool,
}

/// What a [`WebsiteAccountWithDeadLink`] holds, as mathematical values.
pub struct WebsiteAccountWithDeadLinkView {
    pub id: Option<i32>,
    pub account: Seq<char>,
    pub password: Seq<char>,
    pub site_url: Seq<char>,
    pub site_name: Option<Seq<char>>,
    pub note: Option<Seq<char>>,
    pub dead_link: bool,
}

impl View for WebsiteAccountWithDeadLink {
    type V = WebsiteAccountWithDeadLinkView;

    open spec fn view(&self) -> WebsiteAccountWithDeadLinkView {
        WebsiteAccountWithDeadLinkView {
            id: self.id,
            account: self.account@,
            password: self.password@,
            site_url: self.site_url@,
            site_name: self.site_name.deep_view(),
            note: self.note.deep_view(),
            dead_link: self.dead_link,
        }
    }
}

/// The record `account` with the verdict `dead_link` attached.
pub open spec fn with_dead_link(
    account: WebsiteAccountView,
    dead_link: bool,
) -> WebsiteAccountWithDeadLinkView {
    WebsiteAccountWithDeadLinkView {
        id: account.id,
        account: account.account,
        password: account.password,
        site_url: account.site_url,
        site_name: account.site_name,
        note: account.note,
        dead_link,
    }
}

/// The views of the records in `accounts`, in order.
pub open spec fn account_views(accounts: Seq<WebsiteAccount>) -> Seq<WebsiteAccountView> {
    Seq::new(accounts.len(), |i: int| accounts[i]@)
}

/// The views of the checked records in `accounts`, in order.
pub open spec fn checked_account_views(
    accounts: Seq<WebsiteAccountWithDeadLink>,
) -> Seq<WebsiteAccountWithDeadLinkView> {
    Seq::new(accounts.len(), |i: int| accounts[i]@)
}

} // verus!
