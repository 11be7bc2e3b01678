//! Values of the GitHub Apps API.
use vstd::prelude::*;

verus! {

/// An installation of a GitHub App.
#[derive(Debug, Clone)]
pub struct Installation {
    /// Installation ID.
    pub id: u64,
    /// The account the App is installed on.
    pub account: Account,
}

/// The account of an installation.
#[derive(Debug, Clone)]
pub struct Account {
    /// Title of the account, if it has one.
    pub title: Option<String>,
    /// Account ID.
    pub id: i64,
    /// Account login.
    pub login: String,
}

} // verus!
