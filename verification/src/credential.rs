//! A credential that a background loop keeps fresh.
//!
//! The keeper owns the credential. Readers take a snapshot of it and never
//! wait for a refresh; the refresh loop alone replaces it. A refresh that
//! fails is reported and the credential in hand stays in use: it is stale,
//! but not yet expired.

use vstd::prelude::*;
use vstd::string::*;
use crate::error::{Error, ErrorView};

verus! {

/// How long before its expiry a credential is refreshed, in seconds.
pub const REFRESH_MARGIN_SECS: u64 = 60;

/// The single owner of a credential.
#[derive(Debug, PartialEq, Eq)]
pub struct TokenKeeper {
    pub current: String,
}

/// What became of one attempt to refresh the credential.
#[derive(Debug, PartialEq, Eq)]
pub enum Refresh {
    /// The new credential is in place.
    Renewed,
    /// The attempt failed; the report is for the log, and the loop goes on
    /// with the credential it had.
    Kept(String),
}

/// Mathematical model of a [`Refresh`].
pub enum RefreshView {
    Renewed,
    Kept(Seq<char>),
}

impl View for Refresh {
    type V = RefreshView;

    open spec fn view(&self) -> RefreshView {
        match self {
            Refresh::Renewed => RefreshView::Renewed,
            Refresh::Kept(report) => RefreshView::Kept(report@),
        }
    }
}

/// The report of a refresh that failed with `error`.
pub open spec fn refresh_report(error: ErrorView) -> Seq<char> {
    "Error while refreshing token: "@ + error.message()
}

/// The model of the outcome of an attempt to get a new credential.
pub open spec fn attempt_of(outcome: Result<String, Error>) -> Result<Seq<char>, ErrorView> {
    match outcome {
        Ok(token) => Ok(token@),
        Err(error) => Err(error@),
    }
}

/// How long the refresh loop sleeps when the credential expires in
/// `expires_in` seconds: until a minute before the expiry, and not at all
/// where less than a minute is left.
pub fn refresh_delay(expires_in: u64) -> (delay: u64)
    ensures
        delay == if expires_in >= REFRESH_MARGIN_SECS {
            expires_in - REFRESH_MARGIN_SECS
        } else {
            0
        },
{
    if expires_in >= REFRESH_MARGIN_SECS {
        expires_in - REFRESH_MARGIN_SECS
    } else {
        0
    }
}

impl TokenKeeper {
    /// A keeper of the credential `initial`.
    pub fn new(initial: String) -> (keeper: TokenKeeper)
        ensures
            keeper.current@ == initial@,
    {
        TokenKeeper { current: initial }
    }

    /// A snapshot of the credential in hand.
    pub fn get(&self) -> (snapshot: String)
        ensures
            snapshot@ == self.current@,
    {
        self.current.clone()
    }

    /// Takes in the outcome of one attempt to get a new credential. A new
    /// credential replaces the one in hand. A failure leaves the one in
    /// hand in place and is only reported: it never stops the loop.
    pub fn refreshed(&mut self, outcome: Result<String, Error>) -> (result: Refresh)
        ensures
            match attempt_of(outcome) {
                Ok(token) => final(self).current@ == token && result@ == RefreshView::Renewed,
                Err(error) => final(self).current@ == old(self).current@ && result@
                    == RefreshView::Kept(refresh_report(error)),
            },
    {
        match outcome {
            Ok(token) => {
                self.current = token;
                Refresh::Renewed
            },
            Err(error) => Refresh::Kept(
                String::from_str("Error while refreshing token: ").concat(
                    error.message().as_str(),
                ),
            ),
        }
    }
}

} // verus!
