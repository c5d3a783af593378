//! The one attempt that may be under way.
//!
//! The authority may call `begin` and `cancel` at any time and from several
//! places at once. The agent holds at most one attempt: a `begin` that finds
//! one under way is refused, a `cancel` reaches the attempt only with its
//! cookie, and every attempt is cleared when its conversation has returned.
//!
//! An [`AttemptState`] is meant to sit behind a lock of the program around
//! this library: `cancel_authentication` reads it, `begin_authentication` and
//! `end_authentication` write it, and none of them waits.

use crate::error::PolkitError;
use crate::identity::{candidate_uids, select_username_from_identities, Identity};
use crate::text::reads;
use tokio_util::sync::CancellationToken;
use vstd::prelude::*;
use vstd::string::*;

verus! {

/// `tokio_util::sync::CancellationToken`: a handle on a cancellation, which
/// may be signalled once and waited for.
#[verifier::external_type_specification]
#[verifier::external_body]
pub struct ExCancellationToken(tokio_util::sync::CancellationToken);

/// `CancellationToken::new`: a token of its own, which nothing has cancelled.
/// Nothing is claimed of it.
#[verifier::external_body]
fn new_token() -> (token: CancellationToken) {
    CancellationToken::new()
}

/// `CancellationToken::clone`: a second handle on the cancellation that
/// `token` is a handle on. The two are equal, as they are to the token's own
/// `==`: cancelling either cancels both.
#[verifier::external_body]
fn share_token(token: &CancellationToken) -> (shared: CancellationToken)
    ensures
        shared == *token,
{
    token.clone()
}

/// `CancellationToken::cancel`: cancels `token` and wakes whoever waits for
/// that. Nothing is claimed of it.
#[verifier::external_body]
fn signal(token: &CancellationToken) {
    token.cancel()
}

/// An attempt under way: the cookie of its request, and the handle by which
/// it is called off.
pub struct AuthenticationAttempt {
    cookie: String,
    token: CancellationToken,
}

/// The slot for the attempt under way.
pub struct AttemptState {
    attempt: Option<AuthenticationAttempt>,
}

/// What a `begin` that was let in hands to the conversation.
pub struct Admission {
    /// The name of the account that authenticates.
    pub account: String,
    /// The handle by which the attempt is called off.
    pub token: CancellationToken,
}

/// What a `cancel` came to.
#[derive(Clone, Copy, Debug, PartialEq, Eq, Structural)]
pub enum CancelOutcome {
    /// No attempt is under way.
    Idle,
    /// An attempt is under way, for another cookie.
    Mismatch,
    /// The attempt under way was called off.
    Signalled,
}

/// Whether a `begin` is let in: no attempt is under way, and an account was
/// found to authenticate.
pub open spec fn admitted(active: Option<Seq<char>>, account_found: bool) -> bool {
    active is None && account_found
}

/// The cookie under way after a `begin` for `cookie`.
pub open spec fn after_begin(
    active: Option<Seq<char>>,
    cookie: Seq<char>,
    account_found: bool,
) -> Option<Seq<char>> {
    if admitted(active, account_found) {
        Some(cookie)
    } else {
        active
    }
}

/// What a `cancel` for `cookie` comes to while `active` is under way.
pub open spec fn cancel_outcome(active: Option<Seq<char>>, cookie: Seq<char>) -> CancelOutcome {
    match active {
        None => CancelOutcome::Idle,
        Some(current) => if current == cookie {
            CancelOutcome::Signalled
        } else {
            CancelOutcome::Mismatch
        },
    }
}

impl AttemptState {
    /// The cookie of the attempt under way, if there is one.
    pub closed spec fn active_cookie(&self) -> Option<Seq<char>> {
        match self.attempt {
            Some(attempt) => Some(attempt.cookie@),
            None => None,
        }
    }

    /// The handle by which the attempt under way is called off, if there is
    /// one.
    pub closed spec fn active_token(&self) -> Option<CancellationToken> {
        match self.attempt {
            Some(attempt) => Some(attempt.token),
            None => None,
        }
    }

    /// A slot with no attempt under way.
    pub fn new() -> (state: AttemptState)
        ensures
            state.active_cookie() is None,
            state.active_token() is None,
    {
        AttemptState { attempt: None }
    }

    /// Whether an attempt is under way.
    pub fn is_active(&self) -> (active: bool)
        ensures
            active == self.active_cookie() is Some,
    {
        self.attempt.is_some()
    }

    /// Whether an attempt for `cookie` is under way.
    pub fn is_active_for(&self, cookie: &str) -> (active: bool)
        ensures
            active == (self.active_cookie() == Some(cookie@)),
    {
        match &self.attempt {
            Some(attempt) => reads(&attempt.cookie, cookie),
            None => false,
        }
    }

    /// Puts an attempt for `cookie` into the slot, to be called off by
    /// `token`, and gives back the account's name. Refused with `Failed`
    /// where an attempt is under way or `account` is `None`; the slot then
    /// stays as it was.
    pub fn install(
        &mut self,
        cookie: &str,
        account: Option<String>,
        token: CancellationToken,
    ) -> (r: Result<String, PolkitError>)
        ensures
            r is Ok <==> admitted(old(self).active_cookie(), account is Some),
            final(self).active_cookie() == after_begin(
                old(self).active_cookie(),
                cookie@,
                account is Some,
            ),
            match r {
                Ok(name) => account == Some(name) && final(self).active_token() == Some(token),
                Err(e) => e == PolkitError::Failed && *final(self) == *old(self),
            },
    {
        if self.attempt.is_some() {
            return Err(PolkitError::Failed);
        }
        match account {
            None => Err(PolkitError::Failed),
            Some(name) => {
                self.attempt = Some(AuthenticationAttempt { cookie: cookie.to_owned(), token });
                Ok(name)
            },
        }
    }

    /// Lets an attempt for `cookie` in, if none is under way and an account
    /// can be found among `identities` to authenticate.
    ///
    /// On success the attempt is under way, and the conversation gets the
    /// account's name and a handle on the very cancellation that
    /// `cancel_authentication` signals. Refused
    /// with `Failed` where an attempt is under way, where `identities` offer
    /// no account id, or where the system's account directory has no name for
    /// the one selected; the slot then stays as it was.
    pub fn begin_authentication(&mut self, cookie: &str, identities: &[Identity]) -> (r: Result<
        Admission,
        PolkitError,
    >)
        ensures
            old(self).active_cookie() is Some ==> r is Err,
            candidate_uids(identities@).len() == 0 ==> r is Err,
            r is Ok <==> final(self).active_cookie() != old(self).active_cookie(),
            match r {
                Ok(admission) => {
                    &&& old(self).active_cookie() is None
                    &&& final(self).active_cookie() == Some(cookie@)
                    &&& final(self).active_token() == Some(admission.token)
                },
                Err(e) => e == PolkitError::Failed && *final(self) == *old(self),
            },
    {
        if self.is_active() {
            return Err(PolkitError::Failed);
        }
        let account = select_username_from_identities(identities);
        let token = new_token();
        let held = share_token(&token);
        match self.install(cookie, account, held) {
            Ok(account) => Ok(Admission { account, token }),
            Err(e) => Err(e),
        }
    }

    /// Calls the attempt for `cookie` off, if it is the one under way: its
    /// cancellation is signalled, and the call returns without waiting for the
    /// conversation to end. With no attempt under way, or one for another
    /// cookie, nothing is signalled. It is never an error.
    pub fn cancel_authentication(&self, cookie: &str) -> (r: Result<CancelOutcome, PolkitError>)
        ensures
            r == Ok::<CancelOutcome, PolkitError>(cancel_outcome(self.active_cookie(), cookie@)),
    {
        match &self.attempt {
            None => Ok(CancelOutcome::Idle),
            Some(attempt) => {
                if reads(&attempt.cookie, cookie) {
                    signal(&attempt.token);
                    Ok(CancelOutcome::Signalled)
                } else {
                    Ok(CancelOutcome::Mismatch)
                }
            },
        }
    }

    /// Clears the slot and hands `outcome` on: the last step of every attempt
    /// that was let in, whatever its conversation returned.
    pub fn end_authentication(&mut self, outcome: Result<(), PolkitError>) -> (r: Result<
        (),
        PolkitError,
    >)
        ensures
            r == outcome,
            final(self).active_cookie() is None,
            final(self).active_token() is None,
    {
        self.attempt = None;
        outcome
    }
}

/// While an attempt is under way, a `begin` is refused and the attempt stays
/// as it is: the slot never holds another cookie than that of the `begin`
/// that was let in.
pub proof fn law_one_attempt_at_a_time(
    active: Option<Seq<char>>,
    first: Seq<char>,
    second: Seq<char>,
    second_found: bool,
)
    requires
        admitted(active, true),
    ensures
        !admitted(after_begin(active, first, true), second_found),
        after_begin(after_begin(active, first, true), second, second_found) == Some(first),
{
}

/// The cookie under way after a row of `begin` calls, each given by its
/// cookie and by whether an account was found for it.
pub open spec fn after_begins(active: Option<Seq<char>>, begins: Seq<(Seq<char>, bool)>) -> Option<
    Seq<char>,
>
    decreases begins.len(),
{
    if begins.len() == 0 {
        active
    } else {
        after_begins(
            after_begin(active, begins.first().0, begins.first().1),
            begins.drop_first(),
        )
    }
}

/// An attempt under way outlasts every `begin`: however many follow, the slot
/// holds what it held.
pub proof fn law_attempt_outlasts_begins(cookie: Seq<char>, begins: Seq<(Seq<char>, bool)>)
    ensures
        after_begins(Some(cookie), begins) == Some(cookie),
    decreases begins.len(),
{
    if begins.len() > 0 {
        law_attempt_outlasts_begins(cookie, begins.drop_first());
    }
}

/// Of a row of `begin` calls that meets an idle slot, the first for which an
/// account is found gets the slot, and keeps it.
pub proof fn law_first_begin_gets_the_slot(begins: Seq<(Seq<char>, bool)>, first: int)
    requires
        0 <= first < begins.len(),
        begins[first].1,
        forall|i: int| 0 <= i < first ==> !(#[trigger] begins[i]).1,
    ensures
        after_begins(None, begins) == Some(begins[first].0),
    decreases begins.len(),
{
    let rest = begins.drop_first();
    if first == 0 {
        law_attempt_outlasts_begins(begins[0].0, rest);
    } else {
        assert(!begins[0].1);
        assert forall|i: int| 0 <= i < first - 1 implies !(#[trigger] rest[i]).1 by {
            assert(rest[i] == begins[i + 1]);
        }
        assert(rest[first - 1] == begins[first]);
        law_first_begin_gets_the_slot(rest, first - 1);
    }
}

/// A `cancel` calls an attempt off if and only if that attempt is under way
/// for the same cookie.
pub proof fn law_cancel_needs_the_cookie(active: Option<Seq<char>>, cookie: Seq<char>)
    ensures
        cancel_outcome(active, cookie) is Signalled <==> active == Some(cookie),
{
}

} // verus!
