//! The commands `login`, `logout` and `status`: what each does to the store of
//! credentials, and what it has to tell the user.

use crate::auth::credentials::{
    after_delete, after_save_with_tracking, load_result, logged_in, Credentials, CredentialsStore,
};
use crate::error::{CliError, CliErrorView};
use crate::text::{chars_of, push_range, string_of};
use vstd::prelude::*;

verus! {

/// How many characters of a token are shown at each of its ends.
pub const TOKEN_PREVIEW_EDGE: usize = 8;

/// What is shown of a token: its first and last eight characters with three
/// dots between them, where that leaves some of it out, and the dots alone
/// where it would not.
pub open spec fn token_preview(token: Seq<char>) -> Seq<char> {
    if token.len() > 2 * TOKEN_PREVIEW_EDGE {
        token.take(TOKEN_PREVIEW_EDGE as int) + seq!['.', '.', '.'] + token.skip(
            token.len() - TOKEN_PREVIEW_EDGE,
        )
    } else {
        seq!['.', '.', '.']
    }
}

/// What is shown of a token in place of the token.
pub fn preview_of(token: &str) -> (r: String)
    ensures
        r@ == token_preview(token@),
{
    let t = chars_of(token);
    let mut out: Vec<char> = Vec::new();
    if t.len() > 2 * TOKEN_PREVIEW_EDGE {
        push_range(&t, 0, TOKEN_PREVIEW_EDGE, &mut out);
        out.push('.');
        out.push('.');
        out.push('.');
        push_range(&t, t.len() - TOKEN_PREVIEW_EDGE, t.len(), &mut out);
    } else {
        out.push('.');
        out.push('.');
        out.push('.');
    }
    assert(out@ =~= token_preview(token@));
    string_of(&out)
}

/// A preview never shows a token in full: it is three characters long, or
/// three longer than the sixteen characters it shows of a longer token.
pub proof fn law_preview_leaves_some_out(token: Seq<char>)
    ensures
        token_preview(token).len() == 3 || (token_preview(token).len() == 2 * TOKEN_PREVIEW_EDGE
            + 3 && token.len() > 2 * TOKEN_PREVIEW_EDGE),
{
}

/// Whether a login may start.
#[derive(Debug, Clone, Copy, PartialEq, Eq, Structural)]
pub enum LoginGate {
    /// Someone is logged in already: log out first.
    AlreadyAuthenticated,
    /// Nobody is logged in: go on with the device flow.
    Proceed,
}

/// What a logout did.
#[derive(Debug, Clone, Copy, PartialEq, Eq, Structural)]
pub enum LogoutOutcome {
    /// Nobody was logged in; nothing was done.
    NotLoggedIn,
    /// The credential that was current is removed.
    LoggedOut,
}

/// Who is logged in.
#[derive(Debug, Clone, PartialEq, Eq)]
pub enum AuthStatus {
    /// Nobody.
    NotAuthenticated,
    /// This identity, with a preview of its token.
    Authenticated { user_id: String, token: String },
}

/// An [`AuthStatus`] with its texts as sequences of characters.
pub enum AuthStatusView {
    NotAuthenticated,
    Authenticated { user_id: Seq<char>, token: Seq<char> },
}

impl View for AuthStatus {
    type V = AuthStatusView;

    open spec fn view(&self) -> AuthStatusView {
        match self {
            AuthStatus::NotAuthenticated => AuthStatusView::NotAuthenticated,
            AuthStatus::Authenticated { user_id, token } => AuthStatusView::Authenticated {
                user_id: user_id@,
                token: token@,
            },
        }
    }
}

/// What the command `status` reports of a vault with these entries.
pub open spec fn status_of(entries: Map<Seq<char>, Seq<char>>) -> Result<
    AuthStatusView,
    CliErrorView,
> {
    if !logged_in(entries) {
        Ok(AuthStatusView::NotAuthenticated)
    } else {
        match load_result(entries) {
            Ok(c) => Ok(
                AuthStatusView::Authenticated {
                    user_id: c.user_id,
                    token: token_preview(c.api_token),
                },
            ),
            Err(e) => Err(e),
        }
    }
}

/// The view of a status or the error in its place.
pub open spec fn status_view(r: Result<AuthStatus, CliError>) -> Result<
    AuthStatusView,
    CliErrorView,
> {
    match r {
        Ok(s) => Ok(s@),
        Err(e) => Err(e@),
    }
}

/// Whether the command `login` may start the device flow: only while nobody
/// is logged in.
pub fn begin_login(store: &CredentialsStore) -> (r: LoginGate)
    ensures
        store.self_contained() ==> r == if logged_in(store.entries()) {
            LoginGate::AlreadyAuthenticated
        } else {
            LoginGate::Proceed
        },
{
    if store.credentials_exist() {
        LoginGate::AlreadyAuthenticated
    } else {
        LoginGate::Proceed
    }
}

/// Ends the command `login`: a credential that the device flow yielded is
/// saved and made the current one; after a failed flow the store is left as
/// it was and the failure is handed on.
pub fn complete_login(store: &mut CredentialsStore, flow: Result<Credentials, CliError>) -> (r:
    Result<Credentials, CliError>)
    ensures
        final(store).self_contained() == old(store).self_contained(),
        match flow {
            Ok(c) => {
                &&& old(store).self_contained() ==> r == Ok::<Credentials, CliError>(c)
                    && final(store).entries() == after_save_with_tracking(
                    old(store).entries(),
                    c@,
                )
                &&& r matches Ok(saved) ==> saved == c
                &&& r matches Err(e) ==> e@ is KeyringError
            },
            Err(e) => r == Err::<Credentials, CliError>(e) && *final(store) == *old(store),
        },
{
    match flow {
        Ok(c) => match store.save_with_tracking(&c) {
            Ok(()) => Ok(c),
            Err(e) => Err(e),
        },
        Err(e) => Err(e),
    }
}

/// The command `logout`: removes the current credential where there is one.
pub fn logout(store: &mut CredentialsStore) -> (r: Result<LogoutOutcome, CliError>)
    ensures
        final(store).self_contained() == old(store).self_contained(),
        old(store).self_contained() ==> if logged_in(old(store).entries()) {
            r == Ok::<LogoutOutcome, CliError>(LogoutOutcome::LoggedOut) && final(store).entries()
                == after_delete(old(store).entries())
        } else {
            r == Ok::<LogoutOutcome, CliError>(LogoutOutcome::NotLoggedIn)
                && final(store).entries() == old(store).entries()
        },
        r matches Err(e) ==> e@ is KeyringError,
{
    if !store.credentials_exist() {
        return Ok(LogoutOutcome::NotLoggedIn);
    }
    match store.delete() {
        Ok(()) => Ok(LogoutOutcome::LoggedOut),
        Err(e) => Err(e),
    }
}

/// The command `status`: who is logged in, with a preview in place of the
/// token.
pub fn status(store: &CredentialsStore) -> (r: Result<AuthStatus, CliError>)
    ensures
        store.self_contained() ==> status_view(r) == status_of(store.entries()),
{
    if !store.credentials_exist() {
        return Ok(AuthStatus::NotAuthenticated);
    }
    match store.load() {
        Ok(c) => {
            let token = preview_of(c.api_token.as_str());
            Ok(AuthStatus::Authenticated { user_id: c.user_id, token })
        },
        Err(e) => Err(e),
    }
}

} // verus!
