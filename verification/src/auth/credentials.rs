//! The credential that a login yields, and the store that keeps it.
//!
//! The store files each credential in a vault under its identity, and under
//! one fixed key the identity that is logged in. A credential is found again
//! only through that pointer.

use crate::auth::record::{decode, encode, law_record_round_trip, record_text, record_value};
use crate::auth::vault::{Vault, VaultError};
use crate::error::{CliError, CliErrorView};
use vstd::prelude::*;

verus! {

/// An identity and the secret token issued to it.
#[derive(Debug, Clone, PartialEq, Eq)]
pub struct Credentials {
    pub user_id: String,
    pub api_token: String,
}

/// A [`Credentials`] with its texts as sequences of characters.
pub struct CredentialsView {
    pub user_id: Seq<char>,
    pub api_token: Seq<char>,
}

impl View for Credentials {
    type V = CredentialsView;

    open spec fn view(&self) -> CredentialsView {
        CredentialsView { user_id: self.user_id@, api_token: self.api_token@ }
    }
}

/// The key under which the store files the identity that is logged in.
pub const CURRENT_USER_KEY: &'static str = "current_user";

/// The key under which the store files the identity that is logged in.
pub open spec fn pointer_key() -> Seq<char> {
    "current_user"@
}

/// What the error [`CliError::SerializationError`] says of an entry that is
/// not the record of a credential.
pub open spec fn unreadable_record() -> Seq<char> {
    "stored credentials are not a valid record"@
}

/// A vault's entries after a credential was saved: its record is filed under
/// its identity.
pub open spec fn after_save(entries: Map<Seq<char>, Seq<char>>, c: CredentialsView) -> Map<
    Seq<char>,
    Seq<char>,
> {
    entries.insert(c.user_id, record_text(c))
}

/// A vault's entries after a credential was saved and made the current one:
/// first its record is filed, then the pointer is set to its identity.
pub open spec fn after_save_with_tracking(
    entries: Map<Seq<char>, Seq<char>>,
    c: CredentialsView,
) -> Map<Seq<char>, Seq<char>> {
    after_save(entries, c).insert(pointer_key(), c.user_id)
}

/// A vault's entries after a logout: the entry that the pointer names is
/// gone, and so is the pointer.
pub open spec fn after_delete(entries: Map<Seq<char>, Seq<char>>) -> Map<Seq<char>, Seq<char>> {
    if entries.contains_key(pointer_key()) {
        entries.remove(entries[pointer_key()]).remove(pointer_key())
    } else {
        entries
    }
}

/// Whether a vault with these entries has someone logged in: the pointer is
/// there.
pub open spec fn logged_in(entries: Map<Seq<char>, Seq<char>>) -> bool {
    entries.contains_key(pointer_key())
}

/// What loading finds in a vault with these entries: the credential whose
/// record is filed under the identity that the pointer names. Without a
/// pointer, or without an entry under that identity, nobody is logged in.
pub open spec fn load_result(entries: Map<Seq<char>, Seq<char>>) -> Result<
    CredentialsView,
    CliErrorView,
> {
    if !entries.contains_key(pointer_key()) {
        Err(CliErrorView::NotAuthenticated)
    } else if !entries.contains_key(entries[pointer_key()]) {
        Err(CliErrorView::NotAuthenticated)
    } else {
        match record_value(entries[entries[pointer_key()]]) {
            Some(c) => Ok(c),
            None => Err(CliErrorView::SerializationError(unreadable_record())),
        }
    }
}

/// The view of a credential, loaded or newly issued, or of the error in its
/// place.
pub open spec fn loaded_view(r: Result<Credentials, CliError>) -> Result<
    CredentialsView,
    CliErrorView,
> {
    match r {
        Ok(c) => Ok(c@),
        Err(e) => Err(e@),
    }
}

/// The view of an identity or the error in its place.
pub open spec fn identity_view(r: Result<String, CliError>) -> Result<Seq<char>, CliErrorView> {
    match r {
        Ok(id) => Ok(id@),
        Err(e) => Err(e@),
    }
}

/// The view of nothing or the error in its place.
pub open spec fn done_view(r: Result<(), CliError>) -> Result<(), CliErrorView> {
    match r {
        Ok(()) => Ok(()),
        Err(e) => Err(e@),
    }
}

/// What a read of the pointer says of who is logged in. A pointer that is
/// missing or cannot be read means that nobody is; a vault that cannot be
/// opened is reported as such.
pub open spec fn identity_of(read: Result<Option<String>, VaultError>) -> Result<
    Seq<char>,
    CliErrorView,
> {
    match read {
        Ok(Some(id)) => Ok(id@),
        Ok(None) => Err(CliErrorView::NotAuthenticated),
        Err(VaultError::Unavailable(why)) => Err(CliErrorView::KeyringError(why@)),
        Err(VaultError::Failed(_)) => Err(CliErrorView::NotAuthenticated),
    }
}

/// What a read of the entry under the current identity yields. An entry that
/// is missing, cannot be opened or cannot be read means that nobody is logged
/// in: there is no credential to use, whatever the reason. One that is not a
/// record is an error of its own.
pub open spec fn credentials_of(read: Result<Option<String>, VaultError>) -> Result<
    CredentialsView,
    CliErrorView,
> {
    match read {
        Ok(Some(text)) => match record_value(text@) {
            Some(c) => Ok(c),
            None => Err(CliErrorView::SerializationError(unreadable_record())),
        },
        _ => Err(CliErrorView::NotAuthenticated),
    }
}

/// What the outcome of a write or a removal means for the store: a failure of
/// either kind is a storage error with the vault's own words.
pub open spec fn storage_result<T>(outcome: Result<T, VaultError>) -> Result<(), CliErrorView> {
    match outcome {
        Ok(_) => Ok(()),
        Err(VaultError::Unavailable(why)) => Err(CliErrorView::KeyringError(why@)),
        Err(VaultError::Failed(why)) => Err(CliErrorView::KeyringError(why@)),
    }
}

/// Whether a read of the pointer shows that someone is logged in: only a
/// pointer that was read does; one that is missing, cannot be read or cannot
/// be opened does not.
pub open spec fn present(read: Result<Option<String>, VaultError>) -> bool {
    read matches Ok(Some(_))
}

/// Whether a read of the pointer shows that someone is logged in.
pub fn pointer_present(read: &Result<Option<String>, VaultError>) -> (r: bool)
    ensures
        r == present(*read),
{
    match read {
        Ok(Some(_)) => true,
        _ => false,
    }
}

/// The identity that a read of the pointer names, or the error that stands
/// for the read.
pub fn pointer_identity(read: Result<Option<String>, VaultError>) -> (r: Result<String, CliError>)
    ensures
        identity_view(r) == identity_of(read),
{
    match read {
        Ok(Some(id)) => Ok(id),
        Ok(None) => Err(CliError::NotAuthenticated),
        Err(VaultError::Unavailable(why)) => Err(CliError::KeyringError(why)),
        Err(VaultError::Failed(_)) => Err(CliError::NotAuthenticated),
    }
}

/// The credential that a read of the entry under the current identity holds,
/// or the error that stands for the read.
pub fn entry_credentials(read: Result<Option<String>, VaultError>) -> (r: Result<
    Credentials,
    CliError,
>)
    ensures
        loaded_view(r) == credentials_of(read),
{
    match read {
        Ok(Some(text)) => match decode(text.as_str()) {
            Some(c) => Ok(c),
            None => Err(
                CliError::SerializationError(
                    "stored credentials are not a valid record".to_string(),
                ),
            ),
        },
        _ => Err(CliError::NotAuthenticated),
    }
}

/// What the outcome of a write or a removal means for the store.
pub fn storage_outcome<T>(outcome: Result<T, VaultError>) -> (r: Result<(), CliError>)
    ensures
        done_view(r) == storage_result(outcome),
{
    match outcome {
        Ok(_) => Ok(()),
        Err(VaultError::Unavailable(why)) => Err(CliError::KeyringError(why)),
        Err(VaultError::Failed(why)) => Err(CliError::KeyringError(why)),
    }
}

/// The store of credentials: a vault in which at most one identity is the
/// current one.
#[derive(Debug, Clone, PartialEq, Eq)]
pub struct CredentialsStore {
    vault: Vault,
}

impl CredentialsStore {
    /// Whether the store's vault is self-contained, so that
    /// [`CredentialsStore::entries`] tells what it holds.
    pub closed spec fn self_contained(&self) -> bool {
        self.vault.self_contained()
    }

    /// What the store's vault holds, where it is self-contained.
    pub closed spec fn entries(&self) -> Map<Seq<char>, Seq<char>> {
        self.vault.entries()
    }

    /// A store in the keyring of the machine.
    pub fn new() -> (r: Self)
        ensures
            !r.self_contained(),
    {
        CredentialsStore { vault: Vault::Keyring }
    }

    /// A store in memory that holds nothing.
    pub fn in_memory() -> (r: Self)
        ensures
            r.self_contained(),
            r.entries() == Map::<Seq<char>, Seq<char>>::empty(),
    {
        CredentialsStore { vault: Vault::in_memory() }
    }

    /// A store in the given vault, with what the vault holds.
    pub fn with_vault(vault: Vault) -> (r: Self)
        ensures
            r.self_contained() == vault.self_contained(),
            r.entries() == vault.entries(),
    {
        CredentialsStore { vault }
    }

    /// Files the credential under its identity, in place of what was filed
    /// there. Who is logged in does not change.
    pub fn save(&mut self, credentials: &Credentials) -> (r: Result<(), CliError>)
        ensures
            final(self).self_contained() == old(self).self_contained(),
            old(self).self_contained() ==> r is Ok && final(self).entries() == after_save(
                old(self).entries(),
                credentials@,
            ),
            r matches Err(e) ==> e@ is KeyringError,
    {
        let record = encode(credentials);
        storage_outcome(self.vault.put(credentials.user_id.as_str(), record.as_str()))
    }

    /// The credential of the identity that is logged in.
    pub fn load(&self) -> (r: Result<Credentials, CliError>)
        ensures
            self.self_contained() ==> loaded_view(r) == load_result(self.entries()),
            r matches Err(e) ==> e@ is NotAuthenticated || e@ is KeyringError || e@
                == CliErrorView::SerializationError(unreadable_record()),
    {
        let id = match pointer_identity(self.vault.get(CURRENT_USER_KEY)) {
            Ok(id) => id,
            Err(e) => {
                return Err(e);
            },
        };
        entry_credentials(self.vault.get(id.as_str()))
    }

    /// Whether someone is logged in: the pointer is there and can be read.
    pub fn credentials_exist(&self) -> (r: bool)
        ensures
            self.self_contained() ==> r == logged_in(self.entries()),
    {
        pointer_present(&self.vault.get(CURRENT_USER_KEY))
    }

    /// Logs out: removes the entry of the identity that is logged in, as far
    /// as that can be done, and then the pointer. Only a failure to remove
    /// the pointer is an error.
    pub fn delete(&mut self) -> (r: Result<(), CliError>)
        ensures
            final(self).self_contained() == old(self).self_contained(),
            old(self).self_contained() ==> r is Ok && final(self).entries() == after_delete(
                old(self).entries(),
            ),
            r matches Err(e) ==> e@ is KeyringError,
    {
        match self.vault.get(CURRENT_USER_KEY) {
            Ok(Some(id)) => {
                let _ = self.vault.remove(id.as_str());
            },
            _ => {},
        }
        let r = storage_outcome(self.vault.remove(CURRENT_USER_KEY));
        proof {
            if old(self).self_contained() {
                assert(self.entries() =~= after_delete(old(self).entries()));
            }
        }
        r
    }

    /// Files the credential and makes its identity the one that is logged
    /// in. Where the record was filed and the pointer could not be set, the
    /// record stays and the error is returned.
    pub fn save_with_tracking(&mut self, credentials: &Credentials) -> (r: Result<(), CliError>)
        ensures
            final(self).self_contained() == old(self).self_contained(),
            old(self).self_contained() ==> r is Ok && final(self).entries()
                == after_save_with_tracking(old(self).entries(), credentials@),
            r matches Err(e) ==> e@ is KeyringError,
    {
        match self.save(credentials) {
            Ok(()) => {},
            Err(e) => {
                return Err(e);
            },
        }
        storage_outcome(self.vault.put(CURRENT_USER_KEY, credentials.user_id.as_str()))
    }
}

/// After a credential was saved and made the current one, someone is logged
/// in, whoever was before.
pub proof fn law_saved_identity_is_logged_in(entries: Map<Seq<char>, Seq<char>>, c: CredentialsView)
    ensures
        logged_in(after_save_with_tracking(entries, c)),
        after_save_with_tracking(entries, c)[pointer_key()] == c.user_id,
{
}

/// After a credential was saved and made the current one, loading yields that
/// credential. This holds of every credential but one whose identity is the
/// pointer's own key: its record and the pointer would be one entry.
pub proof fn law_load_after_save(entries: Map<Seq<char>, Seq<char>>, c: CredentialsView)
    requires
        c.user_id != pointer_key(),
    ensures
        load_result(after_save_with_tracking(entries, c)) == Ok::<CredentialsView, CliErrorView>(
            c,
        ),
{
    law_record_round_trip(c);
}

/// A credential whose identity is the pointer's own key cannot be loaded
/// again: the pointer takes the place of its record, and the pointer is no
/// record.
pub proof fn law_identity_named_like_pointer_is_lost(
    entries: Map<Seq<char>, Seq<char>>,
    c: CredentialsView,
)
    requires
        c.user_id == pointer_key(),
    ensures
        load_result(after_save_with_tracking(entries, c)) == Err::<CredentialsView, CliErrorView>(
            CliErrorView::SerializationError(unreadable_record()),
        ),
{
    reveal_strlit("current_user");
    assert forall|other: CredentialsView| record_text(other) != pointer_key() by {
        assert(record_text(other)[0] == '{');
        assert(pointer_key()[0] == 'c');
    }
}

/// After a logout nobody is logged in and loading fails with
/// [`CliError::NotAuthenticated`], whatever the vault held before; a logout
/// from a vault without a pointer changes nothing.
pub proof fn law_delete_logs_out(entries: Map<Seq<char>, Seq<char>>)
    ensures
        !logged_in(after_delete(entries)),
        load_result(after_delete(entries)) == Err::<CredentialsView, CliErrorView>(
            CliErrorView::NotAuthenticated,
        ),
        !logged_in(entries) ==> after_delete(entries) == entries,
        after_delete(after_delete(entries)) == after_delete(entries),
{
}

/// Of two credentials saved one after the other, the second is the one that
/// loading yields: the first identity is no longer the current one.
pub proof fn law_last_save_wins(
    entries: Map<Seq<char>, Seq<char>>,
    first: CredentialsView,
    second: CredentialsView,
)
    requires
        second.user_id != pointer_key(),
    ensures
        load_result(after_save_with_tracking(after_save_with_tracking(entries, first), second))
            == Ok::<CredentialsView, CliErrorView>(second),
        first.user_id != second.user_id ==> load_result(
            after_save_with_tracking(after_save_with_tracking(entries, first), second),
        ) != Ok::<CredentialsView, CliErrorView>(first),
{
    law_load_after_save(after_save_with_tracking(entries, first), second);
}

/// Saving a credential without making it the current one leaves who is
/// logged in as it was.
pub proof fn law_save_keeps_pointer(entries: Map<Seq<char>, Seq<char>>, c: CredentialsView)
    requires
        c.user_id != pointer_key(),
    ensures
        logged_in(after_save(entries, c)) == logged_in(entries),
        logged_in(entries) ==> after_save(entries, c)[pointer_key()] == entries[pointer_key()],
{
}

} // verus!
