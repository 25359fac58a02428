//! Where secrets are kept: texts filed under keys.
//!
//! A vault is either held in memory by the value itself, or it is the
//! keyring of the machine. The first is self-contained: what it holds is known
//! and every operation succeeds. Of the second nothing is known between two
//! calls, since it may refuse an operation and other programs write to it.

use crate::text::{option_text, text_eq};
use vstd::prelude::*;

verus! {

/// The name under which the tool files its entries in the keyring.
pub const SERVICE_NAME: &'static str = "solana-dev-tools";

/// `keyring::Entry`: one entry of the keyring. Nothing of it is visible
/// here.
#[verifier::external_type_specification]
#[verifier::external_body]
pub struct ExKeyringEntry(keyring::Entry);

/// `keyring::Error`: why the keyring did not do what it was asked. Nothing
/// of it is visible here but what [`is_no_entry`] and [`error_text`] tell.
#[verifier::external_type_specification]
#[verifier::external_body]
pub struct ExKeyringError(keyring::Error);

/// `keyring::Entry::new` builds the entry of a service and a user in the
/// keyring of the machine, or reports why it cannot. Nothing is promised of
/// which of the two happens. The call panics only where the lock on the
/// keyring's default builder is poisoned, which no argument brings about.
pub assume_specification[ keyring::Entry::new ](service: &str, user: &str) -> (r: Result<
    keyring::Entry,
    keyring::Error,
>)
;

/// `keyring::Entry::get_password` reads the password kept for an entry, or
/// reports why it cannot. Nothing is promised of what it finds.
pub assume_specification[ keyring::Entry::get_password ](entry: &keyring::Entry) -> (r: Result<
    String,
    keyring::Error,
>)
;

/// `keyring::Entry::set_password` keeps a password for an entry, or reports
/// why it cannot. Nothing is promised of which of the two happens.
pub assume_specification[ keyring::Entry::set_password ](
    entry: &keyring::Entry,
    password: &str,
) -> (r: Result<(), keyring::Error>)
;

/// `keyring::Entry::delete_credential` removes what is kept for an entry, or
/// reports why it cannot. Nothing is promised of which of the two happens.
pub assume_specification[ keyring::Entry::delete_credential ](entry: &keyring::Entry) -> (r:
    Result<(), keyring::Error>)
;

/// Whether a `keyring::Error` is its variant `NoEntry`: nothing is kept for
/// the entry.
#[verifier::external_body]
fn is_no_entry(e: &keyring::Error) -> (r: bool) {
    match e {
        keyring::Error::NoEntry => true,
        _ => false,
    }
}

/// The text that a `keyring::Error` displays.
#[verifier::external_body]
fn error_text(e: &keyring::Error) -> (r: String) {
    e.to_string()
}

/// Why a vault did not do what it was asked.
#[derive(Debug, Clone, PartialEq, Eq)]
pub enum VaultError {
    /// The entry could not be opened; the text says why.
    Unavailable(String),
    /// The entry was opened, and the operation on it failed; the text says
    /// why.
    Failed(String),
}

/// A [`VaultError`] with its text as a sequence of characters.
pub enum VaultErrorView {
    Unavailable(Seq<char>),
    Failed(Seq<char>),
}

impl View for VaultError {
    type V = VaultErrorView;

    open spec fn view(&self) -> VaultErrorView {
        match self {
            VaultError::Unavailable(why) => VaultErrorView::Unavailable(why@),
            VaultError::Failed(why) => VaultErrorView::Failed(why@),
        }
    }
}

/// What the keyring says when it does not do what it was asked, as far as
/// the vault reads it.
#[derive(Debug, Clone, PartialEq, Eq)]
pub struct KeyringFault {
    /// Whether the fault is that nothing is kept for the entry.
    pub no_entry: bool,
    /// The fault in the keyring's words.
    pub text: String,
}

fn fault_of(e: &keyring::Error) -> (r: KeyringFault) {
    KeyringFault { no_entry: is_no_entry(e), text: error_text(e) }
}

/// What a read of an entry of the keyring means: a password that was read is
/// the value held; an entry for which nothing is kept holds nothing; any
/// other fault is a failure.
pub open spec fn read_meaning(read: Result<String, KeyringFault>) -> Result<
    Option<Seq<char>>,
    VaultErrorView,
> {
    match read {
        Ok(value) => Ok(Some(value@)),
        Err(fault) => if fault.no_entry {
            Ok(None)
        } else {
            Err(VaultErrorView::Failed(fault.text@))
        },
    }
}

/// What the outcome of a write to an entry of the keyring means: any fault is
/// a failure.
pub open spec fn write_meaning(written: Result<(), KeyringFault>) -> Result<(), VaultErrorView> {
    match written {
        Ok(()) => Ok(()),
        Err(fault) => Err(VaultErrorView::Failed(fault.text@)),
    }
}

/// What the outcome of a removal of an entry of the keyring means: an entry
/// for which nothing was kept is no failure, but nothing was taken out; any
/// other fault is a failure.
pub open spec fn removal_meaning(removed: Result<(), KeyringFault>) -> Result<
    bool,
    VaultErrorView,
> {
    match removed {
        Ok(()) => Ok(true),
        Err(fault) => if fault.no_entry {
            Ok(false)
        } else {
            Err(VaultErrorView::Failed(fault.text@))
        },
    }
}

/// The view of a value read from a vault, or of the error in its place.
pub open spec fn read_view(r: Result<Option<String>, VaultError>) -> Result<
    Option<Seq<char>>,
    VaultErrorView,
> {
    match r {
        Ok(found) => Ok(option_text(found)),
        Err(e) => Err(e@),
    }
}

/// A value as it is, or the view of the error in its place.
pub open spec fn outcome_view<T>(r: Result<T, VaultError>) -> Result<T, VaultErrorView> {
    match r {
        Ok(value) => Ok(value),
        Err(e) => Err(e@),
    }
}

/// What a read of an entry of the keyring means for the vault.
pub fn read_outcome(read: Result<String, KeyringFault>) -> (r: Result<Option<String>, VaultError>)
    ensures
        read_view(r) == read_meaning(read),
{
    match read {
        Ok(value) => Ok(Some(value)),
        Err(fault) => if fault.no_entry {
            Ok(None)
        } else {
            Err(VaultError::Failed(fault.text))
        },
    }
}

/// What the outcome of a write to an entry of the keyring means for the
/// vault.
pub fn write_outcome(written: Result<(), KeyringFault>) -> (r: Result<(), VaultError>)
    ensures
        outcome_view(r) == write_meaning(written),
{
    match written {
        Ok(()) => Ok(()),
        Err(fault) => Err(VaultError::Failed(fault.text)),
    }
}

/// What the outcome of a removal of an entry of the keyring means for the
/// vault.
pub fn removal_outcome(removed: Result<(), KeyringFault>) -> (r: Result<bool, VaultError>)
    ensures
        outcome_view(r) == removal_meaning(removed),
{
    match removed {
        Ok(()) => Ok(true),
        Err(fault) => if fault.no_entry {
            Ok(false)
        } else {
            Err(VaultError::Failed(fault.text))
        },
    }
}

/// The error for an entry of the keyring that could not be opened.
pub fn unopened(fault: KeyringFault) -> (r: VaultError)
    ensures
        r@ == VaultErrorView::Unavailable(fault.text@),
{
    VaultError::Unavailable(fault.text)
}

/// One entry of a vault in memory.
#[derive(Debug, Clone, PartialEq, Eq)]
pub struct Slot {
    key: String,
    value: String,
}

/// A vault held in memory: a list of entries of which, for each key, the last
/// one counts.
#[derive(Debug, Clone, PartialEq, Eq)]
pub struct MemoryVault {
    slots: Vec<Slot>,
}

/// What a list of entries holds under `key`: the value of the last entry with
/// that key.
spec fn lookup(slots: Seq<Slot>, key: Seq<char>) -> Option<Seq<char>>
    decreases slots.len(),
{
    if slots.len() == 0 {
        None
    } else if slots.last().key@ == key {
        Some(slots.last().value@)
    } else {
        lookup(slots.drop_last(), key)
    }
}

/// What a list of entries holds: under each key the value of the last
/// entry with that key.
spec fn held(slots: Seq<Slot>) -> Map<Seq<char>, Seq<char>> {
    Map::new(
        |k: Seq<char>| lookup(slots, k) is Some,
        |k: Seq<char>| lookup(slots, k).unwrap(),
    )
}

proof fn lemma_held_push(slots: Seq<Slot>, slot: Slot)
    ensures
        held(slots.push(slot)) == held(slots).insert(slot.key@, slot.value@),
{
    let longer = slots.push(slot);
    assert(longer.drop_last() =~= slots);
    assert(longer.last() == slot);
    assert forall|k: Seq<char>| #[trigger] lookup(longer, k) == if slot.key@ == k {
        Some(slot.value@)
    } else {
        lookup(slots, k)
    } by {}
    assert(held(longer) =~= held(slots).insert(slot.key@, slot.value@));
}

impl MemoryVault {
    /// What the vault holds: a value under each of finitely many keys.
    pub closed spec fn entries(&self) -> Map<Seq<char>, Seq<char>> {
        held(self.slots@)
    }

    /// A vault that holds nothing.
    pub fn new() -> (r: Self)
        ensures
            r.entries() == Map::<Seq<char>, Seq<char>>::empty(),
    {
        let r = MemoryVault { slots: Vec::new() };
        assert(r.entries() =~= Map::<Seq<char>, Seq<char>>::empty());
        r
    }

    /// The value held under `key`, if there is one.
    pub fn get(&self, key: &str) -> (r: Option<String>)
        ensures
            option_text(r) == self.entries().get(key@),
    {
        let mut i: usize = self.slots.len();
        assert(self.slots@.take(i as int) =~= self.slots@);
        while i > 0
            invariant
                i <= self.slots.len(),
                lookup(self.slots@.take(i as int), key@) == lookup(self.slots@, key@),
            decreases i,
        {
            i = i - 1;
            let slot = &self.slots[i];
            proof {
                let upto = self.slots@.take(i + 1);
                assert(upto.last() == self.slots@[i as int]);
                assert(upto.drop_last() =~= self.slots@.take(i as int));
            }
            if text_eq(slot.key.as_str(), key) {
                return Some(slot.value.clone());
            }
        }
        None
    }

    /// Takes out what is held under `key`, and says whether anything was.
    pub fn remove(&mut self, key: &str) -> (r: bool)
        ensures
            r == old(self).entries().contains_key(key@),
            final(self).entries() == old(self).entries().remove(key@),
    {
        let mut kept: Vec<Slot> = Vec::new();
        let mut found = false;
        let mut i: usize = 0;
        assert(held(kept@) =~= held(self.slots@.take(0)).remove(key@));
        while i < self.slots.len()
            invariant
                i <= self.slots.len(),
                *self == *old(self),
                found == held(self.slots@.take(i as int)).contains_key(key@),
                held(kept@) == held(self.slots@.take(i as int)).remove(key@),
            decreases self.slots.len() - i,
        {
            let slot = &self.slots[i];
            let ghost seen = self.slots@.take(i as int);
            proof {
                assert(self.slots@.take(i + 1) =~= seen.push(*slot));
                lemma_held_push(seen, *slot);
            }
            if text_eq(slot.key.as_str(), key) {
                found = true;
                assert(held(seen.push(*slot)).remove(key@) =~= held(seen).remove(key@));
            } else {
                let copy = Slot { key: slot.key.clone(), value: slot.value.clone() };
                proof {
                    lemma_held_push(kept@, copy);
                    assert(held(kept@.push(copy)) =~= held(seen.push(*slot)).remove(key@));
                }
                kept.push(copy);
            }
            i = i + 1;
        }
        assert(self.slots@.take(i as int) =~= self.slots@);
        self.slots = kept;
        found
    }

    /// Files `value` under `key`, in place of what was held there.
    pub fn put(&mut self, key: &str, value: &str)
        ensures
            final(self).entries() == old(self).entries().insert(key@, value@),
    {
        self.remove(key);
        let slot = Slot { key: key.to_string(), value: value.to_string() };
        proof {
            lemma_held_push(self.slots@, slot);
            assert(old(self).entries().remove(key@).insert(key@, value@) =~= old(
                self,
            ).entries().insert(key@, value@));
        }
        self.slots.push(slot);
    }
}

/// A place where secrets are kept.
#[derive(Debug, Clone, PartialEq, Eq)]
pub enum Vault {
    /// Entries held by this value, in memory.
    Memory(MemoryVault),
    /// The keyring of the machine, under [`SERVICE_NAME`].
    Keyring,
}

impl Vault {
    /// Whether the vault's entries are held by the value itself, so that
    /// [`Vault::entries`] tells what it holds and every operation succeeds.
    pub open spec fn self_contained(&self) -> bool {
        self is Memory
    }

    /// What a self-contained vault holds. Of any other vault this says
    /// nothing.
    pub closed spec fn entries(&self) -> Map<Seq<char>, Seq<char>> {
        match self {
            Vault::Memory(m) => m.entries(),
            Vault::Keyring => Map::empty(),
        }
    }

    /// A vault in memory that holds nothing.
    pub fn in_memory() -> (r: Self)
        ensures
            r.self_contained(),
            r.entries() == Map::<Seq<char>, Seq<char>>::empty(),
    {
        Vault::Memory(MemoryVault::new())
    }

    /// The value held under `key`, if there is one.
    pub fn get(&self, key: &str) -> (r: Result<Option<String>, VaultError>)
        ensures
            self.self_contained() ==> (r matches Ok(found) && option_text(found)
                == self.entries().get(key@)),
    {
        match self {
            Vault::Memory(m) => Ok(m.get(key)),
            Vault::Keyring => match keyring::Entry::new(SERVICE_NAME, key) {
                Err(e) => Err(unopened(fault_of(&e))),
                Ok(entry) => match entry.get_password() {
                    Ok(value) => read_outcome(Ok(value)),
                    Err(e) => read_outcome(Err(fault_of(&e))),
                },
            },
        }
    }

    /// Files `value` under `key`, in place of what was held there.
    pub fn put(&mut self, key: &str, value: &str) -> (r: Result<(), VaultError>)
        ensures
            final(self).self_contained() == old(self).self_contained(),
            old(self).self_contained() ==> r is Ok && final(self).entries() == old(
                self,
            ).entries().insert(key@, value@),
    {
        match self {
            Vault::Memory(m) => {
                m.put(key, value);
                Ok(())
            },
            Vault::Keyring => match keyring::Entry::new(SERVICE_NAME, key) {
                Err(e) => Err(unopened(fault_of(&e))),
                Ok(entry) => match entry.set_password(value) {
                    Ok(()) => write_outcome(Ok(())),
                    Err(e) => write_outcome(Err(fault_of(&e))),
                },
            },
        }
    }

    /// Takes out what is held under `key`, and says whether anything was.
    /// Taking out what is not there is no failure.
    pub fn remove(&mut self, key: &str) -> (r: Result<bool, VaultError>)
        ensures
            final(self).self_contained() == old(self).self_contained(),
            old(self).self_contained() ==> r == Ok::<bool, VaultError>(
                old(self).entries().contains_key(key@),
            ) && final(self).entries() == old(self).entries().remove(key@),
    {
        match self {
            Vault::Memory(m) => Ok(m.remove(key)),
            Vault::Keyring => match keyring::Entry::new(SERVICE_NAME, key) {
                Err(e) => Err(unopened(fault_of(&e))),
                Ok(entry) => match entry.delete_credential() {
                    Ok(()) => removal_outcome(Ok(())),
                    Err(e) => removal_outcome(Err(fault_of(&e))),
                },
            },
        }
    }
}

} // verus!
