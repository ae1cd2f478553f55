use vstd::prelude::*;

use crate::error::ErrorKind;
use crate::identity::{
    copy_list, has_id, first_with_id, insert_from_email, list_after_create, list_after_update,
    modify_from_email, remove_from_email, without_id, FromEmail,
};

verus! {

/// The user's own details.
#[derive(Debug, Clone, PartialEq, Eq)]
pub struct Profile {
    pub first_name: String,
    pub last_name: String,
    pub username: String,
    pub domain: String,
}

impl Profile {
    /// A field-by-field copy.
    pub fn duplicate(&self) -> (r: Profile)
        ensures
            r == *self,
    {
        Profile {
            first_name: self.first_name.clone(),
            last_name: self.last_name.clone(),
            username: self.username.clone(),
            domain: self.domain.clone(),
        }
    }
}

/// One record of the settings document: missing, holding a value of the
/// expected shape, or holding something else.
#[derive(Debug, Clone, PartialEq, Eq)]
pub enum Slot<T> {
    Absent,
    Present(T),
    Malformed,
}

/// The settings document: the API key, the sender identities (in order of
/// creation) and the profile.
#[derive(Debug, Clone, PartialEq, Eq)]
pub struct Settings {
    pub api_key: Slot<String>,
    pub from_emails: Slot<Vec<FromEmail>>,
    pub profile: Slot<Profile>,
}

/// Relies on uuid::Uuid::new_v4 for a fresh random identifier, handed back in
/// its text form.
#[verifier::external_body]
fn fresh_id() -> (r: String) {
    uuid::Uuid::new_v4().to_string()
}

impl Settings {
    /// An API key record exists.
    pub open spec fn key_present(self) -> bool {
        !(self.api_key is Absent)
    }

    /// What reading the API key gives.
    pub open spec fn api_key_result(self) -> Result<Option<String>, ErrorKind> {
        match self.api_key {
            Slot::Absent => Ok(None),
            Slot::Present(k) => Ok(Some(k)),
            Slot::Malformed => Err(ErrorKind::TypeMismatch),
        }
    }

    /// What reading the sender identities gives; a missing record is an empty list.
    pub open spec fn identities_result(self) -> Result<Seq<FromEmail>, ErrorKind> {
        match self.from_emails {
            Slot::Absent => Ok(Seq::empty()),
            Slot::Present(v) => Ok(v@),
            Slot::Malformed => Err(ErrorKind::ParseError),
        }
    }

    /// What reading the profile gives.
    pub open spec fn profile_result(self) -> Result<Option<Profile>, ErrorKind> {
        match self.profile {
            Slot::Absent => Ok(None),
            Slot::Present(p) => Ok(Some(p)),
            Slot::Malformed => Err(ErrorKind::ParseError),
        }
    }

    /// The document with the API key record removed.
    pub open spec fn without_api_key(self) -> Settings {
        Settings { api_key: Slot::Absent, from_emails: self.from_emails, profile: self.profile }
    }

    /// The document with the API key set to `k`.
    pub open spec fn with_api_key(self, k: String) -> Settings {
        Settings { api_key: Slot::Present(k), from_emails: self.from_emails, profile: self.profile }
    }

    /// The document with the profile overwritten by `p`.
    pub open spec fn with_profile(self, p: Profile) -> Settings {
        Settings { api_key: self.api_key, from_emails: self.from_emails, profile: Slot::Present(p) }
    }

    /// `after` is this document with the sender identities replaced by `s`.
    pub open spec fn identities_replaced(self, after: Settings, s: Seq<FromEmail>) -> bool {
        &&& after.api_key == self.api_key
        &&& after.profile == self.profile
        &&& after.from_emails is Present
        &&& after.from_emails->Present_0@ == s
    }

    /// An empty document.
    pub fn new() -> (r: Settings)
        ensures
            r.api_key is Absent,
            r.from_emails is Absent,
            r.profile is Absent,
    {
        Settings { api_key: Slot::Absent, from_emails: Slot::Absent, profile: Slot::Absent }
    }

    /// Whether an API key record exists.
    pub fn has_api_key(&self) -> (r: bool)
        ensures
            r == self.key_present(),
    {
        !matches!(self.api_key, Slot::Absent)
    }

    /// Overwrites the API key.
    pub fn save_api_key(&mut self, api_key: String)
        ensures
            *final(self) == old(self).with_api_key(api_key),
    {
        self.api_key = Slot::Present(api_key);
    }

    /// The API key, if one is stored; `TypeMismatch` when the record is not a string.
    pub fn get_api_key(&self) -> (r: Result<Option<String>, ErrorKind>)
        ensures
            r == self.api_key_result(),
    {
        match &self.api_key {
            Slot::Absent => Ok(None),
            Slot::Present(k) => Ok(Some(k.clone())),
            Slot::Malformed => Err(ErrorKind::TypeMismatch),
        }
    }

    /// Removes the API key record; a missing record is no error. Returns
    /// whether a record was there.
    pub fn delete_api_key(&mut self) -> (r: bool)
        ensures
            r == old(self).key_present(),
            *final(self) == old(self).without_api_key(),
    {
        let was_there = !matches!(self.api_key, Slot::Absent);
        self.api_key = Slot::Absent;
        was_there
    }

    /// The sender identities in order; empty when none were ever stored,
    /// `ParseError` when the record has another shape.
    pub fn list_from_emails(&self) -> (r: Result<Vec<FromEmail>, ErrorKind>)
        ensures
            r is Ok <==> self.identities_result() is Ok,
            r is Ok ==> r->Ok_0@ == self.identities_result()->Ok_0,
            r is Err ==> r->Err_0 == self.identities_result()->Err_0,
    {
        match &self.from_emails {
            Slot::Absent => Ok(Vec::new()),
            Slot::Present(v) => Ok(copy_list(v)),
            Slot::Malformed => Err(ErrorKind::ParseError),
        }
    }

    /// Adds the identity `(id, label, address, is_default)` at the end of the
    /// list; when it is the new default, every other identity loses its flag.
    pub fn create_from_email_with_id(
        &mut self,
        id: String,
        label: String,
        address: String,
        is_default: bool,
    ) -> (r: Result<FromEmail, ErrorKind>)
        ensures
            old(self).identities_result() is Err ==> r == Err::<FromEmail, ErrorKind>(
                old(self).identities_result()->Err_0,
            ) && *final(self) == *old(self),
            old(self).identities_result() is Ok ==> r == Ok::<FromEmail, ErrorKind>(
                FromEmail { id, label, address, is_default },
            ) && old(self).identities_replaced(
                *final(self),
                list_after_create(old(self).identities_result()->Ok_0, r->Ok_0),
            ),
    {
        let mut emails = match self.list_from_emails() {
            Ok(v) => v,
            Err(e) => {
                return Err(e);
            },
        };
        let e = insert_from_email(&mut emails, id, label, address, is_default);
        self.from_emails = Slot::Present(emails);
        Ok(e)
    }

    /// Adds an identity under a fresh random id, as `create_from_email_with_id` does.
    pub fn create_from_email(&mut self, label: String, address: String, is_default: bool) -> (r:
        Result<FromEmail, ErrorKind>)
        ensures
            old(self).identities_result() is Err ==> r == Err::<FromEmail, ErrorKind>(
                old(self).identities_result()->Err_0,
            ) && *final(self) == *old(self),
            old(self).identities_result() is Ok ==> r is Ok && r->Ok_0.label == label
                && r->Ok_0.address == address && r->Ok_0.is_default == is_default
                && old(self).identities_replaced(
                *final(self),
                list_after_create(old(self).identities_result()->Ok_0, r->Ok_0),
            ),
    {
        let id = fresh_id();
        self.create_from_email_with_id(id, label, address, is_default)
    }

    /// Edits the first identity that carries `id`, replacing only the fields
    /// supplied; making it the default clears the flag on all others. Fails
    /// with `NotFound`, changing nothing, when no identity carries `id`.
    pub fn update_from_email(
        &mut self,
        id: &String,
        label: Option<String>,
        address: Option<String>,
        is_default: Option<bool>,
    ) -> (r: Result<FromEmail, ErrorKind>)
        ensures
            old(self).identities_result() is Err ==> r == Err::<FromEmail, ErrorKind>(
                old(self).identities_result()->Err_0,
            ) && *final(self) == *old(self),
            old(self).identities_result() is Ok && !has_id(
                old(self).identities_result()->Ok_0,
                id@,
            ) ==> r is Err && r->Err_0 is NotFound && r->Err_0->NotFound_id@ == id@
                && *final(self) == *old(self),
            ({
                let s = old(self).identities_result()->Ok_0;
                let k = first_with_id(s, id@);
                old(self).identities_result() is Ok && has_id(s, id@) ==> r is Ok
                    && old(self).identities_replaced(
                    *final(self),
                    list_after_update(s, k, label, address, is_default),
                ) && r->Ok_0 == list_after_update(s, k, label, address, is_default)[k]
            }),
    {
        let mut emails = match self.list_from_emails() {
            Ok(v) => v,
            Err(e) => {
                return Err(e);
            },
        };
        match modify_from_email(&mut emails, id, label, address, is_default) {
            Ok(e) => {
                self.from_emails = Slot::Present(emails);
                Ok(e)
            },
            Err(e) => Err(e),
        }
    }

    /// Removes every identity that carries `id`. Fails with `NotFound`,
    /// changing nothing, when none does.
    pub fn delete_from_email(&mut self, id: &String) -> (r: Result<(), ErrorKind>)
        ensures
            old(self).identities_result() is Err ==> r == Err::<(), ErrorKind>(
                old(self).identities_result()->Err_0,
            ) && *final(self) == *old(self),
            old(self).identities_result() is Ok && !has_id(
                old(self).identities_result()->Ok_0,
                id@,
            ) ==> r is Err && r->Err_0 is NotFound && r->Err_0->NotFound_id@ == id@
                && *final(self) == *old(self),
            old(self).identities_result() is Ok && has_id(old(self).identities_result()->Ok_0, id@)
                ==> r is Ok && old(self).identities_replaced(
                *final(self),
                without_id(old(self).identities_result()->Ok_0, id@),
            ),
    {
        let mut emails = match self.list_from_emails() {
            Ok(v) => v,
            Err(e) => {
                return Err(e);
            },
        };
        match remove_from_email(&mut emails, id) {
            Ok(()) => {
                self.from_emails = Slot::Present(emails);
                Ok(())
            },
            Err(e) => Err(e),
        }
    }

    /// The profile, if one is stored; `ParseError` when the record has another shape.
    pub fn get_profile(&self) -> (r: Result<Option<Profile>, ErrorKind>)
        ensures
            r == self.profile_result(),
    {
        match &self.profile {
            Slot::Absent => Ok(None),
            Slot::Present(p) => Ok(Some(p.duplicate())),
            Slot::Malformed => Err(ErrorKind::ParseError),
        }
    }

    /// Overwrites the whole profile.
    pub fn save_profile(&mut self, profile: Profile)
        ensures
            *final(self) == old(self).with_profile(profile),
    {
        self.profile = Slot::Present(profile);
    }

    /// Overwrites the whole profile with the given fields.
    pub fn save_profile_command(
        &mut self,
        first_name: String,
        last_name: String,
        username: String,
        domain: String,
    )
        ensures
            *final(self) == old(self).with_profile(
                Profile { first_name, last_name, username, domain },
            ),
    {
        self.save_profile(Profile { first_name, last_name, username, domain });
    }
}

/// Once the API key is deleted, reading it gives no key and no record is reported.
pub proof fn lemma_deleted_key_is_absent(s: Settings)
    ensures
        s.without_api_key().api_key_result() == Ok::<Option<String>, ErrorKind>(None),
        !s.without_api_key().key_present(),
{
}

/// A profile that was saved is read back unchanged.
pub proof fn lemma_profile_round_trip(s: Settings, p: Profile)
    ensures
        s.with_profile(p).profile_result() == Ok::<Option<Profile>, ErrorKind>(Some(p)),
{
}

} // verus!
