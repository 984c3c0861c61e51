//! The password store: the collection of passwords and what the handlers do
//! to it.

use vstd::prelude::*;

use crate::app::{AppState, AppStateView};
use crate::error::Error;
use crate::id::{generate_id, is_id};
use crate::text::str_eq;
use crate::types::{
    clone_opt_text, opt_text, PasswordResponse, PublicPassword, PublicPasswordView,
    RegisterPasswordRequest,
};

verus! {

/// What a password entry holds, as mathematical values.
pub struct PasswordView {
    pub id: Seq<char>,
    pub name: Seq<char>,
    pub password: Seq<char>,
    pub email: Option<Seq<char>>,
    pub website: Option<Seq<char>>,
}

/// A password entry.
#[derive(Debug, PartialEq)]
pub struct Password {
    /// Unique identifier.
    pub id: String,
    /// Name of the password as configured by the user.
    pub name: String,
    /// The actual password.
    pub password: String,
    /// The e-mail associated.
    pub email: Option<String>,
    /// The website associated.
    pub website: Option<String>,
}

impl View for Password {
    type V = PasswordView;

    open spec fn view(&self) -> PasswordView {
        PasswordView {
            id: self.id@,
            name: self.name@,
            password: self.password@,
            email: opt_text(self.email),
            website: opt_text(self.website),
        }
    }
}

impl Clone for Password {
    fn clone(&self) -> (res: Self)
        ensures
            res@ == self@,
    {
        Password {
            id: self.id.clone(),
            name: self.name.clone(),
            password: self.password.clone(),
            email: clone_opt_text(&self.email),
            website: clone_opt_text(&self.website),
        }
    }
}

/// What a listing shows of a password: everything but the secret.
pub open spec fn spec_public_password(password: PasswordView) -> PublicPasswordView {
    PublicPasswordView {
        id: password.id,
        name: password.name,
        email: password.email,
        website: password.website,
    }
}

/// The entry stored for a request under a given identifier.
pub open spec fn spec_to_password(request: RegisterPasswordRequest, id: Seq<char>) -> PasswordView {
    PasswordView {
        id,
        name: request.name@,
        password: request.password@,
        email: opt_text(request.email),
        website: opt_text(request.website),
    }
}

impl Password {
    /// Convert it to a message response: the secret alone.
    pub fn to_response(&self) -> (res: PasswordResponse)
        ensures
            res.password@ == self@.password,
    {
        PasswordResponse { password: self.password.clone() }
    }

    /// Convert it to a public password, without the actual password.
    pub fn to_public(&self) -> (res: PublicPassword)
        ensures
            res@ == spec_public_password(self@),
    {
        PublicPassword {
            id: self.id.clone(),
            name: self.name.clone(),
            email: clone_opt_text(&self.email),
            website: clone_opt_text(&self.website),
        }
    }
}

impl RegisterPasswordRequest {
    /// Convert this into a password that can be stored, under a given
    /// identifier.
    pub fn to_password_with_id(&self, id: String) -> (res: Password)
        ensures
            res@ == spec_to_password(*self, id@),
    {
        Password {
            id,
            name: self.name.clone(),
            password: self.password.clone(),
            email: clone_opt_text(&self.email),
            website: clone_opt_text(&self.website),
        }
    }

    /// Convert this into a password that can be stored, under a new
    /// identifier.
    pub fn to_password(&self) -> (res: Password)
        ensures
            is_id(res@.id),
            res@ == spec_to_password(*self, res@.id),
    {
        self.to_password_with_id(generate_id())
    }
}

/// Whether index `i` holds the first password with this identifier.
pub open spec fn is_first_password_with_id(passwords: Seq<PasswordView>, id: Seq<char>, i: int)
    -> bool {
    &&& 0 <= i < passwords.len()
    &&& passwords[i].id == id
    &&& forall|j: int| 0 <= j < i ==> (#[trigger] passwords[j]).id != id
}

/// Whether some password has this identifier.
pub open spec fn has_password(passwords: Seq<PasswordView>, id: Seq<char>) -> bool {
    exists|i: int| 0 <= i < passwords.len() && (#[trigger] passwords[i]).id == id
}

/// The index of the first password with this identifier.
pub open spec fn first_password_index(passwords: Seq<PasswordView>, id: Seq<char>) -> int {
    choose|i: int| is_first_password_with_id(passwords, id, i)
}

/// The first password with this identifier.
pub open spec fn first_password(passwords: Seq<PasswordView>, id: Seq<char>) -> PasswordView {
    passwords[first_password_index(passwords, id)]
}

/// A collection that has a password with an identifier has a first such
/// password, and only one index holds it.
pub proof fn lemma_first_password(passwords: Seq<PasswordView>, id: Seq<char>)
    requires
        has_password(passwords, id),
    ensures
        is_first_password_with_id(passwords, id, first_password_index(passwords, id)),
        first_password(passwords, id).id == id,
        forall|i: int|
            is_first_password_with_id(passwords, id, i) ==> i == first_password_index(
                passwords,
                id,
            ),
{
    let n = choose|i: int| 0 <= i < passwords.len() && (#[trigger] passwords[i]).id == id;
    lemma_first_password_up_to(passwords, id, n);
    let k = first_password_index(passwords, id);
    assert forall|i: int| is_first_password_with_id(passwords, id, i) implies i == k by {
        if i < k {
            assert(passwords[i].id != id);
        } else if k < i {
            assert(passwords[k].id != id);
        }
    }
}

/// Below or at an index that holds the identifier lies the first index that
/// holds it.
proof fn lemma_first_password_up_to(passwords: Seq<PasswordView>, id: Seq<char>, n: int)
    requires
        0 <= n < passwords.len(),
        passwords[n].id == id,
    ensures
        exists|k: int| is_first_password_with_id(passwords, id, k),
    decreases n,
{
    if forall|j: int| 0 <= j < n ==> (#[trigger] passwords[j]).id != id {
        assert(is_first_password_with_id(passwords, id, n));
    } else {
        let j = choose|j: int| 0 <= j < n && (#[trigger] passwords[j]).id == id;
        lemma_first_password_up_to(passwords, id, j);
    }
}

/// All the passwords.
#[derive(Debug, PartialEq)]
pub struct Passwords {
    /// The passwords.
    pub passwords: Vec<Password>,
}

impl View for Passwords {
    type V = Seq<PasswordView>;

    open spec fn view(&self) -> Seq<PasswordView> {
        self.passwords@.map_values(|password: Password| password@)
    }
}

impl Default for Passwords {
    fn default() -> (res: Self)
        ensures
            res@ == Seq::<PasswordView>::empty(),
    {
        Passwords { passwords: Vec::new() }
    }
}

impl Passwords {
    /// Register a new password: it becomes the last of the collection.
    pub fn register(&mut self, password: Password)
        ensures
            final(self)@ == old(self)@.push(password@),
    {
        self.passwords.push(password);
        assert(self@ =~= old(self)@.push(password@));
    }

    /// Get a vector of passwords as allowed to be shown to the clients.
    pub fn to_public_vec(&self) -> (res: Vec<PublicPassword>)
        ensures
            res@.len() == self@.len(),
            forall|i: int|
                0 <= i < self@.len() ==> (#[trigger] res@[i])@ == spec_public_password(self@[i]),
    {
        let mut res: Vec<PublicPassword> = Vec::new();
        let mut i: usize = 0;
        while i < self.passwords.len()
            invariant
                i <= self.passwords.len(),
                res@.len() == i,
                forall|j: int|
                    0 <= j < i ==> (#[trigger] res@[j])@ == spec_public_password(self@[j]),
            decreases self.passwords.len() - i,
        {
            res.push(self.passwords[i].to_public());
            i += 1;
        }
        res
    }

    /// Get the first password with the ID.
    pub fn by_id(&self, id: &str) -> (res: Option<&Password>)
        ensures
            match res {
                Some(password) => has_password(self@, id@) && password@ == first_password(
                    self@,
                    id@,
                ),
                None => !has_password(self@, id@),
            },
    {
        let mut i: usize = 0;
        while i < self.passwords.len()
            invariant
                i <= self.passwords.len(),
                forall|j: int| 0 <= j < i ==> (#[trigger] self@[j]).id != id@,
            decreases self.passwords.len() - i,
        {
            if str_eq(self.passwords[i].id.as_str(), id) {
                proof {
                    assert(is_first_password_with_id(self@, id@, i as int));
                    lemma_first_password(self@, id@);
                }
                return Some(&self.passwords[i]);
            }
            i += 1;
        }
        None
    }
}

/// Get a single password: the secret of the first password with the ID.
pub fn get_password(id: &str, state: &AppState) -> (res: Result<PasswordResponse, Error>)
    ensures
        match res {
            Ok(response) => has_password(state@.passwords, id@) && response.password@
                == first_password(state@.passwords, id@).password,
            Err(e) => e == Error::PasswordNotFound && !has_password(state@.passwords, id@),
        },
{
    match state.passwords.by_id(id) {
        Some(password) => Ok(password.to_response()),
        None => Err(Error::PasswordNotFound),
    }
}

/// Get a list of all passwords, each without its secret.
pub fn get_passwords(state: &AppState) -> (res: Vec<PublicPassword>)
    ensures
        res@.len() == state@.passwords.len(),
        forall|i: int|
            0 <= i < res@.len() ==> (#[trigger] res@[i])@ == spec_public_password(
                state@.passwords[i],
            ),
{
    state.passwords.to_public_vec()
}

/// Register a new password under a new identifier, and show it without its
/// secret.
pub fn post_passwords(password: &RegisterPasswordRequest, state: &mut AppState) -> (res:
    PublicPassword)
    ensures
        is_id(res@.id),
        final(state)@ == (AppStateView {
            passwords: old(state)@.passwords.push(spec_to_password(*password, res@.id)),
            ..old(state)@
        }),
        res@ == spec_public_password(spec_to_password(*password, res@.id)),
{
    let password = password.to_password();
    let public = password.to_public();
    state.passwords.register(password);
    public
}

} // verus!
