//! Users of the service.

use vstd::prelude::*;

verus! {

/// A user of the service.
#[derive(Debug)]
pub struct User {
    pub id: i64,
    pub email: String,
    pub name: String,
}

impl User {
    /// A user with the given identifier, whose e-mail address and name are
    /// what `email` and `name` convert to. For a `&str` that is a `String` of
    /// the same characters.
    pub fn new<E: Into<String>, N: Into<String>>(id: i64, email: E, name: N) -> (user: User)
        ensures
            user.id == id,
            call_ensures(E::into, (email,), user.email),
            call_ensures(N::into, (name,), user.name),
    {
        User { id, email: email.into(), name: name.into() }
    }
}

impl Clone for User {
    /// A user with the same identifier, e-mail address and name.
    fn clone(&self) -> (copy: User)
        ensures
            copy == *self,
    {
        User { id: self.id, email: self.email.clone(), name: self.name.clone() }
    }
}

} // verus!
