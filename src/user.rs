use vstd::prelude::*;

use crate::text::{decimal, decimal_text};

verus! {

/// Makes `uuid::Uuid` known to the verifier as an opaque value.
#[verifier::external_type_specification]
#[verifier::external_body]
pub struct ExUuid(uuid::Uuid);

/// Relies on `uuid::Uuid::new_v4`: a random identifier, of which nothing is promised.
pub assume_specification[ uuid::Uuid::new_v4 ]() -> uuid::Uuid;

/// The identity attached to every message: a display name and a random id.
#[derive(Debug)]
pub struct User {
    pub username: String,
    pub user_id: uuid::Uuid,
}

impl Clone for User {
    fn clone(&self) -> (r: User)
        ensures
            r.username@ == self.username@,
            r.user_id == self.user_id,
    {
        User { username: self.username.clone(), user_id: self.user_id }
    }
}

impl User {
    /// A fresh identity with the given display name and a random id.
    pub fn new(username: &str) -> (r: User)
        ensures
            r.username@ == username@,
    {
        User { username: username.to_string(), user_id: uuid::Uuid::new_v4() }
    }

    /// The identity the server gives a peer that never sends one of its
    /// own: `Anonymous` followed by the decimal digits of `n`, with a random id.
    pub fn fallback(n: u16) -> (r: User)
        ensures
            r.username@ == fallback_name(n),
    {
        let mut name = String::from_str("Anonymous");
        let digits = decimal_text(n as u64);
        name.append(digits.as_str());
        User { username: name, user_id: uuid::Uuid::new_v4() }
    }

    /// A fallback identity with a random number.
    pub fn anonymous() -> (r: User)
        ensures
            exists|n: u16| r.username@ == fallback_name(n),
    {
        let n: u16 = rand::random::<u16>();
        User::fallback(n)
    }
}

/// The display name of the fallback identity numbered `n`.
pub open spec fn fallback_name(n: u16) -> Seq<char> {
    "Anonymous"@ + decimal(n as nat)
}

/// Relies on `rand::random`: a value drawn from the thread-local generator,
/// of which nothing is promised.
pub assume_specification<T>[ rand::random::<T> ]() -> T
    where
        rand::distributions::Standard: rand::distributions::Distribution<T>,
;

} // verus!
