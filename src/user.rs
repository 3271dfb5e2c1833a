use std::marker::PhantomData;
use vstd::prelude::*;
use vstd::string::StringExecFns;

use crate::decimal::{decimal_digits, lemma_decimal_injective, push_decimal};

verus! {

/// State tag of a user who has not authenticated.
pub struct Unauthenticated;

/// State tag of a user who has authenticated.
pub struct Authenticated;

/// A user whose authentication state is the type parameter `T`.
///
/// The fields are private: the only way to obtain a user is `User::new`, which
/// yields an unauthenticated one, and the only way to an authenticated user is
/// `authenticate`, which consumes the unauthenticated value.
pub struct User<T> {
    id: usize,
    _phantom: PhantomData<T>,
}

/// A user is modelled by its identifier.
impl<T> View for User<T> {
    type V = nat;

    closed spec fn view(&self) -> nat {
        self.id as nat
    }
}

/// The greeting of the user with identifier `id`.
pub open spec fn hello_text(id: nat) -> Seq<char> {
    "User "@ + decimal_digits(id) + " says hello!"@
}

/// How an unauthenticated user with identifier `id` presents itself.
pub open spec fn unauthenticated_id_text(id: nat) -> Seq<char> {
    "Unauthenticated user "@ + decimal_digits(id)
}

/// What is announced when the user with identifier `id` authenticates.
pub open spec fn authenticating_text(id: nat) -> Seq<char> {
    "Authenticating user "@ + decimal_digits(id) + "..."@
}

/// How an authenticated user with identifier `id` presents itself.
pub open spec fn authenticated_id_text(id: nat) -> Seq<char> {
    "Authenticated user "@ + decimal_digits(id)
}

/// The privileged content that only an authenticated user can reach.
pub open spec fn secret_text(id: nat) -> Seq<char> {
    "Authenticated user "@ + decimal_digits(id) + " knows a secret!"@
}

/// What is announced when the authenticated user with identifier `id` logs out.
pub open spec fn logging_out_text(id: nat) -> Seq<char> {
    "Authenticated user "@ + decimal_digits(id) + " logging out..."@
}

impl<T> User<T> {
    /// The user's greeting; available in every state.
    pub fn hello_message(&self) -> (r: String)
        ensures
            r@ == hello_text(self@),
    {
        let mut s = String::from_str("User ");
        push_decimal(&mut s, self.id);
        s.append(" says hello!");
        s
    }
}

impl User<Unauthenticated> {
    /// The fresh unauthenticated user with identifier `id`.
    pub closed spec fn spec_new(id: usize) -> Self {
        User { id, _phantom: PhantomData }
    }

    /// The authenticated user that `self` becomes.
    pub closed spec fn spec_authenticate(self) -> User<Authenticated> {
        User { id: self.id, _phantom: PhantomData }
    }

    /// Creates an unauthenticated user; every identifier is accepted.
    pub fn new(id: usize) -> (r: Self)
        ensures
            r == Self::spec_new(id),
            r@ == id,
    {
        User { id: id, _phantom: PhantomData }
    }

    /// How this unauthenticated user presents itself.
    pub fn id_message(&self) -> (r: String)
        ensures
            r@ == unauthenticated_id_text(self@),
    {
        let mut s = String::from_str("Unauthenticated user ");
        push_decimal(&mut s, self.id);
        s
    }

    /// What is announced when this user authenticates.
    pub fn authenticating_message(&self) -> (r: String)
        ensures
            r@ == authenticating_text(self@),
    {
        let mut s = String::from_str("Authenticating user ");
        push_decimal(&mut s, self.id);
        s.append("...");
        s
    }

    /// Consumes this user and yields it authenticated, with the same identifier.
    pub fn authenticate(self) -> (r: User<Authenticated>)
        ensures
            r == self.spec_authenticate(),
            r@ == self@,
    {
        User { id: self.id, _phantom: PhantomData }
    }
}

impl User<Authenticated> {
    /// The unauthenticated user that `self` becomes on logging out.
    pub closed spec fn spec_log_out(self) -> User<Unauthenticated> {
        User { id: self.id, _phantom: PhantomData }
    }

    /// How this authenticated user presents itself.
    pub fn id_message(&self) -> (r: String)
        ensures
            r@ == authenticated_id_text(self@),
    {
        let mut s = String::from_str("Authenticated user ");
        push_decimal(&mut s, self.id);
        s
    }

    /// The privileged content; only an authenticated user has this method.
    pub fn secret_message(&self) -> (r: String)
        ensures
            r@ == secret_text(self@),
    {
        let mut s = String::from_str("Authenticated user ");
        push_decimal(&mut s, self.id);
        s.append(" knows a secret!");
        s
    }

    /// What is announced when this user logs out.
    pub fn logging_out_message(&self) -> (r: String)
        ensures
            r@ == logging_out_text(self@),
    {
        let mut s = String::from_str("Authenticated user ");
        push_decimal(&mut s, self.id);
        s.append(" logging out...");
        s
    }

    /// Consumes this user and yields it unauthenticated, with the same identifier.
    pub fn log_out(self) -> (r: User<Unauthenticated>)
        ensures
            r == self.spec_log_out(),
            r@ == self@,
    {
        User { id: self.id, _phantom: PhantomData }
    }
}

/// Authenticating keeps the identity: the user that `User::new(id)` becomes on
/// authenticating has identifier `id`, and the way it presents itself names
/// `id` and no other identifier.
pub proof fn lemma_authenticate_keeps_id(id: usize)
    ensures
        User::spec_new(id).spec_authenticate()@ == id,
        authenticated_id_text(User::spec_new(id).spec_authenticate()@)
            == authenticated_id_text(id as nat),
        forall|k: nat|
            #[trigger] authenticated_id_text(k) == authenticated_id_text(
                User::spec_new(id).spec_authenticate()@,
            ) ==> k == id,
{
    assert forall|k: nat|
        #[trigger] authenticated_id_text(k) == authenticated_id_text(
            User::spec_new(id).spec_authenticate()@,
        ) implies k == id by {
        let p = "Authenticated user "@;
        assert(authenticated_id_text(k).skip(p.len() as int) =~= decimal_digits(k));
        assert(authenticated_id_text(id as nat).skip(p.len() as int) =~= decimal_digits(
            id as nat,
        ));
        lemma_decimal_injective(k, id as nat);
    }
}

/// Authenticating and then logging out gives back the user that `User::new`
/// made: the same identifier, in the unauthenticated state.
pub proof fn lemma_round_trip(id: usize)
    ensures
        User::spec_new(id).spec_authenticate().spec_log_out() == User::spec_new(id),
{
}

} // verus!
