use vstd::prelude::*;

verus! {

/// A user account: a name, a contact address, how many times the user
/// signed in, and whether the account is active.
#[derive(Debug)]
pub struct User {
    pub username: String,
    pub email: String,
    pub sign_in_count: u64,
    pub active: bool,
}

/// The abstract content of a `User`, with its text fields as character
/// sequences.
pub struct UserView {
    pub username: Seq<char>,
    pub email: Seq<char>,
    pub sign_in_count: u64,
    pub active: bool,
}

impl UserView {
    /// The record made of the four given fields.
    pub open spec fn from_fields(
        username: Seq<char>,
        email: Seq<char>,
        sign_in_count: u64,
        active: bool,
    ) -> UserView {
        UserView { username, email, sign_in_count, active }
    }

    /// The same record with its address replaced.
    pub open spec fn with_email(self, email: Seq<char>) -> UserView {
        UserView { email, ..self }
    }
}

impl View for User {
    type V = UserView;

    open spec fn view(&self) -> UserView {
        UserView::from_fields(self.username@, self.email@, self.sign_in_count, self.active)
    }
}

impl User {
    /// Builds a record from its four fields.
    pub fn new(username: String, email: String, sign_in_count: u64, active: bool) -> (r: User)
        ensures
            r@ == UserView::from_fields(username@, email@, sign_in_count, active),
    {
        User { username, email, sign_in_count, active }
    }

    /// Replaces the contact address; every other field keeps its value.
    pub fn set_email(&mut self, email: String)
        ensures
            final(self)@ == old(self)@.with_email(email@),
    {
        self.email = email;
    }
}

/// Building a record and then replacing its address gives the record built
/// with the new address: the address is the new one, and every other field
/// still holds the value it was built with.
pub proof fn lemma_new_then_set_email(
    username: Seq<char>,
    email: Seq<char>,
    new_email: Seq<char>,
    sign_in_count: u64,
    active: bool,
)
    ensures
        UserView::from_fields(username, email, sign_in_count, active).with_email(new_email)
            == UserView::from_fields(username, new_email, sign_in_count, active),
        UserView::from_fields(username, email, sign_in_count, active).with_email(
            new_email,
        ).email == new_email,
        UserView::from_fields(username, email, sign_in_count, active).with_email(
            new_email,
        ).username == username,
        UserView::from_fields(username, email, sign_in_count, active).with_email(
            new_email,
        ).sign_in_count == sign_in_count,
        UserView::from_fields(username, email, sign_in_count, active).with_email(
            new_email,
        ).active == active,
{
}

} // verus!
