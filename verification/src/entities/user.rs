use vstd::prelude::*;

verus! {

/// What a passenger is, as plain sequences of characters.
pub struct UserView {
    pub user_id: Seq<char>,
    pub name: Seq<char>,
    pub aadhar_card: Seq<char>,
}

/// A passenger: an identifier, a name and a national identity number.
#[derive(Debug, PartialEq, Eq)]
pub struct User {
    pub user_id: String,
    pub name: String,
    pub aadhar_card: String,
}

impl View for User {
    type V = UserView;

    open spec fn view(&self) -> UserView {
        UserView { user_id: self.user_id@, name: self.name@, aadhar_card: self.aadhar_card@ }
    }
}

impl Clone for User {
    fn clone(&self) -> (copy: User)
        ensures
            copy == *self,
    {
        User {
            user_id: self.user_id.clone(),
            name: self.name.clone(),
            aadhar_card: self.aadhar_card.clone(),
        }
    }
}

} // verus!
