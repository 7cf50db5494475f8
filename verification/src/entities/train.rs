use vstd::prelude::*;
use crate::entities::entity::{clone_seats, seats_view, Entity, EntityView};
use crate::entities::user::User;

verus! {

/// A train with its route, its departure and the passengers booked on it.
#[derive(Debug, PartialEq, Eq)]
pub struct Train {
    pub train_id: String,
    pub name: String,
    pub source: String,
    pub destination: String,
    pub time: i64,
    pub seats: Vec<Vec<User>>,
}

impl View for Train {
    type V = EntityView;

    open spec fn view(&self) -> EntityView {
        EntityView {
            id: self.train_id@,
            name: self.name@,
            source: self.source@,
            destination: self.destination@,
            time: self.time,
            seats: seats_view(self.seats@),
        }
    }
}

impl Clone for Train {
    fn clone(&self) -> (copy: Train)
        ensures
            copy@ == self@,
    {
        Train {
            train_id: self.train_id.clone(),
            name: self.name.clone(),
            source: self.source.clone(),
            destination: self.destination.clone(),
            time: self.time,
            seats: clone_seats(&self.seats),
        }
    }
}

impl Entity for Train {
    open spec fn id_key() -> Seq<char> {
        "trainId"@
    }

    open spec fn record(&self) -> EntityView {
        self@
    }

    proof fn id_key_is_not_shared() {
        reveal_strlit("trainId");
        reveal_strlit("name");
        reveal_strlit("source");
        reveal_strlit("destination");
        reveal_strlit("time");
        reveal_strlit("seats");
        assert("trainId"@.len() == 7);
        assert("name"@.len() == 4);
        assert("source"@.len() == 6);
        assert("destination"@.len() == 11);
        assert("time"@.len() == 4);
        assert("seats"@.len() == 5);
    }

    fn key() -> (key: &'static str) {
        "trainId"
    }

    fn assemble(
        id: String,
        name: String,
        source: String,
        destination: String,
        time: i64,
        seats: Vec<Vec<User>>,
    ) -> (entity: Train) {
        Train { train_id: id, name, source, destination, time, seats }
    }

    fn id(&self) -> (id: &String) {
        &self.train_id
    }

    fn name(&self) -> (name: &String) {
        &self.name
    }

    fn source(&self) -> (source: &String) {
        &self.source
    }

    fn destination(&self) -> (destination: &String) {
        &self.destination
    }

    fn time(&self) -> (time: i64) {
        self.time
    }

    fn seats(&self) -> (seats: &Vec<Vec<User>>) {
        &self.seats
    }

    fn set_seats(&mut self, seats: Vec<Vec<User>>) {
        self.seats = seats;
    }
}

} // verus!
