use vstd::prelude::*;
use crate::entities::entity::{clone_seats, seats_view, Entity, EntityView};
use crate::entities::train::Train;
use crate::entities::user::User;

verus! {

/// A vehicle of any kind with its route, its departure and the passengers
/// booked on it.
#[derive(Debug, PartialEq, Eq)]
pub struct Vehicle {
    pub vehicle_id: String,
    pub name: String,
    pub source: String,
    pub destination: String,
    pub time: i64,
    pub seats: Vec<Vec<User>>,
}

impl View for Vehicle {
    type V = EntityView;

    open spec fn view(&self) -> EntityView {
        EntityView {
            id: self.vehicle_id@,
            name: self.name@,
            source: self.source@,
            destination: self.destination@,
            time: self.time,
            seats: seats_view(self.seats@),
        }
    }
}

impl Clone for Vehicle {
    fn clone(&self) -> (copy: Vehicle)
        ensures
            copy@ == self@,
    {
        Vehicle {
            vehicle_id: self.vehicle_id.clone(),
            name: self.name.clone(),
            source: self.source.clone(),
            destination: self.destination.clone(),
            time: self.time,
            seats: clone_seats(&self.seats),
        }
    }
}

impl Entity for Vehicle {
    open spec fn id_key() -> Seq<char> {
        "vehicleId"@
    }

    open spec fn record(&self) -> EntityView {
        self@
    }

    proof fn id_key_is_not_shared() {
        reveal_strlit("vehicleId");
        reveal_strlit("name");
        reveal_strlit("source");
        reveal_strlit("destination");
        reveal_strlit("time");
        reveal_strlit("seats");
        assert("vehicleId"@.len() == 9);
        assert("name"@.len() == 4);
        assert("source"@.len() == 6);
        assert("destination"@.len() == 11);
        assert("time"@.len() == 4);
        assert("seats"@.len() == 5);
    }

    fn key() -> (key: &'static str) {
        "vehicleId"
    }

    fn assemble(
        id: String,
        name: String,
        source: String,
        destination: String,
        time: i64,
        seats: Vec<Vec<User>>,
    ) -> (entity: Vehicle) {
        Vehicle { vehicle_id: id, name, source, destination, time, seats }
    }

    fn id(&self) -> (id: &String) {
        &self.vehicle_id
    }

    fn name(&self) -> (name: &String) {
        &self.name
    }

    fn source(&self) -> (source: &String) {
        &self.source
    }

    fn destination(&self) -> (destination: &String) {
        &self.destination
    }

    fn time(&self) -> (time: i64) {
        self.time
    }

    fn seats(&self) -> (seats: &Vec<Vec<User>>) {
        &self.seats
    }

    fn set_seats(&mut self, seats: Vec<Vec<User>>) {
        self.seats = seats;
    }
}

/// The train that holds what `vehicle` holds: the same identifier, route,
/// departure and seating grid.
pub fn convert(vehicle: Vehicle) -> (train: Train)
    ensures
        train@ == vehicle@,
        train.train_id == vehicle.vehicle_id,
        train.name == vehicle.name,
        train.source == vehicle.source,
        train.destination == vehicle.destination,
        train.time == vehicle.time,
        train.seats == vehicle.seats,
{
    Train {
        train_id: vehicle.vehicle_id,
        name: vehicle.name,
        source: vehicle.source,
        destination: vehicle.destination,
        time: vehicle.time,
        seats: vehicle.seats,
    }
}

} // verus!
