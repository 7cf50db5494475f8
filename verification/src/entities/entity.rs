use vstd::prelude::*;
use crate::entities::user::{User, UserView};

verus! {

/// What a bookable entity is, whatever its kind: its identifier, its route,
/// its departure in seconds since the Unix epoch, and its seating grid, row
/// by row.
pub struct EntityView {
    pub id: Seq<char>,
    pub name: Seq<char>,
    pub source: Seq<char>,
    pub destination: Seq<char>,
    pub time: i64,
    pub seats: Seq<Seq<UserView>>,
}

/// The passengers of one row, seat by seat.
pub open spec fn row_view(row: Seq<User>) -> Seq<UserView> {
    row.map_values(|user: User| user@)
}

/// The passengers of a seating grid, row by row.
pub open spec fn seats_view(seats: Seq<Vec<User>>) -> Seq<Seq<UserView>> {
    seats.map_values(|row: Vec<User>| row_view(row@))
}

/// The records of a collection, one for one.
pub open spec fn records_view<T: Entity>(records: Seq<T>) -> Seq<EntityView> {
    records.map_values(|record: T| record.record())
}

/// No row of the grid is empty.
pub open spec fn rows_occupied(seats: Seq<Seq<UserView>>) -> bool {
    forall|row: int| 0 <= row < seats.len() ==> #[trigger] seats[row].len() > 0
}

/// A kind of bookable entity. The kinds hold the same data and differ in the
/// key under which a stored record keeps its identifier.
pub trait Entity: Sized {
    /// The key of the identifier in a stored record of this kind.
    spec fn id_key() -> Seq<char>;

    /// The data of this entity.
    spec fn record(&self) -> EntityView;

    /// The key of the identifier is none of the keys that every kind shares.
    proof fn id_key_is_not_shared()
        ensures
            Self::id_key() != "name"@,
            Self::id_key() != "source"@,
            Self::id_key() != "destination"@,
            Self::id_key() != "time"@,
            Self::id_key() != "seats"@,
    ;

    /// The key of the identifier in a stored record of this kind.
    fn key() -> (key: &'static str)
        ensures
            key@ == Self::id_key(),
    ;

    /// The entity of this kind with these data.
    fn assemble(
        id: String,
        name: String,
        source: String,
        destination: String,
        time: i64,
        seats: Vec<Vec<User>>,
    ) -> (entity: Self)
        ensures
            entity.record() == (EntityView {
                id: id@,
                name: name@,
                source: source@,
                destination: destination@,
                time,
                seats: seats_view(seats@),
            }),
    ;

    /// The identifier.
    fn id(&self) -> (id: &String)
        ensures
            id@ == self.record().id,
    ;

    /// The name.
    fn name(&self) -> (name: &String)
        ensures
            name@ == self.record().name,
    ;

    /// Where the journey starts.
    fn source(&self) -> (source: &String)
        ensures
            source@ == self.record().source,
    ;

    /// Where the journey ends.
    fn destination(&self) -> (destination: &String)
        ensures
            destination@ == self.record().destination,
    ;

    /// The departure, in seconds since the Unix epoch.
    fn time(&self) -> (time: i64)
        ensures
            time == self.record().time,
    ;

    /// The seating grid, row by row.
    fn seats(&self) -> (seats: &Vec<Vec<User>>)
        ensures
            seats_view(seats@) == self.record().seats,
    ;

    /// Replaces the seating grid and keeps everything else.
    fn set_seats(&mut self, seats: Vec<Vec<User>>)
        ensures
            final(self).record() == (EntityView { seats: seats_view(seats@), ..old(self).record() }),
    ;
}

/// A copy of a seating grid, passenger by passenger.
pub fn clone_seats(seats: &Vec<Vec<User>>) -> (copy: Vec<Vec<User>>)
    ensures
        seats_view(copy@) == seats_view(seats@),
{
    let mut copy: Vec<Vec<User>> = Vec::new();
    let mut row: usize = 0;
    while row < seats.len()
        invariant
            row <= seats.len(),
            copy@.len() == row,
            forall|above: int| 0 <= above < row ==> (#[trigger] copy@[above])@ == seats@[above]@,
        decreases seats.len() - row,
    {
        let users = &seats[row];
        let mut line: Vec<User> = Vec::new();
        let mut col: usize = 0;
        while col < users.len()
            invariant
                col <= users.len(),
                line@.len() == col,
                forall|left: int| 0 <= left < col ==> #[trigger] line@[left] == users@[left],
            decreases users.len() - col,
        {
            line.push(users[col].clone());
            col += 1;
        }
        assert(line@ =~= users@);
        copy.push(line);
        row += 1;
    }
    assert(seats_view(copy@) =~= seats_view(seats@));
    copy
}

} // verus!
