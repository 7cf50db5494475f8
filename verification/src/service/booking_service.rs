//! Booking, cancelling and looking up a seat.
//!
//! Each operation is given twice: on a collection of records, and on the text
//! of the backing file, where it reads the collection, works on it and
//! returns the text to write back.

use std::marker::PhantomData;
use vstd::prelude::*;
use crate::entities::entity::{
    records_view, row_view, rows_occupied, seats_view, Entity, EntityView,
};
use crate::entities::user::{User, UserView};
use crate::service::file_io::{
    contents_view, saved, stored_records, stored_text, FileIO, FileIOImpl, StoreError,
};
use crate::service::seats::{
    find_seats, lemma_seats_without, remove_from_seats, seat_views, seated, seats_in_row,
    seats_of, seats_without, Seat, SeatView,
};

verus! {

/// The position of the first record whose identifier is `id`, and the length
/// of the collection where no record has it.
pub open spec fn first_with_id(records: Seq<EntityView>, id: Seq<char>) -> int
    decreases records.len(),
{
    if records.len() == 0 {
        0
    } else if records[0].id == id {
        0
    } else {
        1 + first_with_id(records.drop_first(), id)
    }
}

/// `at` is where [`first_with_id`] points: no record before it has the
/// identifier, and the record there, if there is one, has it.
pub proof fn lemma_first_with_id(records: Seq<EntityView>, id: Seq<char>, at: int)
    requires
        0 <= at <= records.len(),
        forall|before: int| 0 <= before < at ==> (#[trigger] records[before]).id != id,
        at < records.len() ==> records[at].id == id,
    ensures
        first_with_id(records, id) == at,
    decreases records.len(),
{
    if records.len() > 0 && at > 0 {
        assert(records[0].id != id);
        let rest = records.drop_first();
        assert forall|before: int| 0 <= before < at - 1 implies (#[trigger] rest[before]).id
            != id by {
            assert(rest[before] == records[before + 1]);
        }
        lemma_first_with_id(rest, id, at - 1);
    }
}

/// [`first_with_id`] points into the collection or just behind it, at a
/// record with the identifier if at any, and behind every record without it.
pub proof fn lemma_first_with_id_is_first(records: Seq<EntityView>, id: Seq<char>)
    ensures
        0 <= first_with_id(records, id) <= records.len(),
        first_with_id(records, id) < records.len() ==> records[first_with_id(records, id)].id
            == id,
        forall|before: int|
            0 <= before < first_with_id(records, id) ==> (#[trigger] records[before]).id != id,
    decreases records.len(),
{
    if records.len() > 0 && records[0].id != id {
        let rest = records.drop_first();
        lemma_first_with_id_is_first(rest, id);
        assert forall|before: int| 0 <= before < first_with_id(records, id) implies (
        #[trigger] records[before]).id != id by {
            if before > 0 {
                assert(rest[before - 1] == records[before]);
            }
        }
    }
}

/// The position of the first record of `records` whose identifier is
/// `entity_id`, if any record has it.
pub fn find_entity<T: Entity>(records: &Vec<T>, entity_id: &String) -> (found: Option<usize>)
    ensures
        match found {
            Some(at) => at < records@.len() && at == first_with_id(
                records_view(records@),
                entity_id@,
            ),
            None => first_with_id(records_view(records@), entity_id@) == records@.len(),
        },
{
    let mut at: usize = 0;
    while at < records.len()
        invariant
            at <= records.len(),
            forall|before: int|
                0 <= before < at ==> (#[trigger] records_view(records@)[before]).id != entity_id@,
        decreases records.len() - at,
    {
        if *records[at].id() == *entity_id {
            proof {
                lemma_first_with_id(records_view(records@), entity_id@, at as int);
            }
            return Some(at);
        }
        at += 1;
    }
    proof {
        lemma_first_with_id(records_view(records@), entity_id@, at as int);
    }
    None
}

/// How a cancellation ended.
#[derive(Debug, PartialEq, Eq, Structural)]
pub enum CancelOutcome {
    /// No record has the identifier.
    EntityNotFound,
    /// The record holds no seat of the passenger.
    UserNotFound,
    /// The passenger has left the record.
    Cancelled,
}

/// How cancelling the seats of `user_id` on the first record with the
/// identifier `entity_id` ends.
pub open spec fn cancel_outcome(
    records: Seq<EntityView>,
    entity_id: Seq<char>,
    user_id: Seq<char>,
) -> CancelOutcome {
    let at = first_with_id(records, entity_id);
    if at >= records.len() {
        CancelOutcome::EntityNotFound
    } else if !seated(records[at].seats, user_id) {
        CancelOutcome::UserNotFound
    } else {
        CancelOutcome::Cancelled
    }
}

/// The collection after cancelling the seats of `user_id` on the first
/// record with the identifier `entity_id`: that record without the
/// passenger and without the rows that are empty then, and every other
/// record as before. Where the cancellation finds nothing, the collection
/// is unchanged.
pub open spec fn after_cancel(
    records: Seq<EntityView>,
    entity_id: Seq<char>,
    user_id: Seq<char>,
) -> Seq<EntityView> {
    let at = first_with_id(records, entity_id);
    if at < records.len() && seated(records[at].seats, user_id) {
        records.update(
            at,
            EntityView { seats: seats_without(records[at].seats, user_id), ..records[at] },
        )
    } else {
        records
    }
}

/// Cancels every seat that `user_id` holds on the first record whose
/// identifier is `entity_id`, and drops the rows that are empty then. The
/// collection changes only where the outcome is `Cancelled`.
pub fn cancel<T: Entity>(
    records: &mut Vec<T>,
    entity_id: &String,
    user_id: &String,
) -> (outcome: CancelOutcome)
    ensures
        outcome == cancel_outcome(records_view(old(records)@), entity_id@, user_id@),
        records_view(final(records)@) == after_cancel(
            records_view(old(records)@),
            entity_id@,
            user_id@,
        ),
{
    match find_entity(records, entity_id) {
        None => CancelOutcome::EntityNotFound,
        Some(at) => {
            let (seats, removed) = remove_from_seats(records[at].seats(), user_id);
            if removed {
                let ghost before = records@;
                records[at].set_seats(seats);
                assert(records_view(records@) =~= after_cancel(
                    records_view(before),
                    entity_id@,
                    user_id@,
                ));
                CancelOutcome::Cancelled
            } else {
                CancelOutcome::UserNotFound
            }
        },
    }
}

/// What looking up a booking found.
#[derive(Debug, PartialEq, Eq)]
pub enum Lookup<T> {
    /// No record has the identifier.
    EntityNotFound,
    /// The first record with the identifier, and the seats that the passenger
    /// holds on it, in reading order: none where the passenger has no booking
    /// there.
    Found { entity: T, seats: Vec<Seat> },
}

/// `lookup` is what looking up `user_id` on the first record with the
/// identifier `entity_id` finds.
pub open spec fn looked_up<T: Entity>(
    records: Seq<EntityView>,
    entity_id: Seq<char>,
    user_id: Seq<char>,
    lookup: Lookup<T>,
) -> bool {
    let at = first_with_id(records, entity_id);
    match lookup {
        Lookup::EntityNotFound => at >= records.len(),
        Lookup::Found { entity, seats } => {
            &&& at < records.len()
            &&& entity.record() == records[at]
            &&& seat_views(seats@) == seats_of(records[at].seats, user_id)
        },
    }
}

/// Looks up the seats that `user_id` holds on the first record whose
/// identifier is `entity_id`.
pub fn lookup<T: Entity>(
    records: Vec<T>,
    entity_id: &String,
    user_id: &String,
) -> (lookup: Lookup<T>)
    ensures
        looked_up(records_view(records@), entity_id@, user_id@, lookup),
{
    let mut records = records;
    match find_entity(&records, entity_id) {
        None => Lookup::EntityNotFound,
        Some(at) => {
            let seats = find_seats(records[at].seats(), user_id);
            let entity = records.swap_remove(at);
            Lookup::Found { entity, seats }
        },
    }
}

/// The record of a new booking: the entity with one row of seats, and on it
/// the one passenger.
pub open spec fn booking(
    entity_id: Seq<char>,
    user: UserView,
    name: Seq<char>,
    source: Seq<char>,
    destination: Seq<char>,
    time: i64,
) -> EntityView {
    EntityView { id: entity_id, name, source, destination, time, seats: seq![seq![user]] }
}

/// Makes the record of a new booking of kind `T`.
pub fn new_booking<T: Entity>(
    entity_id: String,
    user: User,
    name: String,
    source: String,
    destination: String,
    time: i64,
) -> (entity: T)
    ensures
        entity.record() == booking(entity_id@, user@, name@, source@, destination@, time),
{
    let mut row: Vec<User> = Vec::new();
    row.push(user);
    let mut seats: Vec<Vec<User>> = Vec::new();
    seats.push(row);
    assert(seats_view(seats@) =~= seq![seq![user@]]) by {
        assert(row_view(seats@[0]@) =~= seq![user@]);
    }
    T::assemble(entity_id, name, source, destination, time, seats)
}

/// How a cancellation on the backing file ended.
#[derive(Debug, PartialEq, Eq)]
pub enum Cancellation {
    /// No record has the identifier. Nothing is to be written.
    EntityNotFound,
    /// The record holds no seat of the passenger. Nothing is to be written.
    UserNotFound,
    /// The passenger has left the record, and the file is to hold
    /// `contents`.
    Cancelled { contents: String },
    /// The passenger has left the record, but the collection could not be
    /// written as text. Nothing is to be written.
    NotSaved { error: StoreError },
}

/// `cancellation` is how cancelling the seats of `user_id` on the first
/// record with the identifier `entity_id` ends, for a file that holds
/// `records` of the kind that keeps its identifier under `id_key`.
pub open spec fn cancelled(
    id_key: Seq<char>,
    records: Seq<EntityView>,
    entity_id: Seq<char>,
    user_id: Seq<char>,
    cancellation: Cancellation,
) -> bool {
    let outcome = cancel_outcome(records, entity_id, user_id);
    let text = stored_text(id_key, after_cancel(records, entity_id, user_id));
    match cancellation {
        Cancellation::EntityNotFound => outcome == CancelOutcome::EntityNotFound,
        Cancellation::UserNotFound => outcome == CancelOutcome::UserNotFound,
        Cancellation::Cancelled { contents } => outcome == CancelOutcome::Cancelled && text
            == Some(contents@),
        Cancellation::NotSaved { error } => outcome == CancelOutcome::Cancelled && text is None
            && error == StoreError::Serialization,
    }
}

/// The booking operations on the records of one kind, each as a function of
/// what the backing file holds.
pub trait BookingService {
    type Item: Entity;

    /// Books a seat for `user` on a new record, which departs at `time`
    /// seconds since the Unix epoch: the text that the file must hold in
    /// order to hold that record after those that it holds now. Every call
    /// adds a record, also for an identifier that the file holds already.
    fn book(
        &self,
        contents: Option<&str>,
        entity_id: String,
        user: User,
        name: String,
        source: String,
        destination: String,
        time: i64,
    ) -> (text: Result<String, StoreError>)
        ensures
            saved(
                Self::Item::id_key(),
                stored_records(Self::Item::id_key(), contents_view(contents)).push(
                    booking(entity_id@, user@, name@, source@, destination@, time),
                ),
                text,
            ),
    ;

    /// Cancels every seat that `user_id` holds on the first record whose
    /// identifier is `entity_id`.
    fn cancel_booking(
        &self,
        contents: Option<&str>,
        entity_id: String,
        user_id: String,
    ) -> (cancellation: Cancellation)
        ensures
            cancelled(
                Self::Item::id_key(),
                stored_records(Self::Item::id_key(), contents_view(contents)),
                entity_id@,
                user_id@,
                cancellation,
            ),
    ;

    /// Looks up the seats that `user_id` holds on the first record whose
    /// identifier is `entity_id`, for the caller to print.
    fn print_booking(
        &self,
        contents: Option<&str>,
        entity_id: String,
        user_id: String,
    ) -> (lookup: Lookup<Self::Item>)
        ensures
            looked_up(
                stored_records(Self::Item::id_key(), contents_view(contents)),
                entity_id@,
                user_id@,
                lookup,
            ),
    ;
}

/// The booking service for the records of kind `T`.
pub struct BookingServiceImpl<T> {
    _phantom: PhantomData<T>,
}

impl<T> BookingServiceImpl<T> {
    /// The booking service. It holds nothing: every operation is given what
    /// the backing file holds.
    pub fn new() -> Self {
        BookingServiceImpl { _phantom: PhantomData }
    }
}

impl<T: Entity> BookingServiceImpl<T> {
    /// The text that the file must hold in order to hold one more record,
    /// `entity`, after those that it holds now.
    pub fn save_booking(&self, contents: Option<&str>, entity: &T) -> (text: Result<
        String,
        StoreError,
    >)
        ensures
            saved(
                T::id_key(),
                stored_records(T::id_key(), contents_view(contents)).push(entity.record()),
                text,
            ),
    {
        let file = FileIOImpl::<T>::new();
        file.save_to_file(contents, entity)
    }
}

impl<T: Entity> BookingService for BookingServiceImpl<T> {
    type Item = T;

    fn book(
        &self,
        contents: Option<&str>,
        entity_id: String,
        user: User,
        name: String,
        source: String,
        destination: String,
        time: i64,
    ) -> (text: Result<String, StoreError>) {
        let entity: T = new_booking(entity_id, user, name, source, destination, time);
        self.save_booking(contents, &entity)
    }

    fn cancel_booking(
        &self,
        contents: Option<&str>,
        entity_id: String,
        user_id: String,
    ) -> (cancellation: Cancellation) {
        let file = FileIOImpl::<T>::new();
        let mut records = file.read_from_file(contents);
        match cancel(&mut records, &entity_id, &user_id) {
            CancelOutcome::EntityNotFound => Cancellation::EntityNotFound,
            CancelOutcome::UserNotFound => Cancellation::UserNotFound,
            CancelOutcome::Cancelled => match file.save_all(&records) {
                Ok(contents) => Cancellation::Cancelled { contents },
                Err(error) => Cancellation::NotSaved { error },
            },
        }
    }

    fn print_booking(
        &self,
        contents: Option<&str>,
        entity_id: String,
        user_id: String,
    ) -> (lookup: Lookup<T>) {
        let file = FileIOImpl::<T>::new();
        lookup(file.read_from_file(contents), &entity_id, &user_id)
    }
}

/// The collection after booking each of `bookings` in turn.
pub open spec fn after_bookings(records: Seq<EntityView>, bookings: Seq<EntityView>) -> Seq<
    EntityView,
>
    decreases bookings.len(),
{
    if bookings.len() == 0 {
        records
    } else {
        after_bookings(records, bookings.drop_last()).push(bookings.last())
    }
}

/// Bookings only add: after a number of them the collection holds what it
/// held, then one record for each booking, in the order of the bookings. It
/// has grown by their number, whatever their identifiers are.
pub proof fn lemma_bookings_grow(records: Seq<EntityView>, bookings: Seq<EntityView>)
    ensures
        after_bookings(records, bookings) == records + bookings,
        after_bookings(records, bookings).len() == records.len() + bookings.len(),
    decreases bookings.len(),
{
    if bookings.len() > 0 {
        lemma_bookings_grow(records, bookings.drop_last());
        assert(bookings =~= bookings.drop_last().push(bookings.last()));
    }
    assert(after_bookings(records, bookings) =~= records + bookings);
}

/// A new booking has one row, with one passenger on it: no row of it is
/// empty, and the passenger holds the seat at row 0, column 0, and no other.
pub proof fn lemma_booking_rows_occupied(
    entity_id: Seq<char>,
    user: UserView,
    name: Seq<char>,
    source: Seq<char>,
    destination: Seq<char>,
    time: i64,
)
    ensures
        rows_occupied(booking(entity_id, user, name, source, destination, time).seats),
        seats_of(booking(entity_id, user, name, source, destination, time).seats, user.user_id)
            == seq![SeatView { row: 0, col: 0, user }],
{
    let seats = booking(entity_id, user, name, source, destination, time).seats;
    assert(seats.drop_last() =~= Seq::empty());
    assert(seats.last().drop_last() =~= Seq::empty());
    assert(seats_in_row(seats.last(), 0, user.user_id) =~= seq![SeatView { row: 0, col: 0, user }])
        by {
        reveal_with_fuel(seats_in_row, 2);
    }
    assert(seats_of(seats, user.user_id) =~= seq![SeatView { row: 0, col: 0, user }]) by {
        reveal_with_fuel(seats_of, 2);
    }
}

/// Cancelling for a passenger who holds no seat on the record, or on a
/// record that is not there, changes nothing.
pub proof fn lemma_cancel_nothing(
    records: Seq<EntityView>,
    entity_id: Seq<char>,
    user_id: Seq<char>,
)
    requires
        first_with_id(records, entity_id) < records.len() ==> !seated(
            records[first_with_id(records, entity_id)].seats,
            user_id,
        ),
    ensures
        cancel_outcome(records, entity_id, user_id) != CancelOutcome::Cancelled,
        after_cancel(records, entity_id, user_id) == records,
{
    lemma_first_with_id_is_first(records, entity_id);
}

/// A cancellation changes one record at most, and of that record only the
/// seating grid: the collection keeps its length, its order and every
/// identifier, the passenger holds no seat on the record afterwards, and no
/// row of it is empty.
pub proof fn lemma_cancel_changes_one_grid(
    records: Seq<EntityView>,
    entity_id: Seq<char>,
    user_id: Seq<char>,
)
    requires
        cancel_outcome(records, entity_id, user_id) == CancelOutcome::Cancelled,
    ensures
        after_cancel(records, entity_id, user_id).len() == records.len(),
        forall|at: int|
            0 <= at < records.len() && at != first_with_id(records, entity_id) ==> (
            #[trigger] after_cancel(records, entity_id, user_id)[at]) == records[at],
        first_with_id(after_cancel(records, entity_id, user_id), entity_id) == first_with_id(
            records,
            entity_id,
        ),
        ({
            let at = first_with_id(records, entity_id);
            let entity = after_cancel(records, entity_id, user_id)[at];
            &&& entity == (EntityView { seats: entity.seats, ..records[at] })
            &&& entity.seats == seats_without(records[at].seats, user_id)
            &&& !seated(entity.seats, user_id)
            &&& rows_occupied(entity.seats)
        }),
{
    let at = first_with_id(records, entity_id);
    lemma_first_with_id_is_first(records, entity_id);
    lemma_seats_without(records[at].seats, user_id);
    lemma_first_with_id(after_cancel(records, entity_id, user_id), entity_id, at);
}

/// Cancelling a second time finds no seat of the passenger and changes
/// nothing.
pub proof fn lemma_cancel_again(records: Seq<EntityView>, entity_id: Seq<char>, user_id: Seq<char>)
    ensures
        cancel_outcome(after_cancel(records, entity_id, user_id), entity_id, user_id)
            != CancelOutcome::Cancelled,
        after_cancel(after_cancel(records, entity_id, user_id), entity_id, user_id)
            == after_cancel(records, entity_id, user_id),
{
    if cancel_outcome(records, entity_id, user_id) == CancelOutcome::Cancelled {
        lemma_cancel_changes_one_grid(records, entity_id, user_id);
    }
    lemma_first_with_id_is_first(records, entity_id);
    lemma_cancel_nothing(after_cancel(records, entity_id, user_id), entity_id, user_id);
}

} // verus!
