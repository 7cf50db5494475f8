//! Records as JSON values, and JSON values as records.
//!
//! A stored collection is an array of objects, one for each record. Reading
//! is lenient: a member that is missing, or that holds another type of value
//! than expected, reads as the empty string, as 0 or as no elements.

use vstd::prelude::*;
use crate::entities::entity::{records_view, row_view, seats_view, Entity, EntityView};
use crate::entities::user::{User, UserView};
use crate::json;
use crate::json::{json_view, json_views, JsonMembers, JsonModel};

verus! {

/// The object that stands for a passenger.
pub open spec fn encode_user(user: UserView) -> JsonModel {
    JsonModel::Object(
        JsonMembers::empty().insert("userId"@, JsonModel::String(user.user_id)).insert(
            "name"@,
            JsonModel::String(user.name),
        ).insert("aadharCard"@, JsonModel::String(user.aadhar_card)),
    )
}

/// The array that stands for one row of seats.
pub open spec fn encode_row(row: Seq<UserView>) -> JsonModel {
    JsonModel::Array(row.map_values(|user: UserView| encode_user(user)))
}

/// The array of arrays that stands for a seating grid.
pub open spec fn encode_seats(seats: Seq<Seq<UserView>>) -> JsonModel {
    JsonModel::Array(seats.map_values(|row: Seq<UserView>| encode_row(row)))
}

/// The object that stands for an entity whose kind keeps its identifier
/// under `id_key`.
pub open spec fn encode_entity(id_key: Seq<char>, entity: EntityView) -> JsonModel {
    JsonModel::Object(
        JsonMembers::empty().insert(id_key, JsonModel::String(entity.id)).insert(
            "name"@,
            JsonModel::String(entity.name),
        ).insert("source"@, JsonModel::String(entity.source)).insert(
            "destination"@,
            JsonModel::String(entity.destination),
        ).insert("time"@, JsonModel::Integer(entity.time as int)).insert(
            "seats"@,
            encode_seats(entity.seats),
        ),
    )
}

/// The array that stands for a whole collection.
pub open spec fn encode_records(id_key: Seq<char>, records: Seq<EntityView>) -> JsonModel {
    JsonModel::Array(records.map_values(|entity: EntityView| encode_entity(id_key, entity)))
}

/// The passenger that a JSON value stands for.
pub open spec fn decode_user(tree: JsonModel) -> UserView {
    UserView {
        user_id: tree.member("userId"@).text(),
        name: tree.member("name"@).text(),
        aadhar_card: tree.member("aadharCard"@).text(),
    }
}

/// The row of seats that a JSON value stands for: one passenger for each
/// element of an array, and an empty row for any other value.
pub open spec fn decode_row(tree: JsonModel) -> Seq<UserView> {
    tree.elements().map_values(|seat: JsonModel| decode_user(seat))
}

/// The seating grid that a JSON value stands for: one row for each element of
/// an array, and an empty grid for any other value.
pub open spec fn decode_seats(tree: JsonModel) -> Seq<Seq<UserView>> {
    tree.elements().map_values(|row: JsonModel| decode_row(row))
}

/// The entity that a JSON value stands for, read as the kind that keeps its
/// identifier under `id_key`.
pub open spec fn decode_entity(id_key: Seq<char>, tree: JsonModel) -> EntityView {
    EntityView {
        id: tree.member(id_key).text(),
        name: tree.member("name"@).text(),
        source: tree.member("source"@).text(),
        destination: tree.member("destination"@).text(),
        time: tree.member("time"@).integer(),
        seats: decode_seats(tree.member("seats"@)),
    }
}

/// The collection that a JSON value stands for: one record for each element
/// of an array, and an empty collection for any other value.
pub open spec fn decode_records(id_key: Seq<char>, tree: JsonModel) -> Seq<EntityView> {
    tree.elements().map_values(|item: JsonModel| decode_entity(id_key, item))
}

/// A passenger written and read back is the same passenger.
pub proof fn lemma_user_round_trip(user: UserView)
    ensures
        decode_user(encode_user(user)) == user,
{
    reveal_strlit("userId");
    reveal_strlit("name");
    reveal_strlit("aadharCard");
    assert("userId"@.len() == 6);
    assert("name"@.len() == 4);
    assert("aadharCard"@.len() == 10);
}

/// A seating grid written and read back is the same grid: the rows, their
/// order, and the passengers of each.
pub proof fn lemma_seats_round_trip(seats: Seq<Seq<UserView>>)
    ensures
        decode_seats(encode_seats(seats)) == seats,
{
    assert forall|row: int| 0 <= row < seats.len() implies #[trigger] decode_seats(
        encode_seats(seats),
    )[row] == seats[row] by {
        let users = seats[row];
        assert forall|seat: int| 0 <= seat < users.len() implies #[trigger] decode_row(
            encode_row(users),
        )[seat] == users[seat] by {
            lemma_user_round_trip(users[seat]);
        }
        assert(decode_row(encode_row(users)) =~= users);
    }
    assert(decode_seats(encode_seats(seats)) =~= seats);
}

/// An entity written under a key that is none of the shared keys, and read
/// back under the same key, is the same entity.
pub proof fn lemma_entity_round_trip(id_key: Seq<char>, entity: EntityView)
    requires
        id_key != "name"@,
        id_key != "source"@,
        id_key != "destination"@,
        id_key != "time"@,
        id_key != "seats"@,
    ensures
        decode_entity(id_key, encode_entity(id_key, entity)) == entity,
{
    reveal_strlit("name");
    reveal_strlit("source");
    reveal_strlit("destination");
    reveal_strlit("time");
    reveal_strlit("seats");
    assert("name"@.len() == 4 && "name"@[0] == 'n');
    assert("source"@.len() == 6);
    assert("destination"@.len() == 11);
    assert("time"@.len() == 4 && "time"@[0] == 't');
    assert("seats"@.len() == 5);
    lemma_seats_round_trip(entity.seats);
}

/// A collection of one kind, written and read back as that kind, is the same
/// collection: the records, their order, and every field and seat of each.
pub proof fn lemma_records_round_trip<T: Entity>(records: Seq<EntityView>)
    ensures
        decode_records(T::id_key(), encode_records(T::id_key(), records)) == records,
{
    let id_key = T::id_key();
    T::id_key_is_not_shared();
    assert forall|at: int| 0 <= at < records.len() implies #[trigger] decode_records(
        id_key,
        encode_records(id_key, records),
    )[at] == records[at] by {
        lemma_entity_round_trip(id_key, records[at]);
    }
    assert(decode_records(id_key, encode_records(id_key, records)) =~= records);
}

/// The characters of a string value, and the empty string for any other
/// value.
fn text_of(value: &serde_json::Value) -> (text: String)
    ensures
        text@ == json_view(*value).text(),
{
    match json::as_str(value) {
        Some(chars) => chars.to_owned(),
        None => String::new(),
    }
}

/// The value of an integer that fits in 64 signed bits, and 0 for any other
/// value.
fn integer_of(value: &serde_json::Value) -> (number: i64)
    ensures
        number == json_view(*value).integer(),
{
    match json::as_i64(value) {
        Some(number) => number,
        None => 0,
    }
}

/// Reads a passenger from a JSON value.
pub fn user_from_json(value: &serde_json::Value) -> (user: User)
    ensures
        user@ == decode_user(json_view(*value)),
{
    User {
        user_id: text_of(json::index(value, "userId")),
        name: text_of(json::index(value, "name")),
        aadhar_card: text_of(json::index(value, "aadharCard")),
    }
}

/// Reads one row of seats from a JSON value.
pub fn row_from_json(value: &serde_json::Value) -> (row: Vec<User>)
    ensures
        row_view(row@) == decode_row(json_view(*value)),
{
    let mut row: Vec<User> = Vec::new();
    if let Some(items) = json::as_array(value) {
        let mut at: usize = 0;
        while at < items.len()
            invariant
                at <= items.len(),
                json_views(items@) == json_view(*value).elements(),
                row@.len() == at,
                forall|seat: int|
                    0 <= seat < at ==> (#[trigger] row@[seat])@ == decode_user(
                        json_view(items@[seat]),
                    ),
            decreases items.len() - at,
        {
            row.push(user_from_json(&items[at]));
            at += 1;
        }
    }
    assert(row_view(row@) =~= decode_row(json_view(*value)));
    row
}

/// Reads a seating grid from a JSON value.
pub fn seats_from_json(value: &serde_json::Value) -> (seats: Vec<Vec<User>>)
    ensures
        seats_view(seats@) == decode_seats(json_view(*value)),
{
    let mut seats: Vec<Vec<User>> = Vec::new();
    if let Some(items) = json::as_array(value) {
        let mut at: usize = 0;
        while at < items.len()
            invariant
                at <= items.len(),
                json_views(items@) == json_view(*value).elements(),
                seats@.len() == at,
                forall|row: int|
                    0 <= row < at ==> row_view((#[trigger] seats@[row])@) == decode_row(
                        json_view(items@[row]),
                    ),
            decreases items.len() - at,
        {
            seats.push(row_from_json(&items[at]));
            at += 1;
        }
    }
    assert(seats_view(seats@) =~= decode_seats(json_view(*value)));
    seats
}

/// Reads an entity of kind `T` from a JSON value.
pub fn entity_from_json<T: Entity>(value: &serde_json::Value) -> (entity: T)
    ensures
        entity.record() == decode_entity(T::id_key(), json_view(*value)),
{
    T::assemble(
        text_of(json::index(value, T::key())),
        text_of(json::index(value, "name")),
        text_of(json::index(value, "source")),
        text_of(json::index(value, "destination")),
        integer_of(json::index(value, "time")),
        seats_from_json(json::index(value, "seats")),
    )
}

/// Reads a collection of kind `T` from a JSON value.
pub fn records_from_json<T: Entity>(value: &serde_json::Value) -> (records: Vec<T>)
    ensures
        records_view(records@) == decode_records(T::id_key(), json_view(*value)),
{
    let mut records: Vec<T> = Vec::new();
    if let Some(items) = json::as_array(value) {
        let mut at: usize = 0;
        while at < items.len()
            invariant
                at <= items.len(),
                json_views(items@) == json_view(*value).elements(),
                records@.len() == at,
                forall|item: int|
                    0 <= item < at ==> (#[trigger] records@[item]).record() == decode_entity(
                        T::id_key(),
                        json_view(items@[item]),
                    ),
            decreases items.len() - at,
        {
            records.push(entity_from_json(&items[at]));
            at += 1;
        }
    }
    assert(records_view(records@) =~= decode_records(T::id_key(), json_view(*value)));
    records
}

/// Writes a passenger as a JSON value.
pub fn user_to_json(user: &User) -> (value: serde_json::Value)
    ensures
        json_view(value) == encode_user(user@),
{
    let mut members = json::map_new();
    json::map_insert(&mut members, "userId".to_owned(), json::string(user.user_id.clone()));
    json::map_insert(&mut members, "name".to_owned(), json::string(user.name.clone()));
    json::map_insert(&mut members, "aadharCard".to_owned(), json::string(user.aadhar_card.clone()));
    json::object(members)
}

/// Writes one row of seats as a JSON value.
pub fn row_to_json(row: &Vec<User>) -> (value: serde_json::Value)
    ensures
        json_view(value) == encode_row(row_view(row@)),
{
    let mut items: Vec<serde_json::Value> = Vec::new();
    let mut at: usize = 0;
    while at < row.len()
        invariant
            at <= row.len(),
            items@.len() == at,
            forall|seat: int|
                0 <= seat < at ==> json_view(#[trigger] items@[seat]) == encode_user(row@[seat]@),
        decreases row.len() - at,
    {
        items.push(user_to_json(&row[at]));
        at += 1;
    }
    assert(json_views(items@) =~= row_view(row@).map_values(|user: UserView| encode_user(user)));
    json::array(items)
}

/// Writes a seating grid as a JSON value.
pub fn seats_to_json(seats: &Vec<Vec<User>>) -> (value: serde_json::Value)
    ensures
        json_view(value) == encode_seats(seats_view(seats@)),
{
    let mut items: Vec<serde_json::Value> = Vec::new();
    let mut at: usize = 0;
    while at < seats.len()
        invariant
            at <= seats.len(),
            items@.len() == at,
            forall|row: int|
                0 <= row < at ==> json_view(#[trigger] items@[row]) == encode_row(
                    row_view(seats@[row]@),
                ),
        decreases seats.len() - at,
    {
        items.push(row_to_json(&seats[at]));
        at += 1;
    }
    assert(json_views(items@) =~= seats_view(seats@).map_values(
        |row: Seq<UserView>| encode_row(row),
    ));
    json::array(items)
}

/// Writes an entity of kind `T` as a JSON value.
pub fn entity_to_json<T: Entity>(entity: &T) -> (value: serde_json::Value)
    ensures
        json_view(value) == encode_entity(T::id_key(), entity.record()),
{
    let mut members = json::map_new();
    json::map_insert(&mut members, T::key().to_owned(), json::string(entity.id().clone()));
    json::map_insert(&mut members, "name".to_owned(), json::string(entity.name().clone()));
    json::map_insert(&mut members, "source".to_owned(), json::string(entity.source().clone()));
    json::map_insert(
        &mut members,
        "destination".to_owned(),
        json::string(entity.destination().clone()),
    );
    json::map_insert(&mut members, "time".to_owned(), json::integer(entity.time()));
    json::map_insert(&mut members, "seats".to_owned(), seats_to_json(entity.seats()));
    json::object(members)
}

/// Writes each record of a collection of kind `T` as a JSON value, in order.
pub fn items_to_json<T: Entity>(records: &Vec<T>) -> (items: Vec<serde_json::Value>)
    ensures
        JsonModel::Array(json_views(items@)) == encode_records(
            T::id_key(),
            records_view(records@),
        ),
{
    let mut items: Vec<serde_json::Value> = Vec::new();
    let mut at: usize = 0;
    while at < records.len()
        invariant
            at <= records.len(),
            items@.len() == at,
            forall|item: int|
                0 <= item < at ==> json_view(#[trigger] items@[item]) == encode_entity(
                    T::id_key(),
                    records@[item].record(),
                ),
        decreases records.len() - at,
    {
        items.push(entity_to_json(&records[at]));
        at += 1;
    }
    assert(json_views(items@) =~= records_view(records@).map_values(
        |entity: EntityView| encode_entity(T::id_key(), entity),
    ));
    items
}

/// Writes a collection of kind `T` as a JSON value.
pub fn records_to_json<T: Entity>(records: &Vec<T>) -> (value: serde_json::Value)
    ensures
        json_view(value) == encode_records(T::id_key(), records_view(records@)),
{
    json::array(items_to_json(records))
}

} // verus!
