//! The record store of one kind of entity, as a function of what its backing
//! file holds.
//!
//! The store opens no file. Its caller reads the file, hands over what it
//! holds, and writes back the text that the store returns.

use std::marker::PhantomData;
use vstd::prelude::*;
use crate::entities::entity::{records_view, Entity, EntityView};
use crate::json;
use crate::json::{json_parse, json_pretty, json_view, json_views};
use crate::service::codec::{
    decode_records, encode_entity, encode_records, entity_to_json, items_to_json,
    lemma_records_round_trip, records_from_json, records_to_json,
};

verus! {

/// Why a collection could not be saved.
#[derive(Debug, PartialEq, Eq, Structural)]
pub enum StoreError {
    /// The collection could not be written as JSON text.
    Serialization,
}

/// The characters of the backing file, where there is one.
pub open spec fn contents_view(contents: Option<&str>) -> Option<Seq<char>> {
    match contents {
        Some(text) => Some(text@),
        None => None,
    }
}

/// The collection that a backing file holds, read as the kind that keeps its
/// identifier under `id_key`. A file that is missing or cannot be read, text
/// that is no JSON, and JSON that is no array all hold the empty collection.
pub open spec fn stored_records(id_key: Seq<char>, contents: Option<Seq<char>>) -> Seq<
    EntityView,
> {
    match contents {
        Some(text) => match json_parse(text) {
            Some(tree) => decode_records(id_key, tree),
            None => Seq::empty(),
        },
        None => Seq::empty(),
    }
}

/// The text that holds `records`, or `None` where they cannot be written.
pub open spec fn stored_text(id_key: Seq<char>, records: Seq<EntityView>) -> Option<Seq<char>> {
    json_pretty(encode_records(id_key, records))
}

/// What saving `records` returns: the text that holds them, or the error.
pub open spec fn saved(
    id_key: Seq<char>,
    records: Seq<EntityView>,
    text: Result<String, StoreError>,
) -> bool {
    match text {
        Ok(written) => stored_text(id_key, records) == Some(written@),
        Err(error) => error == StoreError::Serialization && stored_text(id_key, records) is None,
    }
}

/// Writes a JSON value as text.
fn write(value: &serde_json::Value) -> (text: Result<String, StoreError>)
    ensures
        match text {
            Ok(written) => json_pretty(json_view(*value)) == Some(written@),
            Err(error) => error == StoreError::Serialization && json_pretty(json_view(*value))
                is None,
        },
{
    match json::to_string_pretty(value) {
        Ok(written) => Ok(written),
        Err(_) => Err(StoreError::Serialization),
    }
}

/// A store of records of one kind in one file.
pub trait FileIO {
    type Item: Entity;

    /// The text that the file must hold in order to hold one more record,
    /// `entity`, after those that it holds now.
    fn save_to_file(&self, contents: Option<&str>, entity: &Self::Item) -> (text: Result<
        String,
        StoreError,
    >)
        ensures
            saved(
                Self::Item::id_key(),
                stored_records(Self::Item::id_key(), contents_view(contents)).push(
                    entity.record(),
                ),
                text,
            ),
    ;

    /// The text that the file must hold in order to hold `records` and
    /// nothing else.
    fn save_all(&self, records: &Vec<Self::Item>) -> (text: Result<String, StoreError>)
        ensures
            saved(Self::Item::id_key(), records_view(records@), text),
    ;

    /// The records that the file holds.
    fn read_from_file(&self, contents: Option<&str>) -> (records: Vec<Self::Item>)
        ensures
            records_view(records@) == stored_records(
                Self::Item::id_key(),
                contents_view(contents),
            ),
            contents is None ==> records@.len() == 0,
    ;
}

/// The store of the records of kind `T`.
pub struct FileIOImpl<T> {
    filename: String,
    _phantom: PhantomData<T>,
}

impl<T> FileIOImpl<T> {
    /// The name of the backing file.
    pub closed spec fn path(&self) -> Seq<char> {
        self.filename@
    }

    /// The store whose backing file is `db.json`.
    pub fn new() -> (store: Self)
        ensures
            store.path() == "db.json"@,
    {
        FileIOImpl { filename: "db.json".to_owned(), _phantom: PhantomData }
    }

    /// The name of the backing file.
    pub fn filename(&self) -> (name: &String)
        ensures
            name@ == self.path(),
    {
        &self.filename
    }
}

impl<T: Entity> FileIO for FileIOImpl<T> {
    type Item = T;

    fn save_to_file(&self, contents: Option<&str>, entity: &T) -> (text: Result<
        String,
        StoreError,
    >) {
        let records: Vec<T> = self.read_from_file(contents);
        let mut items = items_to_json(&records);
        let ghost held = items@;
        items.push(entity_to_json(entity));
        proof {
            let id_key = T::id_key();
            let stored = stored_records(id_key, contents_view(contents));
            let encode = |record: EntityView| encode_entity(id_key, record);
            assert(json_views(held) == stored.map_values(encode));
            assert forall|at: int| 0 <= at < items@.len() implies #[trigger] json_views(
                items@,
            )[at] == stored.push(entity.record()).map_values(encode)[at] by {
                if at < held.len() {
                    assert(json_views(held)[at] == json_view(held[at]));
                }
            }
            assert(json_views(items@) =~= stored.push(entity.record()).map_values(encode));
        }
        write(&json::array(items))
    }

    fn save_all(&self, records: &Vec<T>) -> (text: Result<String, StoreError>) {
        write(&records_to_json(records))
    }

    fn read_from_file(&self, contents: Option<&str>) -> (records: Vec<T>) {
        match contents {
            Some(text) => match json::from_str(text) {
                Ok(value) => records_from_json(&value),
                Err(_) => Vec::new(),
            },
            None => Vec::new(),
        }
    }
}

/// Where the reader of JSON takes from a saved text the tree that the writer
/// wrote, the file that holds the text holds the saved records: each of them,
/// in order, with every field and seat.
pub proof fn lemma_saved_text_reads_back<T: Entity>(records: Seq<EntityView>, text: Seq<char>)
    requires
        stored_text(T::id_key(), records) == Some(text),
        json_parse(text) == Some(encode_records(T::id_key(), records)),
    ensures
        stored_records(T::id_key(), Some(text)) == records,
{
    lemma_records_round_trip::<T>(records);
}

} // verus!
