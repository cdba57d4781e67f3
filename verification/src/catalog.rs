//! The catalog as the engine sees it: four tables, the rows of each, and the
//! two questions that the engine asks of it.
//!
//! The catalog itself is somebody else's. The engine only says which rows it
//! wants and reads the rows that come back.

use vstd::prelude::*;
use crate::inode::Node;
use crate::record::{as_unsigned_spec, Record, TextField, UnsignedField};

verus! {

/// Most rows that one listing call takes from the catalog.
pub const PAGE_SIZE: u64 = 100;

/// The four tables of the catalog.
#[derive(Clone, Copy, Debug, PartialEq, Eq, Structural)]
pub enum Table {
    Photo,
    Video,
    Tag,
    Event,
}

/// The order in which a table is listed.
#[derive(Clone, Copy, Debug, PartialEq, Eq, Structural)]
pub enum Order {
    /// By time stamp; rows with equal time stamps by identity.
    TimestampThenId,
    /// By time stamp.
    Timestamp,
    /// By name, leading slashes left aside.
    Name,
    /// By time of creation.
    TimeCreated,
}

/// A photo or a video: both tables have the same columns.
#[derive(Clone, Debug, PartialEq, Eq)]
pub struct MediaRow {
    pub id: u64,
    /// Path of the media file on disk.
    pub filename: String,
    pub timestamp: i64,
    pub title: String,
    pub filesize: u64,
}

/// A tag. Its photos are kept as a list of identities separated by commas.
#[derive(Clone, Debug, PartialEq, Eq)]
pub struct TagRow {
    pub id: u64,
    pub name: String,
    pub time_created: i64,
    pub photo_id_list: String,
}

/// An event.
#[derive(Clone, Debug, PartialEq, Eq)]
pub struct EventRow {
    pub id: u64,
    pub name: String,
    pub time_created: i64,
}

impl Table {
    /// The order in which each table is listed.
    pub open spec fn order_spec(self) -> Order {
        match self {
            Table::Photo => Order::TimestampThenId,
            Table::Video => Order::Timestamp,
            Table::Tag => Order::Name,
            Table::Event => Order::TimeCreated,
        }
    }

    /// The node of the row with identity `id`.
    pub open spec fn node_spec(self, id: u64) -> Node {
        match self {
            Table::Photo => Node::Photo(id),
            Table::Video => Node::Video(id),
            Table::Tag => Node::Tag(id),
            Table::Event => Node::Event(id),
        }
    }

    /// The directory that lists the table.
    pub open spec fn root_spec(self) -> Node {
        match self {
            Table::Photo => Node::PhotosRoot,
            Table::Video => Node::VideosRoot,
            Table::Tag => Node::TagsRoot,
            Table::Event => Node::EventsRoot,
        }
    }

    /// The node of the row of this table with identity `id`.
    pub fn node(&self, id: u64) -> (node: Node)
        ensures
            node == self.node_spec(id),
    {
        match self {
            Table::Photo => Node::Photo(id),
            Table::Video => Node::Video(id),
            Table::Tag => Node::Tag(id),
            Table::Event => Node::Event(id),
        }
    }

    /// The directory that lists this table.
    pub fn root(&self) -> (node: Node)
        ensures
            node == self.root_spec(),
    {
        match self {
            Table::Photo => Node::PhotosRoot,
            Table::Video => Node::VideosRoot,
            Table::Tag => Node::TagsRoot,
            Table::Event => Node::EventsRoot,
        }
    }

    /// How many columns a row of the table has.
    pub open spec fn columns_spec(self) -> nat {
        match self {
            Table::Photo | Table::Video => 5,
            Table::Tag => 4,
            Table::Event => 3,
        }
    }

    /// The listing order of this table.
    pub fn order(&self) -> (order: Order)
        ensures
            order == self.order_spec(),
    {
        match self {
            Table::Photo => Order::TimestampThenId,
            Table::Video => Order::Timestamp,
            Table::Tag => Order::Name,
            Table::Event => Order::TimeCreated,
        }
    }
}

/// Reads a photo or video out of a row with the columns identity, file
/// name, time stamp, title, file size. A column that does not hold text
/// reads as the empty text. A row with fewer columns is no such row.
pub fn media_row(record: &Record) -> (row: Option<MediaRow>)
    ensures
        row is Some <==> record.fields.len() >= 5,
        row matches Some(m) ==> {
            &&& m.id == as_unsigned_spec(record.fields[0].integer)
            &&& m.filename@ == record.text_or_empty_spec(1)
            &&& m.timestamp == record.fields[2].integer
            &&& m.title@ == record.text_or_empty_spec(3)
            &&& m.filesize == as_unsigned_spec(record.fields[4].integer)
        },
{
    let id = record.read_u64(0);
    let timestamp = record.read_i64(2);
    let filesize = record.read_u64(4);
    match (id, timestamp, filesize) {
        (Ok(id), Ok(timestamp), Ok(filesize)) => Some(
            MediaRow {
                id,
                filename: record.text_or_empty(1),
                timestamp,
                title: record.text_or_empty(3),
                filesize,
            },
        ),
        _ => None,
    }
}

/// Reads a tag out of a row with the columns identity, name, time of
/// creation, list of photos.
pub fn tag_row(record: &Record) -> (row: Option<TagRow>)
    ensures
        row is Some <==> record.fields.len() >= 4,
        row matches Some(t) ==> {
            &&& t.id == as_unsigned_spec(record.fields[0].integer)
            &&& t.name@ == record.text_or_empty_spec(1)
            &&& t.time_created == record.fields[2].integer
            &&& t.photo_id_list@ == record.text_or_empty_spec(3)
        },
{
    let id = record.read_u64(0);
    let time_created = record.read_i64(2);
    if record.fields.len() < 4 {
        return None;
    }
    match (id, time_created) {
        (Ok(id), Ok(time_created)) => Some(
            TagRow {
                id,
                name: record.text_or_empty(1),
                time_created,
                photo_id_list: record.text_or_empty(3),
            },
        ),
        _ => None,
    }
}

/// Reads an event out of a row with the columns identity, name, time of
/// creation.
pub fn event_row(record: &Record) -> (row: Option<EventRow>)
    ensures
        row is Some <==> record.fields.len() >= 3,
        row matches Some(e) ==> {
            &&& e.id == as_unsigned_spec(record.fields[0].integer)
            &&& e.name@ == record.text_or_empty_spec(1)
            &&& e.time_created == record.fields[2].integer
        },
{
    let id = record.read_u64(0);
    let time_created = record.read_i64(2);
    match (id, time_created) {
        (Ok(id), Ok(time_created)) => Some(
            EventRow { id, name: record.text_or_empty(1), time_created },
        ),
        _ => None,
    }
}

} // verus!
