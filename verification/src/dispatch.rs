//! The four requests of the transport. Each is answered in two steps. The
//! first looks at the request alone and either answers it or says which
//! rows of the catalog the answer needs. The second takes those rows and
//! gives the answer.

use vstd::prelude::*;
use crate::attr::{
    attr_spec, container_attr, container_attr_spec, make_dirattr, make_fileattr, seconds,
    seconds_spec, FileAttr, FileType,
};
use crate::catalog::{
    event_row, media_row, tag_row, EventRow, MediaRow, Table, TagRow, PAGE_SIZE,
};
use crate::failure::Failure;
use crate::inode::{
    decode_inode, decode_spec, encode, encode_spec, lemma_encode_decode, Node, EVENT, PHOTO, ROOT,
    TAG, VIDEO,
};
use crate::listing::{
    event_item_spec, listable, media_item_spec, skip_of, skip_spec, tag_item_spec, MAX_OFFSET,
};
use crate::name::{
    extension_spec, extract_id, extract_id_spec, label_spec, lemma_dir_name_resolves,
    lemma_file_name_resolves, trim_slashes_spec, FileId,
};
use crate::record::{as_unsigned_spec, Record};
use crate::text::text_eq;

verus! {

/// How the attributes of an entry are come by.
#[derive(Clone, Copy, Debug, PartialEq, Eq, Structural)]
pub enum AttrPlan {
    /// They are known without the catalog.
    Ready(FileAttr),
    /// They are those of the row of `table` with identity `id`.
    Fetch { table: Table, id: u64 },
}

/// How a listing is come by.
#[derive(Clone, Copy, Debug, PartialEq, Eq, Structural)]
pub enum ListPlan {
    /// It is the root's, which needs no catalog.
    Root,
    /// It is made of the page of `table` after its first `skip` rows.
    Page { table: Table, skip: u64, limit: u64 },
    /// It is made of the photos of the tag `tag`, after the first `skip`.
    Members { tag: u64, skip: u64 },
}

/// Which bytes of which photo a read asks for.
#[derive(Clone, Copy, Debug, PartialEq, Eq, Structural)]
pub struct ReadPlan {
    pub photo: u64,
    pub offset: u64,
    pub size: u32,
}

/// What came of opening a media file, moving to the offset and reading.
#[derive(Clone, Debug, PartialEq, Eq)]
pub enum Fetched {
    /// The file could not be opened.
    Unopenable,
    /// The file could not be positioned at the offset.
    Unseekable,
    /// The read failed.
    Unreadable,
    /// The bytes that the read gave; none at the end of the file.
    Bytes(Vec<u8>),
}

/// The entry of the root directory with the given name.
pub open spec fn lookup_root_spec(name: Seq<char>) -> Result<AttrPlan, Failure> {
    if name == "/"@ {
        Ok(AttrPlan::Ready(container_attr_spec(ROOT)))
    } else if name == "photos"@ {
        Ok(AttrPlan::Ready(container_attr_spec(PHOTO)))
    } else if name == "videos"@ {
        Ok(AttrPlan::Ready(container_attr_spec(VIDEO)))
    } else if name == "tags"@ {
        Ok(AttrPlan::Ready(container_attr_spec(TAG)))
    } else if name == "events"@ {
        Ok(AttrPlan::Ready(container_attr_spec(EVENT)))
    } else {
        Err(Failure::NotFound)
    }
}

/// The row that a name in a listing of `table` stands for: a photo or a
/// video for a name in parentheses, a tag or an event for a name in
/// brackets.
pub open spec fn lookup_in_spec(table: Table, name: Seq<char>) -> Result<AttrPlan, Failure> {
    match (table, extract_id_spec(name)) {
        (Table::Photo, Some(FileId::FileKind(id))) => Ok(AttrPlan::Fetch { table, id }),
        (Table::Video, Some(FileId::FileKind(id))) => Ok(AttrPlan::Fetch { table, id }),
        (Table::Event, Some(FileId::DirKind(id))) => Ok(AttrPlan::Fetch { table, id }),
        (Table::Tag, Some(FileId::DirKind(id))) => Ok(AttrPlan::Fetch { table, id }),
        (Table::Tag, Some(FileId::FileKind(id))) => Ok(AttrPlan::Fetch { table: Table::Photo, id }),
        _ => Err(Failure::NotFound),
    }
}

/// What a name resolves to below the directory `parent`. The root holds
/// its fixed names. The four top-level directories hold the names of their
/// listings; the `tags` directory and each tag also hold the names of
/// photos. Nothing else holds anything.
pub open spec fn lookup_spec(parent: u64, name: Seq<char>) -> Result<AttrPlan, Failure> {
    match decode_spec(parent) {
        Ok(Node::Root) => lookup_root_spec(name),
        Ok(Node::PhotosRoot) => lookup_in_spec(Table::Photo, name),
        Ok(Node::VideosRoot) => lookup_in_spec(Table::Video, name),
        Ok(Node::EventsRoot) => lookup_in_spec(Table::Event, name),
        Ok(Node::TagsRoot) => lookup_in_spec(Table::Tag, name),
        Ok(Node::Tag(_)) => lookup_in_spec(Table::Tag, name),
        _ => Err(Failure::NotFound),
    }
}

/// How the attributes of an inode are come by. The five fixed directories
/// have fixed attributes; a tag and a photo have those of their rows; no
/// other inode has attributes.
pub open spec fn getattr_spec(inode: u64) -> Result<AttrPlan, Failure> {
    match decode_spec(inode) {
        Ok(Node::Root) | Ok(Node::PhotosRoot) | Ok(Node::VideosRoot) | Ok(Node::TagsRoot) | Ok(
            Node::EventsRoot,
        ) => Ok(AttrPlan::Ready(container_attr_spec(inode))),
        Ok(Node::Tag(id)) => Ok(AttrPlan::Fetch { table: Table::Tag, id }),
        Ok(Node::Photo(id)) => Ok(AttrPlan::Fetch { table: Table::Photo, id }),
        _ => Err(Failure::NotFound),
    }
}

/// The page of `table` that a listing from `offset` is made of.
pub open spec fn page_plan_spec(table: Table, offset: i64) -> Result<ListPlan, Failure> {
    if listable(offset as int) {
        Ok(ListPlan::Page { table, skip: skip_spec(offset as int) as u64, limit: PAGE_SIZE })
    } else {
        Err(Failure::InvalidOffset)
    }
}

/// How the listing of an inode from `offset` is come by. The root lists
/// itself, from offset 0 only. The four top-level directories list their
/// tables, and a tag lists its photos, from any offset at which a listing
/// may start. No other inode is listed.
pub open spec fn readdir_spec(inode: u64, offset: i64) -> Result<ListPlan, Failure> {
    match decode_spec(inode) {
        Ok(Node::Root) => if offset == 0 {
            Ok(ListPlan::Root)
        } else {
            Err(Failure::NotFound)
        },
        Ok(Node::PhotosRoot) => page_plan_spec(Table::Photo, offset),
        Ok(Node::VideosRoot) => page_plan_spec(Table::Video, offset),
        Ok(Node::TagsRoot) => page_plan_spec(Table::Tag, offset),
        Ok(Node::EventsRoot) => page_plan_spec(Table::Event, offset),
        Ok(Node::Tag(id)) => if listable(offset as int) {
            Ok(ListPlan::Members { tag: id, skip: skip_spec(offset as int) as u64 })
        } else {
            Err(Failure::InvalidOffset)
        },
        _ => Err(Failure::NotFound),
    }
}

/// Which bytes a read asks for. Only photos are read, from an offset that
/// is not negative, and not for zero bytes.
pub open spec fn read_spec(inode: u64, offset: i64, size: u32) -> Result<ReadPlan, Failure> {
    match decode_spec(inode) {
        Ok(Node::Photo(id)) => if offset >= 0 && size > 0 {
            Ok(ReadPlan { photo: id, offset: offset as u64, size })
        } else {
            Err(Failure::NotFound)
        },
        _ => Err(Failure::NotFound),
    }
}

/// The attributes of a row of `table` with identity `id`: a directory made
/// at `sec` for a tag or an event, a file of `size` bytes taken at `sec` for
/// a photo or a video.
pub open spec fn entity_attr_spec(table: Table, id: u64, size: u64, sec: i64) -> FileAttr {
    match table {
        Table::Photo | Table::Video => attr_spec(
            encode_spec(table.node_spec(id)),
            size,
            FileType::RegularFile,
            seconds_spec(sec),
        ),
        Table::Tag | Table::Event => attr_spec(
            encode_spec(table.node_spec(id)),
            0,
            FileType::Directory,
            seconds_spec(sec),
        ),
    }
}

/// The attributes of the row of `table` with identity `id`, given the row as
/// the catalog handed it over, if it has one. The time is in the third
/// column of every table, and the size of a photo or video in its fifth. A
/// row with too few columns is no row of the table.
pub open spec fn entry_attr_spec(table: Table, id: u64, record: Option<Record>) -> Result<
    FileAttr,
    Failure,
> {
    match record {
        Some(row) => if row.fields.len() >= table.columns_spec() {
            Ok(
                entity_attr_spec(
                    table,
                    id,
                    match table {
                        Table::Photo | Table::Video => as_unsigned_spec(row.fields[4].integer),
                        _ => 0,
                    },
                    row.fields[2].integer,
                ),
            )
        } else {
            Err(Failure::NotFound)
        },
        None => Err(Failure::NotFound),
    }
}

/// The bytes that a read of at most `size` bytes hands on.
pub open spec fn bounded_spec(bytes: Seq<u8>, size: u32) -> Seq<u8> {
    if bytes.len() <= size {
        bytes
    } else {
        bytes.subrange(0, size as int)
    }
}

/// What a read answers, given what came of the file.
pub open spec fn read_reply_spec(fetched: Fetched, size: u32) -> Result<Seq<u8>, Failure> {
    match fetched {
        Fetched::Unopenable => Err(Failure::NotFound),
        Fetched::Unseekable => Err(Failure::InvalidArgument),
        Fetched::Unreadable => Err(Failure::InvalidArgument),
        Fetched::Bytes(bytes) => Ok(bounded_spec(bytes@, size)),
    }
}

/// Resolves a name in the root directory.
pub fn lookup_root(name: &str) -> (plan: Result<AttrPlan, Failure>)
    ensures
        plan == lookup_root_spec(name@),
{
    if text_eq(name, "/") {
        Ok(AttrPlan::Ready(container_attr(ROOT)))
    } else if text_eq(name, "photos") {
        Ok(AttrPlan::Ready(container_attr(PHOTO)))
    } else if text_eq(name, "videos") {
        Ok(AttrPlan::Ready(container_attr(VIDEO)))
    } else if text_eq(name, "tags") {
        Ok(AttrPlan::Ready(container_attr(TAG)))
    } else if text_eq(name, "events") {
        Ok(AttrPlan::Ready(container_attr(EVENT)))
    } else {
        Err(Failure::NotFound)
    }
}

/// Resolves a name in the `events` directory.
pub fn lookup_event(name: &str) -> (plan: Result<AttrPlan, Failure>)
    ensures
        plan == lookup_in_spec(Table::Event, name@),
{
    match extract_id(name) {
        Some(FileId::DirKind(id)) => Ok(AttrPlan::Fetch { table: Table::Event, id }),
        _ => Err(Failure::NotFound),
    }
}

/// Resolves a name in the `tags` directory or in a tag: a tag's name, or a
/// photo's.
pub fn lookup_tag(name: &str) -> (plan: Result<AttrPlan, Failure>)
    ensures
        plan == lookup_in_spec(Table::Tag, name@),
{
    match extract_id(name) {
        Some(FileId::DirKind(id)) => Ok(AttrPlan::Fetch { table: Table::Tag, id }),
        Some(FileId::FileKind(id)) => Ok(AttrPlan::Fetch { table: Table::Photo, id }),
        None => Err(Failure::NotFound),
    }
}

/// Resolves a name in the `photos` directory.
pub fn lookup_photo(name: &str) -> (plan: Result<AttrPlan, Failure>)
    ensures
        plan == lookup_in_spec(Table::Photo, name@),
{
    match extract_id(name) {
        Some(FileId::FileKind(id)) => Ok(AttrPlan::Fetch { table: Table::Photo, id }),
        _ => Err(Failure::NotFound),
    }
}

/// Resolves a name in the `videos` directory.
pub fn lookup_video(name: &str) -> (plan: Result<AttrPlan, Failure>)
    ensures
        plan == lookup_in_spec(Table::Video, name@),
{
    match extract_id(name) {
        Some(FileId::FileKind(id)) => Ok(AttrPlan::Fetch { table: Table::Video, id }),
        _ => Err(Failure::NotFound),
    }
}

/// Resolves a name below a directory: the first step of the request.
pub fn lookup(parent: u64, name: &str) -> (plan: Result<AttrPlan, Failure>)
    ensures
        plan == lookup_spec(parent, name@),
{
    match decode_inode(parent) {
        Ok(Node::Root) => lookup_root(name),
        Ok(Node::EventsRoot) => lookup_event(name),
        Ok(Node::PhotosRoot) => lookup_photo(name),
        Ok(Node::VideosRoot) => lookup_video(name),
        Ok(Node::TagsRoot) => lookup_tag(name),
        Ok(Node::Tag(_)) => lookup_tag(name),
        _ => Err(Failure::NotFound),
    }
}

/// The attributes of the event `id`, given its row.
pub fn event_attr(id: u64, row: Option<&EventRow>) -> (attr: Result<FileAttr, Failure>)
    ensures
        attr == match row {
            Some(event) => Ok::<FileAttr, Failure>(
                entity_attr_spec(Table::Event, id, 0, event.time_created),
            ),
            None => Err::<FileAttr, Failure>(Failure::NotFound),
        },
{
    match row {
        Some(event) => Ok(make_dirattr(encode(Node::Event(id)), seconds(event.time_created))),
        None => Err(Failure::NotFound),
    }
}

/// The attributes of the tag `id`, given its row.
pub fn tag_attr(id: u64, row: Option<&TagRow>) -> (attr: Result<FileAttr, Failure>)
    ensures
        attr == match row {
            Some(tag) => Ok::<FileAttr, Failure>(
                entity_attr_spec(Table::Tag, id, 0, tag.time_created),
            ),
            None => Err::<FileAttr, Failure>(Failure::NotFound),
        },
{
    match row {
        Some(tag) => Ok(make_dirattr(encode(Node::Tag(id)), seconds(tag.time_created))),
        None => Err(Failure::NotFound),
    }
}

/// The attributes of the photo `id`, given its row.
pub fn photo_attr(id: u64, row: Option<&MediaRow>) -> (attr: Result<FileAttr, Failure>)
    ensures
        attr == match row {
            Some(photo) => Ok::<FileAttr, Failure>(
                entity_attr_spec(Table::Photo, id, photo.filesize, photo.timestamp),
            ),
            None => Err::<FileAttr, Failure>(Failure::NotFound),
        },
{
    match row {
        Some(photo) => Ok(
            make_fileattr(encode(Node::Photo(id)), photo.filesize, seconds(photo.timestamp)),
        ),
        None => Err(Failure::NotFound),
    }
}

/// The attributes of the video `id`, given its row.
pub fn video_attr(id: u64, row: Option<&MediaRow>) -> (attr: Result<FileAttr, Failure>)
    ensures
        attr == match row {
            Some(video) => Ok::<FileAttr, Failure>(
                entity_attr_spec(Table::Video, id, video.filesize, video.timestamp),
            ),
            None => Err::<FileAttr, Failure>(Failure::NotFound),
        },
{
    match row {
        Some(video) => Ok(
            make_fileattr(encode(Node::Video(id)), video.filesize, seconds(video.timestamp)),
        ),
        None => Err(Failure::NotFound),
    }
}

/// The attributes of the row that a plan asked for: the second step of
/// resolving a name and of reading attributes.
pub fn entry_attr(table: Table, id: u64, record: Option<&Record>) -> (attr: Result<
    FileAttr,
    Failure,
>)
    ensures
        attr == entry_attr_spec(
            table,
            id,
            match record {
                Some(row) => Some(*row),
                None => None,
            },
        ),
{
    match record {
        None => Err(Failure::NotFound),
        Some(row) => match table {
            Table::Photo => match media_row(row) {
                Some(photo) => photo_attr(id, Some(&photo)),
                None => Err(Failure::NotFound),
            },
            Table::Video => match media_row(row) {
                Some(video) => video_attr(id, Some(&video)),
                None => Err(Failure::NotFound),
            },
            Table::Tag => match tag_row(row) {
                Some(tag) => tag_attr(id, Some(&tag)),
                None => Err(Failure::NotFound),
            },
            Table::Event => match event_row(row) {
                Some(event) => event_attr(id, Some(&event)),
                None => Err(Failure::NotFound),
            },
        },
    }
}

/// The attributes that are fetched for an inode carry that inode.
pub proof fn lemma_getattr_inode(inode: u64, size: u64, sec: i64)
    requires
        getattr_spec(inode) is Ok,
    ensures
        match getattr_spec(inode)->Ok_0 {
            AttrPlan::Ready(attr) => attr.ino == inode,
            AttrPlan::Fetch { table, id } => entity_attr_spec(table, id, size, sec).ino == inode,
        },
{
    lemma_encode_decode(inode);
}

/// The name under which a photo or a video is listed resolves to its row,
/// in the listing of its table and, for a photo, in the `tags` directory
/// and in every tag; and the attributes fetched for it carry the inode
/// under which it is listed.
pub proof fn lemma_listed_media_resolves(
    table: Table,
    row: MediaRow,
    stamp: Seq<char>,
    size: u64,
    sec: i64,
)
    requires
        table == Table::Photo || table == Table::Video,
    ensures
        lookup_in_spec(table, media_item_spec(table, row, stamp).name) == Ok::<
            AttrPlan,
            Failure,
        >(AttrPlan::Fetch { table, id: row.id }),
        table == Table::Photo ==> lookup_in_spec(
            Table::Tag,
            media_item_spec(table, row, stamp).name,
        ) == Ok::<AttrPlan, Failure>(AttrPlan::Fetch { table, id: row.id }),
        entity_attr_spec(table, row.id, size, sec).ino == media_item_spec(table, row, stamp).ino,
{
    lemma_file_name_resolves(
        row.id,
        label_spec(row.title@, stamp),
        extension_spec(row.filename@),
    );
}

/// The name under which an event is listed resolves to its row, and the
/// attributes fetched for it carry the inode under which it is listed.
pub proof fn lemma_listed_event_resolves(row: EventRow, stamp: Seq<char>, sec: i64)
    ensures
        lookup_in_spec(Table::Event, event_item_spec(row, stamp).name) == Ok::<AttrPlan, Failure>(
            AttrPlan::Fetch { table: Table::Event, id: row.id },
        ),
        entity_attr_spec(Table::Event, row.id, 0, sec).ino == event_item_spec(row, stamp).ino,
{
    lemma_dir_name_resolves(row.id, label_spec(row.name@, stamp));
}

/// The name under which a tag is listed resolves to its row, and the
/// attributes fetched for it carry the inode under which it is listed.
pub proof fn lemma_listed_tag_resolves(row: TagRow, stamp: Seq<char>, sec: i64)
    requires
        tag_item_spec(row, stamp) is Some,
    ensures
        lookup_in_spec(Table::Tag, tag_item_spec(row, stamp)->0.name) == Ok::<AttrPlan, Failure>(
            AttrPlan::Fetch { table: Table::Tag, id: row.id },
        ),
        entity_attr_spec(Table::Tag, row.id, 0, sec).ino == tag_item_spec(row, stamp)->0.ino,
{
    lemma_dir_name_resolves(
        row.id,
        label_spec(trim_slashes_spec(row.name@), stamp),
    );
}

/// Says how the attributes of an inode are come by: the first step of the
/// request.
pub fn getattr(inode: u64) -> (plan: Result<AttrPlan, Failure>)
    ensures
        plan == getattr_spec(inode),
{
    match decode_inode(inode) {
        Ok(Node::Root) => Ok(AttrPlan::Ready(container_attr(inode))),
        Ok(Node::PhotosRoot) => Ok(AttrPlan::Ready(container_attr(inode))),
        Ok(Node::VideosRoot) => Ok(AttrPlan::Ready(container_attr(inode))),
        Ok(Node::TagsRoot) => Ok(AttrPlan::Ready(container_attr(inode))),
        Ok(Node::EventsRoot) => Ok(AttrPlan::Ready(container_attr(inode))),
        Ok(Node::Tag(id)) => Ok(AttrPlan::Fetch { table: Table::Tag, id }),
        Ok(Node::Photo(id)) => Ok(AttrPlan::Fetch { table: Table::Photo, id }),
        _ => Err(Failure::NotFound),
    }
}

/// The page of a table that a listing from `offset` needs.
fn page_plan(table: Table, offset: i64) -> (plan: Result<ListPlan, Failure>)
    ensures
        plan == page_plan_spec(table, offset),
{
    if offset < 0 || offset > MAX_OFFSET {
        Err(Failure::InvalidOffset)
    } else {
        Ok(ListPlan::Page { table, skip: skip_of(offset), limit: PAGE_SIZE })
    }
}

/// Says how the listing of an inode from `offset` is come by: the first
/// step of the request.
pub fn readdir(inode: u64, offset: i64) -> (plan: Result<ListPlan, Failure>)
    ensures
        plan == readdir_spec(inode, offset),
{
    match decode_inode(inode) {
        Ok(Node::Root) => if offset == 0 {
            Ok(ListPlan::Root)
        } else {
            Err(Failure::NotFound)
        },
        Ok(Node::PhotosRoot) => page_plan(Table::Photo, offset),
        Ok(Node::VideosRoot) => page_plan(Table::Video, offset),
        Ok(Node::TagsRoot) => page_plan(Table::Tag, offset),
        Ok(Node::EventsRoot) => page_plan(Table::Event, offset),
        Ok(Node::Tag(id)) => if offset < 0 || offset > MAX_OFFSET {
            Err(Failure::InvalidOffset)
        } else {
            Ok(ListPlan::Members { tag: id, skip: skip_of(offset) })
        },
        _ => Err(Failure::NotFound),
    }
}

/// Says which bytes a read asks for: the first step of the request.
pub fn read(inode: u64, offset: i64, size: u32) -> (plan: Result<ReadPlan, Failure>)
    ensures
        plan == read_spec(inode, offset, size),
{
    match decode_inode(inode) {
        Ok(Node::Photo(id)) => if offset >= 0 && size > 0 {
            Ok(ReadPlan { photo: id, offset: offset as u64, size })
        } else {
            Err(Failure::NotFound)
        },
        _ => Err(Failure::NotFound),
    }
}

/// The path of the media file of a photo, given its row: the second step of
/// a read.
pub fn media_path(row: Option<&MediaRow>) -> (path: Result<String, Failure>)
    ensures
        match row {
            Some(photo) => path is Ok && path->Ok_0@ == photo.filename@,
            None => path == Err::<String, Failure>(Failure::NotFound),
        },
{
    match row {
        Some(photo) => Ok(photo.filename.clone()),
        None => Err(Failure::NotFound),
    }
}

/// What a read of at most `size` bytes answers, given what came of the
/// file: the last step of a read. A read that gave fewer bytes than were
/// asked for, or none, is answered with what it gave.
pub fn read_reply(fetched: Fetched, size: u32) -> (reply: Result<Vec<u8>, Failure>)
    ensures
        match reply {
            Ok(bytes) => read_reply_spec(fetched, size) == Ok::<Seq<u8>, Failure>(bytes@),
            Err(e) => read_reply_spec(fetched, size) == Err::<Seq<u8>, Failure>(e),
        },
{
    match fetched {
        Fetched::Unopenable => Err(Failure::NotFound),
        Fetched::Unseekable => Err(Failure::InvalidArgument),
        Fetched::Unreadable => Err(Failure::InvalidArgument),
        Fetched::Bytes(bytes) => {
            let mut bytes = bytes;
            if bytes.len() > size as usize {
                bytes.truncate(size as usize);
            }
            Ok(bytes)
        },
    }
}

} // verus!
