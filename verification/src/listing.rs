//! Directory listings, one page at a time.
//!
//! A directory is a sequence of positions. Positions 0 and 1 hold the
//! entries `.` and `..`; position 2 holds the first row of the catalog's
//! order, position 3 the second, and so on. Each entry carries the position
//! that follows it, and a listing that is asked to start there continues
//! with the next row. The two leading entries are only ever given together,
//! by a listing that starts at 0: a listing that starts at 1 or 2 starts
//! with the first row.

use vstd::prelude::*;
use crate::attr::FileType;
use crate::catalog::{EventRow, MediaRow, Table, TagRow, PAGE_SIZE};
use crate::clock::{stamp, stamped_spec};
use crate::failure::Failure;
use crate::inode::{encode, encode_spec, Node, EVENT, PHOTO, ROOT, TAG, VIDEO};
use crate::name::{
    dir_name, dir_name_spec, extension, extension_spec, file_name, file_name_spec, has_slash,
    is_nested_spec, label_spec, trim_slashes, trim_slashes_spec,
};
use crate::record::text_view;

verus! {

/// The last position at which a listing may start: every position that a
/// page from there hands out still fits in 63 bits.
pub const MAX_OFFSET: i64 = 9_223_372_036_854_775_707;

/// What a row contributes to a listing: everything but its position.
#[derive(Clone, Debug, PartialEq, Eq)]
pub struct Item {
    pub ino: u64,
    pub kind: FileType,
    pub name: String,
}

/// An [`Item`] with its name as a sequence of characters.
pub struct ItemView {
    pub ino: u64,
    pub kind: FileType,
    pub name: Seq<char>,
}

/// One entry of a listing.
#[derive(Clone, Debug, PartialEq, Eq)]
pub struct DirEntry {
    pub ino: u64,
    /// The position after this entry: where a later listing goes on.
    pub next_offset: i64,
    pub kind: FileType,
    pub name: String,
}

/// A [`DirEntry`] with its name as a sequence of characters.
pub struct EntryView {
    pub ino: u64,
    pub next_offset: int,
    pub kind: FileType,
    pub name: Seq<char>,
}

impl View for Item {
    type V = ItemView;

    open spec fn view(&self) -> ItemView {
        ItemView { ino: self.ino, kind: self.kind, name: self.name@ }
    }
}

impl View for DirEntry {
    type V = EntryView;

    open spec fn view(&self) -> EntryView {
        EntryView {
            ino: self.ino,
            next_offset: self.next_offset as int,
            kind: self.kind,
            name: self.name@,
        }
    }
}

/// The views of a sequence of entries.
pub open spec fn entries_view(entries: Seq<DirEntry>) -> Seq<EntryView> {
    entries.map_values(|e: DirEntry| e@)
}

/// The view of an item that may be missing.
pub open spec fn item_view(item: Option<Item>) -> Option<ItemView> {
    match item {
        Some(it) => Some(it@),
        None => None,
    }
}

/// The views of a sequence of items.
pub open spec fn items_view(items: Seq<Option<Item>>) -> Seq<Option<ItemView>> {
    items.map_values(|o: Option<Item>| item_view(o))
}

/// Whether a listing may start at `offset`.
pub open spec fn listable(offset: int) -> bool {
    0 <= offset <= MAX_OFFSET
}

/// How many rows lie before position `offset`.
pub open spec fn skip_spec(offset: int) -> int {
    if offset <= 2 {
        0
    } else {
        offset - 2
    }
}

/// The rows `rows[skip..skip + limit]`, as far as there are any: what the
/// catalog gives for a page.
pub open spec fn window_spec<T>(rows: Seq<T>, skip: int, limit: int) -> Seq<T> {
    let from = if skip < rows.len() {
        skip
    } else {
        rows.len() as int
    };
    let to = if skip + limit < rows.len() {
        skip + limit
    } else {
        rows.len() as int
    };
    rows.subrange(from, to)
}

/// The entries `.` and `..` of the directory `ino`, at positions 0 and 1.
pub open spec fn structural_spec(ino: u64) -> Seq<EntryView> {
    seq![
        EntryView { ino, next_offset: 1, kind: FileType::Directory, name: seq!['.'] },
        EntryView { ino: ROOT, next_offset: 2, kind: FileType::Directory, name: seq!['.', '.'] },
    ]
}

/// The entries of a page of rows of which the first is preceded by `skip`
/// rows. Row `k` of the page stands at position `skip + k + 2`, whether or
/// not it has an item; a row without an item gives no entry.
pub open spec fn rows_spec(items: Seq<Option<ItemView>>, skip: int) -> Seq<EntryView>
    decreases items.len(),
{
    if items.len() == 0 {
        Seq::empty()
    } else {
        let before = rows_spec(items.drop_last(), skip);
        match items.last() {
            Some(it) => before.push(
                EntryView {
                    ino: it.ino,
                    next_offset: skip + items.len() + 2,
                    kind: it.kind,
                    name: it.name,
                },
            ),
            None => before,
        }
    }
}

/// The page that a listing of the directory `ino` gives when it starts at
/// `offset` and the catalog's page there has the items `items`.
pub open spec fn page_spec(ino: u64, offset: int, items: Seq<Option<ItemView>>) -> Seq<
    EntryView,
> {
    if offset == 0 {
        structural_spec(ino) + rows_spec(items, 0)
    } else {
        rows_spec(items, skip_spec(offset))
    }
}

/// How many rows to skip for a listing that starts at `offset`.
pub fn skip_of(offset: i64) -> (skip: u64)
    ensures
        skip == skip_spec(offset as int),
{
    if offset <= 2 {
        0
    } else {
        (offset - 2) as u64
    }
}

/// One `.` or `..` entry.
fn structural_entry(ino: u64, next_offset: i64, dots: usize) -> (entry: DirEntry)
    requires
        dots == 1 || dots == 2,
    ensures
        entry@ == (EntryView {
            ino,
            next_offset: next_offset as int,
            kind: FileType::Directory,
            name: if dots == 1 {
                seq!['.']
            } else {
                seq!['.', '.']
            },
        }),
{
    let mut name = String::new();
    name.push('.');
    if dots == 2 {
        name.push('.');
    }
    assert(name@ =~= if dots == 1 {
        seq!['.']
    } else {
        seq!['.', '.']
    });
    DirEntry { ino, next_offset, kind: FileType::Directory, name }
}

/// How many rows of a page are used: all of them, up to the page size.
pub open spec fn used_spec(rows: nat) -> int {
    if rows < PAGE_SIZE {
        rows as int
    } else {
        PAGE_SIZE as int
    }
}

/// Lays the items of a catalog page out as the entries of a listing of the
/// directory `ino` that starts at `offset`. Items beyond the page size are
/// left out. An offset at which no listing may start is refused.
pub fn lay_out(ino: u64, offset: i64, items: &Vec<Option<Item>>) -> (page: Result<
    Vec<DirEntry>,
    Failure,
>)
    ensures
        page is Ok <==> listable(offset as int),
        page matches Err(e) ==> e == Failure::InvalidOffset,
        page matches Ok(entries) ==> entries_view(entries@) == page_spec(
            ino,
            offset as int,
            items_view(items@).subrange(0, used_spec(items.len() as nat)),
        ),
{
    if offset < 0 || offset > MAX_OFFSET {
        return Err(Failure::InvalidOffset);
    }
    let n: usize = if items.len() < PAGE_SIZE as usize {
        items.len()
    } else {
        PAGE_SIZE as usize
    };
    let mut entries: Vec<DirEntry> = Vec::new();
    let skip: i64 = if offset <= 2 {
        0
    } else {
        offset - 2
    };
    if offset == 0 {
        entries.push(structural_entry(ino, 1, 1));
        entries.push(structural_entry(ROOT, 2, 2));
    }
    let ghost head = entries_view(entries@);
    assert(head =~= if offset == 0 {
        structural_spec(ino)
    } else {
        Seq::empty()
    });
    assert(items_view(items@).subrange(0, 0) =~= Seq::empty());
    let mut k: usize = 0;
    while k < n
        invariant
            k <= n <= items.len(),
            n <= PAGE_SIZE,
            listable(offset as int),
            skip == skip_spec(offset as int),
            entries_view(entries@) == head + rows_spec(
                items_view(items@).subrange(0, k as int),
                skip as int,
            ),
        decreases n - k,
    {
        let ghost seen = items_view(items@).subrange(0, k as int);
        let ghost next = items_view(items@).subrange(0, k + 1);
        let ghost before = entries_view(entries@);
        assert(next.drop_last() =~= seen);
        assert(next.last() == item_view(items@[k as int]));
        match &items[k] {
            Some(it) => {
                let entry = DirEntry {
                    ino: it.ino,
                    next_offset: skip + (k as i64) + 3,
                    kind: it.kind,
                    name: it.name.clone(),
                };
                entries.push(entry);
                assert(entries_view(entries@) =~= before.push(entry@));
                assert(entries_view(entries@) =~= head + rows_spec(next, skip as int));
            },
            None => {},
        }
        k += 1;
    }
    Ok(entries)
}

/// The item of a photo or video: a regular file named `(id) label.ext`,
/// where the label is the title, or `stamp` for a row without title, and the
/// extension is that of the media file.
pub open spec fn media_item_spec(table: Table, row: MediaRow, stamp: Seq<char>) -> ItemView {
    ItemView {
        ino: encode_spec(table.node_spec(row.id)),
        kind: FileType::RegularFile,
        name: file_name_spec(
            row.id,
            label_spec(row.title@, stamp),
            extension_spec(row.filename@),
        ),
    }
}

/// The item of an event: a directory named `[id] label`, where the label is
/// the event's name, or `stamp` for an event without name.
pub open spec fn event_item_spec(row: EventRow, stamp: Seq<char>) -> ItemView {
    ItemView {
        ino: encode_spec(Node::Event(row.id)),
        kind: FileType::Directory,
        name: dir_name_spec(row.id, label_spec(row.name@, stamp)),
    }
}

/// The item of a tag: a directory named `[id] label`, where the label is
/// the tag's name without leading slashes, or `stamp` where nothing is left
/// of the name. A tag below another tag has no item.
pub open spec fn tag_item_spec(row: TagRow, stamp: Seq<char>) -> Option<ItemView> {
    if is_nested_spec(row.name@) {
        None
    } else {
        Some(
            ItemView {
                ino: encode_spec(Node::Tag(row.id)),
                kind: FileType::Directory,
                name: dir_name_spec(row.id, label_spec(trim_slashes_spec(row.name@), stamp)),
            },
        )
    }
}

/// The item of a tag's member: that of the photo, if the catalog has it.
pub open spec fn member_item_spec(row: Option<MediaRow>, stamp: Seq<char>) -> Option<ItemView> {
    match row {
        Some(photo) => Some(media_item_spec(Table::Photo, photo, stamp)),
        None => None,
    }
}

/// `stamps` holds the text of the time stamp of each photo or video that the
/// page uses and that has no title.
pub open spec fn media_stamps_spec(rows: Seq<MediaRow>, stamps: Seq<Seq<char>>) -> bool {
    &&& stamps.len() == rows.len()
    &&& forall|k: int|
        0 <= k < used_spec(rows.len()) && rows[k].title@.len() == 0 ==> stamped_spec(
            rows[k].timestamp,
            #[trigger] stamps[k],
        )
}

/// `stamps` holds the text of the time of creation of each event that the
/// page uses and that has no name.
pub open spec fn event_stamps_spec(rows: Seq<EventRow>, stamps: Seq<Seq<char>>) -> bool {
    &&& stamps.len() == rows.len()
    &&& forall|k: int|
        0 <= k < used_spec(rows.len()) && rows[k].name@.len() == 0 ==> stamped_spec(
            rows[k].time_created,
            #[trigger] stamps[k],
        )
}

/// `stamps` holds the text of the time of creation of each tag that the
/// page uses and of whose name nothing is left without its leading slashes.
pub open spec fn tag_stamps_spec(rows: Seq<TagRow>, stamps: Seq<Seq<char>>) -> bool {
    &&& stamps.len() == rows.len()
    &&& forall|k: int|
        0 <= k < used_spec(rows.len()) && trim_slashes_spec(rows[k].name@).len() == 0
            ==> stamped_spec(rows[k].time_created, #[trigger] stamps[k])
}

/// `stamps` holds the text of the time stamp of each member that the page
/// uses, that the catalog has, and that has no title.
pub open spec fn member_stamps_spec(rows: Seq<Option<MediaRow>>, stamps: Seq<Seq<char>>) -> bool {
    &&& stamps.len() == rows.len()
    &&& forall|k: int|
        0 <= k < used_spec(rows.len()) ==> (rows[k] matches Some(photo) ==> (photo.title@.len()
            == 0 ==> stamped_spec(photo.timestamp, #[trigger] stamps[k])))
}

/// The items of a page of photos or videos, given the time stamp texts of
/// its rows.
pub open spec fn media_items_spec(
    table: Table,
    rows: Seq<MediaRow>,
    stamps: Seq<Seq<char>>,
) -> Seq<Option<ItemView>> {
    Seq::new(used_spec(rows.len()) as nat, |k: int| Some(media_item_spec(table, rows[k], stamps[k])))
}

/// The items of a page of events.
pub open spec fn event_items_spec(rows: Seq<EventRow>, stamps: Seq<Seq<char>>) -> Seq<
    Option<ItemView>,
> {
    Seq::new(used_spec(rows.len()) as nat, |k: int| Some(event_item_spec(rows[k], stamps[k])))
}

/// The items of a page of tags.
pub open spec fn tag_items_spec(rows: Seq<TagRow>, stamps: Seq<Seq<char>>) -> Seq<
    Option<ItemView>,
> {
    Seq::new(used_spec(rows.len()) as nat, |k: int| tag_item_spec(rows[k], stamps[k]))
}

/// The items of a page of a tag's members.
pub open spec fn member_items_spec(rows: Seq<Option<MediaRow>>, stamps: Seq<Seq<char>>) -> Seq<
    Option<ItemView>,
> {
    Seq::new(used_spec(rows.len()) as nat, |k: int| member_item_spec(rows[k], stamps[k]))
}

/// The six entries of the root directory.
pub open spec fn root_spec() -> Seq<EntryView> {
    structural_spec(ROOT) + seq![
        EntryView { ino: PHOTO, next_offset: 3, kind: FileType::Directory, name: "photos"@ },
        EntryView { ino: VIDEO, next_offset: 4, kind: FileType::Directory, name: "videos"@ },
        EntryView { ino: TAG, next_offset: 5, kind: FileType::Directory, name: "tags"@ },
        EntryView { ino: EVENT, next_offset: 6, kind: FileType::Directory, name: "events"@ },
    ]
}

/// The label of an entry: the title, or the time stamp's text for an
/// entry without title.
pub fn label(title: &str, stamp: &str) -> (text: String)
    ensures
        text@ == label_spec(title@, stamp@),
{
    if title.is_empty() {
        stamp.to_owned()
    } else {
        title.to_owned()
    }
}

/// The text of a row's time stamp where the row has no title to show, and
/// the empty text where it has one: the time stamp of a titled row is never
/// turned into text.
fn fallback(title: &str, sec: i64) -> (text: String)
    ensures
        title@.len() > 0 ==> text@.len() == 0,
        title@.len() == 0 ==> stamped_spec(sec, text@),
{
    if title.is_empty() {
        stamp(sec)
    } else {
        String::new()
    }
}

/// Builds the item of a photo (`table` is `Photo`) or a video, given the
/// text of its time stamp.
pub fn media_item(table: Table, row: &MediaRow, stamp: &str) -> (item: Item)
    ensures
        item@ == media_item_spec(table, *row, stamp@),
{
    let text = label(row.title.as_str(), stamp);
    let ext = extension(row.filename.as_str());
    Item {
        ino: encode(table.node(row.id)),
        kind: FileType::RegularFile,
        name: file_name(row.id, text.as_str(), ext.as_str()),
    }
}

/// Builds the item of an event, given the text of its time stamp.
pub fn event_item(row: &EventRow, stamp: &str) -> (item: Item)
    ensures
        item@ == event_item_spec(*row, stamp@),
{
    let text = label(row.name.as_str(), stamp);
    Item {
        ino: encode(Node::Event(row.id)),
        kind: FileType::Directory,
        name: dir_name(row.id, text.as_str()),
    }
}

/// Builds the item of a tag, given the text of its time stamp; a tag below
/// another tag has none.
pub fn tag_item(row: &TagRow, stamp: &str) -> (item: Option<Item>)
    ensures
        item_view(item) == tag_item_spec(*row, stamp@),
{
    let trimmed = trim_slashes(row.name.as_str());
    if has_slash(trimmed.as_str()) {
        None
    } else {
        let text = label(trimmed.as_str(), stamp);
        Some(
            Item {
                ino: encode(Node::Tag(row.id)),
                kind: FileType::Directory,
                name: dir_name(row.id, text.as_str()),
            },
        )
    }
}

/// Lists the root directory: its six entries at offset 0, and nothing at
/// any other offset.
pub fn readdir_root(offset: i64) -> (page: Result<Vec<DirEntry>, Failure>)
    ensures
        page is Ok <==> offset == 0,
        page matches Err(e) ==> e == Failure::NotFound,
        page matches Ok(entries) ==> entries_view(entries@) == root_spec(),
{
    if offset != 0 {
        return Err(Failure::NotFound);
    }
    let mut entries: Vec<DirEntry> = Vec::new();
    entries.push(structural_entry(ROOT, 1, 1));
    entries.push(structural_entry(ROOT, 2, 2));
    entries.push(
        DirEntry {
            ino: PHOTO,
            next_offset: 3,
            kind: FileType::Directory,
            name: "photos".to_owned(),
        },
    );
    entries.push(
        DirEntry {
            ino: VIDEO,
            next_offset: 4,
            kind: FileType::Directory,
            name: "videos".to_owned(),
        },
    );
    entries.push(
        DirEntry { ino: TAG, next_offset: 5, kind: FileType::Directory, name: "tags".to_owned() },
    );
    entries.push(
        DirEntry {
            ino: EVENT,
            next_offset: 6,
            kind: FileType::Directory,
            name: "events".to_owned(),
        },
    );
    assert(entries_view(entries@) =~= root_spec());
    Ok(entries)
}

/// A row of one of the listings: what the shared listing loop asks of it.
trait Listed {
    /// The title that the row is shown under, if the row is shown at all.
    spec fn title_spec(&self) -> Option<Seq<char>>;

    /// The second of the row's time stamp.
    spec fn sec_spec(&self) -> i64;

    /// The row's item in a listing of `table`, given the text of its time
    /// stamp.
    spec fn item_spec(&self, table: Table, stamp: Seq<char>) -> Option<ItemView>;

    /// The row's title, if the row is shown.
    fn title(&self) -> (title: Option<String>)
        ensures
            text_view(title) == self.title_spec(),
    ;

    /// The second of the row's time stamp.
    fn sec(&self) -> (sec: i64)
        ensures
            sec == self.sec_spec(),
    ;

    /// Builds the row's item, given the text of its time stamp.
    fn item(&self, table: Table, stamp: &str) -> (item: Option<Item>)
        ensures
            item_view(item) == self.item_spec(table, stamp@),
    ;
}

impl Listed for MediaRow {
    spec fn title_spec(&self) -> Option<Seq<char>> {
        Some(self.title@)
    }

    spec fn sec_spec(&self) -> i64 {
        self.timestamp
    }

    spec fn item_spec(&self, table: Table, stamp: Seq<char>) -> Option<ItemView> {
        Some(media_item_spec(table, *self, stamp))
    }

    fn title(&self) -> (title: Option<String>) {
        Some(self.title.clone())
    }

    fn sec(&self) -> (sec: i64) {
        self.timestamp
    }

    fn item(&self, table: Table, stamp: &str) -> (item: Option<Item>) {
        Some(media_item(table, self, stamp))
    }
}

impl Listed for EventRow {
    spec fn title_spec(&self) -> Option<Seq<char>> {
        Some(self.name@)
    }

    spec fn sec_spec(&self) -> i64 {
        self.time_created
    }

    spec fn item_spec(&self, table: Table, stamp: Seq<char>) -> Option<ItemView> {
        Some(event_item_spec(*self, stamp))
    }

    fn title(&self) -> (title: Option<String>) {
        Some(self.name.clone())
    }

    fn sec(&self) -> (sec: i64) {
        self.time_created
    }

    fn item(&self, table: Table, stamp: &str) -> (item: Option<Item>) {
        Some(event_item(self, stamp))
    }
}

impl Listed for TagRow {
    spec fn title_spec(&self) -> Option<Seq<char>> {
        if is_nested_spec(self.name@) {
            None
        } else {
            Some(trim_slashes_spec(self.name@))
        }
    }

    spec fn sec_spec(&self) -> i64 {
        self.time_created
    }

    spec fn item_spec(&self, table: Table, stamp: Seq<char>) -> Option<ItemView> {
        tag_item_spec(*self, stamp)
    }

    fn title(&self) -> (title: Option<String>) {
        let trimmed = trim_slashes(self.name.as_str());
        if has_slash(trimmed.as_str()) {
            None
        } else {
            Some(trimmed)
        }
    }

    fn sec(&self) -> (sec: i64) {
        self.time_created
    }

    fn item(&self, table: Table, stamp: &str) -> (item: Option<Item>) {
        tag_item(self, stamp)
    }
}

impl Listed for Option<MediaRow> {
    spec fn title_spec(&self) -> Option<Seq<char>> {
        match self {
            Some(photo) => Some(photo.title@),
            None => None,
        }
    }

    spec fn sec_spec(&self) -> i64 {
        match self {
            Some(photo) => photo.timestamp,
            None => 0,
        }
    }

    spec fn item_spec(&self, table: Table, stamp: Seq<char>) -> Option<ItemView> {
        member_item_spec(*self, stamp)
    }

    fn title(&self) -> (title: Option<String>) {
        match self {
            Some(photo) => Some(photo.title.clone()),
            None => None,
        }
    }

    fn sec(&self) -> (sec: i64) {
        match self {
            Some(photo) => photo.timestamp,
            None => 0,
        }
    }

    fn item(&self, table: Table, stamp: &str) -> (item: Option<Item>) {
        match self {
            Some(photo) => Some(media_item(Table::Photo, photo, stamp)),
            None => None,
        }
    }
}

/// The items of a page of rows, given the time stamp texts of its rows.
spec fn row_items_spec<R: Listed>(table: Table, rows: Seq<R>, stamps: Seq<Seq<char>>) -> Seq<
    Option<ItemView>,
> {
    Seq::new(used_spec(rows.len()) as nat, |k: int| rows[k].item_spec(table, stamps[k]))
}

/// `stamps` holds the text of the time stamp of each row that the page uses
/// and that is shown without a title.
spec fn row_stamps_spec<R: Listed>(rows: Seq<R>, stamps: Seq<Seq<char>>) -> bool {
    &&& stamps.len() == rows.len()
    &&& forall|k: int|
        0 <= k < used_spec(rows.len()) ==> (rows[k].title_spec() matches Some(title) ==> (
        title.len() == 0 ==> stamped_spec(rows[k].sec_spec(), #[trigger] stamps[k])))
}

/// Pads the time stamp texts of the rows that were used with empty texts
/// for the rows that were not.
proof fn lemma_pad(stamps: Seq<Seq<char>>, rows: nat) -> (padded: Seq<Seq<char>>)
    requires
        stamps.len() <= rows,
    ensures
        padded.len() == rows,
        forall|k: int| 0 <= k < stamps.len() ==> padded[k] == stamps[k],
{
    stamps + Seq::new((rows - stamps.len()) as nat, |k: int| Seq::<char>::empty())
}

/// Lists a page of rows in the directory `ino`: the rows of the page, up to
/// the page size, each under its title, or under the text of its time stamp
/// where it has no title. Only the time stamps of such rows are turned into
/// text.
fn list_rows<R: Listed>(ino: u64, table: Table, offset: i64, rows: &Vec<R>) -> (page: Result<
    Vec<DirEntry>,
    Failure,
>)
    ensures
        page is Ok <==> listable(offset as int),
        page matches Err(e) ==> e == Failure::InvalidOffset,
        page matches Ok(entries) ==> exists|stamps: Seq<Seq<char>>|
            row_stamps_spec(rows@, stamps) && entries_view(entries@) == page_spec(
                ino,
                offset as int,
                #[trigger] row_items_spec(table, rows@, stamps),
            ),
{
    let n: usize = if rows.len() < PAGE_SIZE as usize {
        rows.len()
    } else {
        PAGE_SIZE as usize
    };
    let mut items: Vec<Option<Item>> = Vec::new();
    let ghost mut stamps: Seq<Seq<char>> = Seq::empty();
    let mut k: usize = 0;
    while k < n
        invariant
            k <= n <= rows.len(),
            n == used_spec(rows.len() as nat),
            stamps.len() == k,
            items.len() == k,
            forall|j: int|
                0 <= j < k ==> (rows@[j].title_spec() matches Some(title) ==> (title.len() == 0
                    ==> stamped_spec(rows@[j].sec_spec(), #[trigger] stamps[j]))),
            forall|j: int|
                0 <= j < k ==> item_view(#[trigger] items@[j]) == rows@[j].item_spec(
                    table,
                    stamps[j],
                ),
        decreases n - k,
    {
        let row = &rows[k];
        let text = match row.title() {
            Some(title) => fallback(title.as_str(), row.sec()),
            None => String::new(),
        };
        let item = row.item(table, text.as_str());
        proof {
            stamps = stamps.push(text@);
        }
        items.push(item);
        k += 1;
    }
    let listed = lay_out(ino, offset, &items);
    proof {
        let padded = lemma_pad(stamps, rows.len() as nat);
        assert(items_view(items@).subrange(0, used_spec(items.len() as nat)) =~= items_view(
            items@,
        ));
        assert(items_view(items@) =~= row_items_spec(table, rows@, padded));
        assert(row_stamps_spec(rows@, padded));
    }
    listed
}

/// Lists the photos: `rows` is the page of the photo table that starts
/// after the rows before `offset`. Rows beyond the page size are left out.
pub fn readdir_photos(offset: i64, rows: &Vec<MediaRow>) -> (page: Result<Vec<DirEntry>, Failure>)
    ensures
        page is Ok <==> listable(offset as int),
        page matches Err(e) ==> e == Failure::InvalidOffset,
        page matches Ok(entries) ==> exists|stamps: Seq<Seq<char>>|
            media_stamps_spec(rows@, stamps) && entries_view(entries@) == page_spec(
                PHOTO,
                offset as int,
                #[trigger] media_items_spec(Table::Photo, rows@, stamps),
            ),
{
    let listed = list_rows(PHOTO, Table::Photo, offset, rows);
    proof {
        if listed is Ok {
            let entries = listed->Ok_0;
            let stamps = choose|stamps: Seq<Seq<char>>|
                row_stamps_spec(rows@, stamps) && entries_view(entries@) == page_spec(
                    PHOTO,
                    offset as int,
                    #[trigger] row_items_spec(Table::Photo, rows@, stamps),
                );
            assert(media_items_spec(Table::Photo, rows@, stamps) =~= row_items_spec(
                Table::Photo,
                rows@,
                stamps,
            ));
            assert(media_stamps_spec(rows@, stamps));
        }
    }
    listed
}

/// Lists the videos: `rows` is the page of the video table that starts
/// after the rows before `offset`. Rows beyond the page size are left out.
pub fn readdir_videos(offset: i64, rows: &Vec<MediaRow>) -> (page: Result<Vec<DirEntry>, Failure>)
    ensures
        page is Ok <==> listable(offset as int),
        page matches Err(e) ==> e == Failure::InvalidOffset,
        page matches Ok(entries) ==> exists|stamps: Seq<Seq<char>>|
            media_stamps_spec(rows@, stamps) && entries_view(entries@) == page_spec(
                VIDEO,
                offset as int,
                #[trigger] media_items_spec(Table::Video, rows@, stamps),
            ),
{
    let listed = list_rows(VIDEO, Table::Video, offset, rows);
    proof {
        if listed is Ok {
            let entries = listed->Ok_0;
            let stamps = choose|stamps: Seq<Seq<char>>|
                row_stamps_spec(rows@, stamps) && entries_view(entries@) == page_spec(
                    VIDEO,
                    offset as int,
                    #[trigger] row_items_spec(Table::Video, rows@, stamps),
                );
            assert(media_items_spec(Table::Video, rows@, stamps) =~= row_items_spec(
                Table::Video,
                rows@,
                stamps,
            ));
            assert(media_stamps_spec(rows@, stamps));
        }
    }
    listed
}

/// Lists the events: `rows` is the page of the event table that starts
/// after the rows before `offset`. Rows beyond the page size are left out.
pub fn readdir_events(offset: i64, rows: &Vec<EventRow>) -> (page: Result<Vec<DirEntry>, Failure>)
    ensures
        page is Ok <==> listable(offset as int),
        page matches Err(e) ==> e == Failure::InvalidOffset,
        page matches Ok(entries) ==> exists|stamps: Seq<Seq<char>>|
            event_stamps_spec(rows@, stamps) && entries_view(entries@) == page_spec(
                EVENT,
                offset as int,
                #[trigger] event_items_spec(rows@, stamps),
            ),
{
    let listed = list_rows(EVENT, Table::Event, offset, rows);
    proof {
        if listed is Ok {
            let entries = listed->Ok_0;
            let stamps = choose|stamps: Seq<Seq<char>>|
                row_stamps_spec(rows@, stamps) && entries_view(entries@) == page_spec(
                    EVENT,
                    offset as int,
                    #[trigger] row_items_spec(Table::Event, rows@, stamps),
                );
            assert(event_items_spec(rows@, stamps) =~= row_items_spec(
                Table::Event,
                rows@,
                stamps,
            ));
            assert(event_stamps_spec(rows@, stamps));
        }
    }
    listed
}

/// Lists the tags: `rows` is the page of the tag table that starts after
/// the rows before `offset`. Rows beyond the page size are left out, and so
/// are tags below other tags; these still take up their positions.
pub fn readdir_tags(offset: i64, rows: &Vec<TagRow>) -> (page: Result<Vec<DirEntry>, Failure>)
    ensures
        page is Ok <==> listable(offset as int),
        page matches Err(e) ==> e == Failure::InvalidOffset,
        page matches Ok(entries) ==> exists|stamps: Seq<Seq<char>>|
            tag_stamps_spec(rows@, stamps) && entries_view(entries@) == page_spec(
                TAG,
                offset as int,
                #[trigger] tag_items_spec(rows@, stamps),
            ),
{
    let listed = list_rows(TAG, Table::Tag, offset, rows);
    proof {
        if listed is Ok {
            let entries = listed->Ok_0;
            let stamps = choose|stamps: Seq<Seq<char>>|
                row_stamps_spec(rows@, stamps) && entries_view(entries@) == page_spec(
                    TAG,
                    offset as int,
                    #[trigger] row_items_spec(Table::Tag, rows@, stamps),
                );
            assert(tag_items_spec(rows@, stamps) =~= row_items_spec(Table::Tag, rows@, stamps));
            assert(tag_stamps_spec(rows@, stamps));
        }
    }
    listed
}

/// Lists the photos of the tag with inode `inode`: `members` holds, for each
/// member of the page that starts after the members before `offset`, the
/// photo's row, or `None` where the catalog has no such photo. Members
/// beyond the page size are left out. A missing photo gives no entry and
/// still takes up its position.
pub fn readdir_tag_contents(inode: u64, offset: i64, members: &Vec<Option<MediaRow>>) -> (page:
    Result<Vec<DirEntry>, Failure>)
    ensures
        page is Ok <==> listable(offset as int),
        page matches Err(e) ==> e == Failure::InvalidOffset,
        page matches Ok(entries) ==> exists|stamps: Seq<Seq<char>>|
            member_stamps_spec(members@, stamps) && entries_view(entries@) == page_spec(
                inode,
                offset as int,
                #[trigger] member_items_spec(members@, stamps),
            ),
{
    let listed = list_rows(inode, Table::Photo, offset, members);
    proof {
        if listed is Ok {
            let entries = listed->Ok_0;
            let stamps = choose|stamps: Seq<Seq<char>>|
                row_stamps_spec(members@, stamps) && entries_view(entries@) == page_spec(
                    inode,
                    offset as int,
                    #[trigger] row_items_spec(Table::Photo, members@, stamps),
                );
            assert(member_items_spec(members@, stamps) =~= row_items_spec(
                Table::Photo,
                members@,
                stamps,
            ));
            assert(member_stamps_spec(members@, stamps));
        }
    }
    listed
}

/// Two pages that follow one another give the entries of the two taken as
/// one page: no row is lost or shown twice where one page ends and the next
/// begins.
pub proof fn lemma_pages_concatenate(
    first: Seq<Option<ItemView>>,
    second: Seq<Option<ItemView>>,
    skip: int,
)
    ensures
        rows_spec(first + second, skip) == rows_spec(first, skip) + rows_spec(
            second,
            skip + first.len(),
        ),
    decreases second.len(),
{
    if second.len() == 0 {
        assert(first + second =~= first);
        assert(rows_spec(first, skip) + rows_spec(second, skip + first.len()) =~= rows_spec(
            first,
            skip,
        ));
    } else {
        lemma_pages_concatenate(first, second.drop_last(), skip);
        assert((first + second).drop_last() =~= first + second.drop_last());
        assert((first + second).last() == second.last());
        assert(rows_spec(first + second, skip) =~= rows_spec(first, skip) + rows_spec(
            second,
            skip + first.len(),
        ));
    }
}

/// Every entry of a page carries a position beyond the two leading
/// entries, at most the position after the page's last row, and greater
/// than that of each entry before it.
pub proof fn lemma_positions_increase(items: Seq<Option<ItemView>>, skip: int)
    requires
        0 <= skip,
    ensures
        rows_spec(items, skip).len() <= items.len(),
        forall|i: int|
            0 <= i < rows_spec(items, skip).len() ==> skip + 3 + i <= (#[trigger] rows_spec(
                items,
                skip,
            )[i]).next_offset <= skip + items.len() + 2,
        forall|i: int, j: int|
            0 <= i < j < rows_spec(items, skip).len() ==> (#[trigger] rows_spec(
                items,
                skip,
            )[i]).next_offset < (#[trigger] rows_spec(items, skip)[j]).next_offset,
    decreases items.len(),
{
    if items.len() > 0 {
        lemma_positions_increase(items.drop_last(), skip);
    }
}

/// Where every row of a page has an item, the page has one entry for each
/// row, in the order of the rows, and the entry of row `k` carries the
/// position `skip + k + 3`.
pub proof fn lemma_full_page(items: Seq<Option<ItemView>>, skip: int)
    requires
        forall|k: int| 0 <= k < items.len() ==> (#[trigger] items[k]) is Some,
    ensures
        rows_spec(items, skip).len() == items.len(),
        forall|k: int|
            0 <= k < items.len() ==> #[trigger] rows_spec(items, skip)[k] == (EntryView {
                ino: items[k]->0.ino,
                next_offset: skip + k + 3,
                kind: items[k]->0.kind,
                name: items[k]->0.name,
            }),
    decreases items.len(),
{
    if items.len() > 0 {
        lemma_full_page(items.drop_last(), skip);
    }
}

/// A listing that starts at an entry's position goes on with the row after
/// that entry's row: where the entry of a page's row `k` carries the
/// position `skip + k + 3`, a listing from there skips `skip + k + 1` rows.
pub proof fn lemma_resume(skip: int, k: int)
    requires
        0 <= skip,
        0 <= k,
    ensures
        skip_spec(skip + k + 3) == skip + k + 1,
        skip_spec(2) == 0,
        skip_spec(0) == 0,
{
}

/// A listing from position 2, the one after the two leading entries, gives
/// what a listing from the start gives after those two.
pub proof fn lemma_relisting(ino: u64, items: Seq<Option<ItemView>>)
    ensures
        page_spec(ino, 0, items) == structural_spec(ino) + page_spec(ino, 2, items),
{
}

/// Listing a catalog page by page hands out its rows in order, each once:
/// the page after `skip` rows, followed by the page that starts where it
/// ends, is the one page of both.
pub proof fn lemma_next_page(catalog: Seq<Option<ItemView>>, skip: int, limit: int)
    requires
        0 <= skip <= catalog.len(),
        0 <= limit,
    ensures
        ({
            let first = window_spec(catalog, skip, limit);
            let second = window_spec(catalog, skip + first.len(), limit);
            rows_spec(first, skip) + rows_spec(second, skip + first.len()) == rows_spec(
                window_spec(catalog, skip, first.len() + limit),
                skip,
            )
        }),
{
    let first = window_spec(catalog, skip, limit);
    let second = window_spec(catalog, skip + first.len(), limit);
    lemma_pages_concatenate(first, second, skip);
    assert(first + second =~= window_spec(catalog, skip, first.len() + limit));
}

} // verus!
