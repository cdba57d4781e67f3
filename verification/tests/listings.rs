use shotwell_vfs::attr::FileType;
use shotwell_vfs::catalog::{EventRow, MediaRow, Table, TagRow};
use shotwell_vfs::clock::{stamp, CLOCK_MAX, CLOCK_MIN};
use shotwell_vfs::failure::Failure;
use shotwell_vfs::inode::{EVENT, PHOTO, ROOT, TAG, VIDEO};
use shotwell_vfs::listing::{
    event_item, label, lay_out, media_item, readdir_events, readdir_photos, readdir_root,
    readdir_tag_contents, readdir_tags, readdir_videos, skip_of, tag_item, DirEntry, Item,
    MAX_OFFSET,
};
use shotwell_vfs::members::{member_ids, tag_members};

fn photo(id: u64, title: &str, timestamp: i64) -> MediaRow {
    MediaRow {
        id,
        filename: format!("/pictures/img{}.jpg", id),
        timestamp,
        title: String::from(title),
        filesize: 1000 + id,
    }
}

fn tag(id: u64, name: &str) -> TagRow {
    TagRow { id, name: String::from(name), time_created: 1_000_000, photo_id_list: String::new() }
}

fn dir(ino: u64, next_offset: i64, name: &str) -> DirEntry {
    DirEntry { ino, next_offset, kind: FileType::Directory, name: String::from(name) }
}

fn file(ino: u64, next_offset: i64, name: &str) -> DirEntry {
    DirEntry { ino, next_offset, kind: FileType::RegularFile, name: String::from(name) }
}

fn local_minute(sec: i64) -> String {
    time::at(time::Timespec { sec, nsec: 0 }).strftime("%Y-%m-%d %H:%M").unwrap().to_string()
}

#[test]
fn root_lists_its_six_entries() {
    assert_eq!(
        readdir_root(0),
        Ok(vec![
            dir(1, 1, "."),
            dir(1, 2, ".."),
            dir(PHOTO, 3, "photos"),
            dir(VIDEO, 4, "videos"),
            dir(TAG, 5, "tags"),
            dir(EVENT, 6, "events"),
        ])
    );
}

#[test]
fn root_lists_nothing_from_another_offset() {
    for offset in [1i64, 2, 5, 6, 7, -1, i64::MAX, i64::MIN] {
        assert_eq!(readdir_root(offset), Err(Failure::NotFound));
    }
}

#[test]
fn photos_are_listed_after_the_two_leading_entries() {
    let rows = vec![photo(1, "one", 10), photo(2, "two", 20), photo(3, "three", 30)];
    assert_eq!(
        readdir_photos(0, &rows),
        Ok(vec![
            dir(PHOTO, 1, "."),
            dir(ROOT, 2, ".."),
            file(PHOTO | 1, 3, "(1) one.jpg"),
            file(PHOTO | 2, 4, "(2) two.jpg"),
            file(PHOTO | 3, 5, "(3) three.jpg"),
        ])
    );
}

#[test]
fn relisting_from_position_two_gives_the_rows_alone() {
    let rows = vec![photo(1, "one", 10), photo(2, "two", 20), photo(3, "three", 30)];
    let whole = readdir_photos(0, &rows).unwrap();
    let again = readdir_photos(2, &rows).unwrap();
    assert_eq!(again.len(), 3);
    assert_eq!(again[..], whole[2..]);
    assert_eq!(readdir_photos(1, &rows).unwrap(), again);
}

#[test]
fn a_listing_resumes_after_the_entry_whose_position_it_is_given() {
    let catalog: Vec<MediaRow> = (1..=250u64).map(|id| photo(id, "t", id as i64)).collect();
    let mut seen: Vec<DirEntry> = Vec::new();
    let mut offset: i64 = 0;
    loop {
        let skip = skip_of(offset) as usize;
        let end = if skip + 100 < catalog.len() { skip + 100 } else { catalog.len() };
        let rows: Vec<MediaRow> = catalog[skip..end].to_vec();
        let page = readdir_photos(offset, &rows).unwrap();
        if page.is_empty() {
            break;
        }
        offset = page[page.len() - 1].next_offset;
        seen.extend(page);
    }
    assert_eq!(seen.len(), 252);
    for (position, entry) in seen.iter().enumerate() {
        assert_eq!(entry.next_offset, position as i64 + 1);
    }
    for (k, entry) in seen[2..].iter().enumerate() {
        assert_eq!(entry.ino, PHOTO | (k as u64 + 1));
    }
}

#[test]
fn a_page_holds_a_hundred_rows_at_most() {
    let rows: Vec<MediaRow> = (1..=150u64).map(|id| photo(id, "t", 0)).collect();
    let page = readdir_photos(0, &rows).unwrap();
    assert_eq!(page.len(), 102);
    assert_eq!(page[101].ino, PHOTO | 100);
    assert_eq!(page[101].next_offset, 102);
    let later = readdir_videos(7, &rows).unwrap();
    assert_eq!(later.len(), 100);
    assert_eq!(later[0].next_offset, 8);
    assert_eq!(later[99].next_offset, 107);
}

#[test]
fn positions_count_from_where_the_listing_starts() {
    let rows = vec![photo(8, "a", 0), photo(9, "b", 0)];
    assert_eq!(
        readdir_videos(40, &rows),
        Ok(vec![file(VIDEO | 8, 41, "(8) a.jpg"), file(VIDEO | 9, 42, "(9) b.jpg")])
    );
    assert_eq!(readdir_videos(40, &Vec::new()), Ok(Vec::new()));
    assert_eq!(readdir_videos(0, &Vec::new()), Ok(vec![dir(VIDEO, 1, "."), dir(ROOT, 2, "..")]));
}

#[test]
fn offsets_outside_the_listing_range_are_refused() {
    let rows = vec![photo(1, "one", 10)];
    let events = vec![EventRow { id: 1, name: String::from("e"), time_created: 0 }];
    let tags = vec![tag(1, "t")];
    let members = vec![Some(photo(1, "one", 10))];
    for offset in [-1i64, i64::MIN, MAX_OFFSET + 1, i64::MAX] {
        assert_eq!(readdir_photos(offset, &rows), Err(Failure::InvalidOffset));
        assert_eq!(readdir_videos(offset, &rows), Err(Failure::InvalidOffset));
        assert_eq!(readdir_events(offset, &events), Err(Failure::InvalidOffset));
        assert_eq!(readdir_tags(offset, &tags), Err(Failure::InvalidOffset));
        assert_eq!(readdir_tag_contents(TAG | 1, offset, &members), Err(Failure::InvalidOffset));
    }
    assert_eq!(MAX_OFFSET, i64::MAX - 100);
    let last = readdir_photos(MAX_OFFSET, &rows).unwrap();
    assert_eq!(last[0].next_offset, MAX_OFFSET + 1);
    let full: Vec<MediaRow> = (1..=100u64).map(|id| photo(id, "t", 0)).collect();
    let edge = readdir_photos(MAX_OFFSET, &full).unwrap();
    assert_eq!(edge[99].next_offset, i64::MAX);
}

#[test]
fn skipped_rows_follow_from_the_offset() {
    assert_eq!(skip_of(0), 0);
    assert_eq!(skip_of(1), 0);
    assert_eq!(skip_of(2), 0);
    assert_eq!(skip_of(3), 1);
    assert_eq!(skip_of(102), 100);
    assert_eq!(skip_of(i64::MAX), (i64::MAX - 2) as u64);
    assert_eq!(skip_of(-1), 0);
    assert_eq!(skip_of(i64::MIN), 0);
}

#[test]
fn items_are_laid_out_by_position() {
    let item = |ino: u64, name: &str| {
        Some(Item { ino, kind: FileType::RegularFile, name: String::from(name) })
    };
    let items = vec![item(11, "a"), None, item(13, "c")];
    assert_eq!(
        lay_out(77, 0, &items),
        Ok(vec![dir(77, 1, "."), dir(ROOT, 2, ".."), file(11, 3, "a"), file(13, 5, "c")])
    );
    assert_eq!(lay_out(77, 1, &items), Ok(vec![file(11, 3, "a"), file(13, 5, "c")]));
    assert_eq!(lay_out(77, 2, &items), Ok(vec![file(11, 3, "a"), file(13, 5, "c")]));
    assert_eq!(lay_out(77, 3, &items), Ok(vec![file(11, 4, "a"), file(13, 6, "c")]));
    assert_eq!(lay_out(77, 10, &vec![None, None]), Ok(Vec::new()));
    assert_eq!(lay_out(77, -1, &items), Err(Failure::InvalidOffset));
    assert_eq!(lay_out(77, MAX_OFFSET + 1, &items), Err(Failure::InvalidOffset));
    let many: Vec<Option<Item>> = (0..130u64).map(|k| item(k, "x")).collect();
    let page = lay_out(77, 2, &many).unwrap();
    assert_eq!(page.len(), 100);
    assert_eq!(page[99], file(99, 102, "x"));
}

#[test]
fn untitled_photo_is_named_by_its_time_stamp() {
    let row = MediaRow {
        id: 5,
        filename: String::from("img.JPG"),
        timestamp: 1_488_603_960,
        title: String::new(),
        filesize: 1,
    };
    let item = media_item(Table::Photo, &row, "2017-03-04 05:06");
    assert_eq!(
        item,
        Item {
            ino: PHOTO | 5,
            kind: FileType::RegularFile,
            name: String::from("(5) 2017-03-04 05:06.JPG"),
        }
    );
    let page = readdir_photos(2, &vec![row]).unwrap();
    assert_eq!(page.len(), 1);
    assert_eq!(page[0].name, format!("(5) {}.JPG", local_minute(1_488_603_960)));
    let name: Vec<char> = page[0].name.chars().collect();
    assert_eq!(name.len(), 24);
    let shape = "(5) dddd-dd-dd dd:dd.JPG";
    for (c, s) in name.iter().zip(shape.chars()) {
        if s == 'd' {
            assert!(c.is_ascii_digit());
        } else {
            assert_eq!(*c, s);
        }
    }
}

#[test]
fn titled_photo_is_named_by_its_title() {
    let row = photo(6, "Sunset", 1_488_603_960);
    assert_eq!(media_item(Table::Video, &row, "ignored").name, "(6) Sunset.jpg");
    assert_eq!(media_item(Table::Video, &row, "ignored").ino, VIDEO | 6);
    assert_eq!(readdir_videos(2, &vec![row]).unwrap()[0].name, "(6) Sunset.jpg");
}

#[test]
fn labels_fall_back_to_the_stamp() {
    assert_eq!(label("Title", "stamp"), "Title");
    assert_eq!(label("", "stamp"), "stamp");
    assert_eq!(label("", ""), "");
}

#[test]
fn stamps_show_the_local_minute() {
    for sec in [0i64, 1, 59, 60, 86_399, 1_488_603_960, 1_700_000_000, -1, -86_400, 4_102_444_800]
    {
        assert_eq!(stamp(sec), local_minute(sec));
    }
    assert_eq!(stamp(1_488_603_960).chars().count(), 16);
    assert_ne!(stamp(1_488_603_960), stamp(1_488_603_960 + 60));
    assert_eq!(stamp(1_488_603_960), stamp(1_488_603_960 + 1));
}

fn two_digits(text: &[char], low: u32, high: u32) -> bool {
    match (text[0].to_digit(10), text[1].to_digit(10)) {
        (Some(a), Some(b)) => low <= a * 10 + b && a * 10 + b <= high,
        _ => false,
    }
}

fn is_date_and_minute(text: &str) -> bool {
    let chars: Vec<char> = text.chars().collect();
    if chars.len() < 13 {
        return false;
    }
    let (year, tail) = chars.split_at(chars.len() - 12);
    let digits = if year[0] == '-' { &year[1..] } else { year };
    !digits.is_empty()
        && digits.iter().all(|c| c.is_ascii_digit())
        && tail[0] == '-'
        && two_digits(&tail[1..3], 1, 12)
        && tail[3] == '-'
        && two_digits(&tail[4..6], 1, 31)
        && tail[6] == ' '
        && two_digits(&tail[7..9], 0, 23)
        && tail[9] == ':'
        && two_digits(&tail[10..12], 0, 59)
}

#[test]
fn stamps_are_a_date_and_a_minute() {
    assert!(is_date_and_minute("2017-03-04 05:06"));
    assert!(is_date_and_minute("-1-12-31 16:00"));
    assert!(!is_date_and_minute("2017-13-04 05:06"));
    assert!(!is_date_and_minute("2017-03-04 24:06"));
    assert!(!is_date_and_minute(""));
    let mut sec: i64 = CLOCK_MIN;
    while sec <= CLOCK_MAX {
        assert!(is_date_and_minute(&stamp(sec)));
        sec += 1_234_567_891;
    }
    for sec in [CLOCK_MIN, CLOCK_MAX, -1, 0, 1, 951_782_400, 1_488_603_960, 4_102_444_799] {
        assert!(is_date_and_minute(&stamp(sec)));
    }
}

#[test]
fn untitled_rows_of_every_listing_show_a_date_and_a_minute() {
    let sec: i64 = 951_782_400;
    let untitled = MediaRow {
        id: 5,
        filename: String::from("img.JPG"),
        timestamp: sec,
        title: String::new(),
        filesize: 1,
    };
    let label = |name: &str, head: usize, tail: usize| -> String {
        let chars: Vec<char> = name.chars().collect();
        chars[head..chars.len() - tail].iter().collect()
    };
    let photos = readdir_photos(2, &vec![untitled.clone()]).unwrap();
    assert!(is_date_and_minute(&label(&photos[0].name, 4, 4)));
    let videos = readdir_videos(2, &vec![untitled.clone()]).unwrap();
    assert!(is_date_and_minute(&label(&videos[0].name, 4, 4)));
    let members = readdir_tag_contents(TAG | 1, 2, &vec![Some(untitled)]).unwrap();
    assert!(is_date_and_minute(&label(&members[0].name, 4, 4)));
    let events =
        readdir_events(2, &vec![EventRow { id: 5, name: String::new(), time_created: sec }])
            .unwrap();
    assert!(is_date_and_minute(&label(&events[0].name, 4, 0)));
    let tags = readdir_tags(
        2,
        &vec![TagRow {
            id: 5,
            name: String::from("//"),
            time_created: sec,
            photo_id_list: String::new(),
        }],
    )
    .unwrap();
    assert!(is_date_and_minute(&label(&tags[0].name, 4, 0)));
}

#[test]
fn stamps_outside_the_calendar_are_empty() {
    assert_eq!(stamp(CLOCK_MAX + 1), "");
    assert_eq!(stamp(CLOCK_MIN - 1), "");
    assert_eq!(stamp(i64::MAX), "");
    assert_eq!(stamp(i64::MIN), "");
    assert_ne!(stamp(CLOCK_MAX), "");
    assert_ne!(stamp(CLOCK_MIN), "");
    let row = MediaRow {
        id: 5,
        filename: String::from("img.JPG"),
        timestamp: i64::MAX,
        title: String::new(),
        filesize: 1,
    };
    assert_eq!(readdir_photos(2, &vec![row]).unwrap()[0].name, "(5) .JPG");
}

#[test]
fn events_are_directories_named_in_brackets() {
    let rows = vec![
        EventRow { id: 3, name: String::from("Wedding"), time_created: 5 },
        EventRow { id: 4, name: String::new(), time_created: 1_488_603_960 },
    ];
    assert_eq!(
        readdir_events(0, &rows),
        Ok(vec![
            dir(EVENT, 1, "."),
            dir(ROOT, 2, ".."),
            dir(EVENT | 3, 3, "[3] Wedding"),
            dir(EVENT | 4, 4, &format!("[4] {}", local_minute(1_488_603_960))),
        ])
    );
    assert_eq!(
        event_item(&rows[1], "2017-03-04 05:06"),
        Item {
            ino: EVENT | 4,
            kind: FileType::Directory,
            name: String::from("[4] 2017-03-04 05:06"),
        }
    );
}

#[test]
fn tags_are_listed_without_their_leading_slashes() {
    let rows = vec![tag(1, "pets"), tag(2, "/people"), tag(3, "//places")];
    assert_eq!(
        readdir_tags(0, &rows),
        Ok(vec![
            dir(TAG, 1, "."),
            dir(ROOT, 2, ".."),
            dir(TAG | 1, 3, "[1] pets"),
            dir(TAG | 2, 4, "[2] people"),
            dir(TAG | 3, 5, "[3] places"),
        ])
    );
}

#[test]
fn nested_tags_are_left_out_and_keep_their_positions() {
    let rows = vec![tag(1, "/people"), tag(2, "/people/family"), tag(3, "a/b"), tag(4, "pets")];
    assert_eq!(
        readdir_tags(0, &rows),
        Ok(vec![
            dir(TAG, 1, "."),
            dir(ROOT, 2, ".."),
            dir(TAG | 1, 3, "[1] people"),
            dir(TAG | 4, 6, "[4] pets"),
        ])
    );
    assert_eq!(tag_item(&rows[1], ""), None);
    assert_eq!(tag_item(&rows[2], ""), None);
    assert_eq!(
        tag_item(&rows[0], "stamp"),
        Some(Item { ino: TAG | 1, kind: FileType::Directory, name: String::from("[1] people") })
    );
    assert_eq!(readdir_tags(5, &rows[3..].to_vec()), Ok(vec![dir(TAG | 4, 6, "[4] pets")]));
}

#[test]
fn unnamed_tag_is_named_by_its_time_stamp() {
    let row = TagRow {
        id: 9,
        name: String::from("/"),
        time_created: 1_488_603_960,
        photo_id_list: String::new(),
    };
    assert_eq!(
        tag_item(&row, "2017-03-04 05:06"),
        Some(Item {
            ino: TAG | 9,
            kind: FileType::Directory,
            name: String::from("[9] 2017-03-04 05:06"),
        })
    );
    assert_eq!(
        readdir_tags(2, &vec![row]).unwrap()[0].name,
        format!("[9] {}", local_minute(1_488_603_960))
    );
}

#[test]
fn malformed_members_are_passed_over() {
    assert_eq!(member_ids("3,abc,5"), vec![3, 5]);
}

#[test]
fn member_lists_are_cut_at_commas() {
    assert_eq!(member_ids(""), Vec::<u64>::new());
    assert_eq!(member_ids(","), Vec::<u64>::new());
    assert_eq!(member_ids("7"), vec![7]);
    assert_eq!(member_ids("7,"), vec![7]);
    assert_eq!(member_ids(",7"), vec![7]);
    assert_eq!(member_ids("1,,2"), vec![1, 2]);
    assert_eq!(member_ids("1, 2"), vec![1]);
    assert_eq!(member_ids("2,2,1"), vec![2, 2, 1]);
    assert_eq!(member_ids("thumb0000000000000001,thumb0000000000000002,"), Vec::<u64>::new());
    assert_eq!(member_ids("+4,-4,18446744073709551615,18446744073709551616"), vec![4, u64::MAX]);
}

#[test]
fn members_are_paged() {
    let list: Vec<String> = (1..=250u64).map(|id| format!("{}", id)).collect();
    let row = TagRow {
        id: 1,
        name: String::from("t"),
        time_created: 0,
        photo_id_list: list.join(",x,"),
    };
    let first = tag_members(Some(&row), 0);
    assert_eq!(first, (1..=100u64).collect::<Vec<u64>>());
    let second = tag_members(Some(&row), 100);
    assert_eq!(second, (101..=200u64).collect::<Vec<u64>>());
    let third = tag_members(Some(&row), 200);
    assert_eq!(third, (201..=250u64).collect::<Vec<u64>>());
    assert_eq!(tag_members(Some(&row), 249), vec![250]);
    assert_eq!(tag_members(Some(&row), 250), Vec::<u64>::new());
    assert_eq!(tag_members(Some(&row), u64::MAX), Vec::<u64>::new());
    assert_eq!(tag_members(None, 0), Vec::<u64>::new());
}

#[test]
fn a_tag_lists_the_photos_that_the_catalog_has() {
    let row = TagRow {
        id: 2,
        name: String::from("t"),
        time_created: 0,
        photo_id_list: String::from("3,abc,5"),
    };
    let ids = tag_members(Some(&row), 0);
    assert_eq!(ids, vec![3, 5]);
    let members: Vec<Option<MediaRow>> = ids.iter().map(|id| Some(photo(*id, "p", 0))).collect();
    assert_eq!(
        readdir_tag_contents(TAG | 2, 0, &members),
        Ok(vec![
            dir(TAG | 2, 1, "."),
            dir(ROOT, 2, ".."),
            file(PHOTO | 3, 3, "(3) p.jpg"),
            file(PHOTO | 5, 4, "(5) p.jpg"),
        ])
    );
}

#[test]
fn missing_members_are_left_out_and_keep_their_positions() {
    let members = vec![Some(photo(3, "p", 0)), None, Some(photo(5, "", i64::MIN))];
    assert_eq!(
        readdir_tag_contents(TAG | 2, 2, &members),
        Ok(vec![file(PHOTO | 3, 3, "(3) p.jpg"), file(PHOTO | 5, 5, "(5) .jpg")])
    );
    assert_eq!(readdir_tag_contents(TAG | 2, 9, &Vec::new()), Ok(Vec::new()));
}
