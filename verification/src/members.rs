//! The photos of a tag. The catalog keeps them as one text: identities
//! separated by commas.

use vstd::prelude::*;
use crate::catalog::{TagRow, PAGE_SIZE};
use crate::listing::window_spec;
use crate::text::{chars_of, find_first, parse_spec, parse_u64};

verus! {

/// What one piece of the list contributes: its number, or nothing where it
/// does not denote one.
pub open spec fn token_spec(piece: Seq<char>) -> Seq<u64> {
    match parse_spec(piece) {
        Some(id) => seq![id],
        None => Seq::empty(),
    }
}

/// The identities in `list[from..]`: the text is cut at every comma, and
/// each piece that denotes a number gives that number. The other pieces are
/// passed over.
pub open spec fn ids_from_spec(list: Seq<char>, from: int) -> Seq<u64>
    decreases list.len() - from,
{
    if from < 0 || from > list.len() {
        Seq::empty()
    } else {
        let rest = list.subrange(from, list.len() as int);
        match rest.index_of_first(',') {
            Some(comma) => if 0 <= comma < rest.len() {
                token_spec(rest.subrange(0, comma)) + ids_from_spec(list, from + comma + 1)
            } else {
                token_spec(rest)
            },
            None => token_spec(rest),
        }
    }
}

/// The identities that a tag's list of photos holds, in the order of the list.
pub open spec fn member_ids_spec(list: Seq<char>) -> Seq<u64> {
    ids_from_spec(list, 0)
}

/// The members of a tag on the page that follows its first `skip` members;
/// a tag that the catalog does not have has no members.
pub open spec fn tag_members_spec(tag: Option<TagRow>, skip: int) -> Seq<u64> {
    match tag {
        Some(row) => window_spec(member_ids_spec(row.photo_id_list@), skip, PAGE_SIZE as int),
        None => Seq::empty(),
    }
}

/// Reads the identities out of a tag's list of photos.
pub fn member_ids(list: &str) -> (ids: Vec<u64>)
    ensures
        ids@ == member_ids_spec(list@),
{
    let chars = chars_of(list);
    let len: usize = chars.len();
    let mut ids: Vec<u64> = Vec::new();
    let mut start: usize = 0;
    loop
        invariant
            start <= len == chars.len(),
            chars@ == list@,
            ids@ + ids_from_spec(chars@, start as int) == ids_from_spec(chars@, 0),
        decreases len - start,
    {
        let ghost rest = chars@.subrange(start as int, len as int);
        let ghost before = ids@;
        proof {
            rest.index_of_first_ensures(',');
        }
        match find_first(&chars, start, len, ',') {
            Some(comma) => {
                assert(rest.subrange(0, comma as int) =~= chars@.subrange(
                    start as int,
                    start + comma,
                ));
                match parse_u64(&chars, start, start + comma) {
                    Some(id) => {
                        ids.push(id);
                        assert(ids@ =~= before + seq![id]);
                    },
                    None => {
                        assert(ids@ =~= before + Seq::<u64>::empty());
                    },
                }
                assert(ids@ + ids_from_spec(chars@, start + comma + 1) =~= before + ids_from_spec(
                    chars@,
                    start as int,
                ));
                start = start + comma + 1;
            },
            None => {
                match parse_u64(&chars, start, len) {
                    Some(id) => {
                        ids.push(id);
                        assert(ids@ =~= before + seq![id]);
                    },
                    None => {
                        assert(ids@ =~= before + Seq::<u64>::empty());
                    },
                }
                assert(ids@ =~= before + ids_from_spec(chars@, start as int));
                return ids;
            },
        }
    }
}

/// The identities of the photos that a listing of a tag shows on the page
/// after the tag's first `skip` members: at most a page of them, in the
/// order of the tag's list.
pub fn tag_members(tag: Option<&TagRow>, skip: u64) -> (ids: Vec<u64>)
    ensures
        ids@ == tag_members_spec(
            match tag {
                Some(row) => Some(*row),
                None => None,
            },
            skip as int,
        ),
{
    let mut page: Vec<u64> = Vec::new();
    match tag {
        None => page,
        Some(row) => {
            let all = member_ids(row.photo_id_list.as_str());
            let len: usize = all.len();
            if skip >= len as u64 {
                assert(page@ =~= window_spec(all@, skip as int, PAGE_SIZE as int));
                return page;
            }
            let from: usize = skip as usize;
            let to: usize = if len - from > PAGE_SIZE as usize {
                from + PAGE_SIZE as usize
            } else {
                len
            };
            let mut i: usize = from;
            while i < to
                invariant
                    from <= i <= to <= len == all.len(),
                    page@ == all@.subrange(from as int, i as int),
                decreases to - i,
            {
                page.push(all[i]);
                i += 1;
            }
            page
        },
    }
}

} // verus!
