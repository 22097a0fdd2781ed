//! The camera's listings: where they are asked for and how their bodies are read.

use vstd::prelude::*;
use vstd::string::*;
use crate::error::Error;
use crate::item::{item_views, row_item, ItemView, TransferItem, BASE_URL};
use crate::text::{
    chars_of, first_occurrence, lemma_first_occurrence, same_chars, split, split_chars, views,
};

verus! {

/// The first record of every listing.
pub const VERSION_TOKEN: &'static str = "VER_100";

/// Where the listing of a directory is asked for, without the directory.
pub const LIST_ENDPOINT: &'static str = "get_imglist.cgi?DIR=";

/// Where the camera's transfer order is asked for.
pub const ORDER_ENDPOINT: &'static str = "get_rsvimglist.cgi";

/// What separates the records of a listing: carriage return, line feed.
pub open spec fn record_break() -> Seq<char> {
    seq!['\r', '\n']
}

/// The entries that a run of records describes, in order. Empty records are
/// passed over; one record that describes no entry spoils the whole run.
pub open spec fn rows_items(rows: Seq<Seq<char>>) -> Option<Seq<ItemView>>
    decreases rows.len(),
{
    if rows.len() == 0 {
        Some(Seq::empty())
    } else {
        match rows_items(rows.drop_last()) {
            None => None,
            Some(items) => if rows.last().len() == 0 {
                Some(items)
            } else {
                match row_item(rows.last()) {
                    Some(item) => Some(items.push(item)),
                    None => None,
                }
            },
        }
    }
}

/// The entries that a listing's body describes: the body is cut into records
/// at every carriage return and line feed, the first record is the version
/// token and nothing else, and the rest describe the entries.
pub open spec fn listing_items(body: Seq<char>) -> Option<Seq<ItemView>> {
    let rows = split(body, record_break());
    if rows[0] == VERSION_TOKEN@ {
        rows_items(rows.skip(1))
    } else {
        None
    }
}

/// Reads the body of a listing.
pub fn parse_listing(body: &str) -> (parsed: Result<Vec<TransferItem>, Error>)
    ensures
        parsed is Ok <==> listing_items(body@) is Some,
        parsed matches Ok(items) ==> Some(item_views(items@)) == listing_items(body@),
        parsed matches Err(e) ==> e == Error::ProtocolError,
{
    let chars = chars_of(body);
    let breaker: Vec<char> = vec!['\r', '\n'];
    assert(breaker@ == record_break());
    let rows = split_chars(&chars, &breaker);
    let ghost all = split(body@, record_break());
    assert(views(rows@).len() == rows@.len());
    assert(rows.len() >= 1);
    assert(views(rows@)[0] == rows@[0]@);
    let token = chars_of(VERSION_TOKEN);
    if !same_chars(&rows[0], &token) {
        return Err(Error::ProtocolError);
    }
    let mut items: Vec<TransferItem> = Vec::new();
    let mut i: usize = 1;
    assert(all.skip(1).take(0) == Seq::<Seq<char>>::empty());
    assert(item_views(items@) == Seq::<ItemView>::empty());
    while i < rows.len()
        invariant
            1 <= i <= rows.len(),
            all == views(rows@),
            all == split(body@, record_break()),
            all[0] == VERSION_TOKEN@,
            rows_items(all.skip(1).take(i - 1)) == Some(item_views(items@)),
        decreases rows.len() - i,
    {
        let ghost seen = all.skip(1).take(i - 1);
        let ghost next = all.skip(1).take(i as int);
        assert(next.drop_last() == seen);
        assert(next.last() == rows@[i as int]@);
        if rows[i].len() > 0 {
            match TransferItem::from_chars(&rows[i]) {
                Ok(item) => {
                    assert(item_views(items@.push(item)) == item_views(items@).push(item@));
                    items.push(item);
                },
                Err(e) => {
                    proof {
                        lemma_rows_items_spoiled(all.skip(1), i as int);
                    }
                    return Err(e);
                },
            }
        }
        i += 1;
    }
    assert(all.skip(1).take(rows.len() - 1) == all.skip(1));
    Ok(items)
}

/// A run of records whose beginning describes no entries describes none.
pub proof fn lemma_rows_items_spoiled(rows: Seq<Seq<char>>, upto: int)
    requires
        0 <= upto <= rows.len(),
        rows_items(rows.take(upto)) is None,
    ensures
        rows_items(rows) is None,
    decreases rows.len() - upto,
{
    if upto == rows.len() {
        assert(rows.take(upto) == rows);
    } else {
        assert(rows.take(upto + 1).drop_last() == rows.take(upto));
        lemma_rows_items_spoiled(rows, upto + 1);
    }
}

/// A body that does not begin with the version token describes no entries,
/// whatever else it holds.
pub proof fn lemma_listing_needs_version(body: Seq<char>)
    requires
        !VERSION_TOKEN@.is_prefix_of(body),
    ensures
        listing_items(body) is None,
{
    lemma_first_occurrence(body, record_break());
    let at = first_occurrence(body, record_break());
    let rows = split(body, record_break());
    if rows[0] == VERSION_TOKEN@ {
        if at + 2 > body.len() {
            assert(rows[0] == body);
        } else {
            assert(rows[0] == body.take(at));
        }
        assert(VERSION_TOKEN@ == body.subrange(0, VERSION_TOKEN@.len() as int));
    }
}

/// The address of the listing of a directory of the camera.
pub fn listing_url(directory: &str) -> (url: String)
    ensures
        url@ == BASE_URL@ + LIST_ENDPOINT@ + directory@,
{
    let mut url = String::from_str(BASE_URL);
    url.append(LIST_ENDPOINT);
    url.append(directory);
    url
}

/// The address of the camera's transfer order.
pub fn order_url() -> (url: String)
    ensures
        url@ == BASE_URL@ + ORDER_ENDPOINT@,
{
    let mut url = String::from_str(BASE_URL);
    url.append(ORDER_ENDPOINT);
    url
}

} // verus!
