//! The Mikan feed family: from raw RSS bytes to normalized items.
//!
//! The RSS document itself is read by the `rss_for_mikan` crate behind a
//! trusted wrapper; everything after that — required fields, the local
//! publication date completed with Mikan's fixed `+08:00` offset, the
//! normalization into [`Item`] values — is verified here.

use vstd::prelude::*;
use vstd::string::StringExecFns;

use crate::errors::Error;
use crate::item::Item;
use crate::time::parse_rfc3339;
use crate::time::rfc3339_instant;
use crate::time::Timestamp;

verus! {

/// A raw feed entry as the RSS reader hands it out: each field may be
/// absent from the document.
#[derive(Clone, Debug)]
pub struct MikanFeedEntry {
    /// The entry's title text.
    pub title: Option<String>,
    /// The entry's publication date text, as written in the feed.
    pub pub_date: Option<String>,
    /// The URL of the enclosure attached to the entry.
    pub url: Option<String>,
}

/// What the RSS reader extracts from a byte sequence: `None` where the
/// bytes are not a well-formed RSS document, else the feed's entries; the
/// result depends on the bytes alone.
pub uninterp spec fn mikan_feed_of(bytes: Seq<u8>) -> Option<Seq<MikanFeedEntry>>;

/// Relies on `rss_for_mikan::Channel::read_from`: parsing is a function of
/// the document bytes alone, and hands out each entry's title, publication
/// date and enclosure URL.
#[verifier::external_body]
fn read_feed(content: &[u8]) -> (r: Result<Vec<MikanFeedEntry>, Error>)
    ensures
        r is Ok <==> mikan_feed_of(content@) is Some,
        r is Ok ==> (r->Ok_0)@ == mikan_feed_of(content@)->0,
        r is Err ==> r->Err_0 is Parse,
{
    match rss_for_mikan::Channel::read_from(content) {
        Ok(channel) => Ok(
            channel.items.into_iter().map(
                |it| MikanFeedEntry {
                    title: it.title,
                    pub_date: it.pub_date,
                    url: it.enclosure.map(|e| e.url),
                },
            ).collect(),
        ),
        Err(e) => Err(Error::Parse(e.to_string())),
    }
}

/// A Mikan publication date completed with the feed's fixed offset, ready
/// to be read as an RFC 3339 date.
pub open spec fn mikan_date_text(d: Seq<char>) -> Seq<char> {
    d + "+08:00"@
}

/// Whether a raw entry carries everything a normalized item needs.
pub open spec fn spec_entry_ok(e: MikanFeedEntry) -> bool {
    &&& e.title is Some
    &&& e.pub_date is Some
    &&& e.url is Some
    &&& rfc3339_instant(mikan_date_text(e.pub_date->0@)) is Some
}

/// The normalized item of a complete raw entry.
pub open spec fn spec_item_of_entry(e: MikanFeedEntry) -> Item
    recommends
        spec_entry_ok(e),
{
    Item {
        title: e.title->0,
        pub_date: Timestamp {
            millis: rfc3339_instant(mikan_date_text(e.pub_date->0@))->0 as i64,
        },
        url: e.url->0,
    }
}

/// The Mikan feed parser.
pub struct Mikan;

impl Mikan {
    /// Turn one fetched Mikan RSS document into normalized items.
    ///
    /// Succeeds exactly when the bytes are a well-formed RSS document and
    /// every entry carries a title, a publication date that (with the
    /// feed's fixed `+08:00` offset) reads as an RFC 3339 date, and an
    /// enclosure URL; anything else is malformed upstream content and
    /// yields a parse error.
    pub fn parse_items(content: &[u8]) -> (r: Result<Vec<Item>, Error>)
        ensures
            r is Ok <==> (mikan_feed_of(content@) is Some && forall|i: int|
                0 <= i < mikan_feed_of(content@)->0.len() ==> spec_entry_ok(
                    #[trigger] mikan_feed_of(content@)->0[i],
                )),
            r is Ok ==> (r->Ok_0)@ == mikan_feed_of(content@)->0.map_values(
                |e: MikanFeedEntry| spec_item_of_entry(e),
            ),
            r is Err ==> r->Err_0 is Parse,
    {
        let entries = match read_feed(content) {
            Ok(v) => v,
            Err(e) => {
                return Err(e);
            },
        };
        let ghost feed = mikan_feed_of(content@)->0;
        let mut items: Vec<Item> = Vec::new();
        let mut i: usize = 0;
        while i < entries.len()
            invariant
                i <= entries@.len(),
                mikan_feed_of(content@) is Some,
                feed == mikan_feed_of(content@)->0,
                entries@ == feed,
                forall|j: int| 0 <= j < i ==> spec_entry_ok(#[trigger] feed[j]),
                items@ == feed.take(i as int).map_values(
                    |e: MikanFeedEntry| spec_item_of_entry(e),
                ),
            decreases entries@.len() - i,
        {
            let entry = &entries[i];
            let title = match &entry.title {
                Some(t) => t.clone(),
                None => {
                    proof {
                        assert((i as int) < mikan_feed_of(content@)->0.len());
                        assert(!spec_entry_ok(mikan_feed_of(content@)->0[i as int]));
                    }
                    return Err(Error::Parse(String::from_str("mikan item without title")));
                },
            };
            let date = match &entry.pub_date {
                Some(d) => d.clone(),
                None => {
                    proof {
                        assert((i as int) < mikan_feed_of(content@)->0.len());
                        assert(!spec_entry_ok(mikan_feed_of(content@)->0[i as int]));
                    }
                    return Err(Error::Parse(String::from_str("mikan item without torrent date")));
                },
            };
            let url = match &entry.url {
                Some(u) => u.clone(),
                None => {
                    proof {
                        assert((i as int) < mikan_feed_of(content@)->0.len());
                        assert(!spec_entry_ok(mikan_feed_of(content@)->0[i as int]));
                    }
                    return Err(Error::Parse(String::from_str("mikan item without enclosure")));
                },
            };
            let mut dated = date;
            dated.append("+08:00");
            proof {
                assert(dated@ == mikan_date_text(entry.pub_date->0@));
            }
            let pub_date = match parse_rfc3339(dated.as_str()) {
                Some(t) => t,
                None => {
                    return Err(Error::Parse(String::from_str("mikan item with malformed date")));
                },
            };
            items.push(Item { title, pub_date, url });
            proof {
                assert(spec_entry_ok(feed[i as int]));
                assert(items@.last() == spec_item_of_entry(feed[i as int]));
                assert(items@ =~= feed.take(i + 1 as int).map_values(
                    |e: MikanFeedEntry| spec_item_of_entry(e),
                ));
            }
            i = i + 1;
        }
        proof {
            assert(feed.take(feed.len() as int) =~= feed);
        }
        Ok(items)
    }
}

} // verus!
