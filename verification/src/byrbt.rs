//! The BYRBT feed family: document shape, normalization, and the source.
//!
//! The surrounding application fetches each configured RSS link and
//! deserializes the XML into [`ByrbtRSSContent`]; turning that content
//! into normalized items — RFC 2822 dates read as instants, the details
//! link kept as the item's URL — is verified here.

use vstd::prelude::*;
use vstd::string::StringExecFns;

use crate::config::clone_strings;
use crate::config::ByrbtConfig;
use crate::errors::Error;
use crate::item::Item;
use crate::time::parse_rfc2822;
use crate::time::rfc2822_instant;
use crate::time::Timestamp;

verus! {

/// A whole BYRBT RSS document.
#[derive(Clone, Debug)]
pub struct ByrbtRSSContent {
    pub channel: Channel,
}

/// The single channel of a BYRBT RSS document.
#[derive(Clone, Debug)]
pub struct Channel {
    pub title: String,
    pub link: String,
    pub description: String,
    pub language: String,
    pub copyright: String,
    pub managing_editor: String,
    pub web_master: String,
    pub pub_date: String,
    pub generator: String,
    pub docs: String,
    pub items: Vec<ByrbtRSSItem>,
}

/// The image element of a BYRBT channel.
#[derive(Clone, Debug)]
pub struct Image {
    pub url: String,
    pub title: String,
    pub link: String,
    pub width: String,
    pub height: String,
    pub description: String,
}

/// One entry of a BYRBT channel.
#[derive(Clone, Debug)]
pub struct ByrbtRSSItem {
    pub title: String,
    pub link: String,
    pub description: String,
    pub author: String,
    pub category: String,
    pub comments: String,
    pub guid: String,
    pub pub_date: String,
}

/// Whether a BYRBT entry's publication date reads as an RFC 2822 date.
pub open spec fn spec_byrbt_entry_ok(it: ByrbtRSSItem) -> bool {
    rfc2822_instant(it.pub_date@) is Some
}

/// The normalized item of a BYRBT entry.
pub open spec fn spec_item_of_byrbt(it: ByrbtRSSItem) -> Item
    recommends
        spec_byrbt_entry_ok(it),
{
    Item {
        title: it.title,
        pub_date: Timestamp { millis: rfc2822_instant(it.pub_date@)->0 as i64 },
        url: it.link,
    }
}

impl ByrbtRSSItem {
    /// The normalized item of this entry; a malformed publication date is
    /// malformed upstream content.
    pub fn to_item(&self) -> (r: Result<Item, Error>)
        ensures
            r is Ok <==> spec_byrbt_entry_ok(*self),
            r is Ok ==> r->Ok_0 == spec_item_of_byrbt(*self),
            r is Err ==> r->Err_0 is Parse,
    {
        match parse_rfc2822(self.pub_date.as_str()) {
            Some(pub_date) => Ok(
                Item { title: self.title.clone(), pub_date, url: self.link.clone() },
            ),
            None => Err(Error::Parse(String::from_str("byrbt item with malformed date"))),
        }
    }
}

/// The BYRBT feed parser.
pub struct Byrbt;

impl Byrbt {
    /// Turn one deserialized BYRBT document into normalized items.
    ///
    /// Succeeds exactly when every entry's publication date reads as an
    /// RFC 2822 date; the items keep the channel's order.
    pub fn parse_items(content: &ByrbtRSSContent) -> (r: Result<Vec<Item>, Error>)
        ensures
            r is Ok <==> (forall|i: int|
                0 <= i < content.channel.items@.len() ==> spec_byrbt_entry_ok(
                    #[trigger] content.channel.items@[i],
                )),
            r is Ok ==> (r->Ok_0)@ == content.channel.items@.map_values(
                |it: ByrbtRSSItem| spec_item_of_byrbt(it),
            ),
            r is Err ==> r->Err_0 is Parse,
    {
        let raw = &content.channel.items;
        let mut items: Vec<Item> = Vec::new();
        let mut i: usize = 0;
        while i < raw.len()
            invariant
                i <= raw@.len(),
                raw@ == content.channel.items@,
                forall|j: int| 0 <= j < i ==> spec_byrbt_entry_ok(#[trigger] raw@[j]),
                items@ == raw@.take(i as int).map_values(
                    |it: ByrbtRSSItem| spec_item_of_byrbt(it),
                ),
            decreases raw@.len() - i,
        {
            match raw[i].to_item() {
                Ok(item) => {
                    items.push(item);
                },
                Err(e) => {
                    proof {
                        assert(!spec_byrbt_entry_ok(content.channel.items@[i as int]));
                    }
                    return Err(e);
                },
            }
            proof {
                assert(items@ =~= raw@.take(i + 1 as int).map_values(
                    |it: ByrbtRSSItem| spec_item_of_byrbt(it),
                ));
            }
            i = i + 1;
        }
        proof {
            assert(raw@.take(raw@.len() as int) =~= raw@);
        }
        Ok(items)
    }
}

/// One configured BYRBT source: its RSS links and its poll interval.
pub struct ByrbtSource {
    pub rsses: Vec<String>,
    pub interval: u64,
}

impl ByrbtSource {
    /// A source built from its configuration.
    pub fn create(config: &ByrbtConfig) -> (s: ByrbtSource)
        ensures
            s.rsses@ == config.rsses@,
            s.interval == config.interval,
    {
        ByrbtSource { rsses: clone_strings(&config.rsses), interval: config.interval }
    }

    /// The stable name of the source family.
    pub fn name(&self) -> (r: String)
        ensures
            r@ == "BYRBT"@,
    {
        String::from_str("BYRBT")
    }

    /// The poll interval, in seconds.
    pub fn interval(&self) -> (r: u64)
        ensures
            r == self.interval,
    {
        self.interval
    }

    /// The configured RSS subscription links.
    pub fn rsses(&self) -> (r: Vec<String>)
        ensures
            r@ == self.rsses@,
    {
        clone_strings(&self.rsses)
    }
}

} // verus!
