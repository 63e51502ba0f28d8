//! The TJUPT feed family: document shape, normalization, and the source.
//!
//! The surrounding application fetches each configured RSS link and
//! deserializes the XML into [`TjuptRSSContent`]; turning that content
//! into normalized items — RFC 2822 dates read as instants, the details
//! link kept as the item's URL — is verified here.

use vstd::prelude::*;
use vstd::string::StringExecFns;

use crate::config::clone_strings;
use crate::config::TjuptConfig;
use crate::errors::Error;
use crate::item::Item;
use crate::time::parse_rfc2822;
use crate::time::rfc2822_instant;
use crate::time::Timestamp;

verus! {

/// A whole TJUPT RSS document.
#[derive(Clone, Debug)]
pub struct TjuptRSSContent {
    pub channel: Channel,
}

/// The single channel of a TJUPT RSS document.
#[derive(Clone, Debug)]
pub struct Channel {
    pub language: String,
    pub title: String,
    pub description: String,
    pub image: Image,
    pub pub_date: String,
    pub generator: String,
    pub link: String,
    pub copyright: String,
    pub items: Vec<TjuptRSSItem>,
}

/// The image element of a TJUPT channel.
#[derive(Clone, Debug)]
pub struct Image {
    pub url: String,
    pub title: String,
    pub link: String,
    pub width: String,
    pub height: String,
    pub description: String,
}

/// One entry of a TJUPT channel.
#[derive(Clone, Debug)]
pub struct TjuptRSSItem {
    pub title: String,
    pub description: String,
    pub pub_date: String,
    pub link: String,
    pub guid: String,
    pub author: String,
    pub category: String,
}

/// Whether a TJUPT entry's publication date reads as an RFC 2822 date.
pub open spec fn spec_tjupt_entry_ok(it: TjuptRSSItem) -> bool {
    rfc2822_instant(it.pub_date@) is Some
}

/// The normalized item of a TJUPT entry.
pub open spec fn spec_item_of_tjupt(it: TjuptRSSItem) -> Item
    recommends
        spec_tjupt_entry_ok(it),
{
    Item {
        title: it.title,
        pub_date: Timestamp { millis: rfc2822_instant(it.pub_date@)->0 as i64 },
        url: it.link,
    }
}

impl TjuptRSSItem {
    /// The normalized item of this entry; a malformed publication date is
    /// malformed upstream content.
    pub fn to_item(&self) -> (r: Result<Item, Error>)
        ensures
            r is Ok <==> spec_tjupt_entry_ok(*self),
            r is Ok ==> r->Ok_0 == spec_item_of_tjupt(*self),
            r is Err ==> r->Err_0 is Parse,
    {
        match parse_rfc2822(self.pub_date.as_str()) {
            Some(pub_date) => Ok(
                Item { title: self.title.clone(), pub_date, url: self.link.clone() },
            ),
            None => Err(Error::Parse(String::from_str("tjupt item with malformed date"))),
        }
    }
}

/// The TJUPT feed parser.
pub struct Tjupt;

impl Tjupt {
    /// Turn one deserialized TJUPT document into normalized items.
    ///
    /// Succeeds exactly when every entry's publication date reads as an
    /// RFC 2822 date; the items keep the channel's order.
    pub fn parse_items(content: &TjuptRSSContent) -> (r: Result<Vec<Item>, Error>)
        ensures
            r is Ok <==> (forall|i: int|
                0 <= i < content.channel.items@.len() ==> spec_tjupt_entry_ok(
                    #[trigger] content.channel.items@[i],
                )),
            r is Ok ==> (r->Ok_0)@ == content.channel.items@.map_values(
                |it: TjuptRSSItem| spec_item_of_tjupt(it),
            ),
            r is Err ==> r->Err_0 is Parse,
    {
        let raw = &content.channel.items;
        let mut items: Vec<Item> = Vec::new();
        let mut i: usize = 0;
        while i < raw.len()
            invariant
                i <= raw@.len(),
                raw@ == content.channel.items@,
                forall|j: int| 0 <= j < i ==> spec_tjupt_entry_ok(#[trigger] raw@[j]),
                items@ == raw@.take(i as int).map_values(
                    |it: TjuptRSSItem| spec_item_of_tjupt(it),
                ),
            decreases raw@.len() - i,
        {
            match raw[i].to_item() {
                Ok(item) => {
                    items.push(item);
                },
                Err(e) => {
                    proof {
                        assert(!spec_tjupt_entry_ok(content.channel.items@[i as int]));
                    }
                    return Err(e);
                },
            }
            proof {
                assert(items@ =~= raw@.take(i + 1 as int).map_values(
                    |it: TjuptRSSItem| spec_item_of_tjupt(it),
                ));
            }
            i = i + 1;
        }
        proof {
            assert(raw@.take(raw@.len() as int) =~= raw@);
        }
        Ok(items)
    }
}

/// One configured TJUPT source: its RSS links and its poll interval.
pub struct TjuptSource {
    pub rsses: Vec<String>,
    pub interval: u64,
}

impl TjuptSource {
    /// A source built from its configuration.
    pub fn create(config: &TjuptConfig) -> (s: TjuptSource)
        ensures
            s.rsses@ == config.rsses@,
            s.interval == config.interval,
    {
        TjuptSource { rsses: clone_strings(&config.rsses), interval: config.interval }
    }

    /// The stable name of the source family.
    pub fn name(&self) -> (r: String)
        ensures
            r@ == "TJUPT"@,
    {
        String::from_str("TJUPT")
    }

    /// The poll interval, in seconds.
    pub fn interval(&self) -> (r: u64)
        ensures
            r == self.interval,
    {
        self.interval
    }

    /// The configured RSS subscription links.
    pub fn rsses(&self) -> (r: Vec<String>)
        ensures
            r@ == self.rsses@,
    {
        clone_strings(&self.rsses)
    }
}

} // verus!
