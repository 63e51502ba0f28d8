//! Feed normalization, checked against chrono's own date arithmetic.

use blooming::byrbt::ByrbtRSSItem;
use blooming::time::parse_rfc2822;
use blooming::time::parse_rfc3339;
use blooming::tjupt::TjuptRSSItem;
use blooming::Byrbt;
use blooming::Error;
use blooming::Mikan;
use blooming::Tjupt;

fn byrbt_item(title: &str, pub_date: &str, link: &str) -> ByrbtRSSItem {
    ByrbtRSSItem {
        title: String::from(title),
        link: String::from(link),
        description: String::new(),
        author: String::new(),
        category: String::new(),
        comments: String::new(),
        guid: String::from(link),
        pub_date: String::from(pub_date),
    }
}

fn tjupt_item(title: &str, pub_date: &str, link: &str) -> TjuptRSSItem {
    TjuptRSSItem {
        title: String::from(title),
        description: String::new(),
        pub_date: String::from(pub_date),
        link: String::from(link),
        guid: String::from(link),
        author: String::new(),
        category: String::new(),
    }
}

fn byrbt_content(items: Vec<ByrbtRSSItem>) -> blooming::ByrbtRSSContent {
    blooming::ByrbtRSSContent {
        channel: blooming::byrbt::Channel {
            title: String::new(),
            link: String::new(),
            description: String::new(),
            language: String::new(),
            copyright: String::new(),
            managing_editor: String::new(),
            web_master: String::new(),
            pub_date: String::new(),
            generator: String::new(),
            docs: String::new(),
            items,
        },
    }
}

fn tjupt_content(items: Vec<TjuptRSSItem>) -> blooming::TjuptRSSContent {
    blooming::TjuptRSSContent {
        channel: blooming::tjupt::Channel {
            language: String::new(),
            title: String::new(),
            description: String::new(),
            image: blooming::tjupt::Image {
                url: String::new(),
                title: String::new(),
                link: String::new(),
                width: String::new(),
                height: String::new(),
                description: String::new(),
            },
            pub_date: String::new(),
            generator: String::new(),
            link: String::new(),
            copyright: String::new(),
            items,
        },
    }
}

#[test]
fn test_parse_byrbt() {
    let content = byrbt_content(vec![
        byrbt_item(
            "[大陆][三体][Three-Body.S01.2023.WEB-DL.4K.H265.AAC-venti][S01E12][MP4]",
            "Tue, 24 Jan 2023 21:29:39 +0800",
            "https://byr.pt/details.php?id=330667",
        ),
        byrbt_item(
            "[大陆][三体][Three.Body.S01.2023.2160p.DV.WEB-DL.H265.DDP5.1.Atmos-CHDWEB]",
            "Tue, 24 Jan 2023 20:21:43 +0800",
            "https://byr.pt/details.php?id=330666",
        ),
    ]);

    let items = Byrbt::parse_items(&content).unwrap();
    assert_eq!(items.len(), 2);

    assert_eq!(
        items[0].title,
        "[大陆][三体][Three-Body.S01.2023.WEB-DL.4K.H265.AAC-venti][S01E12][MP4]"
    );
    assert_eq!(items[0].url, "https://byr.pt/details.php?id=330667");
    let expected = chrono::DateTime::parse_from_rfc2822("Tue, 24 Jan 2023 21:29:39 +0800")
        .unwrap()
        .timestamp_millis();
    assert_eq!(items[0].pub_date.as_millis(), expected);

    assert_eq!(items[1].url, "https://byr.pt/details.php?id=330666");
    assert!(items[0].pub_date.gt(&items[1].pub_date));
}

#[test]
fn test_parse_tjubt() {
    let content = tjupt_content(vec![tjupt_item(
        "[Amarcord.1973.Criterion.Collection.1080p.BluRay.x264-WiKi]",
        "Mon, 03 May 2021 05:35:49 +0000",
        "https://www.tjupt.org/details.php?id=242844&hit=1",
    )]);

    let items = Tjupt::parse_items(&content).unwrap();
    assert_eq!(items.len(), 1);
    assert_eq!(items[0].title, "[Amarcord.1973.Criterion.Collection.1080p.BluRay.x264-WiKi]");
    assert_eq!(items[0].url, "https://www.tjupt.org/details.php?id=242844&hit=1");
    let expected = chrono::DateTime::parse_from_rfc2822("Mon, 03 May 2021 05:35:49 +0000")
        .unwrap()
        .timestamp_millis();
    assert_eq!(items[0].pub_date.as_millis(), expected);
}

#[test]
fn byrbt_malformed_date_is_a_parse_error() {
    let content = byrbt_content(vec![byrbt_item("t", "yesterday-ish", "u")]);
    let err = Byrbt::parse_items(&content).unwrap_err();
    assert!(matches!(err, Error::Parse(_)));
}

#[test]
fn test_parse_mikan() {
    let rss = "<rss version=\"2.0\"><channel>\
        <title>Mikan Project</title>\
        <link>https://mikanani.me</link>\
        <description>bangumi</description>\
        <item>\
          <title>【豌豆字幕组】[海盗战记 / Vinland_Saga_S2][03][简体][1080P][MP4]</title>\
          <pubDate>2023-01-24T14:34:31.721</pubDate>\
          <enclosure url=\"https://mikanani.me/Download/20230124/5dd79686.torrent\" \
              length=\"1\" type=\"application/x-bittorrent\"/>\
        </item>\
        <item>\
          <title>[ANi] The Vampire Dies in No Time S2 - 03</title>\
          <pubDate>2023-01-23T21:37:12.436</pubDate>\
          <enclosure url=\"https://mikanani.me/Download/20230123/fa2fca2b.torrent\" \
              length=\"1\" type=\"application/x-bittorrent\"/>\
        </item>\
        </channel></rss>";

    let items = Mikan::parse_items(rss.as_bytes()).unwrap();
    assert_eq!(items.len(), 2);

    assert_eq!(items[0].title, "【豌豆字幕组】[海盗战记 / Vinland_Saga_S2][03][简体][1080P][MP4]");
    assert_eq!(items[0].url, "https://mikanani.me/Download/20230124/5dd79686.torrent");
    let expected = chrono::DateTime::parse_from_rfc3339("2023-01-24T14:34:31.721+08:00")
        .unwrap()
        .timestamp_millis();
    assert_eq!(items[0].pub_date.as_millis(), expected);

    assert_eq!(items[1].title, "[ANi] The Vampire Dies in No Time S2 - 03");
    let expected = chrono::DateTime::parse_from_rfc3339("2023-01-23T21:37:12.436+08:00")
        .unwrap()
        .timestamp_millis();
    assert_eq!(items[1].pub_date.as_millis(), expected);
}

#[test]
fn mikan_item_without_enclosure_is_a_parse_error() {
    let rss = "<rss version=\"2.0\"><channel>\
        <title>t</title><link>l</link><description>d</description>\
        <item><title>x</title><pubDate>2023-01-24T14:34:31.721</pubDate></item>\
        </channel></rss>";
    let err = Mikan::parse_items(rss.as_bytes()).unwrap_err();
    assert!(matches!(err, Error::Parse(_)));
}

#[test]
fn mikan_garbage_bytes_are_a_parse_error() {
    let err = Mikan::parse_items(b"this is not xml at all").unwrap_err();
    assert!(matches!(err, Error::Parse(_)));
}

#[test]
fn rfc3339_instants_are_timezone_normalized() {
    let east = parse_rfc3339("2023-01-24T14:34:31+08:00").unwrap();
    let utc = parse_rfc3339("2023-01-24T06:34:31Z").unwrap();
    assert_eq!(east.as_millis(), utc.as_millis());
    assert!(!east.lt(&utc) && !east.gt(&utc));

    let expected = chrono::DateTime::parse_from_rfc3339("2023-01-24T14:34:31+08:00")
        .unwrap()
        .timestamp_millis();
    assert_eq!(east.as_millis(), expected);

    assert!(parse_rfc3339("2023-01-24 14:34:31").is_none());
}

#[test]
fn rfc2822_instants_match_chrono() {
    let parsed = parse_rfc2822("Mon, 03 May 2021 05:35:49 +0000").unwrap();
    let expected = chrono::DateTime::parse_from_rfc2822("Mon, 03 May 2021 05:35:49 +0000")
        .unwrap()
        .timestamp_millis();
    assert_eq!(parsed.as_millis(), expected);

    assert!(parse_rfc2822("2021-05-03T05:35:49Z").is_none());
}
