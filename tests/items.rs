use rss_reader::cache::CacheError;
use rss_reader::entry::{image_url, Entry, ExtensionElement};
use rss_reader::items::{resolve_news, select_entries, strip_parenthetical, FeedCause, News, RSS};
use rss_reader::parse::ParseError;

fn entry(title: &str) -> Entry {
    Entry {
        title: Some(title.to_string()),
        description: Some(format!("about {}", title)),
        link: Some(format!("http://news/{}", title)),
        author: None,
        enclosure: None,
        extensions: vec![],
    }
}

fn titles(v: &[Entry]) -> Vec<String> {
    v.iter().map(|e| e.title.clone().unwrap()).collect()
}

#[test]
fn parenthetical_is_stripped_for_g1() {
    let n = News::from(entry("Market rises (updated)"), None, false, "G1").unwrap();
    assert_eq!(n.title, "Market rises ");
}

#[test]
fn parenthetical_is_kept_elsewhere() {
    let n = News::from(entry("Market rises (updated)"), None, false, "Sputnik BR").unwrap();
    assert_eq!(n.title, "Market rises (updated)");
}

#[test]
fn strip_without_paren_keeps_all() {
    assert_eq!(strip_parenthetical("No parens here"), "No parens here");
    assert_eq!(strip_parenthetical("(all)"), "");
    assert_eq!(strip_parenthetical("a (b) (c)"), "a ");
}

#[test]
fn news_fields_and_default_author() {
    let mut e = entry("t");
    let n = News::from(e.clone(), Some("/tmp/raspi-pi-reader/x.jpg".to_string()), true, "G1").unwrap();
    assert_eq!(n.desc, "about t");
    assert_eq!(n.url, "http://news/t");
    assert_eq!(n.author, "No author found.");
    assert_eq!(n.image, Some("/tmp/raspi-pi-reader/x.jpg".to_string()));
    assert!(n.downloaded);
    assert_eq!(n.source, "G1");
    e.author = Some("Ana".to_string());
    assert_eq!(News::from(e, None, false, "G1").unwrap().author, "Ana");
}

#[test]
fn missing_fields_are_errors() {
    let mut e = entry("t");
    e.link = None;
    assert_eq!(News::from(e.clone(), None, false, "G1"), Err(FeedCause::MissingLink));
    e.description = None;
    assert_eq!(News::from(e.clone(), None, false, "G1"), Err(FeedCause::MissingDescription));
    e.title = None;
    assert_eq!(News::from(e, None, false, "G1"), Err(FeedCause::MissingTitle));
}

fn with_media(title: &str, url: &str) -> Entry {
    let mut e = entry(title);
    e.extensions = vec![ExtensionElement {
        prefix: "media".to_string(),
        name: "content".to_string(),
        attrs: vec![("medium".to_string(), "image".to_string()), ("url".to_string(), url.to_string())],
    }];
    e
}

fn channel(prefix: &str, n: usize) -> Result<Vec<Entry>, ParseError> {
    Ok((0..n).map(|i| with_media(&format!("{}{}", prefix, i), &format!("http://img/{}{}.jpg", prefix, i))).collect())
}

#[test]
fn failed_image_degrades_to_no_image() {
    let e = with_media("t", "http://img/t.jpg");
    let n = resolve_news(e.clone(), Err(CacheError::DownloadError), "G1").unwrap();
    assert_eq!(n.image, None);
    assert!(!n.downloaded);
    let n = resolve_news(e, Ok(()), "G1").unwrap();
    assert_eq!(n.image, Some("/tmp/raspi-pi-reader/t.jpg".to_string()));
    assert!(n.downloaded);
}

#[test]
fn entry_without_image_gets_none() {
    let mut e = entry("t");
    e.enclosure = Some("http://img/e.jpg".to_string());
    let n = resolve_news(e.clone(), Ok(()), "G1").unwrap();
    assert_eq!(n.image, None);
    assert!(!n.downloaded);
    let n = resolve_news(e, Ok(()), "Sputnik BR").unwrap();
    assert_eq!(n.image, Some("/tmp/raspi-pi-reader/e.jpg".to_string()));
    assert!(n.downloaded);
}

#[test]
fn image_url_without_key_gets_none() {
    let e = with_media("t", "http://img/");
    let n = resolve_news(e, Ok(()), "G1").unwrap();
    assert_eq!(n.image, None);
    assert!(!n.downloaded);
}

#[test]
fn group_keeps_first_ten_of_fifteen() {
    let r = select_entries(vec![channel("a", 5), channel("b", 5), channel("c", 5)]).unwrap();
    assert_eq!(
        titles(&r),
        vec!["a0", "b0", "c0", "a1", "b1", "c1", "a2", "b2", "c2", "a3"]
    );
}

#[test]
fn short_group_is_kept_whole() {
    let r = select_entries(vec![channel("a", 3)]).unwrap();
    assert_eq!(titles(&r), vec!["a0", "a1", "a2"]);
}

#[test]
fn one_unreadable_channel_fails_the_group() {
    assert_eq!(select_entries(vec![channel("a", 5), Err(ParseError)]), Err(FeedCause::Unreadable));
}

#[test]
fn unequal_channels_fail_the_group() {
    assert_eq!(select_entries(vec![channel("a", 5), channel("b", 4)]), Err(FeedCause::UnequalChannels));
    assert_eq!(select_entries(vec![]), Err(FeedCause::UnequalChannels));
}

#[test]
fn g1_refresh_keeps_ten_of_fifteen() {
    let mut rss = RSS::default();
    assert!(rss.items.is_empty());
    let mut outcomes = vec![Ok(()); 10];
    outcomes[1] = Err(CacheError::DownloadError);
    let r = rss.refresh_g1(vec![channel("x (old)", 8), channel("y", 8)], outcomes);
    assert_eq!(r, Ok(()));
    assert_eq!(rss.items.len(), 10);
    assert_eq!(rss.items[0].title, "x ");
    assert_eq!(rss.items[0].image, Some("/tmp/raspi-pi-reader/x (old)0.jpg".to_string()));
    assert!(rss.items[0].downloaded);
    assert_eq!(rss.items[1].title, "y0");
    assert_eq!(rss.items[1].image, None);
    assert!(!rss.items[1].downloaded);
    assert_eq!(rss.items[9].title, "y4");
    assert_eq!(rss.items[9].source, "G1");
}

#[test]
fn sputnik_refresh_keeps_ten_of_fifteen() {
    let mut rss = RSS::default();
    let r = rss.refresh_sputnikbr(vec![channel("s", 15)], vec![Ok(()); 10]);
    assert_eq!(r, Ok(()));
    assert_eq!(titles_of(&rss.items), (0..10).map(|i| format!("s{}", i)).collect::<Vec<_>>());
    assert_eq!(rss.items[0].image, None);
    assert_eq!(rss.items[0].source, "Sputnik BR");
}

fn titles_of(v: &[News]) -> Vec<String> {
    v.iter().map(|n| n.title.clone()).collect()
}

#[test]
fn unreadable_channel_fails_the_refresh() {
    let before = News::from(entry("kept"), None, false, "G1").unwrap();
    let mut rss = RSS::from(vec![before.clone()]);
    let e = rss.refresh_g1(vec![channel("a", 5), Err(ParseError)], vec![]).unwrap_err();
    assert_eq!(e.source, "G1");
    assert_eq!(e.cause, FeedCause::Unreadable);
    let e = rss.refresh_sputnikbr(vec![Err(ParseError)], vec![]).unwrap_err();
    assert_eq!(e.source, "Sputnik BR");
    assert_eq!(e.cause, FeedCause::Unreadable);
    let e = rss.refresh_g1(vec![channel("a", 5), channel("b", 6)], vec![]).unwrap_err();
    assert_eq!(e.cause, FeedCause::UnequalChannels);
    assert_eq!(rss.items, vec![before]);
}

#[test]
fn group_refresh_is_all_or_nothing() {
    let before = News::from(entry("kept"), None, false, "Sputnik BR").unwrap();
    let mut rss = RSS::from(vec![before.clone()]);
    let mut bad = entry("bad");
    bad.description = None;
    let r = rss.refresh_sputnikbr(vec![Ok(vec![entry("good"), bad])], vec![Ok(()), Ok(())]);
    let e = r.unwrap_err();
    assert_eq!(e.source, "Sputnik BR");
    assert_eq!(e.cause, FeedCause::MissingDescription);
    assert_eq!(rss.items, vec![before]);
}

#[test]
fn media_image_is_found() {
    let mut e = entry("t");
    e.extensions = vec![
        ExtensionElement {
            prefix: "dc".to_string(),
            name: "creator".to_string(),
            attrs: vec![],
        },
        ExtensionElement {
            prefix: "media".to_string(),
            name: "content".to_string(),
            attrs: vec![
                ("medium".to_string(), "image".to_string()),
                ("url".to_string(), "http://img/t.jpg".to_string()),
            ],
        },
    ];
    e.enclosure = Some("http://img/other.jpg".to_string());
    assert_eq!(image_url(&e, "G1"), Some("http://img/t.jpg".to_string()));
    assert_eq!(image_url(&e, "Sputnik BR"), Some("http://img/other.jpg".to_string()));
}

#[test]
fn non_image_media_gives_no_image() {
    let mut e = entry("t");
    e.extensions = vec![ExtensionElement {
        prefix: "media".to_string(),
        name: "content".to_string(),
        attrs: vec![
            ("medium".to_string(), "video".to_string()),
            ("url".to_string(), "http://img/t.mp4".to_string()),
        ],
    }];
    e.enclosure = Some("http://img/e.jpg".to_string());
    assert_eq!(image_url(&e, "G1"), None);
}
