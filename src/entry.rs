//! One entry of a syndication feed, as plain values, and the image that it
//! refers to.
use vstd::prelude::*;
use vstd::string::*;

verus! {

/// An extension element of a feed entry (`<media:content medium="image" .../>`).
#[derive(Debug, Clone, PartialEq, Eq)]
pub struct ExtensionElement {
    /// The namespace prefix (`media`).
    pub prefix: String,
    /// The local name (`content`).
    pub name: String,
    /// The attributes, each name once.
    pub attrs: Vec<(String, String)>,
}

/// A feed entry as the parser hands it over: every field may be absent.
#[derive(Debug, Clone, PartialEq, Eq)]
pub struct Entry {
    pub title: Option<String>,
    pub description: Option<String>,
    pub link: Option<String>,
    pub author: Option<String>,
    /// The URL of the entry's enclosure, if it has one.
    pub enclosure: Option<String>,
    /// The extension elements, grouped by prefix and then by name, each
    /// group in document order.
    pub extensions: Vec<ExtensionElement>,
}

/// The value of the first attribute named `key` in `attrs`.
pub open spec fn attr_value(attrs: Seq<(String, String)>, key: Seq<char>) -> Option<Seq<char>>
    decreases attrs.len(),
{
    if attrs.len() == 0 {
        None
    } else if attrs[0].0@ == key {
        Some(attrs[0].1@)
    } else {
        attr_value(attrs.drop_first(), key)
    }
}

/// Whether an extension element is a `media:content` element.
pub open spec fn is_media_content(e: ExtensionElement) -> bool {
    e.prefix@ == "media"@ && e.name@ == "content"@
}

/// The first `media:content` element among `exts`.
pub open spec fn first_media_content(exts: Seq<ExtensionElement>) -> Option<ExtensionElement>
    decreases exts.len(),
{
    if exts.len() == 0 {
        None
    } else if is_media_content(exts[0]) {
        Some(exts[0])
    } else {
        first_media_content(exts.drop_first())
    }
}

/// The image named by the first `media:content` element, when its `medium`
/// is `image` and it carries a `url`.
pub open spec fn media_image(exts: Seq<ExtensionElement>) -> Option<Seq<char>> {
    match first_media_content(exts) {
        Some(c) => if attr_value(c.attrs@, "medium"@) == Some("image"@) {
            attr_value(c.attrs@, "url"@)
        } else {
            None
        },
        None => None,
    }
}

/// The view of an optional string.
pub open spec fn opt_view(o: Option<String>) -> Option<Seq<char>> {
    match o {
        Some(s) => Some(s@),
        None => None,
    }
}

/// Whether the group `source` names its images by `media:content`
/// elements; the other groups name them by enclosures.
pub open spec fn uses_media(source: Seq<char>) -> bool {
    source == "G1"@
}

/// The image an entry of the group `source` refers to, if any.
pub open spec fn image_of(e: Entry, source: Seq<char>) -> Option<Seq<char>> {
    if uses_media(source) {
        media_image(e.extensions@)
    } else {
        opt_view(e.enclosure)
    }
}

/// The value of the first attribute named `key`.
pub fn find_attr(attrs: &Vec<(String, String)>, key: &str) -> (r: Option<String>)
    ensures
        opt_view(r) == attr_value(attrs@, key@),
{
    let k = String::from_str(key);
    let mut i: usize = 0;
    assert(attrs@.subrange(0, attrs@.len() as int) =~= attrs@);
    while i < attrs.len()
        invariant
            i <= attrs@.len(),
            k@ == key@,
            attr_value(attrs@, key@) == attr_value(attrs@.subrange(i as int, attrs@.len() as int), key@),
        decreases attrs@.len() - i,
    {
        let ghost rest = attrs@.subrange(i as int, attrs@.len() as int);
        if attrs[i].0 == k {
            assert(rest[0] == attrs@[i as int]);
            return Some(attrs[i].1.clone());
        }
        assert(rest.drop_first() =~= attrs@.subrange(i + 1, attrs@.len() as int));
        i = i + 1;
    }
    None
}

/// The image URL of a `media:content` element of medium `image`, found
/// as the first such element of `exts`.
pub fn find_media_image(exts: &Vec<ExtensionElement>) -> (r: Option<String>)
    ensures
        opt_view(r) == media_image(exts@),
{
    let media = String::from_str("media");
    let content = String::from_str("content");
    proof {
        reveal_strlit("media");
        reveal_strlit("content");
    }
    let mut i: usize = 0;
    assert(exts@.subrange(0, exts@.len() as int) =~= exts@);
    while i < exts.len()
        invariant
            i <= exts@.len(),
            media@ == "media"@,
            content@ == "content"@,
            first_media_content(exts@) == first_media_content(exts@.subrange(i as int, exts@.len() as int)),
        decreases exts@.len() - i,
    {
        let ghost rest = exts@.subrange(i as int, exts@.len() as int);
        let e = &exts[i];
        if e.prefix == media && e.name == content {
            assert(rest[0] == exts@[i as int]);
            let medium = find_attr(&e.attrs, "medium");
            let image = String::from_str("image");
            match medium {
                Some(m) => if m == image {
                    return find_attr(&e.attrs, "url");
                },
                None => {},
            }
            return None;
        }
        assert(rest.drop_first() =~= exts@.subrange(i + 1, exts@.len() as int));
        i = i + 1;
    }
    None
}

/// The URL of the image that `e`, an entry of the group `source`, refers to.
pub fn image_url(e: &Entry, source: &str) -> (r: Option<String>)
    ensures
        opt_view(r) == image_of(*e, source@),
{
    if String::from_str(source) == String::from_str("G1") {
        find_media_image(&e.extensions)
    } else {
        match &e.enclosure {
            Some(u) => Some(u.clone()),
            None => None,
        }
    }
}

} // verus!
