//! Reading an RSS document into entries, through the `rss` crate.
use vstd::prelude::*;
use crate::entry::{Entry, ExtensionElement};

verus! {

#[verifier::external_type_specification]
#[verifier::external_body]
pub struct ExRssError(rss::Error);

/// Whether the `rss` crate reads these bytes as a channel.
pub uninterp spec fn rss_accepts(b: Seq<u8>) -> bool;

/// The items of the channel that the `rss` crate reads from these bytes,
/// in document order, as entries.
pub uninterp spec fn rss_entries(b: Seq<u8>) -> Seq<Entry>;

/// The document could not be read as an RSS channel.
#[derive(Debug, Clone, Copy, PartialEq, Eq, Structural)]
pub struct ParseError;

/// Relies on rss::Channel::read_from, then moves out of each item its
/// title, description, link, author, enclosure URL and extension elements
/// (by prefix, then name, then document order): reads a channel from the
/// bytes, or fails; the outcome depends on the bytes alone.
#[verifier::external_body]
fn read_entries(bytes: &[u8]) -> (r: Result<Vec<Entry>, rss::Error>)
    ensures
        r is Ok <==> rss_accepts(bytes@),
        r matches Ok(v) ==> v@ == rss_entries(bytes@),
{
    rss::Channel::read_from(bytes).map(|c| c.into_items().into_iter().map(|i| Entry {
        title: i.title,
        description: i.description,
        link: i.link,
        author: i.author,
        enclosure: i.enclosure.map(|e| e.url),
        extensions: i.extensions.into_iter().flat_map(|(p, m)| m.into_iter().flat_map(move |(n, es)| {
            let p = p.clone();
            es.into_iter().map(move |e| ExtensionElement { prefix: p.clone(), name: n.clone(), attrs: Vec::from_iter(e.attrs) })
        })).collect(),
    }).collect())
}

/// Parses an RSS document into its entries, in document order.
pub fn parse_channel(bytes: &[u8]) -> (r: Result<Vec<Entry>, ParseError>)
    ensures
        r is Ok <==> rss_accepts(bytes@),
        r matches Ok(v) ==> v@ == rss_entries(bytes@),
{
    match read_entries(bytes) {
        Err(_) => Err(ParseError),
        Ok(v) => Ok(v),
    }
}

} // verus!
