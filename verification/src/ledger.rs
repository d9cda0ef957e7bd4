//! The index of all short links: one appended line per link.

use crate::artifact::{anchor, anchor_text};
use crate::link::{page_file, page_file_text, ShortLink, ShortLinkView};
use vstd::prelude::*;
use vstd::string::*;

verus! {

/// File that holds the index.
pub const LEDGER_FILE: &'static str = "index.html";

/// What every entry starts with: a new line.
pub const ENTRY_OPENING: &'static str = "\n";

/// What separates an entry's target from its link.
pub const ENTRY_SEPARATOR: &'static str = ": ";

/// Prefix that makes a file name a path relative to the index.
pub const RELATIVE_PREFIX: &'static str = "./";

/// What every entry ends with: a line break marker.
pub const ENTRY_CLOSING: &'static str = "<br/>";

/// Path of the page for `name`, relative to the index.
pub open spec fn relative_page_text(name: Seq<char>) -> Seq<char> {
    RELATIVE_PREFIX@ + page_file_text(name)
}

/// The entry for one short link: a new line, the target, and a link to the
/// page, labelled with the page's relative path, closed by a line break marker.
pub open spec fn ledger_entry_text(link: ShortLinkView) -> Seq<char> {
    ENTRY_OPENING@ + link.target + ENTRY_SEPARATOR@ + anchor_text(
        relative_page_text(link.name),
        relative_page_text(link.name),
    ) + ENTRY_CLOSING@
}

/// Renders the path of the page for `name`, relative to the index.
pub fn relative_page(name: &str) -> (path: String)
    ensures
        path@ == relative_page_text(name@),
{
    let file = page_file(name);
    let mut path = String::from_str(RELATIVE_PREFIX);
    path.append(file.as_str());
    path
}

/// Renders the entry that is appended to the index for `link`.
pub fn ledger_entry(link: &ShortLink) -> (entry: String)
    ensures
        entry@ == ledger_entry_text(link@),
{
    let path = relative_page(link.name.as_str());
    let reference = anchor(path.as_str(), path.as_str());
    let mut entry = String::from_str(ENTRY_OPENING);
    entry.append(link.target.as_str());
    entry.append(ENTRY_SEPARATOR);
    entry.append(reference.as_str());
    entry.append(ENTRY_CLOSING);
    entry
}

} // verus!
