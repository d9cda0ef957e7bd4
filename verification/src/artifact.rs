//! The redirect page written for one short link.

use vstd::prelude::*;
use vstd::string::*;

verus! {

/// Opening of the refresh directive, up to the target.
pub const REFRESH_OPEN: &'static str = "<meta http-equiv=\"refresh\" content=\"0; URL=";

/// Closing of the refresh directive, after the target.
pub const REFRESH_CLOSE: &'static str = "\" />";

/// Opening of a hyperlink, up to its destination.
pub const ANCHOR_OPEN: &'static str = "<a href=\"";

/// What separates a hyperlink's destination from its label.
pub const ANCHOR_LABEL: &'static str = "\">";

/// Closing of a hyperlink, after its label.
pub const ANCHOR_CLOSE: &'static str = "</a>";

/// The page up to the refresh directive.
pub const PAGE_OPENING: &'static str = "<html>\n    <head>\n        ";

/// The page between the refresh directive and the fallback link.
pub const PAGE_MIDDLE: &'static str =
    "\n    </head>\n    <body>\n        <p>Redirecting...</p>\n        <p>If you are not redirected automatically, follow the ";

/// The page after the fallback link.
pub const PAGE_CLOSING: &'static str = "</p>\n    </body>\n</html>";

/// A hyperlink to `destination`, shown as `label`.
pub open spec fn anchor_text(destination: Seq<char>, label: Seq<char>) -> Seq<char> {
    ANCHOR_OPEN@ + destination + ANCHOR_LABEL@ + label + ANCHOR_CLOSE@
}

/// The directive that sends a browser to `target` at once.
pub open spec fn refresh_directive_text(target: Seq<char>) -> Seq<char> {
    REFRESH_OPEN@ + target + REFRESH_CLOSE@
}

/// The link a reader can follow by hand: `target` is both where it leads and
/// what it shows.
pub open spec fn fallback_link_text(target: Seq<char>) -> Seq<char> {
    anchor_text(target, target)
}

/// The whole redirect page for `target`.
pub open spec fn redirect_page_text(target: Seq<char>) -> Seq<char> {
    PAGE_OPENING@ + refresh_directive_text(target) + PAGE_MIDDLE@ + fallback_link_text(target)
        + PAGE_CLOSING@
}

/// `part` stands in `whole`, starting at position `at`.
pub open spec fn occurs_at(whole: Seq<char>, part: Seq<char>, at: int) -> bool {
    &&& 0 <= at
    &&& at + part.len() <= whole.len()
    &&& whole.subrange(at, at + part.len()) == part
}

/// Renders a hyperlink to `destination`, shown as `label`.
pub fn anchor(destination: &str, label: &str) -> (out: String)
    ensures
        out@ == anchor_text(destination@, label@),
{
    let mut out = String::from_str(ANCHOR_OPEN);
    out.append(destination);
    out.append(ANCHOR_LABEL);
    out.append(label);
    out.append(ANCHOR_CLOSE);
    out
}

/// Renders the refresh directive for `target`.
pub fn refresh_directive(target: &str) -> (out: String)
    ensures
        out@ == refresh_directive_text(target@),
{
    let mut out = String::from_str(REFRESH_OPEN);
    out.append(target);
    out.append(REFRESH_CLOSE);
    out
}

/// Renders the redirect page for `target`: a refresh directive with delay 0
/// and a fallback link, both pointing at `target`.
pub fn redirect_page(target: &str) -> (page: String)
    ensures
        page@ == redirect_page_text(target@),
{
    let directive = refresh_directive(target);
    let link = anchor(target, target);
    let mut page = String::from_str(PAGE_OPENING);
    page.append(directive.as_str());
    page.append(PAGE_MIDDLE);
    page.append(link.as_str());
    page.append(PAGE_CLOSING);
    page
}

/// Every redirect page shows its target twice over: in a refresh directive
/// right after the page's opening, and in a fallback link, whose destination
/// and label are both the target, right after the page's middle part.
pub proof fn lemma_page_shows_target(target: Seq<char>)
    ensures
        occurs_at(
            redirect_page_text(target),
            refresh_directive_text(target),
            PAGE_OPENING@.len() as int,
        ),
        occurs_at(
            redirect_page_text(target),
            anchor_text(target, target),
            (PAGE_OPENING@.len() + refresh_directive_text(target).len() + PAGE_MIDDLE@.len()) as int,
        ),
{
    let page = redirect_page_text(target);
    let directive = refresh_directive_text(target);
    let link = anchor_text(target, target);
    let a = PAGE_OPENING@.len() as int;
    let b = a + directive.len() + PAGE_MIDDLE@.len();
    assert(page.subrange(a, a + directive.len()) =~= directive);
    assert(page.subrange(b, b + link.len()) =~= link);
}

} // verus!
