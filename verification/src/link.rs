//! Short links and the files that stand for them.

use vstd::prelude::*;
use vstd::string::*;

verus! {

/// Extension of every redirect page.
pub const PAGE_SUFFIX: &'static str = ".html";

/// A short name paired with the validated target it redirects to.
#[derive(Debug, PartialEq, Eq)]
pub struct ShortLink {
    pub name: String,
    pub target: String,
}

/// Mathematical view of a `ShortLink`.
pub struct ShortLinkView {
    pub name: Seq<char>,
    pub target: Seq<char>,
}

impl View for ShortLink {
    type V = ShortLinkView;

    open spec fn view(&self) -> ShortLinkView {
        ShortLinkView { name: self.name@, target: self.target@ }
    }
}

/// A name that can stand as one segment of a path: it holds neither a
/// separator nor a NUL character.
pub open spec fn is_path_segment(name: Seq<char>) -> bool {
    forall|i: int| 0 <= i < name.len() ==> #[trigger] name[i] != '/' && name[i] != '\0'
}

impl ShortLinkView {
    /// The link's name is a legal path segment.
    pub open spec fn wf(self) -> bool {
        is_path_segment(self.name)
    }
}

/// File name of the redirect page for `name`.
pub open spec fn page_file_text(name: Seq<char>) -> Seq<char> {
    name + PAGE_SUFFIX@
}

/// File name of the redirect page for `name`: the name followed by `.html`.
pub fn page_file(name: &str) -> (file: String)
    ensures
        file@ == page_file_text(name@),
{
    let mut file = String::from_str(name);
    file.append(PAGE_SUFFIX);
    file
}

} // verus!
