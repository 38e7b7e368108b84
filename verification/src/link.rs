//! Link destinations and the interactive regions of the flattened text.

use crate::text::starts_with_str;
use std::path::{Path, PathBuf};
use vstd::prelude::*;

verus! {

/// A destination that can be navigated to.
#[derive(Debug, Clone)]
pub enum Link {
    /// A web address.
    Web { url: String },
    /// An absolute path in the file system.
    Path { path: PathBuf },
}

/// What a region of the flattened text is: an inline code span or a stretch
/// of link text, with the destination where it resolves to one.
#[derive(Debug, Clone)]
pub struct ParsedRegion {
    pub code: bool,
    pub link: Option<Link>,
}

/// Mathematical value of a [`Link`].
pub enum LinkView {
    Web { url: Seq<char> },
    Path { path: Seq<char> },
}

/// Mathematical value of a [`ParsedRegion`].
pub struct RegionView {
    pub code: bool,
    pub link: Option<LinkView>,
}

/// `std::path::PathBuf`. Nothing inside it is visible here; the text that it
/// was made from is spoken of as [`path_text`].
#[verifier::external_type_specification]
#[verifier::external_body]
pub struct ExPathBuf(PathBuf);

/// The text that a path was made from.
pub uninterp spec fn path_text(path: PathBuf) -> Seq<char>;

impl View for Link {
    type V = LinkView;

    open spec fn view(&self) -> LinkView {
        match self {
            Link::Web { url } => LinkView::Web { url: url@ },
            Link::Path { path } => LinkView::Path { path: path_text(*path) },
        }
    }
}

/// Value of an optional link.
pub open spec fn link_view(link: Option<Link>) -> Option<LinkView> {
    match link {
        Some(link) => Some(link@),
        None => None,
    }
}

impl View for ParsedRegion {
    type V = RegionView;

    open spec fn view(&self) -> RegionView {
        RegionView { code: self.code, link: link_view(self.link) }
    }
}

/// Whether a destination counts as a web address: it begins with `http`.
/// Nothing more is asked of it, so `httpfoo` counts as well.
pub open spec fn is_web(destination: Seq<char>) -> bool {
    seq!['h', 't', 't', 'p'].is_prefix_of(destination)
}

/// The link that a destination stands for, given whether it is an absolute
/// path on this platform. Web addresses come first; a destination that is
/// neither is no link.
pub open spec fn classified(destination: Seq<char>, absolute: bool) -> Option<LinkView> {
    if is_web(destination) {
        Some(LinkView::Web { url: destination })
    } else if absolute {
        Some(LinkView::Path { path: destination })
    } else {
        None
    }
}

/// Whether `link` is an outcome that classifying `destination` can have on
/// some platform.
pub open spec fn admissible(destination: Seq<char>, link: Option<LinkView>) -> bool {
    link == classified(destination, true) || link == classified(destination, false)
}

/// `PathBuf::clone`: the copy has the text of the path.
pub assume_specification[ <PathBuf as Clone>::clone ](path: &PathBuf) -> (copy: PathBuf)
    ensures
        path_text(copy) == path_text(*path),
;

/// `PathBuf::from` for a `String`: the path with exactly that text.
#[verifier::external_body]
fn path_from_string(text: String) -> (path: PathBuf)
    ensures
        path_text(path) == text@,
{
    PathBuf::from(text)
}

/// `Path::is_absolute` for the path with the given text. What counts as
/// absolute depends on the platform, so nothing is claimed of the answer.
#[verifier::external_body]
fn is_absolute_path(text: &str) -> bool {
    Path::new(text).is_absolute()
}

impl Link {
    /// Classifies a destination, given whether it is an absolute path.
    pub fn classify(text: String, absolute: bool) -> (link: Option<Link>)
        ensures
            link_view(link) == classified(text@, absolute),
    {
        proof {
            reveal_strlit("http");
            assert("http"@ =~= seq!['h', 't', 't', 'p']);
        }
        if starts_with_str(text.as_str(), "http") {
            Some(Link::Web { url: text })
        } else if absolute {
            Some(Link::Path { path: path_from_string(text) })
        } else {
            None
        }
    }

    /// Classifies a destination: a web address, an absolute path of this
    /// platform, or no link.
    pub fn identify(text: String) -> (link: Option<Link>)
        ensures
            admissible(text@, link_view(link)),
            is_web(text@) ==> link_view(link) == Some(LinkView::Web { url: text@ }),
    {
        let absolute = is_absolute_path(text.as_str());
        Link::classify(text, absolute)
    }
}

} // verus!
