//! Link requests, and how they are read out of a parsed document.
//!
//! A document may hold up to three sections, one per kind of link. A section
//! that is present is a sequence of exactly two elements: the first holds
//! the source path under the key `src`, the second the destination path
//! under `dst`. Both paths are non-empty strings.

use vstd::prelude::*;
use crate::document::Node;

verus! {

/// The native operation that a request asks for.
#[derive(Debug, Clone, Copy, PartialEq, Eq, Structural)]
pub enum LinkKind {
    /// A symbolic link to a file.
    Symlink,
    /// A hard link to a file.
    Hardlink,
    /// A symbolic link to a directory.
    DirSymlink,
}

impl LinkKind {
    /// The key under which a document holds the section of this kind.
    pub open spec fn section_key(self) -> Seq<char> {
        match self {
            LinkKind::Symlink => "symlink"@,
            LinkKind::Hardlink => "hardlink"@,
            LinkKind::DirSymlink => "symlink-dir"@,
        }
    }

    /// Whether the link is to a file, by symbolic or by hard link.
    pub open spec fn links_file(self) -> bool {
        self != LinkKind::DirSymlink
    }

    /// The key under which a document holds the section of this kind.
    pub fn section_name(self) -> (name: &'static str)
        ensures
            name@ == self.section_key(),
    {
        match self {
            LinkKind::Symlink => "symlink",
            LinkKind::Hardlink => "hardlink",
            LinkKind::DirSymlink => "symlink-dir",
        }
    }

    /// Whether the link is to a file, by symbolic or by hard link.
    pub fn is_file_link(self) -> (file: bool)
        ensures
            file == self.links_file(),
    {
        match self {
            LinkKind::DirSymlink => false,
            _ => true,
        }
    }
}

/// The key of the source path in the first element of a section.
pub open spec fn source_key() -> Seq<char> {
    "src"@
}

/// The key of the destination path in the second element of a section.
pub open spec fn destination_key() -> Seq<char> {
    "dst"@
}

/// What is wrong with one path of a section.
#[derive(Debug, Clone, Copy, PartialEq, Eq, Structural)]
pub enum PathFault {
    /// The element does not hold the key.
    Missing,
    /// The key holds something other than a string.
    NotText,
    /// The key holds the empty string.
    Empty,
}

/// How a section departs from the shape of two elements.
#[derive(Debug, Clone, Copy, PartialEq, Eq, Structural)]
pub enum ShapeFault {
    /// The section is not a sequence of exactly two elements.
    NotAPair,
    /// The first element does not give a source path.
    Source(PathFault),
    /// The second element does not give a destination path.
    Destination(PathFault),
}

/// A section that is present and does not have the required shape.
#[derive(Debug, Clone, Copy, PartialEq, Eq, Structural)]
pub struct SectionShapeError {
    /// The section that is malformed.
    pub kind: LinkKind,
    /// What is wrong with it.
    pub fault: ShapeFault,
}

/// A request as a mathematical value.
pub struct LinkRequestView {
    pub kind: LinkKind,
    pub raw_src: Seq<char>,
    pub raw_dst: Seq<char>,
}

/// One link that the configuration asks for, with its paths as written.
#[derive(Debug, PartialEq, Eq)]
pub struct LinkRequest {
    kind: LinkKind,
    raw_src: String,
    raw_dst: String,
}

impl View for LinkRequest {
    type V = LinkRequestView;

    closed spec fn view(&self) -> LinkRequestView {
        LinkRequestView { kind: self.kind, raw_src: self.raw_src@, raw_dst: self.raw_dst@ }
    }
}

/// The request made of a kind and two paths, or the fault of the first path
/// that is empty.
pub open spec fn request_of(kind: LinkKind, raw_src: Seq<char>, raw_dst: Seq<char>) -> Result<
    LinkRequestView,
    ShapeFault,
> {
    if raw_src.len() == 0 {
        Err(ShapeFault::Source(PathFault::Empty))
    } else if raw_dst.len() == 0 {
        Err(ShapeFault::Destination(PathFault::Empty))
    } else {
        Ok(LinkRequestView { kind, raw_src, raw_dst })
    }
}

impl LinkRequest {
    #[verifier::type_invariant]
    spec fn paths_given(self) -> bool {
        self.raw_src@.len() > 0 && self.raw_dst@.len() > 0
    }

    /// Makes a request. Both paths must be non-empty.
    pub fn new(kind: LinkKind, raw_src: String, raw_dst: String) -> (made: Result<
        LinkRequest,
        ShapeFault,
    >)
        ensures
            match made {
                Ok(request) => request_of(kind, raw_src@, raw_dst@) == Ok::<
                    LinkRequestView,
                    ShapeFault,
                >(request@),
                Err(fault) => request_of(kind, raw_src@, raw_dst@) == Err::<
                    LinkRequestView,
                    ShapeFault,
                >(fault),
            },
    {
        if raw_src.as_str().unicode_len() == 0 {
            Err(ShapeFault::Source(PathFault::Empty))
        } else if raw_dst.as_str().unicode_len() == 0 {
            Err(ShapeFault::Destination(PathFault::Empty))
        } else {
            Ok(LinkRequest { kind, raw_src, raw_dst })
        }
    }

    /// The kind of link asked for.
    pub fn kind(&self) -> (kind: LinkKind)
        ensures
            kind == self@.kind,
    {
        self.kind
    }

    /// The source path as written; never empty.
    pub fn raw_src(&self) -> (path: &String)
        ensures
            path@ == self@.raw_src,
            path@.len() > 0,
    {
        proof {
            use_type_invariant(self);
        }
        &self.raw_src
    }

    /// The destination path as written; never empty.
    pub fn raw_dst(&self) -> (path: &String)
        ensures
            path@ == self@.raw_dst,
            path@.len() > 0,
    {
        proof {
            use_type_invariant(self);
        }
        &self.raw_dst
    }
}

/// The path that `element` gives under `key`: the string that the mapping
/// holds there, which must not be empty.
pub open spec fn path_under(element: Node, key: Seq<char>) -> Result<Seq<char>, PathFault> {
    match element.usable_entry(key) {
        None => Err(PathFault::Missing),
        Some(value) => match value.text() {
            None => Err(PathFault::NotText),
            Some(path) => if path.len() == 0 {
                Err(PathFault::Empty)
            } else {
                Ok(path)
            },
        },
    }
}

/// The request that a present section of kind `kind` makes, or the first
/// fault of its shape: the sequence itself, then the source, then the
/// destination.
pub open spec fn section_request(kind: LinkKind, section: Node) -> Result<
    LinkRequestView,
    SectionShapeError,
> {
    match section.items() {
        None => Err(SectionShapeError { kind, fault: ShapeFault::NotAPair }),
        Some(items) => if items.len() != 2 {
            Err(SectionShapeError { kind, fault: ShapeFault::NotAPair })
        } else {
            match path_under(items[0], source_key()) {
                Err(fault) => Err(SectionShapeError { kind, fault: ShapeFault::Source(fault) }),
                Ok(raw_src) => match path_under(items[1], destination_key()) {
                    Err(fault) => Err(
                        SectionShapeError { kind, fault: ShapeFault::Destination(fault) },
                    ),
                    Ok(raw_dst) => Ok(LinkRequestView { kind, raw_src, raw_dst }),
                },
            }
        },
    }
}

/// What a document yields for the section of kind `kind`: nothing where the
/// section is absent, else its request or its fault.
pub open spec fn section_outcome(doc: Node, kind: LinkKind) -> Option<
    Result<LinkRequestView, SectionShapeError>,
> {
    match doc.usable_entry(kind.section_key()) {
        None => None,
        Some(section) => Some(section_request(kind, section)),
    }
}

/// Zero or one outcome as a sequence.
pub open spec fn outcome_seq(outcome: Option<Result<LinkRequestView, SectionShapeError>>) -> Seq<
    Result<LinkRequestView, SectionShapeError>,
> {
    match outcome {
        None => Seq::empty(),
        Some(found) => seq![found],
    }
}

/// All that one document asks for: the outcomes of its sections in the
/// fixed order symbolic link, hard link, directory link.
pub open spec fn document_requests(doc: Node) -> Seq<Result<LinkRequestView, SectionShapeError>> {
    outcome_seq(section_outcome(doc, LinkKind::Symlink)) + outcome_seq(
        section_outcome(doc, LinkKind::Hardlink),
    ) + outcome_seq(section_outcome(doc, LinkKind::DirSymlink))
}

/// An extracted request or fault as a mathematical value.
pub open spec fn outcome_view(outcome: Result<LinkRequest, SectionShapeError>) -> Result<
    LinkRequestView,
    SectionShapeError,
> {
    match outcome {
        Ok(request) => Ok(request@),
        Err(error) => Err(error),
    }
}

/// A list of extracted requests and faults as mathematical values.
pub open spec fn outcome_views(outcomes: Seq<Result<LinkRequest, SectionShapeError>>) -> Seq<
    Result<LinkRequestView, SectionShapeError>,
> {
    outcomes.map_values(|outcome: Result<LinkRequest, SectionShapeError>| outcome_view(outcome))
}

/// Reads the path that `element` holds under `key`.
pub fn read_path<'a>(element: &'a Node, key: &str) -> (read: Result<&'a String, PathFault>)
    ensures
        match read {
            Ok(path) => path_under(*element, key@) == Ok::<Seq<char>, PathFault>(path@),
            Err(fault) => path_under(*element, key@) == Err::<Seq<char>, PathFault>(fault),
        },
{
    match element.find(key) {
        None => Err(PathFault::Missing),
        Some(value) => match value.as_text() {
            None => Err(PathFault::NotText),
            Some(path) => if path.as_str().unicode_len() == 0 {
                Err(PathFault::Empty)
            } else {
                Ok(path)
            },
        },
    }
}

/// Reads the request of a section that is present.
pub fn extract_request(kind: LinkKind, section: &Node) -> (extracted: Result<
    LinkRequest,
    SectionShapeError,
>)
    ensures
        outcome_view(extracted) == section_request(kind, *section),
{
    let items = match section.as_items() {
        Some(items) => items,
        None => {
            return Err(SectionShapeError { kind, fault: ShapeFault::NotAPair });
        },
    };
    if items.len() != 2 {
        return Err(SectionShapeError { kind, fault: ShapeFault::NotAPair });
    }
    let raw_src = match read_path(&items[0], "src") {
        Ok(path) => path.clone(),
        Err(fault) => {
            return Err(SectionShapeError { kind, fault: ShapeFault::Source(fault) });
        },
    };
    let raw_dst = match read_path(&items[1], "dst") {
        Ok(path) => path.clone(),
        Err(fault) => {
            return Err(SectionShapeError { kind, fault: ShapeFault::Destination(fault) });
        },
    };
    Ok(LinkRequest { kind, raw_src, raw_dst })
}

/// Reads the section of kind `kind`, if the document has one, and appends
/// its request or its fault to `found`.
pub fn read_section(
    doc: &Node,
    kind: LinkKind,
    found: &mut Vec<Result<LinkRequest, SectionShapeError>>,
)
    ensures
        outcome_views(final(found)@) == outcome_views(old(found)@) + outcome_seq(
            section_outcome(*doc, kind),
        ),
{
    match doc.find(kind.section_name()) {
        None => {
            assert(outcome_views(found@) + outcome_seq(section_outcome(*doc, kind))
                =~= outcome_views(found@));
        },
        Some(section) => {
            let outcome = extract_request(kind, section);
            found.push(outcome);
            assert(outcome_views(found@) =~= outcome_views(old(found)@) + seq![
                outcome_view(outcome),
            ]);
        },
    }
}

/// Reads all that one document asks for, section by section in the fixed
/// order. A malformed section yields its fault and does not keep the
/// others from being read.
pub fn collect_requests(doc: &Node) -> (found: Vec<Result<LinkRequest, SectionShapeError>>)
    ensures
        outcome_views(found@) == document_requests(*doc),
        found@.len() == document_requests(*doc).len(),
        forall|i: int|
            0 <= i < found@.len() ==> outcome_view(#[trigger] found@[i]) == document_requests(
                *doc,
            )[i],
{
    let mut found: Vec<Result<LinkRequest, SectionShapeError>> = Vec::new();
    read_section(doc, LinkKind::Symlink, &mut found);
    read_section(doc, LinkKind::Hardlink, &mut found);
    read_section(doc, LinkKind::DirSymlink, &mut found);
    found
}

} // verus!
