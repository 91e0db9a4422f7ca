//! Extracting the archive of a distribution: what is decided, entry by
//! entry, while another part of the program reads the archive and writes the
//! files.

use crate::error::PackagingError;
use crate::paths::{
    absolute_path, dedotted_path, extended_path, file_name_of, joined_path, parent_path, path_dedot,
    path_extend, path_file_name, path_is_absolute, path_join, path_parent, path_starts_with,
    path_within,
};
use crate::text::{str_ends_with, text_ends_with};
use vstd::prelude::*;

verus! {

/// Where a symbolic link of an archive lies and where it points.
pub struct LinkView {
    /// The file that the link points to.
    pub source: Seq<char>,
    /// The file that the link is.
    pub dest: Seq<char>,
}

/// What comes of resolving a symbolic link.
pub enum LinkResolution {
    /// The link lies within the root and points into it.
    Within(LinkView),
    /// A path that has to be absolute is not.
    NotAbsolute,
    /// The place of the link has no parent.
    NoParent,
    /// The link points out of the root.
    Outside,
}

/// Resolves the symbolic link at `entry_path` of an archive that is
/// extracted to `root`, which points to `link_name`. The link lies at
/// `entry_path` below the root; it points to `link_name`, taken from the
/// directory that the link lies in. Both are freed of their dot segments.
/// The link is good if what it points to lies below the root.
pub open spec fn link_resolution(
    root: Seq<char>,
    entry_path: Seq<char>,
    link_name: Seq<char>,
) -> LinkResolution {
    let raw_dest = extended_path(root, entry_path);
    if !absolute_path(raw_dest) {
        LinkResolution::NotAbsolute
    } else {
        let dest = dedotted_path(raw_dest);
        match parent_path(dest) {
            None => LinkResolution::NoParent,
            Some(dir) => {
                let raw_source = extended_path(dir, link_name);
                if !absolute_path(raw_source) {
                    LinkResolution::NotAbsolute
                } else {
                    let source = dedotted_path(raw_source);
                    if path_within(source, root) {
                        LinkResolution::Within(LinkView { source, dest })
                    } else {
                        LinkResolution::Outside
                    }
                }
            },
        }
    }
}

/// Whether a failure agrees with the resolution of a link. The failure to
/// free a path of its dot segments is the platform's; it comes only where
/// the place of the link is an absolute path, since no other path is handed
/// to the platform.
pub open spec fn failure_agrees(
    e: PackagingError,
    root: Seq<char>,
    entry_path: Seq<char>,
    link_name: Seq<char>,
) -> bool {
    let resolution = link_resolution(root, entry_path, link_name);
    match e {
        PackagingError::Dedot(_) => absolute_path(extended_path(root, entry_path)),
        PackagingError::NotAbsolute => resolution is NotAbsolute,
        PackagingError::NoParent => resolution is NoParent,
        PackagingError::MaliciousSymlink => resolution is Outside,
        _ => false,
    }
}

/// Whether a result agrees with the resolution of a link.
pub open spec fn resolved_as(
    r: Result<(String, String), PackagingError>,
    root: Seq<char>,
    entry_path: Seq<char>,
    link_name: Seq<char>,
) -> bool {
    match r {
        Ok((source, dest)) => link_resolution(root, entry_path, link_name)
            == LinkResolution::Within(LinkView { source: source@, dest: dest@ }),
        Err(e) => failure_agrees(e, root, entry_path, link_name),
    }
}

/// What the place of a link gives: `freed` is what came of freeing the place
/// of its dot segments, the path or the text of a failure. The link points to
/// `link_name`, taken from the directory that the link lies in; that path has
/// to be absolute. The result is the place of the link and the path that it
/// points to, not yet freed of its dot segments.
pub open spec fn target_found(
    r: Result<(String, String), PackagingError>,
    freed: Result<String, String>,
    link_name: Seq<char>,
) -> bool {
    match freed {
        Err(text) => r matches Err(PackagingError::Dedot(t)) && t@ == text@,
        Ok(dest) => match parent_path(dest@) {
            None => r == Err::<(String, String), PackagingError>(PackagingError::NoParent),
            Some(dir) => if absolute_path(extended_path(dir, link_name)) {
                r matches Ok(found) && found.0@ == dest@ && found.1@ == extended_path(
                    dir,
                    link_name,
                )
            } else {
                r == Err::<(String, String), PackagingError>(PackagingError::NotAbsolute)
            },
        },
    }
}

/// Where a link at a place points: takes what came of freeing the place of
/// the link of its dot segments, and gives the place and the path that the
/// link points to, still with its dot segments.
pub fn link_target(freed: Result<String, String>, link_name: &str) -> (r: Result<
    (String, String),
    PackagingError,
>)
    ensures
        target_found(r, freed, link_name@),
{
    let dest = match freed {
        Ok(dest) => dest,
        Err(text) => {
            return Err(PackagingError::Dedot(text));
        },
    };
    let dir = match path_parent(dest.as_str()) {
        Some(dir) => dir,
        None => {
            return Err(PackagingError::NoParent);
        },
    };
    let raw_source = path_extend(dir.as_str(), link_name);
    if !path_is_absolute(raw_source.as_str()) {
        return Err(PackagingError::NotAbsolute);
    }
    Ok((dest, raw_source))
}

/// What the check of a link gives: `freed` is what came of freeing the path
/// that the link points to of its dot segments, the path or the text of a
/// failure. The link is good if that path lies below `root`; then the result
/// is that path and the place of the link.
pub open spec fn link_checked(
    r: Result<(String, String), PackagingError>,
    root: Seq<char>,
    dest: Seq<char>,
    freed: Result<String, String>,
) -> bool {
    match freed {
        Err(text) => r matches Err(PackagingError::Dedot(t)) && t@ == text@,
        Ok(source) => if path_within(source@, root) {
            r matches Ok(found) && found.0@ == source@ && found.1@ == dest
        } else {
            r == Err::<(String, String), PackagingError>(PackagingError::MaliciousSymlink)
        },
    }
}

/// Checks a link: takes the place of the link and what came of freeing the
/// path that it points to of its dot segments. A link that points out of
/// `root` is malicious.
pub fn check_link(root: &str, dest: String, freed: Result<String, String>) -> (r: Result<
    (String, String),
    PackagingError,
>)
    ensures
        link_checked(r, root@, dest@, freed),
{
    let source = match freed {
        Ok(source) => source,
        Err(text) => {
            return Err(PackagingError::Dedot(text));
        },
    };
    if !path_starts_with(source.as_str(), root) {
        return Err(PackagingError::MaliciousSymlink);
    }
    Ok((source, dest))
}

/// Resolves a symbolic link of an archive: where it lies and where it points,
/// if that is below `root`. A link whose place is no absolute path is refused
/// before the platform is asked anything. Whether a path can be freed of its
/// dot segments is the platform's to say; what follows from what it says is
/// stated by `link_target` and `check_link`.
pub fn resolve_symlink(root: &str, entry_path: &str, link_name: &str) -> (r: Result<
    (String, String),
    PackagingError,
>)
    ensures
        !absolute_path(extended_path(root@, entry_path@)) ==> r == Err::<
            (String, String),
            PackagingError,
        >(PackagingError::NotAbsolute),
        resolved_as(r, root@, entry_path@, link_name@),
{
    let raw_dest = path_extend(root, entry_path);
    if !path_is_absolute(raw_dest.as_str()) {
        return Err(PackagingError::NotAbsolute);
    }
    let freed_dest = path_dedot(raw_dest.as_str());
    let (dest, raw_source) = match link_target(freed_dest, link_name) {
        Ok(found) => found,
        Err(e) => {
            return Err(e);
        },
    };
    let freed_source = path_dedot(raw_source.as_str());
    check_link(root, dest, freed_source)
}

/// The file whose presence says that an archive was extracted to `root`
/// already.
pub fn sentinel_path(root: &str) -> (r: String)
    ensures
        r@ == joined_path(joined_path(root@, "python"@), "PYTHON.json"@),
{
    let python = path_join(root, "python");
    path_join(python.as_str(), "PYTHON.json")
}

/// Checks that an archive is named as a distribution is: its file name ends
/// in `.tar.zst`.
pub fn check_archive_name(path: &str) -> (r: Result<(), PackagingError>)
    ensures
        match file_name_of(path@) {
            None => r == Err::<(), PackagingError>(PackagingError::NoFileName),
            Some(name) => if text_ends_with(name, ".tar.zst"@) {
                r is Ok
            } else {
                r matches Err(PackagingError::UnhandledArchiveFormat(p)) && p@ == path@
            },
        },
{
    match path_file_name(path) {
        None => Err(PackagingError::NoFileName),
        Some(name) => {
            if str_ends_with(name.as_str(), ".tar.zst") {
                Ok(())
            } else {
                Err(PackagingError::UnhandledArchiveFormat(path.to_owned()))
            }
        },
    }
}

/// What is done with an entry of the archive.
#[derive(Debug, Clone, Copy, PartialEq, Eq, Structural)]
pub enum EntryAction {
    /// The entry is unpacked below the root now.
    Unpack,
    /// The entry is a symbolic link that is replayed as a copy when all
    /// entries have been unpacked.
    CopyLater,
}

/// What is done next when an archive is to be extracted.
#[derive(Debug, Clone, Copy, PartialEq, Eq, Structural)]
pub enum ExtractionStep {
    /// Nothing: the archive was extracted before.
    Done,
    /// The entries are unpacked.
    Unpack,
}

/// The extraction of an archive to a directory, while it goes on.
#[derive(Debug)]
pub struct Extraction {
    root: String,
    copies_links: bool,
    copies: Vec<(String, String)>,
}

/// What an `Extraction` stands for.
pub struct ExtractionView {
    /// The directory that the archive is extracted to.
    pub root: Seq<char>,
    /// Whether symbolic links are replayed as copies, as on a platform
    /// without symbolic links for everybody.
    pub copies_links: bool,
    /// The copies to make when all entries have been unpacked, in the order
    /// of the entries.
    pub copies: Seq<LinkView>,
}

/// The links that a sequence of pairs stands for.
pub open spec fn links_of(v: Seq<(String, String)>) -> Seq<LinkView> {
    v.map_values(|e: (String, String)| LinkView { source: e.0@, dest: e.1@ })
}

impl View for Extraction {
    type V = ExtractionView;

    closed spec fn view(&self) -> ExtractionView {
        ExtractionView {
            root: self.root@,
            copies_links: self.copies_links,
            copies: links_of(self.copies@),
        }
    }
}

/// What holds of an extraction before and after one entry of the archive. An
/// entry that is no symbolic link is unpacked. A symbolic link is resolved:
/// if it points out of the root, the extraction fails and nothing is unpacked
/// or copied for it; else it is unpacked, or, where links are replayed as
/// copies, put down to be copied later.
pub open spec fn entry_handled(
    before: ExtractionView,
    after: ExtractionView,
    r: Result<EntryAction, PackagingError>,
    entry_path: Seq<char>,
    link_name: Option<Seq<char>>,
) -> bool {
    match link_name {
        None => r == Ok::<EntryAction, PackagingError>(EntryAction::Unpack) && after == before,
        Some(link) => {
            let resolution = link_resolution(before.root, entry_path, link);
            match r {
                Err(e) => after == before && failure_agrees(e, before.root, entry_path, link),
                Ok(action) => resolution is Within && if before.copies_links {
                    action == EntryAction::CopyLater && after == (ExtractionView {
                        copies: before.copies.push(resolution->Within_0),
                        ..before
                    })
                } else {
                    action == EntryAction::Unpack && after == before
                },
            }
        },
    }
}

/// A symbolic link that points out of the root makes the extraction fail,
/// with a failure of integrity, and nothing is unpacked or put down to be
/// copied for it.
pub proof fn law_link_outside_fails(
    before: ExtractionView,
    after: ExtractionView,
    r: Result<EntryAction, PackagingError>,
    entry_path: Seq<char>,
    link_name: Seq<char>,
)
    requires
        link_resolution(before.root, entry_path, link_name) is Outside,
        entry_handled(before, after, r, entry_path, Some(link_name)),
    ensures
        r is Err,
        r->Err_0.kind_spec() == crate::error::ErrorKind::Integrity,
        after == before,
{
}

impl Extraction {
    /// What is done first: nothing where the sentinel file exists, since the
    /// archive was extracted before.
    pub fn first_step(sentinel_exists: bool) -> (r: ExtractionStep)
        ensures
            r == if sentinel_exists {
                ExtractionStep::Done
            } else {
                ExtractionStep::Unpack
            },
    {
        if sentinel_exists {
            ExtractionStep::Done
        } else {
            ExtractionStep::Unpack
        }
    }

    /// The extraction to `root`, an absolute path, before its first entry.
    pub fn new(root: &str, copies_links: bool) -> (r: Self)
        ensures
            r@ == (ExtractionView { root: root@, copies_links, copies: Seq::empty() }),
    {
        let r = Extraction { root: root.to_owned(), copies_links, copies: Vec::new() };
        assert(r@.copies =~= Seq::empty());
        r
    }

    /// Decides what is done with the entry at `entry_path`, which is a
    /// symbolic link to `link_name` if that is given.
    pub fn on_entry(&mut self, entry_path: &str, link_name: Option<&str>) -> (r: Result<
        EntryAction,
        PackagingError,
    >)
        ensures
            entry_handled(
                old(self)@,
                final(self)@,
                r,
                entry_path@,
                match link_name {
                    Some(l) => Some(l@),
                    None => None,
                },
            ),
    {
        match link_name {
            None => Ok(EntryAction::Unpack),
            Some(link) => {
                match resolve_symlink(self.root.as_str(), entry_path, link) {
                    Err(e) => Err(e),
                    Ok((source, dest)) => {
                        if self.copies_links {
                            let ghost before = self.copies@;
                            self.copies.push((source, dest));
                            assert(links_of(self.copies@) =~= links_of(before).push(
                                LinkView { source: source@, dest: dest@ },
                            ));
                            Ok(EntryAction::CopyLater)
                        } else {
                            Ok(EntryAction::Unpack)
                        }
                    },
                }
            },
        }
    }

    /// The copies to make now that all entries have been unpacked: for each,
    /// the file to copy and the place of the copy.
    pub fn into_copies(self) -> (r: Vec<(String, String)>)
        ensures
            links_of(r@) == self@.copies,
    {
        self.copies
    }
}

} // verus!
