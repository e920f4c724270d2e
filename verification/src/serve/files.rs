//! Files and directories under a fixed root.
//!
//! Nothing here touches the disk. The caller looks at the path that
//! [`SimpleFiles::resolve`] names and reports what it found as a
//! [`FileProbe`] or a [`DirProbe`]; the functions of this module decide what
//! follows from it.

use crate::paths::{is_absolute, is_absolute_path, join, joined};
use vstd::prelude::*;
use vstd::string::*;

verus! {

/// What a file response is made of: the length of the file in bytes and its
/// media type. The open file itself stays with the caller.
#[derive(Debug, PartialEq, Eq)]
pub struct Payload {
    pub size: u64,
    pub media_type: String,
}

/// The mathematical value of a [`Payload`].
pub struct PayloadView {
    pub size: u64,
    pub media_type: Seq<char>,
}

impl View for Payload {
    type V = PayloadView;

    open spec fn view(&self) -> PayloadView {
        PayloadView { size: self.size, media_type: self.media_type@ }
    }
}

impl Clone for Payload {
    fn clone(&self) -> (copy: Self)
        ensures
            copy@ == self@,
    {
        Payload { size: self.size, media_type: self.media_type.clone() }
    }
}

/// The names found in one directory, subdirectories and regular files apart.
#[derive(Debug, PartialEq, Eq)]
pub struct Listing {
    pub dirs: Vec<String>,
    pub files: Vec<String>,
}

/// The mathematical value of a [`Listing`].
pub struct ListingView {
    pub dirs: Seq<Seq<char>>,
    pub files: Seq<Seq<char>>,
}

impl View for Listing {
    type V = ListingView;

    open spec fn view(&self) -> ListingView {
        ListingView { dirs: self.dirs.deep_view(), files: self.files.deep_view() }
    }
}

impl Default for Listing {
    fn default() -> (listing: Self)
        ensures
            listing@ == (ListingView { dirs: Seq::empty(), files: Seq::empty() }),
    {
        let listing = Listing { dirs: Vec::new(), files: Vec::new() };
        assert(listing.files.deep_view() =~= Seq::empty());
        listing
    }
}

/// Why an address gave no payload or listing.
#[derive(Debug, Clone, Copy, PartialEq, Eq, Structural)]
pub enum FilesError {
    /// The address, joined to the root, is an absolute path.
    AbsolutePath,
    /// The path is not an existing regular file.
    NotAFile,
    /// The path is not an existing directory.
    NotADirectory,
    /// The file could not be opened.
    Open,
    /// The length of the open file could not be read.
    Metadata,
    /// The directory could not be opened for reading.
    ReadDir,
    /// Reading the next entry of the directory failed.
    NextEntry,
    /// The type of an entry could not be read.
    FileType,
}

/// What the caller found at the path of a payload request.
#[derive(Debug, Clone, Copy, PartialEq, Eq, Structural)]
pub enum FileProbe {
    /// No regular file is there.
    NotAFile,
    /// A regular file is there, but opening it failed.
    OpenFailed,
    /// The file is open, but its metadata could not be read.
    MetadataFailed,
    /// The file is open and holds `size` bytes.
    Opened { size: u64 },
}

/// One step of reading a directory.
#[derive(Debug, PartialEq, Eq)]
pub enum DirItem {
    /// An entry that is a directory.
    Directory(String),
    /// An entry that is a regular file.
    RegularFile(String),
    /// An entry that is neither, such as a symbolic link: it is not listed.
    Other(String),
    /// An entry whose type could not be read.
    TypeFailed,
    /// The read that should have given the next entry failed.
    ReadFailed,
}

/// What the caller found at the path of a listing request.
#[derive(Debug, PartialEq, Eq)]
pub enum DirProbe {
    /// No directory is there.
    NotADirectory,
    /// A directory is there, but it could not be opened for reading.
    ReadFailed,
    /// The steps of reading the directory, in the order they were made.
    Items(Vec<DirItem>),
}

/// The first failure among `items`, if one of them is a failure.
pub open spec fn first_failure(items: Seq<DirItem>) -> Option<FilesError>
    decreases items.len(),
{
    if items.len() == 0 {
        None
    } else {
        match first_failure(items.drop_last()) {
            Some(e) => Some(e),
            None => match items.last() {
                DirItem::TypeFailed => Some(FilesError::FileType),
                DirItem::ReadFailed => Some(FilesError::NextEntry),
                _ => None,
            },
        }
    }
}

/// The names of the directories among `items`, in their order.
pub open spec fn listed_dirs(items: Seq<DirItem>) -> Seq<Seq<char>>
    decreases items.len(),
{
    if items.len() == 0 {
        Seq::empty()
    } else {
        match items.last() {
            DirItem::Directory(name) => listed_dirs(items.drop_last()).push(name@),
            _ => listed_dirs(items.drop_last()),
        }
    }
}

/// The names of the regular files among `items`, in their order.
pub open spec fn listed_files(items: Seq<DirItem>) -> Seq<Seq<char>>
    decreases items.len(),
{
    if items.len() == 0 {
        Seq::empty()
    } else {
        match items.last() {
            DirItem::RegularFile(name) => listed_files(items.drop_last()).push(name@),
            _ => listed_files(items.drop_last()),
        }
    }
}

/// The media type that `mime_guess` gives for a path, by its extension
/// alone, the path being read as on Unix-like systems.
pub uninterp spec fn guessed_media_type(path: Seq<char>) -> Seq<char>;

/// Calls `mime_guess::from_path`, takes the first guess or, where there is
/// none, `application/octet-stream`, with `MimeGuess::first_or_octet_stream`,
/// and writes it out. The guess goes by the text of the path and a table
/// inside the crate, and the disk is not consulted, so the result is the one
/// that `guessed_media_type` names; nothing more is claimed of it.
#[verifier::external_body]
fn guess_media_type(path: &str) -> (media_type: String)
    ensures
        media_type@ == guessed_media_type(path@),
{
    mime_guess::from_path(path).first_or_octet_stream().to_string()
}

/// A provider of files that serves what lies under one root directory.
pub struct SimpleFiles {
    root: String,
}

impl SimpleFiles {
    /// The root directory, as text.
    pub closed spec fn root(&self) -> Seq<char> {
        self.root@
    }

    /// The path that `address` names: the address adjoined to the root.
    pub open spec fn resolved(&self, address: Seq<char>) -> Seq<char> {
        joined(self.root(), address)
    }

    /// What a payload request for `address` comes to, given what was found
    /// on disk at the resolved path.
    pub open spec fn payload_for(&self, address: Seq<char>, probe: FileProbe) -> Result<
        PayloadView,
        FilesError,
    > {
        if is_absolute(self.resolved(address)) {
            Err(FilesError::AbsolutePath)
        } else {
            match probe {
                FileProbe::NotAFile => Err(FilesError::NotAFile),
                FileProbe::OpenFailed => Err(FilesError::Open),
                FileProbe::MetadataFailed => Err(FilesError::Metadata),
                FileProbe::Opened { size } => Ok(
                    PayloadView {
                        size,
                        media_type: guessed_media_type(self.resolved(address)),
                    },
                ),
            }
        }
    }

    /// What a listing request for `address` comes to, given what was found
    /// on disk at the resolved path.
    pub open spec fn listing_for(&self, address: Seq<char>, probe: DirProbe) -> Result<
        ListingView,
        FilesError,
    > {
        if is_absolute(self.resolved(address)) {
            Err(FilesError::AbsolutePath)
        } else {
            match probe {
                DirProbe::NotADirectory => Err(FilesError::NotADirectory),
                DirProbe::ReadFailed => Err(FilesError::ReadDir),
                DirProbe::Items(items) => match first_failure(items@) {
                    Some(e) => Err(e),
                    None => Ok(
                        ListingView { dirs: listed_dirs(items@), files: listed_files(items@) },
                    ),
                },
            }
        }
    }

    /// A provider for the files under `root`.
    pub fn new(root: &str) -> (files: Self)
        ensures
            files.root() == root@,
    {
        Self { root: String::from_str(root) }
    }

    /// The root directory.
    pub fn get_root(&self) -> (root: &str)
        ensures
            root@ == self.root(),
    {
        self.root.as_str()
    }

    /// Resolves `address` against the root and refuses it where the result
    /// is an absolute path. No segment is interpreted: `..` is kept as it is.
    pub fn resolve(&self, address: &str) -> (path: Result<String, FilesError>)
        ensures
            match path {
                Ok(p) => !is_absolute(self.resolved(address@)) && p@ == self.resolved(address@),
                Err(e) => is_absolute(self.resolved(address@)) && e == FilesError::AbsolutePath,
            },
    {
        let path = join(self.root.as_str(), address);
        if is_absolute_path(path.as_str()) {
            return Err(FilesError::AbsolutePath);
        }
        Ok(path)
    }

    /// The payload for `address`, where `probe` says what is on disk at
    /// `resolve(address)`. The probe is not looked at when the address is
    /// refused.
    pub fn get_payload(&self, address: &str, probe: FileProbe) -> (payload: Result<
        Payload,
        FilesError,
    >)
        ensures
            match payload {
                Ok(p) => self.payload_for(address@, probe) == Ok::<PayloadView, FilesError>(p@),
                Err(e) => self.payload_for(address@, probe) == Err::<PayloadView, FilesError>(e),
            },
    {
        let path = match self.resolve(address) {
            Ok(path) => path,
            Err(e) => {
                return Err(e);
            },
        };
        match probe {
            FileProbe::NotAFile => Err(FilesError::NotAFile),
            FileProbe::OpenFailed => Err(FilesError::Open),
            FileProbe::MetadataFailed => Err(FilesError::Metadata),
            FileProbe::Opened { size } => {
                let media_type = guess_media_type(path.as_str());
                Ok(Payload { size, media_type })
            },
        }
    }

    /// The listing for `address`, where `probe` says what is on disk at
    /// `resolve(address)`. The probe is not looked at when the address is
    /// refused. Reading stops at the first failure; entries that are
    /// neither directories nor regular files are left out.
    pub fn get_listing(&self, address: &str, probe: DirProbe) -> (listing: Result<
        Listing,
        FilesError,
    >)
        ensures
            match listing {
                Ok(l) => self.listing_for(address@, probe) == Ok::<ListingView, FilesError>(l@),
                Err(e) => self.listing_for(address@, probe) == Err::<ListingView, FilesError>(e),
            },
    {
        match self.resolve(address) {
            Ok(_) => {},
            Err(e) => {
                return Err(e);
            },
        }
        match probe {
            DirProbe::NotADirectory => Err(FilesError::NotADirectory),
            DirProbe::ReadFailed => Err(FilesError::ReadDir),
            DirProbe::Items(items) => Listing::from_items(&items),
        }
    }
}

impl Listing {
    /// Sorts the entries that reading a directory gave into directories and
    /// regular files, keeping their order. Reading stops at the first
    /// failure; entries that are neither are left out.
    pub fn from_items(items: &Vec<DirItem>) -> (listing: Result<Listing, FilesError>)
        ensures
            match listing {
                Ok(l) => first_failure(items@) is None && l@ == (ListingView {
                    dirs: listed_dirs(items@),
                    files: listed_files(items@),
                }),
                Err(e) => first_failure(items@) == Some(e),
            },
    {
        let mut listing = Listing::default();
        let ghost all = items@;
        let mut i: usize = 0;
        let n = items.len();
        while i < n
            invariant
                i <= n,
                n == items@.len(),
                items@ == all,
                first_failure(all.subrange(0, i as int)) is None,
                listing@.dirs == listed_dirs(all.subrange(0, i as int)),
                listing@.files == listed_files(all.subrange(0, i as int)),
            decreases n - i,
        {
            let ghost seen = all.subrange(0, i as int);
            let ghost next = all.subrange(0, i + 1);
            assert(next.drop_last() =~= seen);
            match &items[i] {
                DirItem::Directory(name) => {
                    listing.dirs.push(name.clone());
                },
                DirItem::RegularFile(name) => {
                    listing.files.push(name.clone());
                },
                DirItem::Other(_) => {},
                DirItem::TypeFailed => {
                    proof {
                        lemma_failure_stays(all, i + 1);
                    }
                    return Err(FilesError::FileType);
                },
                DirItem::ReadFailed => {
                    proof {
                        lemma_failure_stays(all, i + 1);
                    }
                    return Err(FilesError::NextEntry);
                },
            }
            i = i + 1;
        }
        assert(all.subrange(0, n as int) =~= all);
        Ok(listing)
    }
}

/// The name of an entry, where the item is one.
pub open spec fn entry_name(item: DirItem) -> Option<Seq<char>> {
    match item {
        DirItem::Directory(name) => Some(name@),
        DirItem::RegularFile(name) => Some(name@),
        DirItem::Other(name) => Some(name@),
        DirItem::TypeFailed => None,
        DirItem::ReadFailed => None,
    }
}

/// Whether no two entries among `items` have the same name.
pub open spec fn distinct_names(items: Seq<DirItem>) -> bool {
    forall|i: int, j: int|
        0 <= i < j < items.len() && entry_name(items[i]) is Some ==> entry_name(#[trigger] items[i])
            != entry_name(#[trigger] items[j])
}

/// A listing holds the directories and the regular files that were read,
/// and nothing else: a name is among `dirs` exactly where an entry of that
/// name is a directory, and among `files` exactly where one is a regular
/// file.
pub proof fn law_listing_holds_what_was_read(items: Seq<DirItem>, name: Seq<char>)
    ensures
        listed_dirs(items).contains(name) <==> exists|i: int|
            0 <= i < items.len() && (#[trigger] items[i] matches DirItem::Directory(n) && n@
                == name),
        listed_files(items).contains(name) <==> exists|i: int|
            0 <= i < items.len() && (#[trigger] items[i] matches DirItem::RegularFile(n) && n@
                == name),
    decreases items.len(),
{
    if items.len() > 0 {
        let rest = items.drop_last();
        let last = items.len() - 1;
        law_listing_holds_what_was_read(rest, name);
        assert forall|i: int| 0 <= i < rest.len() implies rest[i] == items[i] by {}
        let dirs = listed_dirs(items);
        let files = listed_files(items);
        if dirs.contains(name) {
            // the name was listed before the last item, or the last item brought it
            let k = choose|k: int| 0 <= k < dirs.len() && dirs[k] == name;
            if k < listed_dirs(rest).len() {
                assert(listed_dirs(rest)[k] == name);
            }
        }
        if files.contains(name) {
            let k = choose|k: int| 0 <= k < files.len() && files[k] == name;
            if k < listed_files(rest).len() {
                assert(listed_files(rest)[k] == name);
            }
        }
        if exists|i: int|
            0 <= i < items.len() && (#[trigger] items[i] matches DirItem::Directory(n) && n@
                == name) {
            let i = choose|i: int|
                0 <= i < items.len() && (#[trigger] items[i] matches DirItem::Directory(n) && n@
                    == name);
            if i == last {
                assert(dirs[dirs.len() - 1] == name);
            } else {
                let k = choose|k: int|
                    0 <= k < listed_dirs(rest).len() && listed_dirs(rest)[k] == name;
                assert(dirs[k] == name);
            }
        }
        if exists|i: int|
            0 <= i < items.len() && (#[trigger] items[i] matches DirItem::RegularFile(n) && n@
                == name) {
            let i = choose|i: int|
                0 <= i < items.len() && (#[trigger] items[i] matches DirItem::RegularFile(n) && n@
                    == name);
            if i == last {
                assert(files[files.len() - 1] == name);
            } else {
                let k = choose|k: int|
                    0 <= k < listed_files(rest).len() && listed_files(rest)[k] == name;
                assert(files[k] == name);
            }
        }
    }
}

/// Where no two entries of a directory have the same name, its listing
/// names nothing twice: neither list repeats a name, and no name is in
/// both.
pub proof fn law_listing_names_nothing_twice(items: Seq<DirItem>)
    requires
        distinct_names(items),
    ensures
        listed_dirs(items).no_duplicates(),
        listed_files(items).no_duplicates(),
        forall|name: Seq<char>|
            !(listed_dirs(items).contains(name) && listed_files(items).contains(name)),
    decreases items.len(),
{
    if items.len() > 0 {
        let rest = items.drop_last();
        let last = items.len() - 1;
        assert forall|i: int| 0 <= i < rest.len() implies rest[i] == items[i] by {}
        assert(distinct_names(rest));
        law_listing_names_nothing_twice(rest);
        if entry_name(items[last]) is Some {
            // the name of the last item is new: no item before it has it
            let name = entry_name(items[last])->Some_0;
            law_listing_holds_what_was_read(rest, name);
            assert(!listed_dirs(rest).contains(name) && !listed_files(rest).contains(name));
        }
        assert forall|name: Seq<char>|
            !(listed_dirs(items).contains(name) && listed_files(items).contains(name)) by {
            law_listing_holds_what_was_read(items, name);
            law_listing_holds_what_was_read(rest, name);
        }
    }
}

/// The first failure of a prefix is the first failure of the whole.
proof fn lemma_failure_stays(items: Seq<DirItem>, k: int)
    requires
        0 <= k <= items.len(),
        first_failure(items.subrange(0, k)) is Some,
    ensures
        first_failure(items) == first_failure(items.subrange(0, k)),
    decreases items.len() - k,
{
    if k < items.len() {
        let longer = items.subrange(0, k + 1);
        assert(longer.drop_last() =~= items.subrange(0, k));
        lemma_failure_stays(items, k + 1);
    } else {
        assert(items.subrange(0, k) =~= items);
    }
}

} // verus!
