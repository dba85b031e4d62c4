//! Planning the extraction of a zip archive held in memory.
//!
//! The archive is read by the `zip` crate. What that crate reports is taken
//! on trust and named by [`parsed_entries`] and [`archive_entries`]; which
//! entries are accepted, where they go and in what order is decided here.
use vstd::prelude::*;
use crate::paths::{
    destination, is_directory_name, is_strict_descendant, lemma_destination_is_descendant,
    names_directory, sanitize,
};
use crate::progress::{lemma_percent_monotonic, percent_of, reading, Progress, ProgressTracker};

verus! {

/// `zip::ZipArchive`, carried as an opaque value.
#[verifier::external_type_specification]
#[verifier::external_body]
#[verifier::reject_recursive_types(R)]
pub struct ExZipArchive<R>(zip::ZipArchive<R>);

/// `std::io::Cursor`, carried as an opaque value.
#[verifier::external_type_specification]
#[verifier::external_body]
#[verifier::reject_recursive_types(T)]
pub struct ExCursor<T>(std::io::Cursor<T>);

/// `zip::result::ZipError`, carried as an opaque value.
#[verifier::external_type_specification]
#[verifier::external_body]
pub struct ExZipError(zip::result::ZipError);

/// What `zip::ZipArchive::new` makes of the given bytes: `None` if it refuses
/// them, otherwise the entries of the archive it returns.
pub uninterp spec fn parsed_entries(bytes: Seq<u8>) -> Option<
    Seq<(Option<Seq<char>>, Option<Seq<u8>>)>,
>;

/// The entries of an opened archive, in central-directory order. For each
/// entry: its name, or `None` if the entry cannot be located; and its
/// decoded content, or `None` if the content cannot be read.
pub uninterp spec fn archive_entries(archive: zip::ZipArchive<std::io::Cursor<Vec<u8>>>) -> Seq<
    (Option<Seq<char>>, Option<Seq<u8>>),
>;

/// Calls `zip::ZipArchive::new` on a cursor over `bytes`. The outcome is a
/// function of the bytes alone: an error exactly when `parsed_entries` is
/// `None`, otherwise an archive holding the parsed entries.
#[verifier::external_body]
fn open_archive(bytes: Vec<u8>) -> (r: Result<
    zip::ZipArchive<std::io::Cursor<Vec<u8>>>,
    zip::result::ZipError,
>)
    ensures
        match r {
            Ok(archive) => parsed_entries(bytes@) == Some(archive_entries(archive)),
            Err(_) => parsed_entries(bytes@) is None,
        },
{
    zip::ZipArchive::new(std::io::Cursor::new(bytes))
}

/// Calls `zip::ZipArchive::len`: the number of entries in the archive.
#[verifier::external_body]
fn entry_count(archive: &zip::ZipArchive<std::io::Cursor<Vec<u8>>>) -> (n: usize)
    ensures
        n == archive_entries(*archive).len(),
{
    archive.len()
}

/// Calls `zip::ZipArchive::by_index_raw` and `zip::read::ZipFile::name`: the
/// declared name of the entry, or an error if the entry cannot be located in
/// the archive. The archive's entries are unchanged.
#[verifier::external_body]
fn entry_name(archive: &mut zip::ZipArchive<std::io::Cursor<Vec<u8>>>, index: usize) -> (r: Result<
    String,
    zip::result::ZipError,
>)
    requires
        index < archive_entries(*old(archive)).len(),
    ensures
        archive_entries(*final(archive)) == archive_entries(*old(archive)),
        match r {
            Ok(name) => archive_entries(*old(archive))[index as int].0 == Some(name@),
            Err(_) => archive_entries(*old(archive))[index as int].0 is None,
        },
{
    match archive.by_index_raw(index) {
        Ok(file) => Ok(file.name().to_string()),
        Err(e) => Err(e),
    }
}

/// Calls `zip::ZipArchive::by_index_decrypt` with an empty password and reads
/// the entry to its end: the decoded content, or `None` if the entry cannot
/// be located, needs a password, uses an unsupported method, or fails to
/// decode or to match its checksum. The empty password makes an entry that
/// carries encryption data without being marked encrypted come back as a
/// failure. The archive's entries are unchanged.
#[verifier::external_body]
fn entry_content(archive: &mut zip::ZipArchive<std::io::Cursor<Vec<u8>>>, index: usize) -> (r:
    Option<Vec<u8>>)
    requires
        index < archive_entries(*old(archive)).len(),
    ensures
        archive_entries(*final(archive)) == archive_entries(*old(archive)),
        match r {
            Some(content) => archive_entries(*old(archive))[index as int].1 == Some(content@),
            None => archive_entries(*old(archive))[index as int].1 is None,
        },
{
    let mut content = Vec::new();
    match archive.by_index_decrypt(index, &[]) {
        Ok(Ok(mut file)) => match std::io::Read::read_to_end(&mut file, &mut content) {
            Ok(_) => Some(content),
            Err(_) => None,
        },
        _ => None,
    }
}

/// Why an extraction failed.
#[derive(Clone, Copy, Debug, PartialEq, Eq, Structural)]
pub enum ExtractError {
    /// The archive is malformed or holds no entries.
    Invalid,
    /// An entry's name does not resolve strictly below the root.
    UnsafePath,
    /// An entry cannot be located or its content cannot be decoded.
    EntryRead,
    /// The filesystem refused an operation.
    Io,
}

/// One filesystem action of an extraction.
#[derive(Clone, Debug, PartialEq, Eq)]
pub enum ExtractStep {
    /// Make sure the directory exists.
    CreateDir { path: String },
    /// Make sure the parent directory exists, then create or overwrite the
    /// file with the content.
    WriteFile { path: String, content: Vec<u8> },
}

/// An extraction step as plain values.
pub enum PlannedStep {
    CreateDir { path: Seq<char> },
    WriteFile { path: Seq<char>, content: Seq<u8> },
}

impl PlannedStep {
    /// The path that the step touches.
    pub open spec fn target(self) -> Seq<char> {
        match self {
            PlannedStep::CreateDir { path } => path,
            PlannedStep::WriteFile { path, .. } => path,
        }
    }
}

impl View for ExtractStep {
    type V = PlannedStep;

    open spec fn view(&self) -> PlannedStep {
        match self {
            ExtractStep::CreateDir { path } => PlannedStep::CreateDir { path: path@ },
            ExtractStep::WriteFile { path, content } => PlannedStep::WriteFile {
                path: path@,
                content: content@,
            },
        }
    }
}

impl ExtractStep {
    /// The path that the step touches.
    pub fn path(&self) -> (p: &String)
        ensures
            p@ == self@.target(),
    {
        match self {
            ExtractStep::CreateDir { path } => path,
            ExtractStep::WriteFile { path, .. } => path,
        }
    }
}

/// Where an entry goes and whether it is a directory.
#[derive(Clone, Debug, PartialEq, Eq)]
pub struct Placement {
    pub path: String,
    pub is_directory: bool,
}

/// The placement of the entry named `name` below `root`: an error if the
/// name is unsafe, otherwise the resolved path and whether the name denotes a
/// directory.
pub open spec fn placement_of(root: Seq<char>, name: Seq<char>) -> Result<
    (Seq<char>, bool),
    ExtractError,
> {
    match destination(root, name) {
        None => Err(ExtractError::UnsafePath),
        Some(path) => Ok((path, names_directory(name))),
    }
}

/// The step for one entry of an archive extracted into `root`.
///
/// An entry without a name cannot be read. A name that does not resolve
/// strictly below the root is unsafe, whatever the entry holds. A directory
/// needs no content; a file whose content cannot be decoded cannot be read.
pub open spec fn planned_step(root: Seq<char>, entry: (Option<Seq<char>>, Option<Seq<u8>>)) -> Result<
    PlannedStep,
    ExtractError,
> {
    match entry.0 {
        None => Err(ExtractError::EntryRead),
        Some(name) => match placement_of(root, name) {
            Err(e) => Err(e),
            Ok((path, true)) => Ok(PlannedStep::CreateDir { path }),
            Ok((path, false)) => match entry.1 {
                None => Err(ExtractError::EntryRead),
                Some(content) => Ok(PlannedStep::WriteFile { path, content }),
            },
        },
    }
}

/// Whatever an archive holds, a step planned for one of its entries touches
/// only a path strictly below the root.
pub proof fn lemma_planned_step_below_root(
    root: Seq<char>,
    entry: (Option<Seq<char>>, Option<Seq<u8>>),
)
    ensures
        match planned_step(root, entry) {
            Ok(step) => is_strict_descendant(root, step.target()),
            Err(_) => true,
        },
{
    if let Some(name) = entry.0 {
        lemma_destination_is_descendant(root, name);
    }
}

/// Decides where the entry named `name` goes below `root`.
pub fn place_entry(root: &str, name: &str) -> (r: Result<Placement, ExtractError>)
    ensures
        match r {
            Ok(placement) => placement_of(root@, name@) == Ok::<(Seq<char>, bool), ExtractError>(
                (placement.path@, placement.is_directory),
            ) && is_strict_descendant(root@, placement.path@),
            Err(e) => placement_of(root@, name@) == Err::<(Seq<char>, bool), ExtractError>(e),
        },
{
    match sanitize(root, name) {
        Err(_) => Err(ExtractError::UnsafePath),
        Ok(path) => Ok(Placement { path, is_directory: is_directory_name(name) }),
    }
}

/// The content as plain values.
pub open spec fn content_view(content: Option<Vec<u8>>) -> Option<Seq<u8>> {
    match content {
        Some(bytes) => Some(bytes@),
        None => None,
    }
}

/// Decides the step for an entry with the given name and content, where
/// `None` stands for content that could not be decoded.
///
/// An unsafe name is refused whatever the content; a directory becomes
/// `CreateDir` whatever the content; a file becomes `WriteFile` with its
/// content, or fails with `EntryRead` without it.
pub fn plan_step(root: &str, name: &str, content: Option<Vec<u8>>) -> (r: Result<
    ExtractStep,
    ExtractError,
>)
    ensures
        match r {
            Ok(step) => planned_step(root@, (Some(name@), content_view(content))) == Ok::<
                PlannedStep,
                ExtractError,
            >(step@) && is_strict_descendant(root@, step@.target()),
            Err(e) => planned_step(root@, (Some(name@), content_view(content))) == Err::<
                PlannedStep,
                ExtractError,
            >(e),
        },
{
    let placement = match place_entry(root, name) {
        Err(e) => {
            return Err(e);
        },
        Ok(placement) => placement,
    };
    if placement.is_directory {
        return Ok(ExtractStep::CreateDir { path: placement.path });
    }
    match content {
        None => Err(ExtractError::EntryRead),
        Some(content) => Ok(ExtractStep::WriteFile { path: placement.path, content }),
    }
}

/// An archive being extracted into a root directory, one entry at a time.
pub struct Extraction {
    archive: zip::ZipArchive<std::io::Cursor<Vec<u8>>>,
    root: String,
    tracker: ProgressTracker,
}

impl Extraction {
    /// The entries of the archive, in archive order.
    pub closed spec fn entries(&self) -> Seq<(Option<Seq<char>>, Option<Seq<u8>>)> {
        archive_entries(self.archive)
    }

    /// The root that entries are placed below.
    pub closed spec fn root(&self) -> Seq<char> {
        self.root@
    }

    /// The number of entries already handed out.
    pub closed spec fn position(&self) -> nat {
        self.tracker.processed()
    }

    /// The archive is not empty and the position lies within it.
    pub closed spec fn wf(&self) -> bool {
        &&& self.tracker.total() == archive_entries(self.archive).len()
        &&& 0 < self.tracker.total() <= usize::MAX
        &&& self.tracker.processed() <= self.tracker.total()
    }

    /// Opens the archive held in `bytes` for extraction into `root`.
    ///
    /// Fails with `Invalid` exactly when the bytes are not a well-formed
    /// archive or the archive holds no entry.
    pub fn open(bytes: Vec<u8>, root: &str) -> (r: Result<Extraction, ExtractError>)
        ensures
            match r {
                Ok(extraction) => {
                    &&& extraction.wf()
                    &&& parsed_entries(bytes@) == Some(extraction.entries())
                    &&& extraction.entries().len() > 0
                    &&& extraction.root() == root@
                    &&& extraction.position() == 0
                },
                Err(e) => {
                    &&& e == ExtractError::Invalid
                    &&& (parsed_entries(bytes@) is None || parsed_entries(bytes@)->0.len() == 0)
                },
            },
    {
        match open_archive(bytes) {
            Err(_) => Err(ExtractError::Invalid),
            Ok(archive) => {
                let count = entry_count(&archive);
                if count == 0 {
                    Err(ExtractError::Invalid)
                } else {
                    Ok(
                        Extraction {
                            archive,
                            root: root.to_owned(),
                            tracker: ProgressTracker::new(count as u64),
                        },
                    )
                }
            },
        }
    }

    /// The number of entries in the archive.
    pub fn total(&self) -> (n: u64)
        requires
            self.wf(),
        ensures
            n == self.entries().len(),
            n > 0,
    {
        self.tracker.declared_total()
    }

    /// The number of entries already handed out.
    pub fn processed(&self) -> (n: u64)
        requires
            self.wf(),
        ensures
            n == self.position(),
            n <= self.entries().len(),
    {
        self.tracker.done()
    }

    /// The share of entries handed out so far: `position * 100 / total`,
    /// rounded down.
    pub fn progress(&self) -> (p: Progress)
        requires
            self.wf(),
        ensures
            p == reading(self.position(), self.entries().len()),
            p is Measured,
            p.value() == (self.position() * 100) / self.entries().len(),
    {
        let p = self.tracker.progress();
        proof {
            let done = self.position();
            let total = self.entries().len();
            assert((done * 100) / total <= 100) by (nonlinear_arith)
                requires
                    done <= total,
                    total > 0,
            ;
        }
        p
    }

    /// Hands out the step for the next entry.
    ///
    /// Returns `None` once every entry has been handed out. Otherwise the
    /// entry at the current position decides: `Ok` with its step, after which
    /// the position has moved on by one, or `Err` with the reason, after which
    /// the extraction is where it was. The path of every step lies strictly
    /// below the root.
    pub fn next_step(&mut self) -> (r: Option<Result<ExtractStep, ExtractError>>)
        requires
            old(self).wf(),
        ensures
            final(self).wf(),
            final(self).entries() == old(self).entries(),
            final(self).root() == old(self).root(),
            match r {
                None => {
                    &&& old(self).position() == old(self).entries().len()
                    &&& final(self).position() == old(self).position()
                },
                Some(Ok(step)) => {
                    &&& old(self).position() < old(self).entries().len()
                    &&& planned_step(
                        old(self).root(),
                        old(self).entries()[old(self).position() as int],
                    ) == Ok::<PlannedStep, ExtractError>(step@)
                    &&& is_strict_descendant(old(self).root(), step@.target())
                    &&& final(self).position() == old(self).position() + 1
                    &&& percent_of(old(self).position(), old(self).entries().len()) <= percent_of(
                        final(self).position(),
                        final(self).entries().len(),
                    )
                },
                Some(Err(e)) => {
                    &&& old(self).position() < old(self).entries().len()
                    &&& planned_step(
                        old(self).root(),
                        old(self).entries()[old(self).position() as int],
                    ) == Err::<PlannedStep, ExtractError>(e)
                    &&& final(self).position() == old(self).position()
                },
            },
    {
        let at = self.tracker.done();
        if at >= self.tracker.declared_total() {
            return None;
        }
        proof {
            lemma_percent_monotonic(at as nat, at as nat + 1, self.tracker.total());
        }
        let index = at as usize;
        let name = match entry_name(&mut self.archive, index) {
            Err(_) => {
                return Some(Err(ExtractError::EntryRead));
            },
            Ok(name) => name,
        };
        let content = if is_directory_name(name.as_str()) {
            None
        } else {
            entry_content(&mut self.archive, index)
        };
        match plan_step(self.root.as_str(), name.as_str(), content) {
            Err(e) => Some(Err(e)),
            Ok(step) => {
                self.tracker.advance(1);
                Some(Ok(step))
            },
        }
    }
}

} // verus!
