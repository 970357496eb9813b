//! Release archives: finding the executable of `tp-agent` in one.

use std::io::Read;

use vstd::prelude::*;
use vstd::string::*;

use crate::paths;
use crate::platform::Platform;
use crate::text;

verus! {

/// Whether a path in a release archive leads to the executable of `tp-agent`. An archive for
/// Windows may hold it with or without its ending.
pub open spec fn is_agent_path(platform: Platform, path: Seq<char>) -> bool {
    let name = paths::file_name(platform, path);
    ||| name == Some("tp-agent"@)
    ||| platform == Platform::Windows && name == Some("tp-agent.exe"@)
}

fn same_chars(a: &Vec<char>, b: &str) -> (r: bool)
    ensures
        r == (a@ == b@),
{
    let b_chars = text::chars_of(b);
    if a.len() != b_chars.len() {
        return false;
    }
    for i in 0..a.len()
        invariant
            b_chars@ == b@,
            a@.len() == b@.len(),
            forall|k: int| 0 <= k < i ==> a@[k] == b@[k],
    {
        if a[i] != b_chars[i] {
            return false;
        }
    }
    assert(a@ == b@);
    true
}

/// Tests whether a path in a release archive leads to the executable of `tp-agent`.
pub fn leads_to_agent(platform: Platform, path: &Vec<char>) -> (r: bool)
    ensures
        r == is_agent_path(platform, path@),
{
    match paths::file_name_of(platform, path) {
        Some(name) => same_chars(&name, "tp-agent") || (matches!(platform, Platform::Windows)
            && same_chars(&name, "tp-agent.exe")),
        None => false,
    }
}

/// An entry of an archive: its path, or why it could not be read.
pub type EntryPath = Result<Vec<char>, String>;

/// The model of an entry.
pub open spec fn entry_view(entry: EntryPath) -> Result<Seq<char>, Seq<char>> {
    match entry {
        Ok(path) => Ok(path@),
        Err(error) => Err(error@),
    }
}

/// The models of an archive's entries.
pub open spec fn entries_view(entries: Seq<EntryPath>) -> Seq<Result<Seq<char>, Seq<char>>> {
    Seq::new(entries.len(), |i: int| entry_view(entries[i]))
}

/// The first entry from `from` on that leads to the executable. An entry before it that could not
/// be read is an error, and so is it where no entry does.
pub open spec fn agent_entry(
    platform: Platform,
    entries: Seq<Result<Seq<char>, Seq<char>>>,
    from: int,
) -> Result<int, Seq<char>>
    decreases entries.len() - from,
{
    if from < 0 || from >= entries.len() {
        Err("tp-agent binary not found in release asset"@)
    } else {
        match entries[from] {
            Err(error) => Err(error),
            Ok(path) => if is_agent_path(platform, path) {
                Ok(from)
            } else {
                agent_entry(platform, entries, from + 1)
            },
        }
    }
}

/// Finds the executable among the entries of an archive.
pub fn select_agent_entry(platform: Platform, entries: &Vec<EntryPath>) -> (r: Result<
    usize,
    String,
>)
    ensures
        match r {
            Ok(i) => agent_entry(platform, entries_view(entries@), 0) == Ok::<int, Seq<char>>(
                i as int,
            ),
            Err(e) => agent_entry(platform, entries_view(entries@), 0) == Err::<int, Seq<char>>(e@),
        },
{
    let ghost all = entries_view(entries@);
    for i in 0..entries.len()
        invariant
            all == entries_view(entries@),
            agent_entry(platform, all, 0) == agent_entry(platform, all, i as int),
    {
        assert(all[i as int] == entry_view(entries@[i as int]));
        match &entries[i] {
            Err(error) => {
                return Err(error.clone());
            },
            Ok(path) => {
                if leads_to_agent(platform, path) {
                    return Ok(i);
                }
            },
        }
    }
    Err("tp-agent binary not found in release asset".to_owned())
}

/// The paths of the entries of a gzipped tar archive, each with one character for a byte, as
/// `tar::Archive::entries` yields them.
pub uninterp spec fn tar_gz_paths(archive: Seq<u8>) -> Result<
    Seq<Result<Seq<char>, Seq<char>>>,
    Seq<char>,
>;

/// The names of the entries of a zip archive, as `zip::ZipArchive::by_index` yields them.
pub uninterp spec fn zip_paths(archive: Seq<u8>) -> Result<
    Seq<Result<Seq<char>, Seq<char>>>,
    Seq<char>,
>;

/// The content of an entry of a zip archive, as `zip::ZipArchive::by_index` yields it.
pub uninterp spec fn zip_content(archive: Seq<u8>, index: int) -> Result<Seq<u8>, Seq<char>>;

/// The model of a listing.
pub open spec fn listing_view(listing: Result<Vec<EntryPath>, String>) -> Result<
    Seq<Result<Seq<char>, Seq<char>>>,
    Seq<char>,
> {
    match listing {
        Ok(entries) => Ok(entries_view(entries@)),
        Err(error) => Err(error@),
    }
}

/// The model of an entry's content.
pub open spec fn content_view(content: Result<Vec<u8>, String>) -> Result<Seq<u8>, Seq<char>> {
    match content {
        Ok(bytes) => Ok(bytes@),
        Err(error) => Err(error@),
    }
}

/// Calls `tar::Archive::entries` on a `flate2::read::GzDecoder` and `path_bytes` on each entry.
/// The result is a function of the bytes alone.
#[verifier::external_body]
pub(crate) fn list_tar_gz(archive: &[u8]) -> (r: Result<Vec<EntryPath>, String>)
    ensures
        listing_view(r) == tar_gz_paths(archive@),
{
    let mut tar = tar::Archive::new(flate2::read::GzDecoder::new(archive));
    let entries = tar.entries().map_err(|error| error.to_string())?;
    let path = |entry: tar::Entry<_>| entry.path_bytes().iter().map(|b| *b as char).collect();
    Ok(entries.map(|entry| entry.map(path).map_err(|error| error.to_string())).collect())
}

/// Calls `zip::ZipArchive::new` and, for each entry, `by_index` and `name`. The result is a
/// function of the bytes alone.
#[verifier::external_body]
pub(crate) fn list_zip(archive: &[u8]) -> (r: Result<Vec<EntryPath>, String>)
    ensures
        listing_view(r) == zip_paths(archive@),
{
    let mut zip = zip::ZipArchive::new(std::io::Cursor::new(archive)).map_err(
        |error| error.to_string(),
    )?;
    let entries = 0..zip.len();
    Ok(
        entries.map(
            |i|
                zip.by_index(i).map(|entry| entry.name().chars().collect()).map_err(
                    |error| error.to_string(),
                ),
        ).collect(),
    )
}

/// Calls `zip::ZipArchive::new`, `by_index`, and `read_to_end` on the entry. The result is a
/// function of the arguments alone.
#[verifier::external_body]
pub(crate) fn read_zip(archive: &[u8], index: usize) -> (r: Result<Vec<u8>, String>)
    ensures
        content_view(r) == zip_content(archive@, index as int),
{
    let mut zip = zip::ZipArchive::new(std::io::Cursor::new(archive)).map_err(
        |error| error.to_string(),
    )?;
    let mut entry = zip.by_index(index).map_err(|error| error.to_string())?;
    let mut content = Vec::new();
    entry.read_to_end(&mut content).map_err(|error| error.to_string())?;
    Ok(content)
}

/// The executable in an archive.
#[derive(Debug)]
pub enum Extraction {
    /// It is the entry with this number of the tar archive.
    TarEntry(usize),
    /// It is this.
    Content(Vec<u8>),
}

/// The model of the executable in an archive.
pub enum ExtractionView {
    TarEntry(int),
    Content(Seq<u8>),
}

impl View for Extraction {
    type V = ExtractionView;

    open spec fn view(&self) -> ExtractionView {
        match self {
            Extraction::TarEntry(i) => ExtractionView::TarEntry(*i as int),
            Extraction::Content(bytes) => ExtractionView::Content(bytes@),
        }
    }
}

/// The model of an attempt to find the executable.
pub open spec fn extraction_view(result: Result<Extraction, String>) -> Result<
    ExtractionView,
    Seq<char>,
> {
    match result {
        Ok(found) => Ok(found@),
        Err(error) => Err(error@),
    }
}

/// The executable in a gzipped tar archive with this listing.
pub open spec fn tar_extraction(
    platform: Platform,
    listing: Result<Seq<Result<Seq<char>, Seq<char>>>, Seq<char>>,
) -> Result<ExtractionView, Seq<char>> {
    match listing {
        Err(error) => Err(error),
        Ok(entries) => match agent_entry(platform, entries, 0) {
            Ok(i) => Ok(ExtractionView::TarEntry(i)),
            Err(error) => Err(error),
        },
    }
}

/// The number of the executable's entry in a zip archive with this listing.
pub open spec fn zip_entry(
    platform: Platform,
    listing: Result<Seq<Result<Seq<char>, Seq<char>>>, Seq<char>>,
) -> Result<int, Seq<char>> {
    match listing {
        Err(error) => Err("open zip: "@ + error),
        Ok(entries) => agent_entry(platform, entries, 0),
    }
}

/// The executable in the release archive for a platform: a zip archive for Windows, a gzipped tar
/// archive for the others.
pub open spec fn extraction(platform: Platform, archive: Seq<u8>) -> Result<
    ExtractionView,
    Seq<char>,
> {
    if platform == Platform::Windows {
        match zip_entry(platform, zip_paths(archive)) {
            Ok(i) => match zip_content(archive, i) {
                Ok(content) => Ok(ExtractionView::Content(content)),
                Err(error) => Err(error),
            },
            Err(error) => Err(error),
        }
    } else {
        tar_extraction(platform, tar_gz_paths(archive))
    }
}

/// Finds the executable in a gzipped tar archive with this listing.
pub fn find_in_tar(platform: Platform, listing: Result<Vec<EntryPath>, String>) -> (r: Result<
    Extraction,
    String,
>)
    ensures
        extraction_view(r) == tar_extraction(platform, listing_view(listing)),
{
    match listing {
        Err(error) => Err(error),
        Ok(entries) => match select_agent_entry(platform, &entries) {
            Ok(i) => Ok(Extraction::TarEntry(i)),
            Err(error) => Err(error),
        },
    }
}

/// Finds the executable's entry in a zip archive with this listing.
pub fn find_in_zip(platform: Platform, listing: Result<Vec<EntryPath>, String>) -> (r: Result<
    usize,
    String,
>)
    ensures
        match r {
            Ok(i) => zip_entry(platform, listing_view(listing)) == Ok::<int, Seq<char>>(i as int),
            Err(e) => zip_entry(platform, listing_view(listing)) == Err::<int, Seq<char>>(e@),
        },
{
    match listing {
        Err(error) => {
            let mut message = "open zip: ".to_owned();
            message.append(error.as_str());
            Err(message)
        },
        Ok(entries) => select_agent_entry(platform, &entries),
    }
}

/// Finds the executable of `tp-agent` in the release archive for a platform.
pub fn extract_tp_agent(platform: Platform, archive: &[u8]) -> (r: Result<Extraction, String>)
    ensures
        extraction_view(r) == extraction(platform, archive@),
{
    if matches!(platform, Platform::Windows) {
        match find_in_zip(platform, list_zip(archive)) {
            Ok(i) => match read_zip(archive, i) {
                Ok(content) => Ok(Extraction::Content(content)),
                Err(error) => Err(error),
            },
            Err(error) => Err(error),
        }
    } else {
        find_in_tar(platform, list_tar_gz(archive))
    }
}

proof fn lemma_agent_entry(
    platform: Platform,
    entries: Seq<Result<Seq<char>, Seq<char>>>,
    from: int,
    i: int,
)
    requires
        0 <= from <= i < entries.len(),
        entries[i] is Ok,
        is_agent_path(platform, entries[i]->Ok_0),
        forall|k: int|
            from <= k < i ==> (#[trigger] entries[k]) is Ok && !is_agent_path(
                platform,
                entries[k]->Ok_0,
            ),
    ensures
        agent_entry(platform, entries, from) == Ok::<int, Seq<char>>(i),
    decreases i - from,
{
    if from < i {
        assert(entries[from] is Ok);
        lemma_agent_entry(platform, entries, from + 1, i);
    }
}

/// Where an archive holds the executable, and everything before it can be read, the first entry
/// that leads to it is found; nothing behind it matters.
pub proof fn law_first_matching_entry_is_found(
    platform: Platform,
    entries: Seq<Result<Seq<char>, Seq<char>>>,
    i: int,
)
    requires
        0 <= i < entries.len(),
        entries[i] is Ok,
        is_agent_path(platform, entries[i]->Ok_0),
        forall|k: int|
            0 <= k < i ==> (#[trigger] entries[k]) is Ok && !is_agent_path(
                platform,
                entries[k]->Ok_0,
            ),
    ensures
        agent_entry(platform, entries, 0) == Ok::<int, Seq<char>>(i),
{
    lemma_agent_entry(platform, entries, 0, i);
}

/// A path leads to the executable by its last name alone: `tp-agent` on every platform,
/// `tp-agent.exe` on Windows only.
pub proof fn law_executable_is_known_by_its_name(
    platform: Platform,
    path: Seq<char>,
    other: Seq<char>,
)
    ensures
        paths::file_name(platform, path) == Some("tp-agent"@) ==> is_agent_path(platform, path),
        paths::file_name(Platform::Windows, path) == Some("tp-agent.exe"@) ==> is_agent_path(
            Platform::Windows,
            path,
        ),
        is_agent_path(platform, path) && platform != Platform::Windows ==> paths::file_name(
            platform,
            path,
        ) == Some("tp-agent"@),
        is_agent_path(Platform::Windows, path) ==> paths::file_name(Platform::Windows, path)
            == Some("tp-agent"@) || paths::file_name(Platform::Windows, path) == Some(
            "tp-agent.exe"@,
        ),
        paths::file_name(platform, path) == paths::file_name(platform, other) ==> is_agent_path(
            platform,
            path,
        ) == is_agent_path(platform, other),
{
}

proof fn lemma_entry_error(
    platform: Platform,
    entries: Seq<Result<Seq<char>, Seq<char>>>,
    from: int,
    i: int,
)
    requires
        0 <= from <= i <= entries.len(),
        i < entries.len() ==> entries[i] is Err,
        forall|k: int|
            from <= k < i ==> (#[trigger] entries[k]) is Ok && !is_agent_path(
                platform,
                entries[k]->Ok_0,
            ),
    ensures
        i < entries.len() ==> agent_entry(platform, entries, from) == Err::<int, _>(
            entries[i]->Err_0,
        ),
        i == entries.len() ==> agent_entry(platform, entries, from) == Err::<int, _>(
            "tp-agent binary not found in release asset"@,
        ),
    decreases i - from,
{
    if from < i {
        assert(entries[from] is Ok);
        lemma_entry_error(platform, entries, from + 1, i);
    }
}

/// An entry that could not be read is reported with its reason, where no entry before it leads to
/// the executable.
pub proof fn law_unreadable_entry_is_reported(
    platform: Platform,
    entries: Seq<Result<Seq<char>, Seq<char>>>,
    i: int,
)
    requires
        0 <= i < entries.len(),
        entries[i] is Err,
        forall|k: int|
            0 <= k < i ==> (#[trigger] entries[k]) is Ok && !is_agent_path(
                platform,
                entries[k]->Ok_0,
            ),
    ensures
        agent_entry(platform, entries, 0) == Err::<int, _>(entries[i]->Err_0),
{
    lemma_entry_error(platform, entries, 0, i);
}

/// An archive that can be read and does not hold the executable is reported as such.
pub proof fn law_missing_executable_is_reported(
    platform: Platform,
    entries: Seq<Result<Seq<char>, Seq<char>>>,
)
    requires
        forall|k: int|
            0 <= k < entries.len() ==> (#[trigger] entries[k]) is Ok && !is_agent_path(
                platform,
                entries[k]->Ok_0,
            ),
    ensures
        agent_entry(platform, entries, 0) == Err::<int, _>(
            "tp-agent binary not found in release asset"@,
        ),
{
    lemma_entry_error(platform, entries, 0, entries.len() as int);
}

/// What is found in a tar archive is the entry, and in a zip archive the content of the entry. An
/// archive that cannot be opened, and an entry that cannot be read, are reported with the reason.
pub proof fn law_archive_of_the_platform_is_searched(
    platform: Platform,
    archive: Seq<u8>,
    entries: Seq<Result<Seq<char>, Seq<char>>>,
    i: int,
    error: Seq<char>,
)
    ensures
        platform != Platform::Windows && tar_gz_paths(archive) == Ok::<_, Seq<char>>(entries)
            && agent_entry(platform, entries, 0) == Ok::<_, Seq<char>>(i) ==> extraction(
            platform,
            archive,
        ) == Ok::<_, Seq<char>>(ExtractionView::TarEntry(i)),
        platform != Platform::Windows && tar_gz_paths(archive) == Ok::<_, Seq<char>>(entries)
            && agent_entry(platform, entries, 0) == Err::<int, _>(error) ==> extraction(
            platform,
            archive,
        ) == Err::<ExtractionView, _>(error),
        platform != Platform::Windows && tar_gz_paths(archive) == Err::<
            Seq<Result<Seq<char>, Seq<char>>>,
            _,
        >(error) ==> extraction(platform, archive) == Err::<ExtractionView, _>(error),
        platform == Platform::Windows && zip_paths(archive) == Ok::<_, Seq<char>>(entries)
            && agent_entry(platform, entries, 0) == Ok::<_, Seq<char>>(i) ==> extraction(
            platform,
            archive,
        ) == match zip_content(archive, i) {
            Ok(content) => Ok::<_, Seq<char>>(ExtractionView::Content(content)),
            Err(reason) => Err::<ExtractionView, _>(reason),
        },
        platform == Platform::Windows && zip_paths(archive) == Ok::<_, Seq<char>>(entries)
            && agent_entry(platform, entries, 0) == Err::<int, _>(error) ==> extraction(
            platform,
            archive,
        ) == Err::<ExtractionView, _>(error),
        platform == Platform::Windows && zip_paths(archive) == Err::<
            Seq<Result<Seq<char>, Seq<char>>>,
            _,
        >(error) ==> extraction(platform, archive) == Err::<ExtractionView, _>(
            "open zip: "@ + error,
        ),
{
}

/// The models hold what the values hold.
pub proof fn law_models_of_an_archive_are_complete(
    found: Result<Extraction, String>,
    entries: Seq<EntryPath>,
    i: int,
    listing: Result<Vec<EntryPath>, String>,
    content: Result<Vec<u8>, String>,
)
    requires
        0 <= i < entries.len(),
    ensures
        match found {
            Ok(Extraction::TarEntry(n)) => extraction_view(found) == Ok::<_, Seq<char>>(
                ExtractionView::TarEntry(n as int),
            ),
            Ok(Extraction::Content(bytes)) => extraction_view(found) == Ok::<_, Seq<char>>(
                ExtractionView::Content(bytes@),
            ),
            Err(error) => extraction_view(found) == Err::<ExtractionView, _>(error@),
        },
        entries_view(entries).len() == entries.len(),
        match entries[i] {
            Ok(path) => entries_view(entries)[i] == Ok::<_, Seq<char>>(path@),
            Err(error) => entries_view(entries)[i] == Err::<Seq<char>, _>(error@),
        },
        match listing {
            Ok(listed) => listing_view(listing) == Ok::<_, Seq<char>>(entries_view(listed@)),
            Err(error) => listing_view(listing) == Err::<
                Seq<Result<Seq<char>, Seq<char>>>,
                _,
            >(error@),
        },
        match content {
            Ok(bytes) => content_view(content) == Ok::<_, Seq<char>>(bytes@),
            Err(error) => content_view(content) == Err::<Seq<u8>, _>(error@),
        },
{
}

} // verus!
