use vstd::prelude::*;

verus! {

/// One entry of a directory listing.
pub struct FileEntry {
    pub name: String,
    pub path: String,
    pub size: u64,
    pub is_dir: bool,
    pub modified: u64,
}

/// What the server reported of one directory entry: the joined path and
/// the attributes it chose to send.
pub struct RemoteStat {
    pub path: String,
    pub size: Option<u64>,
    pub perm: Option<u32>,
    pub mtime: Option<u64>,
}

/// The file-type bits of a mode.
pub const MODE_TYPE_MASK: u32 = 0o170000;

/// The file-type value of a directory.
pub const MODE_DIRECTORY: u32 = 0o040000;

/// The final component of a path, as `std::path::Path::file_name` gives it
/// (empty where there is none).
pub uninterp spec fn final_component(p: Seq<char>) -> Seq<char>;

/// A missing attribute counts as zero.
pub open spec fn or_zero(v: Option<u64>) -> u64 {
    match v {
        Some(x) => x,
        None => 0,
    }
}

/// A mode denotes a directory when its file-type bits say so; a missing mode
/// counts as zero.
pub open spec fn mode_is_dir(perm: Option<u32>) -> bool {
    let p = match perm {
        Some(p) => p,
        None => 0u32,
    };
    p & MODE_TYPE_MASK == MODE_DIRECTORY
}

/// The entry that a server record stands for.
pub open spec fn entry_matches(e: FileEntry, s: RemoteStat) -> bool {
    &&& e.name@ == final_component(s.path@)
    &&& e.path@ == s.path@
    &&& e.size == or_zero(s.size)
    &&& e.is_dir == mode_is_dir(s.perm)
    &&& e.modified == or_zero(s.mtime)
}

/// Relies on `Path::file_name` and `OsStr::to_string_lossy`: the last
/// component of the path, or the empty string where the path ends in `..`
/// or is a root.
#[verifier::external_body]
fn file_name_of(path: &str) -> (r: String)
    ensures
        r@ == final_component(path@),
{
    std::path::Path::new(path).file_name().unwrap_or_default().to_string_lossy().into_owned()
}

/// Whether a mode denotes a directory.
pub fn is_dir_mode(perm: Option<u32>) -> (r: bool)
    ensures
        r == mode_is_dir(perm),
{
    let p: u32 = match perm {
        Some(p) => p,
        None => 0,
    };
    p & MODE_TYPE_MASK == MODE_DIRECTORY
}

/// The entry for one server record: missing size and time become zero.
pub fn entry_from_remote(s: &RemoteStat) -> (r: FileEntry)
    ensures
        entry_matches(r, *s),
{
    let size: u64 = match s.size {
        Some(v) => v,
        None => 0,
    };
    let modified: u64 = match s.mtime {
        Some(v) => v,
        None => 0,
    };
    FileEntry {
        name: file_name_of(s.path.as_str()),
        path: s.path.clone(),
        size,
        is_dir: is_dir_mode(s.perm),
        modified,
    }
}

/// The listing for the server's records, one entry per record, in the
/// server's order.
pub fn entries_from_remote(raw: &Vec<RemoteStat>) -> (r: Vec<FileEntry>)
    ensures
        r@.len() == raw@.len(),
        forall|i: int| 0 <= i < raw@.len() ==> entry_matches(#[trigger] r@[i], raw@[i]),
{
    let mut out: Vec<FileEntry> = Vec::new();
    let mut i: usize = 0;
    while i < raw.len()
        invariant
            i <= raw@.len(),
            out@.len() == i,
            forall|j: int| 0 <= j < i ==> entry_matches(#[trigger] out@[j], raw@[j]),
        decreases raw@.len() - i,
    {
        out.push(entry_from_remote(&raw[i]));
        i = i + 1;
    }
    out
}

/// The names of a listing, in order.
pub open spec fn names_of(entries: Seq<FileEntry>) -> Seq<Seq<char>> {
    entries.map_values(|e: FileEntry| e.name@)
}

/// The names of a listing are the final components of the records' paths,
/// in the server's order.
pub proof fn lemma_listing_names(raw: Seq<RemoteStat>, listed: Seq<FileEntry>)
    requires
        listed.len() == raw.len(),
        forall|i: int| 0 <= i < raw.len() ==> entry_matches(#[trigger] listed[i], raw[i]),
    ensures
        names_of(listed) == raw.map_values(|s: RemoteStat| final_component(s.path@)),
{
    assert(names_of(listed) =~= raw.map_values(|s: RemoteStat| final_component(s.path@)));
}

} // verus!
