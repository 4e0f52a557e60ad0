//! What the distribution packager decides: where the archive goes, which
//! files it holds, and which bytes of an icon file are stamped into the
//! executable.

use vstd::prelude::*;
use vstd::string::*;
use crate::text::string_push;

verus! {

/// `base` with the relative path `rel` under it: a `/` is put between the
/// two unless `base` is empty or already ends in a separator.
pub open spec fn joined(base: Seq<char>, rel: Seq<char>) -> Seq<char> {
    if base.len() == 0 || base.last() == '/' || base.last() == '\\' {
        base + rel
    } else {
        base + seq!['/'] + rel
    }
}

/// Puts `rel` under `base`.
pub fn join_path(base: &str, rel: &str) -> (path: String)
    ensures
        path@ == joined(base@, rel@),
{
    let n = base.unicode_len();
    let mut path = String::from_str(base);
    if n > 0 {
        let last = base.get_char(n - 1);
        if last != '/' && last != '\\' {
            string_push(&mut path, '/');
        }
    }
    path.append(rel);
    assert(path@ =~= joined(base@, rel@));
    path
}

/// The directory the distribution is written to, under the project root.
pub fn dist_dir(project_root: &str) -> (dir: String)
    ensures
        dir@ == joined(project_root@, "target/dist"@),
{
    join_path(project_root, "target/dist")
}

/// One file of the archive: where it is read from and the name it gets.
#[derive(Debug)]
pub struct DistEntry {
    pub source: String,
    pub name: String,
}

/// The mathematical form of a [`DistEntry`].
pub ghost struct DistEntryView {
    pub source: Seq<char>,
    pub name: Seq<char>,
}

impl View for DistEntry {
    type V = DistEntryView;

    open spec fn view(&self) -> DistEntryView {
        DistEntryView { source: self.source@, name: self.name@ }
    }
}

/// The archive holds the executable, the library and the configuration,
/// in this order.
pub open spec fn dist_entries_of(root: Seq<char>) -> Seq<DistEntryView> {
    seq![
        DistEntryView {
            source: joined(root, "target/release/jdsd_dsiii_practice_tool.exe"@),
            name: "jdsd_dsiii_practice_tool.exe"@,
        },
        DistEntryView {
            source: joined(root, "target/release/libjdsd_dsiii_practice_tool.dll"@),
            name: "jdsd_dsiii_practice_tool.dll"@,
        },
        DistEntryView {
            source: joined(root, "practice-tool/jdsd_dsiii_practice_tool.toml"@),
            name: "jdsd_dsiii_practice_tool.toml"@,
        },
    ]
}

/// The files that go into the archive.
pub fn dist_entries(project_root: &str) -> (entries: Vec<DistEntry>)
    ensures
        entries@.len() == 3,
        forall|i: int| 0 <= i < 3 ==> (#[trigger] entries@[i])@ == dist_entries_of(project_root@)[i],
{
    let mut entries: Vec<DistEntry> = Vec::new();
    entries.push(
        DistEntry {
            source: join_path(project_root, "target/release/jdsd_dsiii_practice_tool.exe"),
            name: String::from_str("jdsd_dsiii_practice_tool.exe"),
        },
    );
    entries.push(
        DistEntry {
            source: join_path(project_root, "target/release/libjdsd_dsiii_practice_tool.dll"),
            name: String::from_str("jdsd_dsiii_practice_tool.dll"),
        },
    );
    entries.push(
        DistEntry {
            source: join_path(project_root, "practice-tool/jdsd_dsiii_practice_tool.toml"),
            name: String::from_str("jdsd_dsiii_practice_tool.toml"),
        },
    );
    entries
}

/// The path of the archive itself.
pub fn archive_path(project_root: &str) -> (path: String)
    ensures
        path@ == joined(joined(project_root@, "target/dist"@), "jdsd_dsiii_practice_tool.zip"@),
{
    let dir = dist_dir(project_root);
    join_path(dir.as_str(), "jdsd_dsiii_practice_tool.zip")
}

/// The size of the group header at the start of an icon file.
pub const GROUP_HEADER_LEN: usize = 22;

/// The little-endian 32-bit number at `at`.
pub open spec fn le32(bytes: Seq<u8>, at: int) -> int {
    bytes[at] + 256 * bytes[at + 1] + 65536 * bytes[at + 2] + 16777216 * bytes[at + 3]
}

/// Why an icon file cannot be used.
#[derive(Clone, Copy, Debug, PartialEq, Eq, Structural)]
pub enum IconError {
    /// The file is shorter than a group header.
    Truncated,
    /// The image the header points at does not lie within the file.
    OutOfBounds,
}

/// The two resources made from an icon file.
#[derive(Debug)]
pub struct IconResources {
    /// Where the image starts in the file.
    pub image_start: usize,
    /// Where the image ends in the file.
    pub image_end: usize,
    /// The group header, its image offset replaced by the resource id 1.
    pub group: Vec<u8>,
}

/// The group resource made from a file: the first 18 bytes of the header
/// as they are, then the number 1 in four little-endian bytes.
pub open spec fn group_of(file: Seq<u8>) -> Seq<u8> {
    file.subrange(0, 18) + seq![1u8, 0u8, 0u8, 0u8]
}

/// What [`icon_resources`] owes for a file.
pub open spec fn icon_outcome(file: Seq<u8>) -> Result<(int, int), IconError> {
    if file.len() < 22 {
        Err(IconError::Truncated)
    } else if le32(file, 18) + le32(file, 14) > file.len() {
        Err(IconError::OutOfBounds)
    } else {
        Ok((le32(file, 18), le32(file, 18) + le32(file, 14)))
    }
}

fn read_le32(bytes: &[u8], at: usize) -> (n: u32)
    requires
        at + 4 <= bytes@.len(),
    ensures
        n == le32(bytes@, at as int),
{
    let b0 = bytes[at] as u32;
    let b1 = bytes[at + 1] as u32;
    let b2 = bytes[at + 2] as u32;
    let b3 = bytes[at + 3] as u32;
    b0 + 256 * b1 + 65536 * b2 + 16777216 * b3
}

/// Reads the group header of an icon file: the image it points at, by
/// its byte range in the file, and the group resource.
pub fn icon_resources(file: &[u8]) -> (r: Result<IconResources, IconError>)
    ensures
        match (r, icon_outcome(file@)) {
            (Ok(res), Ok((start, end))) => res.image_start == start && res.image_end == end
                && res.group@ == group_of(file@),
            (Err(e), Err(f)) => e == f,
            _ => false,
        },
{
    if file.len() < GROUP_HEADER_LEN {
        return Err(IconError::Truncated);
    }
    let start = read_le32(file, 18) as u64;
    let count = read_le32(file, 14) as u64;
    let end = start + count;
    if end > file.len() as u64 {
        return Err(IconError::OutOfBounds);
    }
    let mut group: Vec<u8> = Vec::new();
    let mut i: usize = 0;
    while i < 18
        invariant
            i <= 18,
            file@.len() >= 22,
            group@ == file@.subrange(0, i as int),
        decreases 18 - i,
    {
        group.push(file[i]);
        i = i + 1;
        assert(group@ =~= file@.subrange(0, i as int));
    }
    group.push(1);
    group.push(0);
    group.push(0);
    group.push(0);
    assert(group@ =~= group_of(file@));
    Ok(IconResources { image_start: start as usize, image_end: end as usize, group })
}

} // verus!
