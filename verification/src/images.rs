//! Picking the most recently created PNG out of a directory listing. The
//! caller lists the directory and hands over one `FileEntry` per file, with
//! its name and creation timestamp; `latest_image` returns the name of the
//! newest `.png` entry, breaking timestamp ties in favour of the entry that
//! stands later in the listing (as a stable sort by timestamp would).

use vstd::prelude::*;

use crate::filename::extension_of;
use crate::filename::has_extension;

verus! {

/// One directory entry: its file name and its creation time, in nanoseconds
/// since the epoch (or any other fixed unit, as long as it is consistent).
pub struct FileEntry {
    pub name: String,
    pub created: u64,
}

/// Whether the entry's file name has the `png` extension.
pub open spec fn is_png(e: FileEntry) -> bool {
    extension_of(e.name@) == "png"@
}

/// Whether some entry of the listing is a PNG.
pub open spec fn some_png(entries: Seq<FileEntry>) -> bool {
    exists|j: int| 0 <= j < entries.len() && is_png(entries[j])
}

/// Whether entry `i` is the winner of the scan: a PNG whose creation time no
/// PNG exceeds, and which no later PNG ties.
pub open spec fn latest_png_at(entries: Seq<FileEntry>, i: int) -> bool {
    &&& 0 <= i < entries.len()
    &&& is_png(entries[i])
    &&& forall|j: int|
        0 <= j < entries.len() && is_png(entries[j]) ==> entries[j].created <= entries[i].created
    &&& forall|j: int| i < j < entries.len() && is_png(entries[j]) ==> entries[j].created < entries[i].created
}

/// The scan has exactly one winner: any two indices that both satisfy
/// `latest_png_at` for the same listing are the same index, so the name that
/// `latest_image` returns is determined by the listing alone.
pub proof fn lemma_latest_png_unique(entries: Seq<FileEntry>, i: int, j: int)
    requires
        latest_png_at(entries, i),
        latest_png_at(entries, j),
    ensures
        i == j,
{
    if i < j {
        assert(entries[j].created < entries[i].created);
        assert(entries[i].created <= entries[j].created);
    } else if j < i {
        assert(entries[i].created < entries[j].created);
        assert(entries[j].created <= entries[i].created);
    }
}

/// The name of the most recently created PNG in the listing, or the empty
/// string when the listing holds no PNG. Among PNGs sharing the maximal
/// timestamp, the one latest in the listing wins.
pub fn latest_image(entries: &Vec<FileEntry>) -> (r: String)
    ensures
        !some_png(entries@) ==> r@ == Seq::<char>::empty(),
        some_png(entries@) ==> exists|i: int| latest_png_at(entries@, i) && r@ == entries@[i].name@,
{
    let n: usize = entries.len();
    let mut found = false;
    let mut best: usize = 0;
    let mut idx: usize = 0;
    while idx < n
        invariant
            idx <= n,
            n == entries@.len(),
            !found ==> forall|j: int| 0 <= j < idx ==> !is_png(entries@[j]),
            found ==> best < idx && is_png(entries@[best as int]),
            found ==> forall|j: int|
                0 <= j < idx && is_png(entries@[j]) ==> entries@[j].created <= entries@[best as int].created,
            found ==> forall|j: int|
                best < j < idx && is_png(entries@[j]) ==> entries@[j].created < entries@[best as int].created,
        decreases n - idx,
    {
        let e = &entries[idx];
        if has_extension(e.name.as_str(), "png") {
            if !found || entries[best].created <= e.created {
                best = idx;
                found = true;
            }
        }
        idx = idx + 1;
    }
    if found {
        proof {
            assert(latest_png_at(entries@, best as int));
        }
        entries[best].name.clone()
    } else {
        String::new()
    }
}

} // verus!
