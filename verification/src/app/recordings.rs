//! Which files count as recordings, in which order they are looked at, and
//! which of them the size and age limits of the settings remove.
//!
//! The file system is read by the caller: each recording comes here as the
//! facts that were read about it.

use crate::util::{extension_of, has_extension};
use vstd::prelude::*;

verus! {

/// One entry of the recordings folder, as read from the file system.
pub struct DirEntryInfo {
    /// The full path of the entry.
    pub path: String,
    /// Whether the entry is a regular file.
    pub is_file: bool,
    /// The last component of the path, where there is one.
    pub file_name: Option<String>,
    /// The entry is the video being recorded: equal to it as a path,
    /// component by component.
    pub is_currently_recording: bool,
}

/// What was read about one recording.
#[derive(Clone, Copy, Debug, PartialEq, Eq, Structural)]
pub struct RecordingFile {
    /// Size in bytes; `None` where the file's metadata could not be read.
    pub size: Option<u64>,
    /// Creation time in nanoseconds since the Unix epoch; `None` where it
    /// could not be read.
    pub created: Option<i128>,
    /// The `favorite` flag of the recording's metadata file; `None` where
    /// that file could not be read.
    pub favorite: Option<bool>,
}

/// An entry is listed as a recording when it is a file, is not the video
/// being recorded right now, and has the extension "mp4".
pub open spec fn is_listed(e: DirEntryInfo) -> bool {
    &&& e.is_file
    &&& !e.is_currently_recording
    &&& e.file_name is Some
    &&& extension_of(e.file_name->0@) == Some("mp4"@)
}

/// The paths of the listed entries, in the order of the folder listing.
pub open spec fn listed(entries: Seq<DirEntryInfo>) -> Seq<Seq<char>>
    decreases entries.len(),
{
    if entries.len() == 0 {
        seq![]
    } else {
        let rest = listed(entries.drop_last());
        if is_listed(entries.last()) {
            rest.push(entries.last().path@)
        } else {
            rest
        }
    }
}

/// The recordings among the entries of the recordings folder: every `.mp4`
/// file but the one being recorded.
pub fn get_recordings(entries: &Vec<DirEntryInfo>) -> (r: Vec<String>)
    ensures
        r@.map_values(|s: String| s@) == listed(entries@),
{
    let mut r: Vec<String> = Vec::new();
    let mut i: usize = 0;
    while i < entries.len()
        invariant
            i <= entries.len(),
            r@.map_values(|s: String| s@) == listed(entries@.subrange(0, i as int)),
        decreases entries.len() - i,
    {
        let e = &entries[i];
        let mut keep = e.is_file && !e.is_currently_recording;
        if keep {
            match &e.file_name {
                Some(name) => {
                    keep = has_extension(name.as_str(), "mp4");
                },
                None => {
                    keep = false;
                },
            }
        }
        proof {
            let sub = entries@.subrange(0, i + 1);
            assert(sub.drop_last() =~= entries@.subrange(0, i as int));
            assert(sub.last() == entries@[i as int]);
        }
        if keep {
            let p = e.path.clone();
            r.push(p);
            proof {
                assert(r@.map_values(|s: String| s@) =~= listed(entries@.subrange(0, i as int)).push(e.path@));
            }
        }
        i = i + 1;
    }
    assert(entries@.subrange(0, entries.len() as int) =~= entries@);
    r
}

/// Whether recording `i` comes before recording `j` when the recordings are
/// ordered newest first: those whose creation time is unknown come first,
/// in listing order; the others follow by creation time, newest first,
/// equal times in listing order.
pub open spec fn comes_before(recs: Seq<RecordingFile>, i: int, j: int) -> bool {
    match (recs[i].created, recs[j].created) {
        (None, None) => i < j,
        (None, Some(_)) => true,
        (Some(_), None) => false,
        (Some(a), Some(b)) => a > b || (a == b && i < j),
    }
}

/// `order` lists each recording exactly once, newest first.
pub open spec fn is_newest_first(recs: Seq<RecordingFile>, order: Seq<usize>) -> bool {
    &&& order.len() == recs.len()
    &&& forall|k: int| 0 <= k < order.len() ==> order[k] < recs.len()
    &&& forall|x: usize| x < recs.len() ==> #[trigger] order.contains(x)
    &&& forall|k: int, l: int| 0 <= k < l < order.len() ==> comes_before(recs, order[k] as int, order[l] as int)
}

proof fn lemma_comes_before_order(recs: Seq<RecordingFile>, a: int, b: int, c: int)
    ensures
        comes_before(recs, a, b) && comes_before(recs, b, c) ==> comes_before(recs, a, c),
        a != b ==> (comes_before(recs, a, b) || comes_before(recs, b, a)),
        !comes_before(recs, a, a),
        comes_before(recs, a, b) ==> !comes_before(recs, b, a),
{
}

fn precedes(recs: &Vec<RecordingFile>, i: usize, j: usize) -> (r: bool)
    requires
        i < recs.len(),
        j < recs.len(),
    ensures
        r == comes_before(recs@, i as int, j as int),
{
    match (recs[i].created, recs[j].created) {
        (None, None) => i < j,
        (None, Some(_)) => true,
        (Some(_), None) => false,
        (Some(a), Some(b)) => a > b || (a == b && i < j),
    }
}

/// The order in which the recordings are looked at: newest first. Where
/// every creation time is known this is the stable sort by time, newest
/// first; where none is known it is the listing order.
pub fn newest_first(recs: &Vec<RecordingFile>) -> (order: Vec<usize>)
    ensures
        is_newest_first(recs@, order@),
        order@ == newest_order(recs@),
{
    let mut order: Vec<usize> = Vec::new();
    let mut k: usize = 0;
    while k < recs.len()
        invariant
            k <= recs.len(),
            order.len() == k,
            forall|p: int| 0 <= p < order.len() ==> order@[p] < k,
            forall|x: usize| x < k ==> #[trigger] order@.contains(x),
            forall|p: int, q: int| 0 <= p < q < order.len() ==> comes_before(recs@, order@[p] as int, order@[q] as int),
        decreases recs.len() - k,
    {
        let mut p: usize = 0;
        while p < order.len() && precedes(recs, order[p], k)
            invariant
                k < recs.len(),
                p <= order.len(),
                forall|q: int| 0 <= q < order.len() ==> order@[q] < k,
                forall|q: int| 0 <= q < p ==> comes_before(recs@, order@[q] as int, k as int),
            decreases order.len() - p,
        {
            p = p + 1;
        }
        let ghost old_order = order@;
        order.insert(p, k);
        proof {
            old_order.insert_ensures(p as int, k);
            assert(order@ == old_order.insert(p as int, k));
            if p < old_order.len() {
                lemma_comes_before_order(recs@, old_order[p as int] as int, k as int, 0);
                assert(comes_before(recs@, k as int, old_order[p as int] as int));
            }
            assert forall|a: int, b: int| 0 <= a < b < order.len()
                implies comes_before(recs@, order@[a] as int, order@[b] as int) by {
                if a < p && b == p {
                } else if a == p && b > p {
                    if b > p + 1 {
                        lemma_comes_before_order(recs@, k as int, old_order[p as int] as int, old_order[b - 1] as int);
                    }
                } else if a < p && b > p {
                } else {
                }
            }
            assert forall|x: usize| x < k + 1 implies #[trigger] order@.contains(x) by {
                if x == k {
                    assert(order@[p as int] == k);
                } else {
                    assert(old_order.contains(x));
                    let w = choose|w: int| 0 <= w < old_order.len() && old_order[w] == x;
                    if w < p {
                        assert(order@[w] == x);
                    } else {
                        assert(order@[w + 1] == x);
                    }
                }
            }
        }
        k = k + 1;
    }
    proof {
        lemma_newest_first_unique(recs@, order@, newest_order(recs@));
    }
    order
}

/// A recording that the size limit never removes: one marked as favorite,
/// or one whose metadata file could not be read.
pub open spec fn spared(r: RecordingFile) -> bool {
    match r.favorite {
        Some(f) => f,
        None => true,
    }
}

/// The size counted for a recording: 0 where it could not be read.
pub open spec fn counted_size(r: RecordingFile) -> int {
    match r.size {
        Some(s) => s as int,
        None => 0,
    }
}

/// The summed size of the spared recordings.
pub open spec fn spared_size(recs: Seq<RecordingFile>) -> int
    decreases recs.len(),
{
    if recs.len() == 0 {
        0
    } else {
        spared_size(recs.drop_last()) + if spared(recs.last()) { counted_size(recs.last()) } else { 0 }
    }
}

/// The summed size of the recordings that the limit may remove among the
/// first `k` of `order`.
pub open spec fn removable_prefix_size(recs: Seq<RecordingFile>, order: Seq<usize>, k: int) -> int
    decreases k,
{
    if k <= 0 {
        0
    } else {
        removable_prefix_size(recs, order, k - 1) + if spared(recs[order[k - 1] as int]) {
            0
        } else {
            counted_size(recs[order[k - 1] as int])
        }
    }
}

/// The size limit in bytes for a limit of `max_gb` gigabytes.
pub open spec fn size_limit(max_gb: u64) -> int {
    max_gb * 1_000_000_000
}

/// What counts against the limit before any removable recording: the video
/// being recorded and the spared recordings.
pub open spec fn base_size(recs: Seq<RecordingFile>, current_size: Option<u64>) -> int {
    (match current_size {
        Some(c) => c as int,
        None => 0,
    }) + spared_size(recs)
}

/// Whether the recording at position `k` of `order` is removed: it is not
/// spared and the running total up to and including it exceeds the limit.
pub open spec fn removed_at(recs: Seq<RecordingFile>, order: Seq<usize>, base: int, limit: int, k: int) -> bool {
    !spared(recs[order[k] as int]) && base + removable_prefix_size(recs, order, k + 1) > limit
}

/// The recordings removed among the first `k` positions of `order`, in order.
pub open spec fn removed_by_size(recs: Seq<RecordingFile>, order: Seq<usize>, base: int, limit: int, k: int) -> Seq<usize>
    decreases k,
{
    if k <= 0 {
        seq![]
    } else {
        let rest = removed_by_size(recs, order, base, limit, k - 1);
        if removed_at(recs, order, base, limit, k - 1) {
            rest.push(order[k - 1])
        } else {
            rest
        }
    }
}

/// The recordings that the size limit removes, walking `order` and keeping a
/// running total that starts at the base size. Sizes are summed without
/// loss: the total saturates only far above any limit.
pub fn plan_removal_by_size(
    max_gb: u64,
    current_size: Option<u64>,
    recs: &Vec<RecordingFile>,
    order: &Vec<usize>,
) -> (r: Vec<usize>)
    requires
        forall|k: int| 0 <= k < order.len() ==> order@[k] < recs.len(),
    ensures
        r@ == removed_by_size(recs@, order@, base_size(recs@, current_size), size_limit(max_gb), order.len() as int),
{
    let ghost base = base_size(recs@, current_size);
    let ghost limit = size_limit(max_gb);
    let limit_bytes: u128 = (max_gb as u128) * 1_000_000_000u128;
    let mut total: u128 = match current_size {
        Some(c) => c as u128,
        None => 0,
    };
    let ghost start: int = total as int;
    let mut i: usize = 0;
    while i < recs.len()
        invariant
            i <= recs.len(),
            start <= u64::MAX,
            total == if start + spared_size(recs@.subrange(0, i as int)) > u128::MAX { u128::MAX as int } else { start + spared_size(recs@.subrange(0, i as int)) },
        decreases recs.len() - i,
    {
        proof {
            let sub = recs@.subrange(0, i + 1);
            assert(sub.drop_last() =~= recs@.subrange(0, i as int));
            assert(sub.last() == recs@[i as int]);
        }
        if recs[i].favorite != Some(false) {
            match recs[i].size {
                Some(sz) => {
                    total = total.saturating_add(sz as u128);
                },
                None => {},
            }
        }
        i = i + 1;
    }
    assert(recs@.subrange(0, recs.len() as int) =~= recs@);
    assert(start + spared_size(recs@) == base);
    let mut r: Vec<usize> = Vec::new();
    let mut k: usize = 0;
    while k < order.len()
        invariant
            k <= order.len(),
            forall|q: int| 0 <= q < order.len() ==> order@[q] < recs.len(),
            limit_bytes == limit,
            total == if base + removable_prefix_size(recs@, order@, k as int) > u128::MAX { u128::MAX as int } else { base + removable_prefix_size(recs@, order@, k as int) },
            limit < u128::MAX,
            r@ == removed_by_size(recs@, order@, base, limit, k as int),
        decreases order.len() - k,
    {
        let idx = order[k];
        let rec = recs[idx];
        if rec.favorite == Some(false) {
            match rec.size {
                Some(sz) => {
                    total = total.saturating_add(sz as u128);
                },
                None => {},
            }
            if total > limit_bytes {
                r.push(idx);
            }
        }
        k = k + 1;
    }
    r
}

/// There is exactly one way to list the recordings newest first.
pub proof fn lemma_newest_first_unique(recs: Seq<RecordingFile>, o1: Seq<usize>, o2: Seq<usize>)
    requires
        is_newest_first(recs, o1),
        is_newest_first(recs, o2),
    ensures
        o1 == o2,
{
    assert forall|k: int| 0 <= k < o1.len() implies o1[k] == o2[k] by {
        lemma_newest_first_prefix(recs, o1, o2, k);
    }
    assert(o1 =~= o2);
}

proof fn lemma_newest_first_prefix(recs: Seq<RecordingFile>, o1: Seq<usize>, o2: Seq<usize>, k: int)
    requires
        is_newest_first(recs, o1),
        is_newest_first(recs, o2),
        0 <= k < o1.len(),
    ensures
        o1[k] == o2[k],
    decreases k,
{
    assert forall|m: int| 0 <= m < k implies o1[m] == o2[m] by {
        lemma_newest_first_prefix(recs, o1, o2, m);
    }
    let a = o1[k];
    let b = o2[k];
    if a != b {
        assert(o2.contains(a));
        let j = choose|j: int| 0 <= j < o2.len() && o2[j] == a;
        assert(o1.contains(b));
        let i = choose|i: int| 0 <= i < o1.len() && o1[i] == b;
        if j < k {
            assert(o1[j] == a);
            assert(comes_before(recs, o1[j] as int, o1[k] as int));
            lemma_comes_before_order(recs, a as int, a as int, 0);
        }
        if i < k {
            assert(o2[i] == b);
            assert(comes_before(recs, o2[i] as int, o2[k] as int));
            lemma_comes_before_order(recs, b as int, b as int, 0);
        }
        assert(j > k && i > k);
        assert(comes_before(recs, o2[k] as int, o2[j] as int));
        assert(comes_before(recs, o1[k] as int, o1[i] as int));
        lemma_comes_before_order(recs, a as int, b as int, 0);
    }
}

/// The one order of the recordings newest first.
pub open spec fn newest_order(recs: Seq<RecordingFile>) -> Seq<usize> {
    choose|o: Seq<usize>| is_newest_first(recs, o)
}

/// The recordings that the size limit of `max_gb` gigabytes removes (as
/// indices into `recs`, in the order they are removed): none without a
/// limit; else, walking the recordings newest first, each one that is not
/// spared and brings the running total over the limit.
pub fn cleanup_recordings_by_size(max_gb: Option<u64>, current_size: Option<u64>, recs: &Vec<RecordingFile>) -> (r: Vec<usize>)
    ensures
        match max_gb {
            None => r@.len() == 0,
            Some(g) => r@ == removed_by_size(
                recs@,
                newest_order(recs@),
                base_size(recs@, current_size),
                size_limit(g),
                recs@.len() as int,
            ),
        },
{
    match max_gb {
        None => Vec::new(),
        Some(g) => {
            let order = newest_first(recs);
            let r = plan_removal_by_size(g, current_size, recs, &order);
            proof {
                assert(is_newest_first(recs@, order@));
                lemma_newest_first_unique(recs@, order@, newest_order(recs@));
            }
            r
        },
    }
}

/// The summed size of the recordings among the first `k` positions of
/// `order` that the limit could remove but did not.
pub open spec fn kept_removable_size(recs: Seq<RecordingFile>, order: Seq<usize>, base: int, limit: int, k: int) -> int
    decreases k,
{
    if k <= 0 {
        0
    } else {
        kept_removable_size(recs, order, base, limit, k - 1) + if spared(recs[order[k - 1] as int])
            || removed_at(recs, order, base, limit, k - 1) {
            0
        } else {
            counted_size(recs[order[k - 1] as int])
        }
    }
}

proof fn lemma_prefix_monotone(recs: Seq<RecordingFile>, order: Seq<usize>, k: int, l: int)
    requires
        0 <= k <= l,
    ensures
        removable_prefix_size(recs, order, k) <= removable_prefix_size(recs, order, l),
    decreases l,
{
    if k < l {
        lemma_prefix_monotone(recs, order, k, l - 1);
    }
}

/// The size limit removes only recordings listed in `order`, and never a
/// spared one (a favorite, or one whose metadata could not be read).
pub proof fn lemma_spared_never_removed(recs: Seq<RecordingFile>, order: Seq<usize>, base: int, limit: int, k: int)
    requires
        0 <= k <= order.len(),
    ensures
        forall|x: usize| #[trigger] removed_by_size(recs, order, base, limit, k).contains(x)
            ==> order.contains(x) && !spared(recs[x as int]),
    decreases k,
{
    if k > 0 {
        lemma_spared_never_removed(recs, order, base, limit, k - 1);
        let rest = removed_by_size(recs, order, base, limit, k - 1);
        assert forall|x: usize| #[trigger] removed_by_size(recs, order, base, limit, k).contains(x)
            implies order.contains(x) && !spared(recs[x as int]) by {
            if removed_at(recs, order, base, limit, k - 1) {
                let all = rest.push(order[k - 1]);
                let w = choose|w: int| 0 <= w < all.len() && all[w] == x;
                if w < rest.len() {
                    assert(rest[w] == x);
                    assert(rest.contains(x));
                } else {
                    assert(order[k - 1] == x);
                }
            } else {
                assert(rest.contains(x));
            }
        }
    }
}

/// Where the base size and every removable recording fit within the limit,
/// the size limit removes nothing.
pub proof fn lemma_nothing_removed_within_limit(recs: Seq<RecordingFile>, order: Seq<usize>, base: int, limit: int)
    requires
        base + removable_prefix_size(recs, order, order.len() as int) <= limit,
    ensures
        removed_by_size(recs, order, base, limit, order.len() as int).len() == 0,
{
    lemma_nothing_removed_before(recs, order, base, limit, order.len() as int);
}

proof fn lemma_nothing_removed_before(recs: Seq<RecordingFile>, order: Seq<usize>, base: int, limit: int, k: int)
    requires
        0 <= k <= order.len(),
        base + removable_prefix_size(recs, order, order.len() as int) <= limit,
    ensures
        removed_by_size(recs, order, base, limit, k).len() == 0,
    decreases k,
{
    if k > 0 {
        lemma_nothing_removed_before(recs, order, base, limit, k - 1);
        lemma_prefix_monotone(recs, order, k, order.len() as int);
    }
}

/// Once the size limit removes a recording, it removes every later
/// recording that is not spared.
pub proof fn lemma_removal_continues(recs: Seq<RecordingFile>, order: Seq<usize>, base: int, limit: int, k: int, l: int)
    requires
        0 <= k < l < order.len(),
        removed_at(recs, order, base, limit, k),
        !spared(recs[order[l] as int]),
    ensures
        removed_at(recs, order, base, limit, l),
{
    lemma_prefix_monotone(recs, order, k + 1, l + 1);
}

/// Where the video being recorded and the spared recordings fit within the
/// limit, so do they together with every recording the limit keeps.
pub proof fn lemma_kept_within_limit(recs: Seq<RecordingFile>, order: Seq<usize>, base: int, limit: int)
    requires
        base <= limit,
    ensures
        base + kept_removable_size(recs, order, base, limit, order.len() as int) <= limit,
{
    lemma_kept_below_prefix(recs, order, base, limit, order.len() as int);
}

proof fn lemma_kept_below_prefix(recs: Seq<RecordingFile>, order: Seq<usize>, base: int, limit: int, k: int)
    requires
        0 <= k,
        base <= limit,
    ensures
        kept_removable_size(recs, order, base, limit, k) <= removable_prefix_size(recs, order, k),
        base + kept_removable_size(recs, order, base, limit, k) <= limit,
    decreases k,
{
    if k > 0 {
        lemma_kept_below_prefix(recs, order, base, limit, k - 1);
    }
}

/// Whether a recording is older than `max_days` days at time `now` (both
/// times in nanoseconds since the epoch); an unknown creation time, or one
/// after `now`, never is.
pub open spec fn too_old(r: RecordingFile, now: i128, max_days: u64) -> bool {
    match r.created {
        Some(c) => c <= now && now - c > max_days * 86_400_000_000_000,
        None => false,
    }
}

/// The recordings among the first `k` that the age limit removes: those
/// too old whose metadata says they are not favorites.
pub open spec fn removed_by_age(recs: Seq<RecordingFile>, now: i128, max_days: u64, k: int) -> Seq<usize>
    decreases k,
{
    if k <= 0 {
        seq![]
    } else {
        let rest = removed_by_age(recs, now, max_days, k - 1);
        if too_old(recs[k - 1], now, max_days) && recs[k - 1].favorite == Some(false) {
            rest.push((k - 1) as usize)
        } else {
            rest
        }
    }
}

/// The recordings (as indices into `recs`, ascending) that the age limit of
/// `max_days` days removes at time `now`: none without a limit.
pub fn cleanup_recordings_by_age(max_days: Option<u64>, now: i128, recs: &Vec<RecordingFile>) -> (r: Vec<usize>)
    ensures
        match max_days {
            None => r@.len() == 0,
            Some(d) => r@ == removed_by_age(recs@, now, d, recs.len() as int),
        },
{
    let d = match max_days {
        None => {
            return Vec::new();
        },
        Some(d) => d,
    };
    let max_age: i128 = (d as i128) * 86_400_000_000_000i128;
    let mut r: Vec<usize> = Vec::new();
    let mut i: usize = 0;
    while i < recs.len()
        invariant
            i <= recs.len(),
            max_age == d * 86_400_000_000_000,
            max_days == Some(d),
            r@ == removed_by_age(recs@, now, d, i as int),
        decreases recs.len() - i,
    {
        let rec = recs[i];
        let old_enough = match rec.created {
            Some(c) => {
                if c <= now {
                    match now.checked_sub(c) {
                        Some(age) => age > max_age,
                        None => true,
                    }
                } else {
                    false
                }
            },
            None => false,
        };
        if old_enough && rec.favorite == Some(false) {
            r.push(i);
        }
        i = i + 1;
    }
    r
}

/// The age limit removes only recordings that are too old and whose
/// metadata says they are not favorites.
pub proof fn lemma_age_removes_only_old_non_favorites(recs: Seq<RecordingFile>, now: i128, max_days: u64, k: int)
    requires
        0 <= k <= recs.len(),
        recs.len() <= usize::MAX,
    ensures
        forall|x: usize| #[trigger] removed_by_age(recs, now, max_days, k).contains(x)
            ==> x < k && too_old(recs[x as int], now, max_days) && recs[x as int].favorite == Some(false),
    decreases k,
{
    if k > 0 {
        lemma_age_removes_only_old_non_favorites(recs, now, max_days, k - 1);
        let rest = removed_by_age(recs, now, max_days, k - 1);
        assert forall|x: usize| #[trigger] removed_by_age(recs, now, max_days, k).contains(x)
            implies x < k && too_old(recs[x as int], now, max_days) && recs[x as int].favorite == Some(false) by {
            if too_old(recs[k - 1], now, max_days) && recs[k - 1].favorite == Some(false) {
                let all = rest.push((k - 1) as usize);
                let w = choose|w: int| 0 <= w < all.len() && all[w] == x;
                if w < rest.len() {
                    assert(rest[w] == x);
                    assert(rest.contains(x));
                }
            } else {
                assert(rest.contains(x));
            }
        }
    }
}

/// The summed size of the recordings, counting those whose size could not
/// be read as 0.
pub open spec fn total_size(recs: Seq<RecordingFile>) -> int
    decreases recs.len(),
{
    if recs.len() == 0 {
        0
    } else {
        total_size(recs.drop_last()) + counted_size(recs.last())
    }
}

/// The space the recordings take up, in bytes (the window shows it in
/// gigabytes).
pub fn recordings_size(recs: &Vec<RecordingFile>) -> (r: u128)
    ensures
        r == total_size(recs@),
{
    let mut total: u128 = 0;
    let mut i: usize = 0;
    while i < recs.len()
        invariant
            i <= recs.len(),
            total == total_size(recs@.subrange(0, i as int)),
            total <= i * 0xffff_ffff_ffff_ffffu64,
        decreases recs.len() - i,
    {
        proof {
            let sub = recs@.subrange(0, i + 1);
            assert(sub.drop_last() =~= recs@.subrange(0, i as int));
            assert(sub.last() == recs@[i as int]);
        }
        match recs[i].size {
            Some(sz) => {
                assert(total + sz <= (i + 1) * 0xffff_ffff_ffff_ffffu64) by (nonlinear_arith)
                    requires
                        total <= i * 0xffff_ffff_ffff_ffffu64,
                        sz <= 0xffff_ffff_ffff_ffffu64,
                ;
                assert((i + 1) * 0xffff_ffff_ffff_ffffu64 <= 0xffff_ffff_ffff_ffff_ffff_ffff_ffff_ffffu128) by (nonlinear_arith)
                    requires
                        i < 0xffff_ffff_ffff_ffffu64,
                ;
                total = total + sz as u128;
            },
            None => {
                assert(total <= (i + 1) * 0xffff_ffff_ffff_ffffu64) by (nonlinear_arith)
                    requires
                        total <= i * 0xffff_ffff_ffff_ffffu64,
                ;
            },
        }
        i = i + 1;
    }
    assert(recs@.subrange(0, recs.len() as int) =~= recs@);
    total
}

/// The recordings listed are exactly the regular files with the extension
/// "mp4" other than the video being recorded, in the order of the folder
/// listing, each by its path.
pub proof fn lemma_listed_recordings(entries: Seq<DirEntryInfo>)
    ensures
        listed(entries) == entries.filter(
            |e: DirEntryInfo| e.is_file && !e.is_currently_recording && e.file_name is Some
                && extension_of(e.file_name->0@) == Some("mp4"@),
        ).map_values(|e: DirEntryInfo| e.path@),
    decreases entries.len(),
{
    let pred = |e: DirEntryInfo| e.is_file && !e.is_currently_recording && e.file_name is Some
        && extension_of(e.file_name->0@) == Some("mp4"@);
    let path = |e: DirEntryInfo| e.path@;
    reveal(Seq::filter);
    if entries.len() == 0 {
        assert(entries.filter(pred).map_values(path) =~= Seq::<Seq<char>>::empty());
    } else {
        lemma_listed_recordings(entries.drop_last());
        let prev = entries.drop_last().filter(pred);
        if pred(entries.last()) {
            assert(entries.filter(pred) == prev.push(entries.last()));
            assert(prev.push(entries.last()).map_values(path) =~= prev.map_values(path).push(path(entries.last())));
        } else {
            assert(entries.filter(pred) == prev);
        }
    }
}

} // verus!
