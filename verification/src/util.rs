//! Path helpers: turning a path into a `String`, comparing recordings by
//! creation time, and the extension of a file name.

use std::cmp::Ordering;
use std::path::PathBuf;
use vstd::prelude::*;

verus! {

/// Why a path could not be turned into a `String`.
#[derive(Debug, Clone, Copy, PartialEq, Eq, Structural)]
pub enum PathError {
    /// The path is not valid Unicode.
    NotUnicode,
}

#[verifier::external_type_specification]
#[verifier::external_body]
pub struct ExPathBuf(PathBuf);

/// The path as a `String` (`OsString::into_string` on the owned path); fails
/// where the path is not valid Unicode. Nothing is stated of the text: a
/// `Path` is opaque here.
#[verifier::external_body]
pub fn path_to_string(path: &PathBuf) -> (r: Result<String, PathError>) {
    path.clone().into_os_string().into_string().map_err(|_| PathError::NotUnicode)
}

/// How two recordings are ordered by creation time: the newer one first.
pub open spec fn time_order(a: i128, b: i128) -> Ordering {
    if a > b {
        Ordering::Less
    } else if a < b {
        Ordering::Greater
    } else {
        Ordering::Equal
    }
}

/// Compares two recordings by creation time (nanoseconds since the epoch),
/// newest first; `None` where a creation time could not be read.
pub fn compare_time(a_created: Option<i128>, b_created: Option<i128>) -> (r: Option<Ordering>)
    ensures
        r == (match (a_created, b_created) {
            (Some(a), Some(b)) => Some(time_order(a, b)),
            _ => None,
        }),
{
    match (a_created, b_created) {
        (Some(a), Some(b)) => {
            if a > b {
                Some(Ordering::Less)
            } else if a < b {
                Some(Ordering::Greater)
            } else {
                Some(Ordering::Equal)
            }
        },
        _ => None,
    }
}

/// Index of the last '.' in `s`, or -1 where there is none.
pub open spec fn last_dot(s: Seq<char>) -> int
    decreases s.len(),
{
    if s.len() == 0 {
        -1
    } else if s.last() == '.' {
        s.len() - 1
    } else {
        last_dot(s.drop_last())
    }
}

/// The extension of a file name, as `Path::extension` documents it: none
/// without an embedded '.', none where the only '.' starts the name, else
/// what follows the last '.'.
pub open spec fn extension_of(name: Seq<char>) -> Option<Seq<char>> {
    let d = last_dot(name);
    if d <= 0 {
        None
    } else {
        Some(name.subrange(d + 1, name.len() as int))
    }
}

proof fn lemma_last_dot_bounds(s: Seq<char>)
    ensures
        -1 <= last_dot(s) < s.len(),
        last_dot(s) >= 0 ==> s[last_dot(s)] == '.',
        forall|i: int| last_dot(s) < i < s.len() ==> s[i] != '.',
    decreases s.len(),
{
    if s.len() > 0 && s.last() != '.' {
        let t = s.drop_last();
        lemma_last_dot_bounds(t);
        assert forall|i: int| last_dot(s) < i < s.len() implies s[i] != '.' by {
            if i < s.len() - 1 {
                assert(s[i] == t[i]);
            }
        }
    }
}

/// Whether the file name `name` has the extension `ext`.
pub fn has_extension(name: &str, ext: &str) -> (r: bool)
    ensures
        r == (extension_of(name@) == Some(ext@)),
{
    let cs = crate::text::chars_of(name);
    let es = crate::text::chars_of(ext);
    let n = cs.len();
    let mut i: usize = n;
    while i > 0 && cs[i - 1] != '.'
        invariant
            cs@ == name@,
            n == cs.len(),
            i <= n,
            forall|j: int| i <= j < n ==> cs@[j] != '.',
        decreases i,
    {
        i = i - 1;
    }
    proof {
        lemma_last_dot_bounds(name@);
        assert(last_dot(name@) == i - 1);
    }
    if i <= 1 {
        return false;
    }
    let start = i;
    if n - start != es.len() {
        proof {
            assert(name@.subrange(start as int, n as int).len() != ext@.len());
        }
        return false;
    }
    let mut k: usize = 0;
    while k < es.len()
        invariant
            cs@ == name@,
            es@ == ext@,
            n == cs.len(),
            start <= n,
            n - start == es.len(),
            last_dot(name@) == start - 1,
            start >= 2,
            k <= es.len(),
            forall|j: int| 0 <= j < k ==> cs@[start + j] == es@[j],
        decreases es.len() - k,
    {
        if cs[start + k] != es[k] {
            proof {
                let tail = name@.subrange(start as int, n as int);
                assert(tail[k as int] != ext@[k as int]);
                assert(tail != ext@);
            }
            return false;
        }
        k = k + 1;
    }
    assert(name@.subrange(start as int, n as int) =~= ext@);
    true
}

/// Creation times order recordings newest first: a later creation time
/// orders before an earlier one, two equal times are equal, and swapping
/// the two reverses the order.
pub proof fn lemma_time_order_newest_first(a: i128, b: i128)
    ensures
        a > b ==> time_order(a, b) == Ordering::Less,
        a < b ==> time_order(a, b) == Ordering::Greater,
        a == b ==> time_order(a, b) == Ordering::Equal,
        time_order(a, b) == Ordering::Less <==> time_order(b, a) == Ordering::Greater,
        time_order(a, b) == Ordering::Equal <==> time_order(b, a) == Ordering::Equal,
{
}

/// Text without a '.' moves the last '.' nowhere.
proof fn lemma_last_dot_append(a: Seq<char>, b: Seq<char>)
    requires
        forall|i: int| 0 <= i < b.len() ==> #[trigger] b[i] != '.',
    ensures
        last_dot(a + b) == last_dot(a),
    decreases b.len(),
{
    if b.len() == 0 {
        assert(a + b =~= a);
    } else {
        assert((a + b).drop_last() =~= a + b.drop_last());
        assert((a + b).last() == b[b.len() - 1]);
        lemma_last_dot_append(a, b.drop_last());
    }
}

/// The extension of a file name is what follows its last '.': a name made
/// of a non-empty stem, a '.' and a text without '.' has that text as its
/// extension; a name without any '.' has none, and neither has a name whose
/// only '.' starts it.
pub proof fn lemma_extension_of(stem: Seq<char>, ext: Seq<char>)
    ensures
        stem.len() > 0 && (forall|i: int| 0 <= i < ext.len() ==> #[trigger] ext[i] != '.')
            ==> extension_of(stem + seq!['.'] + ext) == Some(ext),
        (forall|i: int| 0 <= i < stem.len() ==> #[trigger] stem[i] != '.') ==> extension_of(stem) is None,
        (forall|i: int| 0 <= i < ext.len() ==> #[trigger] ext[i] != '.') ==> extension_of(seq!['.'] + ext) is None,
{
    let e: Seq<char> = Seq::empty();
    if forall|i: int| 0 <= i < ext.len() ==> #[trigger] ext[i] != '.' {
        let a = stem + seq!['.'];
        assert(a.last() == '.');
        assert(last_dot(a) == stem.len());
        lemma_last_dot_append(a, ext);
        let name = stem + seq!['.'] + ext;
        assert(name.subrange(stem.len() + 1int, name.len() as int) =~= ext);
        let b = seq!['.'];
        assert(b.last() == '.');
        assert(last_dot(b) == 0);
        lemma_last_dot_append(b, ext);
    }
    if forall|i: int| 0 <= i < stem.len() ==> #[trigger] stem[i] != '.' {
        assert(last_dot(e) == -1);
        lemma_last_dot_append(e, stem);
        assert(e + stem =~= stem);
    }
}

} // verus!
