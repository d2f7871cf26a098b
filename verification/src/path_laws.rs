//! What re-rooting a path does to its bytes.

use crate::path;
use vstd::prelude::*;

verus! {

/// Whether `rest` has no separator and no `.` component at its start or end.
/// (`/` is byte 47, `.` is byte 46.)
pub open spec fn is_trimmed(rest: Seq<u8>) -> bool {
    rest.len() > 0 ==> {
        &&& rest[0] != 47
        &&& rest.last() != 47
        &&& !(rest[0] == 46 && (rest.len() == 1 || rest[1] == 47))
        &&& !(rest.last() == 46 && (rest.len() == 1 || rest[rest.len() - 2] == 47))
    }
}

/// Whether `rest` is `path` without its first `front` and last `back` bytes, all
/// of which are separators or dots.
pub open spec fn is_cut(path: Seq<u8>, rest: Seq<u8>, front: int, back: int) -> bool {
    &&& 0 <= front
    &&& 0 <= back
    &&& front + back <= path.len()
    &&& rest == path.subrange(front, path.len() - back)
    &&& forall|i: int| 0 <= i < front ==> path[i] == 47 || #[trigger] path[i] == 46
    &&& forall|i: int|
        path.len() - back <= i < path.len() ==> path[i] == 47 || #[trigger] path[i] == 46
}

proof fn lemma_trim_start(path: Seq<u8>) -> (front: int)
    ensures
        0 <= front <= path.len(),
        path::trim_start(path) == path.skip(front),
        forall|i: int| 0 <= i < front ==> path[i] == 47 || #[trigger] path[i] == 46,
        path::trim_start(path).len() > 0 ==> path::trim_start(path)[0] != 47 && !(
        path::trim_start(path)[0] == 46 && (path::trim_start(path).len() == 1 || path::trim_start(
            path,
        )[1] == 47)),
    decreases path.len(),
{
    if path.len() > 0 && (path::is_rooted(path) || path::starts_with_dot_component(path)) {
        let tail = path.drop_first();
        let front = lemma_trim_start(tail);
        assert(tail.skip(front) =~= path.skip(front + 1));
        assert forall|i: int| 0 <= i < front + 1 implies path[i] == 47 || #[trigger] path[i]
            == 46 by {
            if i > 0 {
                assert(tail[i - 1] == path[i]);
            }
        }
        front + 1
    } else {
        assert(path.skip(0) =~= path);
        0
    }
}

proof fn lemma_trim_end(path: Seq<u8>) -> (back: int)
    ensures
        0 <= back <= path.len(),
        path::trim_end(path) == path.take(path.len() - back),
        forall|i: int|
            path.len() - back <= i < path.len() ==> path[i] == 47 || #[trigger] path[i] == 46,
        path::trim_end(path).len() > 0 ==> path::trim_end(path).last() != 47 && !(path::trim_end(
            path,
        ).last() == 46 && (path::trim_end(path).len() == 1 || path::trim_end(
            path,
        )[path::trim_end(path).len() - 2] == 47)),
    decreases path.len(),
{
    if path.len() > 0 && (path.last() == 47 || path::ends_with_dot_component(path)) {
        let head = path.drop_last();
        let back = lemma_trim_end(head);
        assert(head.take(head.len() - back) =~= path.take(path.len() - (back + 1)));
        assert forall|i: int| path.len() - (back + 1) <= i < path.len() implies path[i] == 47
            || #[trigger] path[i] == 46 by {
            if i < path.len() - 1 {
                assert(head[i] == path[i]);
            }
        }
        back + 1
    } else {
        assert(path.take(path.len() as int) =~= path);
        0
    }
}

/// A path is re-rooted by putting it behind the root: an absolute one without
/// the separators and `.` components at its two ends, any other one as it is.
/// One separator stands between them, unless the root is empty or ends in one.
pub proof fn lemma_join_under_bytes(root: &[u8], path: &[u8], r: Vec<u8>) -> (cut: (int, int))
    requires
        call_ensures(path::join_under, (root, path), r),
    ensures
        ({
            let start = root@.len() + (if root@.len() > 0 && root@.last() != 47 {
                1int
            } else {
                0
            });
            let rest = r@.skip(start);
            &&& start <= r@.len()
            &&& r@.take(root@.len() as int) == root@
            &&& start > root@.len() ==> r@[root@.len() as int] == 47
            &&& is_cut(path@, rest, cut.0, cut.1)
            &&& path@.len() > 0 && path@[0] == 47 ==> is_trimmed(rest)
            &&& path@.len() == 0 || path@[0] != 47 ==> rest == path@
        }),
{
    let whole = path@;
    let rest = path::below_root(whole);
    let start = root@.len() + (if root@.len() > 0 && root@.last() != 47 {
        1int
    } else {
        0
    });
    assert(r@ == path::joined_under(root@, whole));
    assert(r@.take(root@.len() as int) =~= root@);
    assert(r@.skip(start) =~= rest);
    if whole.len() > 0 && whole[0] == 47 {
        let front = lemma_trim_start(whole);
        let body = path::trim_start(whole);
        let back = lemma_trim_end(body);
        assert(rest =~= whole.subrange(front, whole.len() - back));
        assert forall|i: int| whole.len() - back <= i < whole.len() implies whole[i] == 47
            || #[trigger] whole[i] == 46 by {
            assert(body[i - front] == whole[i]);
        }
        if rest.len() > 0 {
            assert(rest[0] == body[0]);
            if rest.len() > 1 {
                assert(rest[1] == body[1]);
            }
        }
        (front, back)
    } else {
        assert(whole.subrange(0, whole.len() as int) =~= whole);
        (0, 0)
    }
}

/// Joining puts one separator between a root and what follows it, unless the
/// root is empty or ends in one.
pub proof fn lemma_join_bytes(root: &[u8], rest: &[u8], r: Vec<u8>)
    requires
        call_ensures(path::join, (root, rest), r),
    ensures
        root@.len() > 0 && root@.last() != 47 ==> r@ == root@ + seq![47u8] + rest@,
        root@.len() == 0 || root@.last() == 47 ==> r@ == root@ + rest@,
{
    assert(root@.push(47u8) + rest@ =~= root@ + seq![47u8] + rest@);
}

/// A path holds a zero byte where one of its bytes is zero.
pub proof fn lemma_zero_byte(path: &[u8], r: bool)
    requires
        call_ensures(path::contains_nul, (path,), r),
    ensures
        r <==> exists|i: int| 0 <= i < path@.len() && #[trigger] path@[i] == 0,
{
}

} // verus!
