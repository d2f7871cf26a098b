//! Paths as byte strings, with the component rules of a Unix path.
//!
//! A path is a sequence of bytes. `/` separates components; an empty component
//! and a `.` component name nothing.

use vstd::prelude::*;

verus! {

/// The path separator, `/`.
pub const SEPARATOR: u8 = 47;

/// The byte `.`.
pub const DOT: u8 = 46;

/// A value that names a path.
pub trait AsPath {
    /// The bytes of the path.
    spec fn path_bytes(&self) -> Seq<u8>;

    /// The bytes of the path, owned.
    fn to_path_bytes(&self) -> (r: Vec<u8>)
        ensures
            r@ == self.path_bytes(),
    ;
}

impl AsPath for &str {
    open spec fn path_bytes(&self) -> Seq<u8> {
        vstd::utf8::encode_utf8(self@)
    }

    fn to_path_bytes(&self) -> (r: Vec<u8>) {
        vstd::slice::slice_to_vec(self.as_bytes())
    }
}

impl AsPath for String {
    open spec fn path_bytes(&self) -> Seq<u8> {
        vstd::utf8::encode_utf8(self@)
    }

    fn to_path_bytes(&self) -> (r: Vec<u8>) {
        vstd::slice::slice_to_vec(self.as_str().as_bytes())
    }
}

impl AsPath for &[u8] {
    open spec fn path_bytes(&self) -> Seq<u8> {
        self@
    }

    fn to_path_bytes(&self) -> (r: Vec<u8>) {
        vstd::slice::slice_to_vec(*self)
    }
}

impl AsPath for Vec<u8> {
    open spec fn path_bytes(&self) -> Seq<u8> {
        self@
    }

    fn to_path_bytes(&self) -> (r: Vec<u8>) {
        vstd::slice::slice_to_vec(self.as_slice())
    }
}

/// Whether a path starts at the root directory.
pub open spec fn is_rooted(path: Seq<u8>) -> bool {
    path.len() > 0 && path[0] == SEPARATOR
}

/// Whether a path holds a zero byte, which no C string can carry.
pub open spec fn has_nul(path: Seq<u8>) -> bool {
    path.contains(0u8)
}

/// Whether the component that starts at `path[0]` is `.`.
pub open spec fn starts_with_dot_component(path: Seq<u8>) -> bool {
    path.len() > 0 && path[0] == DOT && (path.len() == 1 || path[1] == SEPARATOR)
}

/// Whether the component that ends at the last byte of `path` is `.`.
pub open spec fn ends_with_dot_component(path: Seq<u8>) -> bool {
    path.len() > 0 && path.last() == DOT && (path.len() == 1 || path[path.len() - 2] == SEPARATOR)
}

/// `path` without the empty and `.` components at its start.
pub open spec fn trim_start(path: Seq<u8>) -> Seq<u8>
    decreases path.len(),
{
    if is_rooted(path) || starts_with_dot_component(path) {
        trim_start(path.drop_first())
    } else {
        path
    }
}

/// `path` without the empty and `.` components at its end.
pub open spec fn trim_end(path: Seq<u8>) -> Seq<u8>
    decreases path.len(),
{
    if path.len() > 0 && (path.last() == SEPARATOR || ends_with_dot_component(path)) {
        trim_end(path.drop_last())
    } else {
        path
    }
}

/// What is left of `path` below the root directory. A relative path is
/// returned as it is.
pub open spec fn below_root(path: Seq<u8>) -> Seq<u8> {
    if is_rooted(path) {
        trim_end(trim_start(path))
    } else {
        path
    }
}

/// `root` followed by the relative path `rest`, with one separator between
/// them unless `root` is empty or already ends in one.
pub open spec fn join_relative(root: Seq<u8>, rest: Seq<u8>) -> Seq<u8> {
    if root.len() > 0 && root.last() != SEPARATOR {
        root.push(SEPARATOR) + rest
    } else {
        root + rest
    }
}

/// `path` re-rooted at `root`.
pub open spec fn joined_under(root: Seq<u8>, path: Seq<u8>) -> Seq<u8> {
    join_relative(root, below_root(path))
}

/// Whether `path` holds a zero byte.
pub fn contains_nul(path: &[u8]) -> (r: bool)
    ensures
        r == has_nul(path@),
{
    let mut i: usize = 0;
    while i < path.len()
        invariant
            i <= path@.len(),
            forall|j: int| 0 <= j < i ==> path@[j] != 0,
        decreases path@.len() - i,
    {
        if path[i] == 0 {
            assert(path@[i as int] == 0);
            return true;
        }
        i = i + 1;
    }
    false
}

/// `root` followed by the relative path `rest`.
pub fn join(root: &[u8], rest: &[u8]) -> (r: Vec<u8>)
    ensures
        r@ == join_relative(root@, rest@),
{
    let mut out = vstd::slice::slice_to_vec(root);
    if root.len() > 0 && root[root.len() - 1] != SEPARATOR {
        out.push(SEPARATOR);
    }
    let ghost base = out@;
    let mut i: usize = 0;
    while i < rest.len()
        invariant
            i <= rest@.len(),
            out@ == base + rest@.take(i as int),
        decreases rest@.len() - i,
    {
        out.push(rest[i]);
        assert(rest@.take(i + 1) =~= rest@.take(i as int).push(rest@[i as int]));
        i = i + 1;
    }
    assert(rest@.take(i as int) =~= rest@);
    out
}

/// Composes `root` and `path` below the root directory. An absolute `path`
/// would otherwise replace `root`, so its leading separators are dropped
/// first.
pub fn join_under(root: &[u8], path: &[u8]) -> (r: Vec<u8>)
    ensures
        r@ == joined_under(root@, path@),
{
    if path.len() == 0 || path[0] != SEPARATOR {
        return join(root, path);
    }
    let mut start: usize = 0;
    assert(path@.skip(0) =~= path@);
    while start < path.len() && (path[start] == SEPARATOR || (path[start] == DOT && (start + 1
        == path.len() || path[start + 1] == SEPARATOR)))
        invariant
            start <= path@.len(),
            trim_start(path@) == trim_start(path@.skip(start as int)),
        decreases path@.len() - start,
    {
        assert(path@.skip(start as int).drop_first() =~= path@.skip(start + 1));
        start = start + 1;
    }
    let ghost body = path@.skip(start as int);
    assert(trim_start(path@) == body);
    let mut end: usize = path.len();
    while start < end && (path[end - 1] == SEPARATOR || (path[end - 1] == DOT && (end - 1 == start
        || path[end - 2] == SEPARATOR)))
        invariant
            start <= end <= path@.len(),
            body == path@.skip(start as int),
            trim_end(body) == trim_end(path@.subrange(start as int, end as int)),
        decreases end,
    {
        assert(path@.subrange(start as int, end as int).drop_last() =~= path@.subrange(
            start as int,
            end - 1,
        ));
        end = end - 1;
    }
    join(root, vstd::slice::slice_subrange(path, start, end))
}

/// The position of the first separator in `path`, or the length of `path`
/// where it holds none.
pub open spec fn first_separator(path: Seq<u8>) -> int
    decreases path.len(),
{
    if path.len() == 0 || path[0] == SEPARATOR {
        0
    } else {
        1 + first_separator(path.drop_first())
    }
}

/// The components that `path` names, in order: what stands between its
/// separators, without the empty and `.` ones.
pub open spec fn components(path: Seq<u8>) -> Seq<Seq<u8>>
    decreases path.len(),
{
    if path.len() == 0 {
        seq![]
    } else {
        let n = first_separator(path);
        if !(0 <= n < path.len()) {
            named_component(path)
        } else {
            named_component(path.take(n)) + components(path.skip(n + 1))
        }
    }
}

/// `component` as a list, empty where it names nothing.
pub open spec fn named_component(component: Seq<u8>) -> Seq<Seq<u8>> {
    if component.len() == 0 || component == seq![DOT] {
        seq![]
    } else {
        seq![component]
    }
}

proof fn lemma_first_separator(path: Seq<u8>)
    ensures
        0 <= first_separator(path) <= path.len(),
        first_separator(path) < path.len() ==> path[first_separator(path)] == SEPARATOR,
        forall|i: int| 0 <= i < first_separator(path) ==> path[i] != SEPARATOR,
    decreases path.len(),
{
    if path.len() > 0 && path[0] != SEPARATOR {
        let rest = path.drop_first();
        lemma_first_separator(rest);
        assert forall|i: int| 0 <= i < first_separator(path) implies path[i] != SEPARATOR by {
            if i > 0 {
                assert(rest[i - 1] == path[i]);
            }
        }
    }
}

/// A separator splits the components of a path: what stands before it, then
/// what stands after it.
pub proof fn lemma_components_split(front: Seq<u8>, back: Seq<u8>)
    ensures
        components(front.push(SEPARATOR) + back) == components(front) + components(back),
    decreases front.len(),
{
    let whole = front.push(SEPARATOR) + back;
    lemma_first_separator(front);
    lemma_first_separator(whole);
    let n = first_separator(front);
    let m = first_separator(whole);
    assert(m == n) by {
        if m < n {
            assert(whole[m] == front[m]);
        }
        if n < m {
            assert(whole[n] == SEPARATOR);
        }
    }
    if n < front.len() {
        assert(whole.take(n) =~= front.take(n));
        assert(whole.skip(n + 1) =~= front.skip(n + 1).push(SEPARATOR) + back);
        lemma_components_split(front.skip(n + 1), back);
        assert(components(whole) =~= components(front) + components(back));
    } else {
        assert(whole.take(n) =~= front);
        assert(whole.skip(n + 1) =~= back);
        assert(components(whole) =~= components(front) + components(back));
    }
}

proof fn lemma_trim_start_keeps_components(path: Seq<u8>)
    ensures
        components(trim_start(path)) == components(path),
    decreases path.len(),
{
    if is_rooted(path) {
        let rest = path.drop_first();
        assert(path =~= Seq::<u8>::empty().push(SEPARATOR) + rest);
        lemma_components_split(Seq::empty(), rest);
        assert(components(path) =~= components(rest));
        lemma_trim_start_keeps_components(rest);
    } else if starts_with_dot_component(path) {
        let rest = path.drop_first();
        if path.len() == 1 {
            assert(path =~= seq![DOT]);
            lemma_first_separator(path);
            assert(components(path) =~= components(rest));
        } else {
            let tail = rest.drop_first();
            assert(path =~= seq![DOT].push(SEPARATOR) + tail);
            assert(rest =~= Seq::<u8>::empty().push(SEPARATOR) + tail);
            lemma_components_split(seq![DOT], tail);
            lemma_components_split(Seq::empty(), tail);
            lemma_first_separator(seq![DOT]);
            assert(components(path) =~= components(rest));
        }
        lemma_trim_start_keeps_components(rest);
    }
}

proof fn lemma_trim_end_keeps_components(path: Seq<u8>)
    ensures
        components(trim_end(path)) == components(path),
    decreases path.len(),
{
    if path.len() > 0 && path.last() == SEPARATOR {
        let rest = path.drop_last();
        assert(path =~= rest.push(SEPARATOR) + Seq::<u8>::empty());
        lemma_components_split(rest, Seq::empty());
        assert(components(path) =~= components(rest));
        lemma_trim_end_keeps_components(rest);
    } else if ends_with_dot_component(path) {
        let rest = path.drop_last();
        lemma_first_separator(seq![DOT]);
        if path.len() == 1 {
            assert(path =~= seq![DOT]);
            assert(components(path) =~= components(rest));
        } else {
            let head = rest.drop_last();
            assert(path =~= head.push(SEPARATOR) + seq![DOT]);
            assert(rest =~= head.push(SEPARATOR) + Seq::<u8>::empty());
            lemma_components_split(head, seq![DOT]);
            lemma_components_split(head, Seq::empty());
            assert(components(path) =~= components(rest));
        }
        lemma_trim_end_keeps_components(rest);
    }
}

/// Re-rooting a path keeps it whole: `join_under` names the components of the
/// new root, then those of the path, in order and nothing else.
pub proof fn lemma_join_under_keeps_components(root: Seq<u8>, path: Seq<u8>)
    ensures
        components(joined_under(root, path)) == components(root) + components(path),
{
    let rest = below_root(path);
    if is_rooted(path) {
        lemma_trim_start_keeps_components(path);
        lemma_trim_end_keeps_components(trim_start(path));
    }
    if root.len() == 0 {
        assert(joined_under(root, path) =~= rest);
        assert(components(root) + components(path) =~= components(path));
    } else if root.last() != SEPARATOR {
        lemma_components_split(root, rest);
    } else {
        let head = root.drop_last();
        assert(root =~= head.push(SEPARATOR) + Seq::<u8>::empty());
        assert(root + rest =~= head.push(SEPARATOR) + rest);
        lemma_components_split(head, Seq::empty());
        lemma_components_split(head, rest);
        assert(components(root) =~= components(head));
    }
}

proof fn lemma_trim_adds_no_nul(path: Seq<u8>)
    requires
        !has_nul(path),
    ensures
        !has_nul(trim_start(path)),
        !has_nul(trim_end(path)),
    decreases path.len(),
{
    if path.len() > 0 {
        let tail = path.drop_first();
        let head = path.drop_last();
        assert forall|i: int| 0 <= i < tail.len() implies tail[i] != 0 by {
            assert(path.contains(path[i + 1]));
        }
        assert forall|i: int| 0 <= i < head.len() implies head[i] != 0 by {
            assert(path.contains(path[i]));
        }
        lemma_trim_adds_no_nul(tail);
        lemma_trim_adds_no_nul(head);
    }
}

/// Re-rooting a path brings in no zero byte.
pub proof fn lemma_join_under_adds_no_nul(root: Seq<u8>, path: Seq<u8>)
    requires
        !has_nul(root),
        !has_nul(path),
    ensures
        !has_nul(joined_under(root, path)),
{
    lemma_trim_adds_no_nul(path);
    lemma_trim_adds_no_nul(trim_start(path));
    let rest = below_root(path);
    let whole = joined_under(root, path);
    assert forall|i: int| 0 <= i < whole.len() implies whole[i] != 0 by {
        if i < root.len() {
            assert(whole[i] == root[i]);
            assert(root.contains(root[i]));
        } else if i >= whole.len() - rest.len() {
            let j = i - (whole.len() - rest.len());
            assert(whole[i] == rest[j]);
            assert(rest.contains(rest[j]));
        }
    }
}

/// A re-rooted path starts with the bytes of its new root: an absolute path
/// does not replace the root. (`..` components are kept as they are.)
pub proof fn lemma_join_under_starts_with_root(root: Seq<u8>, path: Seq<u8>)
    ensures
        root.is_prefix_of(joined_under(root, path)),
{
}

} // verus!
