//! Lexical resolution of archive entry names against an extraction root.
//!
//! An entry name is split at `/` and `\`, `.` and empty components are
//! ignored, and `..` removes the component before it. A name is refused when
//! it holds a NUL, is absolute, climbs above the root, or resolves to the root
//! itself; everything else resolves to a path strictly below the root.
use vstd::prelude::*;
use crate::text::{append_chars, chars_of, string_of};

verus! {

/// The separator written between the components of a resolved path.
pub const JOINER: char = '/';

/// Returned for a name that does not resolve strictly below the root.
#[derive(Clone, Copy, Debug, PartialEq, Eq, Structural)]
pub struct UnsafePath;

pub open spec fn is_separator(c: char) -> bool {
    c == '/' || c == '\\'
}

pub open spec fn is_ascii_letter(c: char) -> bool {
    ('a' <= c && c <= 'z') || ('A' <= c && c <= 'Z')
}

/// The name starts at a filesystem root: a leading separator, or a drive
/// letter followed by a colon.
pub open spec fn is_rooted(raw: Seq<char>) -> bool {
    ||| raw.len() >= 1 && is_separator(raw[0])
    ||| raw.len() >= 2 && is_ascii_letter(raw[0]) && raw[1] == ':'
}

pub open spec fn has_nul(raw: Seq<char>) -> bool {
    exists|i: int| 0 <= i < raw.len() && raw[i] == '\0'
}

/// The maximal separator-free runs of `s`, in order; `n` separators give
/// `n + 1` runs, some of which may be empty.
pub open spec fn split(s: Seq<char>) -> Seq<Seq<char>>
    decreases s.len(),
{
    if s.len() == 0 {
        seq![Seq::<char>::empty()]
    } else {
        let before = split(s.drop_last());
        if is_separator(s.last()) {
            before.push(Seq::<char>::empty())
        } else {
            before.drop_last().push(before.last().push(s.last()))
        }
    }
}

pub open spec fn is_current(component: Seq<char>) -> bool {
    component =~= seq!['.']
}

pub open spec fn is_parent(component: Seq<char>) -> bool {
    component =~= seq!['.', '.']
}

/// A component that names a child: not empty, not `.` or `..`, and free of
/// separators and NUL.
pub open spec fn is_normal(component: Seq<char>) -> bool {
    &&& component.len() > 0
    &&& !is_current(component)
    &&& !is_parent(component)
    &&& forall|i: int|
        0 <= i < component.len() ==> !is_separator(#[trigger] component[i]) && component[i]
            != '\0'
}

/// One step of resolution: what the stack of components below the root
/// becomes when `component` follows. `None` means the name has climbed above
/// the root, and stays so.
pub open spec fn descend(stack: Option<Seq<Seq<char>>>, component: Seq<char>) -> Option<
    Seq<Seq<char>>,
> {
    match stack {
        None => None,
        Some(below) => if component.len() == 0 || is_current(component) {
            Some(below)
        } else if is_parent(component) {
            if below.len() == 0 {
                None
            } else {
                Some(below.drop_last())
            }
        } else {
            Some(below.push(component))
        },
    }
}

/// The components below the root that `components` lead to, or `None` if they
/// climb above the root on the way.
pub open spec fn resolve(components: Seq<Seq<char>>) -> Option<Seq<Seq<char>>>
    decreases components.len(),
{
    if components.len() == 0 {
        Some(Seq::<Seq<char>>::empty())
    } else {
        descend(resolve(components.drop_last()), components.last())
    }
}

/// The components joined by the joiner.
pub open spec fn join(components: Seq<Seq<char>>) -> Seq<char>
    decreases components.len(),
{
    if components.len() == 0 {
        Seq::<char>::empty()
    } else if components.len() == 1 {
        components[0]
    } else {
        join(components.drop_last()).push(JOINER) + components.last()
    }
}

/// `relative` placed below `root`: a joiner is added unless the root is empty
/// or already ends in a separator.
pub open spec fn under(root: Seq<char>, relative: Seq<char>) -> Seq<char> {
    if root.len() == 0 {
        relative
    } else if is_separator(root.last()) {
        root + relative
    } else {
        root.push(JOINER) + relative
    }
}

/// The components strictly below the root that the entry name `raw` resolves
/// to, or `None` if the name is unsafe.
pub open spec fn relative_components(raw: Seq<char>) -> Option<Seq<Seq<char>>> {
    if has_nul(raw) || is_rooted(raw) {
        None
    } else {
        match resolve(split(raw)) {
            Some(below) => if below.len() == 0 {
                None
            } else {
                Some(below)
            },
            None => None,
        }
    }
}

/// Where the entry named `raw` goes when extracted into `root`, or `None` if
/// the name is unsafe.
pub open spec fn destination(root: Seq<char>, raw: Seq<char>) -> Option<Seq<char>> {
    match relative_components(raw) {
        Some(below) => Some(under(root, join(below))),
        None => None,
    }
}

/// `path` is `root` followed by at least one normal component.
pub open spec fn is_strict_descendant(root: Seq<char>, path: Seq<char>) -> bool {
    exists|below: Seq<Seq<char>>|
        {
            &&& below.len() > 0
            &&& forall|i: int| 0 <= i < below.len() ==> is_normal(#[trigger] below[i])
            &&& path == under(root, join(below))
        }
}

/// The entry name denotes a directory: it ends in a separator.
pub open spec fn names_directory(raw: Seq<char>) -> bool {
    raw.len() > 0 && is_separator(raw.last())
}

/// The texts held by a vector of character vectors.
pub open spec fn texts(v: Seq<Vec<char>>) -> Seq<Seq<char>> {
    v.map_values(|component: Vec<char>| component@)
}

/// The texts held by an optional stack of components.
pub open spec fn stack_texts(stack: Option<Vec<Vec<char>>>) -> Option<Seq<Seq<char>>> {
    match stack {
        Some(below) => Some(texts(below@)),
        None => None,
    }
}

/// Whether `c` separates components.
pub fn separates(c: char) -> (b: bool)
    ensures
        b == is_separator(c),
{
    c == '/' || c == '\\'
}

/// Whether the name starts at a filesystem root.
pub fn starts_rooted(raw: &Vec<char>) -> (b: bool)
    ensures
        b == is_rooted(raw@),
{
    if raw.len() >= 1 && separates(raw[0]) {
        return true;
    }
    if raw.len() >= 2 {
        let first = raw[0];
        let letter = ('a' <= first && first <= 'z') || ('A' <= first && first <= 'Z');
        return letter && raw[1] == ':';
    }
    false
}

/// Whether the name holds a NUL character.
pub fn holds_nul(raw: &Vec<char>) -> (b: bool)
    ensures
        b == has_nul(raw@),
{
    let mut i: usize = 0;
    while i < raw.len()
        invariant
            i <= raw.len(),
            forall|k: int| 0 <= k < i ==> raw@[k] != '\0',
        decreases raw.len() - i,
    {
        if raw[i] == '\0' {
            return true;
        }
        i = i + 1;
    }
    false
}

/// Applies one component to the stack of components below the root.
fn descend_into(stack: Option<Vec<Vec<char>>>, component: Vec<char>) -> (r: Option<
    Vec<Vec<char>>,
>)
    ensures
        stack_texts(r) == descend(stack_texts(stack), component@),
{
    match stack {
        None => None,
        Some(mut below) => {
            let n = component.len();
            if n == 0 || (n == 1 && component[0] == '.') {
                Some(below)
            } else if n == 2 && component[0] == '.' && component[1] == '.' {
                if below.len() == 0 {
                    None
                } else {
                    let ghost before = below@;
                    below.pop();
                    assert(texts(below@) =~= texts(before).drop_last());
                    Some(below)
                }
            } else {
                let ghost before = below@;
                below.push(component);
                assert(texts(below@) =~= texts(before).push(component@));
                Some(below)
            }
        },
    }
}

/// Splits the name at its separators and resolves the components against an
/// empty stack.
pub fn resolve_name(raw: &Vec<char>) -> (r: Option<Vec<Vec<char>>>)
    ensures
        stack_texts(r) == resolve(split(raw@)),
{
    let mut stack: Option<Vec<Vec<char>>> = Some(Vec::new());
    let mut current: Vec<char> = Vec::new();
    let ghost mut before: Seq<Seq<char>> = Seq::empty();
    assert(texts(Seq::<Vec<char>>::empty()) =~= Seq::<Seq<char>>::empty());
    assert(raw@.take(0) =~= Seq::<char>::empty());
    assert(split(raw@.take(0)) =~= before.push(current@));
    let mut i: usize = 0;
    while i < raw.len()
        invariant
            i <= raw.len(),
            split(raw@.take(i as int)) == before.push(current@),
            stack_texts(stack) == resolve(before),
        decreases raw.len() - i,
    {
        let c = raw[i];
        proof {
            let next = raw@.take(i + 1);
            assert(next.drop_last() =~= raw@.take(i as int));
            assert(next.last() == c);
        }
        if separates(c) {
            proof {
                assert(before.push(current@).drop_last() =~= before);
                before = before.push(current@);
            }
            stack = descend_into(stack, current);
            current = Vec::new();
            assert(split(raw@.take(i + 1)) =~= before.push(current@));
        } else {
            let ghost earlier = current@;
            current.push(c);
            assert(split(raw@.take(i + 1)) =~= before.push(current@)) by {
                assert(before.push(earlier).drop_last() =~= before);
            }
        }
        i = i + 1;
    }
    assert(raw@.take(raw@.len() as int) =~= raw@);
    assert(before.push(current@).drop_last() =~= before);
    descend_into(stack, current)
}

/// The components joined by the joiner.
pub fn join_components(components: &Vec<Vec<char>>) -> (out: Vec<char>)
    ensures
        out@ == join(texts(components@)),
{
    let mut out: Vec<char> = Vec::new();
    let mut k: usize = 0;
    while k < components.len()
        invariant
            k <= components.len(),
            out@ == join(texts(components@).take(k as int)),
        decreases components.len() - k,
    {
        let ghost upto = texts(components@).take(k + 1);
        assert(upto.drop_last() =~= texts(components@).take(k as int));
        assert(upto.last() == components@[k as int]@);
        if k > 0 {
            out.push(JOINER);
        }
        append_chars(&mut out, &components[k]);
        assert(out@ =~= join(upto));
        k = k + 1;
    }
    assert(texts(components@).take(components@.len() as int) =~= texts(components@));
    out
}

/// Places `relative` below `root`.
pub fn place_under(root: &Vec<char>, relative: &Vec<char>) -> (out: Vec<char>)
    ensures
        out@ == under(root@, relative@),
{
    let mut out: Vec<char> = Vec::new();
    append_chars(&mut out, root);
    assert(out@ =~= root@);
    if root.len() > 0 && !separates(root[root.len() - 1]) {
        out.push(JOINER);
    }
    append_chars(&mut out, relative);
    out
}

/// Resolves the entry name `raw` against the extraction root `root`.
///
/// Succeeds exactly when the name holds no NUL, is not absolute, never climbs
/// above the root and does not resolve to the root itself; the result is then
/// the root followed by the resolved components, a path strictly below the
/// root.
pub fn sanitize(root: &str, raw: &str) -> (r: Result<String, UnsafePath>)
    ensures
        match r {
            Ok(path) => destination(root@, raw@) == Some(path@) && is_strict_descendant(
                root@,
                path@,
            ),
            Err(_) => destination(root@, raw@) is None,
        },
{
    let name = chars_of(raw);
    if holds_nul(&name) || starts_rooted(&name) {
        return Err(UnsafePath);
    }
    match resolve_name(&name) {
        None => Err(UnsafePath),
        Some(below) => {
            if below.len() == 0 {
                Err(UnsafePath)
            } else {
                let relative = join_components(&below);
                let base = chars_of(root);
                let placed = place_under(&base, &relative);
                proof {
                    lemma_destination_is_descendant(root@, raw@);
                }
                Ok(string_of(&placed))
            }
        },
    }
}

/// Whether the entry name denotes a directory.
pub fn is_directory_name(raw: &str) -> (b: bool)
    ensures
        b == names_directory(raw@),
{
    let name = chars_of(raw);
    name.len() > 0 && separates(name[name.len() - 1])
}

/// Every character of every component is neither a separator nor NUL.
pub open spec fn all_plain(components: Seq<Seq<char>>) -> bool {
    forall|i: int, j: int|
        0 <= i < components.len() && 0 <= j < components[i].len() ==> !is_separator(
            #[trigger] components[i][j],
        ) && components[i][j] != '\0'
}

pub open spec fn all_normal(components: Seq<Seq<char>>) -> bool {
    forall|i: int| 0 <= i < components.len() ==> is_normal(#[trigger] components[i])
}

/// Splitting yields at least one component, and its components hold only
/// characters of the input that are not separators.
pub proof fn lemma_split_plain(s: Seq<char>)
    requires
        !has_nul(s),
    ensures
        split(s).len() >= 1,
        all_plain(split(s)),
    decreases s.len(),
{
    if s.len() > 0 {
        let t = s.drop_last();
        assert forall|i: int| 0 <= i < t.len() implies t[i] != '\0' by {
            assert(t[i] == s[i]);
        }
        lemma_split_plain(t);
        assert(s.last() == s[s.len() - 1]);
    }
}

/// Resolution keeps only normal components.
pub proof fn lemma_resolve_normal(components: Seq<Seq<char>>)
    requires
        all_plain(components),
    ensures
        match resolve(components) {
            Some(below) => all_normal(below),
            None => true,
        },
    decreases components.len(),
{
    if components.len() > 0 {
        let front = components.drop_last();
        assert(all_plain(front)) by {
            assert forall|i: int, j: int|
                0 <= i < front.len() && 0 <= j < front[i].len() implies !is_separator(
                #[trigger] front[i][j],
            ) && front[i][j] != '\0' by {
                assert(front[i] == components[i]);
            }
        }
        lemma_resolve_normal(front);
        let last = components.last();
        assert(last == components[components.len() - 1]);
        match resolve(front) {
            Some(below) => {
                if !(last.len() == 0 || is_current(last) || is_parent(last)) {
                    assert forall|j: int| 0 <= j < last.len() implies !is_separator(
                        #[trigger] last[j],
                    ) && last[j] != '\0' by {
                        assert(last[j] == components[components.len() - 1][j]);
                    }
                    assert(is_normal(last));
                }
            },
            None => {},
        }
    }
}

/// Joined normal components make a text that is not empty.
pub proof fn lemma_join_not_empty(components: Seq<Seq<char>>)
    requires
        components.len() > 0,
        all_normal(components),
    ensures
        join(components).len() > 0,
    decreases components.len(),
{
    if components.len() == 1 {
        assert(is_normal(components[0]));
    }
}

/// A strict descendant starts with the root and goes on after it.
pub proof fn lemma_descendant_extends_root(root: Seq<char>, path: Seq<char>)
    requires
        is_strict_descendant(root, path),
    ensures
        path.len() > root.len(),
        path.take(root.len() as int) == root,
{
    let below = choose|below: Seq<Seq<char>>|
        {
            &&& below.len() > 0
            &&& forall|i: int| 0 <= i < below.len() ==> is_normal(#[trigger] below[i])
            &&& path == under(root, join(below))
        };
    lemma_join_not_empty(below);
    assert(path.take(root.len() as int) =~= root);
}

/// A name that resolves does so to a path strictly below the root.
pub proof fn lemma_destination_is_descendant(root: Seq<char>, raw: Seq<char>)
    ensures
        match destination(root, raw) {
            Some(path) => is_strict_descendant(root, path),
            None => true,
        },
{
    if let Some(below) = relative_components(raw) {
        lemma_split_plain(raw);
        lemma_resolve_normal(split(raw));
        assert(all_normal(below));
        assert(destination(root, raw) == Some(under(root, join(below))));
    }
}

} // verus!
