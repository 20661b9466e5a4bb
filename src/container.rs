use vstd::prelude::*;

use crate::error::Error;
use crate::items::MenuItemKind;
use crate::menu_id::MenuId;

verus! {

/// The children after inserting `item` at `pos`; a position at or past the end appends.
pub open spec fn inserted(s: Seq<MenuItemKind>, item: MenuItemKind, pos: int) -> Seq<MenuItemKind> {
    if pos < s.len() {
        s.insert(pos, item)
    } else {
        s.push(item)
    }
}

/// The children after inserting `items`, in order, starting at `pos`; a position at or past
/// the end appends them.
pub open spec fn inserted_all(s: Seq<MenuItemKind>, items: Seq<MenuItemKind>, pos: int) -> Seq<
    MenuItemKind,
> {
    let p = if pos < s.len() {
        pos
    } else {
        s.len() as int
    };
    s.subrange(0, p) + items + s.subrange(p, s.len() as int)
}

/// Some child has the identifier `id`.
pub open spec fn contains_id(s: Seq<MenuItemKind>, id: Seq<char>) -> bool {
    exists|i: int| 0 <= i < s.len() && #[trigger] s[i].id_view() == id
}

/// `i` is the first position of a child with the identifier `id`.
pub open spec fn is_first_with_id(s: Seq<MenuItemKind>, id: Seq<char>, i: int) -> bool {
    &&& 0 <= i < s.len()
    &&& s[i].id_view() == id
    &&& forall|j: int| 0 <= j < i ==> #[trigger] s[j].id_view() != id
}

/// The children after removing the first one with the identifier `id`.
pub open spec fn removed_id(s: Seq<MenuItemKind>, id: Seq<char>) -> Seq<MenuItemKind> {
    s.remove(choose|i: int| is_first_with_id(s, id, i))
}

/// A child with the identifier `id` has exactly one first position.
pub proof fn lemma_first_with_id_unique(s: Seq<MenuItemKind>, id: Seq<char>, i: int, k: int)
    requires
        is_first_with_id(s, id, i),
        is_first_with_id(s, id, k),
    ensures
        i == k,
{
    if i < k {
        assert(s[i].id_view() != id);
    } else if k < i {
        assert(s[k].id_view() != id);
    }
}

/// Where exactly one child has the identifier `id`, removing it leaves no child with that
/// identifier.
pub proof fn lemma_remove_unique_leaves_none(s: Seq<MenuItemKind>, id: Seq<char>)
    requires
        contains_id(s, id),
        forall|i: int, j: int|
            0 <= i < s.len() && 0 <= j < s.len() && #[trigger] s[i].id_view() == id
                && #[trigger] s[j].id_view() == id ==> i == j,
    ensures
        !contains_id(removed_id(s, id), id),
{
    let w = choose|i: int| 0 <= i < s.len() && #[trigger] s[i].id_view() == id;
    assert forall|j: int| 0 <= j < w implies #[trigger] s[j].id_view() != id by {
        if s[j].id_view() == id {
            assert(s[w].id_view() == id);
        }
    }
    assert(is_first_with_id(s, id, w));
    let k = choose|i: int| is_first_with_id(s, id, i);
    lemma_first_with_id_unique(s, id, w, k);
    let t = s.remove(w);
    assert forall|i: int| 0 <= i < t.len() implies #[trigger] t[i].id_view() != id by {
        if i < w {
            assert(t[i] == s[i]);
        } else {
            assert(t[i] == s[i + 1]);
            if s[i + 1].id_view() == id {
                assert(s[w].id_view() == id);
            }
        }
    }
}

/// Inserting at a position at or past the end is the same as appending.
pub proof fn lemma_insert_past_end_is_append(s: Seq<MenuItemKind>, item: MenuItemKind, pos: int)
    requires
        pos >= s.len(),
    ensures
        inserted(s, item, pos) == s.push(item),
{
}

/// One change to an ordered list of children, as made by the container operations.
pub enum ChildChange {
    /// `append(item)`.
    Append(MenuItemKind),
    /// `prepend(item)`.
    Prepend(MenuItemKind),
    /// `insert(item, position)`.
    Insert(MenuItemKind, usize),
    /// `remove(item)`.
    Remove(MenuItemKind),
}

/// The children after one change, as the container operations' contracts state it (a
/// removal of an absent item changes nothing).
pub open spec fn apply_change(s: Seq<MenuItemKind>, c: ChildChange) -> Seq<MenuItemKind> {
    match c {
        ChildChange::Append(x) => s.push(x),
        ChildChange::Prepend(x) => inserted(s, x, 0),
        ChildChange::Insert(x, p) => inserted(s, x, p as int),
        ChildChange::Remove(x) => if contains_id(s, x.id_view()) {
            removed_id(s, x.id_view())
        } else {
            s
        },
    }
}

/// The children after the changes `cs`, in order.
pub open spec fn apply_changes(s: Seq<MenuItemKind>, cs: Seq<ChildChange>) -> Seq<MenuItemKind>
    decreases cs.len(),
{
    if cs.len() == 0 {
        s
    } else {
        apply_change(apply_changes(s, cs.drop_last()), cs.last())
    }
}

/// The identifiers of the children, in order.
pub open spec fn ids_of(s: Seq<MenuItemKind>) -> Seq<Seq<char>> {
    s.map_values(|k: MenuItemKind| k.id_view())
}

/// `i` is the first position of `id` in the list `l`.
pub open spec fn is_first_in(l: Seq<Seq<char>>, id: Seq<char>, i: int) -> bool {
    &&& 0 <= i < l.len()
    &&& l[i] == id
    &&& forall|j: int| 0 <= j < i ==> l[j] != id
}

/// A plain list of identifiers under one change: push at the back, push at the front,
/// insert at the position or at the end, delete the first occurrence.
pub open spec fn reference_change(l: Seq<Seq<char>>, c: ChildChange) -> Seq<Seq<char>> {
    match c {
        ChildChange::Append(x) => l.push(x.id_view()),
        ChildChange::Prepend(x) => l.insert(0, x.id_view()),
        ChildChange::Insert(x, p) => l.insert(if p < l.len() { p as int } else { l.len() as int }, x.id_view()),
        ChildChange::Remove(x) => if l.contains(x.id_view()) {
            l.remove(choose|i: int| is_first_in(l, x.id_view(), i))
        } else {
            l
        },
    }
}

/// A plain list of identifiers under the changes `cs`, in order.
pub open spec fn reference_changes(l: Seq<Seq<char>>, cs: Seq<ChildChange>) -> Seq<Seq<char>>
    decreases cs.len(),
{
    if cs.len() == 0 {
        l
    } else {
        reference_change(reference_changes(l, cs.drop_last()), cs.last())
    }
}

proof fn lemma_change_matches_reference(s: Seq<MenuItemKind>, c: ChildChange)
    ensures
        ids_of(apply_change(s, c)) == reference_change(ids_of(s), c),
{
    let l = ids_of(s);
    match c {
        ChildChange::Append(x) => {
            assert(ids_of(s.push(x)) =~= l.push(x.id_view()));
        },
        ChildChange::Prepend(x) => {
            assert(ids_of(s.insert(0, x)) =~= l.insert(0, x.id_view()));
        },
        ChildChange::Insert(x, p) => {
            if (p as int) < s.len() {
                assert(ids_of(s.insert(p as int, x)) =~= l.insert(p as int, x.id_view()));
            } else {
                assert(ids_of(s.push(x)) =~= l.insert(l.len() as int, x.id_view()));
            }
        },
        ChildChange::Remove(x) => {
            let id = x.id_view();
            if contains_id(s, id) {
                let w = choose|i: int| 0 <= i < s.len() && #[trigger] s[i].id_view() == id;
                assert(l[w] == id);
                assert(l.contains(id));
                let k = choose|i: int| is_first_with_id(s, id, i);
                let m = choose|i: int| is_first_in(l, id, i);
                let f = first_with_id(s, id, w);
                assert(is_first_in(l, id, f));
                lemma_first_with_id_unique(s, id, f, k);
                if m != f {
                    if m < f {
                        assert(s[m].id_view() == l[m]);
                    } else {
                        assert(l[f] == id);
                    }
                }
                assert(ids_of(s.remove(k)) =~= l.remove(m));
            } else {
                if l.contains(id) {
                    let j = choose|j: int| 0 <= j < l.len() && l[j] == id;
                    assert(s[j].id_view() == id);
                }
            }
        },
    }
}

proof fn first_with_id(s: Seq<MenuItemKind>, id: Seq<char>, w: int) -> (f: int)
    requires
        0 <= w < s.len(),
        s[w].id_view() == id,
    ensures
        is_first_with_id(s, id, f),
        f <= w,
    decreases w,
{
    if exists|j: int| 0 <= j < w && #[trigger] s[j].id_view() == id {
        let j = choose|j: int| 0 <= j < w && #[trigger] s[j].id_view() == id;
        first_with_id(s, id, j)
    } else {
        w
    }
}

/// Any sequence of container operations leaves the children whose identifiers are those
/// of a plain reference list under the same operations: pushing at the back for `append`,
/// at the front for `prepend`, inserting at the position (or the end) for `insert`, and
/// deleting the first occurrence for `remove`.
pub proof fn lemma_changes_match_reference(s: Seq<MenuItemKind>, cs: Seq<ChildChange>)
    ensures
        ids_of(apply_changes(s, cs)) == reference_changes(ids_of(s), cs),
    decreases cs.len(),
{
    if cs.len() > 0 {
        lemma_changes_match_reference(s, cs.drop_last());
        lemma_change_matches_reference(apply_changes(s, cs.drop_last()), cs.last());
    }
}

/// Inserts `item` into `v` at `pos`, or appends it where `pos` is at or past the end.
pub fn insert_child(v: &mut Vec<MenuItemKind>, item: MenuItemKind, pos: usize)
    ensures
        final(v)@ == inserted(old(v)@, item, pos as int),
{
    if pos < v.len() {
        v.insert(pos, item);
    } else {
        v.push(item);
    }
}

/// Inserts clones of `items`, in order, into `v` from `pos` on, or appends them where `pos`
/// is at or past the end.
pub fn insert_children(v: &mut Vec<MenuItemKind>, items: &[MenuItemKind], pos: usize)
    ensures
        final(v)@ == inserted_all(old(v)@, items@, pos as int),
{
    let ghost s = v@;
    let p: usize = if pos < v.len() {
        pos
    } else {
        v.len()
    };
    let mut i: usize = 0;
    while i < items.len()
        invariant
            p <= s.len(),
            i <= items@.len(),
            v@ == s.subrange(0, p as int) + items@.subrange(0, i as int) + s.subrange(
                p as int,
                s.len() as int,
            ),
        decreases items@.len() - i,
    {
        let item = items[i].clone();
        let n = v.len();
        assert(n == s.len() + i);
        v.insert(p + i, item);
        assert(items@.subrange(0, i + 1 as int) == items@.subrange(0, i as int).push(items@[i as int]));
        assert(v@ == s.subrange(0, p as int) + items@.subrange(0, i + 1 as int) + s.subrange(
            p as int,
            s.len() as int,
        ));
        i = i + 1;
    }
    assert(items@.subrange(0, i as int) == items@);
}

/// Finds the first child of `v` with identifier `id`.
pub fn position_of(v: &Vec<MenuItemKind>, id: &MenuId) -> (r: Option<usize>)
    ensures
        match r {
            Some(i) => is_first_with_id(v@, id@, i as int),
            None => !contains_id(v@, id@),
        },
{
    let mut i: usize = 0;
    while i < v.len()
        invariant
            i <= v@.len(),
            forall|j: int| 0 <= j < i ==> #[trigger] v@[j].id_view() != id@,
        decreases v@.len() - i,
    {
        if v[i].id() == id {
            return Some(i);
        }
        i = i + 1;
    }
    None
}

/// Removes the first child of `v` with identifier `id`, or fails with
/// [`Error::NotAChildOfThisMenu`] where there is none.
pub fn remove_child(v: &mut Vec<MenuItemKind>, id: &MenuId) -> (r: Result<(), Error>)
    ensures
        r is Err <==> !contains_id(old(v)@, id@),
        r is Err ==> r == Err::<(), Error>(Error::NotAChildOfThisMenu) && final(v)@ == old(v)@,
        r is Ok ==> final(v)@ == removed_id(old(v)@, id@),
{
    match position_of(v, id) {
        Some(i) => {
            proof {
                let k = choose|k: int| is_first_with_id(v@, id@, k);
                lemma_first_with_id_unique(v@, id@, i as int, k);
            }
            v.remove(i);
            Ok(())
        },
        None => Err(Error::NotAChildOfThisMenu),
    }
}

/// Removes and returns the child of `v` at `pos`, or `None` where `pos` is past the end.
pub fn remove_child_at(v: &mut Vec<MenuItemKind>, pos: usize) -> (r: Option<MenuItemKind>)
    ensures
        pos >= old(v)@.len() ==> r is None && final(v)@ == old(v)@,
        pos < old(v)@.len() ==> r == Some(old(v)@[pos as int]) && final(v)@ == old(v)@.remove(
            pos as int,
        ),
{
    if pos < v.len() {
        Some(v.remove(pos))
    } else {
        None
    }
}

/// A snapshot of the children of `v`.
pub fn snapshot(v: &Vec<MenuItemKind>) -> (r: Vec<MenuItemKind>)
    ensures
        r@ == v@,
{
    let mut out: Vec<MenuItemKind> = Vec::new();
    let mut i: usize = 0;
    while i < v.len()
        invariant
            i <= v@.len(),
            out@ == v@.subrange(0, i as int),
        decreases v@.len() - i,
    {
        out.push(v[i].clone());
        i = i + 1;
    }
    assert(out@ == v@.subrange(0, v@.len() as int));
    out
}

} // verus!
