use vstd::prelude::*;

verus! {

/// A node of a selection tree: an optional item and its children.
#[derive(Debug)]
pub struct SelectionItem<T> {
    item: Option<T>,
    children: Vec<SelectionItem<T>>,
    last_selected_child_id: Option<usize>,
}

/// A tree of items with a path from the root to the selected item.
#[derive(Debug)]
pub struct Selection<T> {
    root: SelectionItem<T>,
    selected_path: Vec<usize>,
}

impl<T> SelectionItem<T> {
    /// A recorded child is one of the node's children, and the children fit
    /// in memory.
    #[verifier::type_invariant]
    spec fn recorded_child_exists(self) -> bool {
        &&& self.children@.len() <= usize::MAX
        &&& self.last_selected_child_id matches Some(i) ==> i < self.children@.len()
    }

    /// The item held by this node.
    pub closed spec fn item_of(self) -> Option<T> {
        self.item
    }

    /// The children of this node.
    pub closed spec fn children_of(self) -> Seq<SelectionItem<T>> {
        self.children@
    }

    /// The child that moving down selects first, if one was recorded.
    pub closed spec fn last_child_of(self) -> Option<usize> {
        self.last_selected_child_id
    }
}

/// The node reached from `n` by following the child indices of `path`.
pub open spec fn node_at<T>(n: SelectionItem<T>, path: Seq<usize>) -> Option<SelectionItem<T>>
    decreases path.len(),
{
    if path.len() == 0 {
        Some(n)
    } else if path[0] < n.children_of().len() {
        node_at(n.children_of()[path[0] as int], path.drop_first())
    } else {
        None
    }
}

/// The content of a [`Selection`]: the tree and the path to the selected item.
pub struct SelectionState<T> {
    pub root: SelectionItem<T>,
    pub path: Seq<usize>,
}

/// The parent of the selected item: the node at the path without its last step.
pub open spec fn sel_parent<T>(s: SelectionState<T>) -> Option<SelectionItem<T>> {
    if s.path.len() == 0 {
        None
    } else {
        node_at(s.root, s.path.drop_last())
    }
}

/// The selected item.
pub open spec fn sel_item<T>(s: SelectionState<T>) -> Option<SelectionItem<T>> {
    node_at(s.root, s.path)
}

/// A selection state that the operations keep: the path is not empty, the
/// parent of the selected item exists (with a number of children that fits a
/// `usize`), and the selected item is one of its children, unless the parent
/// is a root without children.
pub open spec fn sel_wf<T>(s: SelectionState<T>) -> bool {
    &&& s.path.len() >= 1
    &&& sel_parent(s) is Some
    &&& sel_parent(s)->0.children_of().len() <= usize::MAX
    &&& sel_parent(s)->0.children_of().len() > 0 ==> s.path.last() < sel_parent(s)->0.children_of().len()
    &&& s.path.len() > 1 ==> sel_parent(s)->0.children_of().len() > 0
}

/// `b` is the tree `a` in which the node reached by `q` records `c` as the
/// child to come back to; nothing else changes.
pub open spec fn recorded<T>(a: SelectionItem<T>, b: SelectionItem<T>, q: Seq<usize>, c: usize) -> bool
    decreases q.len(),
{
    &&& a.item_of() == b.item_of()
    &&& a.children_of().len() == b.children_of().len()
    &&& if q.len() == 0 {
        b.last_child_of() == Some(c) && b.children_of() == a.children_of()
    } else {
        &&& b.last_child_of() == a.last_child_of()
        &&& q[0] < a.children_of().len()
        &&& forall|i: int| 0 <= i < a.children_of().len() && i != q[0] ==> b.children_of()[i] == a.children_of()[i]
        &&& recorded(a.children_of()[q[0] as int], b.children_of()[q[0] as int], q.drop_first(), c)
    }
}

/// Up: select the parent, and record in it the child that was left, so that
/// moving down comes back to it; at the top level nothing changes.
pub open spec fn sel_up_rel<T>(s: SelectionState<T>, u: SelectionState<T>) -> bool {
    if s.path.len() > 1 {
        &&& u.path == s.path.drop_last()
        &&& recorded(s.root, u.root, s.path.drop_last(), s.path.last())
    } else {
        u == s
    }
}

/// Down: select the recorded child of the selected item, else its first child.
pub open spec fn sel_down<T>(s: SelectionState<T>) -> SelectionState<T> {
    match sel_item(s) {
        Some(n) => match n.last_child_of() {
            Some(id) => SelectionState { root: s.root, path: s.path.push(id) },
            None => if n.children_of().len() > 0 {
                SelectionState { root: s.root, path: s.path.push(0) }
            } else {
                s
            },
        },
        None => s,
    }
}

/// Left: select the previous sibling, wrapping round to the last one.
pub open spec fn sel_left<T>(s: SelectionState<T>) -> SelectionState<T> {
    match sel_parent(s) {
        Some(p) => if p.children_of().len() > 0 {
            let i = s.path.last();
            let prev: usize = if i == 0 { (p.children_of().len() - 1) as usize } else { (i - 1) as usize };
            SelectionState { root: s.root, path: s.path.drop_last().push(prev) }
        } else {
            s
        },
        None => s,
    }
}

/// Right: select the next sibling, wrapping round to the first one.
pub open spec fn sel_right<T>(s: SelectionState<T>) -> SelectionState<T> {
    match sel_parent(s) {
        Some(p) => if p.children_of().len() > 0 {
            let i = s.path.last();
            let next: usize = if i == p.children_of().len() - 1 { 0 } else { (i + 1) as usize };
            SelectionState { root: s.root, path: s.path.drop_last().push(next) }
        } else {
            s
        },
        None => s,
    }
}

/// One more step along a path is one more step from the node the path reaches.
pub proof fn lemma_node_at_push<T>(n: SelectionItem<T>, path: Seq<usize>, i: usize)
    ensures
        node_at(n, path.push(i)) == match node_at(n, path) {
            Some(m) => if i < m.children_of().len() {
                Some(m.children_of()[i as int])
            } else {
                None
            },
            None => None,
        },
    decreases path.len(),
{
    if path.len() == 0 {
        assert(path.push(i).drop_first() =~= Seq::<usize>::empty());
        assert(path.push(i)[0] == i);
        if i < n.children_of().len() {
            assert(node_at(n.children_of()[i as int], Seq::<usize>::empty()) == Some(n.children_of()[i as int]));
        }
    } else {
        assert(path.push(i)[0] == path[0]);
        assert(path.push(i).drop_first() =~= path.drop_first().push(i));
        if path[0] < n.children_of().len() {
            lemma_node_at_push(n.children_of()[path[0] as int], path.drop_first(), i);
        }
    }
}

/// Following `p` and then `q` reaches the node that following `p ++ q` reaches.
pub proof fn lemma_node_at_append<T>(n: SelectionItem<T>, p: Seq<usize>, q: Seq<usize>)
    ensures
        node_at(n, p + q) == match node_at(n, p) {
            Some(m) => node_at(m, q),
            None => None,
        },
    decreases p.len(),
{
    if p.len() == 0 {
        assert(p + q =~= q);
    } else {
        assert((p + q)[0] == p[0]);
        assert((p + q).drop_first() =~= p.drop_first() + q);
        if p[0] < n.children_of().len() {
            lemma_node_at_append(n.children_of()[p[0] as int], p.drop_first(), q);
        }
    }
}

/// In a tree where the node reached by `q` recorded `c`, that node is still
/// reached, records `c`, and has the same children as before.
pub proof fn lemma_recorded_node<T>(a: SelectionItem<T>, b: SelectionItem<T>, q: Seq<usize>, c: usize)
    requires
        recorded(a, b, q, c),
    ensures
        node_at(a, q) is Some,
        node_at(b, q) is Some,
        node_at(b, q)->0.last_child_of() == Some(c),
        node_at(b, q)->0.children_of() == node_at(a, q)->0.children_of(),
    decreases q.len(),
{
    if q.len() > 0 {
        lemma_recorded_node(a.children_of()[q[0] as int], b.children_of()[q[0] as int], q.drop_first(), c);
    }
}

impl<T> View for Selection<T> {
    type V = SelectionState<T>;

    closed spec fn view(&self) -> SelectionState<T> {
        SelectionState { root: self.root, path: self.selected_path@ }
    }
}

impl<T> Default for SelectionItem<T> {
    fn default() -> (r: Self)
        ensures
            r.item_of() is None,
            r.children_of() == Seq::<SelectionItem<T>>::empty(),
            r.last_child_of() is None,
    {
        SelectionItem { item: None, children: Vec::new(), last_selected_child_id: None }
    }
}

impl<T> SelectionItem<T> {
    /// A leaf holding `item`.
    pub fn new(item: T) -> (r: Self)
        ensures
            r.item_of() == Some(item),
            r.children_of() == Seq::<SelectionItem<T>>::empty(),
            r.last_child_of() is None,
    {
        SelectionItem { item: Some(item), children: Vec::new(), last_selected_child_id: None }
    }

    /// The same node with the given children. A recorded child is kept only
    /// while it is one of the new children (nodes are only given children
    /// before they enter a [`Selection`], and only a selection records one).
    pub fn children(self, children: Vec<SelectionItem<T>>) -> (r: Self)
        ensures
            r.item_of() == self.item_of(),
            r.children_of() == children@,
            r.last_child_of() == match self.last_child_of() {
                Some(i) => if i < children@.len() { Some(i) } else { None },
                None => None,
            },
    {
        let SelectionItem { item, children: _, last_selected_child_id } = self;
        let n = children.len();
        let last = match last_selected_child_id {
            Some(i) => if i < n { Some(i) } else { None },
            None => None,
        };
        SelectionItem { item, children, last_selected_child_id: last }
    }

    /// The item held by this node.
    pub fn item(&self) -> (r: Option<&T>)
        ensures
            r == match self.item_of() {
                Some(x) => Some(&x),
                None => None::<&T>,
            },
    {
        match &self.item {
            Some(x) => Some(x),
            None => None,
        }
    }

    /// The number of children of this node.
    pub fn num_children(&self) -> (r: usize)
        ensures
            r == self.children_of().len(),
    {
        self.children.len()
    }

    /// Records `c` as the child to come back to at the node reached by the
    /// steps `path[depth..end]`.
    fn record_child(node: &mut SelectionItem<T>, path: &Vec<usize>, depth: usize, end: usize, c: usize)
        requires
            depth <= end <= path@.len(),
            node_at(*old(node), path@.subrange(depth as int, end as int)) matches Some(n) && c < n.children_of().len(),
        ensures
            recorded(*old(node), *final(node), path@.subrange(depth as int, end as int), c),
            depth < end ==> (node_at(*final(node), path@.subrange(depth as int, end - 1)) matches Some(g)
                && g.children_of().len() <= usize::MAX),
            node_at(*final(node), path@.subrange(depth as int, end as int)) matches Some(m)
                && m.children_of() == node_at(*old(node), path@.subrange(depth as int, end as int))->0.children_of()
                && m.last_child_of() == Some(c),
        decreases end - depth,
        no_unwind
    {
        proof { use_type_invariant(&*node); }
        let ghost q = path@.subrange(depth as int, end as int);
        if depth == end {
            assert(q =~= Seq::<usize>::empty());
            node.last_selected_child_id = Some(c);
        } else {
            let i = path[depth];
            let ghost old_node = *node;
            assert(q[0] == i);
            assert(q.drop_first() =~= path@.subrange(depth + 1, end as int));
            Self::record_child(&mut node.children[i], path, depth + 1, end, c);
            proof {
                use_type_invariant(&*node);
                assert(node.children@ == old_node.children@.update(i as int, node.children@[i as int]));
                let qd = path@.subrange(depth as int, end - 1);
                if depth + 1 < end {
                    assert(qd[0] == i);
                    assert(qd.drop_first() =~= path@.subrange(depth + 1, end - 1));
                } else {
                    assert(qd =~= Seq::<usize>::empty());
                }
                lemma_recorded_node(old_node, *node, q, c);
            }
        }
    }
}

impl<T> Selection<T> {
    /// The path leads into the tree as the operations keep it.
    #[verifier::type_invariant]
    spec fn well_formed(self) -> bool {
        sel_wf(self@)
    }

    /// A selection over a root holding `items`, with the first item selected.
    pub fn new(items: Vec<SelectionItem<T>>) -> (r: Self)
        ensures
            r@.root.item_of() is None,
            r@.root.children_of() == items@,
            r@.root.last_child_of() is None,
            r@.path == seq![0usize],
            sel_wf(r@),
    {
        let root = SelectionItem::default().children(items);
        proof { use_type_invariant(&root); }
        let mut selected_path: Vec<usize> = Vec::new();
        selected_path.push(0);
        assert(selected_path@.drop_last() =~= Seq::<usize>::empty());
        Selection { root, selected_path }
    }

    /// The node at the end of the path from `node` along `path`.
    fn walk<'a>(node: &'a SelectionItem<T>, path: &[usize]) -> (r: Option<&'a SelectionItem<T>>)
        ensures
            match r {
                Some(x) => node_at(*node, path@) == Some(*x),
                None => node_at(*node, path@) is None,
            },
    {
        let mut selected = node;
        let mut k: usize = 0;
        assert(path@.take(0) =~= Seq::<usize>::empty());
        while k < path.len()
            invariant
                k <= path@.len(),
                node_at(*node, path@.take(k as int)) == Some(*selected),
            decreases path@.len() - k,
        {
            let i = path[k];
            proof { lemma_node_at_push(*node, path@.take(k as int), i); }
            assert(path@.take(k as int).push(i) =~= path@.take(k + 1));
            if i < selected.children.len() {
                selected = &selected.children[i];
            } else {
                proof {
                    lemma_node_at_append(*node, path@.take(k + 1), path@.skip(k + 1));
                    assert(path@.take(k + 1) + path@.skip(k + 1) =~= path@);
                }
                return None;
            }
            k = k + 1;
        }
        assert(path@.take(k as int) =~= path@);
        Some(selected)
    }

    /// The currently selected item, if the path leads to one.
    pub fn get_selected_item(&self) -> (r: Option<&SelectionItem<T>>)
        ensures
            match r {
                Some(x) => sel_item(self@) == Some(*x),
                None => sel_item(self@) is None,
            },
    {
        Self::walk(&self.root, self.selected_path.as_slice())
    }

    /// The parent of the currently selected item.
    fn parent_of_selected(&self) -> (r: Option<&SelectionItem<T>>)
        ensures
            match r {
                Some(x) => sel_parent(self@) == Some(*x),
                None => sel_parent(self@) is None,
            },
    {
        let len = self.selected_path.len();
        if len == 0 {
            return None;
        }
        let prefix = vstd::slice::slice_subrange(self.selected_path.as_slice(), 0, len - 1);
        assert(prefix@ =~= self@.path.drop_last());
        Self::walk(&self.root, prefix)
    }

    /// Move the selection up a level: select the parent of the selected item,
    /// which records the child that was left so that moving down selects it
    /// again. At the top level the selection is unchanged.
    pub fn up(&mut self)
        ensures
            sel_up_rel(old(self)@, final(self)@),
            sel_wf(final(self)@),
    {
        proof { use_type_invariant(&*self); }
        let len = self.selected_path.len();
        if len > 1 {
            let ghost s = self@;
            let child = self.selected_path[len - 1];
            let ghost q = s.path.drop_last();
            let new_path = vstd::slice::slice_to_vec(
                vstd::slice::slice_subrange(self.selected_path.as_slice(), 0, len - 1),
            );
            assert(new_path@ =~= q);
            proof {
                assert(q.push(child) =~= s.path);
                assert(s.path.subrange(0, len - 1) =~= q);
                lemma_node_at_push(s.root, q, child);
            }
            SelectionItem::record_child(&mut self.root, &self.selected_path, 0, len - 1, child);
            proof {
                assert(s.path.subrange(0, len - 2) =~= q.drop_last());
                lemma_recorded_node(s.root, self.root, q, child);
                assert(q.drop_last().push(q.last()) =~= q);
                lemma_node_at_push(self.root, q.drop_last(), q.last());
                let ns = SelectionState { root: self.root, path: q };
                assert(ns.path.drop_last() =~= q.drop_last());
                assert(sel_wf(ns));
            }
            self.selected_path = new_path;
        }
    }

    /// Move the selection down a level: select the recorded child of the
    /// selected item if there is one, else its first child. Without children,
    /// the selection is unchanged.
    pub fn down(&mut self)
        ensures
            final(self)@ == sel_down(old(self)@),
            sel_wf(final(self)@),
    {
        proof { use_type_invariant(&*self); }
        let ghost s = self@;
        let mut next: Option<usize> = None;
        if let Some(selected) = self.get_selected_item() {
            proof { use_type_invariant(selected); }
            match selected.last_selected_child_id {
                Some(last_selected_child_id) => next = Some(last_selected_child_id),
                None => if selected.children.len() > 0 {
                    next = Some(0);
                },
            }
        }
        if let Some(id) = next {
            let mut new_path = vstd::slice::slice_to_vec(self.selected_path.as_slice());
            new_path.push(id);
            proof {
                lemma_node_at_push(s.root, s.path, id);
                assert(new_path@ =~= s.path.push(id));
                assert(s.path.push(id).drop_last() =~= s.path);
                let ns = SelectionState { root: s.root, path: new_path@ };
                assert(sel_wf(ns));
            }
            self.selected_path = new_path;
        }
    }

    /// Select the item left of the selected item, wrapping round to the last child.
    pub fn left(&mut self)
        ensures
            final(self)@ == sel_left(old(self)@),
            sel_wf(final(self)@),
    {
        proof { use_type_invariant(&*self); }
        let ghost s = self@;
        let mut prev: Option<usize> = None;
        if let Some(parent) = self.parent_of_selected() {
            if parent.children.len() > 0 {
                let children_len = parent.children.len();
                let child_index = self.selected_path[self.selected_path.len() - 1];
                let is_first_child = child_index == 0;
                prev = Some(if is_first_child { children_len - 1 } else { child_index - 1 });
            }
        }
        if let Some(prev_index) = prev {
            let last = self.selected_path.len() - 1;
            let mut new_path = vstd::slice::slice_to_vec(self.selected_path.as_slice());
            new_path.set(last, prev_index);
            proof {
                let np = s.path.drop_last().push(prev_index);
                assert(np.drop_last() =~= s.path.drop_last());
                lemma_node_at_push(s.root, s.path.drop_last(), prev_index);
                assert(new_path@ =~= np);
                let ns = SelectionState { root: s.root, path: np };
                assert(sel_wf(ns));
            }
            self.selected_path = new_path;
        }
    }

    /// Select the item right of the selected item, wrapping round to the first child.
    pub fn right(&mut self)
        ensures
            final(self)@ == sel_right(old(self)@),
            sel_wf(final(self)@),
    {
        proof { use_type_invariant(&*self); }
        let ghost s = self@;
        let mut next: Option<usize> = None;
        if let Some(parent) = self.parent_of_selected() {
            if parent.children.len() > 0 {
                let children_len = parent.children.len();
                let child_index = self.selected_path[self.selected_path.len() - 1];
                let is_last_child = child_index == children_len - 1;
                next = Some(if is_last_child { 0 } else { child_index + 1 });
            }
        }
        if let Some(next_index) = next {
            let last = self.selected_path.len() - 1;
            let mut new_path = vstd::slice::slice_to_vec(self.selected_path.as_slice());
            new_path.set(last, next_index);
            proof {
                let np = s.path.drop_last().push(next_index);
                assert(np.drop_last() =~= s.path.drop_last());
                lemma_node_at_push(s.root, s.path.drop_last(), next_index);
                assert(new_path@ =~= np);
                let ns = SelectionState { root: s.root, path: np };
                assert(sel_wf(ns));
            }
            self.selected_path = new_path;
        }
    }
}

/// Right undoes left and left undoes right.
pub proof fn lemma_left_right_inverse<T>(s: SelectionState<T>)
    requires
        sel_wf(s),
    ensures
        sel_left(sel_right(s)) == s,
        sel_right(sel_left(s)) == s,
{
    let p = sel_parent(s)->0;
    if p.children_of().len() > 0 {
        let i = s.path.last();
        assert(s.path.drop_last().push(i) =~= s.path);
        let r = sel_right(s);
        assert(r.path.last() == (if i == p.children_of().len() - 1 { 0 } else { (i + 1) as usize }));
        assert(r.path.drop_last() =~= s.path.drop_last());
        assert(sel_parent(r) == sel_parent(s));
        assert(sel_left(r).path =~= s.path);
        let l = sel_left(s);
        assert(l.path.last() == (if i == 0 { (p.children_of().len() - 1) as usize } else { (i - 1) as usize }));
        assert(l.path.drop_last() =~= s.path.drop_last());
        assert(sel_parent(l) == sel_parent(s));
        assert(sel_right(l).path =~= s.path);
    }
}

/// When moving down selects a child, moving up selects the item again and
/// records that child in it.
pub proof fn lemma_down_then_up<T>(s: SelectionState<T>, u: SelectionState<T>)
    requires
        sel_wf(s),
        sel_down(s) != s,
        sel_up_rel(sel_down(s), u),
    ensures
        u.path == s.path,
        recorded(s.root, u.root, s.path, sel_down(s).path.last()),
{
    let d = sel_down(s);
    assert(d.path.drop_last() =~= s.path);
}

/// Moving up and then down selects the same item again: up records the child
/// it leaves, and down returns to the recorded child.
pub proof fn lemma_up_then_down<T>(s: SelectionState<T>, u: SelectionState<T>)
    requires
        sel_wf(s),
        s.path.len() > 1,
        sel_up_rel(s, u),
    ensures
        sel_down(u).path == s.path,
        sel_down(u).root == u.root,
{
    let q = s.path.drop_last();
    lemma_recorded_node(s.root, u.root, q, s.path.last());
    assert(q.push(s.path.last()) =~= s.path);
}

/// Moving down, left and right never change the tree, only the path into it;
/// moving up only records the child it leaves.
pub proof fn lemma_tree_unchanged<T>(s: SelectionState<T>)
    ensures
        sel_down(s).root == s.root,
        sel_left(s).root == s.root,
        sel_right(s).root == s.root,
{
}

} // verus!
