//! The scene tree: an arena of node records keyed by global index, filled
//! page by page, and the structural queries answered from it.

use vstd::prelude::*;
use crate::error::SceneError;
use crate::merge::{conflicts, merged};
use crate::node::{Node, NodePage};

verus! {

/// What a listed index leads to in the arena as it is loaded now.
#[derive(Debug, Clone, Copy)]
pub enum Link<'a> {
    /// The record is loaded.
    Loaded(&'a Node),
    /// No record with this global index is loaded yet.
    Pending(usize),
}

impl<'a> Link<'a> {
    /// The record of a loaded link; a pending one is reported as
    /// `PendingDependency` with the index that has to be fetched.
    pub fn loaded(self) -> (r: Result<&'a Node, SceneError>)
        ensures
            match self {
                Link::Loaded(n) => r == Ok::<&Node, SceneError>(n),
                Link::Pending(i) => r == Err::<&Node, SceneError>(SceneError::PendingDependency(i)),
            },
    {
        match self {
            Link::Loaded(n) => Ok(n),
            Link::Pending(i) => Err(SceneError::PendingDependency(i)),
        }
    }
}

/// The link that the index `index` resolves to in `arena`.
pub open spec fn resolves_to(arena: Map<usize, Node>, index: usize, link: Link) -> bool {
    match link {
        Link::Loaded(n) => arena.contains_key(index) && *n == arena[index],
        Link::Pending(i) => !arena.contains_key(index) && i == index,
    }
}

/// The record with global index `index` has no parent index.
pub open spec fn is_root_in(arena: Map<usize, Node>, index: usize) -> bool {
    arena.contains_key(index) && arena[index].parent_index is None
}

/// `parent` lists `child` among its children, both are loaded, and `child`
/// names another node as its parent.
pub open spec fn link_mismatch(arena: Map<usize, Node>, parent: usize, child: usize) -> bool {
    &&& arena.contains_key(parent)
    &&& arena.contains_key(child)
    &&& arena[parent].children@.contains(child)
    &&& arena[child].parent_index is Some
    &&& arena[child].parent_index != Some(parent)
}

/// No loaded node lists a loaded child that names another parent.
pub open spec fn links_consistent(arena: Map<usize, Node>) -> bool {
    forall|p: usize, c: usize| !link_mismatch(arena, p, c)
}

spec fn has_index(nodes: Seq<Node>, index: usize) -> bool {
    exists|i: int| 0 <= i < nodes.len() && (#[trigger] nodes[i]).index == index
}

spec fn position(nodes: Seq<Node>, index: usize) -> int {
    choose|i: int| 0 <= i < nodes.len() && (#[trigger] nodes[i]).index == index
}

spec fn distinct_indices(nodes: Seq<Node>) -> bool {
    forall|i: int, j: int|
        0 <= i < j < nodes.len() ==> (#[trigger] nodes[i]).index != (#[trigger] nodes[j]).index
}

spec fn arena_of(nodes: Seq<Node>) -> Map<usize, Node> {
    Map::new(|k: usize| has_index(nodes, k), |k: usize| nodes[position(nodes, k)])
}

proof fn lemma_arena_at(nodes: Seq<Node>, i: int)
    requires
        distinct_indices(nodes),
        0 <= i < nodes.len(),
    ensures
        arena_of(nodes).contains_key(nodes[i].index),
        arena_of(nodes)[nodes[i].index] == nodes[i],
        position(nodes, nodes[i].index) == i,
{
    let k = nodes[i].index;
    assert(has_index(nodes, k));
    let p = position(nodes, k);
    assert(nodes[p].index == k);
    if p < i {
        assert(nodes[p].index != nodes[i].index);
    } else if i < p {
        assert(nodes[i].index != nodes[p].index);
    }
}

proof fn lemma_arena_push(nodes: Seq<Node>, node: Node)
    requires
        distinct_indices(nodes),
        !has_index(nodes, node.index),
    ensures
        distinct_indices(nodes.push(node)),
        arena_of(nodes.push(node)) == arena_of(nodes).insert(node.index, node),
{
    let after = nodes.push(node);
    assert forall|i: int, j: int| 0 <= i < j < after.len() implies (#[trigger] after[i]).index != (
    #[trigger] after[j]).index by {
        if j == nodes.len() {
            assert(nodes[i].index != node.index);
        } else {
            assert(nodes[i].index != nodes[j].index);
        }
    }
    let want = arena_of(nodes).insert(node.index, node);
    assert forall|k: usize| arena_of(after).contains_key(k) == want.contains_key(k) by {
        if has_index(after, k) {
            let p = position(after, k);
            if p < nodes.len() {
                assert(nodes[p].index == k);
            }
        }
        if want.contains_key(k) {
            if k == node.index {
                assert(after[nodes.len() as int].index == k);
            } else {
                let p = position(nodes, k);
                assert(after[p].index == k);
            }
        }
    }
    assert forall|k: usize| #[trigger] arena_of(after).contains_key(k) implies arena_of(after)[k]
        == want[k] by {
        let p = position(after, k);
        lemma_arena_at(after, p);
        if p < nodes.len() {
            lemma_arena_at(nodes, p);
        }
    }
    assert(arena_of(after) =~= want);
}

proof fn lemma_arena_update(nodes: Seq<Node>, at: int, node: Node)
    requires
        distinct_indices(nodes),
        0 <= at < nodes.len(),
        nodes[at].index == node.index,
    ensures
        distinct_indices(nodes.update(at, node)),
        arena_of(nodes.update(at, node)) == arena_of(nodes).insert(node.index, node),
{
    let after = nodes.update(at, node);
    assert forall|i: int, j: int| 0 <= i < j < after.len() implies (#[trigger] after[i]).index != (
    #[trigger] after[j]).index by {
        assert(nodes[i].index != nodes[j].index);
    }
    let want = arena_of(nodes).insert(node.index, node);
    assert forall|k: usize| arena_of(after).contains_key(k) == want.contains_key(k) by {
        if has_index(after, k) {
            let p = position(after, k);
            assert(nodes[p].index == k);
        }
        if has_index(nodes, k) {
            let p = position(nodes, k);
            assert(after[p].index == k);
        }
        if k == node.index {
            assert(after[at].index == k);
        }
    }
    assert forall|k: usize| #[trigger] arena_of(after).contains_key(k) implies arena_of(after)[k]
        == want[k] by {
        let p = position(after, k);
        lemma_arena_at(after, p);
        lemma_arena_at(nodes, p);
    }
    assert(arena_of(after) =~= want);
}

proof fn lemma_arena_size(nodes: Seq<Node>)
    requires
        distinct_indices(nodes),
    ensures
        arena_of(nodes).dom().finite(),
        arena_of(nodes).dom().len() == nodes.len(),
    decreases nodes.len(),
{
    if nodes.len() == 0 {
        assert(arena_of(nodes).dom() =~= Set::<usize>::empty());
    } else {
        let front = nodes.drop_last();
        let last = nodes.last();
        assert forall|i: int, j: int| 0 <= i < j < front.len() implies (#[trigger] front[i]).index
            != (#[trigger] front[j]).index by {
            assert(nodes[i].index != nodes[j].index);
        }
        if has_index(front, last.index) {
            let p = position(front, last.index);
            assert(nodes[p].index != nodes[nodes.len() - 1].index);
        }
        lemma_arena_size(front);
        lemma_arena_push(front, last);
        assert(front.push(last) =~= nodes);
        assert(arena_of(nodes).dom() =~= arena_of(front).dom().insert(last.index));
    }
}

/// Position of the record with global index `index`.
fn find_in(nodes: &Vec<Node>, index: usize) -> (at: Option<usize>)
    ensures
        match at {
            Some(i) => i < nodes@.len() && nodes@[i as int].index == index,
            None => !has_index(nodes@, index),
        },
{
    let mut i: usize = 0;
    while i < nodes.len()
        invariant
            i <= nodes@.len(),
            forall|j: int| 0 <= j < i ==> (#[trigger] nodes@[j]).index != index,
        decreases nodes@.len() - i,
    {
        if nodes[i].index == index {
            return Some(i);
        }
        i += 1;
    }
    None
}

/// Puts `node` where the record of its index stands, or at the end.
fn put(nodes: &mut Vec<Node>, node: Node) -> (replaced: bool)
    requires
        distinct_indices(old(nodes)@),
    ensures
        distinct_indices(final(nodes)@),
        arena_of(final(nodes)@) == arena_of(old(nodes)@).insert(node.index, node),
        replaced == arena_of(old(nodes)@).contains_key(node.index),
{
    match find_in(nodes, node.index) {
        Some(i) => {
            proof {
                lemma_arena_at(nodes@, i as int);
                lemma_arena_update(nodes@, i as int, node);
            }
            nodes.set(i, node);
            true
        },
        None => {
            proof {
                lemma_arena_push(nodes@, node);
            }
            nodes.push(node);
            false
        },
    }
}

/// The arena that owns every loaded node record.
#[derive(Debug)]
pub struct SceneTree {
    nodes: Vec<Node>,
}

impl View for SceneTree {
    type V = Map<usize, Node>;

    /// The loaded records by global index.
    closed spec fn view(&self) -> Map<usize, Node> {
        arena_of(self.nodes@)
    }
}

impl SceneTree {
    /// No two records of the arena carry the same global index.
    #[verifier::type_invariant]
    spec fn wf(&self) -> bool {
        distinct_indices(self.nodes@)
    }

    /// An arena with nothing loaded.
    pub fn new() -> (tree: Self)
        ensures
            tree@ == Map::<usize, Node>::empty(),
    {
        let tree = SceneTree { nodes: Vec::new() };
        assert(tree@ =~= Map::<usize, Node>::empty());
        tree
    }

    /// Number of loaded records.
    pub fn len(&self) -> (n: usize)
        ensures
            self@.dom().finite(),
            n == self@.dom().len(),
    {
        proof {
            use_type_invariant(self);
            lemma_arena_size(self.nodes@);
        }
        self.nodes.len()
    }

    /// The record with global index `index`, if it is loaded.
    pub fn get(&self, index: usize) -> (r: Option<&Node>)
        ensures
            match r {
                Some(n) => self@.contains_key(index) && *n == self@[index],
                None => !self@.contains_key(index),
            },
    {
        proof {
            use_type_invariant(self);
        }
        match find_in(&self.nodes, index) {
            Some(i) => {
                proof {
                    lemma_arena_at(self.nodes@, i as int);
                }
                Some(&self.nodes[i])
            },
            None => None,
        }
    }

    /// What the index `index` leads to: the loaded record, or a pending
    /// marker that carries the index.
    pub fn resolve(&self, index: usize) -> (link: Link<'_>)
        ensures
            resolves_to(self@, index, link),
    {
        match self.get(index) {
            Some(n) => Link::Loaded(n),
            None => Link::Pending(index),
        }
    }

    /// Puts one record into the arena under its global index. Returns whether
    /// it replaced a record that was there.
    pub fn insert_node(&mut self, node: Node) -> (replaced: bool)
        ensures
            final(self)@ == old(self)@.insert(node.index, node),
            replaced == old(self)@.contains_key(node.index),
    {
        proof {
            use_type_invariant(&*self);
        }
        let mut nodes: Vec<Node> = Vec::new();
        std::mem::swap(&mut nodes, &mut self.nodes);
        let replaced = put(&mut nodes, node);
        self.nodes = nodes;
        replaced
    }

    /// Merges a page into the arena: every record of the page is put in under
    /// its global index, in the order of the page. A record whose index is
    /// already there replaces the earlier one. Returns the indices at which
    /// that happened, for the caller to log.
    pub fn insert(&mut self, page: NodePage) -> (replaced: Vec<usize>)
        ensures
            final(self)@ == merged(old(self)@, page.nodes@),
            replaced@ == conflicts(old(self)@, page.nodes@),
    {
        let mut replaced: Vec<usize> = Vec::new();
        let ghost records = page.nodes@;
        for node in it: page.nodes
            invariant
                it.seq() == records,
                self@ == merged(old(self)@, records.take(it.index() as int)),
                replaced@ == conflicts(old(self)@, records.take(it.index() as int)),
        {
            proof {
                let upto = records.take(it.index() + 1);
                assert(upto.drop_last() =~= records.take(it.index() as int));
                assert(upto.last() == node);
            }
            let index = node.index;
            if self.insert_node(node) {
                replaced.push(index);
            }
        }
        proof {
            assert(records.take(records.len() as int) =~= records);
        }
        replaced
    }

    /// Merges the outcome of a fetch. A page that arrived is merged as by
    /// `insert`; a failed fetch leaves the arena as it was and is handed back.
    pub fn insert_fetched(&mut self, fetched: Result<NodePage, SceneError>) -> (r: Result<
        Vec<usize>,
        SceneError,
    >)
        ensures
            match fetched {
                Ok(page) => final(self)@ == merged(old(self)@, page.nodes@) && r is Ok
                    && r->Ok_0@ == conflicts(old(self)@, page.nodes@),
                Err(e) => final(self)@ == old(self)@ && r == Err::<Vec<usize>, SceneError>(e),
            },
    {
        match fetched {
            Ok(page) => Ok(self.insert(page)),
            Err(e) => Err(e),
        }
    }

    /// The one record without a parent index. `NoRoot` when every loaded
    /// record has a parent index (or nothing is loaded), `MultipleRoots` when
    /// two or more have none.
    pub fn root(&self) -> (r: Result<&Node, SceneError>)
        ensures
            match r {
                Ok(n) => {
                    &&& is_root_in(self@, n.index)
                    &&& *n == self@[n.index]
                    &&& forall|k: usize| is_root_in(self@, k) ==> k == n.index
                },
                Err(SceneError::NoRoot) => forall|k: usize| !is_root_in(self@, k),
                Err(SceneError::MultipleRoots) => exists|a: usize, b: usize|
                    a != b && is_root_in(self@, a) && is_root_in(self@, b),
                Err(_) => false,
            },
    {
        proof {
            use_type_invariant(self);
        }
        let mut found: Option<usize> = None;
        let mut i: usize = 0;
        while i < self.nodes.len()
            invariant
                distinct_indices(self.nodes@),
                i <= self.nodes@.len(),
                match found {
                    None => forall|j: int|
                        0 <= j < i ==> (#[trigger] self.nodes@[j]).parent_index is Some,
                    Some(p) => {
                        &&& p < i
                        &&& self.nodes@[p as int].parent_index is None
                        &&& forall|j: int|
                            0 <= j < i && j != p ==> (#[trigger] self.nodes@[j]).parent_index is Some
                    },
                },
            decreases self.nodes@.len() - i,
        {
            if self.nodes[i].parent_index.is_none() {
                if let Some(p) = found {
                    proof {
                        lemma_arena_at(self.nodes@, p as int);
                        lemma_arena_at(self.nodes@, i as int);
                        let a = self.nodes@[p as int].index;
                        let b = self.nodes@[i as int].index;
                        assert(a != b && is_root_in(self@, a) && is_root_in(self@, b));
                    }
                    return Err(SceneError::MultipleRoots);
                }
                found = Some(i);
            }
            i += 1;
        }
        match found {
            None => {
                proof {
                    assert forall|k: usize| !is_root_in(self@, k) by {
                        if self@.contains_key(k) {
                            let p = position(self.nodes@, k);
                            assert(self.nodes@[p].parent_index is Some);
                        }
                    }
                }
                Err(SceneError::NoRoot)
            },
            Some(p) => {
                proof {
                    lemma_arena_at(self.nodes@, p as int);
                    assert forall|k: usize| is_root_in(self@, k) implies k == self.nodes@[p as int].index by {
                        let q = position(self.nodes@, k);
                        assert(self.nodes@[q].index == k);
                        if q != p {
                            assert(self.nodes@[q].parent_index is Some);
                        }
                    }
                }
                Ok(&self.nodes[p])
            },
        }
    }

    /// The parent of `node`: `None` when `node` has no parent index, a loaded
    /// link when the parent is in the arena, and a pending link with the
    /// parent's index when its page has not been merged yet.
    pub fn parent_of(&self, node: &Node) -> (r: Option<Link<'_>>)
        ensures
            match node.parent_index {
                None => r is None,
                Some(p) => r is Some && resolves_to(self@, p, r->Some_0),
            },
    {
        match node.parent_index {
            None => None,
            Some(p) => Some(self.resolve(p)),
        }
    }

    /// The children of `node`, one link for each listed index and in the
    /// listed order. A child that is not loaded is a pending link, never left
    /// out.
    pub fn children_of(&self, node: &Node) -> (links: Vec<Link<'_>>)
        ensures
            links@.len() == node.children@.len(),
            forall|i: int|
                0 <= i < links@.len() ==> resolves_to(self@, node.children@[i], #[trigger] links@[i]),
    {
        let mut links: Vec<Link<'_>> = Vec::new();
        let mut i: usize = 0;
        while i < node.children.len()
            invariant
                i <= node.children@.len(),
                links@.len() == i,
                forall|j: int|
                    0 <= j < i ==> resolves_to(self@, node.children@[j], #[trigger] links@[j]),
            decreases node.children@.len() - i,
        {
            let link = self.resolve(node.children[i]);
            links.push(link);
            i += 1;
        }
        links
    }

    /// Looks for a loaded node that lists a loaded child which names another
    /// node as its parent. Returns such a pair (parent, child) if there is
    /// one, and `None` when the loaded links agree. Nothing is corrected.
    pub fn find_link_mismatch(&self) -> (r: Option<(usize, usize)>)
        ensures
            match r {
                Some((parent, child)) => link_mismatch(self@, parent, child),
                None => links_consistent(self@),
            },
    {
        proof {
            use_type_invariant(self);
        }
        let mut i: usize = 0;
        while i < self.nodes.len()
            invariant
                distinct_indices(self.nodes@),
                i <= self.nodes@.len(),
                forall|a: int, c: usize|
                    0 <= a < i ==> !#[trigger] link_mismatch(self@, self.nodes@[a].index, c),
            decreases self.nodes@.len() - i,
        {
            let parent = &self.nodes[i];
            proof {
                lemma_arena_at(self.nodes@, i as int);
            }
            let mut j: usize = 0;
            while j < parent.children.len()
                invariant
                    distinct_indices(self.nodes@),
                    i < self.nodes@.len(),
                    *parent == self.nodes@[i as int],
                    self@.contains_key(parent.index),
                    self@[parent.index] == *parent,
                    j <= parent.children@.len(),
                    forall|b: int|
                        0 <= b < j ==> !link_mismatch(
                            self@,
                            parent.index,
                            #[trigger] parent.children@[b],
                        ),
                decreases parent.children@.len() - j,
            {
                let child = parent.children[j];
                if let Some(record) = self.get(child) {
                    if let Some(named) = record.parent_index {
                        if named != parent.index {
                            return Some((parent.index, child));
                        }
                    }
                }
                j += 1;
            }
            proof {
                assert forall|c: usize| !link_mismatch(self@, parent.index, c) by {
                    if parent.children@.contains(c) {
                        let b = choose|b: int|
                            0 <= b < parent.children@.len() && parent.children@[b] == c;
                        assert(!link_mismatch(self@, parent.index, parent.children@[b]));
                    }
                }
            }
            i += 1;
        }
        proof {
            assert forall|p: usize, c: usize| !link_mismatch(self@, p, c) by {
                if self@.contains_key(p) {
                    let a = position(self.nodes@, p);
                    assert(self.nodes@[a].index == p);
                    assert(!link_mismatch(self@, self.nodes@[a].index, c));
                }
            }
        }
        None
    }
}

impl Node {
    /// The parent of this node in `tree`, as `SceneTree::parent_of` gives it.
    pub fn parent<'a>(&self, tree: &'a SceneTree) -> (r: Option<Link<'a>>)
        ensures
            match self.parent_index {
                None => r is None,
                Some(p) => r is Some && resolves_to(tree@, p, r->Some_0),
            },
    {
        tree.parent_of(self)
    }

    /// The children of this node in `tree`, as `SceneTree::children_of` gives
    /// them.
    pub fn children<'a>(&self, tree: &'a SceneTree) -> (links: Vec<Link<'a>>)
        ensures
            links@.len() == self.children@.len(),
            forall|i: int|
                0 <= i < links@.len() ==> resolves_to(tree@, self.children@[i], #[trigger] links@[i]),
    {
        tree.children_of(self)
    }
}

} // verus!
