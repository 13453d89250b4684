//! Node-page addressing: which page holds a node, and where in that page.

use vstd::prelude::*;

verus! {

/// The page that holds the node with the given global index.
pub open spec fn page_of(global_index: nat, nodes_per_page: nat) -> nat
    recommends
        nodes_per_page > 0,
{
    global_index / nodes_per_page
}

/// The position of the node inside its page.
pub open spec fn offset_in_page(global_index: nat, nodes_per_page: nat) -> nat
    recommends
        nodes_per_page > 0,
{
    global_index % nodes_per_page
}

/// Page and offset determine the global index, and the offset stays below
/// the page capacity.
pub proof fn lemma_page_and_offset_recompose(global_index: nat, nodes_per_page: nat)
    requires
        nodes_per_page > 0,
    ensures
        page_of(global_index, nodes_per_page) * nodes_per_page + offset_in_page(
            global_index,
            nodes_per_page,
        ) == global_index,
        0 <= offset_in_page(global_index, nodes_per_page) < nodes_per_page,
{
    let i = global_index as int;
    let n = nodes_per_page as int;
    assert((i / n) * n + i % n == i && 0 <= i % n < n) by (nonlinear_arith)
        requires
            n > 0,
            i >= 0,
    ;
}

/// Addressing is the inverse of composing: the node that stands at `offset`
/// in page `page` is found again at that page and offset.
pub proof fn lemma_index_of_page_and_offset(page: nat, offset: nat, nodes_per_page: nat)
    requires
        nodes_per_page > 0,
        offset < nodes_per_page,
    ensures
        page_of(page * nodes_per_page + offset, nodes_per_page) == page,
        offset_in_page(page * nodes_per_page + offset, nodes_per_page) == offset,
{
    let p = page as int;
    let o = offset as int;
    let n = nodes_per_page as int;
    assert((p * n + o) / n == p && (p * n + o) % n == o) by (nonlinear_arith)
        requires
            n > 0,
            0 <= o < n,
            p >= 0,
    ;
}

/// Number of the page in which the node `node_index` is stored.
pub fn get_node_page_index(node_index: usize, nodes_per_page: usize) -> (page: usize)
    requires
        nodes_per_page > 0,
    ensures
        page == page_of(node_index as nat, nodes_per_page as nat),
{
    node_index / nodes_per_page
}

/// Position of the node `node_index` inside its page.
pub fn get_node_index_in_node_page(node_index: usize, nodes_per_page: usize) -> (offset: usize)
    requires
        nodes_per_page > 0,
    ensures
        offset == offset_in_page(node_index as nat, nodes_per_page as nat),
{
    node_index % nodes_per_page
}

} // verus!
