//! Index and length facts for the sequence views of the node tree, used
//! throughout the reconciler's proofs.

use vstd::prelude::*;

use crate::node::{
    container_view, entries_view, nodes_view, spec_cleared, spec_cleared_entries,
    spec_cleared_nodes, NodeContainer, NodeContainerV,
};

verus! {

pub broadcast proof fn lemma_nodes_view_len(s: Seq<NodeContainer>)
    ensures
        (#[trigger] nodes_view(s)).len() == s.len(),
    decreases s.len(),
{
    if s.len() > 0 {
        lemma_nodes_view_len(s.drop_last());
    }
}

pub broadcast proof fn lemma_nodes_view_index(s: Seq<NodeContainer>, i: int)
    requires
        0 <= i < s.len(),
    ensures
        #[trigger] nodes_view(s)[i] == container_view(s[i]),
    decreases s.len(),
{
    lemma_nodes_view_len(s);
    if s.len() > 0 && i < s.len() - 1 {
        lemma_nodes_view_index(s.drop_last(), i);
    }
}

pub broadcast proof fn lemma_entries_view_len(s: Seq<(String, NodeContainer)>)
    ensures
        (#[trigger] entries_view(s)).len() == s.len(),
    decreases s.len(),
{
    if s.len() > 0 {
        lemma_entries_view_len(s.drop_last());
    }
}

pub broadcast proof fn lemma_entries_view_index(s: Seq<(String, NodeContainer)>, i: int)
    requires
        0 <= i < s.len(),
    ensures
        #[trigger] entries_view(s)[i] == (s[i].0@, container_view(s[i].1)),
    decreases s.len(),
{
    lemma_entries_view_len(s);
    if s.len() > 0 && i < s.len() - 1 {
        lemma_entries_view_index(s.drop_last(), i);
    }
}

pub broadcast proof fn lemma_cleared_nodes_len(s: Seq<NodeContainerV>)
    ensures
        (#[trigger] spec_cleared_nodes(s)).len() == s.len(),
    decreases s.len(),
{
    if s.len() > 0 {
        lemma_cleared_nodes_len(s.drop_last());
    }
}

pub broadcast proof fn lemma_cleared_nodes_index(s: Seq<NodeContainerV>, i: int)
    requires
        0 <= i < s.len(),
    ensures
        #[trigger] spec_cleared_nodes(s)[i] == spec_cleared(s[i]),
    decreases s.len(),
{
    lemma_cleared_nodes_len(s);
    if s.len() > 0 && i < s.len() - 1 {
        lemma_cleared_nodes_index(s.drop_last(), i);
    }
}

pub broadcast group group_node_views {
    lemma_nodes_view_len,
    lemma_nodes_view_index,
    lemma_entries_view_len,
    lemma_entries_view_index,
    lemma_cleared_entries_len,
    lemma_cleared_entries_index,
    lemma_cleared_nodes_len,
    lemma_cleared_nodes_index,
}

pub broadcast proof fn lemma_cleared_entries_len(s: Seq<(Seq<char>, NodeContainerV)>)
    ensures
        (#[trigger] spec_cleared_entries(s)).len() == s.len(),
    decreases s.len(),
{
    if s.len() > 0 {
        lemma_cleared_entries_len(s.drop_last());
    }
}

pub broadcast proof fn lemma_cleared_entries_index(s: Seq<(Seq<char>, NodeContainerV)>, i: int)
    requires
        0 <= i < s.len(),
    ensures
        #[trigger] spec_cleared_entries(s)[i] == (s[i].0, spec_cleared(s[i].1)),
    decreases s.len(),
{
    lemma_cleared_entries_len(s);
    if s.len() > 0 && i < s.len() - 1 {
        lemma_cleared_entries_index(s.drop_last(), i);
    }
}


} // verus!
