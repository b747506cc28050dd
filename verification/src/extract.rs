//! Window tree extraction: a pure pass that turns the compositor's tree into
//! the ordered list of application-window records the dock renders.
//!
//! The order is depth-first: a node's own record (if any) first, then its
//! ordinary children, each subtree completed before the next sibling, then
//! its floating children. A node yields a record exactly when it is a
//! container, has a name, and carries an application identifier or window
//! properties; absent texts degrade to empty strings, never to an error.

use vstd::prelude::*;

use crate::tree::{NodeKind, RecordView, WindowNode, WindowRecord};

verus! {

/// Whether a node stands for an application window and yields a record.
pub open spec fn node_included(n: WindowNode) -> bool {
    &&& n.node_type == NodeKind::Container
    &&& n.name is Some
    &&& (n.app_id is Some || n.window_properties is Some)
}

/// The application identifier of a record: the node's own identifier, else
/// the window-properties class, else the empty string.
pub open spec fn record_app_id(n: WindowNode) -> Seq<char> {
    match n.app_id {
        Some(a) => a@,
        None => match n.window_properties {
            Some(p) => match p.class {
                Some(c) => c@,
                None => Seq::<char>::empty(),
            },
            None => Seq::<char>::empty(),
        },
    }
}

/// The record an included node yields. The title falls back to the empty
/// string if the name is absent.
pub open spec fn record_of(n: WindowNode) -> RecordView {
    RecordView {
        id: n.id as int,
        title: match n.name {
            Some(t) => t@,
            None => Seq::<char>::empty(),
        },
        app_id: record_app_id(n),
        focused: n.focused,
    }
}

/// The records of one subtree, in depth-first order: the node's own record
/// first, then the ordinary children, then the floating children.
pub open spec fn extract_tree(n: WindowNode) -> Seq<RecordView>
    decreases n,
{
    (if node_included(n) {
        seq![record_of(n)]
    } else {
        Seq::<RecordView>::empty()
    }) + extract_forest(n.nodes@) + extract_forest(n.floating_nodes@)
}

/// The records of a row of sibling subtrees, each completed before the next.
pub open spec fn extract_forest(s: Seq<WindowNode>) -> Seq<RecordView>
    decreases s,
{
    if s.len() == 0 {
        Seq::<RecordView>::empty()
    } else {
        extract_tree(s[0]) + extract_forest(s.drop_first())
    }
}

/// The mathematical image of a record list.
pub open spec fn records_view(v: Seq<WindowRecord>) -> Seq<RecordView> {
    v.map_values(|w: WindowRecord| w@)
}

/// Extraction distributes over concatenation of sibling rows.
pub proof fn lemma_extract_forest_concat(a: Seq<WindowNode>, b: Seq<WindowNode>)
    ensures
        extract_forest(a + b) == extract_forest(a) + extract_forest(b),
    decreases a,
{
    if a.len() == 0 {
        assert(a + b =~= b);
        assert(extract_forest(a) + extract_forest(b) =~= extract_forest(b));
    } else {
        assert((a + b).drop_first() =~= a.drop_first() + b);
        lemma_extract_forest_concat(a.drop_first(), b);
        assert(extract_tree((a + b)[0]) + (extract_forest(a.drop_first()) + extract_forest(b))
            =~= (extract_tree(a[0]) + extract_forest(a.drop_first())) + extract_forest(b));
    }
}

/// Extending a row by one sibling appends that subtree's records.
pub proof fn lemma_extract_forest_take_succ(s: Seq<WindowNode>, i: int)
    requires
        0 <= i < s.len(),
    ensures
        extract_forest(s.take(i + 1)) == extract_forest(s.take(i)) + extract_tree(s[i]),
{
    let single: Seq<WindowNode> = seq![s[i]];
    assert(s.take(i + 1) =~= s.take(i) + single);
    lemma_extract_forest_concat(s.take(i), single);
    assert(single[0] == s[i]);
    assert(single.drop_first() =~= Seq::<WindowNode>::empty());
    assert(extract_forest(single.drop_first()) == Seq::<RecordView>::empty());
    assert(extract_forest(single) =~= extract_tree(s[i]));
}

/// Whether `m` is a node of the tree rooted at `root` (the root included).
pub open spec fn in_tree(root: WindowNode, m: WindowNode) -> bool
    decreases root,
{
    ||| m == root
    ||| in_forest(root.nodes@, m)
    ||| in_forest(root.floating_nodes@, m)
}

/// Whether `m` is a node of one of the trees of a sibling row.
pub open spec fn in_forest(s: Seq<WindowNode>, m: WindowNode) -> bool
    decreases s,
{
    s.len() > 0 && (in_tree(s[0], m) || in_forest(s.drop_first(), m))
}

/// Every extracted record is the record of some node of the tree that meets
/// the inclusion condition; in particular, a node lacking both an application
/// identifier and window properties never contributes a record.
pub proof fn lemma_extract_only_included(n: WindowNode, i: int)
    requires
        0 <= i < extract_tree(n).len(),
    ensures
        exists|m: WindowNode|
            in_tree(n, m) && #[trigger] node_included(m) && extract_tree(n)[i] == record_of(m),
    decreases n,
{
    let head: Seq<RecordView> = if node_included(n) {
        seq![record_of(n)]
    } else {
        Seq::<RecordView>::empty()
    };
    let a = extract_forest(n.nodes@);
    let b = extract_forest(n.floating_nodes@);
    if i < head.len() {
        assert(node_included(n) && extract_tree(n)[i] == record_of(n));
        assert(in_tree(n, n));
    } else if i < head.len() + a.len() {
        lemma_forest_only_included(n.nodes@, i - head.len());
        let m = choose|m: WindowNode|
            in_forest(n.nodes@, m) && #[trigger] node_included(m) && a[i - head.len()]
                == record_of(m);
        assert(in_tree(n, m) && node_included(m) && extract_tree(n)[i] == record_of(m));
    } else {
        lemma_forest_only_included(n.floating_nodes@, i - head.len() - a.len());
        let m = choose|m: WindowNode|
            in_forest(n.floating_nodes@, m) && #[trigger] node_included(m) && b[i - head.len()
                - a.len()] == record_of(m);
        assert(in_tree(n, m) && node_included(m) && extract_tree(n)[i] == record_of(m));
    }
}

/// As above, for a row of sibling subtrees.
pub proof fn lemma_forest_only_included(s: Seq<WindowNode>, i: int)
    requires
        0 <= i < extract_forest(s).len(),
    ensures
        exists|m: WindowNode|
            in_forest(s, m) && #[trigger] node_included(m) && extract_forest(s)[i] == record_of(m),
    decreases s,
{
    let h = extract_tree(s[0]);
    if i < h.len() {
        lemma_extract_only_included(s[0], i);
        let m = choose|m: WindowNode|
            in_tree(s[0], m) && #[trigger] node_included(m) && h[i] == record_of(m);
        assert(in_forest(s, m) && node_included(m) && extract_forest(s)[i] == record_of(m));
    } else {
        lemma_forest_only_included(s.drop_first(), i - h.len());
        let m = choose|m: WindowNode|
            in_forest(s.drop_first(), m) && #[trigger] node_included(m) && extract_forest(
                s.drop_first(),
            )[i - h.len()] == record_of(m);
        assert(in_forest(s, m) && node_included(m) && extract_forest(s)[i] == record_of(m));
    }
}

/// A node lacking both an application identifier and window properties yields
/// no record of its own: its subtree contributes only its children's records.
pub proof fn lemma_bare_node_not_included(n: WindowNode)
    requires
        n.app_id is None,
        n.window_properties is None,
    ensures
        !node_included(n),
        extract_tree(n) == extract_forest(n.nodes@) + extract_forest(n.floating_nodes@),
{
    assert(extract_tree(n) =~= extract_forest(n.nodes@) + extract_forest(n.floating_nodes@));
}

/// Collect the records of `node`'s subtree, appending them to `windows` in
/// depth-first order. Pure but for the appends; absent data never aborts the
/// traversal.
pub fn extract_windows(node: &WindowNode, windows: &mut Vec<WindowRecord>)
    ensures
        records_view(final(windows)@) == records_view(old(windows)@) + extract_tree(*node),
    decreases *node,
{
    let ghost base: Seq<RecordView> = records_view(windows@);
    let ghost head: Seq<RecordView> = if node_included(*node) {
        seq![record_of(*node)]
    } else {
        Seq::<RecordView>::empty()
    };

    let is_container = match node.node_type {
        NodeKind::Container => true,
        _ => false,
    };
    if is_container && node.name.is_some() && (node.app_id.is_some()
        || node.window_properties.is_some()) {
        let title = match &node.name {
            Some(t) => t.clone(),
            None => String::new(),
        };
        let app_id = match &node.app_id {
            Some(a) => a.clone(),
            None => match &node.window_properties {
                Some(props) => match &props.class {
                    Some(c) => c.clone(),
                    None => String::new(),
                },
                None => String::new(),
            },
        };
        windows.push(WindowRecord { id: node.id, title, app_id, focused: node.focused });
    }
    assert(records_view(windows@) =~= base + head);

    let mut i: usize = 0;
    while i < node.nodes.len()
        invariant
            i <= node.nodes.len(),
            records_view(windows@) == base + head + extract_forest(node.nodes@.take(i as int)),
        decreases node.nodes.len() - i,
    {
        proof {
            assert(decreases_to!(*node => node.nodes));
            assert(decreases_to!(node.nodes => node.nodes@));
            assert(decreases_to!(node.nodes@ => node.nodes@[i as int]));
        }
        extract_windows(&node.nodes[i], windows);
        proof {
            lemma_extract_forest_take_succ(node.nodes@, i as int);
            assert(base + head + extract_forest(node.nodes@.take(i as int)) + extract_tree(
                node.nodes@[i as int],
            ) =~= base + head + extract_forest(node.nodes@.take(i + 1)));
        }
        i += 1;
    }
    proof {
        assert(node.nodes@.take(node.nodes@.len() as int) =~= node.nodes@);
    }

    let mut j: usize = 0;
    while j < node.floating_nodes.len()
        invariant
            j <= node.floating_nodes.len(),
            records_view(windows@) == base + head + extract_forest(node.nodes@) + extract_forest(
                node.floating_nodes@.take(j as int),
            ),
        decreases node.floating_nodes.len() - j,
    {
        proof {
            assert(decreases_to!(*node => node.floating_nodes));
            assert(decreases_to!(node.floating_nodes => node.floating_nodes@));
            assert(decreases_to!(node.floating_nodes@ => node.floating_nodes@[j as int]));
        }
        extract_windows(&node.floating_nodes[j], windows);
        proof {
            lemma_extract_forest_take_succ(node.floating_nodes@, j as int);
            assert(base + head + extract_forest(node.nodes@) + extract_forest(
                node.floating_nodes@.take(j as int),
            ) + extract_tree(node.floating_nodes@[j as int]) =~= base + head + extract_forest(
                node.nodes@,
            ) + extract_forest(node.floating_nodes@.take(j + 1)));
        }
        j += 1;
    }
    proof {
        assert(node.floating_nodes@.take(node.floating_nodes@.len() as int)
            =~= node.floating_nodes@);
        assert(base + head + extract_forest(node.nodes@) + extract_forest(node.floating_nodes@)
            =~= base + extract_tree(*node));
    }
}

} // verus!
