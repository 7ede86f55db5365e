//! Laws of the graph export, stated and proved over the ghost model.
//!
//! The vocabulary: `node_count` and `subtree_ids` walk a model tree,
//! `decl_count` and `edge_from_count` count lines of an export, and
//! `newline_count` counts lines of the rendered text.  The laws relate
//! them: how many declaration and edge lines an export holds, that each
//! graph line renders as exactly one text line, what an empty layout
//! exports, how appending a child extends the export, and when a node is
//! labeled "UI".

use vstd::prelude::*;
use crate::model::ElementModel;
use crate::model::GraphLine;
use crate::model::LayoutModel;
use crate::model::children_lines;
use crate::model::dec_str;
use crate::model::digit_char;
use crate::model::graph_lines;
use crate::model::graphviz_str;
use crate::model::lemma_lines_str_concat;
use crate::model::lemma_lines_str_singleton;
use crate::model::line_str;
use crate::model::lines_str;
use crate::model::lemma_children_lines_push;
use crate::model::node_id;
use crate::model::node_label;
use crate::model::node_tag;

verus! {

/// The number of nodes in the subtree rooted at `e`, itself included.
pub open spec fn node_count(e: ElementModel) -> nat
    decreases e, 0int,
{
    match e {
        ElementModel::Component(_) => 1,
        ElementModel::Layout(l) => 1 + children_node_count(l.children, l.children.len() as int),
    }
}

/// The number of nodes in the subtrees of the first `n` children.
pub open spec fn children_node_count(cs: Seq<ElementModel>, n: int) -> nat
    decreases cs, n,
{
    if n <= 0 || n > cs.len() {
        0
    } else {
        children_node_count(cs, n - 1) + node_count(cs[n - 1])
    }
}

/// Every identifier in the subtree rooted at `e`, in depth-first pre-order.
pub open spec fn subtree_ids(e: ElementModel) -> Seq<usize>
    decreases e, 0int,
{
    match e {
        ElementModel::Component(w) => seq![w.id],
        ElementModel::Layout(l) => seq![l.id] + children_ids(l.children, l.children.len() as int),
    }
}

/// The identifiers in the subtrees of the first `n` children.
pub open spec fn children_ids(cs: Seq<ElementModel>, n: int) -> Seq<usize>
    decreases cs, n,
{
    if n <= 0 || n > cs.len() {
        Seq::empty()
    } else {
        children_ids(cs, n - 1) + subtree_ids(cs[n - 1])
    }
}

/// Whether `g` is an edge line originating at `parent`.
pub open spec fn is_edge_from(g: GraphLine, parent: usize) -> bool {
    match g {
        GraphLine::Edge { parent: p, child: _ } => p == parent,
        GraphLine::Decl { .. } => false,
    }
}

/// The number of declaration lines in `ls`.
pub open spec fn decl_count(ls: Seq<GraphLine>) -> nat
    decreases ls.len(),
{
    if ls.len() == 0 {
        0
    } else {
        (if ls[0] is Decl {
            1nat
        } else {
            0nat
        }) + decl_count(ls.drop_first())
    }
}

/// The number of edge lines in `ls` originating at `parent`.
pub open spec fn edge_from_count(ls: Seq<GraphLine>, parent: usize) -> nat
    decreases ls.len(),
{
    if ls.len() == 0 {
        0
    } else {
        (if is_edge_from(ls[0], parent) {
            1nat
        } else {
            0nat
        }) + edge_from_count(ls.drop_first(), parent)
    }
}

/// Declaration counting distributes over concatenation.
pub proof fn lemma_decl_count_concat(a: Seq<GraphLine>, b: Seq<GraphLine>)
    ensures
        decl_count(a + b) == decl_count(a) + decl_count(b),
    decreases a.len(),
{
    if a.len() == 0 {
        assert(a + b =~= b);
    } else {
        assert((a + b).drop_first() =~= a.drop_first() + b);
        lemma_decl_count_concat(a.drop_first(), b);
    }
}

/// Edge counting distributes over concatenation.
pub proof fn lemma_edge_from_count_concat(a: Seq<GraphLine>, b: Seq<GraphLine>, parent: usize)
    ensures
        edge_from_count(a + b, parent) == edge_from_count(a, parent) + edge_from_count(b, parent),
    decreases a.len(),
{
    if a.len() == 0 {
        assert(a + b =~= b);
    } else {
        assert((a + b).drop_first() =~= a.drop_first() + b);
        lemma_edge_from_count_concat(a.drop_first(), b, parent);
    }
}

/// Counts of a single line.
pub proof fn lemma_counts_singleton(g: GraphLine, parent: usize)
    ensures
        decl_count(seq![g]) == (if g is Decl {
            1nat
        } else {
            0nat
        }),
        edge_from_count(seq![g], parent) == (if is_edge_from(g, parent) {
            1nat
        } else {
            0nat
        }),
{
    assert(seq![g].drop_first() =~= Seq::<GraphLine>::empty());
    assert(decl_count(Seq::<GraphLine>::empty()) == 0);
    assert(edge_from_count(Seq::<GraphLine>::empty(), parent) == 0);
}

/// Law: the export of a subtree holds exactly one declaration line per node
/// of that subtree, counted recursively.
pub proof fn lemma_decl_count_export(e: ElementModel)
    ensures
        decl_count(graph_lines(e)) == node_count(e),
    decreases e, 1int,
{
    match e {
        ElementModel::Component(w) => {
            lemma_counts_singleton(
                GraphLine::Decl { id: w.id, label: node_label(e) },
                0,
            );
        },
        ElementModel::Layout(l) => {
            let decl = GraphLine::Decl { id: l.id, label: node_label(e) };
            lemma_children_decl_count(l.id, l.children, l.children.len() as int);
            lemma_counts_singleton(decl, 0);
            lemma_decl_count_concat(
                seq![decl],
                children_lines(l.id, l.children, l.children.len() as int),
            );
        },
    }
}

/// The lines of the first `n` children hold one declaration per node of
/// their subtrees.
pub proof fn lemma_children_decl_count(parent: usize, cs: Seq<ElementModel>, n: int)
    requires
        0 <= n <= cs.len(),
    ensures
        decl_count(children_lines(parent, cs, n)) == children_node_count(cs, n),
    decreases cs, n,
{
    if n > 0 {
        let edge = GraphLine::Edge { parent, child: node_id(cs[n - 1]) };
        lemma_children_decl_count(parent, cs, n - 1);
        lemma_decl_count_export(cs[n - 1]);
        lemma_decl_count_concat(children_lines(parent, cs, n - 1), graph_lines(cs[n - 1]));
        lemma_decl_count_concat(
            children_lines(parent, cs, n - 1) + graph_lines(cs[n - 1]),
            seq![edge],
        );
        lemma_counts_singleton(edge, parent);
    }
}

/// Everything `children_ids` collects for a prefix is collected for the
/// whole range as well.
pub proof fn lemma_children_ids_prefix(cs: Seq<ElementModel>, m: int, n: int)
    requires
        0 <= m <= n <= cs.len(),
    ensures
        forall|x: usize|
            children_ids(cs, m).contains(x) ==> #[trigger] children_ids(cs, n).contains(x),
    decreases n - m,
{
    if m < n {
        lemma_children_ids_prefix(cs, m, n - 1);
        assert forall|x: usize|
            children_ids(cs, n - 1).contains(x) implies #[trigger] children_ids(cs, n).contains(
            x,
        ) by {
            let i = choose|i: int|
                0 <= i < children_ids(cs, n - 1).len() && #[trigger] children_ids(cs, n - 1)[i]
                    == x;
            assert(children_ids(cs, n)[i] == x);
        }
    }
}

/// The identifiers of one child's subtree are among the identifiers
/// collected for any range covering that child.
pub proof fn lemma_subtree_ids_in_children(cs: Seq<ElementModel>, i: int, n: int)
    requires
        0 <= i < n <= cs.len(),
    ensures
        forall|x: usize|
            subtree_ids(cs[i]).contains(x) ==> #[trigger] children_ids(cs, n).contains(x),
    decreases n - i,
{
    assert forall|x: usize|
        subtree_ids(cs[i]).contains(x) implies #[trigger] children_ids(cs, i + 1).contains(x) by {
        let k = choose|k: int|
            0 <= k < subtree_ids(cs[i]).len() && #[trigger] subtree_ids(cs[i])[k] == x;
        assert(children_ids(cs, i + 1)[children_ids(cs, i).len() + k] == x);
    }
    lemma_children_ids_prefix(cs, i + 1, n);
}

/// No edge line of a subtree's export originates at an identifier that does
/// not occur in that subtree.
pub proof fn lemma_no_edges_from_outside(e: ElementModel, p: usize)
    requires
        !subtree_ids(e).contains(p),
    ensures
        edge_from_count(graph_lines(e), p) == 0,
    decreases e, 1int,
{
    match e {
        ElementModel::Component(w) => {
            lemma_counts_singleton(GraphLine::Decl { id: w.id, label: node_label(e) }, p);
        },
        ElementModel::Layout(l) => {
            let n = l.children.len() as int;
            let decl = GraphLine::Decl { id: l.id, label: node_label(e) };
            assert forall|x: usize|
                children_ids(l.children, n).contains(x) implies #[trigger] subtree_ids(e).contains(
                x,
            ) by {
                let i = choose|i: int|
                    0 <= i < children_ids(l.children, n).len() && #[trigger] children_ids(
                        l.children,
                        n,
                    )[i] == x;
                assert(subtree_ids(e)[1 + i] == x);
            }
            assert(subtree_ids(e).contains(l.id)) by {
                assert(subtree_ids(e)[0] == l.id);
            }
            lemma_children_no_edges_from_outside(l.id, l.children, n, p);
            lemma_counts_singleton(decl, p);
            lemma_edge_from_count_concat(seq![decl], children_lines(l.id, l.children, n), p);
        },
    }
}

/// Helper for `lemma_no_edges_from_outside`, over the first `n` children.
pub proof fn lemma_children_no_edges_from_outside(
    parent: usize,
    cs: Seq<ElementModel>,
    n: int,
    p: usize,
)
    requires
        0 <= n <= cs.len(),
        p != parent,
        !children_ids(cs, n).contains(p),
    ensures
        edge_from_count(children_lines(parent, cs, n), p) == 0,
    decreases cs, n,
{
    if n > 0 {
        let edge = GraphLine::Edge { parent, child: node_id(cs[n - 1]) };
        assert(!children_ids(cs, n - 1).contains(p)) by {
            lemma_children_ids_prefix(cs, n - 1, n);
        }
        assert(!subtree_ids(cs[n - 1]).contains(p)) by {
            lemma_subtree_ids_in_children(cs, n - 1, n);
        }
        lemma_children_no_edges_from_outside(parent, cs, n - 1, p);
        lemma_no_edges_from_outside(cs[n - 1], p);
        lemma_edge_from_count_concat(children_lines(parent, cs, n - 1), graph_lines(cs[n - 1]), p);
        lemma_edge_from_count_concat(
            children_lines(parent, cs, n - 1) + graph_lines(cs[n - 1]),
            seq![edge],
            p,
        );
        lemma_counts_singleton(edge, p);
    }
}

/// The lines of the first `n` children hold exactly `n` edges originating
/// at the parent, provided the parent's identifier occurs in none of the
/// children's subtrees.
pub proof fn lemma_children_edge_count(parent: usize, cs: Seq<ElementModel>, n: int)
    requires
        0 <= n <= cs.len(),
        !children_ids(cs, n).contains(parent),
    ensures
        edge_from_count(children_lines(parent, cs, n), parent) == n,
    decreases n,
{
    if n > 0 {
        let edge = GraphLine::Edge { parent, child: node_id(cs[n - 1]) };
        assert(!children_ids(cs, n - 1).contains(parent)) by {
            lemma_children_ids_prefix(cs, n - 1, n);
        }
        assert(!subtree_ids(cs[n - 1]).contains(parent)) by {
            lemma_subtree_ids_in_children(cs, n - 1, n);
        }
        lemma_children_edge_count(parent, cs, n - 1);
        lemma_no_edges_from_outside(cs[n - 1], parent);
        lemma_edge_from_count_concat(children_lines(parent, cs, n - 1), graph_lines(cs[n - 1]), parent);
        lemma_edge_from_count_concat(
            children_lines(parent, cs, n - 1) + graph_lines(cs[n - 1]),
            seq![edge],
            parent,
        );
        lemma_counts_singleton(edge, parent);
    }
}

/// The number of newline characters in `s`.
pub open spec fn newline_count(s: Seq<char>) -> nat
    decreases s.len(),
{
    if s.len() == 0 {
        0
    } else {
        (if s[0] == '\n' {
            1nat
        } else {
            0nat
        }) + newline_count(s.drop_first())
    }
}

/// Newline counting distributes over concatenation.
pub proof fn lemma_newline_count_concat(a: Seq<char>, b: Seq<char>)
    ensures
        newline_count(a + b) == newline_count(a) + newline_count(b),
    decreases a.len(),
{
    if a.len() == 0 {
        assert(a + b =~= b);
    } else {
        assert((a + b).drop_first() =~= a.drop_first() + b);
        lemma_newline_count_concat(a.drop_first(), b);
    }
}

/// A decimal rendering holds no newline.
pub proof fn lemma_dec_str_no_newline(n: nat)
    ensures
        newline_count(dec_str(n)) == 0,
    decreases n,
{
    assert(newline_count(Seq::<char>::empty()) == 0);
    if n < 10 {
        assert(seq![digit_char(n as int)].drop_first() =~= Seq::<char>::empty());
        assert(newline_count(seq![digit_char(n as int)]) == 0);
    } else {
        lemma_dec_str_no_newline(n / 10);
        assert(seq![digit_char((n % 10) as int)].drop_first() =~= Seq::<char>::empty());
        assert(newline_count(seq![digit_char((n % 10) as int)]) == 0);
        lemma_newline_count_concat(dec_str(n / 10), seq![digit_char((n % 10) as int)]);
    }
}

/// A sequence without newline characters counts zero.
pub proof fn lemma_newline_count_none(s: Seq<char>)
    requires
        forall|i: int| 0 <= i < s.len() ==> s[i] != '\n',
    ensures
        newline_count(s) == 0,
    decreases s.len(),
{
    if s.len() > 0 {
        assert forall|i: int| 0 <= i < s.drop_first().len() implies s.drop_first()[i] != '\n' by {
            assert(s.drop_first()[i] == s[i + 1]);
        }
        lemma_newline_count_none(s.drop_first());
    }
}

/// A sequence whose only newline is its last character counts one.
pub proof fn lemma_newline_count_last_only(s: Seq<char>)
    requires
        s.len() >= 1,
        s[s.len() - 1] == '\n',
        forall|i: int| 0 <= i < s.len() - 1 ==> s[i] != '\n',
    ensures
        newline_count(s) == 1,
{
    assert(s =~= s.drop_last() + seq!['\n']);
    lemma_newline_count_none(s.drop_last());
    assert(seq!['\n'].drop_first() =~= Seq::<char>::empty());
    assert(newline_count(Seq::<char>::empty()) == 0);
    assert(newline_count(seq!['\n']) == 1);
    lemma_newline_count_concat(s.drop_last(), seq!['\n']);
}

/// Each graph line renders as exactly one newline-terminated text line,
/// as long as a declaration's label holds no newline itself.
pub proof fn lemma_line_str_one_newline(g: GraphLine)
    requires
        (match g {
            GraphLine::Decl { id: _, label } => newline_count(label) == 0,
            GraphLine::Edge { .. } => true,
        }),
    ensures
        newline_count(line_str(g)) == 1,
{
    reveal_strlit("q");
    reveal_strlit(" [label=\"");
    reveal_strlit("\"];\n");
    reveal_strlit(" -- q");
    reveal_strlit(";\n");
    lemma_newline_count_none("q"@);
    match g {
        GraphLine::Decl { id, label } => {
            lemma_dec_str_no_newline(id as nat);
            lemma_newline_count_none(" [label=\""@);
            lemma_newline_count_last_only("\"];\n"@);
            lemma_newline_count_concat("q"@, dec_str(id as nat));
            lemma_newline_count_concat("q"@ + dec_str(id as nat), " [label=\""@);
            lemma_newline_count_concat("q"@ + dec_str(id as nat) + " [label=\""@, label);
            lemma_newline_count_concat(
                "q"@ + dec_str(id as nat) + " [label=\""@ + label,
                "\"];\n"@,
            );
        },
        GraphLine::Edge { parent, child } => {
            lemma_dec_str_no_newline(parent as nat);
            lemma_dec_str_no_newline(child as nat);
            lemma_newline_count_none(" -- q"@);
            lemma_newline_count_last_only(";\n"@);
            lemma_newline_count_concat("q"@, dec_str(parent as nat));
            lemma_newline_count_concat("q"@ + dec_str(parent as nat), " -- q"@);
            lemma_newline_count_concat(
                "q"@ + dec_str(parent as nat) + " -- q"@,
                dec_str(child as nat),
            );
            lemma_newline_count_concat(
                "q"@ + dec_str(parent as nat) + " -- q"@ + dec_str(child as nat),
                ";\n"@,
            );
        },
    }
}

/// Whether no widget tag in the subtree rooted at `e` holds a newline.
/// This is true of every tree this crate builds: its tags are "Layout",
/// "Button" and "Label".
pub open spec fn tags_newline_free(e: ElementModel) -> bool
    decreases e, 0int,
{
    match e {
        ElementModel::Component(w) => newline_count(w.tag) == 0,
        ElementModel::Layout(l) => children_tags_newline_free(
            l.children,
            l.children.len() as int,
        ),
    }
}

/// Whether the first `n` children are free of newline-holding tags.
pub open spec fn children_tags_newline_free(cs: Seq<ElementModel>, n: int) -> bool
    decreases cs, n,
{
    if n <= 0 || n > cs.len() {
        true
    } else {
        children_tags_newline_free(cs, n - 1) && tags_newline_free(cs[n - 1])
    }
}

/// A node's printed label holds no newline.
pub proof fn lemma_label_newline_free(e: ElementModel)
    requires
        tags_newline_free(e),
    ensures
        newline_count(node_label(e)) == 0,
{
    reveal_strlit("UI");
    reveal_strlit("Layout");
    lemma_newline_count_none("UI"@);
    lemma_newline_count_none("Layout"@);
}

/// Law: the rendered text of a subtree's export consists of exactly one
/// newline-terminated line per graph line, so counting text lines counts
/// graph lines.
pub proof fn lemma_text_line_count(e: ElementModel)
    requires
        tags_newline_free(e),
    ensures
        newline_count(lines_str(graph_lines(e))) == graph_lines(e).len(),
    decreases e, 1int,
{
    match e {
        ElementModel::Component(w) => {
            let decl = GraphLine::Decl { id: w.id, label: node_label(e) };
            lemma_lines_str_singleton(decl);
            lemma_label_newline_free(e);
            lemma_line_str_one_newline(decl);
        },
        ElementModel::Layout(l) => {
            let n = l.children.len() as int;
            let decl = GraphLine::Decl { id: l.id, label: node_label(e) };
            lemma_lines_str_singleton(decl);
            lemma_label_newline_free(e);
            lemma_line_str_one_newline(decl);
            lemma_children_text_line_count(l.id, l.children, n);
            lemma_lines_str_concat(seq![decl], children_lines(l.id, l.children, n));
            lemma_newline_count_concat(
                lines_str(seq![decl]),
                lines_str(children_lines(l.id, l.children, n)),
            );
        },
    }
}

/// Helper for `lemma_text_line_count`, over the first `n` children.
pub proof fn lemma_children_text_line_count(parent: usize, cs: Seq<ElementModel>, n: int)
    requires
        0 <= n <= cs.len(),
        children_tags_newline_free(cs, n),
    ensures
        newline_count(lines_str(children_lines(parent, cs, n))) == children_lines(
            parent,
            cs,
            n,
        ).len(),
    decreases cs, n,
{
    if n > 0 {
        let edge = GraphLine::Edge { parent, child: node_id(cs[n - 1]) };
        let prefix = children_lines(parent, cs, n - 1);
        lemma_children_text_line_count(parent, cs, n - 1);
        lemma_text_line_count(cs[n - 1]);
        lemma_lines_str_concat(prefix, graph_lines(cs[n - 1]));
        lemma_newline_count_concat(lines_str(prefix), lines_str(graph_lines(cs[n - 1])));
        lemma_lines_str_concat(prefix + graph_lines(cs[n - 1]), seq![edge]);
        lemma_newline_count_concat(
            lines_str(prefix + graph_lines(cs[n - 1])),
            lines_str(seq![edge]),
        );
        lemma_lines_str_singleton(edge);
        lemma_line_str_one_newline(edge);
    }
}

/// Law: the full export text holds one line per graph line plus the two
/// marker lines around them.
pub proof fn lemma_graphviz_text_lines(root: ElementModel)
    requires
        tags_newline_free(root),
    ensures
        newline_count(graphviz_str(root)) == graph_lines(root).len() + 2,
{
    reveal_strlit("graph {\n");
    reveal_strlit("}\n");
    lemma_newline_count_last_only("graph {\n"@);
    lemma_newline_count_last_only("}\n"@);
    lemma_text_line_count(root);
    lemma_newline_count_concat("graph {\n"@, lines_str(graph_lines(root)));
    lemma_newline_count_concat("graph {\n"@ + lines_str(graph_lines(root)), "}\n"@);
}

/// Law: when the identifiers of a layout's subtree are pairwise distinct,
/// its export holds exactly one edge line per child originating at the
/// layout's identifier, and exactly one declaration line per node of the
/// subtree (children plus the layout itself, counted recursively).
pub proof fn lemma_export_counts(l: LayoutModel)
    requires
        subtree_ids(ElementModel::Layout(l)).no_duplicates(),
    ensures
        edge_from_count(graph_lines(ElementModel::Layout(l)), l.id) == l.children.len(),
        decl_count(graph_lines(ElementModel::Layout(l))) == node_count(ElementModel::Layout(l)),
{
    let e = ElementModel::Layout(l);
    let n = l.children.len() as int;
    let decl = GraphLine::Decl { id: l.id, label: node_label(e) };
    assert(!children_ids(l.children, n).contains(l.id)) by {
        if children_ids(l.children, n).contains(l.id) {
            let i = choose|i: int|
                0 <= i < children_ids(l.children, n).len() && #[trigger] children_ids(
                    l.children,
                    n,
                )[i] == l.id;
            assert(subtree_ids(e)[1 + i] == l.id);
            assert(subtree_ids(e)[0] == l.id);
        }
    }
    lemma_children_edge_count(l.id, l.children, n);
    lemma_counts_singleton(decl, l.id);
    lemma_edge_from_count_concat(seq![decl], children_lines(l.id, l.children, n), l.id);
    lemma_decl_count_export(e);
}

/// Law: a layout with no children exports exactly its own declaration line
/// and no edge line at all.
pub proof fn lemma_empty_layout_export(l: LayoutModel)
    requires
        l.children.len() == 0,
    ensures
        graph_lines(ElementModel::Layout(l)) == seq![
            GraphLine::Decl { id: l.id, label: node_label(ElementModel::Layout(l)) },
        ],
        decl_count(graph_lines(ElementModel::Layout(l))) == 1,
        forall|p: usize| edge_from_count(graph_lines(ElementModel::Layout(l)), p) == 0,
{
    let e = ElementModel::Layout(l);
    let decl = GraphLine::Decl { id: l.id, label: node_label(e) };
    assert(graph_lines(e) =~= seq![decl]);
    assert forall|p: usize| edge_from_count(graph_lines(e), p) == 0 by {
        lemma_counts_singleton(decl, p);
    }
    lemma_counts_singleton(decl, 0);
}

/// Law: insertion order is preserved.  Appending a child to a layout
/// appends exactly that child's full subtree lines followed by the new
/// parent-child edge, after everything the layout exported before.
pub proof fn lemma_export_append(l: LayoutModel, c: ElementModel)
    ensures
        graph_lines(ElementModel::Layout((LayoutModel { children: l.children.push(c), ..l })))
            == graph_lines(ElementModel::Layout(l)) + graph_lines(c) + seq![
            GraphLine::Edge { parent: l.id, child: node_id(c) },
        ],
{
    let l2 = LayoutModel { children: l.children.push(c), ..l };
    let e = ElementModel::Layout(l);
    let e2 = ElementModel::Layout(l2);
    let n = l.children.len() as int;
    let edge = GraphLine::Edge { parent: l.id, child: node_id(c) };
    let decl = GraphLine::Decl { id: l.id, label: node_label(e) };
    assert(node_label(e2) == node_label(e));
    lemma_children_lines_push(l.id, l.children, c, n);
    assert(l2.children[n] == c);
    assert(children_lines(l.id, l2.children, n + 1) =~= children_lines(l.id, l.children, n)
        + graph_lines(c) + seq![edge]);
    assert(graph_lines(e2) =~= graph_lines(e) + graph_lines(c) + seq![edge]);
}

/// Law: a node is labeled "UI" in the export exactly when its identifier is
/// zero — which, for identifiers drawn from one fresh generator, singles
/// out the first node allocated.  The hypothesis holds of every node this
/// crate builds: the structural tags are "Layout", "Button" and "Label".
pub proof fn lemma_label_ui_iff_id_zero(e: ElementModel)
    requires
        node_tag(e) != "UI"@,
    ensures
        node_label(e) == "UI"@ <==> node_id(e) == 0,
{
}

/// The structural tags of this crate's nodes are never "UI".
pub proof fn lemma_tags_not_ui(e: ElementModel)
    requires
        e is Layout || node_tag(e) == "Button"@ || node_tag(e) == "Label"@,
    ensures
        node_tag(e) != "UI"@,
{
    reveal_strlit("UI");
    reveal_strlit("Layout");
    reveal_strlit("Button");
    reveal_strlit("Label");
    assert("UI"@.len() == 2);
    assert("Layout"@.len() == 6);
    assert("Button"@.len() == 6);
    assert("Label"@.len() == 5);
}

} // verus!
