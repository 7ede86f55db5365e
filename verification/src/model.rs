//! Mathematical model of the composition tree and of the graph export.
//!
//! Executable trees (`Layout`, `Element`, widgets) are abstracted to the
//! ghost datatypes here, and the exporter's output is specified in two
//! steps: a tree is first mapped to a sequence of [`GraphLine`]s (one
//! declaration per node, one edge per parent-child pair, in depth-first
//! pre-order), and each line is then rendered to text.

use vstd::prelude::*;
use crate::tree::ConfigError;
use crate::tree::LayoutType;

verus! {

/// Model of a leaf widget: its type tag, display text, identifier, and the
/// anchor point and size once a layout pass has stored them.  The core
/// itself never computes either; it only stores what a layout pass hands it
/// (and no setter for the size exists yet).
pub struct WidgetModel {
    pub id: usize,
    pub tag: Seq<char>,
    pub text: Seq<char>,
    pub location: Option<(u32, u32)>,
    pub size: Option<(u32, u32)>,
}

/// Model of a layout container.
pub struct LayoutModel {
    pub id: usize,
    pub layout_type: LayoutType,
    pub proportions: Seq<u32>,
    pub padding: Seq<u32>,
    pub children: Seq<ElementModel>,
}

/// Model of a tree node: either a nested layout or a leaf widget.
pub enum ElementModel {
    Layout(LayoutModel),
    Component(WidgetModel),
}

/// The identifier of a node, whichever variant it is.
pub open spec fn node_id(e: ElementModel) -> usize {
    match e {
        ElementModel::Layout(l) => l.id,
        ElementModel::Component(w) => w.id,
    }
}

/// The structural type tag of a node.
pub open spec fn node_tag(e: ElementModel) -> Seq<char> {
    match e {
        ElementModel::Layout(_) => "Layout"@,
        ElementModel::Component(w) => w.tag,
    }
}

/// The label the exporter prints for a node: the node whose identifier is
/// zero is labeled "UI", every other node shows its structural type tag.
pub open spec fn node_label(e: ElementModel) -> Seq<char> {
    if node_id(e) == 0 {
        "UI"@
    } else {
        node_tag(e)
    }
}

/// Model of the root object: the canvas dimensions and the root node,
/// which is always a layout held through the element wrapper.
pub struct UIModel {
    pub width: u32,
    pub height: u32,
    pub root: ElementModel,
}

/// The layout a node wraps; meaningful only on the layout variant.
pub open spec fn as_layout(e: ElementModel) -> LayoutModel
    recommends
        e is Layout,
{
    match e {
        ElementModel::Layout(l) => l,
        ElementModel::Component(_) => vstd::pervasive::arbitrary(),
    }
}

/// The root layout of a `UIModel`.
pub open spec fn root_layout(u: UIModel) -> LayoutModel {
    as_layout(u.root)
}

/// `u` with its root layout replaced by `l`.
pub open spec fn with_root(u: UIModel, l: LayoutModel) -> UIModel {
    UIModel { root: ElementModel::Layout(l), ..u }
}

/// One line of the exported graph description.
pub enum GraphLine {
    /// `q<id> [label="<label>"];`
    Decl { id: usize, label: Seq<char> },
    /// `q<parent> -- q<child>;`
    Edge { parent: usize, child: usize },
}

/// The lines the exporter emits for the subtree rooted at `e`: the node's
/// own declaration, then, for each child in insertion order, the child's
/// full subtree followed by the edge from `e` to that child.
pub open spec fn graph_lines(e: ElementModel) -> Seq<GraphLine>
    decreases e, 0int,
{
    match e {
        ElementModel::Component(w) => seq![
            GraphLine::Decl { id: w.id, label: node_label(e) },
        ],
        ElementModel::Layout(l) => seq![
            GraphLine::Decl { id: l.id, label: node_label(e) },
        ] + children_lines(l.id, l.children, l.children.len() as int),
    }
}

/// The lines contributed by the first `n` children of a node with
/// identifier `parent`: each child's subtree followed by its edge.
pub open spec fn children_lines(parent: usize, cs: Seq<ElementModel>, n: int) -> Seq<GraphLine>
    decreases cs, n,
{
    if n <= 0 || n > cs.len() {
        Seq::empty()
    } else {
        children_lines(parent, cs, n - 1) + graph_lines(cs[n - 1]) + seq![
            GraphLine::Edge { parent, child: node_id(cs[n - 1]) },
        ]
    }
}

/// The decimal digit characters.
pub open spec fn digit_char(d: int) -> char {
    if d == 0 {
        '0'
    } else if d == 1 {
        '1'
    } else if d == 2 {
        '2'
    } else if d == 3 {
        '3'
    } else if d == 4 {
        '4'
    } else if d == 5 {
        '5'
    } else if d == 6 {
        '6'
    } else if d == 7 {
        '7'
    } else if d == 8 {
        '8'
    } else {
        '9'
    }
}

/// The usual decimal rendering of `n`, most significant digit first, with
/// no leading zeros (except for `n == 0` itself).
pub open spec fn dec_str(n: nat) -> Seq<char>
    decreases n,
{
    if n < 10 {
        seq![digit_char(n as int)]
    } else {
        dec_str(n / 10) + seq![digit_char((n % 10) as int)]
    }
}

/// The text of one graph line, newline-terminated.
pub open spec fn line_str(l: GraphLine) -> Seq<char> {
    match l {
        GraphLine::Decl { id, label } => "q"@ + dec_str(id as nat) + " [label=\""@ + label
            + "\"];\n"@,
        GraphLine::Edge { parent, child } => "q"@ + dec_str(parent as nat) + " -- q"@ + dec_str(
            child as nat,
        ) + ";\n"@,
    }
}

/// The text of a sequence of graph lines, in order.
pub open spec fn lines_str(ls: Seq<GraphLine>) -> Seq<char>
    decreases ls.len(),
{
    if ls.len() == 0 {
        Seq::empty()
    } else {
        line_str(ls[0]) + lines_str(ls.drop_first())
    }
}

/// The full export of the tree rooted at `root`: the graph block markers
/// around the rendered lines of the subtree.
pub open spec fn graphviz_str(root: ElementModel) -> Seq<char> {
    "graph {\n"@ + lines_str(graph_lines(root)) + "}\n"@
}

/// The first configuration mismatch in the subtree rooted at `e`, in
/// depth-first pre-order, or `None` when a layout pass could run: every
/// layout needs exactly one proportion weight per child.  (Padding arity
/// cannot mismatch: every constructor and setter fixes it at four.)
pub open spec fn config_error(e: ElementModel) -> Option<ConfigError>
    decreases e, 0int,
{
    match e {
        ElementModel::Component(_) => None,
        ElementModel::Layout(l) => if l.proportions.len() != l.children.len() {
            Some(
                ConfigError::ProportionCount {
                    id: l.id,
                    children: l.children.len() as usize,
                    proportions: l.proportions.len() as usize,
                },
            )
        } else {
            children_config_error(l.children, l.children.len() as int)
        },
    }
}

/// The first configuration mismatch among the first `n` children.
pub open spec fn children_config_error(cs: Seq<ElementModel>, n: int) -> Option<ConfigError>
    decreases cs, n,
{
    if n <= 0 || n > cs.len() {
        None
    } else if children_config_error(cs, n - 1) is Some {
        children_config_error(cs, n - 1)
    } else {
        config_error(cs[n - 1])
    }
}

/// Once a prefix of the children reports a mismatch, longer prefixes
/// report the same one.
pub proof fn lemma_children_config_error_grows(cs: Seq<ElementModel>, k: int, n: int)
    requires
        0 <= k <= n <= cs.len(),
        children_config_error(cs, k) is Some,
    ensures
        children_config_error(cs, n) == children_config_error(cs, k),
    decreases n,
{
    if k < n {
        lemma_children_config_error_grows(cs, k, n - 1);
    }
}

/// Rendering distributes over concatenation of line sequences.
pub proof fn lemma_lines_str_concat(a: Seq<GraphLine>, b: Seq<GraphLine>)
    ensures
        lines_str(a + b) == lines_str(a) + lines_str(b),
    decreases a.len(),
{
    if a.len() == 0 {
        assert(a + b =~= b);
        assert(lines_str(a) + lines_str(b) =~= lines_str(b));
    } else {
        assert((a + b).drop_first() =~= a.drop_first() + b);
        lemma_lines_str_concat(a.drop_first(), b);
        assert(lines_str(a + b) =~= lines_str(a) + lines_str(b));
    }
}

/// The text of a single line sequence element.
pub proof fn lemma_lines_str_singleton(l: GraphLine)
    ensures
        lines_str(seq![l]) == line_str(l),
{
    assert(seq![l].drop_first() =~= Seq::<GraphLine>::empty());
    assert(lines_str(Seq::<GraphLine>::empty()) == Seq::<char>::empty());
    assert(lines_str(seq![l]) =~= line_str(l));
}

/// The lines of the first `n` children do not depend on children at or
/// beyond `n`.
pub proof fn lemma_children_lines_push(parent: usize, cs: Seq<ElementModel>, c: ElementModel, n: int)
    requires
        0 <= n <= cs.len(),
    ensures
        children_lines(parent, cs.push(c), n) == children_lines(parent, cs, n),
    decreases n,
{
    if n > 0 {
        lemma_children_lines_push(parent, cs, c, n - 1);
        assert(cs.push(c)[n - 1] == cs[n - 1]);
    }
}

} // verus!
