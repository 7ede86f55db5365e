//! Scenario tests for the graph export.

use ui_tree::ids::IdGen;
use ui_tree::tree::Button;
use ui_tree::tree::Component;
use ui_tree::tree::Label;
use ui_tree::tree::Layout;
use ui_tree::ui::UI;

/// A row root with proportions [3, 5, 3], padding [10, 10, 10, 10] and
/// three labels appended in order, as the first nodes of the generator:
/// the root is declared with label "UI" and id 0, the labels get ids 1, 2
/// and 3, and the three edges follow in insertion order.
#[test]
fn three_labels_in_a_row() {
    let mut ids = IdGen::new();
    let mut ui = UI::new(1600, 1200, &mut ids);
    ui.set_layout_row([3, 5, 3]);
    ui.set_padding([10, 10, 10, 10]);
    ui.add_element(Label::new("Left sidebar", &mut ids));
    ui.add_element(Label::new("Center area", &mut ids));
    ui.add_element(Label::new("Right sidebar", &mut ids));
    let s = ui.to_graphviz();
    assert_eq!(
        s,
        "graph {\n\
         q0 [label=\"UI\"];\n\
         q1 [label=\"Label\"];\n\
         q0 -- q1;\n\
         q2 [label=\"Label\"];\n\
         q0 -- q2;\n\
         q3 [label=\"Label\"];\n\
         q0 -- q3;\n\
         }\n"
    );
}

/// A nested row layout with two buttons inside a column root: the nested
/// layout's own id is the source of its two children's edges, and the
/// whole nested subtree (declarations and its edges) is emitted before the
/// root's edge down to it, depth-first.
#[test]
fn nested_row_inside_column_root() {
    let mut ids = IdGen::new();
    let mut ui = UI::new(800, 600, &mut ids);
    ui.set_layout_column([1]);
    let mut nested = Layout::new_rows([1, 1], &mut ids);
    nested.add_element(Button::new("Yes", &mut ids));
    nested.add_element(Button::new("No", &mut ids));
    ui.add_layout(nested);
    let s = ui.to_graphviz();
    assert_eq!(
        s,
        "graph {\n\
         q0 [label=\"UI\"];\n\
         q1 [label=\"Layout\"];\n\
         q2 [label=\"Button\"];\n\
         q1 -- q2;\n\
         q3 [label=\"Button\"];\n\
         q1 -- q3;\n\
         q0 -- q1;\n\
         }\n"
    );
    // Both child edges originate at the nested layout's id.
    assert_eq!(s.matches("q1 -- ").count(), 2);
    assert_eq!(s.matches("q0 -- ").count(), 1);
}

/// An empty root layout yields exactly one declaration line and no edge.
#[test]
fn empty_root_export() {
    let mut ids = IdGen::new();
    let ui = UI::new(640, 480, &mut ids);
    let s = ui.to_graphviz();
    assert_eq!(s, "graph {\nq0 [label=\"UI\"];\n}\n");
    assert_eq!(s.matches("[label=").count(), 1);
    assert_eq!(s.matches(" -- ").count(), 0);
}

/// Appending component A, then layout B (with one child), then component C
/// yields A's lines, then B's full subtree, then C's lines, left to right.
#[test]
fn insertion_order_preserved() {
    let mut ids = IdGen::new();
    let mut ui = UI::new(1024, 768, &mut ids);
    ui.set_layout_column([1, 1, 1]);
    ui.add_element(Button::new("A", &mut ids));
    let mut b = Layout::new_columns([1], &mut ids);
    b.add_element(Label::new("B1", &mut ids));
    ui.add_layout(b);
    ui.add_element(Button::new("C", &mut ids));
    let s = ui.to_graphviz();
    assert_eq!(
        s,
        "graph {\n\
         q0 [label=\"UI\"];\n\
         q1 [label=\"Button\"];\n\
         q0 -- q1;\n\
         q2 [label=\"Layout\"];\n\
         q3 [label=\"Label\"];\n\
         q2 -- q3;\n\
         q0 -- q2;\n\
         q4 [label=\"Button\"];\n\
         q0 -- q4;\n\
         }\n"
    );
    let a = s.find("q1 [label=\"Button\"]").unwrap();
    let b_decl = s.find("q2 [label=\"Layout\"]").unwrap();
    let c = s.find("q4 [label=\"Button\"]").unwrap();
    assert!(a < b_decl && b_decl < c);
}

/// Line counts: one declaration per node of the tree, and one edge per
/// child counted from each layout's id.
#[test]
fn export_line_counts() {
    let mut ids = IdGen::new();
    let mut ui = UI::new(300, 200, &mut ids);
    ui.set_layout_row([2, 1, 1]);
    ui.add_element(Label::new("one", &mut ids));
    let mut inner = Layout::new_rows([1, 1], &mut ids);
    inner.add_element(Button::new("two", &mut ids));
    inner.add_element(Button::new("three", &mut ids));
    ui.add_layout(inner);
    ui.add_element(Label::new("four", &mut ids));
    let s = ui.to_graphviz();
    // Six nodes in all: the root, three direct children, two grandchildren.
    assert_eq!(s.matches("[label=").count(), 6);
    // Three children of the root, two of the inner layout.
    assert_eq!(s.matches("q0 -- ").count(), 3);
    assert_eq!(s.matches("q2 -- ").count(), 2);
    assert_eq!(s.matches(" -- ").count(), 5);
    // One text line per declaration and edge, plus the two marker lines.
    assert_eq!(s.lines().count(), 6 + 5 + 2);
}

/// The "UI" label follows the identifier zero, not the root position: when
/// some other node is allocated first, the root is not labeled "UI", and
/// the node that did get id 0 is — even as a nested child.
#[test]
fn mislabeled_when_root_not_first() {
    let mut ids = IdGen::new();
    let first = Layout::new_columns([1], &mut ids);
    let mut ui = UI::new(400, 400, &mut ids);
    ui.add_layout(first);
    let s = ui.to_graphviz();
    assert_eq!(
        s,
        "graph {\n\
         q1 [label=\"Layout\"];\n\
         q0 [label=\"UI\"];\n\
         q1 -- q0;\n\
         }\n"
    );
}

/// Identifiers with more than one decimal digit render in full.
#[test]
fn multi_digit_identifiers() {
    let mut ids = IdGen::new();
    let mut ui = UI::new(2000, 1000, &mut ids);
    ui.set_layout_column([1, 1, 1, 1, 1, 1, 1, 1, 1, 1, 1, 1]);
    let mut expected = String::from("graph {\nq0 [label=\"UI\"];\n");
    for i in 1..=12 {
        ui.add_element(Label::new("cell", &mut ids));
        expected.push_str(&format!("q{} [label=\"Label\"];\nq0 -- q{};\n", i, i));
    }
    expected.push_str("}\n");
    assert_eq!(ui.to_graphviz(), expected);
}
