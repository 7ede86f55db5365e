//! Tests for identifier allocation, widget capabilities, tree building and
//! configuration validation.

use ui_tree::ids::IdGen;
use ui_tree::tree::Button;
use ui_tree::tree::Component;
use ui_tree::tree::ConfigError;
use ui_tree::tree::Element;
use ui_tree::tree::HasID;
use ui_tree::tree::Label;
use ui_tree::tree::Layout;
use ui_tree::tree::LayoutType;
use ui_tree::tree::NodeType;
use ui_tree::ui::UI;

/// Identifiers are handed out strictly increasing and pairwise distinct,
/// whichever node type asks for them.
#[test]
fn identifiers_distinct_and_increasing() {
    let mut ids = IdGen::new();
    let b = Button::new("press", &mut ids);
    let l = Label::new("text", &mut ids);
    let lay = Layout::new_rows([1], &mut ids);
    let lay2 = Layout::new_columns([2, 1], &mut ids);
    let got = [b.id(), l.id(), lay.id(), lay2.id()];
    assert_eq!(got, [0, 1, 2, 3]);
    for i in 0..got.len() {
        for j in (i + 1)..got.len() {
            assert!(got[i] < got[j]);
            assert_ne!(got[i], got[j]);
        }
    }
}

/// A fresh generator counts from zero, one by one.
#[test]
fn generator_counts_from_zero() {
    let mut ids = IdGen::new();
    assert_eq!(ids.fresh(), 0);
    assert_eq!(ids.fresh(), 1);
    assert_eq!(ids.fresh(), 2);
}

/// Widget capabilities: static tags, identifiers, and the anchor point
/// that stays unset until stored.
#[test]
fn widget_capabilities() {
    let mut ids = IdGen::new();
    let mut b = Button::new("Send", &mut ids);
    let mut l = Label::new("Subject", &mut ids);
    assert_eq!(b.name(), "Button");
    assert_eq!(b.node_type(), "Button");
    assert_eq!(l.name(), "Label");
    assert_eq!(l.node_type(), "Label");
    assert_eq!(b.id(), 0);
    assert_eq!(l.id(), 1);
    assert_eq!(b.get_computed_location(), None);
    assert_eq!(l.get_computed_location(), None);
    b.set_computed_location((12, 34));
    assert_eq!(b.get_computed_location(), Some((12, 34)));
    b.set_computed_location((56, 78));
    assert_eq!(b.get_computed_location(), Some((56, 78)));
    l.set_computed_location((0, 0));
    assert_eq!(l.get_computed_location(), Some((0, 0)));
}

/// An element forwards identity and type queries to whatever it wraps.
#[test]
fn element_forwarding() {
    let mut ids = IdGen::new();
    let e = Element::ChildComponent(Button::new("Go", &mut ids).into_widget());
    assert_eq!(e.node_type(), "Button");
    assert_eq!(e.id(), 0);
    let e2 = Element::ChildLayout(Layout::new_rows([1], &mut ids));
    assert_eq!(e2.node_type(), "Layout");
    assert_eq!(e2.id(), 1);
    let e3 = Element::ChildComponent(Label::new("Hi", &mut ids).into_widget());
    assert_eq!(e3.node_type(), "Label");
    assert_eq!(e3.id(), 2);
}

/// The layout setters replace the configuration wholesale and leave the
/// children alone.
#[test]
fn layout_setters() {
    let mut ids = IdGen::new();
    let mut lay = Layout::empty(&mut ids);
    lay.add_element(Label::new("a", &mut ids));
    lay.add_element(Label::new("b", &mut ids));
    lay.set_layout([4, 6]);
    lay.set_padding([1, 2, 3, 4]);
    lay.set_layout_type(LayoutType::Row);
    assert_eq!(lay.id(), 0);
    // Two children against two weights: the configuration is accepted.
    assert_eq!(lay.validate(), Ok(()));
}

/// A fresh root is born with the single default weight and no child, which
/// a layout pass would reject.
#[test]
fn validate_fresh_root_mismatch() {
    let mut ids = IdGen::new();
    let ui = UI::new(100, 100, &mut ids);
    assert_eq!(
        ui.validate(),
        Err(ConfigError::ProportionCount { id: 0, children: 0, proportions: 1 })
    );
}

/// With one weight per child everywhere, validation passes.
#[test]
fn validate_accepts_matching_weights() {
    let mut ids = IdGen::new();
    let mut ui = UI::new(1600, 1200, &mut ids);
    ui.set_layout_row([3, 5, 3]);
    ui.add_element(Label::new("Left sidebar", &mut ids));
    ui.add_element(Label::new("Center area", &mut ids));
    ui.add_element(Label::new("Right sidebar", &mut ids));
    assert_eq!(ui.validate(), Ok(()));
}

/// The first mismatch in depth-first pre-order is the one reported.
#[test]
fn validate_reports_first_nested_mismatch() {
    let mut ids = IdGen::new();
    let mut ui = UI::new(500, 500, &mut ids);
    ui.set_layout_column([1, 1]);
    let mut inner = Layout::new_rows([1, 1], &mut ids);
    inner.add_element(Button::new("only one child", &mut ids));
    ui.add_layout(inner);
    ui.add_element(Label::new("second", &mut ids));
    assert_eq!(
        ui.validate(),
        Err(ConfigError::ProportionCount { id: 1, children: 1, proportions: 2 })
    );
}
