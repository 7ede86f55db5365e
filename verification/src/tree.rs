//! The composition tree: leaf widgets, the `Element` wrapper, and `Layout`
//! containers, together with the executable graph exporter.
//!
//! Widgets form a small closed set (`Button`, `Label`), reached through the
//! [`Component`] capability trait and stored in the tree as the [`Widget`]
//! enum.  Every node allocates its identifier from an [`IdGen`] handed to
//! its constructor.

use vstd::prelude::*;
use vstd::string::StringExecFns;
use crate::ids::IdGen;
use crate::model::ElementModel;
use crate::model::GraphLine;
use crate::model::LayoutModel;
use crate::model::WidgetModel;
use crate::model::as_layout;
use crate::model::children_config_error;
use crate::model::children_lines;
use crate::model::config_error;
use crate::model::dec_str;
use crate::model::digit_char;
use crate::model::graph_lines;
use crate::model::lemma_children_config_error_grows;
use crate::model::lemma_lines_str_concat;
use crate::model::lemma_lines_str_singleton;
use crate::model::line_str;
use crate::model::lines_str;
use crate::model::node_id;
use crate::model::node_label;
use crate::model::node_tag;

verus! {

/// Orientation of a `Layout`: children stacked as rows or as columns.
#[derive(Debug)]
pub enum LayoutType {
    Column,
    Row,
}

/// Read access to a node's structural type tag.
pub trait NodeType {
    /// The tag the executable `node_type` returns.
    spec fn spec_node_type(&self) -> Seq<char>;

    /// The structural type tag of this node ("Layout", "Button", "Label").
    fn node_type(&self) -> (r: &str)
        ensures
            r@ == self.spec_node_type(),
    ;
}

/// Read access to a node's identifier.
pub trait HasID {
    /// The identifier the executable `id` returns.
    spec fn spec_id(&self) -> usize;

    /// This node's identifier.
    fn id(&self) -> (r: usize)
        ensures
            r == self.spec_id(),
    ;
}

/// The capability set of a leaf widget: a static type tag, an identifier,
/// and an anchor point that a layout pass stores later.
pub trait Component: Sized {
    /// The widget's model: type tag, display text, identifier, anchor, size.
    spec fn model(&self) -> WidgetModel;

    /// Static display tag for the widget kind (not the instance text).
    fn name(&self) -> (r: &'static str)
        ensures
            r@ == self.model().tag,
    ;

    /// Same tag, used by the graph exporter.
    fn node_type(&self) -> (r: &str)
        ensures
            r@ == self.model().tag,
    ;

    /// This widget's identifier.
    fn id(&self) -> (r: usize)
        ensures
            r == self.model().id,
    ;

    /// Store an absolute anchor point, overwriting any previous one.
    fn set_computed_location(&mut self, location: (u32, u32))
        ensures
            final(self).model() == (WidgetModel { location: Some(location), ..old(self).model() }),
    ;

    /// The stored anchor point, or `None` while no layout pass has run.
    fn get_computed_location(&self) -> (r: Option<(u32, u32)>)
        ensures
            r == self.model().location,
    ;

    /// Wrap this widget for storage inside an `Element`.
    fn into_widget(self) -> (w: Widget)
        ensures
            w@ == self.model(),
    ;
}

/// A push button.
#[derive(Debug)]
pub struct Button {
    label: String,
    location: Option<(u32, u32)>,
    dimensions: Option<(u32, u32)>,
    id: usize,
}

/// A piece of static text.
#[derive(Debug)]
pub struct Label {
    name: String,
    location: Option<(u32, u32)>,
    dimensions: Option<(u32, u32)>,
    id: usize,
}

/// The closed set of leaf widgets a tree can hold.
#[derive(Debug)]
pub enum Widget {
    Button(Button),
    Label(Label),
}

impl View for Button {
    type V = WidgetModel;

    closed spec fn view(&self) -> WidgetModel {
        WidgetModel {
            id: self.id,
            tag: "Button"@,
            text: self.label@,
            location: self.location,
            size: self.dimensions,
        }
    }
}

impl View for Label {
    type V = WidgetModel;

    closed spec fn view(&self) -> WidgetModel {
        WidgetModel {
            id: self.id,
            tag: "Label"@,
            text: self.name@,
            location: self.location,
            size: self.dimensions,
        }
    }
}

impl View for Widget {
    type V = WidgetModel;

    open spec fn view(&self) -> WidgetModel {
        match self {
            Widget::Button(b) => b@,
            Widget::Label(l) => l@,
        }
    }
}

impl Button {
    /// A new button with the given display text and a fresh identifier; its
    /// anchor point and size stay unset until a layout pass stores them.
    pub fn new(label: &str, ids: &mut IdGen) -> (b: Button)
        requires
            old(ids).wf(),
            old(ids).next_id() < usize::MAX,
        ensures
            b@ == (WidgetModel {
                id: old(ids).next_id(),
                tag: "Button"@,
                text: label@,
                location: None,
                size: None,
            }),
            final(ids).wf(),
            final(ids).next_id() == old(ids).next_id() + 1,
            final(ids).issued() == old(ids).issued().push(b@.id),
    {
        let id = ids.fresh();
        Button { label: label.to_owned(), location: None, dimensions: None, id }
    }
}

impl Label {
    /// A new label with the given display text and a fresh identifier; its
    /// anchor point and size stay unset until a layout pass stores them.
    pub fn new(name: &str, ids: &mut IdGen) -> (l: Label)
        requires
            old(ids).wf(),
            old(ids).next_id() < usize::MAX,
        ensures
            l@ == (WidgetModel {
                id: old(ids).next_id(),
                tag: "Label"@,
                text: name@,
                location: None,
                size: None,
            }),
            final(ids).wf(),
            final(ids).next_id() == old(ids).next_id() + 1,
            final(ids).issued() == old(ids).issued().push(l@.id),
    {
        let id = ids.fresh();
        Label { name: name.to_owned(), location: None, dimensions: None, id }
    }
}

impl Component for Button {
    open spec fn model(&self) -> WidgetModel {
        self@
    }

    fn name(&self) -> (r: &'static str) {
        "Button"
    }

    fn node_type(&self) -> (r: &str) {
        "Button"
    }

    fn id(&self) -> (r: usize) {
        self.id
    }

    fn set_computed_location(&mut self, location: (u32, u32)) {
        self.location = Some(location);
    }

    fn get_computed_location(&self) -> (r: Option<(u32, u32)>) {
        self.location
    }

    fn into_widget(self) -> (w: Widget) {
        Widget::Button(self)
    }
}

impl Component for Label {
    open spec fn model(&self) -> WidgetModel {
        self@
    }

    fn name(&self) -> (r: &'static str) {
        "Label"
    }

    fn node_type(&self) -> (r: &str) {
        "Label"
    }

    fn id(&self) -> (r: usize) {
        self.id
    }

    fn set_computed_location(&mut self, location: (u32, u32)) {
        self.location = Some(location);
    }

    fn get_computed_location(&self) -> (r: Option<(u32, u32)>) {
        self.location
    }

    fn into_widget(self) -> (w: Widget) {
        Widget::Label(self)
    }
}

impl Widget {
    /// The structural type tag of the wrapped widget.
    pub fn node_type(&self) -> (r: &str)
        ensures
            r@ == self@.tag,
    {
        match self {
            Widget::Button(b) => b.node_type(),
            Widget::Label(l) => l.node_type(),
        }
    }

    /// The identifier of the wrapped widget.
    pub fn id(&self) -> (r: usize)
        ensures
            r == self@.id,
    {
        match self {
            Widget::Button(b) => Component::id(b),
            Widget::Label(l) => Component::id(l),
        }
    }
}

/// A configuration mismatch, found where a layout pass would first need
/// the offending value.
#[derive(Debug, PartialEq, Eq, Structural)]
pub enum ConfigError {
    /// The layout `id` has `children` children but `proportions` proportion
    /// weights.
    ProportionCount { id: usize, children: usize, proportions: usize },
}

/// A tree node: either a nested `Layout` or a single leaf widget.  Callers
/// never build an `Element` directly; appending to a `Layout` wraps the
/// appended value automatically.
#[derive(Debug)]
pub enum Element {
    ChildLayout(Layout),
    ChildComponent(Widget),
}

/// An ordered container of `Element`s plus its configuration: orientation,
/// proportion weights along that orientation, and a four-value padding.
#[derive(Debug)]
pub struct Layout {
    elements: Vec<Element>,
    layout_type: LayoutType,
    proportions: Vec<u32>,
    padding: Vec<u32>,
    id: usize,
}

/// The model of an `Element`.
pub open spec fn elem_model(e: Element) -> ElementModel
    decreases e,
{
    match e {
        Element::ChildLayout(l) => ElementModel::Layout(layout_model(l)),
        Element::ChildComponent(w) => ElementModel::Component(w@),
    }
}

/// The model of a `Layout`.
pub closed spec fn layout_model(l: Layout) -> LayoutModel
    decreases l,
{
    LayoutModel {
        id: l.id,
        layout_type: l.layout_type,
        proportions: l.proportions@,
        padding: l.padding@,
        children: elems_model(l.elements@),
    }
}

/// The models of a sequence of `Element`s, in order.
pub open spec fn elems_model(es: Seq<Element>) -> Seq<ElementModel>
    decreases es,
{
    if es.len() == 0 {
        Seq::empty()
    } else {
        elems_model(es.drop_last()).push(elem_model(es.last()))
    }
}

/// `elems_model` maps the sequence elementwise.
pub proof fn lemma_elems_model(es: Seq<Element>)
    ensures
        elems_model(es).len() == es.len(),
        forall|i: int| 0 <= i < es.len() ==> elems_model(es)[i] == elem_model(es[i]),
    decreases es.len(),
{
    if es.len() > 0 {
        lemma_elems_model(es.drop_last());
        assert forall|i: int| 0 <= i < es.len() implies elems_model(es)[i] == elem_model(
            es[i],
        ) by {
            if i < es.len() - 1 {
                assert(es.drop_last()[i] == es[i]);
            }
        }
    }
}

/// Appending an element appends its model.
pub proof fn lemma_elems_model_push(es: Seq<Element>, e: Element)
    ensures
        elems_model(es.push(e)) == elems_model(es).push(elem_model(e)),
{
    assert(es.push(e).drop_last() =~= es);
    assert(es.push(e).last() == e);
}

impl View for Element {
    type V = ElementModel;

    open spec fn view(&self) -> ElementModel {
        elem_model(*self)
    }
}

impl View for Layout {
    type V = LayoutModel;

    open spec fn view(&self) -> LayoutModel {
        layout_model(*self)
    }
}

impl NodeType for Layout {
    open spec fn spec_node_type(&self) -> Seq<char> {
        "Layout"@
    }

    fn node_type(&self) -> (r: &str) {
        "Layout"
    }
}

impl NodeType for Element {
    open spec fn spec_node_type(&self) -> Seq<char> {
        node_tag(self@)
    }

    fn node_type(&self) -> (r: &str) {
        match self {
            Element::ChildLayout(layout) => layout.node_type(),
            Element::ChildComponent(widget) => widget.node_type(),
        }
    }
}

impl HasID for Element {
    open spec fn spec_id(&self) -> usize {
        node_id(self@)
    }

    fn id(&self) -> (r: usize) {
        match self {
            Element::ChildLayout(layout) => layout.id(),
            Element::ChildComponent(widget) => widget.id(),
        }
    }
}

/// Copy a fixed-size array of weights into a vector.
fn array_to_vec<const N: usize>(values: &[u32; N]) -> (v: Vec<u32>)
    ensures
        v@ == values@,
{
    let mut v: Vec<u32> = Vec::new();
    let mut i: usize = 0;
    while i < N
        invariant
            i <= N,
            v@ == values@.subrange(0, i as int),
        decreases N - i,
    {
        v.push(values[i]);
        proof {
            assert(v@ =~= values@.subrange(0, i as int + 1));
        }
        i = i + 1;
    }
    proof {
        assert(v@ =~= values@);
    }
    v
}

impl Layout {
    /// A layout with no children, column orientation, proportions `[1]`,
    /// padding `[0, 0, 0, 0]`, and a fresh identifier.
    pub fn empty(ids: &mut IdGen) -> (l: Layout)
        requires
            old(ids).wf(),
            old(ids).next_id() < usize::MAX,
        ensures
            l@ == (LayoutModel {
                id: old(ids).next_id(),
                layout_type: LayoutType::Column,
                proportions: seq![1u32],
                padding: seq![0u32, 0u32, 0u32, 0u32],
                children: Seq::empty(),
            }),
            final(ids).wf(),
            final(ids).next_id() == old(ids).next_id() + 1,
            final(ids).issued() == old(ids).issued().push(l@.id),
    {
        let id = ids.fresh();
        let mut proportions: Vec<u32> = Vec::new();
        proportions.push(1);
        let mut padding: Vec<u32> = Vec::new();
        padding.push(0);
        padding.push(0);
        padding.push(0);
        padding.push(0);
        let l = Layout {
            elements: Vec::new(),
            layout_type: LayoutType::Column,
            proportions,
            padding,
            id,
        };
        proof {
            assert(l.proportions@ =~= seq![1u32]);
            assert(l.padding@ =~= seq![0u32, 0u32, 0u32, 0u32]);
        }
        l
    }

    /// A childless layout with row orientation, the given proportion
    /// weights, padding `[0, 0, 0, 0]`, and a fresh identifier.
    pub fn new_rows<const N: usize>(proportions: [u32; N], ids: &mut IdGen) -> (l: Layout)
        requires
            N >= 1,
            old(ids).wf(),
            old(ids).next_id() < usize::MAX,
        ensures
            l@ == (LayoutModel {
                id: old(ids).next_id(),
                layout_type: LayoutType::Row,
                proportions: proportions@,
                padding: seq![0u32, 0u32, 0u32, 0u32],
                children: Seq::empty(),
            }),
            final(ids).wf(),
            final(ids).next_id() == old(ids).next_id() + 1,
            final(ids).issued() == old(ids).issued().push(l@.id),
    {
        let mut l = Layout::empty(ids);
        l.layout_type = LayoutType::Row;
        l.proportions = array_to_vec(&proportions);
        l
    }

    /// A childless layout with column orientation, the given proportion
    /// weights, padding `[0, 0, 0, 0]`, and a fresh identifier.
    pub fn new_columns<const N: usize>(proportions: [u32; N], ids: &mut IdGen) -> (l: Layout)
        requires
            N >= 1,
            old(ids).wf(),
            old(ids).next_id() < usize::MAX,
        ensures
            l@ == (LayoutModel {
                id: old(ids).next_id(),
                layout_type: LayoutType::Column,
                proportions: proportions@,
                padding: seq![0u32, 0u32, 0u32, 0u32],
                children: Seq::empty(),
            }),
            final(ids).wf(),
            final(ids).next_id() == old(ids).next_id() + 1,
            final(ids).issued() == old(ids).issued().push(l@.id),
    {
        let mut l = Layout::empty(ids);
        l.proportions = array_to_vec(&proportions);
        l
    }

    /// Wrap the given widget as an `Element` and append it to the end of
    /// the child sequence.  Everything else is left unchanged.
    pub fn add_element<C: Component>(&mut self, component: C)
        ensures
            final(self)@ == (LayoutModel {
                children: old(self)@.children.push(ElementModel::Component(component.model())),
                ..old(self)@
            }),
    {
        let w = component.into_widget();
        let ghost pre = self.elements@;
        self.elements.push(Element::ChildComponent(w));
        proof {
            lemma_elems_model_push(pre, Element::ChildComponent(w));
        }
    }

    /// Append the given layout (with its whole subtree, which keeps its
    /// identifiers and children) as a nested child.
    pub fn add_layout(&mut self, layout: Layout)
        ensures
            final(self)@ == (LayoutModel {
                children: old(self)@.children.push(ElementModel::Layout(layout@)),
                ..old(self)@
            }),
    {
        let ghost pre = self.elements@;
        self.elements.push(Element::ChildLayout(layout));
        proof {
            lemma_elems_model_push(pre, Element::ChildLayout(layout));
        }
    }

    /// Replace the proportion vector wholesale; children are untouched.
    pub fn set_layout<const N: usize>(&mut self, proportions: [u32; N])
        ensures
            final(self)@ == (LayoutModel { proportions: proportions@, ..old(self)@ }),
    {
        self.proportions = array_to_vec(&proportions);
    }

    /// Replace the padding (top, right, bottom, left) wholesale.
    pub fn set_padding(&mut self, padding: [u32; 4])
        ensures
            final(self)@ == (LayoutModel { padding: padding@, ..old(self)@ }),
    {
        self.padding = array_to_vec(&padding);
    }

    /// Change the orientation in place.
    pub fn set_layout_type(&mut self, layout_type: LayoutType)
        ensures
            final(self)@ == (LayoutModel { layout_type, ..old(self)@ }),
    {
        self.layout_type = layout_type;
    }

    /// This layout's identifier.
    pub fn id(&self) -> (r: usize)
        ensures
            r == self@.id,
    {
        self.id
    }

    /// Check this layout's subtree for configuration mismatches, as a
    /// layout pass would meet them: every layout needs exactly one
    /// proportion weight per child.  The first violation in depth-first
    /// pre-order is returned.
    pub fn validate(&self) -> (r: Result<(), ConfigError>)
        ensures
            r == (match config_error(ElementModel::Layout(self@)) {
                Option::None => Result::<(), ConfigError>::Ok(()),
                Option::Some(err) => Result::Err(err),
            }),
        decreases self, 0int,
    {
        proof {
            lemma_elems_model(self.elements@);
        }
        if self.proportions.len() != self.elements.len() {
            return Err(
                ConfigError::ProportionCount {
                    id: self.id,
                    children: self.elements.len(),
                    proportions: self.proportions.len(),
                },
            );
        }
        let ghost cs = self@.children;
        let n = self.elements.len();
        let mut i: usize = 0;
        while i < n
            invariant
                i <= n,
                n == self.elements.len(),
                cs == elems_model(self.elements@),
                cs.len() == n,
                self@.proportions.len() == self@.children.len(),
                self@.children == cs,
                children_config_error(cs, i as int) is None,
            decreases n - i,
        {
            proof {
                lemma_elems_model(self.elements@);
            }
            let r = validate_element(&self.elements[i]);
            if let Err(err) = r {
                proof {
                    assert(children_config_error(cs, i as int + 1) == Some(err));
                    lemma_children_config_error_grows(cs, i as int + 1, n as int);
                    assert(config_error(ElementModel::Layout(self@)) == Some(err));
                }
                return Err(err);
            }
            i = i + 1;
        }
        Ok(())
    }
}

/// Check one node's subtree for configuration mismatches; a leaf widget
/// has none.
pub(crate) fn validate_element(e: &Element) -> (r: Result<(), ConfigError>)
    ensures
        r == (match config_error(e@) {
            Option::None => Result::<(), ConfigError>::Ok(()),
            Option::Some(err) => Result::Err(err),
        }),
    decreases e, 1int,
{
    match e {
        Element::ChildLayout(layout) => layout.validate(),
        Element::ChildComponent(_) => Ok(()),
    }
}

impl Element {
    /// Replace the wrapped layout's proportions.
    pub(crate) fn root_set_layout<const N: usize>(&mut self, proportions: [u32; N])
        requires
            *old(self) is ChildLayout,
        ensures
            *final(self) is ChildLayout,
            final(self)@ == ElementModel::Layout(
                (LayoutModel { proportions: proportions@, ..as_layout(old(self)@) }),
            ),
    {
        match self {
            Element::ChildLayout(container) => container.set_layout(proportions),
            Element::ChildComponent(_) => {
            },
        }
    }

    /// Change the wrapped layout's orientation.
    pub(crate) fn root_set_layout_type(&mut self, layout_type: LayoutType)
        requires
            *old(self) is ChildLayout,
        ensures
            *final(self) is ChildLayout,
            final(self)@ == ElementModel::Layout(
                (LayoutModel { layout_type, ..as_layout(old(self)@) }),
            ),
    {
        match self {
            Element::ChildLayout(container) => container.set_layout_type(layout_type),
            Element::ChildComponent(_) => {
            },
        }
    }

    /// Replace the wrapped layout's padding.
    pub(crate) fn root_set_padding(&mut self, padding: [u32; 4])
        requires
            *old(self) is ChildLayout,
        ensures
            *final(self) is ChildLayout,
            final(self)@ == ElementModel::Layout(
                (LayoutModel { padding: padding@, ..as_layout(old(self)@) }),
            ),
    {
        match self {
            Element::ChildLayout(container) => container.set_padding(padding),
            Element::ChildComponent(_) => {
            },
        }
    }

    /// Append a leaf widget to the wrapped layout's children.
    pub(crate) fn root_add_element<C: Component>(&mut self, component: C)
        requires
            *old(self) is ChildLayout,
        ensures
            *final(self) is ChildLayout,
            final(self)@ == ElementModel::Layout(
                (LayoutModel {
                    children: as_layout(old(self)@).children.push(
                        ElementModel::Component(component.model()),
                    ),
                    ..as_layout(old(self)@)
                }),
            ),
    {
        match self {
            Element::ChildLayout(container) => container.add_element(component),
            Element::ChildComponent(_) => {
            },
        }
    }

    /// Append a nested layout to the wrapped layout's children.
    pub(crate) fn root_add_layout(&mut self, layout: Layout)
        requires
            *old(self) is ChildLayout,
        ensures
            *final(self) is ChildLayout,
            final(self)@ == ElementModel::Layout(
                (LayoutModel {
                    children: as_layout(old(self)@).children.push(ElementModel::Layout(layout@)),
                    ..as_layout(old(self)@)
                }),
            ),
    {
        match self {
            Element::ChildLayout(container) => container.add_layout(layout),
            Element::ChildComponent(_) => {
            },
        }
    }
}

/// The single decimal digit `d` as text.
fn digit_str(d: usize) -> (r: &'static str)
    requires
        d < 10,
    ensures
        r@ == seq![digit_char(d as int)],
{
    proof {
        reveal_strlit("0");
        reveal_strlit("1");
        reveal_strlit("2");
        reveal_strlit("3");
        reveal_strlit("4");
        reveal_strlit("5");
        reveal_strlit("6");
        reveal_strlit("7");
        reveal_strlit("8");
        reveal_strlit("9");
    }
    let r = if d == 0 {
        "0"
    } else if d == 1 {
        "1"
    } else if d == 2 {
        "2"
    } else if d == 3 {
        "3"
    } else if d == 4 {
        "4"
    } else if d == 5 {
        "5"
    } else if d == 6 {
        "6"
    } else if d == 7 {
        "7"
    } else if d == 8 {
        "8"
    } else {
        "9"
    };
    proof {
        assert(r@ =~= seq![digit_char(d as int)]);
    }
    r
}

/// Append the decimal rendering of `n` to `out`.
fn push_decimal(out: &mut String, n: usize)
    ensures
        final(out)@ == old(out)@ + dec_str(n as nat),
    decreases n,
{
    if n < 10 {
        out.append(digit_str(n));
    } else {
        push_decimal(out, n / 10);
        out.append(digit_str(n % 10));
        proof {
            assert(out@ =~= old(out)@ + dec_str(n as nat));
        }
    }
}

/// Append the declaration line of the node with this identifier and label.
fn push_decl_line(out: &mut String, id: usize, label: &str)
    ensures
        final(out)@ == old(out)@ + line_str(
            GraphLine::Decl { id, label: label@ },
        ),
{
    out.append("q");
    push_decimal(out, id);
    out.append(" [label=\"");
    out.append(label);
    out.append("\"];\n");
    proof {
        assert(out@ =~= old(out)@ + line_str(GraphLine::Decl { id, label: label@ }));
    }
}

/// Append the edge line from `parent` to `child`.
fn push_edge_line(out: &mut String, parent: usize, child: usize)
    ensures
        final(out)@ == old(out)@ + line_str(GraphLine::Edge { parent, child }),
{
    out.append("q");
    push_decimal(out, parent);
    out.append(" -- q");
    push_decimal(out, child);
    out.append(";\n");
    proof {
        assert(out@ =~= old(out)@ + line_str(GraphLine::Edge { parent, child }));
    }
}

/// Append the rendered subtree of `e`: its declaration line, then, for each
/// child in insertion order, the child's full subtree followed by the edge
/// to it.
pub(crate) fn write_element(out: &mut String, e: &Element)
    ensures
        final(out)@ == old(out)@ + lines_str(graph_lines(e@)),
    decreases e, 1int,
{
    match e {
        Element::ChildComponent(widget) => {
            let id = widget.id();
            let label = if id == 0 {
                "UI"
            } else {
                widget.node_type()
            };
            push_decl_line(out, id, label);
            proof {
                lemma_lines_str_singleton(GraphLine::Decl { id, label: label@ });
            }
        },
        Element::ChildLayout(layout) => {
            write_layout(out, layout);
        },
    }
}

/// Append the rendered subtree of the node `l`, as `write_element` would.
pub(crate) fn write_layout(out: &mut String, l: &Layout)
    ensures
        final(out)@ == old(out)@ + lines_str(graph_lines(ElementModel::Layout(l@))),
    decreases l, 0int,
{
    let ghost e = ElementModel::Layout(l@);
    let id = l.id();
    let label = if id == 0 {
        "UI"
    } else {
        l.node_type()
    };
    push_decl_line(out, id, label);
    let ghost decl = GraphLine::Decl { id, label: label@ };
    let ghost base = old(out)@;
    let ghost cs = l@.children;
    proof {
        lemma_lines_str_singleton(decl);
        lemma_elems_model(l.elements@);
        assert(out@ =~= base + lines_str(seq![decl] + children_lines(l@.id, cs, 0)));
    }
    let n = l.elements.len();
    let mut i: usize = 0;
    while i < n
        invariant
            i <= n,
            n == l.elements.len(),
            cs == l@.children,
            cs == elems_model(l.elements@),
            cs.len() == n,
            id == l@.id,
            decl == (GraphLine::Decl { id, label: node_label(ElementModel::Layout(l@)) }),
            out@ == base + lines_str(seq![decl] + children_lines(l@.id, cs, i as int)),
        decreases n - i,
    {
        write_element(out, &l.elements[i]);
        let child_id = l.elements[i].id();
        push_edge_line(out, id, child_id);
        proof {
            lemma_elems_model(l.elements@);
            let ghost edge = GraphLine::Edge { parent: id, child: child_id };
            let ghost prefix = seq![decl] + children_lines(l@.id, cs, i as int);
            lemma_lines_str_concat(prefix, graph_lines(cs[i as int]));
            lemma_lines_str_concat(prefix + graph_lines(cs[i as int]), seq![edge]);
            lemma_lines_str_singleton(edge);
            assert(children_lines(l@.id, cs, i as int + 1) =~= children_lines(l@.id, cs, i as int)
                + graph_lines(cs[i as int]) + seq![edge]);
            assert(seq![decl] + children_lines(l@.id, cs, i as int + 1) =~= prefix + graph_lines(
                cs[i as int],
            ) + seq![edge]);
            assert(out@ =~= base + lines_str(seq![decl] + children_lines(l@.id, cs, i as int + 1)));
        }
        i = i + 1;
    }
    proof {
        assert(graph_lines(e) =~= seq![decl] + children_lines(l@.id, cs, n as int));
    }
}

} // verus!
