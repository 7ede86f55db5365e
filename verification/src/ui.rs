//! The root object: canvas dimensions plus one owned root layout, held
//! through the `Element` wrapper.  All configuration calls delegate to the
//! root layout; the graph export starts from it.

use vstd::prelude::*;
use vstd::string::StringExecFns;
use crate::ids::IdGen;
use crate::model::ElementModel;
use crate::model::LayoutModel;
use crate::model::UIModel;
use crate::model::graphviz_str;
use crate::model::root_layout;
use crate::model::with_root;
use crate::model::config_error;
use crate::tree::Component;
use crate::tree::ConfigError;
use crate::tree::Element;
use crate::tree::Layout;
use crate::tree::LayoutType;
use crate::tree::validate_element;
use crate::tree::write_element;

verus! {

/// The root of a composition tree: a canvas and one owned root layout.
#[derive(Debug)]
pub struct UI {
    width: u32,
    height: u32,
    container: Element,
}

impl View for UI {
    type V = UIModel;

    closed spec fn view(&self) -> UIModel {
        UIModel { width: self.width, height: self.height, root: self.container@ }
    }
}

impl UI {
    /// Well-formedness: the root node is always a layout held through the
    /// element wrapper.  Constructors establish this and every method keeps
    /// it.
    pub open spec fn wf(&self) -> bool {
        self@.root is Layout
    }

    /// A new canvas of the given positive pixel dimensions, whose root is a
    /// fresh empty layout (column orientation, proportions `[1]`, padding
    /// `[0, 0, 0, 0]`).
    pub fn new(width: u32, height: u32, ids: &mut IdGen) -> (ui: UI)
        requires
            width >= 1,
            height >= 1,
            old(ids).wf(),
            old(ids).next_id() < usize::MAX,
        ensures
            ui@ == (UIModel {
                width,
                height,
                root: ElementModel::Layout(
                    LayoutModel {
                        id: old(ids).next_id(),
                        layout_type: LayoutType::Column,
                        proportions: seq![1u32],
                        padding: seq![0u32, 0u32, 0u32, 0u32],
                        children: Seq::empty(),
                    },
                ),
            }),
            ui.wf(),
            final(ids).wf(),
            final(ids).next_id() == old(ids).next_id() + 1,
            final(ids).issued() == old(ids).issued().push(old(ids).next_id()),
    {
        UI { width, height, container: Element::ChildLayout(Layout::empty(ids)) }
    }

    /// Replace the root layout's proportions and set its orientation to
    /// columns; children are untouched.
    pub fn set_layout_column<const N: usize>(&mut self, proportions: [u32; N])
        requires
            old(self).wf(),
        ensures
            final(self).wf(),
            final(self)@ == with_root(
                old(self)@,
                (LayoutModel {
                    proportions: proportions@,
                    layout_type: LayoutType::Column,
                    ..root_layout(old(self)@)
                }),
            ),
    {
        self.container.root_set_layout(proportions);
        self.container.root_set_layout_type(LayoutType::Column);
    }

    /// Replace the root layout's proportions and set its orientation to
    /// rows; children are untouched.
    pub fn set_layout_row<const N: usize>(&mut self, proportions: [u32; N])
        requires
            old(self).wf(),
        ensures
            final(self).wf(),
            final(self)@ == with_root(
                old(self)@,
                (LayoutModel {
                    proportions: proportions@,
                    layout_type: LayoutType::Row,
                    ..root_layout(old(self)@)
                }),
            ),
    {
        self.container.root_set_layout(proportions);
        self.container.root_set_layout_type(LayoutType::Row);
    }

    /// Replace the root layout's padding (top, right, bottom, left).
    pub fn set_padding(&mut self, padding: [u32; 4])
        requires
            old(self).wf(),
        ensures
            final(self).wf(),
            final(self)@ == with_root(
                old(self)@,
                (LayoutModel { padding: padding@, ..root_layout(old(self)@) }),
            ),
    {
        self.container.root_set_padding(padding);
    }

    /// Append a leaf widget to the end of the root layout's children.
    pub fn add_element<C: Component>(&mut self, element: C)
        requires
            old(self).wf(),
        ensures
            final(self).wf(),
            final(self)@ == with_root(
                old(self)@,
                (LayoutModel {
                    children: root_layout(old(self)@).children.push(
                        ElementModel::Component(element.model()),
                    ),
                    ..root_layout(old(self)@)
                }),
            ),
    {
        self.container.root_add_element(element);
    }

    /// Append a nested layout (with its whole subtree) to the end of the
    /// root layout's children.
    pub fn add_layout(&mut self, layout: Layout)
        requires
            old(self).wf(),
        ensures
            final(self).wf(),
            final(self)@ == with_root(
                old(self)@,
                (LayoutModel {
                    children: root_layout(old(self)@).children.push(ElementModel::Layout(layout@)),
                    ..root_layout(old(self)@)
                }),
            ),
    {
        self.container.root_add_layout(layout);
    }

    /// Check the whole tree under the root for configuration mismatches:
    /// every layout must hold exactly one proportion weight per child and
    /// exactly four padding values.  The first violation in depth-first
    /// pre-order is returned; a layout pass may run only on a tree this
    /// accepts.
    pub fn validate(&self) -> (r: Result<(), ConfigError>)
        ensures
            r == (match config_error(self@.root) {
                Option::None => Result::<(), ConfigError>::Ok(()),
                Option::Some(err) => Result::Err(err),
            }),
    {
        validate_element(&self.container)
    }

    /// Export the tree as a textual graph description: one declaration line
    /// per node and one edge line per parent-child pair, interleaved in
    /// depth-first pre-order and wrapped in the graph block markers.
    pub fn to_graphviz(&self) -> (s: String)
        ensures
            s@ == graphviz_str(self@.root),
    {
        let mut s = "graph {\n".to_owned();
        write_element(&mut s, &self.container);
        s.append("}\n");
        proof {
            assert(s@ =~= graphviz_str(self@.root));
        }
        s
    }
}

} // verus!
