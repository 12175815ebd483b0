//! A container that lays its children out as a flow.

use vstd::prelude::*;
use vstd::std_specs::convert::IntoSpec;
use crate::config::FlowTableData;
use crate::geometry::Child;
use crate::pass::Pass;

verus! {

/// The state of a flow table as its contracts see it.
pub struct FlowTableView {
    pub x: i32,
    pub y: i32,
    pub w: i32,
    pub h: i32,
    pub label: Option<&'static str>,
    pub data: FlowTableData,
    pub children: Seq<Child>,
    pub ignore: Seq<u64>,
    pub ended: bool,
}

impl FlowTableView {
    /// The sizing proxy: the first child, which the table makes for itself.
    pub open spec fn proxy(self) -> Child {
        self.children[0]
    }

    /// Whether the state is one that a flow table can be in: the sizing
    /// proxy is there, the children are numbered in the order in which they
    /// came, and the proxy alone is left out of the layout.
    pub open spec fn valid(self) -> bool {
        &&& self.children.len() >= 1
        &&& forall|i: int| 0 <= i < self.children.len() ==> (#[trigger] self.children[i]).id == i
        &&& self.ignore == seq![0u64]
    }

    /// The layout pass of the table in a container at `(x, y)` of width `w`.
    pub open spec fn pass(self, x: i32, y: i32, w: i32) -> Pass {
        self.data.pass(x, y, w, self.children, self.ignore)
    }

    /// The state after the table was put at `(x, y)` with width `w`: the
    /// children are laid out, the sizing proxy has the rectangle of what was
    /// laid out, and the table has the proxy's size, whatever height was
    /// asked for.
    pub open spec fn resized(self, x: i32, y: i32, w: i32) -> FlowTableView {
        let pass = self.pass(x, y, w);
        let rect = pass.proxy();
        FlowTableView {
            x,
            y,
            w: rect.w,
            h: rect.h,
            children: pass.laid_out().update(
                0,
                Child { id: self.proxy().id, x: rect.x, y: rect.y, w: rect.w, h: rect.h },
            ),
            ..self
        }
    }
}

/// A container that arranges its children into a wrapping grid of columns
/// and takes the size of what it laid out.
///
/// Its first child is the sizing proxy, an element of its own making that is
/// never laid out and carries the total size of the content.
#[derive(Debug)]
pub struct FlowTable {
    x: i32,
    y: i32,
    w: i32,
    h: i32,
    label: Option<&'static str>,
    data: FlowTableData,
    children: Vec<Child>,
    ignore_children: Vec<u64>,
    ended: bool,
}

impl View for FlowTable {
    type V = FlowTableView;

    closed spec fn view(&self) -> FlowTableView {
        FlowTableView {
            x: self.x,
            y: self.y,
            w: self.w,
            h: self.h,
            label: self.label,
            data: self.data,
            children: self.children@,
            ignore: self.ignore_children@,
            ended: self.ended,
        }
    }
}

impl FlowTable {
    /// The state of a table that was just made: the default configuration,
    /// and the sizing proxy as the only child and the only one left out of
    /// the layout.
    pub open spec fn fresh(x: i32, y: i32, w: i32, h: i32, label: Option<&'static str>) -> FlowTableView {
        FlowTableView {
            x,
            y,
            w,
            h,
            label,
            data: FlowTableData::plain(),
            children: seq![Child { id: 0, x: 0, y: 0, w: 0, h: 0 }],
            ignore: seq![0u64],
            ended: false,
        }
    }

    /// Makes a table with the given bounds and label.
    ///
    /// The label is whatever the conversion of `label` gives; everything else
    /// is as in a table made by `labelled`.
    pub fn new<T: Into<Option<&'static str>>>(x: i32, y: i32, w: i32, h: i32, label: T) -> (table:
        Self)
        ensures
            table@ == Self::fresh(x, y, w, h, table@.label),
            T::obeys_into_spec() ==> table@.label == label.into_spec(),
            table@.valid(),
    {
        Self::labelled(x, y, w, h, label.into())
    }

    /// Makes a table with the given bounds and the given label, or none.
    ///
    /// The table makes its sizing proxy, and then notes the children that it
    /// holds at this moment as those that no layout pass will lay out.
    pub fn labelled(x: i32, y: i32, w: i32, h: i32, label: Option<&'static str>) -> (table: Self)
        ensures
            table@ == Self::fresh(x, y, w, h, label),
            table@.valid(),
    {
        let data = FlowTableData::default();
        let dummy = Child { id: 0, x: 0, y: 0, w: 0, h: 0 };
        let mut children: Vec<Child> = Vec::new();
        children.push(dummy);
        let mut ignore_children: Vec<u64> = Vec::new();
        let mut i: usize = 0;
        while i < children.len()
            invariant
                i <= children.len(),
                children@ == seq![dummy],
                ignore_children@ == children@.subrange(0, i as int).map_values(|c: Child| c.id),
            decreases children.len() - i,
        {
            ignore_children.push(children[i].id);
            i += 1;
        }
        assert(ignore_children@ =~= seq![0u64]);
        FlowTable { x, y, w, h, label, data, children, ignore_children, ended: false }
    }

    /// Sets the padding between the bounds of the table and its content.
    pub fn with_padding(self, top: i32, right: i32, bottom: i32, left: i32) -> (table: Self)
        ensures
            table@ == (FlowTableView {
                data: FlowTableData {
                    padding_top: top,
                    padding_right: right,
                    padding_bottom: bottom,
                    padding_left: left,
                    ..self@.data
                },
                ..self@
            }),
    {
        let mut table = self;
        table.data.padding_top = top;
        table.data.padding_right = right;
        table.data.padding_bottom = bottom;
        table.data.padding_left = left;
        table
    }

    /// Sets the gaps between the children of a row and between rows.
    pub fn with_spacing(self, horizontal: i32, vertical: i32) -> (table: Self)
        ensures
            table@ == (FlowTableView {
                data: FlowTableData {
                    spacing_horizontal: horizontal,
                    spacing_vertical: vertical,
                    ..self@.data
                },
                ..self@
            }),
    {
        let mut table = self;
        table.data.spacing_horizontal = horizontal;
        table.data.spacing_vertical = vertical;
        table
    }

    /// Sets the width below which no column shrinks. Zero switches column
    /// splitting off.
    pub fn with_min_column_width(self, width: i32) -> (table: Self)
        ensures
            table@ == (FlowTableView {
                data: FlowTableData { min_column_width: width, ..self@.data },
                ..self@
            }),
    {
        let mut table = self;
        table.data.min_column_width = width;
        table
    }

    /// Makes a child with the given bounds and adds it behind the others.
    ///
    /// The result is the child's identifier. A table that was ended takes no
    /// child: the result is none, and the table stays as it is.
    pub fn add(&mut self, x: i32, y: i32, w: i32, h: i32) -> (id: Option<u64>)
        requires
            old(self)@.valid(),
        ensures
            final(self)@.valid(),
            old(self)@.ended ==> id.is_none() && final(self)@ == old(self)@,
            !old(self)@.ended ==> id == Some(old(self)@.children.len() as u64) && final(self)@ == (
            FlowTableView {
                children: old(self)@.children.push(
                    Child { id: old(self)@.children.len() as u64, x, y, w, h },
                ),
                ..old(self)@
            }),
    {
        if self.ended {
            return None;
        }
        let id: u64 = self.children.len() as u64;
        self.children.push(Child { id, x, y, w, h });
        Some(id)
    }

    /// Closes the table for further children and lays out those it has, in
    /// the bounds it has, so that their geometry is right before anything is
    /// drawn.
    pub fn end(&mut self)
        requires
            old(self)@.valid(),
            old(self)@.pass(old(self)@.x, old(self)@.y, old(self)@.w).fits(),
        ensures
            final(self)@.valid(),
            final(self)@ == (FlowTableView {
                ended: true,
                ..old(self)@.resized(old(self)@.x, old(self)@.y, old(self)@.w)
            }),
    {
        self.ended = true;
        self.relayout();
    }

    /// Lays the children out anew in the bounds that the table has, as is
    /// due after its children have changed. The result tells whether the
    /// table took another size.
    pub fn relayout(&mut self) -> (resized: bool)
        requires
            old(self)@.valid(),
            old(self)@.pass(old(self)@.x, old(self)@.y, old(self)@.w).fits(),
        ensures
            final(self)@.valid(),
            final(self)@ == old(self)@.resized(old(self)@.x, old(self)@.y, old(self)@.w),
            resized == (old(self)@.h != final(self)@.h),
    {
        let x = self.x;
        let y = self.y;
        let w = self.w;
        let h = self.h;
        self.resize(x, y, w, h)
    }

    /// Tells whether a layout pass of the table in a container at `(x, y)` of
    /// width `w` can be written down in pixel values.
    pub fn can_resize(&self, x: i32, y: i32, w: i32) -> (ok: bool)
        ensures
            ok == self@.pass(x, y, w).fits(),
    {
        self.data.layout(x, y, w, &self.children, &self.ignore_children).is_some()
    }

    /// Sets the bounds of the table and lays its children out in them.
    ///
    /// The sizing proxy takes the rectangle of what was laid out. Where the
    /// size asked for is not the proxy's, the table takes the proxy's size;
    /// the result tells whether it had to.
    pub fn resize(&mut self, x: i32, y: i32, w: i32, h: i32) -> (resized: bool)
        requires
            old(self)@.valid(),
            old(self)@.pass(x, y, w).fits(),
        ensures
            final(self)@ == old(self)@.resized(x, y, w),
            final(self)@.valid(),
            resized == (w != final(self)@.w || h != final(self)@.h),
    {
        let layout = self.data.layout(x, y, w, &self.children, &self.ignore_children).unwrap();
        let size = layout.container_size(w, h);
        let rect = layout.proxy;
        let dummy = Child { id: self.children[0].id, x: rect.x, y: rect.y, w: rect.w, h: rect.h };
        self.children = layout.children;
        self.children[0] = dummy;
        self.x = x;
        self.y = y;
        match size {
            Some((width, height)) => {
                self.w = width;
                self.h = height;
                true
            },
            None => {
                self.w = w;
                self.h = h;
                false
            },
        }
    }

    /// The left edge of the table.
    pub fn x(&self) -> (x: i32)
        ensures
            x == self@.x,
    {
        self.x
    }

    /// The top edge of the table.
    pub fn y(&self) -> (y: i32)
        ensures
            y == self@.y,
    {
        self.y
    }

    /// The width of the table.
    pub fn w(&self) -> (w: i32)
        ensures
            w == self@.w,
    {
        self.w
    }

    /// The height of the table.
    pub fn h(&self) -> (h: i32)
        ensures
            h == self@.h,
    {
        self.h
    }

    /// The label of the table.
    pub fn label(&self) -> (label: Option<&'static str>)
        ensures
            label == self@.label,
    {
        self.label
    }

    /// The configuration of the table.
    pub fn data(&self) -> (data: FlowTableData)
        ensures
            data == self@.data,
    {
        self.data
    }

    /// The children of the table in their order, the sizing proxy first.
    pub fn children(&self) -> (children: &Vec<Child>)
        ensures
            children@ == self@.children,
    {
        &self.children
    }

    /// Tells whether the table was ended.
    pub fn is_ended(&self) -> (ended: bool)
        ensures
            ended == self@.ended,
    {
        self.ended
    }
}

impl Default for FlowTable {
    /// An empty table at the origin, without a label.
    fn default() -> (table: Self)
        ensures
            table@ == FlowTable::fresh(0, 0, 0, 0, None),
            table@.valid(),
    {
        FlowTable::labelled(0, 0, 0, 0, None)
    }
}

} // verus!
