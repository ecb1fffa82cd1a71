//! View specifications: transportable snapshots of views, with the follow-up
//! requests for a view's items and for the object to open from an item.
use vstd::prelude::*;

use std::sync::Arc;

use crate::object::PhlowObject;
use crate::views::{
    cell_text, items_or_empty, text_or_placeholder, PhlowBitmap, PhlowBitmapView,
    PhlowColumnedListView, PhlowListView, PhlowTextView, PhlowView,
};

verus! {

/// Whether a specification carries its data or the client fetches it later.
#[derive(PartialEq, Eq, Structural, Clone, Copy, Debug)]
pub enum PhlowViewSpecificationDataTransport {
    Included,
    Lazy,
}

/// How a column's cells are shown.
#[derive(PartialEq, Eq, Structural, Clone, Copy, Debug)]
pub enum PhlowViewSpecificationListingType {
    Text,
}

/// What the client learns of one column.
pub struct PhlowColumnSpecification {
    pub title: String,
    pub spawns_objects: bool,
    pub listing_type: PhlowViewSpecificationListingType,
}

pub struct PhlowListViewSpecification {
    pub title: String,
    pub priority: usize,
    pub data_transport: PhlowViewSpecificationDataTransport,
    pub method_selector: String,
    pub phlow_view: PhlowListView,
}

pub struct PhlowColumnedListViewSpecification {
    pub title: String,
    pub priority: usize,
    pub data_transport: PhlowViewSpecificationDataTransport,
    pub method_selector: String,
    pub column_specifications: Vec<PhlowColumnSpecification>,
    pub phlow_view: PhlowColumnedListView,
}

pub struct PhlowTextViewSpecification {
    pub title: String,
    pub priority: usize,
    pub data_transport: PhlowViewSpecificationDataTransport,
    pub string: String,
    pub method_selector: String,
}

pub struct PhlowBitmapViewSpecification {
    pub title: String,
    pub priority: usize,
    pub data_transport: PhlowViewSpecificationDataTransport,
    pub bitmap: Arc<PhlowBitmap>,
    pub method_selector: String,
}

/// A transportable snapshot of a view.
pub enum PhlowViewSpecification {
    List(PhlowListViewSpecification),
    ColumnedList(PhlowColumnedListViewSpecification),
    Text(PhlowTextViewSpecification),
    Bitmap(PhlowBitmapViewSpecification),
}

/// An item with its text.
pub struct PhlowViewSpecificationTextualItemValue {
    pub phlow_object: PhlowObject,
    pub item_text: String,
}

/// A row with the texts of its cells, in column order.
pub struct PhlowViewSpecificationRowValue {
    pub phlow_object: PhlowObject,
    pub column_values: Vec<PhlowViewSpecificationTextualItemValue>,
}

/// One item of a listing.
pub enum PhlowViewSpecificationListingItem {
    Textual(PhlowViewSpecificationTextualItemValue),
    Row(PhlowViewSpecificationRowValue),
}

impl PhlowViewSpecificationListingItem {
    pub open spec fn spec_object(self) -> PhlowObject {
        match self {
            PhlowViewSpecificationListingItem::Textual(v) => v.phlow_object,
            PhlowViewSpecificationListingItem::Row(v) => v.phlow_object,
        }
    }

    pub fn phlow_object(&self) -> (r: &PhlowObject)
        ensures
            *r == self.spec_object(),
    {
        match self {
            PhlowViewSpecificationListingItem::Textual(v) => &v.phlow_object,
            PhlowViewSpecificationListingItem::Row(v) => &v.phlow_object,
        }
    }
}

/// The objects of a listing, in order.
pub open spec fn listed_objects(items: Seq<PhlowViewSpecificationListingItem>) -> Seq<PhlowObject> {
    items.map_values(|i: PhlowViewSpecificationListingItem| i.spec_object())
}

/// `item` shows `row` with one text per column of `view`.
pub open spec fn is_row_of(item: PhlowViewSpecificationListingItem, view: PhlowColumnedListView, row: PhlowObject) -> bool {
    match item {
        PhlowViewSpecificationListingItem::Row(v) => {
            &&& v.phlow_object == row
            &&& v.column_values@.len() == view.definition.columns@.len()
            &&& forall|j: int|
                0 <= j < v.column_values@.len() ==> {
                    &&& (#[trigger] v.column_values@[j]).phlow_object == row
                    &&& cell_text(view.definition.columns@[j], row, v.column_values@[j].item_text@)
                }
        },
        _ => false,
    }
}

/// `item` shows `object` with the text `view` gives it.
pub open spec fn is_textual_of(item: PhlowViewSpecificationListingItem, view: PhlowListView, object: PhlowObject) -> bool {
    match item {
        PhlowViewSpecificationListingItem::Textual(v) => v.phlow_object == object && text_or_placeholder(
            view.definition.item_text_computation,
            object,
            v.item_text@,
        ),
        _ => false,
    }
}

impl PhlowViewSpecification {
    pub open spec fn spec_method_selector(self) -> Seq<char> {
        match self {
            PhlowViewSpecification::List(s) => s.method_selector@,
            PhlowViewSpecification::ColumnedList(s) => s.method_selector@,
            PhlowViewSpecification::Text(s) => s.method_selector@,
            PhlowViewSpecification::Bitmap(s) => s.method_selector@,
        }
    }

    /// This is a specification of `view`: same title, priority and method,
    /// lists fetched later, texts and bitmaps carried along.
    pub open spec fn spec_of(self, view: PhlowView) -> bool {
        &&& self.spec_method_selector() == view.spec_defining_method().full_method_name@
        &&& match (self, view) {
            (PhlowViewSpecification::List(s), PhlowView::List(v)) => {
                &&& s.title@ == v.definition.title@
                &&& s.priority == v.definition.priority
                &&& s.data_transport == PhlowViewSpecificationDataTransport::Lazy
                &&& s.phlow_view == v
            },
            (PhlowViewSpecification::ColumnedList(s), PhlowView::ColumnedList(v)) => {
                &&& s.title@ == v.definition.title@
                &&& s.priority == v.definition.priority
                &&& s.data_transport == PhlowViewSpecificationDataTransport::Lazy
                &&& s.phlow_view == v
                &&& s.column_specifications@.len() == v.definition.columns@.len()
                &&& forall|j: int|
                    0 <= j < s.column_specifications@.len() ==> {
                        &&& (#[trigger] s.column_specifications@[j]).title@
                            == v.definition.columns@[j].title@
                        &&& !s.column_specifications@[j].spawns_objects
                        &&& s.column_specifications@[j].listing_type
                            == PhlowViewSpecificationListingType::Text
                    }
            },
            (PhlowViewSpecification::Text(s), PhlowView::Text(v)) => {
                &&& s.title@ == v.definition.title@
                &&& s.priority == v.definition.priority
                &&& s.data_transport == PhlowViewSpecificationDataTransport::Included
                &&& text_or_placeholder(v.definition.text_computation, v.object, s.string@)
            },
            (PhlowViewSpecification::Bitmap(s), PhlowView::Bitmap(v)) => {
                &&& s.title@ == v.definition.title@
                &&& s.priority == v.definition.priority
                &&& s.data_transport == PhlowViewSpecificationDataTransport::Included
                &&& (v.definition.bitmap_computation.spec_produces(v.object, Some(s.bitmap)) || (
                v.definition.bitmap_computation.spec_produces(v.object, None)
                    && s.bitmap.spec_is_empty()))
            },
            _ => false,
        }
    }

    pub fn method_selector(&self) -> (r: &str)
        ensures
            r@ == self.spec_method_selector(),
    {
        match self {
            PhlowViewSpecification::List(s) => s.method_selector.as_str(),
            PhlowViewSpecification::ColumnedList(s) => s.method_selector.as_str(),
            PhlowViewSpecification::Text(s) => s.method_selector.as_str(),
            PhlowViewSpecification::Bitmap(s) => s.method_selector.as_str(),
        }
    }

    /// `items` is a listing of the specified view: for a list, its items each
    /// with its text; for a columned list, its rows each with its cell texts;
    /// nothing for a text or bitmap.
    pub open spec fn spec_lists(self, items: Seq<PhlowViewSpecificationListingItem>) -> bool {
        match self {
            PhlowViewSpecification::List(s) => {
                &&& items_or_empty(
                    s.phlow_view.definition.items_computation,
                    s.phlow_view.object,
                    listed_objects(items),
                )
                &&& forall|i: int|
                    0 <= i < items.len() ==> is_textual_of(
                        #[trigger] items[i],
                        s.phlow_view,
                        items[i].spec_object(),
                    )
            },
            PhlowViewSpecification::ColumnedList(s) => {
                &&& items_or_empty(
                    s.phlow_view.definition.items_computation,
                    s.phlow_view.object,
                    listed_objects(items),
                )
                &&& forall|i: int|
                    0 <= i < items.len() ==> is_row_of(
                        #[trigger] items[i],
                        s.phlow_view,
                        items[i].spec_object(),
                    )
            },
            _ => items.len() == 0,
        }
    }

    /// `out` is what the specified view sends for `item`: what the send
    /// computation gives for a list or columned list, the item itself otherwise.
    pub open spec fn spec_sends(self, item: PhlowObject, out: Option<PhlowObject>) -> bool {
        match self {
            PhlowViewSpecification::List(s) => s.phlow_view.definition.send_computation.spec_produces(
                item,
                out,
            ),
            PhlowViewSpecification::ColumnedList(s) => s.phlow_view.definition.send_computation.spec_produces(
                item,
                out,
            ),
            _ => out == Some(item),
        }
    }

    /// The items of the specified view, computed anew.
    pub fn retrieve_items(&self) -> (r: Vec<PhlowViewSpecificationListingItem>)
        ensures
            self.spec_lists(r@),
    {
        match self {
            PhlowViewSpecification::List(s) => {
                let items = s.phlow_view.compute_items_sync();
                let mut r: Vec<PhlowViewSpecificationListingItem> = Vec::new();
                let mut i: usize = 0;
                while i < items.len()
                    invariant
                        i <= items@.len(),
                        r@.len() == i,
                        forall|j: int| 0 <= j < i ==> (#[trigger] r@[j]).spec_object() == items@[j],
                        forall|j: int|
                            0 <= j < i ==> is_textual_of(#[trigger] r@[j], s.phlow_view, items@[j]),
                    decreases items@.len() - i,
                {
                    let text = s.phlow_view.compute_item_text_sync(&items[i]);
                    r.push(
                        PhlowViewSpecificationListingItem::Textual(
                            PhlowViewSpecificationTextualItemValue {
                                phlow_object: items[i].clone(),
                                item_text: text,
                            },
                        ),
                    );
                    i = i + 1;
                }
                assert(listed_objects(r@) =~= items@);
                r
            },
            PhlowViewSpecification::ColumnedList(s) => {
                let items = s.phlow_view.compute_items();
                let mut r: Vec<PhlowViewSpecificationListingItem> = Vec::new();
                let mut i: usize = 0;
                while i < items.len()
                    invariant
                        i <= items@.len(),
                        r@.len() == i,
                        forall|j: int| 0 <= j < i ==> (#[trigger] r@[j]).spec_object() == items@[j],
                        forall|j: int|
                            0 <= j < i ==> is_row_of(#[trigger] r@[j], s.phlow_view, items@[j]),
                    decreases items@.len() - i,
                {
                    let row = row_value(&s.phlow_view, &items[i]);
                    r.push(PhlowViewSpecificationListingItem::Row(row));
                    i = i + 1;
                }
                assert(listed_objects(r@) =~= items@);
                r
            },
            _ => Vec::new(),
        }
    }

    /// The object to open for `item`.
    pub fn retrieve_sent_item(&self, item: &PhlowObject) -> (r: Option<PhlowObject>)
        ensures
            self.spec_sends(*item, r),
    {
        match self {
            PhlowViewSpecification::List(s) => s.phlow_view.compute_item_to_send_sync(item),
            PhlowViewSpecification::ColumnedList(s) => s.phlow_view.compute_item_send(item),
            _ => Some(item.clone()),
        }
    }
}

fn row_value(view: &PhlowColumnedListView, row: &PhlowObject) -> (r: PhlowViewSpecificationRowValue)
    ensures
        is_row_of(PhlowViewSpecificationListingItem::Row(r), *view, *row),
{
    let texts = view.compute_row_texts(row);
    let mut values: Vec<PhlowViewSpecificationTextualItemValue> = Vec::new();
    let mut j: usize = 0;
    while j < texts.len()
        invariant
            j <= texts@.len(),
            texts@.len() == view.definition.columns@.len(),
            forall|k: int|
                0 <= k < texts@.len() ==> cell_text(view.definition.columns@[k], *row, #[trigger] texts@[k]@),
            values@.len() == j,
            forall|k: int|
                0 <= k < j ==> {
                    &&& (#[trigger] values@[k]).phlow_object == *row
                    &&& values@[k].item_text == texts@[k]
                },
        decreases texts@.len() - j,
    {
        values.push(
            PhlowViewSpecificationTextualItemValue {
                phlow_object: row.clone(),
                item_text: texts[j].clone(),
            },
        );
        j = j + 1;
    }
    let r = PhlowViewSpecificationRowValue { phlow_object: row.clone(), column_values: values };
    assert forall|k: int| 0 <= k < r.column_values@.len() implies cell_text(
        view.definition.columns@[k],
        *row,
        r.column_values@[k].item_text@,
    ) by {
        assert(values@[k].item_text == texts@[k]);
    }
    r
}

impl PhlowView {
    /// The specification of this view: lists and columned lists leave their
    /// items to be fetched later; texts and bitmaps carry their content.
    pub fn as_view_specification(&self) -> (r: PhlowViewSpecification)
        ensures
            r.spec_of(*self),
    {
        match self {
            PhlowView::List(v) => PhlowViewSpecification::List(
                PhlowListViewSpecification {
                    title: v.definition.title.clone(),
                    priority: v.definition.priority,
                    data_transport: PhlowViewSpecificationDataTransport::Lazy,
                    method_selector: v.defining_method.full_method_name.clone(),
                    phlow_view: PhlowListView {
                        object: v.object.clone(),
                        defining_method: v.defining_method.clone(),
                        definition: v.definition.clone(),
                    },
                },
            ),
            PhlowView::ColumnedList(v) => {
                let columns = &v.definition.columns;
                let mut specs: Vec<PhlowColumnSpecification> = Vec::new();
                let mut j: usize = 0;
                while j < columns.len()
                    invariant
                        j <= columns@.len(),
                        *columns == v.definition.columns,
                        specs@.len() == j,
                        forall|k: int|
                            0 <= k < j ==> {
                                &&& (#[trigger] specs@[k]).title@ == columns@[k].title@
                                &&& !specs@[k].spawns_objects
                                &&& specs@[k].listing_type == PhlowViewSpecificationListingType::Text
                            },
                    decreases columns@.len() - j,
                {
                    specs.push(
                        PhlowColumnSpecification {
                            title: columns[j].title.clone(),
                            spawns_objects: false,
                            listing_type: PhlowViewSpecificationListingType::Text,
                        },
                    );
                    j = j + 1;
                }
                PhlowViewSpecification::ColumnedList(
                    PhlowColumnedListViewSpecification {
                        title: v.definition.title.clone(),
                        priority: v.definition.priority,
                        data_transport: PhlowViewSpecificationDataTransport::Lazy,
                        method_selector: v.defining_method.full_method_name.clone(),
                        column_specifications: specs,
                        phlow_view: PhlowColumnedListView {
                            object: v.object.clone(),
                            defining_method: v.defining_method.clone(),
                            definition: v.definition.clone(),
                        },
                    },
                )
            },
            PhlowView::Text(v) => PhlowViewSpecification::Text(
                PhlowTextViewSpecification {
                    title: v.definition.title.clone(),
                    priority: v.definition.priority,
                    data_transport: PhlowViewSpecificationDataTransport::Included,
                    string: v.compute_text(),
                    method_selector: v.defining_method.full_method_name.clone(),
                },
            ),
            PhlowView::Bitmap(v) => PhlowViewSpecification::Bitmap(
                PhlowBitmapViewSpecification {
                    title: v.definition.title.clone(),
                    priority: v.definition.priority,
                    data_transport: PhlowViewSpecificationDataTransport::Included,
                    bitmap: v.compute_bitmap(),
                    method_selector: v.defining_method.full_method_name.clone(),
                },
            ),
        }
    }
}

} // verus!
