//! Views: lists, columned lists, texts and bitmaps, each a definition (what a
//! view method registers) bound to an object.
use vstd::prelude::*;

use std::sync::Arc;

use crate::capability::PhlowViewMethod;
use crate::computation::{
    BitmapComputation, BitmapOperation, Computation, ItemComputation, ItemOperation,
    ItemsComputation, ItemsOperation, SendComputation, TextComputation, TextOperation,
};
use crate::object::PhlowObject;

verus! {

/// The text shown where a computation does not apply to the object it is given.
pub open spec fn coercion_error_text() -> Seq<char> {
    "Error coercing item type"@
}

fn coercion_error() -> (r: String)
    ensures
        r@ == coercion_error_text(),
{
    "Error coercing item type".to_owned()
}

/// `text` is what `c` yields on `o`, or the coercion placeholder when it yields nothing.
pub open spec fn text_or_placeholder(c: TextComputation, o: PhlowObject, text: Seq<char>) -> bool {
    ||| exists|s: String| c.spec_produces(o, Some(s)) && s@ == text
    ||| c.spec_produces(o, None) && text == coercion_error_text()
}

/// `items` is what `c` yields on `o`, or nothing when it yields nothing.
pub open spec fn items_or_empty(c: ItemsComputation, o: PhlowObject, items: Seq<PhlowObject>) -> bool {
    ||| exists|v: Vec<PhlowObject>| c.spec_produces(o, Some(v)) && v@ == items
    ||| c.spec_produces(o, None) && items.len() == 0
}

fn compute_text_or_placeholder(c: &TextComputation, o: &PhlowObject) -> (r: String)
    ensures
        text_or_placeholder(*c, *o, r@),
{
    match c.value_block_on(o) {
        Some(s) => s,
        None => coercion_error(),
    }
}

fn compute_items_or_empty(c: &ItemsComputation, o: &PhlowObject) -> (r: Vec<PhlowObject>)
    ensures
        items_or_empty(*c, *o, r@),
{
    match c.value_block_on(o) {
        Some(v) => v,
        None => Vec::new(),
    }
}

/// The layout of a bitmap's pixels.
#[derive(PartialEq, Eq, Structural, Clone, Copy, Debug)]
pub enum PixelFormat {
    RGBA8888,
    BGRA8888,
}

/// Pixels with their dimensions.
pub struct PhlowBitmap {
    pub pixels: Vec<u8>,
    pub width: i32,
    pub height: i32,
    pub stride: i32,
    pub format: PixelFormat,
}

impl PhlowBitmap {
    pub open spec fn spec_is_empty(self) -> bool {
        &&& self.pixels@.len() == 0
        &&& self.width == 0
        &&& self.height == 0
        &&& self.stride == 0
        &&& self.format == PixelFormat::RGBA8888
    }

    /// A bitmap without pixels.
    pub fn empty() -> (r: Self)
        ensures
            r.spec_is_empty(),
    {
        PhlowBitmap {
            pixels: Vec::new(),
            width: 0,
            height: 0,
            stride: 0,
            format: PixelFormat::RGBA8888,
        }
    }

    pub fn new(pixels: Vec<u8>, width: i32, height: i32, stride: i32, format: PixelFormat) -> (r:
        Self)
        ensures
            r == (PhlowBitmap { pixels, width, height, stride, format }),
    {
        PhlowBitmap { pixels, width, height, stride, format }
    }

    /// RGBA pixels whose rows are `width` long.
    pub fn rgba8(pixels: Vec<u8>, width: i32, height: i32) -> (r: Self)
        ensures
            r == (PhlowBitmap { pixels, width, height, stride: width, format: PixelFormat::RGBA8888 }),
    {
        Self::new(pixels, width, height, width, PixelFormat::RGBA8888)
    }

    /// BGRA pixels whose rows are `width` long.
    pub fn bgra8(pixels: Vec<u8>, width: i32, height: i32) -> (r: Self)
        ensures
            r == (PhlowBitmap { pixels, width, height, stride: width, format: PixelFormat::BGRA8888 }),
    {
        Self::new(pixels, width, height, width, PixelFormat::BGRA8888)
    }

    pub fn pixels(&self) -> (r: &[u8])
        ensures
            r@ == self.pixels@,
    {
        self.pixels.as_slice()
    }

    pub fn stride(&self) -> (r: i32)
        ensures
            r == self.stride,
    {
        self.stride
    }
}

/// What a list view shows.
pub struct ListDefinition {
    pub title: String,
    pub priority: usize,
    pub items_computation: ItemsComputation,
    pub item_text_computation: TextComputation,
    pub send_computation: SendComputation,
}

impl ListDefinition {
    /// An untitled list of no items, each shown by its own text and sent as itself.
    pub fn new() -> (r: Self)
        ensures
            r.title@.len() == 0,
            r.priority == 10,
            r.items_computation.operation == ItemsOperation::Empty,
            r.items_computation.target is None,
            r.item_text_computation.operation == TextOperation::DisplayString,
            r.item_text_computation.target is None,
            r.send_computation.operation == ItemOperation::Identity,
            r.send_computation.target is None,
    {
        ListDefinition {
            title: String::new(),
            priority: 10,
            items_computation: Computation::new_sync(None, ItemsOperation::Empty),
            item_text_computation: Computation::new_sync(None, TextOperation::DisplayString),
            send_computation: Computation::new_sync(None, ItemOperation::Identity),
        }
    }

    pub fn title(self, title: String) -> (r: Self)
        ensures
            r == (ListDefinition { title, ..self }),
    {
        ListDefinition { title, ..self }
    }

    pub fn priority(self, priority: usize) -> (r: Self)
        ensures
            r == (ListDefinition { priority, ..self }),
    {
        ListDefinition { priority, ..self }
    }

    pub fn items(self, items_computation: ItemsComputation) -> (r: Self)
        ensures
            r == (ListDefinition { items_computation, ..self }),
    {
        ListDefinition { items_computation, ..self }
    }

    pub fn item_text(self, item_text_computation: TextComputation) -> (r: Self)
        ensures
            r == (ListDefinition { item_text_computation, ..self }),
    {
        ListDefinition { item_text_computation, ..self }
    }

    pub fn send(self, send_computation: SendComputation) -> (r: Self)
        ensures
            r == (ListDefinition { send_computation, ..self }),
    {
        ListDefinition { send_computation, ..self }
    }
}

/// One column of a columned list: how a row yields its cell object, and how
/// that cell is shown.
pub struct PhlowColumn {
    pub title: String,
    pub index: usize,
    pub item_computation: ItemComputation,
    pub text_computation: TextComputation,
}

/// `text` is what `column` shows for `row`: the cell's text, or the coercion
/// placeholder when the row yields no cell.
pub open spec fn cell_text(column: PhlowColumn, row: PhlowObject, text: Seq<char>) -> bool {
    ||| exists|cell: PhlowObject|
        column.item_computation.spec_produces(row, Some(cell)) && text_or_placeholder(
            column.text_computation,
            cell,
            text,
        )
    ||| column.item_computation.spec_produces(row, None) && text == coercion_error_text()
}

/// `text` is the text of a cell that `column` computes for `row`.
pub open spec fn computed_cell_text(column: PhlowColumn, row: PhlowObject, text: Seq<char>) -> bool {
    exists|cell: PhlowObject|
        column.item_computation.spec_produces(row, Some(cell)) && text_or_placeholder(
            column.text_computation,
            cell,
            text,
        )
}

impl PhlowColumn {
    /// A column titled "Column" whose cell is the row itself, shown by its text.
    pub fn new() -> (r: Self)
        ensures
            r.title@ == "Column"@,
            r.index == 0,
            r.item_computation.operation == ItemOperation::Identity,
            r.item_computation.target is None,
            r.text_computation.operation == TextOperation::DisplayString,
            r.text_computation.target is None,
    {
        PhlowColumn {
            title: "Column".to_owned(),
            index: 0,
            item_computation: Computation::new_sync(None, ItemOperation::Identity),
            text_computation: Computation::new_sync(None, TextOperation::DisplayString),
        }
    }

    pub fn title(self, title: String) -> (r: Self)
        ensures
            r == (PhlowColumn { title, ..self }),
    {
        PhlowColumn { title, ..self }
    }

    pub fn item(self, item_computation: ItemComputation) -> (r: Self)
        ensures
            r == (PhlowColumn { item_computation, ..self }),
    {
        PhlowColumn { item_computation, ..self }
    }

    pub fn text(self, text_computation: TextComputation) -> (r: Self)
        ensures
            r == (PhlowColumn { text_computation, ..self }),
    {
        PhlowColumn { text_computation, ..self }
    }

    pub fn get_title(&self) -> (r: &str)
        ensures
            r@ == self.title@,
    {
        self.title.as_str()
    }

    /// The cell object of `row`.
    pub fn compute_cell_item(&self, row: &PhlowObject) -> (r: Option<PhlowObject>)
        ensures
            self.item_computation.spec_produces(*row, r),
    {
        self.item_computation.value_block_on(row)
    }

    /// The text of `cell`, or the coercion placeholder.
    pub fn compute_cell_text(&self, cell: &PhlowObject) -> (r: String)
        ensures
            text_or_placeholder(self.text_computation, *cell, r@),
    {
        compute_text_or_placeholder(&self.text_computation, cell)
    }

    /// What the column shows for `row`.
    pub fn compute_row_text(&self, row: &PhlowObject) -> (r: String)
        ensures
            cell_text(*self, *row, r@),
    {
        match self.compute_cell_item(row) {
            Some(cell) => self.compute_cell_text(&cell),
            None => coercion_error(),
        }
    }
}

/// What a columned list view shows.
pub struct ColumnedListDefinition {
    pub title: String,
    pub priority: usize,
    pub columns: Vec<PhlowColumn>,
    pub items_computation: ItemsComputation,
    pub send_computation: SendComputation,
}

impl ColumnedListDefinition {
    /// An untitled list of no items and no columns, whose rows are sent as themselves.
    pub fn new() -> (r: Self)
        ensures
            r.title@.len() == 0,
            r.priority == 10,
            r.columns@.len() == 0,
            r.items_computation.operation == ItemsOperation::Empty,
            r.items_computation.target is None,
            r.send_computation.operation == ItemOperation::Identity,
            r.send_computation.target is None,
    {
        ColumnedListDefinition {
            title: String::new(),
            priority: 10,
            columns: Vec::new(),
            items_computation: Computation::new_sync(None, ItemsOperation::Empty),
            send_computation: Computation::new_sync(None, ItemOperation::Identity),
        }
    }

    pub fn title(self, title: String) -> (r: Self)
        ensures
            r == (ColumnedListDefinition { title, ..self }),
    {
        ColumnedListDefinition { title, ..self }
    }

    pub fn priority(self, priority: usize) -> (r: Self)
        ensures
            r == (ColumnedListDefinition { priority, ..self }),
    {
        ColumnedListDefinition { priority, ..self }
    }

    pub fn items(self, items_computation: ItemsComputation) -> (r: Self)
        ensures
            r == (ColumnedListDefinition { items_computation, ..self }),
    {
        ColumnedListDefinition { items_computation, ..self }
    }

    pub fn send(self, send_computation: SendComputation) -> (r: Self)
        ensures
            r == (ColumnedListDefinition { send_computation, ..self }),
    {
        ColumnedListDefinition { send_computation, ..self }
    }

    /// Appends a column, numbering it by its position.
    pub fn column(self, column: PhlowColumn) -> (r: Self)
        requires
            self.columns@.len() < usize::MAX,
        ensures
            r.columns@ == self.columns@.push(
                (PhlowColumn { index: self.columns@.len() as usize, ..column }),
            ),
            r.title == self.title,
            r.priority == self.priority,
            r.items_computation == self.items_computation,
            r.send_computation == self.send_computation,
    {
        let mut d = self;
        let index = d.columns.len();
        d.columns.push(PhlowColumn { index, ..column });
        d
    }

    /// Appends a column with the given title and cell computation.
    pub fn column_item(self, title: String, item_computation: ItemComputation) -> (r: Self)
        requires
            self.columns@.len() < usize::MAX,
        ensures
            r.columns@.len() == self.columns@.len() + 1,
            r.columns@.last().title == title,
            r.columns@.last().index == self.columns@.len(),
            r.columns@.last().item_computation == item_computation,
            r.columns@.last().text_computation.operation == TextOperation::DisplayString,
            r.columns@.last().text_computation.target is None,
            r.columns@.drop_last() == self.columns@,
            r.title == self.title,
            r.priority == self.priority,
            r.items_computation == self.items_computation,
            r.send_computation == self.send_computation,
    {
        let column = PhlowColumn::new().title(title).item(item_computation);
        let r = self.column(column);
        assert(r.columns@.drop_last() == self.columns@);
        r
    }
}

/// What a text view shows.
pub struct TextDefinition {
    pub title: String,
    pub priority: usize,
    pub text_computation: TextComputation,
}

impl TextDefinition {
    /// An untitled view of the object's own text.
    pub fn new() -> (r: Self)
        ensures
            r.title@.len() == 0,
            r.priority == 10,
            r.text_computation.operation == TextOperation::DisplayString,
            r.text_computation.target is None,
    {
        TextDefinition {
            title: String::new(),
            priority: 10,
            text_computation: Computation::new_sync(None, TextOperation::DisplayString),
        }
    }

    pub fn title(self, title: String) -> (r: Self)
        ensures
            r == (TextDefinition { title, ..self }),
    {
        TextDefinition { title, ..self }
    }

    pub fn priority(self, priority: usize) -> (r: Self)
        ensures
            r == (TextDefinition { priority, ..self }),
    {
        TextDefinition { priority, ..self }
    }

    pub fn text(self, text_computation: TextComputation) -> (r: Self)
        ensures
            r == (TextDefinition { text_computation, ..self }),
    {
        TextDefinition { text_computation, ..self }
    }
}

/// What a bitmap view shows.
pub struct BitmapDefinition {
    pub title: String,
    pub priority: usize,
    pub bitmap_computation: BitmapComputation,
}

impl BitmapDefinition {
    /// An untitled view of an empty bitmap.
    pub fn new() -> (r: Self)
        ensures
            r.title@.len() == 0,
            r.priority == 10,
            r.bitmap_computation.operation == BitmapOperation::Empty,
            r.bitmap_computation.target is None,
    {
        BitmapDefinition {
            title: String::new(),
            priority: 10,
            bitmap_computation: Computation::new_sync(None, BitmapOperation::Empty),
        }
    }

    pub fn title(self, title: String) -> (r: Self)
        ensures
            r == (BitmapDefinition { title, ..self }),
    {
        BitmapDefinition { title, ..self }
    }

    pub fn priority(self, priority: usize) -> (r: Self)
        ensures
            r == (BitmapDefinition { priority, ..self }),
    {
        BitmapDefinition { priority, ..self }
    }

    pub fn bitmap(self, bitmap_computation: BitmapComputation) -> (r: Self)
        ensures
            r == (BitmapDefinition { bitmap_computation, ..self }),
    {
        BitmapDefinition { bitmap_computation, ..self }
    }
}

/// What a view method builds, before it is bound to an object.
pub enum PhlowViewDefinition {
    List(Arc<ListDefinition>),
    ColumnedList(Arc<ColumnedListDefinition>),
    Text(Arc<TextDefinition>),
    Bitmap(Arc<BitmapDefinition>),
}

impl PhlowViewDefinition {
    /// The view of `object` that this definition describes, made by `method`.
    pub open spec fn spec_instantiate(self, object: PhlowObject, method: Arc<PhlowViewMethod>) -> PhlowView {
        match self {
            PhlowViewDefinition::List(d) => PhlowView::List(
                PhlowListView { object, defining_method: method, definition: d },
            ),
            PhlowViewDefinition::ColumnedList(d) => PhlowView::ColumnedList(
                PhlowColumnedListView { object, defining_method: method, definition: d },
            ),
            PhlowViewDefinition::Text(d) => PhlowView::Text(
                PhlowTextView { object, defining_method: method, definition: d },
            ),
            PhlowViewDefinition::Bitmap(d) => PhlowView::Bitmap(
                PhlowBitmapView { object, defining_method: method, definition: d },
            ),
        }
    }

    pub fn instantiate(&self, object: &PhlowObject, method: &Arc<PhlowViewMethod>) -> (r: PhlowView)
        ensures
            r == self.spec_instantiate(*object, *method),
    {
        match self {
            PhlowViewDefinition::List(d) => PhlowView::List(
                PhlowListView {
                    object: object.clone(),
                    defining_method: method.clone(),
                    definition: d.clone(),
                },
            ),
            PhlowViewDefinition::ColumnedList(d) => PhlowView::ColumnedList(
                PhlowColumnedListView {
                    object: object.clone(),
                    defining_method: method.clone(),
                    definition: d.clone(),
                },
            ),
            PhlowViewDefinition::Text(d) => PhlowView::Text(
                PhlowTextView {
                    object: object.clone(),
                    defining_method: method.clone(),
                    definition: d.clone(),
                },
            ),
            PhlowViewDefinition::Bitmap(d) => PhlowView::Bitmap(
                PhlowBitmapView {
                    object: object.clone(),
                    defining_method: method.clone(),
                    definition: d.clone(),
                },
            ),
        }
    }
}

/// Why a request about one item of a view has no answer.
#[derive(PartialEq, Eq, Structural, Clone, Copy, Debug)]
pub enum PhlowViewError {
    /// There is no item at this index.
    ItemDoesNotExist(usize),
    /// There is no column at this index.
    ColumnDoesNotExist(usize),
    /// The row at this index yields no cell in the column.
    CellNotComputed(usize, usize),
    /// The item at this index yields nothing to send.
    NothingToSend(usize),
}

/// A list bound to an object.
pub struct PhlowListView {
    pub object: PhlowObject,
    pub defining_method: Arc<PhlowViewMethod>,
    pub definition: Arc<ListDefinition>,
}

impl PhlowListView {
    /// An untitled list of no items over `object`.
    pub fn new(object: PhlowObject, defining_method: Arc<PhlowViewMethod>) -> (r: Self)
        ensures
            r.object == object,
            r.defining_method == defining_method,
            r.definition.title@.len() == 0,
            r.definition.priority == 10,
            r.definition.items_computation.operation == ItemsOperation::Empty,
            r.definition.items_computation.target is None,
            r.definition.item_text_computation.operation == TextOperation::DisplayString,
            r.definition.item_text_computation.target is None,
            r.definition.send_computation.operation == ItemOperation::Identity,
            r.definition.send_computation.target is None,
    {
        PhlowListView { object, defining_method, definition: Arc::new(ListDefinition::new()) }
    }

    /// The items of the view: what its items computation yields on the view's
    /// object, or none.
    pub fn compute_items_sync(&self) -> (r: Vec<PhlowObject>)
        ensures
            items_or_empty(self.definition.items_computation, self.object, r@),
    {
        compute_items_or_empty(&self.definition.items_computation, &self.object)
    }

    pub fn compute_item_text_sync(&self, item: &PhlowObject) -> (r: String)
        ensures
            text_or_placeholder(self.definition.item_text_computation, *item, r@),
    {
        compute_text_or_placeholder(&self.definition.item_text_computation, item)
    }

    pub fn compute_item_to_send_sync(&self, item: &PhlowObject) -> (r: Option<PhlowObject>)
        ensures
            self.definition.send_computation.spec_produces(*item, r),
    {
        self.definition.send_computation.value_block_on(item)
    }

    /// The text of the item at `index` of `items`.
    pub fn compute_item_text_at(&self, items: &Vec<PhlowObject>, index: usize) -> (r: Result<
        String,
        PhlowViewError,
    >)
        ensures
            index >= items@.len() ==> r == Err::<String, PhlowViewError>(
                PhlowViewError::ItemDoesNotExist(index),
            ),
            index < items@.len() ==> (r matches Ok(s) && text_or_placeholder(
                self.definition.item_text_computation,
                items@[index as int],
                s@,
            )),
    {
        if index >= items.len() {
            return Err(PhlowViewError::ItemDoesNotExist(index));
        }
        Ok(self.compute_item_text_sync(&items[index]))
    }

    /// What to send for the item at `index` of `items`.
    pub fn compute_item_send_at(&self, items: &Vec<PhlowObject>, index: usize) -> (r: Result<
        PhlowObject,
        PhlowViewError,
    >)
        ensures
            index >= items@.len() ==> r == Err::<PhlowObject, PhlowViewError>(
                PhlowViewError::ItemDoesNotExist(index),
            ),
            index < items@.len() ==> match r {
                Ok(o) => self.definition.send_computation.spec_produces(
                    items@[index as int],
                    Some(o),
                ),
                Err(e) => e == PhlowViewError::NothingToSend(index)
                    && self.definition.send_computation.spec_produces(items@[index as int], None),
            },
    {
        if index >= items.len() {
            return Err(PhlowViewError::ItemDoesNotExist(index));
        }
        match self.compute_item_to_send_sync(&items[index]) {
            Some(o) => Ok(o),
            None => Err(PhlowViewError::NothingToSend(index)),
        }
    }
}

/// A columned list bound to an object.
pub struct PhlowColumnedListView {
    pub object: PhlowObject,
    pub defining_method: Arc<PhlowViewMethod>,
    pub definition: Arc<ColumnedListDefinition>,
}

impl PhlowColumnedListView {
    /// An untitled list of no rows and no columns over `object`.
    pub fn new(object: PhlowObject, defining_method: Arc<PhlowViewMethod>) -> (r: Self)
        ensures
            r.object == object,
            r.defining_method == defining_method,
            r.definition.title@.len() == 0,
            r.definition.priority == 10,
            r.definition.columns@.len() == 0,
            r.definition.items_computation.operation == ItemsOperation::Empty,
            r.definition.items_computation.target is None,
            r.definition.send_computation.operation == ItemOperation::Identity,
            r.definition.send_computation.target is None,
    {
        PhlowColumnedListView {
            object,
            defining_method,
            definition: Arc::new(ColumnedListDefinition::new()),
        }
    }

    /// The rows of the view: what its items computation yields on the view's
    /// object, or none.
    pub fn compute_items(&self) -> (r: Vec<PhlowObject>)
        ensures
            items_or_empty(self.definition.items_computation, self.object, r@),
    {
        compute_items_or_empty(&self.definition.items_computation, &self.object)
    }

    pub fn compute_item_send(&self, item: &PhlowObject) -> (r: Option<PhlowObject>)
        ensures
            self.definition.send_computation.spec_produces(*item, r),
    {
        self.definition.send_computation.value_block_on(item)
    }

    pub fn get_columns(&self) -> (r: &[PhlowColumn])
        ensures
            r@ == self.definition.columns@,
    {
        self.definition.columns.as_slice()
    }

    /// The texts of one row, one per column, in column order.
    pub fn compute_row_texts(&self, row: &PhlowObject) -> (r: Vec<String>)
        ensures
            r@.len() == self.definition.columns@.len(),
            forall|j: int|
                0 <= j < r@.len() ==> cell_text(self.definition.columns@[j], *row, #[trigger] r@[j]@),
    {
        let columns = &self.definition.columns;
        let mut r: Vec<String> = Vec::new();
        let mut j: usize = 0;
        while j < columns.len()
            invariant
                j <= columns@.len(),
                *columns == self.definition.columns,
                r@.len() == j,
                forall|k: int| 0 <= k < j ==> cell_text(columns@[k], *row, #[trigger] r@[k]@),
            decreases columns@.len() - j,
        {
            r.push(columns[j].compute_row_text(row));
            j = j + 1;
        }
        r
    }

    /// The text of the cell at (`row_index`, `column_index`) of `items`.
    pub fn compute_item_text_at(
        &self,
        items: &Vec<PhlowObject>,
        row_index: usize,
        column_index: usize,
    ) -> (r: Result<String, PhlowViewError>)
        ensures
            row_index >= items@.len() ==> r == Err::<String, PhlowViewError>(
                PhlowViewError::ItemDoesNotExist(row_index),
            ),
            row_index < items@.len() && column_index >= self.definition.columns@.len() ==> r == Err::<
                String,
                PhlowViewError,
            >(PhlowViewError::ColumnDoesNotExist(column_index)),
            row_index < items@.len() && column_index < self.definition.columns@.len() ==> match r {
                Ok(s) => computed_cell_text(
                    self.definition.columns@[column_index as int],
                    items@[row_index as int],
                    s@,
                ),
                Err(e) => e == PhlowViewError::CellNotComputed(row_index, column_index)
                    && self.definition.columns@[column_index as int].item_computation.spec_produces(
                    items@[row_index as int],
                    None,
                ),
            },
    {
        if row_index >= items.len() {
            return Err(PhlowViewError::ItemDoesNotExist(row_index));
        }
        if column_index >= self.definition.columns.len() {
            return Err(PhlowViewError::ColumnDoesNotExist(column_index));
        }
        let column = &self.definition.columns[column_index];
        match column.compute_cell_item(&items[row_index]) {
            Some(cell) => {
                let text = column.compute_cell_text(&cell);
                assert(computed_cell_text(*column, items@[row_index as int], text@));
                Ok(text)
            },
            None => Err(PhlowViewError::CellNotComputed(row_index, column_index)),
        }
    }

    /// What to send for the row at `index` of `items`.
    pub fn compute_item_send_at(&self, items: &Vec<PhlowObject>, index: usize) -> (r: Result<
        PhlowObject,
        PhlowViewError,
    >)
        ensures
            index >= items@.len() ==> r == Err::<PhlowObject, PhlowViewError>(
                PhlowViewError::ItemDoesNotExist(index),
            ),
            index < items@.len() ==> match r {
                Ok(o) => self.definition.send_computation.spec_produces(
                    items@[index as int],
                    Some(o),
                ),
                Err(e) => e == PhlowViewError::NothingToSend(index)
                    && self.definition.send_computation.spec_produces(items@[index as int], None),
            },
    {
        if index >= items.len() {
            return Err(PhlowViewError::ItemDoesNotExist(index));
        }
        match self.compute_item_send(&items[index]) {
            Some(o) => Ok(o),
            None => Err(PhlowViewError::NothingToSend(index)),
        }
    }
}

/// A text bound to an object.
pub struct PhlowTextView {
    pub object: PhlowObject,
    pub defining_method: Arc<PhlowViewMethod>,
    pub definition: Arc<TextDefinition>,
}

impl PhlowTextView {
    /// An untitled view of `object`'s own text.
    pub fn new(object: PhlowObject, defining_method: Arc<PhlowViewMethod>) -> (r: Self)
        ensures
            r.object == object,
            r.defining_method == defining_method,
            r.definition.title@.len() == 0,
            r.definition.priority == 10,
            r.definition.text_computation.operation == TextOperation::DisplayString,
            r.definition.text_computation.target is None,
    {
        PhlowTextView { object, defining_method, definition: Arc::new(TextDefinition::new()) }
    }

    pub fn compute_text(&self) -> (r: String)
        ensures
            text_or_placeholder(self.definition.text_computation, self.object, r@),
    {
        compute_text_or_placeholder(&self.definition.text_computation, &self.object)
    }
}

/// A bitmap bound to an object.
pub struct PhlowBitmapView {
    pub object: PhlowObject,
    pub defining_method: Arc<PhlowViewMethod>,
    pub definition: Arc<BitmapDefinition>,
}

impl PhlowBitmapView {
    /// An untitled view of an empty bitmap over `object`.
    pub fn new(object: PhlowObject, defining_method: Arc<PhlowViewMethod>) -> (r: Self)
        ensures
            r.object == object,
            r.defining_method == defining_method,
            r.definition.title@.len() == 0,
            r.definition.priority == 10,
            r.definition.bitmap_computation.operation == BitmapOperation::Empty,
            r.definition.bitmap_computation.target is None,
    {
        PhlowBitmapView { object, defining_method, definition: Arc::new(BitmapDefinition::new()) }
    }

    /// The bitmap of the view, or an empty one when its computation does not apply.
    pub fn compute_bitmap(&self) -> (r: Arc<PhlowBitmap>)
        ensures
            self.definition.bitmap_computation.spec_produces(self.object, Some(r)) || (
            self.definition.bitmap_computation.spec_produces(self.object, None)
                && r.spec_is_empty()),
    {
        match self.definition.bitmap_computation.value_block_on(&self.object) {
            Some(b) => b,
            None => Arc::new(PhlowBitmap::empty()),
        }
    }
}

/// A view of any kind.
pub enum PhlowView {
    List(PhlowListView),
    ColumnedList(PhlowColumnedListView),
    Text(PhlowTextView),
    Bitmap(PhlowBitmapView),
}

impl PhlowView {
    pub open spec fn spec_object(self) -> PhlowObject {
        match self {
            PhlowView::List(v) => v.object,
            PhlowView::ColumnedList(v) => v.object,
            PhlowView::Text(v) => v.object,
            PhlowView::Bitmap(v) => v.object,
        }
    }

    pub open spec fn spec_defining_method(self) -> Arc<PhlowViewMethod> {
        match self {
            PhlowView::List(v) => v.defining_method,
            PhlowView::ColumnedList(v) => v.defining_method,
            PhlowView::Text(v) => v.defining_method,
            PhlowView::Bitmap(v) => v.defining_method,
        }
    }

    pub open spec fn spec_title(self) -> Seq<char> {
        match self {
            PhlowView::List(v) => v.definition.title@,
            PhlowView::ColumnedList(v) => v.definition.title@,
            PhlowView::Text(v) => v.definition.title@,
            PhlowView::Bitmap(v) => v.definition.title@,
        }
    }

    pub open spec fn spec_priority(self) -> usize {
        match self {
            PhlowView::List(v) => v.definition.priority,
            PhlowView::ColumnedList(v) => v.definition.priority,
            PhlowView::Text(v) => v.definition.priority,
            PhlowView::Bitmap(v) => v.definition.priority,
        }
    }

    pub open spec fn spec_view_type(self) -> Seq<char> {
        match self {
            PhlowView::List(_) => "list_view"@,
            PhlowView::ColumnedList(_) => "columned_list_view"@,
            PhlowView::Text(_) => "text_view"@,
            PhlowView::Bitmap(_) => "bitmap_view"@,
        }
    }

    pub fn get_title(&self) -> (r: &str)
        ensures
            r@ == self.spec_title(),
    {
        match self {
            PhlowView::List(v) => v.definition.title.as_str(),
            PhlowView::ColumnedList(v) => v.definition.title.as_str(),
            PhlowView::Text(v) => v.definition.title.as_str(),
            PhlowView::Bitmap(v) => v.definition.title.as_str(),
        }
    }

    pub fn get_priority(&self) -> (r: usize)
        ensures
            r == self.spec_priority(),
    {
        match self {
            PhlowView::List(v) => v.definition.priority,
            PhlowView::ColumnedList(v) => v.definition.priority,
            PhlowView::Text(v) => v.definition.priority,
            PhlowView::Bitmap(v) => v.definition.priority,
        }
    }

    pub fn get_view_type(&self) -> (r: &str)
        ensures
            r@ == self.spec_view_type(),
    {
        match self {
            PhlowView::List(_) => "list_view",
            PhlowView::ColumnedList(_) => "columned_list_view",
            PhlowView::Text(_) => "text_view",
            PhlowView::Bitmap(_) => "bitmap_view",
        }
    }

    pub fn get_defining_method(&self) -> (r: &Arc<PhlowViewMethod>)
        ensures
            *r == self.spec_defining_method(),
    {
        match self {
            PhlowView::List(v) => &v.defining_method,
            PhlowView::ColumnedList(v) => &v.defining_method,
            PhlowView::Text(v) => &v.defining_method,
            PhlowView::Bitmap(v) => &v.defining_method,
        }
    }

    pub fn object(&self) -> (r: &PhlowObject)
        ensures
            *r == self.spec_object(),
    {
        match self {
            PhlowView::List(v) => &v.object,
            PhlowView::ColumnedList(v) => &v.object,
            PhlowView::Text(v) => &v.object,
            PhlowView::Bitmap(v) => &v.object,
        }
    }
}

} // verus!
