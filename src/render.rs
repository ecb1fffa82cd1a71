//! Plain-text renderings of views, for inspecting them without a client.
use vstd::prelude::*;

use crate::text::{chars_of, decimal_string, decimal_text, string_of};
use crate::views::{
    cell_text, items_or_empty, text_or_placeholder, PhlowBitmapView, PhlowColumnedListView,
    PhlowListView, PhlowTextView, PixelFormat,
};

verus! {

/// `n` spaces.
pub open spec fn spaces(n: nat) -> Seq<char>
    decreases n,
{
    if n == 0 {
        Seq::empty()
    } else {
        spaces((n - 1) as nat).push(' ')
    }
}

/// `s` followed by spaces up to `width` characters.
pub open spec fn pad_right(s: Seq<char>, width: nat) -> Seq<char> {
    if s.len() >= width {
        s
    } else {
        s + spaces((width - s.len()) as nat)
    }
}

/// `s` preceded by spaces up to `width` characters.
pub open spec fn pad_left(s: Seq<char>, width: nat) -> Seq<char> {
    if s.len() >= width {
        s
    } else {
        spaces((width - s.len()) as nat) + s
    }
}

/// The line under a view's title.
pub open spec fn rule_line() -> Seq<char> {
    "---------------------\n"@
}

/// The width that table cells are padded to.
pub open spec fn cell_width() -> nat {
    10
}

/// One table line: the cells padded to the cell width, separated by ` | `,
/// ending with a newline.
pub open spec fn table_line(cells: Seq<Seq<char>>) -> Seq<char>
    decreases cells.len(),
{
    if cells.len() == 0 {
        seq!['\n']
    } else {
        let rest = table_line(cells.drop_last()).drop_last();
        let separator = if cells.len() > 1 { " | "@ } else { Seq::empty() };
        rest + separator + pad_right(cells.last(), cell_width()) + seq!['\n']
    }
}

/// A whole table: the title, a rule, a line of column titles and a line per row.
pub open spec fn table_text(title: Seq<char>, header: Seq<Seq<char>>, rows: Seq<Seq<Seq<char>>>) -> Seq<
    char,
>
    decreases rows.len(),
{
    if rows.len() == 0 {
        title + seq!['\n'] + rule_line() + table_line(header)
    } else {
        table_text(title, header, rows.drop_last()) + table_line(rows.last())
    }
}

/// One line of a list: the index right-aligned to three places, ` | `, the text.
pub open spec fn list_line(index: int, text: Seq<char>) -> Seq<char> {
    pad_left(decimal_text(index), 3) + " | "@ + text + seq!['\n']
}

/// A whole list: the title, a rule, a header line and a line per item.
pub open spec fn list_text(title: Seq<char>, texts: Seq<Seq<char>>) -> Seq<char>
    decreases texts.len(),
{
    if texts.len() == 0 {
        title + seq!['\n'] + rule_line() + "  i | item\n"@
    } else {
        list_text(title, texts.drop_last()) + list_line(texts.len() - 1, texts.last())
    }
}

fn push_str(out: &mut Vec<char>, s: &str)
    ensures
        final(out)@ == old(out)@ + s@,
{
    let mut v = chars_of(s);
    out.append(&mut v);
}

fn push_spaces(out: &mut Vec<char>, n: usize)
    ensures
        final(out)@ == old(out)@ + spaces(n as nat),
{
    let mut i: usize = 0;
    let ghost start = out@;
    while i < n
        invariant
            i <= n,
            out@ == start + spaces(i as nat),
        decreases n - i,
    {
        out.push(' ');
        i = i + 1;
        assert(spaces(i as nat) == spaces((i - 1) as nat).push(' '));
        assert(out@ =~= start + spaces(i as nat));
    }
}

fn push_padded_right(out: &mut Vec<char>, s: &str, width: usize)
    ensures
        final(out)@ == old(out)@ + pad_right(s@, width as nat),
{
    let chars = chars_of(s);
    let n = chars.len();
    push_str(out, s);
    if n < width {
        push_spaces(out, width - n);
        assert(out@ =~= old(out)@ + pad_right(s@, width as nat));
    }
}

fn push_padded_left(out: &mut Vec<char>, s: &str, width: usize)
    ensures
        final(out)@ == old(out)@ + pad_left(s@, width as nat),
{
    let chars = chars_of(s);
    let n = chars.len();
    if n < width {
        push_spaces(out, width - n);
    }
    push_str(out, s);
    assert(out@ =~= old(out)@ + pad_left(s@, width as nat));
}

fn push_table_line(out: &mut Vec<char>, cells: &Vec<String>)
    ensures
        final(out)@ == old(out)@ + table_line(cells@.map_values(|s: String| s@)),
{
    let ghost start = out@;
    let ghost views = cells@.map_values(|s: String| s@);
    let mut j: usize = 0;
    while j < cells.len()
        invariant
            j <= cells@.len(),
            views == cells@.map_values(|s: String| s@),
            out@ == start + table_line(views.subrange(0, j as int)).drop_last(),
        decreases cells@.len() - j,
    {
        let ghost before = out@;
        if j > 0 {
            push_str(out, " | ");
        }
        push_padded_right(out, cells[j].as_str(), 10);
        proof {
            let s = views.subrange(0, j + 1);
            assert(s.drop_last() == views.subrange(0, j as int));
            assert(s.last() == cells@[j as int]@);
            let line = table_line(s);
            assert(line.drop_last() =~= table_line(views.subrange(0, j as int)).drop_last() + (if j
                > 0 {
                " | "@
            } else {
                Seq::empty()
            }) + pad_right(cells@[j as int]@, 10));
            assert(out@ =~= start + line.drop_last());
        }
        j = j + 1;
    }
    out.push('\n');
    proof {
        assert(views.subrange(0, cells@.len() as int) == views);
        let line = table_line(views);
        assert(line.len() > 0);
        assert(line == line.drop_last().push('\n'));
        assert(out@ =~= start + line);
    }
}

/// Renders a table from its column titles and the texts of its rows.
pub fn render_table(title: &str, header: &Vec<String>, rows: &Vec<Vec<String>>) -> (r: String)
    ensures
        r@ == table_text(
            title@,
            header@.map_values(|s: String| s@),
            rows@.map_values(|row: Vec<String>| row@.map_values(|s: String| s@)),
        ),
{
    let ghost texts = rows@.map_values(|row: Vec<String>| row@.map_values(|s: String| s@));
    let mut out: Vec<char> = Vec::new();
    push_str(&mut out, title);
    out.push('\n');
    push_str(&mut out, "---------------------\n");
    push_table_line(&mut out, header);
    proof {
        assert(out@ =~= table_text(title@, header@.map_values(|s: String| s@), texts.subrange(0, 0)));
    }
    let mut i: usize = 0;
    while i < rows.len()
        invariant
            i <= rows@.len(),
            texts == rows@.map_values(|row: Vec<String>| row@.map_values(|s: String| s@)),
            out@ == table_text(title@, header@.map_values(|s: String| s@), texts.subrange(0, i as int)),
        decreases rows@.len() - i,
    {
        push_table_line(&mut out, &rows[i]);
        proof {
            let s = texts.subrange(0, i + 1);
            assert(s.drop_last() == texts.subrange(0, i as int));
            assert(s.last() == texts[i as int]);
        }
        i = i + 1;
    }
    proof {
        assert(texts.subrange(0, rows@.len() as int) == texts);
    }
    string_of(&out)
}

/// Renders a list from the texts of its items.
pub fn render_list(title: &str, texts: &Vec<String>) -> (r: String)
    ensures
        r@ == list_text(title@, texts@.map_values(|s: String| s@)),
{
    let ghost views = texts@.map_values(|s: String| s@);
    let mut out: Vec<char> = Vec::new();
    push_str(&mut out, title);
    out.push('\n');
    push_str(&mut out, "---------------------\n");
    push_str(&mut out, "  i | item\n");
    proof {
        assert(out@ =~= list_text(title@, views.subrange(0, 0)));
    }
    let mut i: usize = 0;
    while i < texts.len()
        invariant
            i <= texts@.len(),
            views == texts@.map_values(|s: String| s@),
            out@ == list_text(title@, views.subrange(0, i as int)),
        decreases texts@.len() - i,
    {
        let index = decimal_string(i as i128);
        push_padded_left(&mut out, index.as_str(), 3);
        push_str(&mut out, " | ");
        push_str(&mut out, texts[i].as_str());
        out.push('\n');
        proof {
            let s = views.subrange(0, i + 1);
            assert(s.drop_last() == views.subrange(0, i as int));
            assert(s.last() == texts@[i as int]@);
            assert(out@ =~= list_text(title@, s));
        }
        i = i + 1;
    }
    proof {
        assert(views.subrange(0, texts@.len() as int) == views);
    }
    string_of(&out)
}

impl PhlowListView {
    /// The list as text: its title, and one line per item with its index.
    pub fn to_display_string(&self) -> (r: String)
        ensures
            exists|items: Seq<crate::object::PhlowObject>, texts: Seq<Seq<char>>|
                {
                    &&& items_or_empty(self.definition.items_computation, self.object, items)
                    &&& texts.len() == items.len()
                    &&& forall|i: int|
                        0 <= i < texts.len() ==> text_or_placeholder(
                            self.definition.item_text_computation,
                            items[i],
                            #[trigger] texts[i],
                        )
                    &&& r@ == list_text(self.definition.title@, texts)
                },
    {
        let items = self.compute_items_sync();
        let mut texts: Vec<String> = Vec::new();
        let mut i: usize = 0;
        while i < items.len()
            invariant
                i <= items@.len(),
                texts@.len() == i,
                forall|j: int|
                    0 <= j < i ==> text_or_placeholder(
                        self.definition.item_text_computation,
                        items@[j],
                        #[trigger] texts@[j]@,
                    ),
            decreases items@.len() - i,
        {
            texts.push(self.compute_item_text_sync(&items[i]));
            i = i + 1;
        }
        let r = render_list(self.definition.title.as_str(), &texts);
        let ghost views = texts@.map_values(|s: String| s@);
        assert forall|i: int| 0 <= i < items@.len() implies text_or_placeholder(
            self.definition.item_text_computation,
            items@[i],
            #[trigger] views[i],
        ) by {
            assert(views[i] == texts@[i]@);
        }
        assert(items_or_empty(self.definition.items_computation, self.object, items@));
        r
    }
}

/// The titles of `columns`, in order.
pub open spec fn column_titles(columns: Seq<crate::views::PhlowColumn>) -> Seq<Seq<char>> {
    columns.map_values(|c: crate::views::PhlowColumn| c.title@)
}

impl PhlowColumnedListView {
    /// The list as a table: its title, the column titles, and one line per row
    /// with each cell padded to the cell width.
    pub fn to_display_string(&self) -> (r: String)
        ensures
            exists|items: Seq<crate::object::PhlowObject>, rows: Seq<Seq<Seq<char>>>|
                {
                    &&& items_or_empty(self.definition.items_computation, self.object, items)
                    &&& rows.len() == items.len()
                    &&& forall|i: int|
                        0 <= i < rows.len() ==> (#[trigger] rows[i]).len()
                            == self.definition.columns@.len()
                    &&& forall|i: int, j: int|
                        0 <= i < rows.len() && 0 <= j < self.definition.columns@.len() ==> cell_text(
                            self.definition.columns@[j],
                            items[i],
                            #[trigger] rows[i][j],
                        )
                    &&& r@ == table_text(
                        self.definition.title@,
                        column_titles(self.definition.columns@),
                        rows,
                    )
                },
    {
        let columns = &self.definition.columns;
        let mut header: Vec<String> = Vec::new();
        let mut j: usize = 0;
        while j < columns.len()
            invariant
                j <= columns@.len(),
                *columns == self.definition.columns,
                header@.len() == j,
                forall|k: int| 0 <= k < j ==> (#[trigger] header@[k])@ == columns@[k].title@,
            decreases columns@.len() - j,
        {
            header.push(columns[j].title.clone());
            j = j + 1;
        }
        let items = self.compute_items();
        let mut rows: Vec<Vec<String>> = Vec::new();
        let mut i: usize = 0;
        while i < items.len()
            invariant
                i <= items@.len(),
                rows@.len() == i,
                forall|a: int|
                    0 <= a < i ==> (#[trigger] rows@[a])@.len() == self.definition.columns@.len(),
                forall|a: int, b: int|
                    0 <= a < i && 0 <= b < self.definition.columns@.len() ==> cell_text(
                        self.definition.columns@[b],
                        items@[a],
                        #[trigger] rows@[a]@[b]@,
                    ),
            decreases items@.len() - i,
        {
            rows.push(self.compute_row_texts(&items[i]));
            i = i + 1;
        }
        let r = render_table(self.definition.title.as_str(), &header, &rows);
        let ghost texts = rows@.map_values(|row: Vec<String>| row@.map_values(|s: String| s@));
        assert(header@.map_values(|s: String| s@) =~= column_titles(self.definition.columns@));
        assert forall|a: int| 0 <= a < texts.len() implies (#[trigger] texts[a]).len()
            == self.definition.columns@.len() by {
            assert(texts[a] == rows@[a]@.map_values(|s: String| s@));
        }
        assert forall|a: int, b: int|
            0 <= a < texts.len() && 0 <= b < self.definition.columns@.len() implies cell_text(
            self.definition.columns@[b],
            items@[a],
            #[trigger] texts[a][b],
        ) by {
            assert(texts[a] == rows@[a]@.map_values(|s: String| s@));
            assert(texts[a][b] == rows@[a]@[b]@);
        }
        assert(items_or_empty(self.definition.items_computation, self.object, items@));
        r
    }
}

impl PhlowTextView {
    /// The view as text: its title, a rule, and the text.
    pub fn to_display_string(&self) -> (r: String)
        ensures
            exists|text: Seq<char>|
                {
                    &&& text_or_placeholder(self.definition.text_computation, self.object, text)
                    &&& r@ == self.definition.title@ + seq!['\n'] + rule_line() + text + seq!['\n']
                },
    {
        let text = self.compute_text();
        let mut out: Vec<char> = Vec::new();
        push_str(&mut out, self.definition.title.as_str());
        out.push('\n');
        push_str(&mut out, "---------------------\n");
        push_str(&mut out, text.as_str());
        out.push('\n');
        assert(out@ =~= self.definition.title@ + seq!['\n'] + rule_line() + text@ + seq!['\n']);
        string_of(&out)
    }
}

/// The name of a pixel format.
pub open spec fn format_name(format: PixelFormat) -> Seq<char> {
    match format {
        PixelFormat::RGBA8888 => "RGBA8888"@,
        PixelFormat::BGRA8888 => "BGRA8888"@,
    }
}

/// A bitmap view as text.
pub open spec fn bitmap_text(title: Seq<char>, b: crate::views::PhlowBitmap) -> Seq<char> {
    title + seq!['\n'] + rule_line() + "Bitmap: "@ + decimal_text(b.width as int) + seq!['x']
        + decimal_text(b.height as int) + "; format: "@ + format_name(b.format) + seq!['\n']
}

impl PhlowBitmapView {
    /// The view as text: its title, a rule, and the bitmap's size and format.
    pub fn to_display_string(&self) -> (r: String)
        ensures
            exists|b: std::sync::Arc<crate::views::PhlowBitmap>|
                {
                    &&& (self.definition.bitmap_computation.spec_produces(self.object, Some(b)) || (
                    self.definition.bitmap_computation.spec_produces(self.object, None)
                        && b.spec_is_empty()))
                    &&& r@ == #[trigger] bitmap_text(self.definition.title@, *b)
                },
    {
        let b = self.compute_bitmap();
        let mut out: Vec<char> = Vec::new();
        push_str(&mut out, self.definition.title.as_str());
        out.push('\n');
        push_str(&mut out, "---------------------\n");
        push_str(&mut out, "Bitmap: ");
        push_str(&mut out, decimal_string(b.width as i128).as_str());
        out.push('x');
        push_str(&mut out, decimal_string(b.height as i128).as_str());
        push_str(&mut out, "; format: ");
        match b.format {
            PixelFormat::RGBA8888 => push_str(&mut out, "RGBA8888"),
            PixelFormat::BGRA8888 => push_str(&mut out, "BGRA8888"),
        }
        out.push('\n');
        assert(out@ =~= self.definition.title@ + seq!['\n'] + rule_line() + "Bitmap: "@
            + decimal_text(b.width as int) + seq!['x'] + decimal_text(b.height as int)
            + "; format: "@ + format_name(b.format) + seq!['\n']);
        let r = string_of(&out);
        assert(r@ == bitmap_text(self.definition.title@, *b));
        r
    }
}

} // verus!
