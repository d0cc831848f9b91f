use vstd::prelude::*;
use vstd::string::StringExecFns;
use crate::code::Code;
use crate::product::Product;

verus! {

/// Number of product columns on a catalogue page.
pub const COLUMNS: usize = 2;

/// Horizontal image scale of an EAN barcode, in thousandths.
pub const BARCODE_X_SCALE_MILLI: u32 = 1000;

/// Vertical image scale of every barcode, in thousandths.
pub const BARCODE_Y_SCALE_MILLI: u32 = 40000;

/// The scale a barcode image is drawn at, in thousandths of its natural size.
#[derive(Debug, Clone, Copy, PartialEq, Eq)]
pub struct ImageScale {
    pub x_milli: u32,
    pub y_milli: u32,
}

/// The scale for a barcode: Code 128 modules are denser, so its images are
/// drawn at half the horizontal scale of EAN images.
pub open spec fn scale_for(code: Code) -> ImageScale {
    ImageScale {
        x_milli: if code is CODE128 {
            (BARCODE_X_SCALE_MILLI / 2) as u32
        } else {
            BARCODE_X_SCALE_MILLI
        },
        y_milli: BARCODE_Y_SCALE_MILLI,
    }
}

/// Returns the scale a barcode image is drawn at.
pub fn image_scale(code: &Code) -> (r: ImageScale)
    ensures
        r == scale_for(*code),
{
    let x_milli = match code {
        Code::CODE128(_) => BARCODE_X_SCALE_MILLI / 2,
        _ => BARCODE_X_SCALE_MILLI,
    };
    ImageScale { x_milli, y_milli: BARCODE_Y_SCALE_MILLI }
}

/// A Code 128 image is drawn at exactly half the horizontal scale of an EAN
/// image, and at the same vertical scale.
pub proof fn lemma_code128_half_scale(code128: Code, ean: Code)
    requires
        code128 is CODE128,
        !(ean is CODE128),
    ensures
        2 * scale_for(code128).x_milli == scale_for(ean).x_milli,
        scale_for(code128).y_milli == scale_for(ean).y_milli,
{
}

/// One product's cell of the table: its name, the barcode's display text
/// and the barcode image, stacked.
#[derive(Debug, Clone)]
pub struct EntryCell {
    pub name: String,
    pub caption: String,
    pub image_path: String,
    pub scale: ImageScale,
}

/// A table cell: a product, or an empty cell that pads the last row.
#[derive(Debug, Clone)]
pub enum Cell {
    Entry(EntryCell),
    Padding,
}

/// `cell` shows `product`, whose image is stored at `path`.
pub open spec fn shows(cell: Cell, product: Product, path: Seq<char>) -> bool {
    &&& cell is Entry
    &&& cell->Entry_0.name@ == product.name@
    &&& cell->Entry_0.caption@ == product.barcode.display_text()
    &&& cell->Entry_0.image_path@ == path
    &&& cell->Entry_0.scale == scale_for(product.barcode)
}

/// Builds the cell of a product whose image is stored at `path`.
pub fn entry_cell(product: &Product, path: &String) -> (r: Cell)
    ensures
        shows(r, *product, path@),
{
    Cell::Entry(
        EntryCell {
            name: product.name.clone(),
            caption: product.barcode.display(),
            image_path: path.clone(),
            scale: image_scale(&product.barcode),
        },
    )
}

/// The number of rows `n` entries fill at `columns` per row: `n / columns`
/// rounded up.
pub open spec fn row_count(n: int, columns: int) -> int {
    (n + columns - 1) / columns
}

/// `rows` lays out `entries` row-major, `columns` cells to a row, with the
/// last row padded by empty cells.
pub open spec fn lays_out(rows: Seq<Vec<Cell>>, entries: Seq<(Product, String)>, columns: int) -> bool {
    &&& rows.len() == row_count(entries.len() as int, columns)
    &&& forall|r: int| 0 <= r < rows.len() ==> (#[trigger] rows[r])@.len() == columns
    &&& forall|r: int, k: int|
        0 <= r < rows.len() && 0 <= k < columns ==> {
            let i = r * columns + k;
            if i < entries.len() {
                shows(#[trigger] rows[r]@[k], entries[i].0, entries[i].1@)
            } else {
                rows[r]@[k] is Padding
            }
        }
}

proof fn lemma_row_count(n: int, c: int, rows: int)
    requires
        c >= 1,
        n >= 0,
        rows == n / c + (if n % c == 0 { 0int } else { 1int }),
    ensures
        rows == row_count(n, c),
        rows * c >= n,
        rows >= 1 ==> (rows - 1) * c < n,
{
    assert(n == (n / c) * c + n % c && 0 <= n % c < c) by (nonlinear_arith)
        requires
            c >= 1,
            n >= 0,
    ;
    let q = n / c;
    let m = n % c;
    if m == 0 {
        assert((n + c - 1) / c == q) by (nonlinear_arith)
            requires
                n == q * c,
                c >= 1,
        ;
    } else {
        assert((n + c - 1) / c == q + 1) by (nonlinear_arith)
            requires
                n == q * c + m,
                0 < m < c,
        ;
    }
    assert(rows * c >= n) by (nonlinear_arith)
        requires
            n == q * c + m,
            0 <= m < c,
            rows == q + (if m == 0 { 0int } else { 1int }),
    ;
    assert(rows >= 1 ==> (rows - 1) * c < n) by (nonlinear_arith)
        requires
            n == q * c + m,
            0 <= m < c,
            rows == q + (if m == 0 { 0int } else { 1int }),
    ;
}

/// Lays out the products, each with the path of its image, in a table of
/// `columns` cells per row, in input order, padding the last row with empty
/// cells so that every row has exactly `columns` cells.
pub fn layout_table(entries: &Vec<(Product, String)>, columns: usize) -> (rows: Vec<Vec<Cell>>)
    requires
        columns >= 1,
    ensures
        lays_out(rows@, entries@, columns as int),
{
    let n = entries.len();
    let extra: usize = if n % columns == 0 { 0 } else { 1 };
    assert(extra == 1 ==> n / columns < usize::MAX) by (nonlinear_arith)
        requires
            extra == 1 ==> n % columns != 0,
            columns >= 1,
            n <= usize::MAX,
    ;
    let nrows: usize = n / columns + extra;
    proof {
        lemma_row_count(n as int, columns as int, nrows as int);
    }
    let mut rows: Vec<Vec<Cell>> = Vec::new();
    let mut r: usize = 0;
    while r < nrows
        invariant
            nrows == row_count(n as int, columns as int),
            nrows * columns >= n,
            nrows >= 1 ==> (nrows - 1) * columns < n,
            n == entries@.len(),
            columns >= 1,
            r <= nrows,
            rows@.len() == r,
            forall|q: int| 0 <= q < r ==> (#[trigger] rows@[q])@.len() == columns,
            forall|q: int, k: int|
                0 <= q < r && 0 <= k < columns ==> {
                    let i = q * columns + k;
                    if i < n {
                        shows(#[trigger] rows@[q]@[k], entries@[i].0, entries@[i].1@)
                    } else {
                        rows@[q]@[k] is Padding
                    }
                },
        decreases nrows - r,
    {
        assert(r * columns < n) by (nonlinear_arith)
            requires
                r < nrows,
                (nrows - 1) * columns < n,
                columns >= 1,
        ;
        let start: usize = r * columns;
        let mut row: Vec<Cell> = Vec::new();
        let mut k: usize = 0;
        while k < columns
            invariant
                start == r * columns,
                start < n,
                n == entries@.len(),
                k <= columns,
                row@.len() == k,
                forall|j: int|
                    0 <= j < k ==> {
                        let i = start + j;
                        if i < n {
                            shows(#[trigger] row@[j], entries@[i].0, entries@[i].1@)
                        } else {
                            row@[j] is Padding
                        }
                    },
            decreases columns - k,
        {
            if k < n - start {
                let (product, path) = &entries[start + k];
                row.push(entry_cell(product, path));
            } else {
                row.push(Cell::Padding);
            }
            k = k + 1;
        }
        rows.push(row);
        r = r + 1;
    }
    rows
}

/// A catalogue document before it is typeset: its metadata title, the
/// heading and time stamp that open it, and the product table.
#[derive(Debug, Clone)]
pub struct DocumentPlan {
    pub title: String,
    pub heading: String,
    pub timestamp: String,
    pub columns: usize,
    pub rows: Vec<Vec<Cell>>,
}

pub open spec fn document_title() -> Seq<char> {
    seq!['B', 'a', 'r', 'c', 'o', 'd', 'e', ' ', 'B', 'i', 'b', 'l', 'e']
}

pub open spec fn heading_text() -> Seq<char> {
    seq!['B', 'a', 'r', 'c', 'o', 'd', 'e', 's']
}

/// Assembles the catalogue: the title, the heading and the time stamp of its
/// generation, then the products laid out `COLUMNS` to a row.
pub fn assemble(timestamp: String, entries: &Vec<(Product, String)>) -> (d: DocumentPlan)
    ensures
        d.title@ == document_title(),
        d.heading@ == heading_text(),
        d.timestamp@ == timestamp@,
        d.columns == COLUMNS,
        lays_out(d.rows@, entries@, COLUMNS as int),
{
    proof {
        reveal_strlit("Barcode Bible");
        reveal_strlit("Barcodes");
    }
    let title = String::from_str("Barcode Bible");
    let heading = String::from_str("Barcodes");
    assert(title@ =~= document_title());
    assert(heading@ =~= heading_text());
    let rows = layout_table(entries, COLUMNS);
    DocumentPlan { title, heading, timestamp, columns: COLUMNS, rows }
}

} // verus!
