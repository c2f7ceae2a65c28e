//! The cells of a summary row as they are drawn: a text and a style each.

use crate::media::{mime_subtype, short_form, shorten_mime};
use crate::size::{adjusted_value, decimal_unit, size_label, size_text, SIZE_DECIMALS};
use crate::summary::{TableItem, TableItemView};
use crate::text::{decimal_digits, decimal_text};
use vstd::prelude::*;
use vstd::string::*;

verus! {

/// Number of cells in a row of the summary list.
pub const TABLES_ROWS_COUNT: usize = 6;

/// The colors that the summary list uses.
#[derive(Debug, Clone, Copy, PartialEq, Eq)]
pub enum Color {
    White,
    DarkGray,
    LightBlue,
    LightGreen,
    LightCyan,
    LightYellow,
    LightMagenta,
}

/// How a cell is drawn. `None` leaves a color as the terminal has it.
#[derive(Debug, Clone, Copy, PartialEq, Eq)]
pub struct CellStyle {
    pub fg: Option<Color>,
    pub bg: Option<Color>,
    pub bold: bool,
}

/// One cell of a row.
#[derive(Debug, Clone)]
pub struct TableCell {
    pub text: String,
    pub style: CellStyle,
}

/// The mathematical value of a [`TableCell`].
pub ghost struct TableCellView {
    pub text: Seq<char>,
    pub style: CellStyle,
}

impl DeepView for TableCell {
    type V = TableCellView;

    open spec fn deep_view(&self) -> TableCellView {
        TableCellView { text: self.text@, style: self.style }
    }
}

/// One row of the summary list, cell by cell from the left.
#[derive(Debug, Clone)]
pub struct TableRow {
    pub cells: Vec<TableCell>,
}

impl DeepView for TableRow {
    type V = Seq<TableCellView>;

    open spec fn deep_view(&self) -> Seq<TableCellView> {
        self.cells.deep_view()
    }
}

/// How wide a column of the summary list is.
#[derive(Debug, Clone, Copy, PartialEq, Eq)]
pub enum ColumnWidth {
    /// So many cells of the terminal.
    Length(u16),
    /// A share of the width that the other columns leave, by this weight.
    Fill(u16),
}

/// A column of the summary list: the title above it, and its width.
#[derive(Debug, Clone)]
pub struct Column {
    pub title: String,
    pub width: ColumnWidth,
}

/// The mathematical value of a [`Column`].
pub ghost struct ColumnView {
    pub title: Seq<char>,
    pub width: ColumnWidth,
}

impl DeepView for Column {
    type V = ColumnView;

    open spec fn deep_view(&self) -> ColumnView {
        ColumnView { title: self.title@, width: self.width }
    }
}

/// The columns of the summary list, from the left. The title of the size
/// column stands at the right, as the sizes below it do.
pub open spec fn columns() -> Seq<ColumnView> {
    seq![
        ColumnView { title: "Status"@, width: ColumnWidth::Length(6) },
        ColumnView { title: "Method"@, width: ColumnWidth::Length(6) },
        ColumnView { title: "Domain"@, width: ColumnWidth::Fill(1) },
        ColumnView { title: "FileName"@, width: ColumnWidth::Fill(2) },
        ColumnView { title: "ContentType"@, width: ColumnWidth::Length(12) },
        ColumnView { title: "       Size"@, width: ColumnWidth::Length(12) },
    ]
}

/// The columns of the summary list, one for each cell of a row.
pub fn table_columns() -> (list: Vec<Column>)
    ensures
        list.deep_view() == columns(),
        list.len() == TABLES_ROWS_COUNT,
{
    let mut list: Vec<Column> = Vec::new();
    list.push(Column { title: String::from_str("Status"), width: ColumnWidth::Length(6) });
    list.push(Column { title: String::from_str("Method"), width: ColumnWidth::Length(6) });
    list.push(Column { title: String::from_str("Domain"), width: ColumnWidth::Fill(1) });
    list.push(Column { title: String::from_str("FileName"), width: ColumnWidth::Fill(2) });
    list.push(Column { title: String::from_str("ContentType"), width: ColumnWidth::Length(12) });
    list.push(Column { title: String::from_str("       Size"), width: ColumnWidth::Length(12) });
    assert(list.deep_view() =~= columns());
    list
}

/// The style that changes nothing.
pub open spec fn plain() -> CellStyle {
    CellStyle { fg: None, bg: None, bold: false }
}

/// `color` as the foreground.
pub open spec fn colored(color: Color) -> CellStyle {
    CellStyle { fg: Some(color), bg: None, bold: false }
}

/// `color` as the foreground, in bold.
pub open spec fn bold_colored(color: Color) -> CellStyle {
    CellStyle { fg: Some(color), bg: None, bold: true }
}

/// `color` as the background.
pub open spec fn on_background(color: Color) -> CellStyle {
    CellStyle { fg: None, bg: Some(color), bold: false }
}

/// The style of the status cell: a color for each class of status codes,
/// gray for a transaction without a response, and a gray background for a
/// code outside all classes.
pub open spec fn status_style(status: u16) -> CellStyle {
    if 100 <= status <= 199 {
        bold_colored(Color::LightBlue)
    } else if 200 <= status <= 299 {
        bold_colored(Color::LightGreen)
    } else if 300 <= status <= 399 {
        bold_colored(Color::LightCyan)
    } else if 400 <= status <= 499 {
        bold_colored(Color::LightYellow)
    } else if 500 <= status <= 599 {
        bold_colored(Color::LightMagenta)
    } else if status == 0 {
        bold_colored(Color::DarkGray)
    } else {
        on_background(Color::DarkGray)
    }
}

/// The text of the status cell: the code as a decimal numeral, and dashes
/// for a transaction without a response.
pub open spec fn status_text(status: u16) -> Seq<char> {
    if status == 0 {
        "---"@
    } else {
        decimal_digits(status as nat)
    }
}

/// The size cell for a body of unknown size.
pub open spec fn unknown_size() -> TableCellView {
    TableCellView { text: "     --- B"@, style: colored(Color::DarkGray) }
}

/// The cells of the row for `item`, given the short form of its content
/// type and the text of its size, `None` standing for an unknown size.
pub open spec fn row_cells(
    item: TableItemView,
    short_mime: Seq<char>,
    size: Option<Seq<char>>,
) -> Seq<TableCellView> {
    seq![
        TableCellView { text: status_text(item.status), style: status_style(item.status) },
        TableCellView { text: item.method, style: bold_colored(Color::White) },
        TableCellView { text: item.domain, style: colored(Color::White) },
        TableCellView { text: item.file_name, style: plain() },
        TableCellView { text: short_mime, style: plain() },
        match size {
            Some(text) => TableCellView { text, style: plain() },
            None => unknown_size(),
        },
    ]
}

/// The text of the size cell of `item`: its size, read as an unsigned
/// number of bytes, in the best fitting decimal unit.
pub open spec fn size_of(item: TableItemView) -> Option<Seq<char>> {
    match item.size {
        Some(bytes) => Some(
            size_text(adjusted_value(bytes as u64, SIZE_DECIMALS), decimal_unit(bytes as u64)),
        ),
        None => None,
    }
}

/// The cells of the row for `item`.
pub open spec fn row_of(item: TableItemView) -> Seq<TableCellView> {
    row_cells(item, short_form(item.mime_type, mime_subtype(item.mime_type)), size_of(item))
}

/// The style of the status cell.
pub fn style_of_status(status: u16) -> (style: CellStyle)
    ensures
        style == status_style(status),
{
    if 100 <= status && status <= 199 {
        CellStyle { fg: Some(Color::LightBlue), bg: None, bold: true }
    } else if 200 <= status && status <= 299 {
        CellStyle { fg: Some(Color::LightGreen), bg: None, bold: true }
    } else if 300 <= status && status <= 399 {
        CellStyle { fg: Some(Color::LightCyan), bg: None, bold: true }
    } else if 400 <= status && status <= 499 {
        CellStyle { fg: Some(Color::LightYellow), bg: None, bold: true }
    } else if 500 <= status && status <= 599 {
        CellStyle { fg: Some(Color::LightMagenta), bg: None, bold: true }
    } else if status == 0 {
        CellStyle { fg: Some(Color::DarkGray), bg: None, bold: true }
    } else {
        CellStyle { fg: None, bg: Some(Color::DarkGray), bold: false }
    }
}

/// Lays out the row for `item`, given the short form of its content type
/// and the text of its size, `None` standing for an unknown size.
pub fn table_row(item: &TableItem, short_mime: String, size: Option<String>) -> (row: TableRow)
    ensures
        row.deep_view() == row_cells(item.deep_view(), short_mime@, size.deep_view()),
        row.cells.len() == TABLES_ROWS_COUNT,
{
    let status_text = if item.status == 0 {
        String::from_str("---")
    } else {
        decimal_text(item.status)
    };
    let plain = CellStyle { fg: None, bg: None, bold: false };
    let size_cell = match size {
        Some(text) => TableCell { text, style: plain },
        None => TableCell {
            text: String::from_str("     --- B"),
            style: CellStyle { fg: Some(Color::DarkGray), bg: None, bold: false },
        },
    };
    let mut cells: Vec<TableCell> = Vec::new();
    cells.push(TableCell { text: status_text, style: style_of_status(item.status) });
    cells.push(
        TableCell {
            text: item.method.clone(),
            style: CellStyle { fg: Some(Color::White), bg: None, bold: true },
        },
    );
    cells.push(
        TableCell {
            text: item.domain.clone(),
            style: CellStyle { fg: Some(Color::White), bg: None, bold: false },
        },
    );
    cells.push(TableCell { text: item.file_name.clone(), style: plain });
    cells.push(TableCell { text: short_mime, style: plain });
    cells.push(size_cell);
    let row = TableRow { cells };
    assert(row.deep_view() =~= row_cells(item.deep_view(), short_mime@, size.deep_view()));
    row
}

impl TableItem {
    /// Lays out this row for drawing: the status in the color of its class,
    /// the method, the domain, the path, the content type shortened to its
    /// subtype, and the size in a decimal unit.
    pub fn to_table_row(&self) -> (row: TableRow)
        ensures
            row.deep_view() == row_of(self.deep_view()),
            row.cells.len() == TABLES_ROWS_COUNT,
    {
        let short_mime = shorten_mime(self.mime_type.as_str());
        let size = match self.size {
            Some(bytes) => Some(size_label(bytes as u64)),
            None => None,
        };
        table_row(self, short_mime, size)
    }
}

} // verus!
