//! Tables and their cells, as `comfy_table` makes them.

use vstd::prelude::*;

verus! {

/// A cell of a table: a text and how it is styled.
#[verifier::external_type_specification]
#[verifier::external_body]
pub struct ExCell(comfy_table::Cell);

/// A table: its header, its rows and how it is drawn.
#[verifier::external_type_specification]
#[verifier::external_body]
pub struct ExTable(comfy_table::Table);

/// A color of a cell's text.
#[derive(Debug, Clone, Copy, PartialEq, Eq, Structural)]
pub enum CellColor {
    Cyan,
}

/// An attribute of a cell's text.
#[derive(Debug, Clone, Copy, PartialEq, Eq, Structural)]
pub enum CellAttribute {
    Bold,
}

/// How the content of a table is arranged.
#[derive(Debug, Clone, Copy, PartialEq, Eq, Structural)]
pub enum Arrangement {
    /// As wide as the content is.
    Disabled,
    /// Wrapped to fit the terminal.
    Dynamic,
}

/// How many parts of a table a preset gives a character for.
pub const PRESET_LEN: usize = 19;

// ---------------------------------------------------------------------------
// Cells
// ---------------------------------------------------------------------------

/// The text that a cell holds, its line breaks included.
pub uninterp spec fn cell_text(cell: comfy_table::Cell) -> Seq<char>;

/// The color that the text of a cell was given, if any.
pub uninterp spec fn cell_color(cell: comfy_table::Cell) -> Option<CellColor>;

/// The attributes that the text of a cell was given, in order.
pub uninterp spec fn cell_attributes(cell: comfy_table::Cell) -> Seq<CellAttribute>;

/// Calls `comfy_table::Cell::new`, which makes a cell of a text, without color
/// or attribute.
#[verifier::external_body]
pub(crate) fn new_cell(label: &str) -> (cell: comfy_table::Cell)
    ensures
        cell_text(cell) == label@,
        cell_color(cell) is None,
        cell_attributes(cell) == Seq::<CellAttribute>::empty(),
{
    comfy_table::Cell::new(label)
}

/// Calls `comfy_table::Cell::fg`, which gives the text of a cell a color and
/// changes nothing else.
#[verifier::external_body]
pub(crate) fn with_color(cell: comfy_table::Cell, color: CellColor) -> (colored: comfy_table::Cell)
    ensures
        cell_text(colored) == cell_text(cell),
        cell_color(colored) == Some(color),
        cell_attributes(colored) == cell_attributes(cell),
{
    cell.fg(
        match color {
            CellColor::Cyan => comfy_table::Color::Cyan,
        },
    )
}

/// Calls `comfy_table::Cell::add_attribute`, which adds an attribute to those
/// of a cell and changes nothing else.
#[verifier::external_body]
pub(crate) fn with_attribute(
    cell: comfy_table::Cell,
    attribute: CellAttribute,
) -> (marked: comfy_table::Cell)
    ensures
        cell_text(marked) == cell_text(cell),
        cell_color(marked) == cell_color(cell),
        cell_attributes(marked) == cell_attributes(cell).push(attribute),
{
    cell.add_attribute(
        match attribute {
            CellAttribute::Bold => comfy_table::Attribute::Bold,
        },
    )
}

// ---------------------------------------------------------------------------
// Tables
// ---------------------------------------------------------------------------

/// The characters that a table is drawn with, as the preset that gives them. A
/// space stands for a part that is not drawn.
pub uninterp spec fn table_style(table: comfy_table::Table) -> Seq<char>;

/// How the content of a table is arranged.
pub uninterp spec fn table_arrangement(table: comfy_table::Table) -> Arrangement;

/// The cells of a table's header, if it has one.
pub uninterp spec fn table_header(table: comfy_table::Table) -> Option<Seq<comfy_table::Cell>>;

/// Reads `comfy_table::presets::UTF8_FULL_CONDENSED`: box-drawing characters,
/// without dividers between rows.
#[verifier::external_body]
pub(crate) fn condensed_preset() -> (preset: &'static str)
    ensures
        preset@ == "││──╞═╪╡┆    ┬┴┌┐└┘"@,
{
    comfy_table::presets::UTF8_FULL_CONDENSED
}

/// Calls `comfy_table::Table::new`, which makes a table without a header,
/// drawn in ASCII and not arranged.
#[verifier::external_body]
pub(crate) fn new_table() -> (table: comfy_table::Table)
    ensures
        table_style(table) == "||--+==+|-+||++++++"@,
        table_arrangement(table) == Arrangement::Disabled,
        table_header(table) is None,
{
    comfy_table::Table::new()
}

/// Calls `comfy_table::Table::load_preset`, which draws a table with the
/// characters of a preset and changes nothing else. Of a preset that does not
/// cover every part of a table exactly, nothing is claimed.
#[verifier::external_body]
pub(crate) fn load_preset(table: &mut comfy_table::Table, preset: &str)
    ensures
        preset@.len() == PRESET_LEN ==> table_style(*final(table)) == preset@,
        table_arrangement(*final(table)) == table_arrangement(*old(table)),
        table_header(*final(table)) == table_header(*old(table)),
{
    table.load_preset(preset);
}

/// Calls `comfy_table::Table::set_content_arrangement`, which sets how the
/// content of a table is arranged and changes nothing else.
#[verifier::external_body]
pub(crate) fn set_arrangement(table: &mut comfy_table::Table, arrangement: Arrangement)
    ensures
        table_style(*final(table)) == table_style(*old(table)),
        table_arrangement(*final(table)) == arrangement,
        table_header(*final(table)) == table_header(*old(table)),
{
    table.set_content_arrangement(
        match arrangement {
            Arrangement::Disabled => comfy_table::ContentArrangement::Disabled,
            Arrangement::Dynamic => comfy_table::ContentArrangement::Dynamic,
        },
    );
}

/// Calls `comfy_table::Table::set_header`, which gives a table a header of the
/// given cells and leaves how it is drawn and arranged.
#[verifier::external_body]
pub(crate) fn set_header(table: &mut comfy_table::Table, header: Vec<comfy_table::Cell>)
    ensures
        table_style(*final(table)) == table_style(*old(table)),
        table_arrangement(*final(table)) == table_arrangement(*old(table)),
        table_header(*final(table)) == Some(header@),
{
    table.set_header(header);
}

} // verus!
