//! Text tables, drawn by `prettytable`.

use vstd::prelude::*;
use prettytable::{Cell, Row, Table};
use crate::text::{decimal, decimal_text, lemma_decimal_digits};

verus! {

/// A text table of `prettytable`.
#[verifier::external_type_specification]
#[verifier::external_body]
pub struct ExTable(prettytable::Table);

/// The rows of a table, each a list of cell texts; a cell is read as its
/// lines joined by line feeds (`Cell::new` splits a text into lines).
pub uninterp spec fn table_rows(table: Table) -> Seq<Seq<Seq<char>>>;

/// How a table is drawn, as far as the tables made here go.
pub enum TableLook {
    /// The default format (`FORMAT_DEFAULT`), no title row, and every cell
    /// as `Cell::new` makes it (left-aligned, unstyled, one column wide).
    Default,
    /// The same, but in the format `FORMAT_NO_BORDER_LINE_SEPARATOR`.
    Borderless,
    /// Any other format, titles or cell settings.
    Other,
}

/// How a table is drawn.
pub uninterp spec fn table_look(table: Table) -> TableLook;

/// The text that `prettytable` draws for a table with these rows, in the
/// default or the borderless look.
pub uninterp spec fn drawn_table(rows: Seq<Seq<Seq<char>>>, look: TableLook) -> Seq<char>;

/// Whether a text holds no line break.
pub open spec fn single_line(text: Seq<char>) -> bool {
    forall|i: int| 0 <= i < text.len() ==> text[i] != '\n' && text[i] != '\r'
}

/// Calls `Table::new` of `prettytable`: a table with no rows and no titles,
/// in the default format.
#[verifier::external_body]
fn table_new() -> (table: Table)
    ensures
        table_rows(table) == Seq::<Seq<Seq<char>>>::empty(),
        table_look(table) == TableLook::Default,
{
    Table::new()
}

/// Calls `Table::set_format` of `prettytable` with the format
/// `FORMAT_NO_BORDER_LINE_SEPARATOR`; the rows, titles and cells stay as they
/// are.
#[verifier::external_body]
fn table_set_borderless(table: &mut Table)
    ensures
        table_rows(*final(table)) == table_rows(*old(table)),
        table_look(*old(table)) != TableLook::Other ==> table_look(*final(table)) == TableLook::Borderless,
{
    table.set_format(*prettytable::format::consts::FORMAT_NO_BORDER_LINE_SEPARATOR);
}

/// Calls `Table::add_row` of `prettytable` with a row made by `Cell::new`
/// of one cell per text: the row is added after the others and the look
/// stays. The texts must be single lines, which `Cell::new` keeps as they
/// are.
#[verifier::external_body]
fn table_add_row(table: &mut Table, cells: &Vec<String>)
    requires
        forall|i: int| 0 <= i < cells@.len() ==> single_line(#[trigger] cells@[i]@),
    ensures
        table_rows(*final(table)) == table_rows(*old(table)).push(cells@.map_values(|c: String| c@)),
        table_look(*final(table)) == table_look(*old(table)),
{
    table.add_row(Row::new(cells.iter().map(|c| Cell::new(c)).collect()));
}

/// Draws a table in the default or the borderless look through its
/// `Display` implementation in `prettytable`; the text is the one named by
/// `drawn_table` for the table's rows and look.
#[verifier::external_body]
fn table_text(table: &Table) -> (text: String)
    requires
        table_look(*table) != TableLook::Other,
    ensures
        text@ == drawn_table(table_rows(*table), table_look(*table)),
{
    format!("{}", table)
}

/// The rows of a user's profile: money, level and experience.
pub open spec fn profile_rows(money: u32, level: u32, exp: u32) -> Seq<Seq<Seq<char>>> {
    seq![
        seq!["money"@, decimal(money as nat)],
        seq!["level"@, decimal(level as nat)],
        seq!["  exp"@, decimal(exp as nat)],
    ]
}

/// A row of two cells: a label and a number.
fn labelled_row(label: &str, value: u32) -> (row: Vec<String>)
    requires
        single_line(label@),
    ensures
        forall|i: int| 0 <= i < row@.len() ==> single_line(#[trigger] row@[i]@),
        row@.map_values(|c: String| c@) == seq![label@, decimal(value as nat)],
{
    let mut row: Vec<String> = Vec::new();
    row.push(String::from_str(label));
    row.push(decimal_text(value as u64));
    proof {
        assert(row@.map_values(|c: String| c@) =~= seq![label@, decimal(value as nat)]);
        lemma_decimal_digits(value as nat);
        assert(row@[0]@ == label@);
        assert(row@[1]@ == decimal(value as nat));
    }
    row
}

/// A user's profile drawn as a borderless table of money, level and
/// experience.
pub fn profile_table(money: u32, level: u32, exp: u32) -> (text: String)
    ensures
        text@ == drawn_table(profile_rows(money, level, exp), TableLook::Borderless),
{
    proof {
        reveal_strlit("money");
        reveal_strlit("level");
        reveal_strlit("  exp");
    }
    let mut table = table_new();
    table_set_borderless(&mut table);
    let money_row = labelled_row("money", money);
    table_add_row(&mut table, &money_row);
    let level_row = labelled_row("level", level);
    table_add_row(&mut table, &level_row);
    let exp_row = labelled_row("  exp", exp);
    table_add_row(&mut table, &exp_row);
    proof {
        assert(table_rows(table) =~= profile_rows(money, level, exp));
    }
    table_text(&table)
}

/// The profile table has three rows, in this order: the money row labelled
/// "money" with the money, the row labelled "level" with the level, and the
/// row labelled "  exp" with the experience, each number in decimal.
pub proof fn law_profile_rows(money: u32, level: u32, exp: u32)
    ensures
        profile_rows(money, level, exp).len() == 3,
        profile_rows(money, level, exp)[0] == seq![seq!['m', 'o', 'n', 'e', 'y'], decimal(money as nat)],
        profile_rows(money, level, exp)[1] == seq![seq!['l', 'e', 'v', 'e', 'l'], decimal(level as nat)],
        profile_rows(money, level, exp)[2] == seq![seq![' ', ' ', 'e', 'x', 'p'], decimal(exp as nat)],
{
    reveal_strlit("money");
    reveal_strlit("level");
    reveal_strlit("  exp");
    assert("money"@ =~= seq!['m', 'o', 'n', 'e', 'y']);
    assert("level"@ =~= seq!['l', 'e', 'v', 'e', 'l']);
    assert("  exp"@ =~= seq![' ', ' ', 'e', 'x', 'p']);
}

/// Different records give different profile rows: each of money, level and
/// experience can be read back from its own row.
pub proof fn law_profile_rows_distinguish(m1: u32, l1: u32, e1: u32, m2: u32, l2: u32, e2: u32)
    requires
        profile_rows(m1, l1, e1) == profile_rows(m2, l2, e2),
    ensures
        m1 == m2,
        l1 == l2,
        e1 == e2,
{
    law_profile_rows(m1, l1, e1);
    law_profile_rows(m2, l2, e2);
    assert(profile_rows(m1, l1, e1)[0][1] == profile_rows(m2, l2, e2)[0][1]);
    assert(profile_rows(m1, l1, e1)[1][1] == profile_rows(m2, l2, e2)[1][1]);
    assert(profile_rows(m1, l1, e1)[2][1] == profile_rows(m2, l2, e2)[2][1]);
    crate::text::law_decimal_injective(m1 as nat, m2 as nat);
    crate::text::law_decimal_injective(l1 as nat, l2 as nat);
    crate::text::law_decimal_injective(e1 as nat, e2 as nat);
}

} // verus!
