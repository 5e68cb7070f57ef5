//! The presenter: the tables and lines in which the backend's answers are
//! shown.

use vstd::prelude::*;
use crate::console::{blank, out, shown, Badge, Line, LineView, Tone};
use crate::models::{
    CompareResult, CompareResultView, MediaInfo, MediaInfoView, Percent, PercentView, Trend,
};
use crate::text::{decimal, join, joined, texts, to_decimal};

verus! {

/// The text that `prettytable` draws for a table with the rows `rows`, in
/// its default format and without a title row.
pub uninterp spec fn table_text(rows: Seq<Seq<Seq<char>>>) -> Seq<char>;

/// The cells of `rows` as texts, row by row.
pub open spec fn grid(rows: Seq<Vec<String>>) -> Seq<Seq<Seq<char>>> {
    Seq::new(rows.len(), |i: int| texts(rows[i]@))
}

/// Whether a text holds no escape character.
pub open spec fn plain_text(s: Seq<char>) -> bool {
    forall|k: int| 0 <= k < s.len() ==> s[k] != '\u{1b}'
}

/// Whether no cell of `rows` holds an escape character.
pub open spec fn plain_cells(rows: Seq<Seq<Seq<char>>>) -> bool {
    forall|i: int, j: int|
        0 <= i < rows.len() && 0 <= j < rows[i].len() ==> plain_text(#[trigger] rows[i][j])
}

/// Builds a `prettytable::Table` from `rows` and draws it into a string
/// with the table's `Display`. The table measures each cell, and its
/// measuring can fail on a cell that holds an escape character, so such
/// cells are kept out. The contract only gives the result its name,
/// [`table_text`].
#[verifier::external_body]
fn render_table(rows: &Vec<Vec<String>>) -> (r: String)
    requires
        plain_cells(grid(rows@)),
    ensures
        r@ == table_text(grid(rows@)),
{
    prettytable::Table::from(rows).to_string()
}

/// How rows are shown: as a drawn table where no cell holds an escape
/// character, else one plain line for each row, its cells set apart by a
/// bar.
pub open spec fn table_lines(rows: Seq<Seq<Seq<char>>>) -> Seq<LineView> {
    if plain_cells(rows) {
        seq![LineView::Block { text: table_text(rows) }]
    } else {
        Seq::new(rows.len(), |i: int| LineView::Plain { text: joined(rows[i], " | "@) })
    }
}

/// The rows of the table that shows one file: a heading, then one row for
/// each thing known of the file.
pub open spec fn info_rows(info: MediaInfoView) -> Seq<Seq<Seq<char>>> {
    seq![
        seq!["Property"@, "Value"@],
        seq!["Filename"@, info.filename],
        seq!["Format"@, info.format],
        seq!["Duration"@, info.duration],
        seq!["Resolution"@, info.resolution],
        seq!["Bitrate"@, info.bitrate],
        seq!["Size (bytes)"@, decimal(info.size)],
    ]
}

/// The rows of the table that shows two files side by side: a heading, then
/// one row for each thing that is compared.
pub open spec fn comparison_rows(result: CompareResultView) -> Seq<Seq<Seq<char>>> {
    seq![
        seq!["Property"@, "Original"@, "Processed"@],
        seq!["Filename"@, result.original.filename, result.processed.filename],
        seq!["Format"@, result.original.format, result.processed.format],
        seq!["Resolution"@, result.original.resolution, result.processed.resolution],
        seq!["Bitrate"@, result.original.bitrate, result.processed.bitrate],
        seq!["Size (bytes)"@, decimal(result.original.size), decimal(result.processed.size)],
    ]
}

/// The line that tells how the size changed. Its text is the same whichever
/// way the size went; badge and colour tell the direction.
pub open spec fn size_line(diff: PercentView) -> LineView {
    let text = "Size reduction: "@ + diff.magnitude + "%"@;
    match diff.trend {
        Trend::Reduced => out(Badge::Check, Tone::BrightGreen, text),
        Trend::Grown => out(Badge::Cross, Tone::BrightRed, text),
        Trend::Unchanged => out(Badge::Bang, Tone::Yellow, text),
    }
}

/// What is shown of one file: its rows between two empty lines.
pub open spec fn info_lines(info: MediaInfoView) -> Seq<LineView> {
    seq![blank()] + table_lines(info_rows(info)) + seq![blank()]
}

/// What is shown of a comparison: its rows between two empty lines, then
/// the line on the size and one more empty line.
pub open spec fn comparison_lines(result: CompareResultView) -> Seq<LineView> {
    seq![blank()] + table_lines(comparison_rows(result)) + seq![
        blank(),
        size_line(result.size_diff_percent),
        blank(),
    ]
}

/// Tells whether a text holds no escape character.
pub fn is_plain_text(s: &str) -> (r: bool)
    ensures
        r == plain_text(s@),
{
    let n: usize = s.unicode_len();
    let mut i: usize = 0;
    while i < n
        invariant
            n == s@.len(),
            i <= n,
            forall|k: int| 0 <= k < i ==> s@[k] != '\u{1b}',
        decreases n - i,
    {
        if s.get_char(i) == '\u{1b}' {
            return false;
        }
        i = i + 1;
    }
    true
}

/// Tells whether no cell of a row holds an escape character.
fn is_plain_row(row: &Vec<String>) -> (r: bool)
    ensures
        r == (forall|j: int| 0 <= j < row@.len() ==> plain_text(#[trigger] texts(row@)[j])),
{
    let mut j: usize = 0;
    while j < row.len()
        invariant
            j <= row.len(),
            forall|b: int| 0 <= b < j ==> plain_text(#[trigger] texts(row@)[b]),
        decreases row.len() - j,
    {
        if !is_plain_text(row[j].as_str()) {
            assert(texts(row@)[j as int] == row@[j as int]@);
            return false;
        }
        assert(texts(row@)[j as int] == row@[j as int]@);
        j = j + 1;
    }
    true
}

/// Tells whether no cell of `rows` holds an escape character.
pub fn are_plain_cells(rows: &Vec<Vec<String>>) -> (r: bool)
    ensures
        r == plain_cells(grid(rows@)),
{
    let mut i: usize = 0;
    while i < rows.len()
        invariant
            i <= rows.len(),
            forall|a: int, b: int|
                0 <= a < i && 0 <= b < grid(rows@)[a].len() ==> plain_text(
                    #[trigger] grid(rows@)[a][b],
                ),
        decreases rows.len() - i,
    {
        assert(grid(rows@)[i as int] == texts(rows@[i as int]@));
        if !is_plain_row(&rows[i]) {
            return false;
        }
        i = i + 1;
    }
    true
}

/// Shows rows: as a drawn table where no cell holds an escape character,
/// else as plain lines.
pub fn show_rows(rows: &Vec<Vec<String>>) -> (r: Vec<Line>)
    ensures
        shown(r@) == table_lines(grid(rows@)),
{
    let mut r: Vec<Line> = Vec::new();
    if are_plain_cells(rows) {
        r.push(Line::Block { text: render_table(rows) });
        assert(shown(r@) =~= table_lines(grid(rows@)));
        return r;
    }
    let mut i: usize = 0;
    while i < rows.len()
        invariant
            i <= rows.len(),
            shown(r@) == Seq::new(
                i as nat,
                |k: int| LineView::Plain { text: joined(grid(rows@)[k], " | "@) },
            ),
        decreases rows.len() - i,
    {
        let ghost before = shown(r@);
        let text = join(&rows[i], " | ");
        assert(grid(rows@)[i as int] == texts(rows@[i as int]@));
        r.push(Line::Plain { text });
        assert(shown(r@) =~= before.push(
            LineView::Plain { text: joined(grid(rows@)[i as int], " | "@) },
        ));
        i = i + 1;
        assert(shown(r@) =~= Seq::new(
            i as nat,
            |k: int| LineView::Plain { text: joined(grid(rows@)[k], " | "@) },
        ));
    }
    assert(shown(r@) =~= table_lines(grid(rows@)));
    r
}

/// A row of two cells.
fn pair(label: &str, value: &str) -> (r: Vec<String>)
    ensures
        texts(r@) == seq![label@, value@],
{
    let mut r: Vec<String> = Vec::new();
    r.push(String::from_str(label));
    r.push(String::from_str(value));
    assert(texts(r@) =~= seq![label@, value@]);
    r
}

/// A row of three cells.
fn triple(label: &str, left: &str, right: &str) -> (r: Vec<String>)
    ensures
        texts(r@) == seq![label@, left@, right@],
{
    let mut r: Vec<String> = Vec::new();
    r.push(String::from_str(label));
    r.push(String::from_str(left));
    r.push(String::from_str(right));
    assert(texts(r@) =~= seq![label@, left@, right@]);
    r
}

/// Lays out the rows of the table that shows one file.
pub fn media_info_rows(info: &MediaInfo) -> (r: Vec<Vec<String>>)
    ensures
        grid(r@) == info_rows(info@),
{
    let size = to_decimal(info.size);
    let mut r: Vec<Vec<String>> = Vec::new();
    r.push(pair("Property", "Value"));
    r.push(pair("Filename", info.filename.as_str()));
    r.push(pair("Format", info.format.as_str()));
    r.push(pair("Duration", info.duration.as_str()));
    r.push(pair("Resolution", info.resolution.as_str()));
    r.push(pair("Bitrate", info.bitrate.as_str()));
    r.push(pair("Size (bytes)", size.as_str()));
    assert(grid(r@) =~= info_rows(info@));
    r
}

/// Lays out the rows of the table that shows two files side by side.
pub fn comparison_result_rows(result: &CompareResult) -> (r: Vec<Vec<String>>)
    ensures
        grid(r@) == comparison_rows(result@),
{
    let left = to_decimal(result.original.size);
    let right = to_decimal(result.processed.size);
    let mut r: Vec<Vec<String>> = Vec::new();
    r.push(triple("Property", "Original", "Processed"));
    r.push(
        triple(
            "Filename",
            result.original.filename.as_str(),
            result.processed.filename.as_str(),
        ),
    );
    r.push(triple("Format", result.original.format.as_str(), result.processed.format.as_str()));
    r.push(
        triple(
            "Resolution",
            result.original.resolution.as_str(),
            result.processed.resolution.as_str(),
        ),
    );
    r.push(
        triple("Bitrate", result.original.bitrate.as_str(), result.processed.bitrate.as_str()),
    );
    r.push(triple("Size (bytes)", left.as_str(), right.as_str()));
    assert(grid(r@) =~= comparison_rows(result@));
    r
}

/// Writes the line that tells how the size changed.
pub fn size_change_line(diff: &Percent) -> (r: Line)
    ensures
        r@ == size_line(diff@),
{
    let mut text = String::from_str("Size reduction: ");
    text.append(diff.magnitude.as_str());
    text.append("%");
    match diff.trend {
        Trend::Reduced => Line::out(Badge::Check, Tone::BrightGreen, text),
        Trend::Grown => Line::out(Badge::Cross, Tone::BrightRed, text),
        Trend::Unchanged => Line::out(Badge::Bang, Tone::Yellow, text),
    }
}

/// Puts the lines of `more` behind those of `lines`.
fn extend(lines: &mut Vec<Line>, more: Vec<Line>)
    ensures
        shown(final(lines)@) == shown(old(lines)@) + shown(more@),
{
    let ghost before = shown(lines@);
    let mut rest = more;
    lines.append(&mut rest);
    assert(shown(lines@) =~= before + shown(more@));
}

/// Shows one file: a table of what is known of it, or plain lines where a
/// text holds an escape character.
pub fn print_media_info(info: &MediaInfo) -> (r: Vec<Line>)
    ensures
        shown(r@) == info_lines(info@),
{
    let rows = media_info_rows(info);
    let mut r: Vec<Line> = Vec::new();
    r.push(Line::blank());
    assert(shown(r@) =~= seq![blank()]);
    extend(&mut r, show_rows(&rows));
    let ghost before = shown(r@);
    r.push(Line::blank());
    assert(shown(r@) =~= before + seq![blank()]);
    r
}

/// Shows a comparison: the two files side by side, in a table or in plain
/// lines as for one file, and how the size changed.
pub fn print_comparison_result(result: &CompareResult) -> (r: Vec<Line>)
    ensures
        shown(r@) == comparison_lines(result@),
{
    let rows = comparison_result_rows(result);
    let mut r: Vec<Line> = Vec::new();
    r.push(Line::blank());
    assert(shown(r@) =~= seq![blank()]);
    extend(&mut r, show_rows(&rows));
    let ghost before = shown(r@);
    r.push(Line::blank());
    r.push(size_change_line(&result.size_diff_percent));
    r.push(Line::blank());
    assert(shown(r@) =~= before + seq![
        blank(),
        size_line(result@.size_diff_percent),
        blank(),
    ]);
    r
}

} // verus!
