//! The report builder: a header row and one row per timeline, as cells of
//! text with an optional styling tag.

use vstd::prelude::*;

use crate::compare::{
    common_scale, delta_of, percent_of, percent_text, signed_text, undefined_marker, Direction,
};
use crate::share::{moment_label, moments, Share, ShareMoment, ShareTimeline};
use crate::text::decimal_text;
use crate::timestamp::timestamp_text;

verus! {

/// How a movement cell is to be styled.
#[derive(Clone, Copy, Debug, PartialEq, Eq, Structural)]
pub enum Tag {
    Positive,
    Negative,
    Neutral,
}

/// One cell of the report.
#[derive(Clone, Debug)]
pub struct Cell {
    pub text: String,
    pub tag: Option<Tag>,
}

/// The header row and one data row per timeline.
pub struct Report {
    pub header: Vec<Cell>,
    pub rows: Vec<Vec<Cell>>,
}

/// A cell as its text and tag.
pub type CellView = (Seq<char>, Option<Tag>);

pub open spec fn cell_views(cs: Seq<Cell>) -> Seq<CellView> {
    cs.map_values(|c: Cell| (c.text@, c.tag))
}

/// The number of cells per moment: price, date, movement and percentage.
pub open spec fn group_width() -> nat {
    4
}

/// The number of cells before the moment groups: code, price and time.
pub open spec fn lead_width() -> nat {
    3
}

/// The number of cells of every report row.
pub open spec fn row_width() -> nat {
    lead_width() + group_width() * moments().len()
}

/// The marker shown in each cell of a moment without a record.
pub open spec fn filler_marker() -> Seq<char> {
    seq!['\u{2014}']
}

pub open spec fn plain(text: Seq<char>) -> CellView {
    (text, None)
}

pub open spec fn lead_header() -> Seq<CellView> {
    seq![
        plain(seq!['C', 'O', 'D', 'E']),
        plain(seq!['C', 'U', 'R', 'R', 'E', 'N', 'T', ' ', '\n', 'P', 'R', 'I', 'C', 'E']),
        plain(seq!['C', 'U', 'R', 'R', ' ', '\n', 'T', 'I', 'M', 'E']),
    ]
}

pub open spec fn group_header(m: ShareMoment) -> Seq<CellView> {
    seq![
        plain(moment_label(m) + seq![' ', '\n', 'P', 'R', 'I', 'C', 'E']),
        plain(moment_label(m) + seq![' ', '\n', 'D', 'A', 'T', 'E']),
        plain(moment_label(m) + seq![' ', '\n', 'M', 'O', 'V', 'E', 'M', 'E', 'N', 'T']),
        plain(Seq::empty()),
    ]
}

/// The header row: the lead columns, then each moment's group in report order.
pub open spec fn header_view() -> Seq<CellView> {
    lead_header() + group_header(moments()[0]) + group_header(moments()[1]) + group_header(
        moments()[2],
    ) + group_header(moments()[3])
}

/// The styling tag of a price difference.
pub open spec fn tag_of(delta: int) -> Tag {
    if delta > 0 {
        Tag::Positive
    } else if delta < 0 {
        Tag::Negative
    } else {
        Tag::Neutral
    }
}

/// The lead cells of a row: code, current price and current time.
pub open spec fn lead_cells(s: Share) -> Seq<CellView> {
    seq![
        plain(s.code@),
        plain(decimal_text(s.price@.0, s.price@.1)),
        plain(timestamp_text(s.price_date@)),
    ]
}

/// Four filler cells.
pub open spec fn filler_group() -> Seq<CellView> {
    seq![
        plain(filler_marker()),
        plain(filler_marker()),
        plain(filler_marker()),
        plain(filler_marker()),
    ]
}

/// The cells of moment `m` in the row of `t`: the historical price and time,
/// the movement and the percentage, or four fillers without a record.
pub open spec fn group_cells(t: ShareTimeline, m: ShareMoment) -> Seq<CellView> {
    match t.past(m) {
        Some(p) => {
            let c = t.current().price@;
            let h = p.price@;
            let d = delta_of(c, h);
            seq![
                plain(decimal_text(h.0, h.1)),
                plain(timestamp_text(p.price_date@)),
                (signed_text(d, common_scale(c, h)), Some(tag_of(d))),
                (percent_text(percent_of(c, h)), Some(tag_of(d))),
            ]
        },
        None => filler_group(),
    }
}

/// The row of `t`: the lead cells, then each moment's group in report order.
pub open spec fn row_view(t: ShareTimeline) -> Seq<CellView> {
    lead_cells(t.current()) + group_cells(t, moments()[0]) + group_cells(t, moments()[1])
        + group_cells(t, moments()[2]) + group_cells(t, moments()[3])
}

fn header_cell(text: String) -> (c: Cell)
    ensures
        c.text@ == text@,
        c.tag is None,
{
    Cell { text, tag: None }
}

/// Appends the header cells of moment `m`.
fn push_group_header(row: &mut Vec<Cell>, m: ShareMoment)
    ensures
        cell_views(final(row)@) == cell_views(old(row)@) + group_header(m),
{
    proof {
        reveal_strlit(" \nPRICE");
        reveal_strlit(" \nDATE");
        reveal_strlit(" \nMOVEMENT");
        reveal_strlit("");
    }
    row.push(header_cell(m.label().concat(" \nPRICE")));
    row.push(header_cell(m.label().concat(" \nDATE")));
    row.push(header_cell(m.label().concat(" \nMOVEMENT")));
    row.push(header_cell("".to_owned()));
    let ghost n: int = old(row)@.len() as int;
    assert(row@[n].text@ == group_header(m)[0].0);
    assert(row@[n + 1].text@ == group_header(m)[1].0);
    assert(row@[n + 2].text@ == group_header(m)[2].0);
    assert(row@[n + 3].text@ == group_header(m)[3].0);
    assert(cell_views(row@) =~= cell_views(old(row)@) + group_header(m));
}

/// The header row.
pub fn build_header() -> (r: Vec<Cell>)
    ensures
        cell_views(r@) == header_view(),
{
    proof {
        reveal_strlit("CODE");
        reveal_strlit("CURRENT \nPRICE");
        reveal_strlit("CURR \nTIME");
    }
    let mut r: Vec<Cell> = Vec::new();
    r.push(header_cell("CODE".to_owned()));
    r.push(header_cell("CURRENT \nPRICE".to_owned()));
    r.push(header_cell("CURR \nTIME".to_owned()));
    assert(r@[0].text@ == lead_header()[0].0);
    assert(r@[1].text@ == lead_header()[1].0);
    assert(r@[2].text@ == lead_header()[2].0);
    assert(r@[2].tag == lead_header()[2].1);
    assert(cell_views(r@) =~= lead_header());
    let all = ShareMoment::all();
    push_group_header(&mut r, all[0]);
    push_group_header(&mut r, all[1]);
    push_group_header(&mut r, all[2]);
    push_group_header(&mut r, all[3]);
    assert(cell_views(r@) =~= header_view());
    r
}

fn tag_for(d: Direction) -> (t: Tag)
    ensures
        d == Direction::Up ==> t == Tag::Positive,
        d == Direction::Down ==> t == Tag::Negative,
        d == Direction::Flat ==> t == Tag::Neutral,
{
    match d {
        Direction::Up => Tag::Positive,
        Direction::Down => Tag::Negative,
        Direction::Flat => Tag::Neutral,
    }
}

fn filler_cell() -> (c: Cell)
    ensures
        c.text@ == filler_marker(),
        c.tag is None,
{
    proof { reveal_strlit("\u{2014}"); }
    Cell { text: "\u{2014}".to_owned(), tag: None }
}

/// Appends the cells of moment `m` of the timeline `t`.
fn push_group_cells(row: &mut Vec<Cell>, t: &ShareTimeline, m: ShareMoment)
    ensures
        cell_views(final(row)@) == cell_views(old(row)@) + group_cells(*t, m),
{
    match t.history(m) {
        Some(past) => {
            let mv = crate::compare::compare(&t.share().price, &past.price);
            let tag = tag_for(mv.direction);
            row.push(Cell { text: past.pretty_price(), tag: None });
            row.push(Cell { text: past.display_date(), tag: None });
            row.push(Cell { text: mv.delta_text(), tag: Some(tag) });
            row.push(Cell { text: mv.percent_text(), tag: Some(tag) });
        },
        None => {
            row.push(filler_cell());
            row.push(filler_cell());
            row.push(filler_cell());
            row.push(filler_cell());
            let ghost n: int = old(row)@.len() as int;
            assert(cell_views(row@)[n + 3] == filler_group()[3]);
        },
    }
    assert(cell_views(row@) =~= cell_views(old(row)@) + group_cells(*t, m));
}

/// The report row of timeline `t`.
pub fn build_row(t: &ShareTimeline) -> (r: Vec<Cell>)
    ensures
        cell_views(r@) == row_view(*t),
{
    let s = t.share();
    let mut r: Vec<Cell> = Vec::new();
    r.push(Cell { text: s.code.clone(), tag: None });
    r.push(Cell { text: s.pretty_price(), tag: None });
    r.push(Cell { text: s.display_date(), tag: None });
    assert(cell_views(r@) =~= lead_cells(t.current()));
    let all = ShareMoment::all();
    push_group_cells(&mut r, t, all[0]);
    push_group_cells(&mut r, t, all[1]);
    push_group_cells(&mut r, t, all[2]);
    push_group_cells(&mut r, t, all[3]);
    assert(cell_views(r@) =~= row_view(*t));
    r
}

/// The header row and, in input order, the row of each timeline.
pub fn build_report(timelines: &Vec<ShareTimeline>) -> (r: Report)
    ensures
        cell_views(r.header@) == header_view(),
        r.rows@.len() == timelines@.len(),
        forall|i: int|
            0 <= i < timelines@.len() ==> cell_views(#[trigger] r.rows@[i]@) == row_view(
                timelines@[i],
            ),
{
    let header = build_header();
    let mut rows: Vec<Vec<Cell>> = Vec::new();
    let mut i: usize = 0;
    while i < timelines.len()
        invariant
            i <= timelines@.len(),
            rows@.len() == i,
            forall|k: int| 0 <= k < i ==> cell_views(#[trigger] rows@[k]@) == row_view(timelines@[k]),
        decreases timelines@.len() - i,
    {
        rows.push(build_row(&timelines[i]));
        i = i + 1;
    }
    Report { header, rows }
}

} // verus!
