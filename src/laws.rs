//! Properties that relate the library's functions across all inputs.

use vstd::prelude::*;

use crate::compare::{is_movement, percent_of, Movement};
use crate::price::{normalized_char, normalized_text, price_of_text};
use crate::report::{
    filler_group, group_cells, group_width, header_view, lead_cells, lead_width, row_view,
    row_width,
};
use crate::share::{moments, movements_match, ShareMoment, ShareTimeline};
use crate::compare::{percent_text, undefined_marker};

verus! {

/// Raw price text with every decimal comma written as a decimal point.
pub open spec fn comma_to_point(s: Seq<char>) -> Seq<char> {
    s.map_values(|c: char| if c == ',' { '.' } else { c })
}

proof fn lemma_normalized_comma_to_point(s: Seq<char>)
    ensures
        normalized_text(s) == normalized_text(comma_to_point(s)),
    decreases s.len(),
{
    if s.len() > 0 {
        let t = comma_to_point(s);
        assert(t.drop_last() =~= comma_to_point(s.drop_last()));
        lemma_normalized_comma_to_point(s.drop_last());
        assert(normalized_char(s.last()) == normalized_char(t.last()));
    }
}

/// Writing a price with a decimal comma or a decimal point gives the same
/// price: raw text and the same text with its commas turned into points
/// normalize to one price, or both fail.
pub proof fn lemma_comma_and_point_agree(s: Seq<char>)
    ensures
        price_of_text(s) == price_of_text(comma_to_point(s)),
{
    lemma_normalized_comma_to_point(s);
}

/// Every report row has as many cells as the header, and a moment without a
/// record fills its group with exactly four filler cells.
pub proof fn lemma_absent_moment_fills(t: ShareTimeline, k: int)
    requires
        0 <= k < moments().len(),
        t.past(moments()[k]) is None,
    ensures
        row_view(t).len() == header_view().len(),
        row_view(t).len() == row_width(),
        row_view(t).subrange(
            lead_width() + group_width() * k,
            lead_width() + group_width() * (k + 1),
        ) == filler_group(),
{
    lemma_row_width(t);
    lemma_group_len(t, moments()[0]);
    lemma_group_len(t, moments()[1]);
    lemma_group_len(t, moments()[2]);
    lemma_group_len(t, moments()[3]);
    let r = row_view(t);
    let g0 = group_cells(t, moments()[0]);
    let g1 = group_cells(t, moments()[1]);
    let g2 = group_cells(t, moments()[2]);
    let g3 = group_cells(t, moments()[3]);
    assert(r == lead_cells(t.current()) + g0 + g1 + g2 + g3);
    let start = 3 + 4 * k;
    if k == 0 {
        assert(r.subrange(start, start + 4) =~= g0);
    } else if k == 1 {
        assert(r.subrange(start, start + 4) =~= g1);
    } else if k == 2 {
        assert(r.subrange(start, start + 4) =~= g2);
    } else {
        assert(r.subrange(start, start + 4) =~= g3);
    }
}

/// Every report row has as many cells as the header.
pub proof fn lemma_row_width(t: ShareTimeline)
    ensures
        row_view(t).len() == header_view().len(),
        row_view(t).len() == row_width(),
{
    lemma_group_len(t, moments()[0]);
    lemma_group_len(t, moments()[1]);
    lemma_group_len(t, moments()[2]);
    lemma_group_len(t, moments()[3]);
    let g0 = group_cells(t, moments()[0]);
    let g1 = group_cells(t, moments()[1]);
    let g2 = group_cells(t, moments()[2]);
    let g3 = group_cells(t, moments()[3]);
    assert(row_view(t) == lead_cells(t.current()) + g0 + g1 + g2 + g3);
    assert(header_view().len() == 19);
}

proof fn lemma_group_len(t: ShareTimeline, m: ShareMoment)
    ensures
        group_cells(t, m).len() == group_width(),
{
    match t.past(m) {
        Some(p) => {},
        None => {},
    }
}

/// In a report built from any batch of timelines, every row has as many
/// cells as the header.
pub proof fn lemma_report_rows_match_header(timelines: Seq<ShareTimeline>)
    ensures
        forall|i: int|
            0 <= i < timelines.len() ==> (#[trigger] row_view(timelines[i])).len()
                == header_view().len(),
{
    assert forall|i: int| 0 <= i < timelines.len() implies (#[trigger] row_view(
        timelines[i],
    )).len() == header_view().len() by {
        lemma_row_width(timelines[i]);
    }
}

/// Against a historical price of zero the percentage is undefined: the
/// movement carries no number, and its cell shows the undefined marker.
pub proof fn lemma_zero_history_undefined(m: Movement, c: (nat, nat), h: (nat, nat))
    requires
        h.0 == 0,
        is_movement(m, c, h),
    ensures
        m.percent is None,
        percent_of(c, h) is None,
        percent_text(percent_of(c, h)) == undefined_marker(),
{
}

/// The comparison engine is a function of its inputs: any two results for
/// the same prices are identical.
pub proof fn lemma_movement_determined(m1: Movement, m2: Movement, c: (nat, nat), h: (nat, nat))
    requires
        is_movement(m1, c, h),
        is_movement(m2, c, h),
    ensures
        m1 == m2,
{
}

/// Comparing the same timeline twice gives identical results.
pub proof fn lemma_movements_determined(
    ms1: Seq<Option<Movement>>,
    ms2: Seq<Option<Movement>>,
    t: ShareTimeline,
)
    requires
        movements_match(ms1, t),
        movements_match(ms2, t),
    ensures
        ms1 == ms2,
{
    assert forall|k: int| 0 <= k < ms1.len() implies ms1[k] == ms2[k] by {
        if let Some(p) = t.past(moments()[k]) {
            let c = t.current().price@;
            lemma_movement_determined(ms1[k]->Some_0, ms2[k]->Some_0, c, p.price@);
        }
    }
    assert(ms1 =~= ms2);
}

} // verus!
