//! Price observations, the historical moments they are compared at, and the
//! per-company timeline of one current and several historical observations.

use vstd::prelude::*;

use crate::compare::{compare, is_movement, Movement};
use crate::price::{price_of_text, Price, PriceError};
use crate::text::decimal_text;
use crate::timestamp::{timestamp_text, Timestamp};

verus! {

/// One price observation of a company.
#[derive(Clone, Debug)]
pub struct Share {
    pub code: String,
    pub price: Price,
    pub price_date: Timestamp,
}

impl Share {
    /// An observation from raw price text, which must normalize to a price.
    pub fn new(code: String, raw_price: &str, price_date: Timestamp) -> (r: Result<
        Share,
        PriceError,
    >)
        ensures
            r is Ok <==> price_of_text(raw_price@) is Some,
            r matches Ok(s) ==> s.code@ == code@ && Some(s.price@) == price_of_text(raw_price@)
                && s.price_date == price_date,
            r matches Err(PriceError::MalformedPrice(t)) ==> t@ == raw_price@,
    {
        match Price::parse(raw_price) {
            Ok(price) => Ok(Share { code, price, price_date }),
            Err(e) => Err(e),
        }
    }

    /// The observation time as `YYYY-MM-DD \nHH:MM:SS`.
    pub fn display_date(&self) -> (r: String)
        ensures
            r@ == timestamp_text(self.price_date@),
    {
        self.price_date.to_text()
    }

    /// The price written with its own number of fraction digits.
    pub fn pretty_price(&self) -> (r: String)
        ensures
            r@ == decimal_text(self.price@.0, self.price@.1),
    {
        self.price.to_text()
    }

    /// The price as a fixed-point number.
    pub fn price_as_decimal(&self) -> (r: Price)
        ensures
            r == self.price,
    {
        self.price
    }
}

/// A named historical offset at which the current price is compared.
#[derive(Clone, Copy, Debug, PartialEq, Eq, Hash, Structural)]
pub enum ShareMoment {
    Yesterday,
    LastWeek,
    LastMonth,
    LastYear,
}

/// The moments in report order.
pub open spec fn moments() -> Seq<ShareMoment> {
    seq![ShareMoment::Yesterday, ShareMoment::LastWeek, ShareMoment::LastMonth, ShareMoment::LastYear]
}

/// The minimum age, in days, of a record that stands for the moment.
pub open spec fn min_age_days_of(m: ShareMoment) -> nat {
    match m {
        ShareMoment::Yesterday => 1,
        ShareMoment::LastWeek => 7,
        ShareMoment::LastMonth => 30,
        ShareMoment::LastYear => 365,
    }
}

/// The moment's name as shown in report headers.
pub open spec fn moment_label(m: ShareMoment) -> Seq<char> {
    match m {
        ShareMoment::Yesterday => seq!['Y', 'e', 's', 't', 'e', 'r', 'd', 'a', 'y'],
        ShareMoment::LastWeek => seq!['L', 'a', 's', 't', 'W', 'e', 'e', 'k'],
        ShareMoment::LastMonth => seq!['L', 'a', 's', 't', 'M', 'o', 'n', 't', 'h'],
        ShareMoment::LastYear => seq!['L', 'a', 's', 't', 'Y', 'e', 'a', 'r'],
    }
}

impl ShareMoment {
    /// All moments in report order.
    pub fn all() -> (r: Vec<ShareMoment>)
        ensures
            r@ == moments(),
    {
        let r = vec![
            ShareMoment::Yesterday,
            ShareMoment::LastWeek,
            ShareMoment::LastMonth,
            ShareMoment::LastYear,
        ];
        assert(r@ =~= moments());
        r
    }

    /// The minimum age, in days, of the freshest record that stands for this moment.
    pub fn min_age_days(&self) -> (r: u32)
        ensures
            r == min_age_days_of(*self),
    {
        match self {
            ShareMoment::Yesterday => 1,
            ShareMoment::LastWeek => 7,
            ShareMoment::LastMonth => 30,
            ShareMoment::LastYear => 365,
        }
    }

    /// The moment's name.
    pub fn label(&self) -> (r: String)
        ensures
            r@ == moment_label(*self),
    {
        match self {
            ShareMoment::Yesterday => {
                proof { reveal_strlit("Yesterday"); }
                "Yesterday".to_owned()
            },
            ShareMoment::LastWeek => {
                proof { reveal_strlit("LastWeek"); }
                "LastWeek".to_owned()
            },
            ShareMoment::LastMonth => {
                proof { reveal_strlit("LastMonth"); }
                "LastMonth".to_owned()
            },
            ShareMoment::LastYear => {
                proof { reveal_strlit("LastYear"); }
                "LastYear".to_owned()
            },
        }
    }
}

/// A historical observation recorded for a company other than the timeline's.
#[derive(Clone, Debug, PartialEq, Eq)]
pub enum TimelineError {
    /// Carries the code of the rejected observation.
    CodeMismatch(String),
}

/// One company's current observation and, for each moment, the historical
/// observation found for it, if any.
pub struct ShareTimeline {
    share: Share,
    yesterday: Option<Share>,
    last_week: Option<Share>,
    last_month: Option<Share>,
    last_year: Option<Share>,
}

impl ShareTimeline {
    #[verifier::type_invariant]
    spec fn well_formed(self) -> bool {
        &&& (self.yesterday matches Some(s) ==> s.code@ == self.share.code@)
        &&& (self.last_week matches Some(s) ==> s.code@ == self.share.code@)
        &&& (self.last_month matches Some(s) ==> s.code@ == self.share.code@)
        &&& (self.last_year matches Some(s) ==> s.code@ == self.share.code@)
    }

    /// The current observation.
    pub closed spec fn current(self) -> Share {
        self.share
    }

    /// The historical observation recorded for moment `m`.
    pub closed spec fn past(self, m: ShareMoment) -> Option<Share> {
        match m {
            ShareMoment::Yesterday => self.yesterday,
            ShareMoment::LastWeek => self.last_week,
            ShareMoment::LastMonth => self.last_month,
            ShareMoment::LastYear => self.last_year,
        }
    }

    /// A timeline with the current observation and no history.
    pub fn new(share: Share) -> (r: ShareTimeline)
        ensures
            r.current() == share,
            forall|m: ShareMoment| (#[trigger] r.past(m)) is None,
    {
        ShareTimeline { share, yesterday: None, last_week: None, last_month: None, last_year: None }
    }

    /// Records `past` as the historical observation for `moment`, replacing
    /// any earlier one; refused when it is of another company.
    pub fn record(&mut self, moment: ShareMoment, past: Share) -> (r: Result<(), TimelineError>)
        ensures
            r is Ok <==> past.code@ == old(self).current().code@,
            final(self).current() == old(self).current(),
            r is Ok ==> final(self).past(moment) == Some(past),
            forall|m: ShareMoment|
                m != moment || r is Err ==> #[trigger] final(self).past(m) == old(self).past(m),
            r matches Err(TimelineError::CodeMismatch(c)) ==> c@ == past.code@,
    {
        proof { use_type_invariant(&*self); }
        if !string_eq(&past.code, &self.share.code) {
            return Err(TimelineError::CodeMismatch(past.code));
        }
        match moment {
            ShareMoment::Yesterday => self.yesterday = Some(past),
            ShareMoment::LastWeek => self.last_week = Some(past),
            ShareMoment::LastMonth => self.last_month = Some(past),
            ShareMoment::LastYear => self.last_year = Some(past),
        }
        Ok(())
    }

    /// The current observation.
    pub fn share(&self) -> (r: &Share)
        ensures
            *r == self.current(),
    {
        &self.share
    }

    /// The historical observation for `moment`, if one was recorded.
    pub fn history(&self, moment: ShareMoment) -> (r: Option<&Share>)
        ensures
            r matches Some(s) ==> self.past(moment) == Some(*s),
            r is None <==> self.past(moment) is None,
            r matches Some(s) ==> s.code@ == self.current().code@,
    {
        proof { use_type_invariant(self); }
        match moment {
            ShareMoment::Yesterday => self.yesterday.as_ref(),
            ShareMoment::LastWeek => self.last_week.as_ref(),
            ShareMoment::LastMonth => self.last_month.as_ref(),
            ShareMoment::LastYear => self.last_year.as_ref(),
        }
    }

    /// The movement of the current price against each moment's historical
    /// price, in report order; `None` for a moment without a record.
    pub fn movements(&self) -> (r: Vec<Option<Movement>>)
        ensures
            movements_match(r@, *self),
    {
        let all = ShareMoment::all();
        let mut r: Vec<Option<Movement>> = Vec::new();
        let mut i: usize = 0;
        while i < all.len()
            invariant
                all@ == moments(),
                i <= all@.len(),
                r@.len() == i,
                forall|k: int| 0 <= k < i ==> movement_matches(#[trigger] r@[k], *self, moments()[k]),
            decreases all@.len() - i,
        {
            let m = match self.history(all[i]) {
                Some(past) => Some(compare(&self.share.price, &past.price)),
                None => None,
            };
            r.push(m);
            i = i + 1;
        }
        r
    }
}

/// A stored observation: raw price text and its time.
#[derive(Clone, Debug)]
pub struct StoredPrice {
    pub price: String,
    pub price_date: Timestamp,
}

/// `s` is the observation of `code` that the stored record `rec` denotes.
pub open spec fn is_stored_share(s: Share, code: Seq<char>, rec: StoredPrice) -> bool {
    &&& s.code@ == code
    &&& Some(s.price@) == price_of_text(rec.price@)
    &&& s.price_date == rec.price_date
}

/// The stored record given for the moment at position `k`, if any.
pub open spec fn record_at(history: Seq<Option<StoredPrice>>, k: int) -> Option<StoredPrice> {
    if k < history.len() {
        history[k]
    } else {
        None
    }
}

impl ShareTimeline {
    /// The timeline of `code` from its freshly scraped raw price and the
    /// records found for each moment, in report order (`history[k]` for
    /// `moments()[k]`; missing entries count as no record).
    ///
    /// A current price that does not normalize fails the whole timeline; a
    /// historical one that does not normalize leaves its moment without a record.
    pub fn assemble(
        code: String,
        raw_price: &str,
        observed_at: Timestamp,
        history: &Vec<Option<StoredPrice>>,
    ) -> (r: Result<ShareTimeline, PriceError>)
        ensures
            r is Ok <==> price_of_text(raw_price@) is Some,
            r matches Err(PriceError::MalformedPrice(t)) ==> t@ == raw_price@,
            r matches Ok(t) ==> {
                &&& t.current().code@ == code@
                &&& Some(t.current().price@) == price_of_text(raw_price@)
                &&& t.current().price_date == observed_at
                &&& forall|k: int|
                    0 <= k < moments().len() ==> match #[trigger] record_at(history@, k) {
                        Some(rec) => if price_of_text(rec.price@) is Some {
                            t.past(moments()[k]) matches Some(s) && is_stored_share(s, code@, rec)
                        } else {
                            t.past(moments()[k]) is None
                        },
                        None => t.past(moments()[k]) is None,
                    }
            },
    {
        let current = match Share::new(code.clone(), raw_price, observed_at) {
            Ok(s) => s,
            Err(e) => return Err(e),
        };
        let mut t = ShareTimeline::new(current);
        let all = ShareMoment::all();
        let mut k: usize = 0;
        while k < 4
            invariant
                all@ == moments(),
                k <= 4,
                t.current().code@ == code@,
                Some(t.current().price@) == price_of_text(raw_price@),
                t.current().price_date == observed_at,
                forall|j: int|
                    0 <= j < k ==> match #[trigger] record_at(history@, j) {
                        Some(rec) => if price_of_text(rec.price@) is Some {
                            t.past(moments()[j]) matches Some(s) && is_stored_share(s, code@, rec)
                        } else {
                            t.past(moments()[j]) is None
                        },
                        None => t.past(moments()[j]) is None,
                    },
                forall|j: int| k <= j < 4 ==> (#[trigger] t.past(moments()[j])) is None,
            decreases 4 - k,
        {
            if k < history.len() {
                match &history[k] {
                    Some(rec) => {
                        match Share::new(code.clone(), rec.price.as_str(), rec.price_date) {
                            Ok(past) => {
                                let _ = t.record(all[k], past);
                            },
                            Err(_) => {},
                        }
                    },
                    None => {},
                }
            }
            k = k + 1;
        }
        Ok(t)
    }
}

/// `m` is what the comparison engine gives for moment `moment` of `t`.
pub open spec fn movement_matches(m: Option<Movement>, t: ShareTimeline, moment: ShareMoment) -> bool {
    match t.past(moment) {
        Some(p) => m matches Some(mv) && is_movement(mv, t.current().price@, p.price@),
        None => m is None,
    }
}

/// `ms` holds, in report order, the comparison engine's result for each moment of `t`.
pub open spec fn movements_match(ms: Seq<Option<Movement>>, t: ShareTimeline) -> bool {
    &&& ms.len() == moments().len()
    &&& forall|k: int| 0 <= k < ms.len() ==> movement_matches(#[trigger] ms[k], t, moments()[k])
}

/// Whether two strings hold the same characters.
fn string_eq(a: &String, b: &String) -> (r: bool)
    ensures
        r <==> a@ == b@,
{
    a.eq(b)
}

} // verus!
