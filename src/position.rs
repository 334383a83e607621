//! A portfolio position: a holding of a ticker-identified instrument or a cash
//! balance with optional interest terms.
//!
//! Amounts, rates and prices are of a type `N` chosen by the caller; this module
//! makes every decision about them and leaves the arithmetic to the caller.
use crate::moment::{Moment, NANOS_PER_SEC, SECS_PER_DAY};
use vstd::prelude::*;

verus! {

/// Days between interest postings when a position does not say.
pub const DEFAULT_PAYMENT_FREQUENCY_DAYS: u32 = 30;

/// The lowercase form that std gives a string.
pub uninterp spec fn lower_of(s: Seq<char>) -> Seq<char>;

/// Relies on `str::to_lowercase`, whose result depends on the characters alone.
#[verifier::external_body]
fn lowercase(s: &str) -> (r: String)
    ensures
        r@ == lower_of(s@),
{
    s.to_lowercase()
}

/// An optional string as an optional sequence of characters.
pub open spec fn opt_view(o: Option<String>) -> Option<Seq<char>> {
    match o {
        Some(s) => Some(s@),
        None => None,
    }
}

/// The asset class that, with complete interest terms, marks a cash position
/// that earns interest.
pub open spec fn cash_class() -> Seq<char> {
    "cash"@
}

/// One interest posting: the period it pays for, its length in whole days, and
/// the due date that follows it.
#[derive(Clone, Copy, Debug, PartialEq, Eq, Structural)]
pub struct AccrualStep {
    pub from: Moment,
    pub to: Moment,
    pub days: i64,
    pub next_due: Moment,
}

/// What a balance is made of: a price times a quantity for a ticker position
/// (no price means none observed yet), the amount itself otherwise.
#[derive(Debug, PartialEq, Eq)]
pub enum BalanceTerms<N> {
    Priced { spot: Option<N>, quantity: N },
    Direct(N),
}

/// The next call that refreshing a position needs from the quote provider.
#[derive(Debug)]
pub enum SyncAction {
    Done,
    FetchQuote(String),
    SearchName(String),
}

/// A failure of the quote provider that this library itself detects.
#[derive(Clone, Copy, Debug, PartialEq, Eq, Structural)]
pub enum QuoteError {
    /// A name search found no match.
    NoResult,
}

/// A position in mathematical terms: its fields, with strings as character
/// sequences.
pub struct PositionView<N> {
    pub name: Option<Seq<char>>,
    pub ticker: Option<Seq<char>>,
    pub asset_class: Seq<char>,
    pub amount: N,
    pub interest_rate: Option<N>,
    pub payment_frequency_days: Option<u32>,
    pub last_interest_payment: Option<Moment>,
    pub next_interest_payment: Option<Moment>,
    pub last_spot: Option<N>,
}

impl<N> PositionView<N> {
    pub open spec fn wf(self) -> bool {
        &&& (self.last_interest_payment matches Some(d) ==> d.wf())
        &&& (self.next_interest_payment matches Some(d) ==> d.wf())
    }

    /// The name shown for the position.
    pub open spec fn display_name(self) -> Seq<char> {
        match self.name {
            Some(n) => n,
            None => match self.ticker {
                Some(t) => t,
                None => "Unknown"@,
            },
        }
    }

    pub open spec fn is_cash_with_interest(self) -> bool {
        &&& lower_of(self.asset_class) == cash_class()
        &&& self.interest_rate is Some
        &&& self.payment_frequency_days is Some
        &&& self.next_interest_payment is Some
    }

    pub open spec fn frequency_days(self) -> u32 {
        match self.payment_frequency_days {
            Some(d) => d,
            None => DEFAULT_PAYMENT_FREQUENCY_DAYS,
        }
    }

    pub open spec fn balance_terms(self) -> BalanceTerms<N> {
        match self.ticker {
            Some(_) => BalanceTerms::Priced { spot: self.last_spot, quantity: self.amount },
            None => BalanceTerms::Direct(self.amount),
        }
    }

    /// The posting due at `current`, if one is.
    pub open spec fn due_step(self, current: Moment) -> Option<AccrualStep> {
        if !self.is_cash_with_interest() {
            None
        } else {
            let next = self.next_interest_payment->Some_0;
            if current.total_nanos() < next.total_nanos() {
                None
            } else {
                let from = match self.last_interest_payment {
                    Some(d) => d,
                    None => next,
                };
                Some(
                    AccrualStep {
                        from,
                        to: current,
                        days: Moment::spec_days_between(from, current) as i64,
                        next_due: current.plus_days(self.frequency_days() as int),
                    },
                )
            }
        }
    }

    /// The position once `step` is posted and the principal has become `amount`.
    pub open spec fn after_posting(self, step: AccrualStep, amount: N) -> PositionView<N> {
        PositionView {
            amount,
            last_interest_payment: Some(step.to),
            next_interest_payment: Some(step.next_due),
            ..self
        }
    }

    /// The price that a quote answer leaves: the live close, else the last close
    /// of the history, else the price held before.
    pub open spec fn spot_after_quote(self, live: Option<N>, history: Seq<N>) -> Option<N> {
        match live {
            Some(p) => Some(p),
            None => if history.len() > 0 {
                Some(history.last())
            } else {
                self.last_spot
            },
        }
    }
}

pub struct PortfolioPosition<N> {
    name: Option<String>,
    ticker: Option<String>,
    asset_class: String,
    amount: N,
    interest_rate: Option<N>,
    payment_frequency_days: Option<u32>,
    last_interest_payment: Option<Moment>,
    next_interest_payment: Option<Moment>,
    last_spot: Option<N>,
}

impl<N> View for PortfolioPosition<N> {
    type V = PositionView<N>;

    closed spec fn view(&self) -> PositionView<N> {
        PositionView {
            name: opt_view(self.name),
            ticker: opt_view(self.ticker),
            asset_class: self.asset_class@,
            amount: self.amount,
            interest_rate: self.interest_rate,
            payment_frequency_days: self.payment_frequency_days,
            last_interest_payment: self.last_interest_payment,
            next_interest_payment: self.next_interest_payment,
            last_spot: self.last_spot,
        }
    }
}

/// A position without a ticker is worth its amount, whatever price it last
/// observed.
pub proof fn lemma_unpriced_balance_is_amount<N>(p: PositionView<N>, spot: Option<N>)
    requires
        p.ticker is None,
    ensures
        p.balance_terms() == BalanceTerms::Direct(p.amount),
        (PositionView { last_spot: spot, ..p }).balance_terms() == p.balance_terms(),
{
}

/// A position with a ticker is worth its last observed price times its amount.
pub proof fn lemma_priced_balance_is_spot_times_amount<N>(p: PositionView<N>)
    requires
        p.ticker is Some,
    ensures
        p.balance_terms() == (BalanceTerms::Priced { spot: p.last_spot, quantity: p.amount }),
{
}

/// Posting the step due at `current` sets the last payment to `current` and the
/// next due date one payment interval after it, and the period it pays for runs
/// from the last payment (or the due date, before the first) to `current`. The
/// posting is a single step: asked again at the same instant, the position has
/// nothing due, so its amount stays as it is.
pub proof fn lemma_posting_is_single_step<N>(p: PositionView<N>, current: Moment, amount: N)
    requires
        p.wf(),
        current.wf(),
        current.can_add_days(p.frequency_days() as int),
        p.frequency_days() > 0,
        p.due_step(current) is Some,
    ensures
        ({
            let step = p.due_step(current)->Some_0;
            let q = p.after_posting(step, amount);
            &&& step.from == match p.last_interest_payment {
                Some(d) => d,
                None => p.next_interest_payment->Some_0,
            }
            &&& step.days == Moment::spec_days_between(step.from, current)
            &&& q.amount == amount
            &&& q.last_interest_payment == Some(current)
            &&& q.next_interest_payment == Some(current.plus_days(p.frequency_days() as int))
            &&& q.due_step(current) is None
        }),
{
    let f = p.frequency_days() as int;
    let next = current.plus_days(f);
    assert(next.total_nanos() == current.total_nanos() + f * SECS_PER_DAY * NANOS_PER_SEC)
        by (nonlinear_arith)
        requires
            next.secs == current.secs + f * SECS_PER_DAY,
            next.nanos == current.nanos,
    ;
    assert(f * SECS_PER_DAY * NANOS_PER_SEC > 0) by (nonlinear_arith)
        requires
            f > 0,
    ;
}

impl<N: Copy> PortfolioPosition<N> {
    /// A position with no interest terms and no observed price.
    pub fn new(name: Option<String>, ticker: Option<String>, asset_class: String, amount: N) -> (r:
        Self)
        ensures
            r@ == (PositionView {
                name: opt_view(name),
                ticker: opt_view(ticker),
                asset_class: asset_class@,
                amount,
                interest_rate: None,
                payment_frequency_days: None,
                last_interest_payment: None,
                next_interest_payment: None,
                last_spot: None,
            }),
            r@.wf(),
    {
        PortfolioPosition {
            name,
            ticker,
            asset_class,
            amount,
            interest_rate: None,
            payment_frequency_days: None,
            last_interest_payment: None,
            next_interest_payment: None,
            last_spot: None,
        }
    }

    pub fn get_name(&self) -> (r: &str)
        ensures
            r@ == self@.display_name(),
    {
        match &self.name {
            Some(n) => n.as_str(),
            None => match &self.ticker {
                Some(t) => t.as_str(),
                None => "Unknown",
            },
        }
    }

    pub fn get_asset_class(&self) -> (r: &str)
        ensures
            r@ == self@.asset_class,
    {
        self.asset_class.as_str()
    }

    pub fn get_amount(&self) -> (r: N)
        ensures
            r == self@.amount,
    {
        self.amount
    }

    pub fn get_ticker(&self) -> (r: Option<&str>)
        ensures
            match r {
                Some(t) => self@.ticker == Some(t@),
                None => self@.ticker is None,
            },
    {
        match &self.ticker {
            Some(t) => Some(t.as_str()),
            None => None,
        }
    }

    pub fn get_name_option(&self) -> (r: Option<&str>)
        ensures
            match r {
                Some(n) => self@.name == Some(n@),
                None => self@.name is None,
            },
    {
        match &self.name {
            Some(n) => Some(n.as_str()),
            None => None,
        }
    }

    /// The last observed market price; none before the first refresh.
    pub fn get_last_spot(&self) -> (r: Option<N>)
        ensures
            r == self@.last_spot,
    {
        self.last_spot
    }

    pub fn set_amount(&mut self, amount: N)
        ensures
            final(self)@ == (PositionView { amount, ..old(self)@ }),
    {
        self.amount = amount;
    }

    pub fn get_interest_rate(&self) -> (r: Option<N>)
        ensures
            r == self@.interest_rate,
    {
        self.interest_rate
    }

    pub fn get_payment_frequency_days(&self) -> (r: Option<u32>)
        ensures
            r == self@.payment_frequency_days,
    {
        self.payment_frequency_days
    }

    pub fn get_last_interest_payment(&self) -> (r: Option<Moment>)
        ensures
            r == self@.last_interest_payment,
    {
        self.last_interest_payment
    }

    pub fn get_next_interest_payment(&self) -> (r: Option<Moment>)
        ensures
            r == self@.next_interest_payment,
    {
        self.next_interest_payment
    }

    pub fn set_interest_rate(&mut self, rate: Option<N>)
        ensures
            final(self)@ == (PositionView { interest_rate: rate, ..old(self)@ }),
    {
        self.interest_rate = rate;
    }

    pub fn set_payment_frequency_days(&mut self, days: Option<u32>)
        ensures
            final(self)@ == (PositionView { payment_frequency_days: days, ..old(self)@ }),
    {
        self.payment_frequency_days = days;
    }

    pub fn set_last_interest_payment(&mut self, date: Option<Moment>)
        ensures
            final(self)@ == (PositionView { last_interest_payment: date, ..old(self)@ }),
    {
        self.last_interest_payment = date;
    }

    pub fn set_next_interest_payment(&mut self, date: Option<Moment>)
        ensures
            final(self)@ == (PositionView { next_interest_payment: date, ..old(self)@ }),
    {
        self.next_interest_payment = date;
    }

    /// Whether the position is cash (in any letter case) with a rate, a payment
    /// frequency and a next due date.
    pub fn is_cash_with_interest(&self) -> (r: bool)
        ensures
            r == self@.is_cash_with_interest(),
    {
        let lowered = lowercase(self.asset_class.as_str());
        self.has_interest_terms(&lowered)
    }

    /// Whether a position whose asset class reads `lowered_class` in lowercase is
    /// cash with a rate, a payment frequency and a next due date.
    pub fn has_interest_terms(&self, lowered_class: &String) -> (r: bool)
        ensures
            r == (lowered_class@ == cash_class() && self@.interest_rate is Some
                && self@.payment_frequency_days is Some && self@.next_interest_payment is Some),
    {
        let cash = "cash".to_owned();
        proof {
            reveal_strlit("cash");
        }
        *lowered_class == cash && self.interest_rate.is_some()
            && self.payment_frequency_days.is_some() && self.next_interest_payment.is_some()
    }

    /// What the balance is made of.
    pub fn balance_terms(&self) -> (r: BalanceTerms<N>)
        ensures
            r == self@.balance_terms(),
    {
        match &self.ticker {
            Some(_) => BalanceTerms::Priced { spot: self.last_spot, quantity: self.amount },
            None => BalanceTerms::Direct(self.amount),
        }
    }

    /// The interest posting due at `current`, if any: none unless the position is
    /// cash with interest and `current` has reached the next due date. The period
    /// runs from the last posting (or, before the first, from the due date) to
    /// `current`; the next due date is a payment interval after `current`.
    pub fn due_accrual(&self, current: &Moment) -> (r: Option<AccrualStep>)
        requires
            self@.wf(),
            current.wf(),
            current.can_add_days(self@.frequency_days() as int),
        ensures
            r == self@.due_step(*current),
            r matches Some(s) ==> s.from.wf() && s.to.wf() && s.next_due.wf(),
    {
        if !self.is_cash_with_interest() {
            return None;
        }
        let next = self.next_interest_payment.unwrap();
        if current.is_before(&next) {
            return None;
        }
        let from = match self.last_interest_payment {
            Some(d) => d,
            None => next,
        };
        let frequency = match self.payment_frequency_days {
            Some(d) => d,
            None => DEFAULT_PAYMENT_FREQUENCY_DAYS,
        };
        let days = Moment::days_between(&from, current);
        let next_due = current.add_days(frequency);
        Some(AccrualStep { from, to: *current, days, next_due })
    }

    /// Posts `step`: the principal becomes `new_amount`, the step's end becomes
    /// the last payment and its next due date the next payment.
    pub fn record_accrual(&mut self, step: &AccrualStep, new_amount: N)
        ensures
            final(self)@ == old(self)@.after_posting(*step, new_amount),
    {
        self.amount = new_amount;
        self.last_interest_payment = Some(step.to);
        self.next_interest_payment = Some(step.next_due);
    }

    fn update_price(&mut self, last_spot: N)
        ensures
            final(self)@ == (PositionView { last_spot: Some(last_spot), ..old(self)@ }),
    {
        self.last_spot = Some(last_spot);
    }

    /// The first call that refreshing this position needs: a quote for its
    /// ticker, or nothing for a position without one.
    pub fn sync_start(&self) -> (r: SyncAction)
        ensures
            match r {
                SyncAction::FetchQuote(t) => self@.ticker == Some(t@),
                SyncAction::Done => self@.ticker is None,
                SyncAction::SearchName(_) => false,
            },
    {
        match &self.ticker {
            Some(t) => SyncAction::FetchQuote(t.clone()),
            None => SyncAction::Done,
        }
    }

    /// Takes the answer to a quote request: `live` is the live close, if the
    /// market gave one, and `history` the closes of the same answer in order.
    /// The price becomes the live close, else the last close of the history;
    /// with neither it stays as it was. A position without a ticker is left
    /// alone. The next call is a name search when the position has no name.
    pub fn sync_on_quote(&mut self, live: Option<N>, history: &Vec<N>) -> (r: SyncAction)
        ensures
            old(self)@.ticker is None ==> final(self)@ == old(self)@,
            old(self)@.ticker is Some ==> final(self)@ == (PositionView {
                last_spot: old(self)@.spot_after_quote(live, history@),
                ..old(self)@
            }),
            match r {
                SyncAction::SearchName(t) => final(self)@.name is None && final(self)@.ticker
                    == Some(t@),
                SyncAction::Done => final(self)@.name is Some || final(self)@.ticker is None,
                SyncAction::FetchQuote(_) => false,
            },
    {
        if self.ticker.is_none() {
            return SyncAction::Done;
        }
        match live {
            Some(p) => self.update_price(p),
            None => {
                if history.len() > 0 {
                    self.update_price(history[history.len() - 1]);
                }
            },
        }
        match (&self.name, &self.ticker) {
            (None, Some(t)) => SyncAction::SearchName(t.clone()),
            _ => SyncAction::Done,
        }
    }

    /// Takes the short names that a name search matched, best first: the first
    /// becomes the position's name. No match is an error that leaves the
    /// position as it was.
    pub fn sync_on_name_matches(&mut self, short_names: &Vec<String>) -> (r: Result<(), QuoteError>)
        ensures
            short_names@.len() == 0 ==> r == Err::<(), QuoteError>(QuoteError::NoResult)
                && final(self)@ == old(self)@,
            short_names@.len() > 0 ==> r == Ok::<(), QuoteError>(()) && final(self)@ == (
            PositionView { name: Some(short_names@[0]@), ..old(self)@ }),
    {
        if short_names.len() == 0 {
            return Err(QuoteError::NoResult);
        }
        self.name = Some(short_names[0].clone());
        Ok(())
    }

    /// A copy of the position as it stands.
    pub fn snapshot(&self) -> (r: Self)
        ensures
            r@ == self@,
    {
        let name = match &self.name {
            Some(n) => Some(n.clone()),
            None => None,
        };
        let ticker = match &self.ticker {
            Some(t) => Some(t.clone()),
            None => None,
        };
        PortfolioPosition {
            name,
            ticker,
            asset_class: self.asset_class.clone(),
            amount: self.amount,
            interest_rate: self.interest_rate,
            payment_frequency_days: self.payment_frequency_days,
            last_interest_payment: self.last_interest_payment,
            next_interest_payment: self.next_interest_payment,
            last_spot: self.last_spot,
        }
    }
}

} // verus!
