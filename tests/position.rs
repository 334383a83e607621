use portfolio::moment::Moment;
use portfolio::position::{BalanceTerms, PortfolioPosition, QuoteError, SyncAction};

const JAN_1_2025: i64 = 1735689600;
const JAN_31_2025: i64 = 1738281600;
const DAY: i64 = 86400;

fn at(secs: i64) -> Moment {
    Moment { secs, nanos: 0 }
}

fn savings() -> PortfolioPosition<f64> {
    let mut p = PortfolioPosition::new(
        Some("Test Savings".to_string()),
        None,
        "Cash".to_string(),
        1000.0,
    );
    p.set_interest_rate(Some(5.0));
    p.set_payment_frequency_days(Some(30));
    p
}

fn stock(name: Option<&str>) -> PortfolioPosition<f64> {
    PortfolioPosition::new(name.map(|n| n.to_string()), Some("AAPL".to_string()), "Stock".to_string(), 2.0)
}

#[test]
fn name_prefers_name_then_ticker_then_unknown() {
    assert_eq!(stock(Some("Apple Inc.")).get_name(), "Apple Inc.");
    assert_eq!(stock(None).get_name(), "AAPL");
    let bare: PortfolioPosition<f64> = PortfolioPosition::new(None, None, "Cash".to_string(), 5.0);
    assert_eq!(bare.get_name(), "Unknown");
}

#[test]
fn balance_without_ticker_is_amount() {
    let mut cash: PortfolioPosition<f64> = PortfolioPosition::new(None, None, "Cash".to_string(), 250.5);
    assert_eq!(cash.balance_terms(), BalanceTerms::Direct(250.5));
    assert!(matches!(cash.sync_on_quote(Some(9.0), &vec![1.0]), SyncAction::Done));
    assert_eq!(cash.get_last_spot(), None);
    assert_eq!(cash.balance_terms(), BalanceTerms::Direct(250.5));
}

#[test]
fn balance_with_ticker_is_spot_and_quantity() {
    let mut p = stock(Some("Apple Inc."));
    assert_eq!(p.balance_terms(), BalanceTerms::Priced { spot: None, quantity: 2.0 });
    p.sync_on_quote(Some(150.0), &vec![]);
    assert_eq!(p.balance_terms(), BalanceTerms::Priced { spot: Some(150.0), quantity: 2.0 });
}

#[test]
fn cash_with_interest_needs_every_term() {
    let mut p = savings();
    p.set_next_interest_payment(Some(at(JAN_31_2025)));
    assert!(p.is_cash_with_interest());

    let mut upper = PortfolioPosition::new(None, None, "CASH".to_string(), 1000.0);
    upper.set_interest_rate(Some(5.0));
    upper.set_payment_frequency_days(Some(30));
    upper.set_next_interest_payment(Some(at(JAN_31_2025)));
    assert!(upper.is_cash_with_interest());

    let mut stock_class = PortfolioPosition::new(None, None, "Stock".to_string(), 1000.0);
    stock_class.set_interest_rate(Some(5.0));
    stock_class.set_payment_frequency_days(Some(30));
    stock_class.set_next_interest_payment(Some(at(JAN_31_2025)));
    assert!(!stock_class.is_cash_with_interest());

    let mut no_rate = savings();
    no_rate.set_next_interest_payment(Some(at(JAN_31_2025)));
    no_rate.set_interest_rate(None);
    assert!(!no_rate.is_cash_with_interest());

    let mut no_frequency = savings();
    no_frequency.set_next_interest_payment(Some(at(JAN_31_2025)));
    no_frequency.set_payment_frequency_days(None);
    assert!(!no_frequency.is_cash_with_interest());

    let no_due_date = savings();
    assert!(!no_due_date.is_cash_with_interest());
}

#[test]
fn thirty_day_span_counts_thirty_days() {
    assert_eq!(Moment::days_between(&at(JAN_1_2025), &at(JAN_31_2025)), 30);
    assert_eq!(Moment::days_between(&at(JAN_31_2025), &at(JAN_1_2025)), -30);
    let almost = Moment { secs: JAN_1_2025 + DAY - 1, nanos: 999_999_999 };
    assert_eq!(Moment::days_between(&at(JAN_1_2025), &almost), 0);
    assert_eq!(Moment::days_between(&almost, &at(JAN_1_2025)), 0);
    let p = savings();
    let days = Moment::days_between(&at(JAN_1_2025), &at(JAN_31_2025)) as f64;
    let interest = p.get_amount() * (p.get_interest_rate().unwrap() / 100.0) * (days / 365.0);
    assert!((interest - 1000.0 * 0.05 * (30.0 / 365.0)).abs() < 0.01);
}

#[test]
fn due_accrual_is_posted_once() {
    let mut p = savings();
    let now = Moment { secs: JAN_31_2025 + 3600, nanos: 123 };
    p.set_last_interest_payment(Some(Moment { secs: now.secs - 30 * DAY, nanos: 123 }));
    p.set_next_interest_payment(Some(Moment { secs: now.secs - DAY, nanos: 123 }));

    let step = p.due_accrual(&now).expect("interest is due");
    assert_eq!(step.days, 30);
    assert_eq!(step.to, now);
    assert_eq!(step.next_due, Moment { secs: now.secs + 30 * DAY, nanos: 123 });
    let interest = p.get_amount() * (p.get_interest_rate().unwrap() / 100.0) * (step.days as f64 / 365.0);
    assert!(interest > 0.0);
    p.record_accrual(&step, p.get_amount() + interest);
    assert!(p.get_amount() > 1000.0);
    assert_eq!(p.get_last_interest_payment(), Some(now));
    assert_eq!(p.get_next_interest_payment(), Some(now.add_days(30)));

    let amount = p.get_amount();
    assert_eq!(p.due_accrual(&now), None);
    assert_eq!(p.get_amount(), amount);
}

#[test]
fn first_accrual_starts_at_due_date() {
    let mut p = savings();
    p.set_next_interest_payment(Some(at(JAN_1_2025)));
    let step = p.due_accrual(&at(JAN_31_2025)).unwrap();
    assert_eq!(step.from, at(JAN_1_2025));
    assert_eq!(step.days, 30);
}

#[test]
fn accrual_waits_for_due_date() {
    let mut p = savings();
    p.set_next_interest_payment(Some(at(JAN_31_2025)));
    assert_eq!(p.due_accrual(&at(JAN_31_2025 - 1)), None);
    assert!(p.due_accrual(&at(JAN_31_2025)).is_some());
}

#[test]
fn quote_prefers_live_close() {
    let mut p = stock(Some("Apple Inc."));
    assert!(matches!(p.sync_start(), SyncAction::FetchQuote(t) if t == "AAPL"));
    let next = p.sync_on_quote(Some(190.5), &vec![180.0, 185.0]);
    assert!(matches!(next, SyncAction::Done));
    assert_eq!(p.get_last_spot(), Some(190.5));
}

#[test]
fn quote_falls_back_to_last_history_close() {
    let mut p = stock(Some("Apple Inc."));
    p.sync_on_quote(None, &vec![180.0, 185.0]);
    assert_eq!(p.get_last_spot(), Some(185.0));
    p.sync_on_quote(None, &vec![]);
    assert_eq!(p.get_last_spot(), Some(185.0));
}

#[test]
fn quote_without_data_keeps_price() {
    let mut p = stock(Some("Apple Inc."));
    p.sync_on_quote(None, &vec![]);
    assert_eq!(p.get_last_spot(), None);
}

#[test]
fn missing_name_is_searched() {
    let mut p = stock(None);
    let next = p.sync_on_quote(Some(74.0), &vec![]);
    assert!(matches!(next, SyncAction::SearchName(t) if t == "AAPL"));
    assert_eq!(p.sync_on_name_matches(&vec![]), Err(QuoteError::NoResult));
    assert_eq!(p.get_name_option(), None);
    assert_eq!(p.sync_on_name_matches(&vec!["Apple Inc.".to_string(), "Other".to_string()]), Ok(()));
    assert_eq!(p.get_name(), "Apple Inc.");
    let copy = p.snapshot();
    assert_eq!(copy.get_name(), "Apple Inc.");
    assert_eq!(copy.get_ticker(), Some("AAPL"));
    assert_eq!(copy.get_last_spot(), Some(74.0));
}

#[test]
fn position_without_ticker_needs_no_quote() {
    let p: PortfolioPosition<f64> = PortfolioPosition::new(None, None, "Cash".to_string(), 1.0);
    assert!(matches!(p.sync_start(), SyncAction::Done));
}

#[test]
fn interest_terms_read_lowered_class() {
    let mut p = PortfolioPosition::new(None, None, "Savings".to_string(), 10.0);
    p.set_interest_rate(Some(1.5));
    p.set_payment_frequency_days(Some(7));
    p.set_next_interest_payment(Some(at(JAN_1_2025)));
    assert!(p.has_interest_terms(&"cash".to_string()));
    assert!(!p.has_interest_terms(&"Cash".to_string()));
    assert!(!p.has_interest_terms(&"savings".to_string()));
    assert!(!p.is_cash_with_interest());
}
