use business_calendar::markets::fr::exchange::fr_exchange;
use business_calendar::markets::fr::settlement::fr_settlement;
use business_calendar::markets::fr::{FRMarket, France};
use business_calendar::markets::uk::exchange::uk_exchange;
use business_calendar::markets::uk::settlement::uk_settlement;
use business_calendar::markets::uk::{UKMarket, UnitedKingdom};
use business_calendar::markets::us::fed::us_fed;
use business_calendar::markets::us::gov_bond::us_government_bond;
use business_calendar::markets::us::nerc::us_nerc;
use business_calendar::markets::us::nyse::us_nyse;
use business_calendar::markets::us::settlement::us_settlement;
use business_calendar::markets::us::sofr::us_sofr;
use business_calendar::markets::us::{USMarket, UnitedStates, LIBOR_IMPACT_SINCE};
use business_calendar::static_calendar::StaticCalendar;
use business_calendar::{Calendar, Date, Weekday};

fn every_day_of(year: i32) -> Vec<Date> {
    let mut days = Vec::new();
    let mut day = Date::ymd(year, 1, 1);
    while day.year() == year {
        days.push(day);
        day = day.add_days(1);
    }
    days
}

fn holidays_of<C: Calendar>(calendar: &C, year: i32) -> Vec<(u32, u32)> {
    every_day_of(year)
        .into_iter()
        .filter(|day| calendar.is_holiday(*day))
        .map(|day| (day.month(), day.day()))
        .collect()
}

fn assert_one_of_three<C: Calendar>(calendar: &C, year: i32) {
    for day in every_day_of(year) {
        let business = calendar.is_business_day(day);
        let weekend = calendar.is_weekend(day);
        let holiday = calendar.is_holiday(day);
        assert_eq!(business, !weekend && !holiday);
        assert_eq!(holiday, !business && !weekend);
        assert_eq!([business, weekend, holiday].iter().filter(|&&b| b).count(), 1);
        let saturday_or_sunday = matches!(day.weekday(), Weekday::Sat | Weekday::Sun);
        assert_eq!(weekend, saturday_or_sunday);
        assert_eq!(business, calendar.is_business_day(day));
        assert_eq!(weekend, calendar.is_weekend(day));
        assert_eq!(holiday, calendar.is_holiday(day));
    }
}

const YEARS: [i32; 8] = [1995, 2002, 2012, 2015, 2021, 2022, 2024, 2025];

#[test]
fn every_day_is_one_of_three_in_the_united_states() {
    let markets = [
        USMarket::Settlement,
        USMarket::LiborImpact,
        USMarket::NYSE,
        USMarket::GovernmentBond,
        USMarket::SOFR,
        USMarket::NERC,
        USMarket::FederalReserve,
    ];
    for market in markets {
        for year in YEARS {
            assert_one_of_three(&UnitedStates::new(market), year);
        }
    }
}

#[test]
fn every_day_is_one_of_three_in_the_united_kingdom() {
    for market in [UKMarket::Settlement, UKMarket::Exchange, UKMarket::Metals] {
        for year in YEARS {
            assert_one_of_three(&UnitedKingdom::new(market), year);
        }
    }
}

#[test]
fn every_day_is_one_of_three_in_france() {
    for market in [FRMarket::Settlement, FRMarket::Exchange] {
        for year in YEARS {
            assert_one_of_three(&France::new(market), year);
        }
    }
}

#[test]
fn every_day_is_one_of_three_outside_the_years_of_easter() {
    for year in [1900, 2200, 1, 0, -44] {
        assert_one_of_three(&UnitedStates::new(USMarket::NYSE), year);
        assert_one_of_three(&UnitedKingdom::new(UKMarket::Exchange), year);
        assert_one_of_three(&France::new(FRMarket::Exchange), year);
    }
}

#[test]
fn new_makes_the_calendar_of_the_market() {
    assert!(matches!(UnitedStates::new(USMarket::SOFR).market, USMarket::SOFR));
    assert!(matches!(UnitedStates::new(USMarket::NYSE).market, USMarket::NYSE));
    assert!(matches!(UnitedKingdom::new(UKMarket::Metals).market, UKMarket::Metals));
    assert!(matches!(France::new(FRMarket::Exchange).market, FRMarket::Exchange));
}

#[test]
fn calendars_have_their_names_and_weekends() {
    let calendars: Vec<(StaticCalendar, &str, usize)> = vec![
        (us_settlement(), "US Settlement", 11),
        (us_fed(), "US Federal Reserve", 11),
        (us_nyse(), "US NYSE", 19),
        (us_government_bond(), "US Government Bond", 15),
        (us_sofr(), "US SOFR", 15),
        (us_nerc(), "US NERC", 6),
        (uk_settlement(), "UK Settlement", 8),
        (uk_exchange(), "UK Exchange", 25),
        (fr_settlement(), "France Settlement", 11),
        (fr_exchange(), "France Exchange", 8),
    ];
    for (calendar, name, rules) in calendars {
        assert_eq!(calendar.name, name);
        assert_eq!(calendar.weekend, [Weekday::Sat, Weekday::Sun]);
        assert_eq!(calendar.rules.len(), rules, "{}", name);
    }
}

#[test]
fn the_market_is_the_calendar_behind_it() {
    for year in [2001, 2012, 2018, 2022, 2025] {
        for day in every_day_of(year) {
            let us = |market| UnitedStates::new(market).is_business_day(day);
            assert_eq!(us(USMarket::Settlement), us_settlement().is_business_day(day));
            assert_eq!(us(USMarket::NYSE), us_nyse().is_business_day(day));
            assert_eq!(us(USMarket::GovernmentBond), us_government_bond().is_business_day(day));
            assert_eq!(us(USMarket::SOFR), us_sofr().is_business_day(day));
            assert_eq!(us(USMarket::SOFR), us(USMarket::GovernmentBond));
            assert_eq!(us(USMarket::NERC), us_nerc().is_business_day(day));
            assert_eq!(us(USMarket::FederalReserve), us_fed().is_business_day(day));
            let uk = |market| UnitedKingdom::new(market).is_business_day(day);
            assert_eq!(uk(UKMarket::Settlement), uk_settlement().is_business_day(day));
            assert_eq!(uk(UKMarket::Exchange), uk_exchange().is_business_day(day));
            assert_eq!(uk(UKMarket::Metals), uk_exchange().is_business_day(day));
            let fr = |market| France::new(market).is_business_day(day);
            assert_eq!(fr(FRMarket::Settlement), fr_settlement().is_business_day(day));
            assert_eq!(fr(FRMarket::Exchange), fr_exchange().is_business_day(day));
        }
    }
}

#[test]
fn nyse_holidays_of_2025() {
    let nyse = UnitedStates::new(USMarket::NYSE);
    let expected = vec![
        (1, 1),   // New Year's Day
        (1, 20),  // Martin Luther King Jr. Day
        (2, 17),  // Washington's Birthday
        (4, 18),  // Good Friday
        (5, 26),  // Memorial Day
        (6, 19),  // Juneteenth
        (7, 4),   // Independence Day
        (9, 1),   // Labor Day
        (11, 27), // Thanksgiving Day
        (12, 25), // Christmas Day
    ];
    assert_eq!(holidays_of(&nyse, 2025), expected);
}

#[test]
fn settlement_holidays_of_2024() {
    let settlement = UnitedStates::new(USMarket::Settlement);
    let expected = vec![
        (1, 1),   // New Year's Day
        (1, 15),  // Martin Luther King Jr. Day
        (2, 19),  // Washington's Birthday
        (5, 27),  // Memorial Day
        (6, 19),  // Juneteenth
        (7, 4),   // Independence Day
        (9, 2),   // Labor Day
        (10, 14), // Columbus Day
        (11, 11), // Veterans Day
        (11, 28), // Thanksgiving Day
        (12, 25), // Christmas Day
    ];
    assert_eq!(holidays_of(&settlement, 2024), expected);
    assert_eq!(holidays_of(&UnitedStates::new(USMarket::FederalReserve), 2024), expected);
}

#[test]
fn government_bond_holidays_of_2012() {
    let bonds = UnitedStates::new(USMarket::GovernmentBond);
    let expected = vec![
        (1, 2),   // New Year's Day, a Sunday, observed on Monday
        (1, 16),  // Martin Luther King Jr. Day
        (2, 20),  // Washington's Birthday
        (4, 6),   // Good Friday
        (5, 28),  // Memorial Day
        (7, 4),   // Independence Day
        (9, 3),   // Labor Day
        (10, 8),  // Columbus Day
        (10, 30), // Hurricane Sandy
        (11, 12), // Veterans Day, a Sunday, observed on Monday
        (11, 22), // Thanksgiving Day
        (12, 25), // Christmas Day
    ];
    assert_eq!(holidays_of(&bonds, 2012), expected);
    assert_eq!(holidays_of(&UnitedStates::new(USMarket::SOFR), 2012), expected);
}

#[test]
fn nerc_holidays_of_2026() {
    let nerc = UnitedStates::new(USMarket::NERC);
    // Independence Day is a Saturday in 2026 and is observed on Friday.
    let expected = vec![(1, 1), (5, 25), (7, 3), (9, 7), (11, 26), (12, 25)];
    assert_eq!(holidays_of(&nerc, 2026), expected);
}

#[test]
fn uk_settlement_holidays_of_2025() {
    let uk = UnitedKingdom::new(UKMarket::Settlement);
    let expected = vec![
        (1, 1),   // New Year's Day
        (4, 18),  // Good Friday
        (4, 21),  // Easter Monday
        (5, 5),   // Early May Bank Holiday
        (5, 26),  // Spring Bank Holiday
        (8, 25),  // Summer Bank Holiday
        (12, 25), // Christmas Day
        (12, 26), // Boxing Day
    ];
    assert_eq!(holidays_of(&uk, 2025), expected);
    assert_eq!(holidays_of(&UnitedKingdom::new(UKMarket::Exchange), 2025), expected);
}

#[test]
fn uk_exchange_holidays_of_2022() {
    let uk = UnitedKingdom::new(UKMarket::Exchange);
    let expected = vec![
        (1, 3),   // New Year's Day... see below
        (4, 15),  // Good Friday
        (4, 18),  // Easter Monday
        (5, 2),   // Early May Bank Holiday
        (6, 2),   // Spring Bank Holiday, moved for the Platinum Jubilee
        (6, 3),   // Platinum Jubilee
        (8, 29),  // Summer Bank Holiday
        (9, 19),  // Queen's Funeral
        (12, 26), // Boxing Day; Christmas Day, a Sunday, observed on Monday
    ];
    let mut found = holidays_of(&uk, 2022);
    // New Year's Day 2022 is a Saturday, and the Friday before it lies in
    // December: no day is observed for it.
    assert!(!found.contains(&(1, 3)));
    found.insert(0, (1, 3));
    assert_eq!(found, expected);
}

#[test]
fn france_holidays_of_2025() {
    let settlement = France::new(FRMarket::Settlement);
    let expected = vec![
        (1, 1),   // New Year's Day
        (4, 21),  // Easter Monday
        (5, 1),   // Labour Day
        (5, 8),   // Armistice 1945
        (5, 21),  // Pentecost, on its fixed date (May 10 is a Saturday)
        (7, 14),  // National day
        (8, 15),  // Assumption
        (11, 11), // Armistice 1918 (November 1 is a Saturday)
        (12, 25), // Christmas Day
    ];
    assert_eq!(holidays_of(&settlement, 2025), expected);
    let exchange = France::new(FRMarket::Exchange);
    let expected = vec![(1, 1), (4, 18), (4, 21), (5, 1), (12, 24), (12, 25), (12, 26), (12, 31)];
    assert_eq!(holidays_of(&exchange, 2025), expected);
}

#[test]
fn new_years_day_on_a_saturday_is_not_observed_on_the_friday_before() {
    let nyse = UnitedStates::new(USMarket::NYSE);
    let friday = Date::ymd(2021, 12, 31);
    let saturday = Date::ymd(2022, 1, 1);
    assert_eq!(friday.weekday(), Weekday::Fri);
    assert_eq!(saturday.weekday(), Weekday::Sat);
    // The Friday lies in another month and year: it stays a business day.
    assert!(nyse.is_business_day(friday));
    assert!(!nyse.is_holiday(friday));
    // The rule fires on January 1 itself, which counts as weekend.
    assert!(us_nyse().is_holiday(saturday));
    assert!(nyse.is_weekend(saturday));
    assert!(!nyse.is_holiday(saturday));
    assert!(!nyse.is_business_day(saturday));
    assert!(nyse.is_business_day(Date::ymd(2022, 1, 3)));
}

#[test]
fn new_years_day_on_a_sunday_is_observed_on_monday() {
    let nyse = UnitedStates::new(USMarket::NYSE);
    assert_eq!(Date::ymd(2023, 1, 1).weekday(), Weekday::Sun);
    assert!(nyse.is_weekend(Date::ymd(2023, 1, 1)));
    assert!(nyse.is_holiday(Date::ymd(2023, 1, 2)));
    assert!(!nyse.is_business_day(Date::ymd(2023, 1, 2)));
    assert!(nyse.is_business_day(Date::ymd(2023, 1, 3)));
}

#[test]
fn independence_day_on_a_saturday_is_observed_on_friday() {
    let settlement = UnitedStates::new(USMarket::Settlement);
    assert_eq!(Date::ymd(2020, 7, 4).weekday(), Weekday::Sat);
    assert!(settlement.is_holiday(Date::ymd(2020, 7, 3)));
    assert!(!settlement.is_business_day(Date::ymd(2020, 7, 3)));
    assert!(settlement.is_weekend(Date::ymd(2020, 7, 4)));
    assert!(settlement.is_business_day(Date::ymd(2020, 7, 6)));
}

#[test]
fn juneteenth_starts_in_2022() {
    let settlement = UnitedStates::new(USMarket::Settlement);
    // 2021-06-18 is a Friday, 2021-06-19 a Saturday.
    assert!(settlement.is_business_day(Date::ymd(2021, 6, 18)));
    // 2022-06-19 is a Sunday, observed on Monday.
    assert!(settlement.is_holiday(Date::ymd(2022, 6, 20)));
    assert!(settlement.is_holiday(Date::ymd(2023, 6, 19)));
    assert!(settlement.is_holiday(Date::ymd(2024, 6, 19)));
    assert_eq!(Date::ymd(2024, 6, 19).weekday(), Weekday::Wed);
}

#[test]
fn martin_luther_king_day_came_late_to_the_nyse() {
    let nyse = UnitedStates::new(USMarket::NYSE);
    let settlement = UnitedStates::new(USMarket::Settlement);
    // 1997-01-20 and 1998-01-19 are third Mondays of January.
    assert!(nyse.is_business_day(Date::ymd(1997, 1, 20)));
    assert!(settlement.is_holiday(Date::ymd(1997, 1, 20)));
    assert!(nyse.is_holiday(Date::ymd(1998, 1, 19)));
    assert!(settlement.is_holiday(Date::ymd(1998, 1, 19)));
    assert!(settlement.is_business_day(Date::ymd(1982, 1, 18)));
    assert!(settlement.is_holiday(Date::ymd(1983, 1, 17)));
}

#[test]
fn nyse_closures_of_single_days() {
    let nyse = UnitedStates::new(USMarket::NYSE);
    let settlement = UnitedStates::new(USMarket::Settlement);
    let closed = [
        (2018, 12, 5),
        (2012, 10, 29),
        (2012, 10, 30),
        (2007, 1, 2),
        (2004, 6, 11),
        (2001, 9, 11),
        (2001, 9, 12),
        (2001, 9, 13),
        (2001, 9, 14),
    ];
    for (y, m, d) in closed {
        assert!(nyse.is_holiday(Date::ymd(y, m, d)));
        assert!(settlement.is_business_day(Date::ymd(y, m, d)));
        assert!(nyse.is_business_day(Date::ymd(y + 1, m, d)) || nyse.is_weekend(Date::ymd(y + 1, m, d)));
    }
    assert!(nyse.is_business_day(Date::ymd(2001, 9, 10)));
    assert!(nyse.is_business_day(Date::ymd(2001, 9, 17)));
    // The bond market stayed open on the first day of the hurricane.
    let bonds = UnitedStates::new(USMarket::GovernmentBond);
    assert!(bonds.is_business_day(Date::ymd(2012, 10, 29)));
    assert!(bonds.is_holiday(Date::ymd(2012, 10, 30)));
}

#[test]
fn good_friday_closes_the_bond_market() {
    let bonds = UnitedStates::new(USMarket::GovernmentBond);
    let settlement = UnitedStates::new(USMarket::Settlement);
    // 2025: Easter Monday is April 21, Good Friday April 18.
    let good_friday = Date::ymd(2025, 4, 18);
    assert_eq!(good_friday.weekday(), Weekday::Fri);
    assert!(!bonds.is_business_day(good_friday));
    assert!(bonds.is_holiday(good_friday));
    assert!(settlement.is_business_day(good_friday));
    assert!(bonds.is_business_day(Date::ymd(2025, 4, 17)));
    // The day after is a Saturday; the next day that can be open is Monday.
    assert!(bonds.is_weekend(Date::ymd(2025, 4, 19)));
    assert!(!bonds.is_business_day(Date::ymd(2025, 4, 19)));
    assert!(bonds.is_business_day(Date::ymd(2025, 4, 21)));
    for (y, m, d) in [(2024, 3, 29), (2019, 4, 19), (2000, 4, 21), (1901, 4, 5), (2199, 4, 12)] {
        assert_eq!(Date::ymd(y, m, d).weekday(), Weekday::Fri);
        assert!(bonds.is_holiday(Date::ymd(y, m, d)));
    }
}

#[test]
fn libor_keeps_the_days_beside_independence_day_open() {
    let libor = UnitedStates::new(USMarket::LiborImpact);
    let settlement = UnitedStates::new(USMarket::Settlement);
    assert_eq!(LIBOR_IMPACT_SINCE, 2015);
    // 2015 and 2020: July 4 is a Saturday, observed on Friday July 3.
    for year in [2015, 2020, 2026] {
        let friday = Date::ymd(year, 7, 3);
        assert_eq!(friday.weekday(), Weekday::Fri);
        assert!(settlement.is_holiday(friday));
        assert!(libor.is_business_day(friday));
        assert!(!libor.is_holiday(friday));
    }
    // 2021: July 4 is a Sunday, observed on Monday July 5.
    let monday = Date::ymd(2021, 7, 5);
    assert_eq!(monday.weekday(), Weekday::Mon);
    assert!(settlement.is_holiday(monday));
    assert!(libor.is_business_day(monday));
    // Before 2015 the Libor market follows settlement.
    for (y, m, d) in [(2009, 7, 3), (2014, 7, 4), (2010, 7, 5)] {
        let day = Date::ymd(y, m, d);
        assert!(settlement.is_holiday(day));
        assert!(libor.is_holiday(day));
    }
    // July 4 itself on a weekday closes both.
    assert!(libor.is_holiday(Date::ymd(2025, 7, 4)));
    assert!(libor.is_holiday(Date::ymd(2023, 7, 4)));
    // A July 3 or 5 that is no Friday or Monday is an ordinary day.
    assert!(libor.is_business_day(Date::ymd(2025, 7, 3)));
    assert!(libor.is_weekend(Date::ymd(2025, 7, 5)));
    assert!(!libor.is_business_day(Date::ymd(2025, 7, 5)));
}

#[test]
fn libor_differs_from_settlement_only_beside_independence_day() {
    let libor = UnitedStates::new(USMarket::LiborImpact);
    let settlement = UnitedStates::new(USMarket::Settlement);
    for year in 2005..=2030 {
        for day in every_day_of(year) {
            assert_eq!(libor.is_weekend(day), settlement.is_weekend(day));
            if settlement.is_business_day(day) {
                assert!(libor.is_business_day(day));
            }
            if libor.is_business_day(day) != settlement.is_business_day(day) {
                assert!(year >= 2015);
                assert_eq!(day.month(), 7);
                assert!(day.day() == 3 || day.day() == 5);
                assert!(libor.is_business_day(day));
            }
        }
    }
}

#[test]
fn uk_bank_holidays_moved_for_special_days() {
    let exchange = UnitedKingdom::new(UKMarket::Exchange);
    let settlement = UnitedKingdom::new(UKMarket::Settlement);
    // 1995 and 2020: the first Monday of May is open, May 8 is closed.
    assert_eq!(Date::ymd(1995, 5, 1).weekday(), Weekday::Mon);
    assert!(exchange.is_business_day(Date::ymd(1995, 5, 1)));
    assert!(!exchange.is_business_day(Date::ymd(1995, 5, 8)));
    assert!(exchange.is_business_day(Date::ymd(2020, 5, 4)));
    assert!(exchange.is_holiday(Date::ymd(2020, 5, 8)));
    assert!(settlement.is_holiday(Date::ymd(1995, 5, 1)));
    assert!(exchange.is_holiday(Date::ymd(1994, 5, 2)));
    assert!(exchange.is_holiday(Date::ymd(1996, 5, 6)));
    assert!(exchange.is_holiday(Date::ymd(2019, 5, 6)));
    assert!(exchange.is_holiday(Date::ymd(2021, 5, 3)));
    // 2002, 2012, 2022: the last Monday of May is open.
    for (y, m, d) in [(2002, 5, 27), (2012, 5, 28), (2022, 5, 30)] {
        assert_eq!(Date::ymd(y, m, d).weekday(), Weekday::Mon);
        assert!(exchange.is_business_day(Date::ymd(y, m, d)));
        assert!(settlement.is_holiday(Date::ymd(y, m, d)));
    }
    assert!(!exchange.is_business_day(Date::ymd(2002, 6, 3)));
    assert!(!exchange.is_business_day(Date::ymd(2002, 6, 4)));
    assert!(exchange.is_business_day(Date::ymd(2002, 6, 5)));
    for (y, m, d) in [(2001, 5, 28), (2003, 5, 26), (2011, 5, 30), (2013, 5, 27), (2023, 5, 29)] {
        assert!(exchange.is_holiday(Date::ymd(y, m, d)));
    }
    // The last day of 1999.
    assert!(exchange.is_holiday(Date::ymd(1999, 12, 31)));
    assert!(settlement.is_business_day(Date::ymd(1999, 12, 31)));
    assert!(exchange.is_business_day(Date::ymd(1998, 12, 31)));
}

#[test]
fn france_keeps_fixed_dates_without_adjustment() {
    let settlement = France::new(FRMarket::Settlement);
    // 2024-07-14 is a Sunday: weekend, and the Monday after is open.
    assert!(settlement.is_weekend(Date::ymd(2024, 7, 14)));
    assert!(!settlement.is_holiday(Date::ymd(2024, 7, 14)));
    assert!(settlement.is_business_day(Date::ymd(2024, 7, 15)));
    let exchange = France::new(FRMarket::Exchange);
    assert!(exchange.is_business_day(Date::ymd(2025, 7, 14)));
    assert!(exchange.is_holiday(Date::ymd(2025, 4, 18)));
    assert!(settlement.is_business_day(Date::ymd(2025, 4, 18)));
}
