use business_calendar::easter::{
    orthodox_easter_monday, supports_year, western_easter_monday, OrthodoxEasterMondayTable,
    WesternEasterMondayTable, FIRST_YEAR, LAST_YEAR,
};
use business_calendar::{Date, Weekday};

/// Day of the year of Western Easter Monday, 1901 to 2199.
const WESTERN: [u32; 299] = [
    98, 90, 103, 95, 114, 106, 91, 111, 102, 87, 107, 99, 83, 103, 95, 115, 99, 91, 111, 96, 87,
    107, 92, 112, 103, 95, 108, 100, 91, 111, 96, 88, 107, 92, 112, 104, 88, 108, 100, 85, 104,
    96, 116, 101, 92, 112, 97, 89, 108, 100, 85, 105, 96, 109, 101, 93, 112, 97, 89, 109, 93,
    113, 105, 90, 109, 101, 86, 106, 97, 89, 102, 94, 113, 105, 90, 110, 101, 86, 106, 98, 110,
    102, 94, 114, 98, 90, 110, 95, 86, 106, 91, 111, 102, 94, 107, 99, 90, 103, 95, 115, 106,
    91, 111, 103, 87, 107, 99, 84, 103, 95, 115, 100, 91, 111, 96, 88, 107, 92, 112, 104, 95,
    108, 100, 92, 111, 96, 88, 108, 92, 112, 104, 89, 108, 100, 85, 105, 96, 116, 101, 93, 112,
    97, 89, 109, 100, 85, 105, 97, 109, 101, 93, 113, 97, 89, 109, 94, 113, 105, 90, 110, 101,
    86, 106, 98, 89, 102, 94, 114, 105, 90, 110, 102, 86, 106, 98, 111, 102, 94, 114, 99, 90,
    110, 95, 87, 106, 91, 111, 103, 94, 107, 99, 91, 103, 95, 115, 107, 91, 111, 103, 88, 108,
    100, 85, 105, 96, 109, 101, 93, 112, 97, 89, 109, 93, 113, 105, 90, 109, 101, 86, 106, 97,
    89, 102, 94, 113, 105, 90, 110, 101, 86, 106, 98, 110, 102, 94, 114, 98, 90, 110, 95, 86,
    106, 91, 111, 102, 94, 107, 99, 90, 103, 95, 115, 106, 91, 111, 103, 87, 107, 99, 84, 103,
    95, 115, 100, 91, 111, 96, 88, 107, 92, 112, 104, 95, 108, 100, 92, 111, 96, 88, 108, 92,
    112, 104, 89, 108, 100, 85, 105, 96, 116, 101, 93, 112, 97, 89, 109, 100, 85, 105
];

/// Day of the year of Orthodox Easter Monday (Gregorian date), 1901 to 2199.
const ORTHODOX: [u32; 299] = [
    105, 118, 110, 102, 121, 106, 126, 118, 102, 122, 114, 99, 118, 110, 95, 115, 106, 126, 111,
    103, 122, 107, 99, 119, 110, 123, 115, 107, 126, 111, 103, 123, 107, 99, 119, 104, 123, 115,
    100, 120, 111, 96, 116, 108, 127, 112, 104, 124, 115, 100, 120, 112, 96, 116, 108, 128, 112,
    104, 124, 109, 100, 120, 105, 125, 116, 101, 121, 113, 104, 117, 109, 101, 120, 105, 125,
    117, 101, 121, 113, 98, 117, 109, 129, 114, 105, 125, 110, 102, 121, 106, 98, 118, 109, 122,
    114, 106, 118, 110, 102, 122, 106, 126, 118, 103, 122, 114, 99, 119, 110, 95, 115, 107, 126,
    111, 103, 123, 107, 99, 119, 111, 123, 115, 107, 127, 111, 103, 123, 108, 99, 119, 104, 124,
    115, 100, 120, 112, 96, 116, 108, 128, 112, 104, 124, 116, 100, 120, 112, 97, 116, 108, 128,
    113, 104, 124, 109, 101, 120, 105, 125, 117, 101, 121, 113, 105, 117, 109, 101, 121, 105,
    125, 110, 102, 121, 113, 98, 118, 109, 129, 114, 106, 125, 110, 102, 122, 106, 98, 118, 110,
    122, 114, 99, 119, 110, 102, 115, 107, 126, 118, 103, 123, 115, 100, 120, 112, 96, 116, 108,
    128, 112, 104, 124, 109, 100, 120, 105, 125, 116, 108, 121, 113, 104, 124, 109, 101, 120,
    105, 125, 117, 101, 121, 113, 98, 117, 109, 129, 114, 105, 125, 110, 102, 121, 113, 98, 118,
    109, 129, 114, 106, 125, 110, 102, 122, 106, 126, 118, 103, 122, 114, 99, 119, 110, 102,
    115, 107, 126, 111, 103, 123, 114, 99, 119, 111, 130, 115, 107, 127, 111, 103, 123, 108, 99,
    119, 104, 124, 115, 100, 120, 112, 103, 116, 108, 128, 119, 104, 124, 116, 100, 120, 112
];

#[test]
fn western_easter_monday_agrees_with_the_tables() {
    for year in FIRST_YEAR..=LAST_YEAR {
        let expected = WESTERN[(year - FIRST_YEAR) as usize];
        assert_eq!(western_easter_monday(year), expected, "year {}", year);
        assert_eq!(WesternEasterMondayTable::western(year), expected, "year {}", year);
    }
}

#[test]
fn orthodox_easter_monday_agrees_with_the_tables() {
    for year in FIRST_YEAR..=LAST_YEAR {
        let expected = ORTHODOX[(year - FIRST_YEAR) as usize];
        assert_eq!(orthodox_easter_monday(year), expected, "year {}", year);
        assert_eq!(OrthodoxEasterMondayTable::orthodox(year), expected, "year {}", year);
    }
}

#[test]
fn easter_monday_of_known_years() {
    // 2025: both churches keep Easter on April 20, so Monday is April 21.
    assert_eq!(western_easter_monday(2025), 111);
    assert_eq!(orthodox_easter_monday(2025), 111);
    // 2024: March 31 in the West (Monday April 1, a leap year), May 5 in the East.
    assert_eq!(western_easter_monday(2024), 92);
    assert_eq!(orthodox_easter_monday(2024), 127);
    // The earliest and the latest Western Easter of the range.
    assert_eq!(western_easter_monday(1913), 83); // March 24
    assert_eq!(western_easter_monday(2008), 84); // March 24, leap year
    assert_eq!(western_easter_monday(1943), 116); // April 26
    assert_eq!(western_easter_monday(2038), 116); // April 26
    // Years in which the full moon is set a day early.
    assert_eq!(western_easter_monday(1954), 109); // April 19
    assert_eq!(western_easter_monday(1981), 110); // April 20
    assert_eq!(western_easter_monday(2019), 112); // April 22
    assert_eq!(western_easter_monday(2049), 109); // April 19
    // After 2100 the two calendars lie 14 days apart.
    assert_eq!(orthodox_easter_monday(2100), 123); // May 3
    assert_eq!(orthodox_easter_monday(2199), 112);
    // The ends of the range.
    assert_eq!(western_easter_monday(1901), 98);
    assert_eq!(western_easter_monday(2199), 105);
    assert_eq!(orthodox_easter_monday(1901), 105);
}

#[test]
fn easter_monday_is_a_monday() {
    for year in FIRST_YEAR..=LAST_YEAR {
        let new_year = Date::ymd(year, 1, 1);
        let western = new_year.add_days(western_easter_monday(year) as i32 - 1);
        assert_eq!(western.weekday(), Weekday::Mon, "year {}", year);
        assert_eq!(western.year(), year);
        assert!(western.month() == 3 || western.month() == 4);
        let orthodox = new_year.add_days(orthodox_easter_monday(year) as i32 - 1);
        assert_eq!(orthodox.weekday(), Weekday::Mon, "year {}", year);
        assert!(orthodox.month() == 4 || orthodox.month() == 5);
    }
}

#[test]
fn orthodox_easter_is_never_before_the_western_one() {
    for year in FIRST_YEAR..=LAST_YEAR {
        assert!(orthodox_easter_monday(year) >= western_easter_monday(year), "year {}", year);
    }
}

#[test]
fn supported_years_are_1901_to_2199() {
    assert_eq!(FIRST_YEAR, 1901);
    assert_eq!(LAST_YEAR, 2199);
    assert!(!supports_year(1900));
    assert!(supports_year(1901));
    assert!(supports_year(2025));
    assert!(supports_year(2199));
    assert!(!supports_year(2200));
    assert!(!supports_year(i32::MIN));
    assert!(!supports_year(i32::MAX));
}
