use rustygolem::calendar::{Month, RepublicanDate};
use rustygolem::civil::{count_on, CivilDate};

#[test]
fn from_year_and_day() {
    assert_eq!(
        RepublicanDate::from_yd(229, 114),
        Ok(RepublicanDate { year: 229, month: Month::Niv, day: 25 })
    );
    assert_eq!(RepublicanDate::from_yd(1, 0), Ok(RepublicanDate { year: 1, month: Month::Vnd, day: 1 }));
    assert_eq!(RepublicanDate::from_yd(1, 29), Ok(RepublicanDate { year: 1, month: Month::Vnd, day: 30 }));
    assert_eq!(RepublicanDate::from_yd(1, 30), Ok(RepublicanDate { year: 1, month: Month::Bru, day: 1 }));
    assert_eq!(RepublicanDate::from_yd(-3, 365), Ok(RepublicanDate { year: -3, month: Month::SC, day: 6 }));
    assert_eq!(RepublicanDate::from_yd(1, 389), Ok(RepublicanDate { year: 1, month: Month::SC, day: 30 }));
    assert_eq!(RepublicanDate::from_yd(1, 390), Err("Month cannot be strictly greater than 12"));
    assert_eq!(RepublicanDate::from_yd(1, 4000), Err("Month cannot be strictly greater than 12"));
    assert_eq!(RepublicanDate::from_yd(1, -1), Err("Month cannot be strictly greater than 12"));
    assert_eq!(RepublicanDate::from_yd(1, i64::MAX), Err("Month cannot be strictly greater than 12"));
    assert_eq!(RepublicanDate::from_yd(1, i64::MIN), Err("Month cannot be strictly greater than 12"));
}

#[test]
fn month_from_index() {
    assert_eq!(Month::from_index(0), Ok(Month::Vnd));
    assert_eq!(Month::from_index(3), Ok(Month::Niv));
    assert_eq!(Month::from_index(11), Ok(Month::Fru));
    assert_eq!(Month::from_index(12), Ok(Month::SC));
    assert_eq!(Month::from_index(13), Err("Month cannot be strictly greater than 12"));
    assert_eq!(Month::from_index(255), Err("Month cannot be strictly greater than 12"));
}

#[test]
fn month_names() {
    assert_eq!(Month::Vnd.name(), "Vendémiaire");
    assert_eq!(Month::Niv.name(), "Nivôse");
    assert_eq!(Month::The.name(), "Thermidor");
    assert_eq!(Month::SC.name(), "Sans-Culottides");
}

#[test]
fn day_names() {
    let names = [
        "Décadi", "Primedi", "Duodi", "Tridi", "Quartidi", "Quintidi", "Sextidi", "Septidi", "Octidi", "Nonidi",
    ];
    for day in 1u8..=30 {
        let date = RepublicanDate { year: 229, month: Month::Niv, day };
        assert_eq!(date.day_name(), names[(day % 10) as usize]);
    }
    assert_eq!(RepublicanDate { year: 229, month: Month::Niv, day: 25 }.day_name(), "Quintidi");
}

#[test]
fn day_symbols() {
    let symbol = |month, day| RepublicanDate { year: 1, month, day }.day_symbol();
    assert_eq!(symbol(Month::Vnd, 1), "du raisin");
    assert_eq!(symbol(Month::Vnd, 20), "du pressoir");
    assert_eq!(symbol(Month::SC, 5), "la fête des récompenses");
    assert_eq!(symbol(Month::SC, 6), "la fête de la révolution");
    assert_eq!(symbol(Month::SC, 7), "ERROR");
    assert_eq!(symbol(Month::Vnd, 0), "ERROR");
    assert_eq!(symbol(Month::Fru, 31), "ERROR");
    for month in [
        Month::Vnd, Month::Bru, Month::Fri, Month::Niv, Month::Plu, Month::Vnt, Month::Ger, Month::Flo,
        Month::Pra, Month::Mes, Month::The, Month::Fru,
    ] {
        for day in 1u8..=30 {
            assert_ne!(symbol(month, day), "ERROR");
        }
    }
}

#[test]
fn test_conversion() {
    assert_eq!(
        RepublicanDate::try_from(CivilDate { year: 2021, month: 1, day: 14 }),
        Ok(RepublicanDate { year: 229, month: Month::Niv, day: 25 })
    );
}

#[test]
fn conversion_starts_at_the_end_of_the_calendar() {
    assert_eq!(
        RepublicanDate::try_from(CivilDate { year: 1811, month: 9, day: 23 }),
        Ok(RepublicanDate { year: 20, month: Month::Vnd, day: 1 })
    );
    assert_eq!(
        RepublicanDate::try_from(CivilDate { year: 1811, month: 9, day: 22 }),
        Err("Can only convert date from after the official end of the calendar")
    );
    assert_eq!(
        RepublicanDate::try_from(CivilDate { year: 1789, month: 7, day: 14 }),
        Err("Can only convert date from after the official end of the calendar")
    );
}

#[test]
fn conversion_counts_leap_days() {
    assert_eq!(
        RepublicanDate::try_from(CivilDate { year: 1812, month: 9, day: 22 }),
        Ok(RepublicanDate { year: 20, month: Month::SC, day: 6 })
    );
    assert_eq!(
        RepublicanDate::try_from(CivilDate { year: 1812, month: 9, day: 23 }),
        Ok(RepublicanDate { year: 21, month: Month::Vnd, day: 1 })
    );
}

#[test]
fn conversion_refuses_what_is_no_date() {
    for (year, month, day) in [(2021, 2, 30), (2021, 0, 1), (2021, 13, 1), (2021, 4, 31), (2021, 1, 0)] {
        assert_eq!(
            RepublicanDate::try_from(CivilDate { year, month, day }),
            Err("Not a date of the civil calendar")
        );
    }
}

#[test]
fn conversion_refuses_dates_too_late_to_count() {
    assert_eq!(
        RepublicanDate::try_from(CivilDate { year: 9999, month: 12, day: 31 }),
        Err("Date is too far after the end of the calendar")
    );
}

#[test]
fn counting_on_from_the_start() {
    assert_eq!(count_on(10, 10, 100), Ok(100));
    assert_eq!(count_on(25, 10, 100), Ok(115));
    assert_eq!(count_on(9, 10, 100), Err("Can only convert date from after the official end of the calendar"));
    assert_eq!(count_on(i32::MAX, 0, 1), Err("Date is too far after the end of the calendar"));
    assert_eq!(count_on(i32::MAX, i32::MIN, i32::MIN), Ok(i32::MAX));
    assert_eq!(count_on(0, -1, i32::MIN), Ok(i32::MIN + 1));
    assert_eq!(count_on(5, 0, i32::MAX - 5), Ok(i32::MAX));
    assert_eq!(count_on(6, 0, i32::MAX - 5), Err("Date is too far after the end of the calendar"));
}

#[test]
fn date_in_padded_year() {
    assert_eq!(
        RepublicanDate::in_padded_year(2229, 115),
        Ok(RepublicanDate { year: 229, month: Month::Niv, day: 25 })
    );
    assert_eq!(
        RepublicanDate::in_padded_year(2020, 366),
        Ok(RepublicanDate { year: 20, month: Month::SC, day: 6 })
    );
    assert_eq!(
        RepublicanDate::in_padded_year(2020, 0),
        Err("Month cannot be strictly greater than 12")
    );
    assert_eq!(
        RepublicanDate::in_padded_year(i32::MIN + 1999, 1),
        Err("Date is too far after the end of the calendar")
    );
    assert_eq!(
        RepublicanDate::in_padded_year(i32::MIN + 2000, 1),
        Ok(RepublicanDate { year: i32::MIN, month: Month::Vnd, day: 1 })
    );
}
