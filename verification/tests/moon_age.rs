use lunoxide::moon::{moon_age_since, MILLIS_PER_SECOND, SYNODIC_MONTH};
use lunoxide::{calc_moon_age, current_phase, known_new_moon, phase_at, MoonAge, MoonPhase, Timestamp};

const MILLIS_PER_DAY: f64 = 86_400_000.0;

fn utc(year: i32, month: u32, day: u32, hour: u32, minute: u32, second: u32) -> Timestamp {
    Timestamp::from_utc(year, month, day, hour, minute, second).unwrap()
}

fn age(millis: i64) -> MoonAge {
    MoonAge { millis }
}

fn banded(percent: i64) -> MoonPhase {
    match percent {
        0..=1 | 99..=100 => MoonPhase::NewMoon,
        2..=23 => MoonPhase::WaxingCrescent,
        24..=26 => MoonPhase::FirstQuarter,
        27..=48 => MoonPhase::WaxingGibbous,
        49..=51 => MoonPhase::FullMoon,
        52..=73 => MoonPhase::WaningGibbous,
        74..=76 => MoonPhase::LastQuarter,
        77..=98 => MoonPhase::WaningCrescent,
        _ => MoonPhase::Unknown,
    }
}

#[test]
fn the_synodic_month_is_29_53059_days() {
    assert_eq!(SYNODIC_MONTH, 2_551_442_976);
    assert_eq!(MILLIS_PER_SECOND, 1_000);
    assert_eq!(SYNODIC_MONTH as f64 / MILLIS_PER_DAY, 29.53059);
}

#[test]
fn the_known_new_moon_is_the_first_of_january_1900() {
    assert_eq!(known_new_moon().unix_seconds(), -2_208_988_800);
    assert_eq!(known_new_moon().unix_seconds(), utc(1900, 1, 1, 0, 0, 0).unix_seconds());
}

#[test]
fn at_the_known_new_moon_the_age_is_zero_and_the_moon_is_new() {
    let date = utc(1900, 1, 1, 0, 0, 0);
    let moon_age = calc_moon_age(date);
    assert_eq!(moon_age, age(0));
    assert_eq!(moon_age.millis as f64 / MILLIS_PER_DAY, 0.0);
    let phase = current_phase(moon_age);
    assert_eq!(phase, MoonPhase::NewMoon);
    assert_eq!(phase.name(), Some("New Moon"));
    assert_eq!(phase.glyph(), Some("🌑"));
    assert_eq!(phase.to_string(), "🌑, New Moon");
}

#[test]
fn the_known_new_moon_plus_14_76_days_is_full_moon() {
    let seconds = (14.76 * 86_400.0) as i64;
    assert_eq!(seconds, 1_275_264);
    let date = Timestamp::from_unix_seconds(known_new_moon().unix_seconds() + seconds).unwrap();
    assert_eq!(date.unix_seconds(), utc(1900, 1, 15, 18, 14, 24).unix_seconds());
    let moon_age = calc_moon_age(date);
    assert_eq!(moon_age, age(1_275_264_000));
    assert_eq!(moon_age.millis as f64 / MILLIS_PER_DAY, 14.76);
    assert_eq!(moon_age.percent(), 50);
    let phase = current_phase(moon_age);
    assert_eq!(phase, MoonPhase::FullMoon);
    assert_eq!(phase.name(), Some("Full Moon"));
    assert_eq!(phase_at(date), MoonPhase::FullMoon);
}

#[test]
fn calc_moon_age_on_known_dates() {
    assert_eq!(calc_moon_age(utc(2000, 1, 1, 0, 0, 0)), age(2_090_081_664));
    assert_eq!(calc_moon_age(utc(2024, 4, 8, 0, 0, 0)), age(2_506_788_864));
    assert_eq!(calc_moon_age(utc(2024, 4, 8, 18, 0, 0)), age(20_145_888));
    assert_eq!(calc_moon_age(utc(2026, 10, 28, 12, 0, 0)), age(1_515_013_632));
    assert_eq!(calc_moon_age(utc(1969, 7, 20, 20, 17, 0)), age(564_860_640));
    assert_eq!(calc_moon_age(utc(1900, 1, 30, 0, 0, 0)), age(2_505_600_000));
    assert_eq!(calc_moon_age(utc(1900, 1, 31, 0, 0, 0)), age(40_557_024));
}

#[test]
fn phase_on_known_dates() {
    assert_eq!(phase_at(utc(2000, 1, 1, 0, 0, 0)), MoonPhase::WaningCrescent);
    assert_eq!(phase_at(utc(2024, 4, 8, 0, 0, 0)), MoonPhase::WaningCrescent);
    assert_eq!(phase_at(utc(2024, 4, 8, 18, 0, 0)), MoonPhase::NewMoon);
    assert_eq!(phase_at(utc(2024, 4, 9, 0, 0, 0)), MoonPhase::WaxingCrescent);
    assert_eq!(phase_at(utc(2026, 10, 28, 12, 0, 0)), MoonPhase::WaningGibbous);
    assert_eq!(phase_at(utc(1969, 7, 20, 20, 17, 0)), MoonPhase::WaxingCrescent);
    assert_eq!(phase_at(utc(1900, 1, 8, 0, 0, 0)), MoonPhase::FirstQuarter);
    assert_eq!(phase_at(utc(1900, 1, 16, 0, 0, 0)), MoonPhase::FullMoon);
    assert_eq!(phase_at(utc(1900, 1, 23, 0, 0, 0)), MoonPhase::LastQuarter);
}

#[test]
fn the_time_of_day_counts() {
    assert_eq!(calc_moon_age(utc(1900, 1, 15, 0, 0, 0)), age(1_209_600_000));
    assert_eq!(calc_moon_age(utc(1900, 1, 15, 0, 0, 1)), age(1_209_601_000));
    assert_eq!(calc_moon_age(utc(1900, 1, 15, 12, 0, 0)), age(1_252_800_000));
    assert_eq!(calc_moon_age(utc(1900, 1, 15, 23, 59, 59)), age(1_295_999_000));
    assert_eq!(phase_at(utc(1900, 1, 15, 0, 0, 0)), MoonPhase::WaxingGibbous);
    assert_eq!(phase_at(utc(1900, 1, 15, 12, 0, 0)), MoonPhase::FullMoon);
}

#[test]
fn the_age_starts_again_after_a_synodic_month() {
    assert_eq!(calc_moon_age(utc(1900, 1, 30, 12, 44, 2)), age(2_551_442_000));
    assert_eq!(calc_moon_age(utc(1900, 1, 30, 12, 44, 3)), age(24));
    assert_eq!(MoonAge::after_seconds(2_551_442), age(2_551_442_000));
    assert_eq!(MoonAge::after_seconds(2_551_443), age(24));
}

#[test]
fn before_the_known_new_moon_the_age_stays_within_the_month() {
    assert_eq!(calc_moon_age(utc(1899, 12, 31, 23, 59, 59)), age(2_551_441_976));
    assert_eq!(phase_at(utc(1899, 12, 31, 23, 59, 59)), MoonPhase::NewMoon);
    assert_eq!(calc_moon_age(utc(1899, 12, 31, 12, 0, 0)), age(2_508_242_976));
    assert_eq!(calc_moon_age(utc(1899, 12, 31, 0, 0, 0)), age(2_465_042_976));
    assert_eq!(phase_at(utc(1899, 12, 31, 0, 0, 0)), MoonPhase::WaningCrescent);
    assert_eq!(calc_moon_age(utc(1899, 12, 1, 0, 0, 0)), age(2_424_485_952));
}

#[test]
fn the_age_lies_within_the_month_on_every_date() {
    let mut dates = vec![
        lunoxide::calendar::MIN_UNIX_SECONDS,
        lunoxide::calendar::MAX_UNIX_SECONDS,
        -2_208_988_800,
        0,
    ];
    let mut seconds: i64 = -8_000_000_000_000;
    while seconds < 8_000_000_000_000 {
        dates.push(seconds);
        seconds += 7_919_000_017;
    }
    for date in dates {
        let moon_age = calc_moon_age(Timestamp::from_unix_seconds(date).unwrap());
        assert!(0 <= moon_age.millis && moon_age.millis < SYNODIC_MONTH, "{date}");
        assert_ne!(current_phase(moon_age), MoonPhase::Unknown, "{date}");
        let percent = moon_age.percent();
        assert!((0..=100).contains(&percent), "{date}");
    }
}

#[test]
fn the_age_is_the_floating_point_remainder_of_the_days() {
    let new_moon = known_new_moon().unix_seconds();
    let mut elapsed: i64 = 0;
    while elapsed < 6_000_000_000 {
        let date = Timestamp::from_unix_seconds(new_moon + elapsed).unwrap();
        let moon_age = calc_moon_age(date);
        let expected = (elapsed as f64 / 86_400.0) % 29.53059;
        let got = moon_age.millis as f64 / MILLIS_PER_DAY;
        assert!((got - expected).abs() < 1e-6, "{elapsed}: {got} {expected}");
        let fraction = ((expected / 29.53059) * 100.0).round() as i64;
        assert_eq!(moon_age.percent(), fraction, "{elapsed}");
        assert_eq!(current_phase(moon_age), banded(fraction), "{elapsed}");
        elapsed += 1_234_567;
    }
}

#[test]
fn on_whole_days_the_age_is_the_remainder_of_the_day_count() {
    let new_moon = known_new_moon();
    for days in 0..2_000i64 {
        let date = new_moon.plus_days(days).unwrap();
        let moon_age = calc_moon_age(date);
        let expected = days as f64 % 29.53059;
        let got = moon_age.millis as f64 / MILLIS_PER_DAY;
        assert!((got - expected).abs() < 1e-9, "{days}: {got} {expected}");
        let fraction = ((expected / 29.53059) * 100.0).round() as i64;
        assert_eq!(current_phase(moon_age), banded(fraction), "{days}");
    }
}

#[test]
fn moon_age_since_counts_from_the_given_new_moon() {
    let new_moon = utc(2024, 4, 8, 18, 21, 0);
    assert_eq!(moon_age_since(new_moon, new_moon), age(0));
    assert_eq!(moon_age_since(new_moon, utc(2024, 4, 8, 18, 21, 1)), age(1_000));
    assert_eq!(moon_age_since(new_moon, utc(2024, 4, 9, 18, 21, 0)), age(86_400_000));
    assert_eq!(moon_age_since(new_moon, utc(2024, 5, 7, 18, 21, 0)), age(2_505_600_000));
    assert_eq!(moon_age_since(new_moon, utc(2024, 5, 8, 18, 21, 0)), age(40_557_024));
    assert_eq!(moon_age_since(new_moon, utc(2024, 4, 7, 18, 21, 0)), age(2_465_042_976));
    assert_eq!(moon_age_since(utc(2024, 5, 8, 18, 21, 0), new_moon), age(2_510_885_952));
    assert_eq!(moon_age_since(utc(2024, 4, 8, 18, 21, 1), new_moon), age(2_551_441_976));
}

#[test]
fn after_seconds_takes_out_the_full_months() {
    assert_eq!(MoonAge::after_seconds(0), age(0));
    assert_eq!(MoonAge::after_seconds(1), age(1_000));
    assert_eq!(MoonAge::after_seconds(86_400), age(86_400_000));
    assert_eq!(MoonAge::after_seconds(30 * 86_400), age(40_557_024));
    assert_eq!(MoonAge::after_seconds(318_930_372), age(0));
    assert_eq!(MoonAge::after_seconds(-318_930_372), age(0));
    assert_eq!(MoonAge::after_seconds(-1), age(2_551_441_976));
    assert_eq!(MoonAge::after_seconds(i64::MAX), age(1_510_558_360));
    assert_eq!(MoonAge::after_seconds(i64::MIN), age(1_040_883_616));
}

#[test]
fn percent_rounds_to_the_nearest_whole_number() {
    assert_eq!(age(0).percent(), 0);
    assert_eq!(age(12_757_214).percent(), 0);
    assert_eq!(age(12_757_215).percent(), 1);
    assert_eq!(age(38_271_644).percent(), 1);
    assert_eq!(age(38_271_645).percent(), 2);
    assert_eq!(age(1_262_964_273).percent(), 49);
    assert_eq!(age(1_262_964_274).percent(), 50);
    assert_eq!(age(1_275_721_488).percent(), 50);
    assert_eq!(age(1_288_478_702).percent(), 50);
    assert_eq!(age(1_288_478_703).percent(), 51);
    assert_eq!(age(2_538_685_761).percent(), 99);
    assert_eq!(age(2_538_685_762).percent(), 100);
    assert_eq!(age(2_551_442_975).percent(), 100);
    assert_eq!(age(2_551_442_976).percent(), 100);
    assert_eq!(age(2_564_200_190).percent(), 100);
    assert_eq!(age(2_564_200_191).percent(), 101);
    assert_eq!(age(i64::MAX).percent(), 361_496_303_214);
}

#[test]
fn percent_rounds_a_half_away_from_zero() {
    assert_eq!(age(318_930_371).percent(), 12);
    assert_eq!(age(318_930_372).percent(), 13);
    assert_eq!(age(956_791_115).percent(), 37);
    assert_eq!(age(956_791_116).percent(), 38);
    assert_eq!(age(-318_930_371).percent(), -12);
    assert_eq!(age(-318_930_372).percent(), -13);
    assert_eq!((12.5f64).round(), 13.0);
    assert_eq!((-12.5f64).round(), -13.0);
}

#[test]
fn percent_of_an_age_below_zero() {
    assert_eq!(age(-1).percent(), 0);
    assert_eq!(age(-12_757_214).percent(), 0);
    assert_eq!(age(-12_757_215).percent(), -1);
    assert_eq!(age(-86_400_000).percent(), -3);
    assert_eq!(age(i64::MIN).percent(), -361_496_303_214);
}

#[test]
fn percent_is_the_rounded_floating_point_share() {
    let mut millis: i64 = -300_000_000;
    while millis < 2_900_000_000 {
        let share = ((millis as f64 / MILLIS_PER_DAY) / 29.53059) * 100.0;
        assert_eq!(age(millis).percent(), share.round() as i64, "{millis}");
        millis += 123_457;
    }
}

#[test]
fn current_phase_at_the_edges_of_every_band() {
    let first_age_of = [
        (2, 38_271_645),
        (24, 599_589_100),
        (27, 676_132_389),
        (49, 1_237_449_844),
        (52, 1_313_993_133),
        (74, 1_875_310_588),
        (77, 1_951_853_877),
        (99, 2_513_171_332),
    ];
    for (percent, first) in first_age_of {
        assert_eq!(age(first).percent(), percent);
        assert_eq!(current_phase(age(first)), banded(percent));
        assert_eq!(age(first - 1).percent(), percent - 1);
        assert_eq!(current_phase(age(first - 1)), banded(percent - 1));
        assert_ne!(current_phase(age(first)), current_phase(age(first - 1)));
    }
    assert_eq!(current_phase(age(0)), MoonPhase::NewMoon);
    assert_eq!(current_phase(age(38_271_644)), MoonPhase::NewMoon);
    assert_eq!(current_phase(age(38_271_645)), MoonPhase::WaxingCrescent);
    assert_eq!(current_phase(age(599_589_099)), MoonPhase::WaxingCrescent);
    assert_eq!(current_phase(age(599_589_100)), MoonPhase::FirstQuarter);
    assert_eq!(current_phase(age(676_132_388)), MoonPhase::FirstQuarter);
    assert_eq!(current_phase(age(676_132_389)), MoonPhase::WaxingGibbous);
    assert_eq!(current_phase(age(1_237_449_843)), MoonPhase::WaxingGibbous);
    assert_eq!(current_phase(age(1_237_449_844)), MoonPhase::FullMoon);
    assert_eq!(current_phase(age(1_313_993_132)), MoonPhase::FullMoon);
    assert_eq!(current_phase(age(1_313_993_133)), MoonPhase::WaningGibbous);
    assert_eq!(current_phase(age(1_875_310_587)), MoonPhase::WaningGibbous);
    assert_eq!(current_phase(age(1_875_310_588)), MoonPhase::LastQuarter);
    assert_eq!(current_phase(age(1_951_853_876)), MoonPhase::LastQuarter);
    assert_eq!(current_phase(age(1_951_853_877)), MoonPhase::WaningCrescent);
    assert_eq!(current_phase(age(2_513_171_331)), MoonPhase::WaningCrescent);
    assert_eq!(current_phase(age(2_513_171_332)), MoonPhase::NewMoon);
    assert_eq!(current_phase(age(2_551_442_975)), MoonPhase::NewMoon);
}

#[test]
fn current_phase_covers_the_month_without_gap() {
    let mut millis: i64 = 0;
    let mut seen = Vec::new();
    while millis < SYNODIC_MONTH {
        let phase = current_phase(age(millis));
        assert_ne!(phase, MoonPhase::Unknown, "{millis}");
        assert_eq!(phase, banded(age(millis).percent()), "{millis}");
        if seen.last() != Some(&phase) {
            seen.push(phase);
        }
        millis += 99_991;
    }
    assert_eq!(
        seen,
        vec![
            MoonPhase::NewMoon,
            MoonPhase::WaxingCrescent,
            MoonPhase::FirstQuarter,
            MoonPhase::WaxingGibbous,
            MoonPhase::FullMoon,
            MoonPhase::WaningGibbous,
            MoonPhase::LastQuarter,
            MoonPhase::WaningCrescent,
            MoonPhase::NewMoon,
        ]
    );
}

#[test]
fn half_the_month_is_full_moon_and_both_its_ends_are_new_moon() {
    assert_eq!(SYNODIC_MONTH % 2, 0);
    assert_eq!(age(SYNODIC_MONTH / 2).percent(), 50);
    assert_eq!(current_phase(age(SYNODIC_MONTH / 2)), MoonPhase::FullMoon);
    assert_eq!(current_phase(age(0)), MoonPhase::NewMoon);
    assert_eq!(current_phase(age(SYNODIC_MONTH - 1)), MoonPhase::NewMoon);
    assert_eq!(current_phase(age(2_551_000_000)), MoonPhase::NewMoon);
}

#[test]
fn an_age_of_14_76_days_is_full_moon() {
    let moon_age = age((14.76 * MILLIS_PER_DAY) as i64);
    assert_eq!(moon_age, age(1_275_264_000));
    assert_eq!(moon_age.percent(), 50);
    assert_eq!(current_phase(moon_age), MoonPhase::FullMoon);
}

#[test]
fn an_age_far_outside_the_month_is_of_no_phase() {
    assert_eq!(current_phase(age(SYNODIC_MONTH)), MoonPhase::NewMoon);
    assert_eq!(current_phase(age(2_564_200_190)), MoonPhase::NewMoon);
    assert_eq!(current_phase(age(2_564_200_191)), MoonPhase::Unknown);
    assert_eq!(current_phase(age(2 * SYNODIC_MONTH)), MoonPhase::Unknown);
    assert_eq!(current_phase(age(-1)), MoonPhase::NewMoon);
    assert_eq!(current_phase(age(-12_757_214)), MoonPhase::NewMoon);
    assert_eq!(current_phase(age(-12_757_215)), MoonPhase::Unknown);
    assert_eq!(current_phase(age(-86_400_000)), MoonPhase::Unknown);
    assert_eq!(current_phase(age(i64::MAX)), MoonPhase::Unknown);
    assert_eq!(current_phase(age(i64::MIN)), MoonPhase::Unknown);
    assert_eq!(current_phase(age(-86_400_000)).to_string(), "MoonPhase::Unknown");
}

#[test]
fn the_same_age_is_always_of_the_same_phase() {
    for millis in [0, 1, 38_271_645, 1_275_264_000, 1_900_000_000, 2_551_442_975, -5, 4_000_000_000] {
        let first = current_phase(age(millis));
        let second = current_phase(age(millis));
        assert_eq!(first, second);
    }
}

#[test]
fn the_bands_mirror_each_other_around_the_full_moon() {
    let mirrored = |phase: MoonPhase| match phase {
        MoonPhase::WaxingCrescent => MoonPhase::WaningCrescent,
        MoonPhase::WaningCrescent => MoonPhase::WaxingCrescent,
        MoonPhase::FirstQuarter => MoonPhase::LastQuarter,
        MoonPhase::LastQuarter => MoonPhase::FirstQuarter,
        MoonPhase::WaxingGibbous => MoonPhase::WaningGibbous,
        MoonPhase::WaningGibbous => MoonPhase::WaxingGibbous,
        other => other,
    };
    let mut millis: i64 = 0;
    while millis <= SYNODIC_MONTH {
        let here = current_phase(age(millis));
        let there = current_phase(age(SYNODIC_MONTH - millis));
        assert_eq!(there, mirrored(here), "{millis}");
        millis += 1_000_003;
    }
}
