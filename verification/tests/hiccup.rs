use yield_progress::{check_yield, classify_hiccup, finish_yield, Hiccup};

fn s(x: &str) -> Option<String> {
    Some(String::from(x))
}

#[test]
fn short_interval_is_quiet() {
    assert_eq!(classify_hiccup(0, &None, &None), Hiccup::Quiet);
    assert_eq!(classify_hiccup(100_000_000, &s("a"), &s("b")), Hiccup::Quiet);
}

#[test]
fn long_interval_same_label_is_during() {
    assert_eq!(classify_hiccup(100_000_001, &s("a"), &s("a")), Hiccup::During);
    assert_eq!(classify_hiccup(5_000_000_000, &None, &None), Hiccup::During);
}

#[test]
fn long_interval_changed_label_is_between() {
    assert_eq!(classify_hiccup(100_000_001, &s("a"), &s("b")), Hiccup::Between);
    assert_eq!(classify_hiccup(200_000_000, &s("a"), &None), Hiccup::Between);
    assert_eq!(classify_hiccup(200_000_000, &None, &s("")), Hiccup::Between);
}

#[test]
fn finish_yield_records_the_yield() {
    let r = finish_yield(42, "here", s("work"));
    assert_eq!(r.finished_at_nanos, 42);
    assert_eq!(r.location, "here");
    assert_eq!(r.label, s("work"));
}

#[test]
fn check_yield_measures_from_last_finish() {
    let r = finish_yield(1_000_000_000, (), s("work"));
    assert_eq!(check_yield(&r, 1_050_000_000, &s("work")), (Hiccup::Quiet, 50_000_000));
    assert_eq!(check_yield(&r, 1_250_000_000, &s("work")), (Hiccup::During, 250_000_000));
    assert_eq!(check_yield(&r, 1_250_000_000, &s("other")), (Hiccup::Between, 250_000_000));
}

#[test]
fn check_yield_before_last_finish_counts_as_no_time() {
    let r = finish_yield(1_000, (), None);
    assert_eq!(check_yield(&r, 10, &s("x")), (Hiccup::Quiet, 0));
}
