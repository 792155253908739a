use counter_widget::counter::Counter;
use counter_widget::counter::CounterView;
use counter_widget::counter::Msg;
use counter_widget::text::i64_to_decimal;
use counter_widget::text::u64_to_decimal;

#[test]
fn new_counter_starts_at_zero() {
    let c = Counter::new(String::from("clicks"));
    assert_eq!(c.count, 0);
    assert_eq!(c.caption, "clicks");
}

#[test]
fn increment_raises_count_by_one() {
    let mut c = Counter::new(String::from("clicks"));
    c.increment();
    c.increment();
    c.increment();
    assert_eq!(c.count, 3);
    assert_eq!(c.caption, "clicks");
}

#[test]
fn decrement_lowers_count_by_one() {
    let mut c = Counter::new(String::from("clicks"));
    c.decrement();
    assert_eq!(c.count, -1);
}

#[test]
fn step_follows_the_message() {
    let mut c = Counter::new(String::from("n"));
    c.step(Msg::Increment);
    c.step(Msg::Increment);
    c.step(Msg::Decrement);
    assert_eq!(c.count, 1);
}

#[test]
fn up_then_down_restores_the_count() {
    let mut c = Counter::new(String::from("n"));
    c.step(Msg::Increment);
    c.step(Msg::Decrement);
    assert_eq!(c.count, 0);
    c.step(Msg::Decrement);
    c.step(Msg::Increment);
    assert_eq!(c.count, 0);
}

#[test]
fn counter_accepts_the_extreme_counts() {
    let mut high = Counter {
        caption: String::from("n"),
        count: i32::MAX - 1,
    };
    high.increment();
    assert_eq!(high.count, i32::MAX);
    high.decrement();
    assert_eq!(high.count, i32::MAX - 1);

    let mut low = Counter {
        caption: String::from("n"),
        count: i32::MIN + 1,
    };
    low.decrement();
    assert_eq!(low.count, i32::MIN);
    low.increment();
    assert_eq!(low.count, i32::MIN + 1);
}

#[test]
fn heading_shows_caption_and_count() {
    let mut c = Counter::new(String::from("Stars"));
    assert_eq!(c.heading(), "Stars: 0");
    c.increment();
    assert_eq!(c.heading(), "Stars: 1");
    c.decrement();
    c.decrement();
    assert_eq!(c.heading(), "Stars: -1");
}

#[test]
fn heading_with_empty_caption() {
    let c = Counter::new(String::new());
    assert_eq!(c.heading(), ": 0");
}

#[test]
fn render_gives_heading_and_button_labels() {
    let c = Counter::new(String::from("Count"));
    let v: CounterView = c.render();
    assert_eq!(v.heading, "Count: 0");
    assert_eq!(v.up_label, "Up high!");
    assert_eq!(v.down_label, "Down low!");
}

#[test]
fn unsigned_decimal_digits() {
    assert_eq!(u64_to_decimal(0), "0");
    assert_eq!(u64_to_decimal(7), "7");
    assert_eq!(u64_to_decimal(10), "10");
    assert_eq!(u64_to_decimal(409), "409");
    assert_eq!(u64_to_decimal(1_000_000), "1000000");
    assert_eq!(u64_to_decimal(u64::MAX), "18446744073709551615");
}

#[test]
fn signed_decimal_digits() {
    assert_eq!(i64_to_decimal(0), "0");
    assert_eq!(i64_to_decimal(42), "42");
    assert_eq!(i64_to_decimal(-1), "-1");
    assert_eq!(i64_to_decimal(-10), "-10");
    assert_eq!(i64_to_decimal(i64::MAX), "9223372036854775807");
    assert_eq!(i64_to_decimal(i64::MIN), "-9223372036854775808");
}

#[test]
fn heading_at_the_extreme_counts() {
    let high = Counter {
        caption: String::from("n"),
        count: i32::MAX,
    };
    assert_eq!(high.heading(), "n: 2147483647");
    let low = Counter {
        caption: String::from("n"),
        count: i32::MIN,
    };
    assert_eq!(low.heading(), "n: -2147483648");
}
