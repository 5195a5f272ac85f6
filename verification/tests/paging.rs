use case_listing::case::{rows_or_empty, select_page, Case, StoreFailure};
use case_listing::context::{index_context, table_context};
use case_listing::decimal::{
    decimal, digit_text, push_decimal, push_padded, push_signed_decimal,
};
use case_listing::link::next_page_url;
use case_listing::paging::{plan_page, PagePlan, Pagination, PAGE_SIZE};
use case_listing::timestamp::Timestamp;

fn sample_case(id: i32) -> Case {
    Case { id, message: format!("message {}", id), status: String::from(if id % 2 == 0 { "Open" } else { "Closed" }) }
}

fn sample_table(n: i32) -> Vec<Case> {
    let mut table = Vec::new();
    let mut id = 1;
    while id <= n {
        table.push(sample_case(id));
        id += 1;
    }
    table
}

fn ids(rows: &Vec<Case>) -> Vec<i32> {
    rows.iter().map(|c| c.id).collect()
}

#[test]
fn page_size_is_ten() {
    assert_eq!(PAGE_SIZE, 10);
}

#[test]
fn plan_of_first_page() {
    assert_eq!(plan_page(Some(0)), PagePlan { page: 0, offset: 0, limit: 10 });
}

#[test]
fn plan_skips_ten_per_page() {
    assert_eq!(plan_page(Some(1)), PagePlan { page: 1, offset: 10, limit: 10 });
    assert_eq!(plan_page(Some(3)), PagePlan { page: 3, offset: 30, limit: 10 });
    assert_eq!(plan_page(Some(123)), PagePlan { page: 123, offset: 1230, limit: 10 });
}

#[test]
fn plan_of_largest_page_does_not_wrap() {
    let plan = plan_page(Some(i32::MAX));
    assert_eq!(plan.page, i32::MAX);
    assert_eq!(plan.offset, 21_474_836_470);
    assert_eq!(plan.limit, 10);
}

#[test]
fn negative_page_is_clamped_to_zero() {
    assert_eq!(plan_page(Some(-5)), plan_page(Some(0)));
    assert_eq!(plan_page(Some(-1)), plan_page(Some(0)));
    assert_eq!(plan_page(Some(i32::MIN)), plan_page(Some(0)));
    assert_eq!(Pagination { page: Some(-5) }.effective_page(), 0);
}

#[test]
fn absent_page_is_zero() {
    assert_eq!(plan_page(None), plan_page(Some(0)));
    assert_eq!(Pagination { page: None }.effective_page(), 0);
    assert_eq!(Pagination { page: None }.plan(), PagePlan { page: 0, offset: 0, limit: 10 });
}

#[test]
fn clamping_twice_changes_nothing() {
    for p in [-7, -1, 0, 1, 9, 2_000_000] {
        let once = plan_page(Some(p));
        let twice = plan_page(Some(once.page));
        assert_eq!(once, twice);
    }
}

#[test]
fn effective_page_keeps_non_negative_pages() {
    assert_eq!(Pagination { page: Some(0) }.effective_page(), 0);
    assert_eq!(Pagination { page: Some(7) }.effective_page(), 7);
    assert_eq!(Pagination { page: Some(i32::MAX) }.effective_page(), i32::MAX);
}

#[test]
fn next_link_embeds_page_plus_one() {
    assert_eq!(next_page_url(2), "/casetable?page=3");
    assert!(next_page_url(2).contains("page=3"));
    assert_eq!(next_page_url(0), "/casetable?page=1");
    assert_eq!(next_page_url(9), "/casetable?page=10");
    assert_eq!(next_page_url(99), "/casetable?page=100");
}

#[test]
fn next_link_of_largest_page() {
    assert_eq!(next_page_url(i32::MAX), "/casetable?page=2147483648");
}

#[test]
fn next_link_of_negative_page() {
    assert_eq!(next_page_url(-1), "/casetable?page=0");
    assert_eq!(next_page_url(-5), "/casetable?page=-4");
    assert_eq!(next_page_url(i32::MIN), "/casetable?page=-2147483647");
}

#[test]
fn decimal_text_of_numbers() {
    assert_eq!(decimal(0), "0");
    assert_eq!(decimal(7), "7");
    assert_eq!(decimal(10), "10");
    assert_eq!(decimal(1234567890), "1234567890");
    assert_eq!(decimal(u64::MAX), "18446744073709551615");
}

#[test]
fn push_decimal_appends() {
    let mut s = String::from("n=");
    push_decimal(&mut s, 405);
    assert_eq!(s, "n=405");
    push_signed_decimal(&mut s, -12);
    assert_eq!(s, "n=405-12");
    push_signed_decimal(&mut s, i64::MIN);
    assert_eq!(s, "n=405-12-9223372036854775808");
    push_signed_decimal(&mut s, 0);
    assert_eq!(s, "n=405-12-92233720368547758080");
}

#[test]
fn push_padded_fills_with_zeros() {
    let mut s = String::new();
    push_padded(&mut s, 7, 2);
    assert_eq!(s, "07");
    push_padded(&mut s, 42, 4);
    assert_eq!(s, "070042");
    push_padded(&mut s, 5, 0);
    assert_eq!(s, "070042");
    push_padded(&mut s, 12345, 2);
    assert_eq!(s, "07004245");
}

#[test]
fn twelve_rows_make_pages_of_ten_two_and_none() {
    let table = sample_table(12);
    let first = select_page(&table, &plan_page(Some(0)));
    assert_eq!(ids(&first), vec![1, 2, 3, 4, 5, 6, 7, 8, 9, 10]);
    let second = select_page(&table, &plan_page(Some(1)));
    assert_eq!(ids(&second), vec![11, 12]);
    let third = select_page(&table, &plan_page(Some(2)));
    assert_eq!(third.len(), 0);
}

#[test]
fn selected_rows_keep_what_they_say() {
    let table = sample_table(12);
    let second = select_page(&table, &plan_page(Some(1)));
    assert_eq!(second[0].message, "message 11");
    assert_eq!(second[0].status, "Closed");
    assert_eq!(second[1].message, "message 12");
    assert_eq!(second[1].status, "Open");
}

#[test]
fn no_page_holds_more_than_ten() {
    let table = sample_table(35);
    for p in [-3, 0, 1, 2, 3, 4, 100] {
        let rows = select_page(&table, &plan_page(Some(p)));
        assert!(rows.len() <= 10);
    }
    assert_eq!(select_page(&table, &plan_page(Some(3))).len(), 5);
    assert_eq!(select_page(&table, &plan_page(None)).len(), 10);
}

#[test]
fn page_of_exactly_ten_rows() {
    let table = sample_table(10);
    assert_eq!(select_page(&table, &plan_page(Some(0))).len(), 10);
    assert_eq!(select_page(&table, &plan_page(Some(1))).len(), 0);
    assert_eq!(select_page(&Vec::new(), &plan_page(Some(0))).len(), 0);
}

#[test]
fn negative_offset_or_limit_selects_nothing() {
    let table = sample_table(12);
    assert_eq!(select_page(&table, &PagePlan { page: 0, offset: -1, limit: 10 }).len(), 0);
    assert_eq!(select_page(&table, &PagePlan { page: 0, offset: 0, limit: -1 }).len(), 0);
    assert_eq!(ids(&select_page(&table, &PagePlan { page: 0, offset: 3, limit: 2 })), vec![4, 5]);
    assert_eq!(select_page(&table, &PagePlan { page: 0, offset: 3, limit: 0 }).len(), 0);
    assert_eq!(select_page(&table, &PagePlan { page: 0, offset: 11, limit: i64::MAX }).len(), 1);
}

#[test]
fn duplicate_says_the_same() {
    let c = sample_case(4);
    let d = c.duplicate();
    assert_eq!(d.id, 4);
    assert_eq!(d.message, c.message);
    assert_eq!(d.status, c.status);
}

#[test]
fn failed_read_shows_no_rows() {
    assert_eq!(rows_or_empty(Err(StoreFailure {})).len(), 0);
    assert_eq!(ids(&rows_or_empty(Ok(sample_table(3)))), vec![1, 2, 3]);
}

#[test]
fn table_context_of_a_page() {
    let context = table_context(Some(2), Ok(sample_table(4)));
    assert_eq!(context.page, 2);
    assert_eq!(context.url, "/casetable?page=3");
    assert_eq!(ids(&context.cases), vec![1, 2, 3, 4]);
}

#[test]
fn table_context_of_negative_page_is_that_of_zero() {
    let negative = table_context(Some(-5), Ok(sample_table(2)));
    let zero = table_context(Some(0), Ok(sample_table(2)));
    assert_eq!(negative.page, zero.page);
    assert_eq!(negative.url, zero.url);
    assert_eq!(ids(&negative.cases), ids(&zero.cases));
    assert_eq!(negative.page, 0);
    assert_eq!(negative.url, "/casetable?page=1");
}

#[test]
fn table_context_without_page_is_that_of_zero() {
    let absent = table_context(None, Ok(sample_table(2)));
    let zero = table_context(Some(0), Ok(sample_table(2)));
    assert_eq!(absent.page, zero.page);
    assert_eq!(absent.url, zero.url);
    assert_eq!(ids(&absent.cases), ids(&zero.cases));
}

#[test]
fn table_context_of_failed_read_is_empty() {
    for p in [None, Some(-1), Some(0), Some(6)] {
        let context = table_context(p, Err(StoreFailure {}));
        assert_eq!(context.cases.len(), 0);
        let served = table_context(p, Ok(sample_table(1)));
        assert_eq!(context.page, served.page);
        assert_eq!(context.url, served.url);
    }
}

#[test]
fn timestamp_text() {
    let t = Timestamp::new(2024, 3, 7, 9, 5, 1).unwrap();
    assert_eq!(t.format(), "2024-03-07 09:05:01");
    let u = Timestamp::new(1999, 12, 31, 23, 59, 59).unwrap();
    assert_eq!(u.format(), "1999-12-31 23:59:59");
    let v = Timestamp::new(0, 1, 1, 0, 0, 0).unwrap();
    assert_eq!(v.format(), "0000-01-01 00:00:00");
}

#[test]
fn timestamp_fields_out_of_range() {
    assert!(Timestamp::new(10000, 1, 1, 0, 0, 0).is_none());
    assert!(Timestamp::new(2024, 0, 1, 0, 0, 0).is_none());
    assert!(Timestamp::new(2024, 13, 1, 0, 0, 0).is_none());
    assert!(Timestamp::new(2024, 1, 0, 0, 0, 0).is_none());
    assert!(Timestamp::new(2024, 1, 32, 0, 0, 0).is_none());
    assert!(Timestamp::new(2024, 1, 1, 24, 0, 0).is_none());
    assert!(Timestamp::new(2024, 1, 1, 0, 60, 0).is_none());
    assert!(Timestamp::new(2024, 1, 1, 0, 0, 60).is_none());
    assert_eq!(
        Timestamp::new(9999, 12, 31, 23, 59, 59),
        Some(Timestamp { year: 9999, month: 12, day: 31, hour: 23, minute: 59, second: 59 })
    );
}

#[test]
fn timestamp_text_has_the_shape() {
    let samples = [
        Timestamp { year: 2024, month: 3, day: 7, hour: 9, minute: 5, second: 1 },
        Timestamp { year: 7, month: 1, day: 1, hour: 0, minute: 0, second: 0 },
        Timestamp { year: 65535, month: 255, day: 255, hour: 255, minute: 255, second: 255 },
    ];
    for t in samples {
        let text = t.format();
        let chars: Vec<char> = text.chars().collect();
        assert_eq!(chars.len(), 19);
        for (i, c) in chars.iter().enumerate() {
            match i {
                4 | 7 => assert_eq!(*c, '-'),
                10 => assert_eq!(*c, ' '),
                13 | 16 => assert_eq!(*c, ':'),
                _ => assert!(c.is_ascii_digit()),
            }
        }
    }
}

#[test]
fn index_context_holds_the_time() {
    let t = Timestamp::new(2023, 11, 2, 14, 30, 0).unwrap();
    assert_eq!(index_context(&t).now, "2023-11-02 14:30:00");
}

#[test]
fn digit_texts_are_the_ten_digits() {
    let all: Vec<&str> = (0u8..10).map(digit_text).collect();
    assert_eq!(all, vec!["0", "1", "2", "3", "4", "5", "6", "7", "8", "9"]);
    assert_eq!(digit_text(10), "9");
    assert_eq!(digit_text(255), "9");
}

#[test]
fn saturating_time_keeps_fields_in_range() {
    assert_eq!(
        Timestamp::saturating(2024, 3, 7, 9, 5, 1),
        Timestamp { year: 2024, month: 3, day: 7, hour: 9, minute: 5, second: 1 }
    );
    assert_eq!(
        Timestamp::saturating(0, 1, 1, 0, 0, 0),
        Timestamp { year: 0, month: 1, day: 1, hour: 0, minute: 0, second: 0 }
    );
    assert_eq!(
        Timestamp::saturating(9999, 12, 31, 23, 59, 59),
        Timestamp { year: 9999, month: 12, day: 31, hour: 23, minute: 59, second: 59 }
    );
}

#[test]
fn saturating_time_takes_the_nearest_in_range() {
    assert_eq!(
        Timestamp::saturating(-44, 0, 0, 24, 60, 60),
        Timestamp { year: 0, month: 1, day: 1, hour: 23, minute: 59, second: 59 }
    );
    assert_eq!(
        Timestamp::saturating(i32::MAX, u32::MAX, u32::MAX, u32::MAX, u32::MAX, u32::MAX),
        Timestamp { year: 9999, month: 12, day: 31, hour: 23, minute: 59, second: 59 }
    );
    assert_eq!(
        Timestamp::saturating(i32::MIN, 13, 32, 0, 0, 0),
        Timestamp { year: 0, month: 12, day: 31, hour: 0, minute: 0, second: 0 }
    );
    assert_eq!(Timestamp::saturating(10000, 6, 15, 12, 0, 0).format(), "9999-06-15 12:00:00");
}
