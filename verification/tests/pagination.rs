use barkeep::pagination::{quotient_of, total_rows, PageContext};

fn labels(page: &PageContext<u8>) -> Vec<(&str, i64)> {
    page.page_list.iter().map(|(label, offset)| (label.as_str(), *offset)).collect()
}

#[test]
fn page_for_no_rows() {
    let page: PageContext<u8> = PageContext::no_rows();
    assert!(page.rows.is_empty());
    assert_eq!(page.total_rows, 0);
    assert_eq!(page.next_offset, 0);
    assert_eq!(page.prev_offset, 0);
    assert_eq!(labels(&page), vec![("1", 0)]);
    assert_eq!(page.message.as_deref(), Some("No results"));
}

#[test]
fn no_rows_whatever_the_counts() {
    let page: PageContext<u8> = PageContext::from_rows(vec![], 35, 10, 20);
    assert_eq!(page.total_rows, 0);
    assert_eq!(labels(&page), vec![("1", 0)]);
    assert_eq!(page.message.as_deref(), Some("No results"));
}

#[test]
fn page_in_the_middle() {
    let page = PageContext::from_rows(vec![1u8, 2, 3], 35, 10, 10);
    assert_eq!(page.rows, vec![1, 2, 3]);
    assert_eq!(page.total_rows, 35);
    assert_eq!(page.next_offset, 20);
    assert_eq!(page.prev_offset, 0);
    assert_eq!(labels(&page), vec![("1", 0), ("...", 10), ("3", 20), ("4", 30)]);
    assert_eq!(page.message.as_deref(), Some("10 - 20 / 35"));
}

#[test]
fn last_page() {
    let page = PageContext::from_rows(vec![1u8], 35, 10, 30);
    assert_eq!(page.next_offset, 30);
    assert_eq!(page.prev_offset, 20);
    assert_eq!(labels(&page), vec![("1", 0), ("2", 10), ("3", 20), ("...", 30)]);
    assert_eq!(page.message.as_deref(), Some("30 - 35 / 35"));
}

#[test]
fn rows_that_end_on_a_page_boundary() {
    let page = PageContext::from_rows(vec![1u8], 30, 10, 0);
    assert_eq!(page.next_offset, 10);
    assert_eq!(page.prev_offset, 0);
    assert_eq!(labels(&page), vec![("...", 0), ("2", 10), ("3", 20), ("4", 30)]);
    assert_eq!(page.message.as_deref(), Some("0 - 10 / 30"));
}

#[test]
fn fewer_rows_than_a_page() {
    let page = PageContext::from_rows(vec![1u8], 7, 10, 0);
    assert_eq!(page.next_offset, 0);
    assert_eq!(page.prev_offset, 0);
    assert_eq!(labels(&page), Vec::<(&str, i64)>::new());
    assert_eq!(page.message.as_deref(), Some("0 - 7 / 7"));
}

#[test]
fn exactly_one_page() {
    let page = PageContext::from_rows(vec![1u8], 10, 10, 0);
    assert_eq!(page.next_offset, 10);
    assert_eq!(labels(&page), vec![("...", 0)]);
    assert_eq!(page.message.as_deref(), Some("0 - 10 / 10"));
}

#[test]
fn offset_before_the_first_row() {
    let page = PageContext::from_rows(vec![1u8], 25, 10, -5);
    assert_eq!(page.next_offset, 5);
    assert_eq!(page.prev_offset, 0);
    assert_eq!(labels(&page), vec![("...", 0), ("2", 10), ("3", 20)]);
    assert_eq!(page.message.as_deref(), Some("-5 - 5 / 25"));
}

#[test]
fn offset_behind_the_last_row() {
    let page = PageContext::from_rows(vec![1u8], 25, 10, 100);
    assert_eq!(page.next_offset, 20);
    assert_eq!(page.prev_offset, 90);
    assert_eq!(labels(&page), vec![("1", 0), ("2", 10), ("3", 20)]);
    assert_eq!(page.message.as_deref(), Some("100 - 25 / 25"));
}

fn by_floating_point(total_rows: i64, page_size: i64, current_offset: i64) -> (i64, i64, Vec<(String, i64)>, String) {
    let next_offset = (current_offset + page_size).min(total_rows - (total_rows % page_size));
    let prev_offset = (current_offset - page_size).max(0);
    let page_count = ((total_rows / page_size) as f64).ceil() as usize;
    let page_count = page_count + if total_rows <= page_size { 0 } else { 1 };
    let page_list = (0..page_count)
        .map(|n| {
            let page = if n == ((current_offset / page_size) as f64).floor() as usize {
                String::from("...")
            } else {
                format!("{}", n + 1)
            };
            let offset = ((n as i64) * page_size).min(total_rows - (total_rows % page_size));
            (page, offset)
        })
        .collect();
    let message = format!(
        "{} - {} / {}",
        current_offset,
        (current_offset + page_size).min(total_rows),
        total_rows
    );
    (next_offset, prev_offset, page_list, message)
}

#[test]
fn pages_by_the_formulas_in_floating_point() {
    for total_rows in -25..45 {
        for page_size in [-100, -10, -3, -1, 1, 3, 10, 100] {
            for current_offset in (-12..60).step_by(3) {
                let page = PageContext::from_rows(vec![0u8], total_rows, page_size, current_offset);
                let (next, prev, list, message) = by_floating_point(total_rows, page_size, current_offset);
                assert_eq!(page.next_offset, next);
                assert_eq!(page.prev_offset, prev);
                assert_eq!(page.page_list, list);
                assert_eq!(page.message, Some(message));
                assert_eq!(page.total_rows, total_rows);
            }
        }
    }
}

#[test]
fn negative_count_of_rows() {
    let page = PageContext::from_rows(vec![1u8], -7, 10, 0);
    assert_eq!(page.total_rows, -7);
    assert_eq!(page.next_offset, 0);
    assert_eq!(page.prev_offset, 0);
    assert_eq!(labels(&page), Vec::<(&str, i64)>::new());
    assert_eq!(page.message.as_deref(), Some("0 - -7 / -7"));
    let page = PageContext::from_rows(vec![1u8], -25, 10, 0);
    assert_eq!(page.next_offset, -20);
    assert_eq!(page.message.as_deref(), Some("0 - -25 / -25"));
}

#[test]
fn no_rows_whatever_the_numbers() {
    for (total_rows, page_size, current_offset) in [
        (0, 0, 0),
        (35, 0, 20),
        (-1, -1, i64::MIN),
        (i64::MIN, -1, i64::MIN),
        (i64::MAX, i64::MAX, i64::MAX),
        (i64::MIN, i64::MIN, i64::MAX),
        (7, -10, 3),
    ] {
        let page: PageContext<u8> = PageContext::from_rows(vec![], total_rows, page_size, current_offset);
        assert!(page.rows.is_empty());
        assert_eq!(page.total_rows, 0);
        assert_eq!(page.next_offset, 0);
        assert_eq!(page.prev_offset, 0);
        assert_eq!(labels(&page), vec![("1", 0)]);
        assert_eq!(page.message.as_deref(), Some("No results"));
    }
}

#[test]
fn rows_in_all_by_the_first_row() {
    assert_eq!(total_rows(&vec![]), 0);
    assert_eq!(total_rows(&vec![35]), 35);
    assert_eq!(total_rows(&vec![35, 1, 2]), 35);
    assert_eq!(total_rows(&vec![-4, 9]), -4);
}

#[test]
fn negative_page_size() {
    let page = PageContext::from_rows(vec![1u8], 35, -10, 20);
    assert_eq!(page.next_offset, 10);
    assert_eq!(page.prev_offset, 30);
    assert_eq!(labels(&page), vec![("...", 0)]);
    assert_eq!(page.message.as_deref(), Some("20 - 10 / 35"));
    let page = PageContext::from_rows(vec![1u8], -35, -10, -20);
    assert_eq!(page.next_offset, -30);
    assert_eq!(page.prev_offset, 0);
    assert_eq!(labels(&page), vec![("1", -30), ("2", -30), ("...", -30)]);
    assert_eq!(page.message.as_deref(), Some("-20 - -35 / -35"));
}

#[test]
fn quotients_are_rounded_towards_zero() {
    assert_eq!(quotient_of(7, 2), 3);
    assert_eq!(quotient_of(-7, 2), -3);
    assert_eq!(quotient_of(7, -2), -3);
    assert_eq!(quotient_of(-7, -2), 3);
    assert_eq!(quotient_of(0, -5), 0);
    assert_eq!(quotient_of(i64::MIN, 1), i64::MIN);
    assert_eq!(quotient_of(i64::MIN, i64::MIN), 1);
    assert_eq!(quotient_of(i64::MAX, i64::MIN), 0);
    assert_eq!(quotient_of(i64::MIN, i64::MAX), -1);
    assert_eq!(quotient_of(i64::MAX, -1), -i64::MAX);
    for a in -40..40i64 {
        for b in [-9, -4, -1, 1, 3, 8] {
            assert_eq!(quotient_of(a, b), a / b);
        }
    }
}
