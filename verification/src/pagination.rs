//! Pages of rows, with what a pager needs to render them.

use vstd::prelude::*;
use vstd::string::StringExecFns;
use crate::text::{decimal, decimal_i64, decimal_u64, opt_text};

verus! {

/// One page of rows, with the offsets of its neighbours and the list of all
/// pages.
#[derive(Debug)]
pub struct PageContext<T> {
    pub rows: Vec<T>,
    pub total_rows: i64,
    pub next_offset: i64,
    pub prev_offset: i64,
    pub page_list: Vec<(String, i64)>,
    pub message: Option<String>,
}

/// The mathematical value of a [`PageContext`].
pub ghost struct Page<T> {
    pub rows: Seq<T>,
    pub total_rows: int,
    pub next_offset: int,
    pub prev_offset: int,
    pub page_list: Seq<(Seq<char>, int)>,
    pub message: Option<Seq<char>>,
}

/// The labels and offsets of a list of pages.
pub open spec fn page_list_view(list: Seq<(String, i64)>) -> Seq<(Seq<char>, int)> {
    Seq::new(list.len(), |i: int| (list[i].0@, list[i].1 as int))
}

impl<T> View for PageContext<T> {
    type V = Page<T>;

    open spec fn view(&self) -> Page<T> {
        Page {
            rows: self.rows@,
            total_rows: self.total_rows as int,
            next_offset: self.next_offset as int,
            prev_offset: self.prev_offset as int,
            page_list: page_list_view(self.page_list@),
            message: opt_text(self.message),
        }
    }
}

/// The magnitude of a number.
pub open spec fn magnitude(a: int) -> int {
    if a >= 0 {
        a
    } else {
        -a
    }
}

/// The quotient of `a` by `b`, rounded towards zero.
pub open spec fn quotient(a: int, b: int) -> int {
    if (a >= 0) == (b > 0) {
        magnitude(a) / magnitude(b)
    } else {
        -(magnitude(a) / magnitude(b))
    }
}

/// The quotient of `a` by `b`, rounded towards zero.
pub fn quotient_of(a: i64, b: i64) -> (q: i64)
    requires
        b != 0,
        !(a == i64::MIN && b == -1),
    ensures
        q == quotient(a as int, b as int),
{
    let x: i128 = if a >= 0 {
        a as i128
    } else {
        -(a as i128)
    };
    let y: i128 = if b > 0 {
        b as i128
    } else {
        -(b as i128)
    };
    let m: i128 = x / y;
    assert(0 <= m <= x && (y >= 2 ==> 2 * m <= x)) by (nonlinear_arith)
        requires
            0 <= x,
            1 <= y,
            m == x / y,
    ;
    if (a >= 0) == (b > 0) {
        m as i64
    } else {
        (-m) as i64
    }
}

/// The offset at which the last page starts, where the rows do not end on a
/// page boundary; the number of rows where they do.
pub open spec fn last_offset(total_rows: int, page_size: int) -> int {
    quotient(total_rows, page_size) * page_size
}

/// The number of entries in the list of pages: one for each full page, and
/// one more where there are more rows than one page holds.
pub open spec fn page_count(total_rows: int, page_size: int) -> int {
    (if quotient(total_rows, page_size) > 0 {
        quotient(total_rows, page_size)
    } else {
        0
    }) + if total_rows <= page_size {
        0int
    } else {
        1int
    }
}

/// The page that holds the row at `offset`, counted from zero. Where the
/// count would be negative, it is zero.
pub open spec fn page_at(offset: int, page_size: int) -> int {
    if quotient(offset, page_size) > 0 {
        quotient(offset, page_size)
    } else {
        0
    }
}

/// The entry of page `n` in the list of pages: its number, or an ellipsis for
/// the page shown, and the offset at which it starts.
pub open spec fn page_entry(n: int, total_rows: int, page_size: int, current_offset: int) -> (
    Seq<char>,
    int,
) {
    (
        if n == page_at(current_offset, page_size) {
            "..."@
        } else {
            decimal(n + 1)
        },
        if n * page_size <= last_offset(total_rows, page_size) {
            n * page_size
        } else {
            last_offset(total_rows, page_size)
        },
    )
}

/// The line that says which rows are shown.
pub open spec fn page_message(total_rows: int, page_size: int, current_offset: int) -> Seq<char> {
    decimal(current_offset) + " - "@ + decimal(
        if current_offset + page_size <= total_rows {
            current_offset + page_size
        } else {
            total_rows
        },
    ) + " / "@ + decimal(total_rows)
}

/// The offset at which the last page starts lies between zero and the number
/// of rows; and where the page size is negative, there are pages beyond the
/// first only where the rows are no more than the page size.
pub proof fn lemma_last_offset(total_rows: int, page_size: int)
    requires
        page_size != 0,
    ensures
        total_rows >= 0 ==> 0 <= last_offset(total_rows, page_size) <= total_rows,
        total_rows <= 0 ==> total_rows <= last_offset(total_rows, page_size) <= 0,
        page_size < 0 && quotient(total_rows, page_size) > 0 ==> total_rows <= page_size,
{
    let x = magnitude(total_rows);
    let y = magnitude(page_size);
    let m = x / y;
    assert(0 <= m * y <= x && (m > 0 ==> x >= y)) by (nonlinear_arith)
        requires
            0 <= x,
            1 <= y,
            m == x / y,
    ;
    assert(quotient(total_rows, page_size) * page_size == if total_rows >= 0 {
        m * y
    } else {
        -(m * y)
    }) by (nonlinear_arith)
        requires
            x == magnitude(total_rows),
            y == magnitude(page_size),
            page_size != 0,
            quotient(total_rows, page_size) == if (total_rows >= 0) == (page_size > 0) {
                m
            } else {
                -m
            },
    ;
}

impl<T> Page<T> {
    /// The page shown where there is nothing to show.
    pub open spec fn empty() -> Page<T> {
        Page {
            rows: Seq::empty(),
            total_rows: 0,
            next_offset: 0,
            prev_offset: 0,
            page_list: seq![("1"@, 0int)],
            message: Some("No results"@),
        }
    }

    /// The page that shows `rows`, found at `current_offset` among
    /// `total_rows` rows that are shown `page_size` at a time.
    pub open spec fn of(rows: Seq<T>, total_rows: int, page_size: int, current_offset: int)
        -> Page<T> {
        Page {
            rows,
            total_rows,
            next_offset: if current_offset + page_size <= last_offset(total_rows, page_size) {
                current_offset + page_size
            } else {
                last_offset(total_rows, page_size)
            },
            prev_offset: if current_offset - page_size >= 0 {
                current_offset - page_size
            } else {
                0
            },
            page_list: Seq::new(
                page_count(total_rows, page_size) as nat,
                |n: int| page_entry(n, total_rows, page_size, current_offset),
            ),
            message: Some(page_message(total_rows, page_size, current_offset)),
        }
    }
}

/// The number of rows in all, as the rows of a page tell it: every row
/// carries the number, and the first is asked. Where there is no row, there
/// are none in all.
pub fn total_rows(counts: &Vec<i64>) -> (total: i64)
    ensures
        total == if counts@.len() > 0 {
            counts@[0]
        } else {
            0
        },
{
    if counts.len() > 0 {
        counts[0]
    } else {
        0
    }
}

impl<T> PageContext<T> {
    /// The page that shows `rows`: the page for no rows where there are none,
    /// whatever the numbers; else the page found at `current_offset` among
    /// `total_rows` rows that are shown `page_size` at a time.
    pub fn from_rows(rows: Vec<T>, total_rows: i64, page_size: i64, current_offset: i64) -> (page:
        PageContext<T>)
        requires
            rows@.len() > 0 ==> page_size != 0,
            rows@.len() > 0 ==> i64::MIN <= current_offset - page_size <= i64::MAX,
            rows@.len() > 0 ==> i64::MIN <= current_offset + page_size <= i64::MAX,
            rows@.len() > 0 ==> !(total_rows == i64::MIN && page_size == -1),
        ensures
            page@ == if rows@.len() == 0 {
                Page::<T>::empty()
            } else {
                Page::of(rows@, total_rows as int, page_size as int, current_offset as int)
            },
    {
        if rows.len() == 0 {
            return PageContext::no_rows();
        }
        let pages: i64 = quotient_of(total_rows, page_size);
        assert(-0x4000_0000_0000_0000_0000_0000_0000_0000 <= pages * page_size
            <= 0x4000_0000_0000_0000_0000_0000_0000_0000) by (nonlinear_arith)
            requires
                -0x8000_0000_0000_0000 <= pages <= 0x8000_0000_0000_0000,
                -0x8000_0000_0000_0000 <= page_size <= 0x8000_0000_0000_0000,
        ;
        let last_wide: i128 = (pages as i128) * (page_size as i128);
        proof {
            lemma_last_offset(total_rows as int, page_size as int);
        }
        let last: i64 = last_wide as i64;
        let next_offset: i64 = if current_offset + page_size <= last {
            current_offset + page_size
        } else {
            last
        };
        let prev_offset: i64 = if current_offset - page_size >= 0 {
            current_offset - page_size
        } else {
            0
        };
        let whole: u64 = if pages > 0 {
            pages as u64
        } else {
            0
        };
        let count: u64 = if total_rows <= page_size {
            whole
        } else {
            whole + 1
        };
        let at: i64 = quotient_of(current_offset, page_size);
        let shown: u64 = if at > 0 {
            at as u64
        } else {
            0
        };

        let ghost wanted = Page::of(
            rows@,
            total_rows as int,
            page_size as int,
            current_offset as int,
        );
        let mut page_list: Vec<(String, i64)> = Vec::new();
        let mut n: u64 = 0;
        while n < count
            invariant
                page_size != 0,
                pages == quotient(total_rows as int, page_size as int),
                last == last_offset(total_rows as int, page_size as int),
                count == page_count(total_rows as int, page_size as int),
                shown == page_at(current_offset as int, page_size as int),
                n <= count,
                page_list@.len() == n,
                forall|i: int|
                    0 <= i < n ==> (#[trigger] page_list@[i]).0@ == page_entry(
                        i,
                        total_rows as int,
                        page_size as int,
                        current_offset as int,
                    ).0 && page_list@[i].1 == page_entry(
                        i,
                        total_rows as int,
                        page_size as int,
                        current_offset as int,
                    ).1,
            decreases count - n,
        {
            let label = if n == shown {
                String::from_str("...")
            } else {
                decimal_u64(n + 1)
            };
            assert(-0x4000_0000_0000_0000_0000_0000_0000_0000 <= n * page_size
                <= 0x4000_0000_0000_0000_0000_0000_0000_0000) by (nonlinear_arith)
                requires
                    0 <= n <= 0x8000_0000_0000_0000,
                    -0x8000_0000_0000_0000 <= page_size <= 0x8000_0000_0000_0000,
            ;
            let start: i128 = (n as i128) * (page_size as i128);
            proof {
                lemma_last_offset(total_rows as int, page_size as int);
                assert(start <= last ==> start >= i64::MIN) by (nonlinear_arith)
                    requires
                        start == n * page_size,
                        last == pages * page_size,
                        0 <= n,
                        page_size != 0,
                        page_size < 0 ==> n <= pages || n == 0,
                        i64::MIN <= last,
                ;
            }
            let offset: i64 = if start <= last as i128 {
                start as i64
            } else {
                last
            };
            page_list.push((label, offset));
            n = n + 1;
        }

        let mut message = decimal_i64(current_offset);
        message.append(" - ");
        let upto: i64 = if current_offset + page_size <= total_rows {
            current_offset + page_size
        } else {
            total_rows
        };
        message.append(decimal_i64(upto).as_str());
        message.append(" / ");
        message.append(decimal_i64(total_rows).as_str());

        let page = PageContext {
            rows,
            total_rows,
            next_offset,
            prev_offset,
            page_list,
            message: Some(message),
        };
        assert(page@.page_list =~= wanted.page_list);
        page
    }

    /// The page shown where there is nothing to show: a single page, and the
    /// word that there are no results.
    pub fn no_rows() -> (page: PageContext<T>)
        ensures
            page@ == Page::<T>::empty(),
    {
        let mut page_list: Vec<(String, i64)> = Vec::new();
        page_list.push((String::from_str("1"), 0));
        let page = PageContext {
            rows: Vec::new(),
            total_rows: 0,
            next_offset: 0,
            prev_offset: 0,
            page_list,
            message: Some(String::from_str("No results")),
        };
        assert(page@.page_list =~= Page::<T>::empty().page_list);
        assert(page@.rows =~= Page::<T>::empty().rows);
        page
    }
}

} // verus!
