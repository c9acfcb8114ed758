//! Page navigation of the paged lists (user list, battle list).

use vstd::prelude::*;

verus! {

/// The page numbers that get a button, for the current page and the page count.
/// With more than five pages, a window of two buttons follows the current page
/// until the last three pages, which are then shown together (the last page
/// itself is reached with the "next" arrow).
pub open spec fn spec_page_buttons(page: int, max_page: int) -> Seq<int> {
    if max_page > 5 {
        if page <= max_page - 3 {
            if page == 1 {
                seq![1, 2]
            } else {
                seq![page - 1, page]
            }
        } else {
            seq![max_page - 3, max_page - 2, max_page - 1]
        }
    } else if max_page <= 0 {
        Seq::empty()
    } else {
        Seq::new(max_page as nat, |i: int| i + 1)
    }
}

/// The page after pressing the "previous" arrow.
pub open spec fn spec_prev_page(page: int) -> int {
    if page - 1 >= 1 { page - 1 } else { page }
}

/// The page after pressing the "next" arrow.
pub open spec fn spec_next_page(page: int, max_page: int) -> int {
    if page + 1 <= max_page { page + 1 } else { page }
}

/// The page after pressing the "previous" arrow: one back, but never below 1.
pub fn prev_page(page: i32) -> (res: i32)
    requires
        page > i32::MIN,
    ensures
        res == spec_prev_page(page as int),
{
    if page - 1 >= 1 { page - 1 } else { page }
}

/// The page after pressing the "next" arrow: one on, but never past the last page.
pub fn next_page(page: i32, max_page: i32) -> (res: i32)
    requires
        page < i32::MAX,
    ensures
        res == spec_next_page(page as int, max_page as int),
{
    if page + 1 <= max_page { page + 1 } else { page }
}

/// The page numbers that get a button.
pub fn page_buttons(page: i32, max_page: i32) -> (res: Vec<i32>)
    requires
        page > i32::MIN,
    ensures
        res@.map_values(|v: i32| v as int) == spec_page_buttons(page as int, max_page as int),
{
    let mut res: Vec<i32> = Vec::new();
    if max_page > 5 {
        if page <= max_page - 3 {
            if page == 1 {
                res.push(1);
                res.push(2);
            } else {
                res.push(page - 1);
                res.push(page);
            }
        } else {
            res.push(max_page - 3);
            res.push(max_page - 2);
            res.push(max_page - 1);
        }
        assert(res@.map_values(|v: i32| v as int) =~= spec_page_buttons(page as int, max_page as int));
    } else {
        let mut i: i32 = 0;
        while i < max_page
            invariant
                0 <= i,
                max_page <= 5,
                i <= max_page || (max_page <= 0 && i == 0),
                res@.len() == i,
                forall|k: int| 0 <= k < i ==> #[trigger] res@[k] == k + 1,
            decreases max_page - i,
        {
            res.push(i + 1);
            i = i + 1;
        }
        assert(res@.map_values(|v: i32| v as int) =~= spec_page_buttons(page as int, max_page as int));
    }
    res
}

/// Starting on a page between 1 and the last page, the arrows keep the
/// list on a page between 1 and the last page.
pub proof fn lemma_arrows_stay_in_range(page: int, max_page: int)
    requires
        1 <= page <= max_page,
    ensures
        1 <= spec_prev_page(page) <= max_page,
        1 <= spec_next_page(page, max_page) <= max_page,
{
}

/// "Next" then "previous" comes back to the page one started on, unless it was the last
/// page; "previous" then "next" does the same unless it was the first page.
pub proof fn lemma_arrows_undo_each_other(page: int, max_page: int)
    requires
        1 <= page <= max_page,
    ensures
        page < max_page ==> spec_prev_page(spec_next_page(page, max_page)) == page,
        page > 1 ==> spec_next_page(spec_prev_page(page), max_page) == page,
{
}

/// On a page between 1 and the last page, every button leads to a page between
/// 1 and the last page.
pub proof fn lemma_buttons_in_range(page: int, max_page: int)
    requires
        1 <= page <= max_page,
    ensures
        forall|k: int|
            0 <= k < spec_page_buttons(page, max_page).len() ==> 1 <= #[trigger] spec_page_buttons(
                page,
                max_page,
            )[k] <= max_page,
{
}

} // verus!
