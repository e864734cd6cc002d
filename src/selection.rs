use vstd::prelude::*;

verus! {

/// An inclusive range of zero-based page indices.
#[derive(Clone, Copy, Debug, PartialEq, Eq, Structural)]
pub struct PageRange {
    pub start: usize,
    pub end: usize,
}

/// Page `i` of a document of `total` pages lies in `range`.
pub open spec fn range_covers(range: PageRange, total: nat, i: int) -> bool {
    range.start <= i <= range.end && 0 <= i < total
}

/// Page `i` is selected by `ranges`: every page is when there are no ranges,
/// otherwise the pages that some range covers.
pub open spec fn page_selected(total: nat, ranges: Seq<PageRange>, i: int) -> bool {
    ranges.len() == 0 || exists|k: int| 0 <= k < ranges.len() && range_covers(#[trigger] ranges[k], total, i)
}

/// Clamps `page_range` to a document of `total` pages. A range whose start lies
/// after its end, or at or after the last page, selects nothing and gives `None`.
pub fn normalize_page_range(page_range: &PageRange, total: usize) -> (r: Option<(usize, usize)>)
    ensures
        r is Some <==> (total > 0 && page_range.start <= page_range.end && page_range.start < total),
        r matches Some((s, e)) ==> s == page_range.start && e == (if page_range.end < total {
            page_range.end
        } else {
            (total - 1) as usize
        }),
        r matches Some((s, e)) ==> s <= e < total,
        r matches Some((s, e)) ==> forall|i: int| s <= i <= e <==> range_covers(*page_range, total as nat, i),
{
    if total == 0 {
        return None;
    }
    if page_range.start > page_range.end {
        return None;
    }
    if page_range.start >= total {
        return None;
    }
    let start = page_range.start;
    let end = if page_range.end < total - 1 {
        page_range.end
    } else {
        total - 1
    };
    Some((start, end))
}

/// Decides for each of `total` pages whether it is selected by `page_ranges`.
/// No ranges select every page; otherwise a page is selected when some range
/// covers it, out-of-bounds parts of a range and reversed ranges being ignored.
pub fn select_pages(total: usize, page_ranges: &[PageRange]) -> (r: Vec<bool>)
    ensures
        r@.len() == total,
        total == 0 ==> r@.len() == 0,
        page_ranges@.len() == 0 ==> forall|i: int| 0 <= i < total ==> r@[i],
        forall|i: int| 0 <= i < total ==> r@[i] == page_selected(total as nat, page_ranges@, i),
{
    if total == 0 {
        return Vec::new();
    }
    if page_ranges.len() == 0 {
        let mut all: Vec<bool> = Vec::new();
        let mut i: usize = 0;
        while i < total
            invariant
                i <= total,
                all@.len() == i,
                forall|j: int| 0 <= j < i ==> all@[j],
            decreases total - i,
        {
            all.push(true);
            i = i + 1;
        }
        return all;
    }
    let mut selected: Vec<bool> = Vec::new();
    let mut i: usize = 0;
    while i < total
        invariant
            i <= total,
            selected@.len() == i,
            forall|j: int| 0 <= j < i ==> !selected@[j],
        decreases total - i,
    {
        selected.push(false);
        i = i + 1;
    }
    let mut k: usize = 0;
    while k < page_ranges.len()
        invariant
            k <= page_ranges@.len(),
            selected@.len() == total,
            forall|j: int|
                0 <= j < total ==> selected@[j] == exists|m: int|
                    0 <= m < k && range_covers(#[trigger] page_ranges@[m], total as nat, j),
        decreases page_ranges@.len() - k,
    {
        let range = &page_ranges[k];
        match normalize_page_range(range, total) {
            None => {},
            Some((start, end)) => {
                let mut p: usize = start;
                while p <= end
                    invariant
                        start <= p <= end + 1,
                        end < total,
                        selected@.len() == total,
                        forall|i: int| start <= i <= end <==> range_covers(*range, total as nat, i),
                        forall|j: int|
                            0 <= j < total ==> selected@[j] == ((exists|m: int|
                                0 <= m < k && range_covers(#[trigger] page_ranges@[m], total as nat, j))
                                || (start <= j < p)),
                    decreases end + 1 - p,
                {
                    selected.set(p, true);
                    p = p + 1;
                }
            },
        }
        proof {
            assert forall|j: int| 0 <= j < total implies selected@[j] == exists|m: int|
                0 <= m < k + 1 && range_covers(#[trigger] page_ranges@[m], total as nat, j) by {
                if range_covers(page_ranges@[k as int], total as nat, j) {
                    assert(0 <= k < k + 1);
                }
            }
        }
        k = k + 1;
    }
    selected
}

} // verus!
