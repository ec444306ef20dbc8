use pixelwalker::api::paging::{ListPage, PageCollector, PageRequest, PER_PAGE_START};
use pixelwalker::api::collection::collection_len;

fn page(number: i32, per_page: i32, items: Vec<u32>) -> ListPage<u32> {
    ListPage { page: number, per_page, total_items: 0, items }
}

#[test]
fn first_request_is_page_one_of_the_large_size() {
    let c: PageCollector<u32> = PageCollector::collecting();
    assert_eq!(c.next_request(), Some(PageRequest { page: 1, per_page: PER_PAGE_START }));
    assert_eq!(PER_PAGE_START, 1000);
}

#[test]
fn next_request_follows_the_last_page() {
    let mut c: PageCollector<u32> = PageCollector::collecting();
    c.receive(page(1, 2, vec![1, 2]));
    assert_eq!(c.next_request(), Some(PageRequest { page: 2, per_page: 2 }));
    assert_eq!(c.last_page(), Some(1));
}

#[test]
fn collect_never_stops_at_the_first_page() {
    let mut c: PageCollector<u32> = PageCollector::collecting();
    c.receive(page(1, 1000, vec![1, 2]));
    assert!(c.next_request().is_some());
    c.receive(page(2, 1000, vec![]));
    assert_eq!(c.next_request(), None);
    assert_eq!(c.into_items(), vec![1, 2]);
}

#[test]
fn collect_keeps_every_record_until_a_short_page() {
    let mut c: PageCollector<u32> = PageCollector::collecting();
    c.receive(page(1, 2, vec![1, 2]));
    c.receive(page(2, 2, vec![3, 4]));
    assert!(c.next_request().is_some());
    c.receive(page(3, 2, vec![5]));
    assert_eq!(c.next_request(), None);
    assert_eq!(c.into_items(), vec![1, 2, 3, 4, 5]);
}

#[test]
fn negative_page_size_makes_a_short_page() {
    let mut c: PageCollector<u32> = PageCollector::collecting();
    c.receive(page(1, 2, vec![1, 2]));
    c.receive(page(2, -1, vec![3]));
    assert_eq!(c.next_request(), None);
    assert_eq!(c.into_items(), vec![1, 2, 3]);
}

#[test]
fn take_cuts_the_records_to_the_amount() {
    let mut c: PageCollector<u32> = PageCollector::taking(3);
    c.receive(page(1, 1000, vec![1, 2]));
    assert_eq!(c.next_request(), Some(PageRequest { page: 2, per_page: 1000 }));
    c.receive(page(2, 1000, vec![3, 4, 5]));
    assert_eq!(c.next_request(), None);
    assert_eq!(c.into_items(), vec![1, 2, 3]);
}

#[test]
fn take_asks_once_more_after_it_is_full() {
    let mut c: PageCollector<u32> = PageCollector::taking(2);
    c.receive(page(1, 3, vec![1, 2, 3]));
    assert_eq!(c.next_request(), Some(PageRequest { page: 2, per_page: 3 }));
    c.receive(page(2, 3, vec![4, 5, 6]));
    assert_eq!(c.next_request(), None);
    assert_eq!(c.into_items(), vec![1, 2]);
}

#[test]
fn take_goes_on_while_pages_are_full() {
    let mut c: PageCollector<u32> = PageCollector::taking(10);
    c.receive(page(1, 2, vec![1, 2]));
    c.receive(page(2, 2, vec![3, 4]));
    assert!(c.next_request().is_some());
    c.receive(page(3, 2, vec![5]));
    assert_eq!(c.next_request(), None);
    assert_eq!(c.into_items(), vec![1, 2, 3, 4, 5]);
}

#[test]
fn take_zero_keeps_nothing() {
    let mut c: PageCollector<u32> = PageCollector::taking(0);
    c.receive(page(1, 1000, vec![1, 2]));
    assert!(c.next_request().is_some());
    c.receive(page(2, 1000, vec![3]));
    assert_eq!(c.next_request(), None);
    assert_eq!(c.into_items(), Vec::<u32>::new());
}

#[test]
fn take_is_a_prefix_of_collect_on_the_same_pages() {
    let pages = [vec![1, 2], vec![3, 4], vec![5]];
    let mut all: PageCollector<u32> = PageCollector::collecting();
    let mut some: PageCollector<u32> = PageCollector::taking(4);
    for (i, items) in pages.iter().enumerate() {
        all.receive(page(i as i32 + 1, 2, items.clone()));
        if some.next_request().is_some() {
            some.receive(page(i as i32 + 1, 2, items.clone()));
        }
    }
    let all = all.into_items();
    let some = some.into_items();
    assert_eq!(some, all[..4].to_vec());
}

#[test]
fn collection_len_reads_the_total() {
    assert_eq!(collection_len(5), 5);
    assert_eq!(collection_len(0), 0);
    assert_eq!(collection_len(-1), usize::MAX);
}

#[test]
fn take_run_gets_the_first_records_of_a_collect_run() {
    // The server answers the same page for the same request.
    let server = |request: PageRequest| -> ListPage<u32> {
        let per_page = 2;
        let start = (request.page as u32 - 1) * 2;
        let items: Vec<u32> = (start..start + 2).filter(|i| *i < 5).collect();
        page(request.page, per_page, items)
    };
    let mut all: PageCollector<u32> = PageCollector::collecting();
    while let Some(r) = all.next_request() {
        all.receive(server(r));
    }
    let all = all.into_items();
    for n in 0..8usize {
        let mut some: PageCollector<u32> = PageCollector::taking(n);
        while let Some(r) = some.next_request() {
            some.receive(server(r));
        }
        assert_eq!(some.into_items(), all[..n.min(all.len())].to_vec());
    }
}

fn collect_from(records: &[u32]) -> (Vec<u32>, i32) {
    // A server holding `records` answers each request with the page it asks for.
    let total = records.len() as i32;
    let mut c: PageCollector<u32> = PageCollector::collecting();
    while let Some(r) = c.next_request() {
        let size = r.per_page as usize;
        let start = ((r.page as usize - 1) * size).min(records.len());
        let end = (r.page as usize * size).min(records.len());
        c.receive(ListPage { page: r.page, per_page: r.per_page, total_items: total, items: records[start..end].to_vec() });
    }
    (c.into_items(), total)
}

#[test]
fn len_counts_what_collect_gets_in_any_order() {
    let records: Vec<u32> = (0..2500).collect();
    let (all, total) = collect_from(&records);
    assert_eq!(all, records);
    assert_eq!(collection_len(total), all.len());
    let resorted: Vec<u32> = records.iter().rev().copied().collect();
    let (again, total_again) = collect_from(&resorted);
    assert_eq!(again, resorted);
    assert_eq!(collection_len(total_again), collection_len(total));
    let (none, empty_total) = collect_from(&[]);
    assert!(none.is_empty());
    assert_eq!(collection_len(empty_total), 0);
    let (exact, exact_total) = collect_from(&records[..1000]);
    assert_eq!(exact.len(), 1000);
    assert_eq!(collection_len(exact_total), 1000);
}
