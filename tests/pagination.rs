use flipt::pagination::Pager;

#[test]
fn two_pages_gather_five_items() {
    let mut p: Pager<u32> = Pager::new();
    assert!(!p.done());
    assert_eq!(p.page_token(), "");
    p.absorb(vec![1, 2, 3], "next".to_string(), 5);
    assert!(!p.done());
    assert_eq!(p.page_token(), "next");
    p.absorb(vec![4, 5], String::new(), 5);
    assert!(p.done());
    assert_eq!(p.into_items(), vec![1, 2, 3, 4, 5]);
}

#[test]
fn empty_token_ends_the_list() {
    let mut p: Pager<u32> = Pager::new();
    p.absorb(vec![1], String::new(), 10);
    assert!(p.done());
    assert_eq!(p.into_items(), vec![1]);
}

#[test]
fn reaching_total_ends_the_list() {
    let mut p: Pager<u32> = Pager::new();
    p.absorb(vec![1, 2], "more".to_string(), 2);
    assert!(p.done());
}

#[test]
fn empty_list() {
    let mut p: Pager<u32> = Pager::new();
    p.absorb(vec![], String::new(), 0);
    assert!(p.done());
    assert!(p.into_items().is_empty());
}
