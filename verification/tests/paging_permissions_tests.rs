use scrim_bot::paging::{plan_pages, Emission, Page};
use scrim_bot::permissions::{permission_grants, Grant};

fn pages_of(n: usize) -> Vec<Emission> {
    plan_pages(n)
}

#[test]
fn zero_items_yield_one_no_results_response() {
    assert_eq!(pages_of(0), vec![Emission::NoResults]);
}

#[test]
fn ten_items_yield_exactly_one_page() {
    let r = pages_of(10);
    assert_eq!(r.len(), 1);
    assert_eq!(r[0], Emission::Initial(Page { index: 1, total: 1, start: 0, end: 10 }));
}

#[test]
fn eleven_items_yield_two_pages_with_one_item_on_the_second() {
    let r = pages_of(11);
    assert_eq!(r.len(), 2);
    assert_eq!(r[0], Emission::Initial(Page { index: 1, total: 2, start: 0, end: 10 }));
    assert_eq!(r[1], Emission::FollowUp(Page { index: 2, total: 2, start: 10, end: 11 }));
}

#[test]
fn twenty_items_yield_two_pages() {
    let r = pages_of(20);
    assert_eq!(r.len(), 2);
    assert_eq!(r[1], Emission::FollowUp(Page { index: 2, total: 2, start: 10, end: 20 }));
}

#[test]
fn twenty_one_items_yield_three_pages() {
    let r = pages_of(21);
    assert_eq!(r.len(), 3);
    assert_eq!(r[2], Emission::FollowUp(Page { index: 3, total: 3, start: 20, end: 21 }));
}

#[test]
fn one_item_yields_one_page() {
    let r = pages_of(1);
    assert_eq!(r, vec![Emission::Initial(Page { index: 1, total: 1, start: 0, end: 1 })]);
}

#[test]
fn pages_cover_items_in_order() {
    let r = pages_of(35);
    assert_eq!(r.len(), 4);
    let mut next_start = 0;
    for (i, e) in r.iter().enumerate() {
        let p = match e {
            Emission::Initial(p) => {
                assert_eq!(i, 0);
                p
            }
            Emission::FollowUp(p) => {
                assert!(i > 0);
                p
            }
            Emission::NoResults => panic!("unexpected no-results page"),
        };
        assert_eq!(p.index, i + 1);
        assert_eq!(p.total, 4);
        assert_eq!(p.start, next_start);
        assert!(p.end > p.start && p.end - p.start <= 10);
        next_start = p.end;
    }
    assert_eq!(next_start, 35);
}

#[test]
fn two_required_roles_and_a_distinct_baseline_yield_three_allow_grants() {
    let r1: u64 = 10;
    let r2: u64 = 20;
    let s: u64 = 30;
    let grants = permission_grants(&vec![r1, r2], &vec![s]);
    assert_eq!(grants.len(), 3);
    assert!(grants.iter().all(|g| g.allow));
    let roles: Vec<u64> = grants.iter().map(|g| g.role_id).collect();
    assert_eq!(roles, vec![10, 20, 30]);
    for i in 0..roles.len() {
        for j in 0..i {
            assert_ne!(roles[i], roles[j]);
        }
    }
}

#[test]
fn duplicate_roles_are_granted_once() {
    let grants = permission_grants(&vec![10, 20, 10], &vec![20, 30, 30]);
    let roles: Vec<u64> = grants.iter().map(|g| g.role_id).collect();
    assert_eq!(roles, vec![10, 20, 30]);
}

#[test]
fn baseline_already_required_is_not_granted_twice() {
    let grants = permission_grants(&vec![10, 20], &vec![20]);
    assert_eq!(grants.len(), 2);
}

#[test]
fn no_roles_yield_no_grants() {
    let grants: Vec<Grant> = permission_grants(&Vec::new(), &Vec::new());
    assert!(grants.is_empty());
}
