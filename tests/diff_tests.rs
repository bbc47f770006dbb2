use dns_monitor::address::{Address, AddressSet};
use dns_monitor::differ::diff;

fn set_of(items: &[Address]) -> AddressSet {
    AddressSet::from_vec(&items.to_vec())
}

fn sorted(mut v: Vec<Address>) -> Vec<Address> {
    v.sort_by_key(|a| match a {
        Address::V4(x) => (0u8, *x as u128),
        Address::V6(x) => (1u8, *x),
    });
    v
}

const A1: Address = Address::V4(1);
const A2: Address = Address::V4(2);

#[test]
fn address_set_keeps_each_address_once() {
    let s = set_of(&[A1, A2, A1, A2, A1]);
    assert_eq!(s.len(), 2);
    assert_eq!(s.to_vec(), vec![A1, A2]);
    assert!(s.contains(&A1));
    assert!(!s.contains(&Address::V4(3)));
    assert!(!s.is_empty());
    assert!(AddressSet::new().is_empty());
}

#[test]
fn address_set_insert_reports_new_addresses() {
    let mut s = AddressSet::new();
    assert!(s.insert(A1));
    assert!(!s.insert(A1));
    assert!(s.insert(Address::V6(1)));
    assert_eq!(s.len(), 2);
}

#[test]
fn v4_and_v6_with_the_same_number_differ() {
    let s = set_of(&[Address::V4(1), Address::V6(1)]);
    assert_eq!(s.len(), 2);
    assert!(Address::V6(1).is_ipv6());
    assert!(!Address::V4(1).is_ipv6());
}

#[test]
fn diff_of_a_set_with_itself_is_empty() {
    let a = set_of(&[A1, A2, Address::V6(7)]);
    let d = diff(&a, &a);
    assert!(d.added.is_empty());
    assert!(d.removed.is_empty());
    assert!(!d.is_change());
    let e = AddressSet::new();
    let d = diff(&e, &e);
    assert!(!d.is_change());
}

#[test]
fn diff_from_empty_adds_everything() {
    let d = diff(&AddressSet::new(), &set_of(&[A1, A2]));
    assert_eq!(sorted(d.added.clone()), vec![A1, A2]);
    assert!(d.removed.is_empty());
    assert!(d.is_change());
}

#[test]
fn diff_to_empty_removes_everything() {
    let d = diff(&set_of(&[A1, A2]), &AddressSet::new());
    assert!(d.added.is_empty());
    assert_eq!(sorted(d.removed.clone()), vec![A1, A2]);
    assert!(d.is_change());
}

#[test]
fn diff_partitions_old_and_new() {
    let a = set_of(&[Address::V4(1), Address::V4(2), Address::V4(3)]);
    let b = set_of(&[Address::V4(3), Address::V4(4), Address::V4(1)]);
    let d = diff(&a, &b);
    assert_eq!(d.added, vec![Address::V4(4)]);
    assert_eq!(d.removed, vec![Address::V4(2)]);
    for x in &d.added {
        assert!(!d.removed.contains(x));
    }
    let common_a: Vec<Address> = a.to_vec().into_iter().filter(|x| !d.removed.contains(x)).collect();
    let common_b: Vec<Address> = b.to_vec().into_iter().filter(|x| !d.added.contains(x)).collect();
    assert_eq!(sorted(common_a), sorted(common_b));
}

#[test]
fn diff_ignores_order_of_resolution() {
    let a = set_of(&[A1, A2, Address::V6(9)]);
    let b = set_of(&[Address::V6(9), A2, A1]);
    assert!(!diff(&a, &b).is_change());
}
