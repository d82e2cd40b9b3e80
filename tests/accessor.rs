use same_mut::bag::{Bag, Items};
use same_mut::field::{access, access_mut};
use same_mut::select::{evens_in, evens_in_mut, Evens};

#[test]
fn it_works() {
    let mut foo = Bag {
        items: vec![1, 2, 3],
    };
    for even in Bag::evens(&mut foo) {
        *even += 1;
    }
    assert_eq!(vec![1, 3, 3], *Bag::items(&foo));
}

#[test]
fn shared_accessor_reads_the_field() {
    let bag = Bag {
        items: vec![7, 8, 9],
    };
    let items: &Vec<i32> = Bag::items(&bag);
    assert_eq!(*items, vec![7, 8, 9]);
    let again: &Vec<i32> = access::<Items, &Bag>(&bag);
    assert_eq!(*again, bag.items);
}

#[test]
fn exclusive_accessor_writes_the_field() {
    let mut bag = Bag {
        items: vec![1, 2],
    };
    let items: &mut Vec<i32> = Bag::items(&mut bag);
    items.push(5);
    items[0] = 10;
    assert_eq!(bag.items, vec![10, 2, 5]);
    *access::<Items, &mut Bag>(&mut bag) = vec![4];
    assert_eq!(bag.items, vec![4]);
}

#[test]
fn shared_evens_select_in_order() {
    let bag = Bag {
        items: vec![4, 1, -2, 3, 0, 6],
    };
    let evens: Vec<&i32> = Bag::evens(&bag);
    assert_eq!(evens, vec![&4, &-2, &0, &6]);
    assert_eq!(bag.items, vec![4, 1, -2, 3, 0, 6]);
}

#[test]
fn exclusive_evens_write_back_in_place() {
    let mut bag = Bag {
        items: vec![-4, 5, 10, 7, 8],
    };
    let evens: Vec<&mut i32> = Bag::evens(&mut bag);
    assert_eq!(evens.len(), 3);
    let mut k: i32 = 0;
    for e in evens {
        *e = 100 + k;
        k += 1;
    }
    assert_eq!(bag.items, vec![100, 5, 101, 7, 102]);
}

#[test]
fn evens_of_empty_and_all_odd() {
    let empty: Vec<i32> = Vec::new();
    assert!(evens_in(&empty).is_empty());
    let mut odd = vec![1, 3, -5, 7];
    assert!(evens_in(&odd).is_empty());
    assert!(evens_in_mut(&mut odd).is_empty());
    assert_eq!(odd, vec![1, 3, -5, 7]);
}

#[test]
fn evens_on_vector_borrows() {
    let mut v = vec![2, 2, 3];
    assert_eq!((&v).evens(), vec![&2, &2]);
    for e in (&mut v).evens() {
        *e *= 3;
    }
    assert_eq!(v, vec![6, 6, 3]);
}

#[test]
fn slice_evens_keep_untouched_elements() {
    let mut v = vec![i32::MAX, i32::MIN, 0, 1];
    let picked = evens_in_mut(&mut v[..]);
    assert_eq!(picked.len(), 2);
    drop(picked);
    assert_eq!(v, vec![i32::MAX, i32::MIN, 0, 1]);
}

#[test]
fn items_mut_write_lands_in_bag() {
    let mut bag = Bag {
        items: vec![1, 2, 3],
    };
    *Bag::items_mut(&mut bag) = vec![7];
    assert_eq!(bag.items, vec![7]);
    let items = Bag::items_mut(&mut bag);
    assert_eq!(*items, vec![7]);
    items.push(8);
    assert_eq!(bag.items, vec![7, 8]);
}

#[test]
fn access_mut_sets_field() {
    let mut bag = Bag { items: vec![5] };
    let r: &mut Vec<i32> = access_mut::<Items>(&mut bag);
    assert_eq!(*r, vec![5]);
    r.clear();
    assert!(bag.items.is_empty());
}

#[test]
fn evens_mut_increment_scenario() {
    let mut bag = Bag {
        items: vec![1, 2, 3],
    };
    let evens = Bag::evens_mut(&mut bag);
    assert_eq!(evens.len(), 1);
    for even in evens {
        assert_eq!(*even, 2);
        *even += 1;
    }
    assert_eq!(*Bag::items(&bag), vec![1, 3, 3]);
}

#[test]
fn evens_mut_untouched_keeps_bag() {
    let mut bag = Bag {
        items: vec![2, 9, 4, -6, 11],
    };
    let evens = Bag::evens_mut(&mut bag);
    assert_eq!(evens.iter().map(|e| **e).collect::<Vec<i32>>(), vec![2, 4, -6]);
    drop(evens);
    assert_eq!(bag.items, vec![2, 9, 4, -6, 11]);
}
