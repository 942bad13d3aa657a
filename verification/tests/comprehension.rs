use std::collections::HashMap;

use storm::comprehension::{collect, collect_if, collect_map, collect_map_if, flat_collect};

fn square(x: i32) -> i32 {
    x * x
}

#[test]
fn simple_comprehension() {
    let range: Vec<usize> = (0..10).collect();
    let squares: Vec<usize> = collect(&range, |x| x * x);
    assert_eq!(squares, vec![0, 1, 4, 9, 16, 25, 36, 49, 64, 81]);
}

#[test]
fn filter_comprehension() {
    let range: Vec<usize> = (0..10).collect();
    let squares = collect_if(&range, |x| x % 2 == 0, |x| x * x);
    assert_eq!(squares, vec![0, 4, 16, 36, 64]);
}

#[test]
fn simple_nested_comprehension() {
    let nested = vec![vec![1, 2, 3], vec![4, 5, 6], vec![7, 8, 9]];
    let flat: Vec<usize> = flat_collect(&nested, |y| collect(y, |x| *x));
    assert_eq!(flat, vec![1, 2, 3, 4, 5, 6, 7, 8, 9]);
}

#[test]
fn filter_nested_comprehension() {
    let nested = vec![vec![1, 2, 3], vec![4, 5, 6], vec![7, 8, 9]];
    let even_flat: Vec<usize> =
        flat_collect(&nested, |y| collect_if(y, |x| x % 2 == 0, |x| *x));
    assert_eq!(even_flat, vec![2, 4, 6, 8]);
}

#[test]
fn repeated_nested_comprehension() {
    let n: i32 = 10;
    let xs: Vec<i32> = (1..n + 1).collect();
    let triples = flat_collect(&xs, |x| {
        let ys: Vec<i32> = (*x..n + 1).collect();
        flat_collect(&ys, |y| {
            let zs: Vec<i32> = (*y..n + 1).collect();
            collect_if(
                &zs,
                |z| x.pow(2) + y.pow(2) == z.pow(2),
                |z| (*x, *y, *z),
            )
        })
    });
    println!("{:?}", triples);
    assert_eq!(triples, vec![(3, 4, 5), (6, 8, 10)]);
}

#[test]
fn iter_nested_comprehension() {
    let xs: Vec<u8> = (0..2u8).collect();
    let x = flat_collect(&vec!['a', 'b'], |y| collect(&xs, |x| (*x, *y)));
    assert_eq!(x, vec![(0, 'a'), (1, 'a'), (0, 'b'), (1, 'b')]);
}

#[test]
fn vector_to_iter_comprehension() {
    let vec: Vec<i32> = vec![-4, -2, 0, 2, 4];
    let output: Vec<i32> = collect(&vec, |x| x * 2);
    assert_eq!(output, vec![-8, -4, 0, 4, 8]);
}

#[test]
fn filter_comprehension_two() {
    let vec: Vec<i32> = vec![-4, -2, 0, 2, 4];
    let output: Vec<i32> = collect_if(&vec, |x| *x >= 0i32, |x| *x);
    assert_eq!(output, vec![0, 2, 4]);
}

#[test]
fn apply_function_comprehension() {
    let vec: Vec<i32> = vec![-4, -2, 0, 2, 4];
    let output: Vec<i32> = collect(&vec, |x| x.abs());
    assert_eq!(output, vec![4, 2, 0, 2, 4]);
}

#[test]
fn apply_user_defined_function() {
    let vec: Vec<i32> = vec![-4, -2, 0, 2, 4];
    let squares: Vec<i32> = collect(&vec, |x| square(*x));
    assert_eq!(squares, vec![16, 4, 0, 4, 16]);
}

#[test]
fn comprehension_over_nothing_is_empty() {
    let none: Vec<i32> = Vec::new();
    assert_eq!(collect(&none, |x| *x), Vec::<i32>::new());
    assert_eq!(collect_if(&none, |_| true, |x| *x), Vec::<i32>::new());
    assert_eq!(flat_collect(&none, |x| vec![*x]), Vec::<i32>::new());
}

#[test]
fn filter_keeps_the_order_of_the_items() {
    let items = vec![5, 1, 4, 2, 3];
    assert_eq!(collect_if(&items, |x| *x > 2, |x| *x * 10), vec![50, 40, 30]);
}

#[test]
fn hashmap_comprehension() {
    let v = vec!["one", "two", "three"];
    let map = collect_map(&v, |key| *key, |key| key.to_uppercase());
    let mut expected: HashMap<&str, String> = HashMap::new();
    expected.insert("one", String::from("ONE"));
    expected.insert("two", String::from("TWO"));
    expected.insert("three", String::from("THREE"));

    assert_eq!(map, expected);
}

#[test]
fn hashmap_comprehension_two() {
    let v = vec!["one", "two", "three"];
    let map = collect_map(&v, |key| format!("{}-true", key), |key| key.to_uppercase());
    let mut expected: HashMap<String, String> = HashMap::new();
    expected.insert(String::from("one-true"), String::from("ONE"));
    expected.insert(String::from("two-true"), String::from("TWO"));
    expected.insert(String::from("three-true"), String::from("THREE"));

    assert_eq!(map, expected);
}

#[test]
fn hashmap_comprehension_three() {
    let v: Vec<(String, i32)> = vec![
        (String::from("one"), 1),
        (String::from("two"), 2),
        (String::from("three"), 3),
    ];
    let map = collect_map(&v, |(key, _)| key.clone(), |(_, val)| *val);

    let mut expected: HashMap<String, i32> = HashMap::new();
    expected.insert(String::from("one"), 1);
    expected.insert(String::from("two"), 2);
    expected.insert(String::from("three"), 3);

    assert_eq!(map, expected);
}

#[test]
fn hashmap_tuple_comprehension() {
    let v: Vec<(&str, i32)> = vec![("one", 1), ("two", 2), ("three", 3)];
    let map = collect_map(&v, |(key, _)| *key, |(_, val)| *val);

    let mut expected: HashMap<&str, i32> = HashMap::new();
    expected.insert("one", 1);
    expected.insert("two", 2);
    expected.insert("three", 3);

    assert_eq!(map, expected);
}

#[test]
fn conditional_hashmap_tuple_comprehension() {
    let v: Vec<(&str, i32)> = vec![("one", 1), ("two", 2), ("three", 3)];
    let map = collect_map_if(
        &v,
        |(_, val)| *val == 1 || *val == 2,
        |(key, _)| *key,
        |(_, val)| *val,
    );

    let mut expected: HashMap<&str, i32> = HashMap::new();
    expected.insert("one", 1);
    expected.insert("two", 2);

    assert_eq!(map, expected);
}

#[test]
fn hashmap_from_iter() {
    let map = collect_map(&vec![1, 2], |key| *key, |key| key * key);
    let mut e: HashMap<i32, i32> = HashMap::new();
    e.insert(1, 1);
    e.insert(2, 4);

    assert_eq!(map, e);
}

#[test]
fn conditional_hashmap_from_iter() {
    let map = collect_map_if(&vec![1, 2], |key| *key % 2 == 0, |key| *key, |key| key * key);
    let mut e: HashMap<i32, i32> = HashMap::new();
    e.insert(2, 4);

    assert_eq!(map, e);
}

#[test]
fn hashmap_from_range() {
    let range: Vec<i32> = (1..3).collect();
    let map = collect_map(&range, |key| *key, |key| key * key);
    let mut e: HashMap<i32, i32> = HashMap::new();
    e.insert(1, 1);
    e.insert(2, 4);

    assert_eq!(map, e);
}

#[test]
fn conditional_hashmap_from_range() {
    let range: Vec<i32> = (1..6).collect();
    let map = collect_map_if(&range, |key| key % 2 == 1, |key| *key, |key| key * key);
    let mut e: HashMap<i32, i32> = HashMap::new();
    e.insert(1, 1);
    e.insert(3, 9);
    e.insert(5, 25);

    assert_eq!(map, e);
}

#[test]
fn a_later_entry_replaces_an_earlier_one_with_the_same_key() {
    let items = vec![(1, 'a'), (2, 'b'), (1, 'c')];
    let map = collect_map(&items, |(key, _)| *key, |(_, val)| *val);
    let mut e: HashMap<i32, char> = HashMap::new();
    e.insert(1, 'c');
    e.insert(2, 'b');
    assert_eq!(map, e);
}
