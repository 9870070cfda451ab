use functional_language_features::counter::Counter;
use functional_language_features::shoes::{shoes_in_my_size, Shoe};

fn counter_values() -> impl Iterator<Item = u32> {
    let mut c = Counter::new();
    std::iter::from_fn(move || c.next())
}

#[test]
fn using_other_iterator_trait_methods() {
    let sum: u32 = counter_values()
        .zip(counter_values().skip(1))
        .map(|(a, b)| a * b)
        .filter(|x| x % 3 == 0)
        .sum();
    assert_eq!(18, sum);
}

#[test]
fn calling_next_directly() {
    let mut counter = Counter::new();
    assert_eq!(counter.next(), Some(1));
    assert_eq!(counter.next(), Some(2));
    assert_eq!(counter.next(), Some(3));
    assert_eq!(counter.next(), Some(4));
    assert_eq!(counter.next(), Some(5));
    assert_eq!(counter.next(), None);
}

#[test]
fn counter_stays_exhausted() {
    let mut counter = Counter::new();
    for expected in 1..=5u32 {
        assert_eq!(counter.next(), Some(expected));
    }
    assert_eq!(counter.next(), None);
    assert_eq!(counter.next(), None);
    assert_eq!(counter.next(), None);
}

#[test]
fn filter_by_size() {
    let shoes = vec![
        Shoe {
            size: 10,
            style: String::from("sneaker"),
        },
        Shoe {
            size: 13,
            style: String::from("sandal"),
        },
        Shoe {
            size: 10,
            style: String::from("boot"),
        },
    ];

    let in_my_size = shoes_in_my_size(shoes, 10);
    assert_eq!(
        in_my_size,
        vec![
            Shoe {
                size: 10,
                style: String::from("sneaker")
            },
            Shoe {
                size: 10,
                style: String::from("boot")
            },
        ]
    )
}

#[test]
fn filter_by_size_none_match() {
    let shoes = vec![
        Shoe {
            size: 9,
            style: String::from("loafer"),
        },
        Shoe {
            size: 13,
            style: String::from("sandal"),
        },
    ];
    assert_eq!(shoes_in_my_size(shoes, 10), Vec::<Shoe>::new());
}

#[test]
fn filter_by_size_empty() {
    assert_eq!(shoes_in_my_size(Vec::new(), 10), Vec::<Shoe>::new());
}

#[test]
fn filter_by_size_all_match_keeps_order() {
    let shoes = vec![
        Shoe {
            size: 7,
            style: String::from("boot"),
        },
        Shoe {
            size: 7,
            style: String::from("clog"),
        },
    ];
    let kept = shoes_in_my_size(shoes, 7);
    assert_eq!(kept.len(), 2);
    assert_eq!(kept[0].style, "boot");
    assert_eq!(kept[1].style, "clog");
}

#[test]
fn iterator_sum() {
    let v1 = vec![1, 2, 3];
    let v1_iter = v1.iter();
    let total: i32 = v1_iter.sum();
    assert_eq!(total, 6);
}

#[test]
fn iterator_adapter_filter() {}

#[test]
fn iterator_collect() {
    let v1: Vec<u32> = vec![1, 2, 3];
    let v2: Vec<_> = v1.iter().map(|x| x + 1).collect();
    assert_eq!(v2, vec![2, 3, 4]);
}
