use jobpool::iter::{generate_workout, shoes_in_my_size, Cacher, Counter, Shoe, WorkoutPlan};

#[test]
fn iterator_demonstration() {
    let v1 = vec![1, 2, 3];

    let mut v1_iter = v1.iter();

    assert_eq!(v1_iter.next(), Some(&1));
    assert_eq!(v1_iter.next(), Some(&2));
    assert_eq!(v1_iter.next(), Some(&3));
    assert_eq!(v1_iter.next(), None);
}

#[test]
fn iterator_sum() {
    let v1 = vec![1, 2, 3];

    let v1_iter = v1.iter();

    let total: i32 = v1_iter.sum();

    assert_eq!(total, 6);
}

#[test]
fn filters_by_size() {
    let shoes = vec![
        Shoe { size: 10, style: String::from("sneaker") },
        Shoe { size: 13, style: String::from("sandal") },
        Shoe { size: 10, style: String::from("boot") },
    ];

    let in_my_size = shoes_in_my_size(shoes, 10);

    assert_eq!(
        in_my_size,
        vec![
            Shoe { size: 10, style: String::from("sneaker") },
            Shoe { size: 10, style: String::from("boot") },
        ]
    );
}

#[test]
fn calling_next_directly() {
    let mut counter = Counter::new();

    assert_eq!(counter.next(), Some(1));
    assert_eq!(counter.next(), Some(2));
    assert_eq!(counter.next(), Some(3));
    assert_eq!(counter.next(), Some(4));
    assert_eq!(counter.next(), Some(5));
    assert_eq!(counter.next(), None);
    assert_eq!(counter.next(), None);
}

#[test]
fn using_other_iterator_trait_methods() {
    // Pair each value of one counter with the next value of a second one,
    // multiply the pairs, keep the products divisible by three, and sum.
    let mut first = Counter::new();
    let mut second = Counter::new();
    let _ = second.next();
    let mut sum: u32 = 0;
    loop {
        let a = match first.next() {
            Some(a) => a,
            None => break,
        };
        let b = match second.next() {
            Some(b) => b,
            None => break,
        };
        let product = a * b;
        if product % 3 == 0 {
            sum += product;
        }
    }
    assert_eq!(18, sum);
}

#[test]
fn call_with_different_values() {
    let mut c = Cacher::new(|a| a);

    let _v1 = c.value(1);
    let v2 = c.value(2);

    assert_eq!(v2, 2);
}

#[test]
fn cacher_remembers_first_answer() {
    let mut c = Cacher::new(|a| a * 2);

    assert_eq!(c.value(3), 6);
    assert_eq!(c.value(3), 6);
    assert_eq!(c.value(5), 10);
}

#[test]
fn workout_plans_follow_intensity_and_luck() {
    let mut c = Cacher::new(|a| a * 2);
    assert_eq!(generate_workout(&mut c, 10, 7), WorkoutPlan::Exercises(20));
    assert_eq!(generate_workout(&mut c, 30, 3), WorkoutPlan::Break);
    assert_eq!(generate_workout(&mut c, 30, 7), WorkoutPlan::Run(60));
}

#[test]
fn test_fn() {
    let x = 4;

    let equal_to_x = |z| z == x;

    let y = 4;

    assert!(equal_to_x(y));
}

#[test]
fn closure_ownership_via_move() {
    let x = vec![1, 2, 3];
    let k = x.clone();

    let equal_to_x = |z| z == x;

    let y = vec![1, 2, 3];

    assert!(equal_to_x(y));
    assert!(equal_to_x(k));
}
