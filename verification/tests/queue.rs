use mpmc::queue::Queue;

fn crosses_threads<Q: Send + Sync>() {}

#[test]
fn handles_can_be_sent_and_shared() {
    crosses_threads::<Queue<i32>>();
    crosses_threads::<Queue<String>>();
    crosses_threads::<Queue<Vec<u8>>>();
}

#[test]
fn fill_take_one_refill_and_drain() {
    let q: Queue<u32> = Queue::with_capacity(10);
    for value in 0..10 {
        q.put(value);
    }
    assert_eq!(q.take(), 0);
    q.put(10);
    for expected in 1..=10 {
        assert_eq!(q.take(), expected);
    }
}

#[test]
fn capacity_of_one_alternates() {
    let q: Queue<u8> = Queue::with_capacity(1);
    for round in 0..50u8 {
        q.put(round);
        assert_eq!(q.take(), round);
    }
}

#[test]
fn a_clone_is_the_same_queue() {
    let first: Queue<&str> = Queue::with_capacity(4);
    let second = first.clone();
    first.put("a");
    second.put("b");
    first.put("c");
    assert_eq!(second.take(), "a");
    assert_eq!(first.take(), "b");
    assert_eq!(second.clone().take(), "c");
}

#[test]
fn a_handle_of_values_that_cannot_be_cloned_can() {
    struct Token(u32);
    let first: Queue<Token> = Queue::with_capacity(2);
    let second = first.clone();
    first.put(Token(5));
    assert_eq!(second.take().0, 5);
}

#[test]
fn the_queue_outlives_the_handle_that_made_it() {
    let first: Queue<u64> = Queue::with_capacity(3);
    let second = first.clone();
    first.put(41);
    first.put(42);
    drop(first);
    assert_eq!(second.take(), 41);
    assert_eq!(second.take(), 42);
}

#[test]
fn owned_values_pass_through_unchanged() {
    let q: Queue<String> = Queue::with_capacity(3);
    q.put(String::from("first"));
    q.put(String::from("second"));
    assert_eq!(q.take(), "first");
    q.put(String::from("third"));
    assert_eq!(q.take(), "second");
    assert_eq!(q.take(), "third");
}

#[test]
fn what_was_put_and_not_taken_is_still_there() {
    let q: Queue<i64> = Queue::with_capacity(8);
    for value in 0..5 {
        q.put(value);
    }
    assert_eq!(q.take(), 0);
    assert_eq!(q.take(), 1);
    // Five in, two out: three are left, and taking them does not block.
    assert_eq!(q.take(), 2);
    assert_eq!(q.take(), 3);
    assert_eq!(q.take(), 4);
}

#[test]
fn a_hundred_values_through_ten_places_sum_to_4950() {
    let q: Queue<u32> = Queue::with_capacity(10);
    let mut total = 0;
    let mut next = 0;
    let mut taken = 0;
    while taken < 100 {
        let mut room = 10;
        while next < 100 && room > 0 {
            q.put(next);
            next += 1;
            room -= 1;
        }
        for _ in 0..(10 - room) {
            total += q.take();
            taken += 1;
        }
    }
    assert_eq!(total, 4950);
}

#[test]
fn the_capacity_is_the_number_the_queue_was_made_with() {
    let one: Queue<i32> = Queue::with_capacity(1);
    assert_eq!(one.capacity(), 1);
    let ten: Queue<String> = Queue::with_capacity(10);
    assert_eq!(ten.capacity(), 10);
}

#[test]
fn the_capacity_stays_and_every_handle_gives_it() {
    let first: Queue<u8> = Queue::with_capacity(3);
    let second = first.clone();
    assert_eq!(second.capacity(), 3);
    first.put(1);
    first.put(2);
    first.put(3);
    assert_eq!(first.capacity(), 3);
    assert_eq!(second.take(), 1);
    assert_eq!(second.capacity(), 3);
    assert_eq!(first.capacity(), 3);
}
