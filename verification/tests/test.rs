use mpmc::queue::Queue;

#[test]
fn test_single_thread_use() {
    let q = Queue::with_capacity(10);

    for i in 0..10 {
        q.put(i);
    }

    for j in 10..20 {
        assert_eq!(q.take(), j - 10);
        q.put(j);
    }

    for k in 10..20 {
        assert_eq!(q.take(), k);
    }
}
