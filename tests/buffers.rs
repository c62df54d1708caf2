use instanced_scene::buffer::BufferObject;
use instanced_scene::partition::partition;

#[test]
fn lengths_agree_after_create() {
    let b = BufferObject::new(vec![1u32, 2, 3, 4, 5]);
    assert_eq!(b.len(), 5);
    assert_eq!(b.device_len(), 5);
    assert!(b.is_synced());
}

#[test]
fn lengths_agree_after_create_empty() {
    let b: BufferObject<u32> = BufferObject::new(vec![]);
    assert_eq!(b.len(), 0);
    assert_eq!(b.device_len(), 0);
}

#[test]
fn lengths_agree_after_every_operation() {
    let mut b = BufferObject::new(vec![10u64, 20, 30]);
    b.set(1, 7);
    assert_eq!((b.len(), b.device_len()), (3, 3));
    b.for_each_mut(&|x: u64| x + 1);
    assert_eq!((b.len(), b.device_len()), (3, 3));
    b.mut_data()[0] = 99;
    assert_eq!((b.len(), b.device_len()), (3, 3));
    let up = b.update_buffer().to_vec();
    assert_eq!(up.len(), b.device_len());
}

#[test]
fn set_replaces_one_element_and_marks_stale() {
    let mut b = BufferObject::new(vec![1u32, 2, 3]);
    b.set(2, 42);
    assert_eq!(b.ref_data(), &[1, 2, 42]);
    assert_eq!(*b.get(2), 42);
    assert!(!b.is_synced());
}

#[test]
fn update_buffer_hands_out_the_whole_mirror() {
    let mut b = BufferObject::new(vec![5u32, 6, 7]);
    b.set(0, 1);
    let uploaded = b.update_buffer().to_vec();
    assert_eq!(uploaded, vec![1, 6, 7]);
    assert!(b.is_synced());
}

#[test]
fn update_buffer_on_a_fresh_buffer_rewrites_it() {
    let mut b = BufferObject::new(vec![3u8, 4]);
    assert!(b.is_synced());
    assert_eq!(b.update_buffer(), &[3, 4]);
    assert!(b.is_synced());
}

#[test]
fn mut_data_marks_stale() {
    let mut b = BufferObject::new(vec![0i32; 4]);
    for (i, x) in b.mut_data().iter_mut().enumerate() {
        *x = i as i32 * 3;
    }
    assert!(!b.is_synced());
    assert_eq!(b.ref_data(), &[0, 3, 6, 9]);
}

#[test]
fn for_each_in_touches_only_its_range() {
    let mut b = BufferObject::new(vec![1u32, 1, 1, 1, 1]);
    b.for_each_in(1, 3, &|x: u32| x * 10);
    assert_eq!(b.ref_data(), &[1, 10, 10, 1, 1]);
    b.for_each_in(4, 4, &|x: u32| x * 10);
    assert_eq!(b.ref_data(), &[1, 10, 10, 1, 1]);
}

#[test]
fn partition_ten_among_three() {
    assert_eq!(partition(10, 3), vec![(0, 4), (4, 8), (8, 10)]);
}

#[test]
fn partition_exact_split() {
    assert_eq!(partition(12, 4), vec![(0, 3), (3, 6), (6, 9), (9, 12)]);
}

#[test]
fn partition_more_workers_than_items() {
    assert_eq!(partition(3, 8), vec![(0, 1), (1, 2), (2, 3)]);
}

#[test]
fn partition_one_worker_and_empty() {
    assert_eq!(partition(7, 1), vec![(0, 7)]);
    assert_eq!(partition(0, 4), Vec::<(usize, usize)>::new());
}

#[test]
fn partition_largest_length() {
    let r = partition(usize::MAX, 2);
    assert_eq!(r, vec![(0, usize::MAX / 2 + 1), (usize::MAX / 2 + 1, usize::MAX)]);
}

fn step(x: u64) -> u64 {
    x.wrapping_mul(6364136223846793005).wrapping_add(1442695040888963407) >> 7
}

fn update_with_workers(initial: &[u64], workers: usize) -> Vec<u64> {
    let mut b = BufferObject::new(initial.to_vec());
    for (lo, hi) in partition(initial.len(), workers) {
        b.for_each_in(lo, hi, &step);
    }
    b.ref_data().to_vec()
}

#[test]
fn update_same_for_any_worker_count() {
    let initial: Vec<u64> = (0..1000u64).map(|i| i * 7919 + 3).collect();
    let one = update_with_workers(&initial, 1);
    assert_eq!(one, initial.iter().map(|&x| step(x)).collect::<Vec<_>>());
    for workers in [2usize, 3, 7, 16, 1000, 5000] {
        assert_eq!(update_with_workers(&initial, workers), one);
    }
}
