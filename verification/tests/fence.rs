use render_hal_vk::fence::FenceState;
use render_hal_vk::fence::ObjectPool;
use render_hal_vk::fence::WAIT_COUNT;
use render_hal_vk::fence::WAIT_THRESHOLD;

#[test]
fn pool_reuses_most_recently_freed() {
    let mut pool = ObjectPool::new();
    assert_eq!(pool.get(Some(1)), 1);
    assert_eq!(pool.get(Some(2)), 2);
    assert_eq!(pool.front(), Some(1));
    pool.pop_all();
    assert!(!pool.has_used());
    assert_eq!(pool.free_objects, vec![1, 2]);
    assert_eq!(pool.get(None), 2);
    assert_eq!(pool.used_objects, vec![2]);
}

#[test]
fn pop_front_frees_but_keeps_in_use() {
    let mut pool = ObjectPool::new();
    pool.get(Some(5));
    pool.get(Some(6));
    pool.pop_front();
    assert_eq!(pool.used_objects, vec![5, 6]);
    assert_eq!(pool.free_objects, vec![5]);
    let mut empty = ObjectPool::new();
    empty.pop_front();
    assert!(empty.free_objects.is_empty());
    assert_eq!(empty.front(), None);
}

#[test]
fn signal_raises_cpu_value_and_takes_objects() {
    let mut fence = FenceState::new();
    assert_eq!(fence.cpu_value(), 1);
    let plan = fence.signal_gpu(Some(100), Some(200));
    assert_eq!(plan.value, 1);
    assert_eq!((plan.fence, plan.semaphore), (100, 200));
    assert!(plan.wait_semaphores.is_empty());
    assert_eq!(fence.cpu_value(), 2);
    assert_eq!(fence.sync_gpu_waits(), vec![200]);
    assert_eq!(fence.sync_cpu_fences(), vec![100]);
}

#[test]
fn completed_fence_raises_gpu_value() {
    let mut fence = FenceState::new();
    fence.signal_gpu(Some(100), Some(200));
    assert!(!fence.observe_front_fence(false));
    assert_eq!(fence.gpu_value, 0);
    assert!(fence.observe_front_fence(true));
    assert_eq!(fence.gpu_value, 1);
    assert_eq!(fence.fences.free_objects, vec![100]);
    let plan = fence.signal_gpu(None, Some(201));
    assert_eq!(plan.fence, 100);
}

#[test]
fn wait_list_is_trimmed_over_the_threshold() {
    let mut fence = FenceState::new();
    let mut last = None;
    for i in 0..(WAIT_THRESHOLD as u64 + 1) {
        let fresh_fence = if fence.fences.free_objects.is_empty() { Some(1000 + i) } else { None };
        let fresh_semaphore = if fence.semaphores.free_objects.is_empty() { Some(i) } else { None };
        last = Some(fence.signal_gpu(fresh_fence, fresh_semaphore));
    }
    let plan = last.unwrap();
    assert_eq!(plan.wait_semaphores, (0..WAIT_COUNT as u64).collect::<Vec<u64>>());
    assert_eq!(fence.wait_list, vec![WAIT_THRESHOLD as u64]);
}

#[test]
fn release_marks_unfenced_semaphores_free() {
    let mut fence = FenceState::new();
    fence.signal_gpu(Some(1), Some(11));
    fence.signal_gpu(Some(2), Some(12));
    fence.wait_list.clear();
    fence.fences.used_objects.remove(0);
    fence.release_semaphores();
    assert_eq!(fence.semaphores.free_objects, vec![11]);
    assert_eq!(fence.semaphores.used_objects, vec![11, 12]);
}
