use motoro::vulkan::buffer::MemoryBuffer;
use motoro::vulkan::variables::storage::{Storage, SENTINEL};
use motoro::vulkan::variables::variable::BufferWrite;

fn buffers(frames: usize) -> Vec<MemoryBuffer> {
    (0..frames)
        .map(|frame| MemoryBuffer {
            handle: 100 + frame as u64,
            memory: 200 + frame as u64,
        })
        .collect()
}

#[test]
fn test_something() {}

#[test]
fn create_fills_with_defaults() {
    let storage: Storage<u32> = Storage::create(buffers(2), 4);
    assert_eq!(storage.capacity(), 4);
    assert_eq!(storage.frames(), 2);
    assert_eq!(storage.range(), 16);
    assert!(storage.is_empty());
    assert!(!storage.is_full());
    assert_eq!(storage.staged(), &vec![0, 0, 0, 0]);
    assert_eq!(
        storage.buffer(1),
        MemoryBuffer {
            handle: 101,
            memory: 201
        }
    );
}

#[test]
fn range_of_counts_bytes() {
    assert_eq!(Storage::<u64>::range_of(3), Some(24));
    assert_eq!(Storage::<()>::range_of(usize::MAX), Some(0));
    assert_eq!(Storage::<u8>::range_of(0), Some(0));
}

#[test]
fn push_fills_the_capacity_and_then_rejects() {
    let mut storage: Storage<u32> = Storage::create(buffers(2), 3);
    assert_eq!(storage.push(7), 0);
    assert_eq!(storage.push(8), 1);
    assert_eq!(storage.push(9), 2);
    assert!(storage.is_full());
    assert_eq!(storage.push(10), SENTINEL);
    assert_eq!(storage.staged(), &vec![7, 8, 9]);
    assert!(storage.is_full());
}

#[test]
fn push_fills_every_capacity_up_to_forty() {
    for n in 0..40usize {
        let mut storage: Storage<usize> = Storage::create(buffers(1), n);
        for value in 0..n {
            assert!(!storage.is_full());
            assert_eq!(storage.push(value + 1000), value as u32);
        }
        assert!(storage.is_full());
        let before = storage.staged().clone();
        assert_eq!(storage.push(5), SENTINEL);
        assert_eq!(storage.staged(), &before);
        assert_eq!(before, (0..n).map(|value| value + 1000).collect::<Vec<_>>());
    }
}

#[test]
fn push_into_nothing_is_rejected() {
    let mut storage: Storage<u8> = Storage::create(buffers(1), 0);
    assert_eq!(storage.push(1), SENTINEL);
    assert!(storage.is_empty());
}

#[test]
fn take_and_update_resets_the_cursor() {
    let mut storage: Storage<u32> = Storage::create(buffers(2), 3);
    storage.push(7);
    storage.push(8);
    assert_eq!(storage.take_and_update(1), 2);
    assert!(storage.is_empty());
    assert_eq!(storage.staged(), &vec![7, 8, 0]);
    assert_eq!(storage.push(9), 0);
    assert_eq!(storage.staged(), &vec![9, 8, 0]);
    assert_eq!(storage.capacity(), 3);
    assert_eq!(storage.take_and_update(0), 1);
    assert_eq!(storage.take_and_update(0), 0);
}

#[test]
fn extend_takes_a_run_up_to_the_last_slot() {
    let mut storage: Storage<u32> = Storage::create(buffers(1), 5);
    assert_eq!(storage.push(1), 0);
    assert_eq!(storage.extend(&[2, 3]), 1);
    assert_eq!(storage.staged(), &vec![1, 2, 3, 0, 0]);
    assert_eq!(storage.extend(&[4, 5, 6]), SENTINEL);
    assert_eq!(storage.staged(), &vec![1, 2, 3, 0, 0]);
    assert_eq!(storage.len(), 3);
    assert_eq!(storage.extend(&[4, 5]), 3);
    assert_eq!(storage.staged(), &vec![1, 2, 3, 4, 5]);
    assert!(storage.is_full());
    assert_eq!(storage.extend(&[6]), SENTINEL);
    assert_eq!(storage.push(6), SENTINEL);
    assert_eq!(storage.staged(), &vec![1, 2, 3, 4, 5]);
    assert_eq!(storage.take_and_update(0), 5);
    assert_eq!(storage.extend(&[]), 0);
    assert!(storage.is_empty());
    assert_eq!(storage.extend(&[7, 8, 9, 10, 11]), 0);
    assert_eq!(storage.staged(), &vec![7, 8, 9, 10, 11]);
}

#[test]
fn the_sentinel_is_no_index() {
    assert_eq!(SENTINEL, u32::MAX);
    let mut storage: Storage<u8> = Storage::create(buffers(1), 1);
    assert_eq!(storage.push(1), 0);
    assert_ne!(storage.push(2), 0);
    assert_eq!(storage.push(2), SENTINEL);
}

#[test]
fn layout_binds_each_frame_buffer_to_its_set() {
    let storage: Storage<u32> = Storage::create(buffers(2), 4);
    let (variable, writes) = storage.layout(3, 4, 77, vec![500, 501]);
    assert_eq!(variable.set, 3);
    assert_eq!(variable.binding, 4);
    assert_eq!(variable.layout, 77);
    assert_eq!(variable.descriptor(1), 501);
    assert_eq!(
        writes,
        vec![
            BufferWrite {
                dst_set: 500,
                dst_binding: 4,
                dst_array_element: 0,
                buffer: 100,
                offset: 0,
                range: 16
            },
            BufferWrite {
                dst_set: 501,
                dst_binding: 4,
                dst_array_element: 0,
                buffer: 101,
                offset: 0,
                range: 16
            },
        ]
    );
    let bindings = Storage::<u32>::bindings(4);
    assert_eq!(bindings.len(), 1);
    assert_eq!(bindings[0].binding, 4);
    assert_eq!(bindings[0].descriptor_type, 7);
    assert_eq!(bindings[0].stages, 0x11);
    assert_eq!(bindings[0].count, 1);
}
