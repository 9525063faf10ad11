use rabbitmq::channel_pool::{idle_channel_ids, SharedPool};

#[test]
fn a_pool_opens_channels_one_to_capacity() {
    assert_eq!(idle_channel_ids(3), vec![1u16, 2, 3]);
    assert_eq!(idle_channel_ids(0), Vec::<u16>::new());
    assert_eq!(idle_channel_ids(100).len(), 100);
}

#[test]
fn a_pool_capacity_is_cut_to_sixteen_bits() {
    assert_eq!(idle_channel_ids(65536), Vec::<u16>::new());
    assert_eq!(idle_channel_ids(65537), vec![1u16]);
}

#[test]
fn channels_come_out_first_in_first_out() {
    let mut p: SharedPool<u16> = SharedPool::new(3);
    assert_eq!(p.capacity(), 3);
    assert_eq!(p.try_get(), None);
    for id in idle_channel_ids(3) {
        p.put_back(id);
    }
    assert_eq!(p.try_get(), Some(1));
    p.put_back(1);
    assert_eq!(p.try_get(), Some(2));
    assert_eq!(p.try_get(), Some(3));
    assert_eq!(p.try_get(), Some(1));
    assert_eq!(p.try_get(), None);
    assert_eq!(p.capacity(), 3);
}
