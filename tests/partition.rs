use horrible_game::partition_map::{Partition, PartitionMap, PartitionMapID};

fn p(x: u64, y: u64) -> Partition {
    Partition { x, y }
}

#[test]
fn collides_needs_both_axes() {
    assert!(p(0b0110, 0b0001).collides(&p(0b0100, 0b0011)));
    assert!(!p(0b0110, 0b0001).collides(&p(0b1000, 0b0011)));
    assert!(!p(0b0110, 0b0001).collides(&p(0b0100, 0b0010)));
    assert!(!p(0, 0).collides(&p(0, 0)));
}

#[test]
fn new_map_is_empty() {
    let m = PartitionMap::new(p(1, 1));
    assert!(m.cache().is_empty());
    assert_eq!(m.player(), p(1, 1));
}

#[test]
fn add_hands_out_fresh_ids_and_fills_cache() {
    let mut m = PartitionMap::new(p(0b11, 0b11));
    let a = m.add(p(0b01, 0b01));
    let b = m.add(p(0b100, 0b01));
    let c = m.add(p(0b10, 0b10));
    assert_eq!(a, PartitionMapID(0));
    assert_eq!(b, PartitionMapID(1));
    assert_eq!(c, PartitionMapID(2));
    assert_eq!(m.cache(), &vec![a, c]);
}

#[test]
fn set_player_rebuilds_in_id_order() {
    let mut m = PartitionMap::new(p(0b1, 0b1));
    let a = m.add(p(0b10, 0b10));
    let b = m.add(p(0b1, 0b1));
    let c = m.add(p(0b11, 0b11));
    assert_eq!(m.cache(), &vec![b, c]);
    m.set_player(p(0b10, 0b10));
    assert_eq!(m.cache(), &vec![a, c]);
}

#[test]
fn set_player_twice_with_same_partition_keeps_cache() {
    let mut m = PartitionMap::new(p(0b1, 0b1));
    let a = m.add(p(0b10, 0b10));
    let b = m.add(p(0b110, 0b110));
    m.set_player(p(0b100, 0b100));
    let first = m.cache().clone();
    m.set_player(p(0b100, 0b100));
    assert_eq!(m.cache(), &first);
    assert_eq!(first, vec![b]);
    m.set_player(p(0b10, 0b10));
    assert_eq!(m.cache(), &vec![a, b]);
}

#[test]
fn remove_takes_id_out_of_cache() {
    let mut m = PartitionMap::new(p(0b1, 0b1));
    let a = m.add(p(0b1, 0b1));
    let b = m.add(p(0b1, 0b1));
    m.remove(a);
    assert_eq!(m.cache(), &vec![b]);
    m.set_player(p(0b11, 0b11));
    assert_eq!(m.cache(), &vec![b]);
}

#[test]
fn set_moves_tile_in_and_out_of_cache() {
    let mut m = PartitionMap::new(p(0b1, 0b1));
    let a = m.add(p(0b10, 0b10));
    assert!(m.cache().is_empty());
    m.set(a, p(0b1, 0b1));
    assert_eq!(m.cache(), &vec![a]);
    m.set(a, p(0b100, 0b1));
    assert!(m.cache().is_empty());
    m.set(PartitionMapID(7), p(0b1, 0b1));
    assert!(m.cache().is_empty());
}

#[test]
fn clear_restarts_ids() {
    let mut m = PartitionMap::new(p(0b1, 0b1));
    m.add(p(0b1, 0b1));
    m.add(p(0b1, 0b1));
    m.clear();
    assert!(m.cache().is_empty());
    assert_eq!(m.add(p(0b10, 0b10)), PartitionMapID(0));
    m.reset_cache();
    assert!(m.cache().is_empty());
}
