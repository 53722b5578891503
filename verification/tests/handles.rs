use libzfs::{zfs_iter_collect, Error, LibZfs, ZPoolState, ZfsDataset, ZfsError, ZfsType};

const UNKNOWN: u32 = 2100;
const NOT_FOUND: u32 = 2009;

fn session() -> LibZfs {
    LibZfs::new(0x1000, UNKNOWN, 0).unwrap()
}

fn last_error(code: u32, description: &str) -> ZfsError {
    ZfsError {
        code,
        description: String::from(description),
    }
}

fn handles(datasets: &Vec<ZfsDataset>) -> Vec<usize> {
    datasets.iter().map(|d| d.handle()).collect()
}

#[test]
fn failed_initialization_is_a_system_error() {
    match LibZfs::new(0, UNKNOWN, 13) {
        Err(Error::Sys(errno)) => assert_eq!(errno, 13),
        other => panic!("unexpected: {:?}", other),
    }
}

#[test]
fn successful_initialization_owns_the_session() {
    let zfs = LibZfs::new(0xdead0, UNKNOWN, 13).unwrap();
    assert_eq!(zfs.handle(), 0xdead0);
}

#[test]
fn handle_that_is_not_null_is_returned() {
    let zfs = session();
    match zfs.ptr_or_err(0x2000, last_error(NOT_FOUND, "no such pool"), 2) {
        Ok(h) => assert_eq!(h, 0x2000),
        other => panic!("unexpected: {:?}", other),
    }
    match zfs.ptr_or_err(usize::MAX, last_error(UNKNOWN, ""), 2) {
        Ok(h) => assert_eq!(h, usize::MAX),
        other => panic!("unexpected: {:?}", other),
    }
}

#[test]
fn null_handle_with_a_native_error_is_that_error() {
    let zfs = session();
    match zfs.ptr_or_err(0, last_error(NOT_FOUND, "no such pool"), 2) {
        Err(Error::Zfs(e)) => {
            assert_eq!(e.code, NOT_FOUND);
            assert_eq!(e.description, "no such pool");
        }
        other => panic!("unexpected: {:?}", other),
    }
}

#[test]
fn null_handle_with_the_unknown_code_is_a_system_error() {
    let zfs = session();
    match zfs.ptr_or_err(0, last_error(UNKNOWN, "unknown error"), 2) {
        Err(Error::Sys(errno)) => assert_eq!(errno, 2),
        other => panic!("unexpected: {:?}", other),
    }
}

#[test]
fn null_handle_with_the_success_code_is_a_native_error() {
    let zfs = session();
    match zfs.ptr_or_err(0, last_error(0, "no error"), 2) {
        Err(Error::Zfs(e)) => assert_eq!(e.code, 0),
        other => panic!("unexpected: {:?}", other),
    }
}

#[test]
fn classification_goes_by_the_session_s_unknown_code() {
    let zfs = LibZfs::new(0x1000, NOT_FOUND, 0).unwrap();
    match zfs.ptr_or_err(0, last_error(NOT_FOUND, "no such pool"), 5) {
        Err(Error::Sys(errno)) => assert_eq!(errno, 5),
        other => panic!("unexpected: {:?}", other),
    }
    match Error::classify(last_error(7, "x"), 7, -1) {
        Error::Sys(errno) => assert_eq!(errno, -1),
        other => panic!("unexpected: {:?}", other),
    }
    match Error::classify(last_error(7, "x"), 8, -1) {
        Error::Zfs(e) => assert_eq!(e.code, 7),
        other => panic!("unexpected: {:?}", other),
    }
}

#[test]
fn existing_pool_is_opened_and_named() {
    let zfs = session();
    let pool = zfs
        .pool_by_name(0x3000, last_error(0, ""), 0)
        .unwrap();
    assert_eq!(pool.handle(), 0x3000);
    let name = pool.get_name(vec![b't', b'a', b'n', b'k']);
    assert_eq!(name.as_str(), "tank");
    assert_eq!(pool.get_state(0), ZPoolState::Active);
    assert_eq!(pool.get_state(6), ZPoolState::Unavailable);
}

#[test]
fn missing_pool_is_an_error() {
    let zfs = session();
    match zfs.pool_by_name(0, last_error(NOT_FOUND, "no such pool 'nonexistent'"), 2) {
        Err(Error::Zfs(e)) => {
            assert_eq!(e.code, NOT_FOUND);
            assert_eq!(e.description, "no such pool 'nonexistent'");
        }
        other => panic!("unexpected: {:?}", other),
    }
    match zfs.pool_by_name(0, last_error(UNKNOWN, ""), 2) {
        Err(Error::Sys(errno)) => assert_eq!(errno, 2),
        other => panic!("unexpected: {:?}", other),
    }
}

#[test]
fn missing_dataset_is_an_error() {
    let zfs = session();
    match zfs.dataset_by_name(0, last_error(NOT_FOUND, "dataset does not exist"), 2) {
        Err(Error::Zfs(e)) => assert_eq!(e.code, NOT_FOUND),
        other => panic!("unexpected: {:?}", other),
    }
    match zfs.dataset_by_name(0, last_error(UNKNOWN, ""), 22) {
        Err(Error::Sys(errno)) => assert_eq!(errno, 22),
        other => panic!("unexpected: {:?}", other),
    }
}

#[test]
fn existing_dataset_is_opened_and_queried() {
    let zfs = session();
    let data = zfs
        .dataset_by_name(0x4000, last_error(0, ""), 0)
        .unwrap();
    assert_eq!(data.handle(), 0x4000);
    assert_eq!(data.get_type(1), ZfsType::Filesystem);
    assert_eq!(data.get_type(2), ZfsType::Snapshot);
    assert_eq!(
        data.get_name(vec![b't', b'a', b'n', b'k', b'/', b'd', b'a', b't', b'a']).as_str(),
        "tank/data"
    );
    assert_eq!(
        data.get_pool_name(vec![b't', b'a', b'n', b'k']).as_str(),
        "tank"
    );
    assert_eq!(data.get_pool(0x3000).handle(), 0x3000);
}

#[test]
fn children_and_filesystems_hold_what_their_walks_visited() {
    let zfs = session();
    let data = zfs
        .dataset_by_name(0x4000, last_error(0, ""), 0)
        .unwrap();
    let child_filesystem = 0x5000;
    let snapshot = 0x6000;
    let filesystems = data.get_filesystems(&vec![child_filesystem]);
    assert_eq!(handles(&filesystems), vec![child_filesystem]);
    let children = data.get_children(&vec![child_filesystem, snapshot]);
    assert_eq!(handles(&children), vec![child_filesystem, snapshot]);
    let snapshots = data.get_snapshots(&vec![snapshot]);
    assert_eq!(handles(&snapshots), vec![snapshot]);
}

#[test]
fn ordered_snapshots_keep_the_order_of_the_walk() {
    let zfs = session();
    let data = zfs
        .dataset_by_name(0x4000, last_error(0, ""), 0)
        .unwrap();
    let (first, second, third) = (0x9000, 0x7000, 0x8000);
    let snapshots = data.get_snapshots_ordered(&vec![first, second, third]);
    assert_eq!(handles(&snapshots), vec![first, second, third]);
}

#[test]
fn an_empty_walk_gives_no_datasets() {
    let data = session()
        .dataset_by_name(0x4000, last_error(0, ""), 0)
        .unwrap();
    assert!(data.get_snapshots(&Vec::new()).is_empty());
    assert!(data.get_snapshots_ordered(&Vec::new()).is_empty());
    assert!(data.get_filesystems(&Vec::new()).is_empty());
    assert!(data.get_children(&Vec::new()).is_empty());
}

#[test]
fn every_visit_is_collected_exactly_once() {
    let data = session()
        .dataset_by_name(0x4000, last_error(0, ""), 0)
        .unwrap();
    let visited: Vec<usize> = (1..=100).map(|i| 0x10000 + 8 * i).collect();
    let children = data.get_children(&visited);
    assert_eq!(children.len(), 100);
    assert_eq!(handles(&children), visited);
}

#[test]
fn the_step_of_a_walk_appends_and_goes_on() {
    let mut collected: Vec<ZfsDataset> = Vec::new();
    assert_eq!(zfs_iter_collect(0x5000, &mut collected), 0);
    assert_eq!(zfs_iter_collect(0x6000, &mut collected), 0);
    assert_eq!(zfs_iter_collect(0x5000, &mut collected), 0);
    assert_eq!(handles(&collected), vec![0x5000, 0x6000, 0x5000]);
}

#[test]
fn a_clone_holds_the_duplicate_handle() {
    let data = session()
        .dataset_by_name(0x4000, last_error(0, ""), 0)
        .unwrap();
    let copy = data.clone(0x4100);
    assert_eq!(copy.handle(), 0x4100);
    assert_eq!(data.handle(), 0x4000);
    drop(data);
    assert_eq!(copy.handle(), 0x4100);
    assert_eq!(copy.get_type(1), ZfsType::Filesystem);
    assert_eq!(copy.get_name(vec![b'a']).as_str(), "a");
}

#[test]
fn pool_state_is_read_from_the_bits_of_a_signed_integer() {
    let pool = session().pool_by_name(0x3000, last_error(0, ""), 0).unwrap();
    let states = [
        ZPoolState::Active,
        ZPoolState::Exported,
        ZPoolState::Destroyed,
        ZPoolState::Spare,
        ZPoolState::L2Cache,
        ZPoolState::Uninitialized,
        ZPoolState::Unavailable,
        ZPoolState::PotentiallyActive,
    ];
    for (raw, state) in states.iter().enumerate() {
        assert_eq!(pool.get_state(raw as i32), *state);
    }
}
