use std::collections::HashSet;

use shave::socket::check;
use shave::socket::is_socket;
use shave::socket::socket_inodes;
use shave::socket::FdEntry;

const SOCKET: u32 = 0o140777;
const REGULAR: u32 = 0o100644;
const PIPE: u32 = 0o010600;
const CHAR_DEVICE: u32 = 0o020620;
const DIRECTORY: u32 = 0o040755;

#[test]
fn socket_modes_are_recognised() {
    assert!(is_socket(SOCKET));
    assert!(is_socket(0o140000));
    assert!(!is_socket(REGULAR));
    assert!(!is_socket(PIPE));
    assert!(!is_socket(CHAR_DEVICE));
    assert!(!is_socket(DIRECTORY));
    // A block device shares bits with a socket, but is none.
    assert!(!is_socket(0o060660));
    assert!(!is_socket(0o120777));
}

#[test]
fn only_socket_inodes_are_enumerated() {
    let entries = vec![
        FdEntry::Status { mode: CHAR_DEVICE, inode: 3 },
        FdEntry::Status { mode: SOCKET, inode: 1000734 },
        FdEntry::Unreadable,
        FdEntry::Status { mode: PIPE, inode: 77 },
        FdEntry::Status { mode: SOCKET, inode: 5883 },
        FdEntry::Status { mode: REGULAR, inode: 12 },
        FdEntry::Status { mode: SOCKET, inode: 42 },
    ];
    let inodes = socket_inodes(&entries);
    let found = inodes.iter().copied().collect::<HashSet<_>>();
    let expected = [1000734, 5883, 42].into_iter().collect::<HashSet<_>>();
    assert_eq!(found, expected);
    assert_eq!(inodes, vec![1000734, 5883, 42]);
}

#[test]
fn no_descriptors_no_inodes() {
    assert!(socket_inodes(&Vec::new()).is_empty());
    assert!(socket_inodes(&vec![FdEntry::Unreadable, FdEntry::Status { mode: REGULAR, inode: 1 }]).is_empty());
}

#[test]
fn check_fails_on_the_error_value_only() {
    assert!(check(0, -1).is_ok());
    assert!(check(5, -1).is_ok());
    assert!(check(-1, -1).is_err());
}
