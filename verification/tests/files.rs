//! The file wrapper: the open-flag algebra and the verdicts on the host's
//! return values.

use rtt_rs::base::RTTError;
use rtt_rs::fs::file::APPEND;
use rtt_rs::fs::file::CREATE;
use rtt_rs::fs::file::File;
use rtt_rs::fs::file::OpenOptions;
use rtt_rs::fs::file::READ_ONLY;
use rtt_rs::fs::file::READ_WRITE;
use rtt_rs::fs::file::TRUNCATION;
use rtt_rs::fs::file::WRITE_ONLY;

#[test]
fn raw_open_maps_descriptor() {
    assert_eq!(
        File::raw_open("/a", 0, -1).err(),
        Some(RTTError::FileOpenFailed)
    );
    let f = File::raw_open("/a", 3, 5).unwrap();
    assert_eq!(f.fd, 5);
    assert_eq!(f.flag, 3);
    assert_eq!(f.path, "/a");
}

#[test]
fn open_and_create_fix_their_flags() {
    assert_eq!(File::open("/x", 4).unwrap().flag, READ_ONLY);
    assert_eq!(File::create("/x", 4).unwrap().flag, READ_ONLY | CREATE);
}

#[test]
fn option_flags_cover_the_directions() {
    let mut o = File::with_options();
    o.read(true);
    assert_eq!(o.flags().unwrap(), READ_ONLY);
    let mut o = OpenOptions::new();
    o.write(true);
    assert_eq!(o.flags().unwrap(), WRITE_ONLY);
    let mut o = OpenOptions::new();
    o.read(true).write(true);
    assert_eq!(o.flags().unwrap(), READ_WRITE);
    let o = OpenOptions::new();
    assert_eq!(o.flags().err(), Some(RTTError::FileOpenFailed));
}

#[test]
fn option_flags_stack_the_bits() {
    let mut o = OpenOptions::new();
    o.read(true).write(true).create(true).truncate(true).append(true);
    assert_eq!(o.flags().unwrap(), READ_WRITE | CREATE | TRUNCATION | APPEND);
    let mut o = OpenOptions::new();
    o.write(true).create_new(true);
    assert_eq!(o.flags().unwrap(), WRITE_ONLY | CREATE);
}

#[test]
fn option_open_paths() {
    let mut o = OpenOptions::new();
    o.read(true).create_new(true);
    assert!(o.create_new_check(false).is_ok());
    assert_eq!(o.create_new_check(true).err(), Some(RTTError::FileExist));
    let mut o2 = OpenOptions::new();
    o2.read(true).create_new(true);
    assert_eq!(o2.open("/f", true, 7).err(), Some(RTTError::FileExist));
    let mut o3 = OpenOptions::new();
    o3.read(true);
    let f = o3.open("/f", false, 7).unwrap();
    assert_eq!(f.fd, 7);
    assert_eq!(f.flag, READ_ONLY);
}

#[test]
fn write_checks_full_length() {
    let f = File::raw_open("/w", 1, 2).unwrap();
    let buf = vec![1u8, 2, 3];
    assert!(f.write(&buf, 3).is_ok());
    assert_eq!(f.write(&buf, 2).err(), Some(RTTError::FileWriteFailed));
}

#[test]
fn read_cuts_to_what_arrived() {
    let f = File::raw_open("/r", 0, 2).unwrap();
    let buf = vec![9u8, 8, 7, 6];
    assert_eq!(f.read(4, buf.clone(), 2).unwrap(), vec![9u8, 8]);
    assert_eq!(
        f.read(4, buf.clone(), 0).err(),
        Some(RTTError::FileReadFailed)
    );
    assert_eq!(f.read(4, buf, 5).err(), Some(RTTError::FileReadFailed));
}

#[test]
fn delete_rename_sync_codes() {
    assert!(File::delete(0).is_ok());
    assert_eq!(File::delete(1).err(), Some(RTTError::FileNotExist));
    assert!(File::rename(0).is_ok());
    assert_eq!(File::rename(-1).err(), Some(RTTError::FileReNameFailed));
    let f = File::raw_open("/s", 0, 1).unwrap();
    assert!(f.sync(0).is_ok());
    assert_eq!(f.sync(9).err(), Some(RTTError::FileWriteFailed));
}
