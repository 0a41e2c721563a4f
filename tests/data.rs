use objc_foundation::data::{INSData, INSMutableData, NSData, NSMutableData};
use objc_foundation::id::Id;
use objc_foundation::object::{INSCopying, INSMutableCopying, INSObject};

#[test]
fn test_bytes() {
    let bytes = [3u8, 7, 16, 52, 112, 19];
    let data: Id<NSData> = INSData::with_bytes(&bytes);
    assert!(data.len() == bytes.len());
    assert!(data.bytes() == bytes.as_slice());
}

#[test]
fn test_no_bytes() {
    let data: Id<NSData> = INSObject::new();
    assert!(Some(data.bytes()).is_some());
}

#[test]
fn with_bytes_empty_round_trip() {
    let data: Id<NSData> = NSData::with_bytes(&[]);
    assert_eq!(data.len(), 0);
    assert_eq!(data.bytes(), &[] as &[u8]);
}

#[test]
fn new_buffers_are_empty() {
    let data: Id<NSData> = NSData::new();
    assert_eq!(data.len(), 0);
    assert_eq!(data.bytes().len(), 0);
    let mdata: Id<NSMutableData> = NSMutableData::new();
    assert_eq!(mdata.len(), 0);
    assert_eq!(mdata.bytes().len(), 0);
}

#[test]
fn empty_mutable_bytes_mut() {
    let empty: Id<NSMutableData> = NSMutableData::new();
    let mut empty = match empty.try_unwrap() {
        Ok(d) => d,
        Err(_) => panic!("a fresh owner is the only one"),
    };
    assert_eq!(empty.bytes_mut().len(), 0);
}

#[test]
fn bytes_mut_writes_through() {
    let mut data = NSMutableData::with_bytes(&[1, 2, 3]).try_unwrap().ok().unwrap();
    data.bytes_mut()[1] = 9;
    assert_eq!(data.bytes(), &[1u8, 9, 3]);
}

#[test]
fn clone_is_equal_and_outlives_the_other() {
    let p: Id<NSData> = NSData::with_bytes(&[5, 6]);
    let c = p.clone();
    assert!(c.is_equal(&p));
    drop(c);
    assert_eq!(p.bytes(), &[5u8, 6]);
    let c2 = p.clone();
    drop(p);
    assert_eq!(c2.bytes(), &[5u8, 6]);
}

#[test]
fn shared_owner_cannot_unwrap() {
    let p: Id<NSMutableData> = NSMutableData::with_bytes(&[1]);
    let c = p.clone();
    let p = match p.try_unwrap() {
        Ok(_) => panic!("the object has two owners"),
        Err(p) => p,
    };
    drop(c);
    assert!(p.try_unwrap().is_ok());
}

#[test]
fn two_new_buffers_are_equal() {
    let a: Id<NSData> = NSData::new();
    let b: Id<NSData> = NSData::new();
    assert!(a.is_equal(&b));
    assert_eq!(a.hash_code(), b.hash_code());
}

#[test]
fn different_buffers_are_not_equal() {
    let a: Id<NSData> = NSData::with_bytes(&[1, 2]);
    let b: Id<NSData> = NSData::with_bytes(&[1, 3]);
    let c: Id<NSData> = NSData::with_bytes(&[1]);
    assert!(!a.is_equal(&b));
    assert!(!a.is_equal(&c));
}

#[test]
fn hash_is_the_length() {
    let a: Id<NSData> = NSData::with_bytes(&[9, 8, 7]);
    assert_eq!(a.hash_code(), 3);
}

#[test]
fn append_concatenates() {
    let mut b = NSMutableData::with_bytes(&[1, 2, 3]).try_unwrap().ok().unwrap();
    b.append(&[4, 5]);
    assert_eq!(b.bytes(), &[1u8, 2, 3, 4, 5]);
    b.append(&[]);
    assert_eq!(b.bytes(), &[1u8, 2, 3, 4, 5]);
}

#[test]
fn replace_whole_range_overwrites() {
    let mut b = NSMutableData::with_bytes(&[1, 2, 3]).try_unwrap().ok().unwrap();
    let len = b.len();
    b.replace_range(0..len, &[7, 8]);
    assert_eq!(b.bytes(), &[7u8, 8]);
}

#[test]
fn set_bytes_overwrites() {
    let mut b = NSMutableData::with_bytes(&[1, 2, 3]).try_unwrap().ok().unwrap();
    b.set_bytes(&[9, 9, 9, 9]);
    assert_eq!(b.bytes(), &[9u8, 9, 9, 9]);
    b.set_bytes(&[]);
    assert_eq!(b.len(), 0);
}

#[test]
fn replace_middle_range() {
    let mut b = NSMutableData::with_bytes(&[1, 2, 3, 4]).try_unwrap().ok().unwrap();
    b.replace_range(1..3, &[7, 7, 7]);
    assert_eq!(b.bytes(), &[1u8, 7, 7, 7, 4]);
    b.replace_range(5..5, &[6]);
    assert_eq!(b.bytes(), &[1u8, 7, 7, 7, 4, 6]);
}

#[test]
fn set_len_cuts_and_extends_with_zeros() {
    let mut b = NSMutableData::with_bytes(&[1, 2, 3]).try_unwrap().ok().unwrap();
    b.set_len(1);
    assert_eq!(b.bytes(), &[1u8]);
    b.set_len(4);
    assert_eq!(b.bytes(), &[1u8, 0, 0, 0]);
    b.set_len(4);
    assert_eq!(b.bytes(), &[1u8, 0, 0, 0]);
}

#[test]
fn copies_keep_the_bytes() {
    let m = NSMutableData::with_bytes(&[4, 2]);
    let frozen: Id<NSData> = m.copy();
    assert_eq!(frozen.bytes(), &[4u8, 2]);
    let again: Id<NSMutableData> = m.mutable_copy();
    assert_eq!(again.bytes(), &[4u8, 2]);
    let d = NSData::with_bytes(&[1]);
    let dm: Id<NSMutableData> = d.mutable_copy();
    let mut dm = dm.try_unwrap().ok().unwrap();
    dm.append(&[2]);
    assert_eq!(dm.bytes(), &[1u8, 2]);
    assert_eq!(d.bytes(), &[1u8]);
    let dc: Id<NSData> = d.copy();
    assert!(dc.is_equal(&d));
}

#[test]
fn class_names() {
    assert_eq!(NSData::class_name(), "NSData");
    assert_eq!(NSMutableData::class_name(), "NSMutableData");
}

#[test]
fn data_description_groups_four_bytes() {
    let data: Id<NSData> = NSData::with_bytes(&[3, 7, 16, 52, 112, 19]);
    assert_eq!(data.description(), "<03071034 7013>");
    let empty: Id<NSMutableData> = NSMutableData::new();
    assert_eq!(empty.description(), "<>");
    let four: Id<NSData> = NSData::with_bytes(&[0xde, 0xad, 0xbe, 0xef]);
    assert_eq!(four.description(), "<deadbeef>");
    let nine: Id<NSData> = NSData::with_bytes(&[0, 1, 2, 3, 4, 5, 6, 7, 255]);
    assert_eq!(nine.description(), "<00010203 04050607 ff>");
}
