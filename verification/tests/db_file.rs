use wosim::db::bytes::{byte_order_of_probe, native_byte_order, ByteOrder};
use wosim::db::file::{DatabaseRef, File, FileError, FileHeader, SeekFrom, HEADER_SIZE, PAGE_SIZE};

#[test]
fn file_header_pages_rounds_up() {
    assert_eq!(FileHeader { root: 0, len: 0 }.pages(), 0);
    assert_eq!(FileHeader { root: 0, len: 1 }.pages(), 1);
    assert_eq!(FileHeader { root: 0, len: PAGE_SIZE as u64 }.pages(), 1);
    assert_eq!(FileHeader { root: 0, len: PAGE_SIZE as u64 + 1 }.pages(), 2);
}

#[test]
fn file_header_bytes_in_both_orders() {
    let h = FileHeader { root: 0x01020304, len: 0x0a0b0c0d0e0f1011 };
    let le = h.to_bytes(ByteOrder::Little);
    assert_eq!(le, vec![4, 3, 2, 1, 0x11, 0x10, 0x0f, 0x0e, 0x0d, 0x0c, 0x0b, 0x0a]);
    let be = h.to_bytes(ByteOrder::Big);
    assert_eq!(be, vec![1, 2, 3, 4, 0x0a, 0x0b, 0x0c, 0x0d, 0x0e, 0x0f, 0x10, 0x11]);
    let back = FileHeader::from_bytes(&be, ByteOrder::Big);
    assert_eq!((back.root, back.len), (h.root, h.len));
}

#[test]
fn native_order_matches_std() {
    let expected = if u16::from_ne_bytes([1, 0]) == 1 { ByteOrder::Little } else { ByteOrder::Big };
    assert_eq!(native_byte_order(), expected);
    let h = FileHeader { root: 9, len: 77 };
    let mut expected_bytes = h.root.to_ne_bytes().to_vec();
    expected_bytes.extend_from_slice(&h.len.to_ne_bytes());
    let f = File::new(DatabaseRef::new());
    let empty = f.serialize();
    assert_eq!(empty, vec![0u8; HEADER_SIZE]);
    assert_eq!(h.to_bytes(native_byte_order()), expected_bytes);
}

#[test]
fn file_write_then_read_back() {
    let mut f = File::new(DatabaseRef::new());
    let data: Vec<u8> = (0..10000u32).map(|i| (i % 251) as u8).collect();
    {
        let mut w = f.write();
        assert_eq!(w.write(&data), data.len());
        assert_eq!(w.pos, data.len() as u64);
    }
    let mut r = f.read();
    let back = r.read(20000);
    assert_eq!(back, data);
    assert_eq!(r.read(10), Vec::<u8>::new());
    r.seek(SeekFrom::Start(4090));
    assert_eq!(r.read(10), data[4090..4100].to_vec());
    r.seek(SeekFrom::End(-3));
    assert_eq!(r.read(10), data[9997..].to_vec());
}

#[test]
fn file_write_past_end_fills_with_zeros() {
    let mut f = File::new(DatabaseRef::new());
    {
        let mut w = f.write();
        w.seek(SeekFrom::Start(5));
        w.write(&[1, 2, 3]);
    }
    let mut r = f.read();
    assert_eq!(r.read(100), vec![0, 0, 0, 0, 0, 1, 2, 3]);
}

#[test]
fn file_set_len_keeps_prefix_and_serializes() {
    let mut f = File::new(DatabaseRef::new());
    {
        let mut w = f.write();
        w.write(b"hello world");
        w.set_len(5);
        let p = w.seek(SeekFrom::Current(0));
        assert_eq!(p, 11);
    }
    let mut r = f.read();
    assert_eq!(r.read(100), b"hello".to_vec());
    let bytes = f.serialize();
    assert_eq!(bytes.len(), HEADER_SIZE);
    assert_eq!(bytes[4..12].to_vec(), 5u64.to_ne_bytes().to_vec());
    assert_eq!(bytes[0..4].to_vec(), 1u32.to_ne_bytes().to_vec());
}

#[test]
fn file_deserialize_takes_any_header() {
    assert_eq!(File::deserialize(&[0u8; 5], DatabaseRef::new()).err(), Some(FileError::UnexpectedEof));
    let h = FileHeader { root: 3, len: 10 };
    let bytes = h.to_bytes(native_byte_order());
    let f = File::deserialize(&bytes, DatabaseRef::new()).ok().unwrap();
    assert_eq!(f.len(), 10);
    assert_eq!(f.serialize(), bytes);
    assert!(!f.fits());
    let empty = FileHeader { root: 0, len: 0 }.to_bytes(native_byte_order());
    let g = File::deserialize(&empty, DatabaseRef::new()).ok().unwrap();
    assert!(g.fits());
}

#[test]
fn file_seek_wraps_like_signed_arithmetic() {
    let mut f = File::new(DatabaseRef::new());
    let mut w = f.write();
    assert_eq!(w.seek(SeekFrom::Start(10)), 10);
    assert_eq!(w.seek(SeekFrom::Current(-4)), 6);
    assert_eq!(w.seek(SeekFrom::End(-1)), u64::MAX);
}

#[test]
fn file_round_trips_through_its_header() {
    let mut f = File::new(DatabaseRef::new());
    {
        let mut w = f.write();
        w.write(b"snapshot");
    }
    let bytes = f.serialize();
    let database = f.into_database();
    let g = File::deserialize(&bytes, database).ok().unwrap();
    assert_eq!(g.len(), 8);
    let mut r = g.read();
    assert_eq!(r.read(100), b"snapshot".to_vec());
}

#[test]
fn probe_value_decides_byte_order() {
    assert_eq!(byte_order_of_probe(1), ByteOrder::Little);
    assert_eq!(byte_order_of_probe(256), ByteOrder::Big);
    assert_eq!(byte_order_of_probe(u16::from_ne_bytes([1, 0])), native_byte_order());
}

#[test]
fn file_cut_at_position_ends_file_there() {
    let mut f = File::new(DatabaseRef::new());
    {
        let mut w = f.write();
        w.write(b"old content here");
        w.seek(SeekFrom::Start(0));
        w.write(b"new");
        w.cut_at_position();
    }
    assert_eq!(f.len(), 3);
    assert!(f.fits());
    let mut r = f.read();
    assert_eq!(r.read(100), b"new".to_vec());
}

#[test]
fn database_byte_order_fixes_header_encoding() {
    let mut f = File::new(DatabaseRef::with_byte_order(ByteOrder::Big));
    {
        let mut w = f.write();
        w.write(b"abc");
    }
    let bytes = f.serialize();
    assert_eq!(bytes, vec![0, 0, 0, 1, 0, 0, 0, 0, 0, 0, 0, 3]);
    let database = f.into_database();
    assert_eq!(database.byte_order(), ByteOrder::Big);
    let g = File::deserialize(&bytes, database).ok().unwrap();
    assert_eq!(g.len(), 3);
    assert_eq!(DatabaseRef::new().byte_order(), native_byte_order());
}
