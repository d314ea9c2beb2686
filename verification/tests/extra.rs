use bytecraft::common::{Endian, SeekFrom};
use bytecraft::error::Error;
use bytecraft::readable::Readable;
use bytecraft::reader::{ByteReader, ReadStream};
use bytecraft::writer::ByteWriter;
use std::sync::atomic::{AtomicUsize, Ordering};
use vstd::prelude::DeepView;

#[test]
fn big_and_little_endian_layout() -> Result<(), Error> {
    let mut writer: ByteWriter = ByteWriter::with_endian(vec![0u8; 4], Endian::Big);
    writer.write::<u32>(&0x12345678)?;
    assert_eq!(writer.as_slice(), &[0x12, 0x34, 0x56, 0x78]);

    let mut writer: ByteWriter = ByteWriter::with_endian(vec![0u8; 4], Endian::Little);
    writer.write::<u32>(&0x12345678)?;
    assert_eq!(writer.as_slice(), &[0x78, 0x56, 0x34, 0x12]);
    Ok(())
}

#[test]
fn native_matches_little() -> Result<(), Error> {
    let mut writer: ByteWriter = ByteWriter::with_endian(vec![0u8; 4], Endian::Native);
    writer.write::<u32>(&0x12345678)?;
    assert_eq!(writer.as_slice(), &[0x78, 0x56, 0x34, 0x12]);
    Ok(())
}

#[test]
fn roundtrip_all_modes_all_widths() -> Result<(), Error> {
    for endian in [Endian::Little, Endian::Big, Endian::Native] {
        let mut writer: ByteWriter = ByteWriter::with_endian(vec![0u8; 128], endian);
        writer.write::<u8>(&0xAB)?;
        writer.write::<u16>(&0xABCD)?;
        writer.write::<u32>(&0xDEADBEEF)?;
        writer.write::<u64>(&0xDEADBEEF01020304)?;
        writer.write::<u128>(&0xDEADBEEF0102030405060708090A0B0Cu128)?;
        writer.write::<i8>(&-5)?;
        writer.write::<i16>(&-12345)?;
        writer.write::<i32>(&-123456789)?;
        writer.write::<i64>(&i64::MIN)?;
        writer.write::<i128>(&i128::MIN)?;
        writer.write::<usize>(&usize::MAX)?;
        writer.write::<isize>(&isize::MIN)?;
        writer.write::<bool>(&true)?;
        writer.write::<bool>(&false)?;

        let data: Vec<u8> = writer.into_inner();
        let mut reader: ByteReader = ByteReader::with_endian(&data, endian);
        assert_eq!(reader.read::<u8>()?, 0xAB);
        assert_eq!(reader.read::<u16>()?, 0xABCD);
        assert_eq!(reader.read::<u32>()?, 0xDEADBEEF);
        assert_eq!(reader.read::<u64>()?, 0xDEADBEEF01020304);
        assert_eq!(reader.read::<u128>()?, 0xDEADBEEF0102030405060708090A0B0Cu128);
        assert_eq!(reader.read::<i8>()?, -5);
        assert_eq!(reader.read::<i16>()?, -12345);
        assert_eq!(reader.read::<i32>()?, -123456789);
        assert_eq!(reader.read::<i64>()?, i64::MIN);
        assert_eq!(reader.read::<i128>()?, i128::MIN);
        assert_eq!(reader.read::<usize>()?, usize::MAX);
        assert_eq!(reader.read::<isize>()?, isize::MIN);
        assert_eq!(reader.read::<bool>()?, true);
        assert_eq!(reader.read::<bool>()?, false);
    }
    Ok(())
}

#[test]
fn bool_decode_bytes() {
    let mut reader: ByteReader = ByteReader::new(&[0x00, 0x01, 0x02]);
    assert_eq!(reader.read::<bool>().unwrap(), false);
    assert_eq!(reader.read::<bool>().unwrap(), true);
    assert!(matches!(reader.read::<bool>(), Err(Error::NotValid)));
    assert_eq!(reader.position(), 3);
}

#[test]
fn alignment_up() -> Result<(), Error> {
    let data = [0u8; 16];
    let mut reader: ByteReader = ByteReader::new(&data);
    reader.set_position(5)?;
    reader.align_up::<8>()?;
    assert_eq!(reader.position(), 8);

    reader.set_position(9)?;
    reader.align_up::<8>()?;
    assert_eq!(reader.position(), 16);

    reader.set_position(8)?;
    reader.align_up::<8>()?;
    assert_eq!(reader.position(), 8);
    Ok(())
}

#[test]
fn alignment_force_clamps() -> Result<(), Error> {
    let data = [0u8; 10];
    let mut reader: ByteReader = ByteReader::new(&data);
    reader.set_position(9)?;
    reader.align_up_force::<8>();
    assert_eq!(reader.position(), 10);

    let data = [0u8; 16];
    let mut reader: ByteReader = ByteReader::new(&data);
    reader.set_position(9)?;
    reader.align_up_force::<8>();
    assert_eq!(reader.position(), 16);
    Ok(())
}

#[test]
fn alignment_dynamic() -> Result<(), Error> {
    let data = [0u8; 16];
    let mut reader: ByteReader = ByteReader::new(&data);
    reader.set_position(5)?;
    reader.align_up_dynamic(8)?;
    assert_eq!(reader.position(), 8);

    assert!(matches!(reader.align_up_dynamic(3), Err(Error::NotValid)));
    assert_eq!(reader.position(), 8);

    assert!(matches!(reader.align_up_dynamic(0), Err(Error::NotValid)));
    Ok(())
}

#[test]
fn position_stays_in_bounds() -> Result<(), Error> {
    let data = [1u8, 2, 3, 4];
    let mut reader: ByteReader = ByteReader::new(&data);
    let check = |r: &ByteReader| {
        assert!(r.position() <= r.len());
    };

    check(&reader);
    let _ = reader.read::<u32>();
    check(&reader);
    let _ = reader.read::<u64>(); // fails, position unchanged
    check(&reader);
    assert_eq!(reader.position(), 4);
    let _ = reader.seek(SeekFrom::Start(100)); // fails
    check(&reader);
    let _ = reader.seek(SeekFrom::End(5)); // positive end offset always fails
    check(&reader);
    reader.skip_force(1000);
    check(&reader);
    assert_eq!(reader.position(), 4);
    reader.rewind_force(1000);
    check(&reader);
    assert_eq!(reader.position(), 0);
    let _ = reader.skip(9); // fails
    check(&reader);
    assert_eq!(reader.position(), 0);
    Ok(())
}

#[test]
fn seek_modes() -> Result<(), Error> {
    let data = [0u8; 5];
    let mut reader: ByteReader = ByteReader::new(&data);

    assert_eq!(reader.seek(SeekFrom::Start(2))?, 2);
    assert_eq!(reader.seek(SeekFrom::Current(-1))?, 1);
    assert_eq!(reader.seek(SeekFrom::Current(3))?, 4);
    assert_eq!(reader.seek(SeekFrom::End(-2))?, 3);
    assert_eq!(reader.seek(SeekFrom::End(0))?, 5);

    assert!(matches!(
        reader.seek(SeekFrom::End(1)),
        Err(Error::OutOfBounds { pos: 5, requested: 1, len: 5 })
    ));
    assert!(matches!(
        reader.seek(SeekFrom::Current(-6)),
        Err(Error::OutOfBounds { pos: 5, requested: 6, len: 5 })
    ));
    assert_eq!(reader.position(), 5);
    Ok(())
}

#[test]
fn unicode_text_roundtrip() -> Result<(), Error> {
    let original: String = "\u{2705}\u{1F980}".to_string();

    let mut writer: ByteWriter = ByteWriter::new(vec![0u8; 32]);
    writer.write(&original)?;
    let end = writer.position();
    assert_eq!(end, 4 + original.len());

    let data: Vec<u8> = writer.into_inner();
    let mut reader: ByteReader = ByteReader::new(&data);
    let back: String = reader.read()?;
    assert_eq!(back, original);
    assert_eq!(reader.position(), end);
    Ok(())
}

static DROPS: AtomicUsize = AtomicUsize::new(0);

#[derive(Debug)]
struct Probe(u8);

impl Drop for Probe {
    fn drop(&mut self) {
        DROPS.fetch_add(1, Ordering::SeqCst);
    }
}

impl DeepView for Probe {
    type V = Probe;

    fn deep_view(&self) -> Self::V {
        panic!()
    }
}

impl<'a> Readable<'a> for Probe {
    fn read(s: &mut ReadStream<'a>) -> Result<Self, Error> {
        let b: u8 = s.read()?;
        if b == 0xFF {
            return Err(Error::NotValid);
        }
        Ok(Probe(b))
    }
}

#[test]
fn array_partial_failure_drops_prefix() {
    let data = [1u8, 2, 3, 0xFF, 5];
    let mut reader: ByteReader = ByteReader::new(&data);
    let before = DROPS.load(Ordering::SeqCst);
    let r: Result<[Probe; 5], Error> = reader.read();
    assert!(matches!(r, Err(Error::NotValid)));
    // the three elements built before the failure, destroyed exactly once each
    assert_eq!(DROPS.load(Ordering::SeqCst) - before, 3);
    // the failing element's byte was consumed; nothing was rolled back
    assert_eq!(reader.position(), 4);
}

#[test]
fn tuple_and_array_roundtrip() -> Result<(), Error> {
    let mut writer: ByteWriter = ByteWriter::with_endian(vec![0u8; 32], Endian::Little);
    writer.write(&(0x01u8, 0x0203u16, 0x04050607u32))?;
    writer.write(&[0x11u16, 0x22, 0x33])?;

    let data: Vec<u8> = writer.into_inner();
    let mut reader: ByteReader = ByteReader::with_endian(&data, Endian::Little);
    let t: (u8, u16, u32) = reader.read()?;
    assert_eq!(t, (0x01, 0x0203, 0x04050607));
    let a: [u16; 3] = reader.read()?;
    assert_eq!(a, [0x11, 0x22, 0x33]);
    Ok(())
}

#[test]
fn write_fails_when_buffer_full() {
    let mut writer: ByteWriter = ByteWriter::new(vec![0u8; 2]);
    assert!(writer.can_write(2));
    assert!(!writer.can_write(3));
    let r = writer.write::<u32>(&7);
    assert!(matches!(
        r,
        Err(Error::InsufficientData { requested: 4, available: 2 })
    ));
    assert_eq!(writer.position(), 0);
    assert_eq!(writer.as_slice(), &[0, 0]);
}

#[test]
fn writer_mutable_views() -> Result<(), Error> {
    let mut writer: ByteWriter = ByteWriter::new(vec![0u8; 5]);
    writer.as_mut_slice().fill(0xFF);
    assert_eq!(writer.as_slice(), &[0xFF; 5]);

    writer.set_position(2)?;
    writer.rest_mut_bytes().fill(0x11);
    assert_eq!(writer.as_slice(), &[0xFF, 0xFF, 0x11, 0x11, 0x11]);
    assert_eq!(writer.rest_len(), 3);
    Ok(())
}

#[test]
fn reader_views() -> Result<(), Error> {
    let data = [1u8, 2, 3, 4, 5];
    let mut reader: ByteReader = ByteReader::new(&data);
    assert!(!reader.is_empty());
    assert_eq!(reader.len(), 5);
    reader.skip(2)?;
    assert_eq!(reader.rest_bytes(), &[3, 4, 5]);
    assert_eq!(reader.rest_len(), 3);
    assert_eq!(reader.as_slice(), &[1, 2, 3, 4, 5]);
    let copy = reader.clone();
    assert_eq!(copy.position(), 2);
    assert_eq!(reader.read_vec(2)?, vec![3, 4]);
    assert_eq!(reader.into_inner(), &[1, 2, 3, 4, 5]);

    let empty: ByteReader = ByteReader::new(&[]);
    assert!(empty.is_empty());
    assert!(empty.is_eof());
    Ok(())
}

#[test]
fn endian_switch_mid_stream() -> Result<(), Error> {
    let data = [0x01, 0x00, 0x00, 0x02];
    let mut reader: ByteReader = ByteReader::new(&data);
    reader.set_endian(Endian::Little);
    let v1: u16 = reader.read()?;
    reader.set_endian(Endian::Big);
    let v2: u16 = reader.read()?;
    assert_eq!((v1, v2), (1, 2));
    Ok(())
}

#[test]
fn char_widths() -> Result<(), Error> {
    let mut writer: ByteWriter = ByteWriter::new(vec![0u8; 10]);
    writer.write(&'A')?;
    assert_eq!(writer.position(), 1);
    writer.write(&'\u{20AC}')?; // three UTF-8 bytes
    assert_eq!(writer.position(), 4);
    writer.write(&'\u{1F980}')?; // four UTF-8 bytes
    assert_eq!(writer.position(), 8);

    assert_eq!(
        &writer.as_slice()[..8],
        &[0x41, 0xE2, 0x82, 0xAC, 0xF0, 0x9F, 0xA6, 0x80]
    );
    Ok(())
}

#[test]
fn float_bit_patterns_roundtrip() -> Result<(), Error> {
    // Floating-point values travel as their IEEE-754 bit patterns.
    let f = -0.15625f32;
    let g = 2.5e-100f64;
    let nan_bits: u32 = 0x7FC0_0001; // a NaN with a payload

    for endian in [Endian::Little, Endian::Big, Endian::Native] {
        let mut writer: ByteWriter = ByteWriter::with_endian(vec![0u8; 16], endian);
        writer.write(&f.to_bits())?;
        writer.write(&g.to_bits())?;
        writer.write(&nan_bits)?;

        let data: Vec<u8> = writer.into_inner();
        let mut reader: ByteReader = ByteReader::with_endian(&data, endian);
        assert_eq!(f32::from_bits(reader.read::<u32>()?), f);
        assert_eq!(f64::from_bits(reader.read::<u64>()?), g);
        assert_eq!(reader.read::<u32>()?, nan_bits);
    }
    Ok(())
}

#[test]
fn peek_composite_through_fresh_cursor() -> Result<(), Error> {
    // A peek-view cannot recurse through the live cursor; a nested peek goes
    // through a raw byte range and a fresh cursor over it.
    let data = [0x00, 0x01, 0x02, 0x03, 0x04, 0x05];
    let reader: ByteReader = ByteReader::new(&data);

    let raw = reader.peek_bytes(6)?;
    let mut sub: ByteReader = ByteReader::with_endian(raw, reader.endian());
    let magic: u32 = sub.read()?;
    let version: u16 = sub.read()?;

    assert_eq!(reader.position(), 0);
    assert_eq!(magic, 0x03020100);
    assert_eq!(version, 0x0504);
    Ok(())
}

#[test]
fn reader_skip_and_align_inside_decode() -> Result<(), Error> {
    struct Padded {
        tag: u8,
        value: u32,
    }

    impl DeepView for Padded {
        type V = (u8, u32);

        fn deep_view(&self) -> Self::V {
            panic!()
        }
    }

    impl<'a> Readable<'a> for Padded {
        fn read(s: &mut ReadStream<'a>) -> Result<Self, Error> {
            let tag: u8 = s.read()?;
            s.align_up::<4>()?;
            let value: u32 = s.read()?;
            Ok(Padded { tag, value })
        }
    }

    let data = [0x07, 0xFF, 0xFF, 0xFF, 0x01, 0x00, 0x00, 0x00];
    let mut reader: ByteReader = ByteReader::new(&data);
    let p: Padded = reader.read()?;
    assert_eq!(p.tag, 0x07);
    assert_eq!(p.value, 1);
    assert_eq!(reader.position(), 8);
    Ok(())
}

#[test]
fn endian_change_inside_decode_persists() -> Result<(), Error> {
    struct Switching {
        first: u16,
        second: u16,
    }

    impl DeepView for Switching {
        type V = (u16, u16);

        fn deep_view(&self) -> Self::V {
            panic!()
        }
    }

    impl<'a> Readable<'a> for Switching {
        fn read(s: &mut ReadStream<'a>) -> Result<Self, Error> {
            s.set_endian(Endian::Little);
            let first: u16 = s.read()?;
            s.set_endian(Endian::Big);
            let second: u16 = s.read()?;
            Ok(Switching { first, second })
        }
    }

    let data = [0x01, 0x00, 0x00, 0x02];
    let mut reader: ByteReader = ByteReader::new(&data);
    let v: Switching = reader.read()?;
    assert_eq!((v.first, v.second), (1, 2));
    // the byte order chosen inside the decode stays with the reader
    assert_eq!(reader.endian(), Endian::Big);
    Ok(())
}
