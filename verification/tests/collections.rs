use bytecraft::error::Error;
use bytecraft::readable::Readable;
use bytecraft::reader::{ByteReader, ReadStream};
use bytecraft::writable::Writable;
use bytecraft::writer::{ByteWriter, WriteStream};
use bytecraft::zstring::ZString;
use vstd::prelude::DeepView;

#[test]
fn test_vec_simple_types() -> Result<(), Error> {
    let original_vec: Vec<u32> = vec![1, 2, 3, 4, 5];

    let buffer: Vec<u8> = vec![0u8; 1024];
    let mut writer: ByteWriter = ByteWriter::new(buffer);
    writer.write(&original_vec)?;
    let buffer: Vec<u8> = writer.into_inner();

    let mut reader: ByteReader = ByteReader::new(&buffer[..]);
    let read_vec: Vec<u32> = reader.read()?;

    assert_eq!(original_vec, read_vec);
    Ok(())
}

#[derive(Debug, PartialEq)]
struct Point {
    x: f32,
    y: f32,
}

impl DeepView for Point {
    type V = Point;

    fn deep_view(&self) -> Self::V {
        panic!()
    }
}

impl<'a> Readable<'a> for Point {
    fn read(s: &mut ReadStream<'a>) -> Result<Self, Error> {
        let x: u32 = s.read()?;
        let y: u32 = s.read()?;
        Ok(Point { x: f32::from_bits(x), y: f32::from_bits(y) })
    }
}

impl Writable for Point {
    fn write(s: &mut WriteStream, val: &Self) -> Result<(), Error> {
        s.write(&val.x.to_bits())?;
        s.write(&val.y.to_bits())?;
        Ok(())
    }
}

#[test]
fn test_vec_complex_types() -> Result<(), Error> {
    let original_vec: Vec<Point> = vec![
        Point { x: 1.0, y: 2.0 },
        Point { x: 3.0, y: 4.0 },
        Point { x: 5.0, y: 6.0 },
    ];

    let buffer: Vec<u8> = vec![0u8; 1024];
    let mut writer: ByteWriter = ByteWriter::new(buffer);
    writer.write(&original_vec)?;
    let buffer: Vec<u8> = writer.into_inner();

    let mut reader: ByteReader = ByteReader::new(&buffer[..]);
    let read_vec: Vec<Point> = reader.read()?;

    assert_eq!(original_vec, read_vec);
    Ok(())
}

#[test]
fn test_string_roundtrip() -> Result<(), Error> {
    let original_string: String = "Hello, ‰∏ñÁïå! ü¶Ä".to_string();

    let buffer: Vec<u8> = vec![0u8; 1024];
    let mut writer: ByteWriter = ByteWriter::new(buffer);
    writer.write(&original_string)?;
    let buffer: Vec<u8> = writer.into_inner();

    let mut reader: ByteReader = ByteReader::new(&buffer[..]);
    let read_string: String = reader.read()?;

    assert_eq!(original_string, read_string);
    Ok(())
}

#[test]
fn test_string_empty() -> Result<(), Error> {
    let original_string: String = "".to_string();

    let buffer: Vec<u8> = vec![0u8; 1024];
    let mut writer: ByteWriter = ByteWriter::new(buffer);
    writer.write(&original_string)?;
    let buffer: Vec<u8> = writer.into_inner();

    let mut reader: ByteReader = ByteReader::new(&buffer[..]);
    let read_string: String = reader.read()?;

    assert_eq!(original_string, read_string);
    Ok(())
}

#[test]
fn test_vec_size_limit() -> Result<(), Error> {
    let original_vec: Vec<u8> = (0..1000usize).map(|x| (x % 256) as u8).collect();

    let buffer: Vec<u8> = vec![0u8; 2048];
    let mut writer: ByteWriter = ByteWriter::new(buffer);
    writer.write(&original_vec)?;
    let buffer: Vec<u8> = writer.into_inner();

    let mut reader: ByteReader = ByteReader::new(&buffer[..]);
    let read_vec: Vec<u8> = reader.read()?;

    assert_eq!(original_vec, read_vec);
    Ok(())
}

#[test]
fn test_string_unicode() -> Result<(), Error> {
    let original_string: String = "ü¶ÄüöÄ‚≠êüåüüéâ".to_string();

    let buffer: Vec<u8> = vec![0u8; 1024];
    let mut writer: ByteWriter = ByteWriter::new(buffer);
    writer.write(&original_string)?;
    let buffer: Vec<u8> = writer.into_inner();

    let mut reader: ByteReader = ByteReader::new(&buffer[..]);
    let read_string: String = reader.read()?;

    assert_eq!(original_string, read_string);
    Ok(())
}

#[test]
fn test_empty_vec() -> Result<(), Error> {
    let original_vec: Vec<u32> = vec![];

    let buffer: Vec<u8> = vec![0u8; 1024];
    let mut writer: ByteWriter = ByteWriter::new(buffer);
    writer.write(&original_vec)?;
    let buffer: Vec<u8> = writer.into_inner();

    let mut reader: ByteReader = ByteReader::new(&buffer[..]);
    let read_vec: Vec<u32> = reader.read()?;

    assert_eq!(original_vec, read_vec);
    Ok(())
}

#[test]
fn test_collection_position_tracking() -> Result<(), Error> {
    let string1: String = "First".to_string();
    let vec: Vec<u16> = vec![1, 2, 3];
    let string2: String = "Second".to_string();

    let buffer: Vec<u8> = vec![0u8; 1024];
    let mut writer: ByteWriter = ByteWriter::new(buffer);

    let start_pos: usize = writer.position();
    writer.write(&string1)?;
    let string1_end: usize = writer.position();
    writer.write(&vec)?;
    let vec_end: usize = writer.position();
    writer.write(&string2)?;
    let final_pos: usize = writer.position();

    assert!(string1_end > start_pos);
    assert!(vec_end > string1_end);
    assert!(final_pos > vec_end);

    let buffer: Vec<u8> = writer.into_inner();
    let mut reader: ByteReader = ByteReader::new(&buffer[..final_pos]);
    let read_string1: String = reader.read()?;
    let read_vec: Vec<u16> = reader.read()?;
    let read_string2: String = reader.read()?;

    assert_eq!(string1, read_string1);
    assert_eq!(vec, read_vec);
    assert_eq!(string2, read_string2);
    Ok(())
}

#[test]
fn test_ztext_roundtrip() -> Result<(), Error> {
    let original: ZString = ZString::new(b"test".to_vec()).unwrap();

    let buffer: Vec<u8> = vec![0u8; 16];
    let mut writer: ByteWriter = ByteWriter::new(buffer);
    writer.write(&original)?;
    assert_eq!(writer.position(), 5);
    assert_eq!(&writer.as_slice()[..5], b"test\0");

    let buffer: Vec<u8> = writer.into_inner();
    let mut reader: ByteReader = ByteReader::new(&buffer[..]);
    let read_back: ZString = reader.read()?;

    assert_eq!(read_back.as_bytes(), b"test");
    assert_eq!(reader.position(), 5);
    Ok(())
}

#[test]
fn test_ztext_empty_and_invalid() {
    let empty: ZString = ZString::new(Vec::new()).unwrap();
    assert!(empty.is_empty());
    assert_eq!(empty.len(), 0);

    let bad = ZString::new(vec![1, 0, 2]);
    assert!(matches!(bad, Err(Error::NotValid)));
}

#[test]
fn test_ztext_missing_terminator() {
    let data = [b'a', b'b'];
    let mut reader: ByteReader = ByteReader::new(&data);
    let r: Result<ZString, Error> = reader.read();
    assert!(matches!(
        r,
        Err(Error::InsufficientData { requested: 1, available: 0 })
    ));
    assert_eq!(reader.position(), 2);
}
