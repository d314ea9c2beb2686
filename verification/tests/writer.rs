use bytecraft::common::{Endian, SeekFrom};
use bytecraft::error::Error;
use bytecraft::readable::Readable;
use bytecraft::reader::{ByteReader, ReadStream};
use bytecraft::writable::Writable;
use bytecraft::writer::{ByteWriter, WriteStream};
use vstd::prelude::DeepView;

#[test]
fn writer_constructor() {
    let writer: ByteWriter = ByteWriter::new(vec![0u8; 10]);
    assert_eq!(writer.endian(), Endian::Native);
    assert_eq!(writer.len(), 10);

    let mut vec: Vec<u8> = Vec::new();
    vec.resize(10, 0);
    let writer: ByteWriter = ByteWriter::new(vec);
    assert_eq!(writer.endian(), Endian::Native);

    let writer: ByteWriter = ByteWriter::with_endian(vec![0u8; 10], Endian::Big);
    assert_eq!(writer.endian(), Endian::Big);

    let writer: ByteWriter = ByteWriter::with_endian(Vec::new(), Endian::Little);
    assert_eq!(writer.endian(), Endian::Little);
}

#[test]
fn write_number() -> Result<(), Error> {
    let mut lwriter: ByteWriter = ByteWriter::with_endian(vec![0u8; 16], Endian::Little);

    lwriter.write::<u8>(&0x01)?;
    assert_eq!(
        lwriter.as_slice(),
        &[1, 0, 0, 0, 0, 0, 0, 0, 0, 0, 0, 0, 0, 0, 0, 0]
    );
    lwriter.reset();
    lwriter.write::<i8>(&0x01)?;
    assert_eq!(
        lwriter.as_slice(),
        &[1, 0, 0, 0, 0, 0, 0, 0, 0, 0, 0, 0, 0, 0, 0, 0]
    );
    lwriter.reset();
    lwriter.write::<u16>(&0x0201)?;
    assert_eq!(
        lwriter.as_slice(),
        &[1, 2, 0, 0, 0, 0, 0, 0, 0, 0, 0, 0, 0, 0, 0, 0]
    );
    lwriter.reset();
    lwriter.write::<i16>(&0x0201)?;
    assert_eq!(
        lwriter.as_slice(),
        &[1, 2, 0, 0, 0, 0, 0, 0, 0, 0, 0, 0, 0, 0, 0, 0]
    );
    lwriter.reset();
    lwriter.write::<u32>(&0x04030201)?;
    assert_eq!(
        lwriter.as_slice(),
        &[1, 2, 3, 4, 0, 0, 0, 0, 0, 0, 0, 0, 0, 0, 0, 0]
    );
    lwriter.reset();
    lwriter.write::<i32>(&0x04030201)?;
    assert_eq!(
        lwriter.as_slice(),
        &[1, 2, 3, 4, 0, 0, 0, 0, 0, 0, 0, 0, 0, 0, 0, 0]
    );
    lwriter.reset();
    lwriter.write::<u64>(&0x0807060504030201)?;
    assert_eq!(
        lwriter.as_slice(),
        &[1, 2, 3, 4, 5, 6, 7, 8, 0, 0, 0, 0, 0, 0, 0, 0]
    );
    lwriter.reset();
    lwriter.write::<i64>(&0x0807060504030201)?;
    assert_eq!(
        lwriter.as_slice(),
        &[1, 2, 3, 4, 5, 6, 7, 8, 0, 0, 0, 0, 0, 0, 0, 0]
    );
    lwriter.reset();
    lwriter.write::<u128>(&0x100F0E0D0C0B0A090807060504030201)?;
    assert_eq!(
        lwriter.as_slice(),
        &[1, 2, 3, 4, 5, 6, 7, 8, 9, 10, 11, 12, 13, 14, 15, 16]
    );
    lwriter.reset();
    lwriter.write::<i128>(&0x100F0E0D0C0B0A090807060504030201)?;
    assert_eq!(
        lwriter.as_slice(),
        &[1, 2, 3, 4, 5, 6, 7, 8, 9, 10, 11, 12, 13, 14, 15, 16]
    );

    let mut bwriter: ByteWriter = ByteWriter::with_endian(vec![0u8; 16], Endian::Big);

    bwriter.write::<u8>(&0x01)?;
    assert_eq!(
        bwriter.as_slice(),
        &[1, 0, 0, 0, 0, 0, 0, 0, 0, 0, 0, 0, 0, 0, 0, 0]
    );
    bwriter.reset();
    bwriter.write::<i8>(&0x01)?;
    assert_eq!(
        bwriter.as_slice(),
        &[1, 0, 0, 0, 0, 0, 0, 0, 0, 0, 0, 0, 0, 0, 0, 0]
    );
    bwriter.reset();
    bwriter.write::<u16>(&0x0102)?;
    assert_eq!(
        bwriter.as_slice(),
        &[1, 2, 0, 0, 0, 0, 0, 0, 0, 0, 0, 0, 0, 0, 0, 0]
    );
    bwriter.reset();
    bwriter.write::<i16>(&0x0102)?;
    assert_eq!(
        bwriter.as_slice(),
        &[1, 2, 0, 0, 0, 0, 0, 0, 0, 0, 0, 0, 0, 0, 0, 0]
    );
    bwriter.reset();
    bwriter.write::<u32>(&0x01020304)?;
    assert_eq!(
        bwriter.as_slice(),
        &[1, 2, 3, 4, 0, 0, 0, 0, 0, 0, 0, 0, 0, 0, 0, 0]
    );
    bwriter.reset();
    bwriter.write::<i32>(&0x01020304)?;
    assert_eq!(
        bwriter.as_slice(),
        &[1, 2, 3, 4, 0, 0, 0, 0, 0, 0, 0, 0, 0, 0, 0, 0]
    );
    bwriter.reset();
    bwriter.write::<u64>(&0x0102030405060708)?;
    assert_eq!(
        bwriter.as_slice(),
        &[1, 2, 3, 4, 5, 6, 7, 8, 0, 0, 0, 0, 0, 0, 0, 0]
    );
    bwriter.reset();
    bwriter.write::<i64>(&0x0102030405060708)?;
    assert_eq!(
        bwriter.as_slice(),
        &[1, 2, 3, 4, 5, 6, 7, 8, 0, 0, 0, 0, 0, 0, 0, 0]
    );
    bwriter.reset();
    bwriter.write::<u128>(&0x0102030405060708090A0B0C0D0E0F10)?;
    assert_eq!(
        bwriter.as_slice(),
        &[1, 2, 3, 4, 5, 6, 7, 8, 9, 10, 11, 12, 13, 14, 15, 16]
    );
    bwriter.reset();
    bwriter.write::<i128>(&0x0102030405060708090A0B0C0D0E0F10)?;
    assert_eq!(
        bwriter.as_slice(),
        &[1, 2, 3, 4, 5, 6, 7, 8, 9, 10, 11, 12, 13, 14, 15, 16]
    );

    Ok(())
}

#[test]
fn write_chars() -> Result<(), Error> {
    let mut writer: ByteWriter = ByteWriter::new(vec![0u8; 18]);

    for c in "Привет World".chars() {
        writer.write(&c)?;
    }

    assert_eq!("Привет World".as_bytes().len(), 18);
    assert_eq!(writer.as_slice(), "Привет World".as_bytes());
    Ok(())
}

#[derive(Debug, PartialEq, Eq)]
pub struct Save(u32, i8);

impl DeepView for Save {
    type V = Save;

    fn deep_view(&self) -> Self::V {
        panic!()
    }
}

impl Writable for Save {
    fn write(s: &mut WriteStream, val: &Self) -> Result<(), Error> {
        s.write(&(val.0, val.1))?;

        Ok(())
    }
}

#[test]
fn write_simple() -> Result<(), Error> {
    let mut writer: ByteWriter = ByteWriter::new(vec![0u8; 10]);

    writer.write(&Save(5, -2))?;
    writer.write(&Save(4, 2))?;

    assert_eq!(
        writer.as_slice(),
        &[0x05, 0x00, 0x00, 0x00, 0xFE, 0x04, 0x00, 0x00, 0x00, 0x02]
    );

    let mut writer: ByteWriter = ByteWriter::new(vec![0u8; 10]);

    writer.write_bytes(&[0u8; 10])?;
    assert_eq!(writer.as_slice(), [0u8; 10]);

    writer.rewind(2)?;
    assert_eq!(writer.position(), 8);

    assert!(writer.rewind(9).is_err());

    writer.rewind_force(1000);
    assert_eq!(writer.position(), 0);

    writer.seek(SeekFrom::End(-2))?;
    assert_eq!(writer.position(), 8);

    writer.skip(2)?;
    assert!(writer.is_eof());

    Ok(())
}

#[derive(Debug, PartialEq, Eq)]
pub struct LableValue(u32, i8, [u16; 12]);

impl DeepView for LableValue {
    type V = LableValue;

    fn deep_view(&self) -> Self::V {
        panic!()
    }
}

impl<'a> Readable<'a> for LableValue {
    fn read(s: &mut ReadStream<'a>) -> Result<Self, Error> {
        let (f1, f2, f3) = s.read::<(u32, i8, [u16; 12])>()?;
        Ok(Self(f1, f2, f3))
    }
}

impl Writable for LableValue {
    fn write(s: &mut WriteStream, val: &Self) -> Result<(), Error> {
        s.write(&val.0)?;
        s.write(&val.1)?;

        for v in val.2 {
            s.write(&v)?
        }

        Ok(())
    }
}

#[derive(Debug, PartialEq, Eq)]
pub struct Label {
    name: String,
    timestamp: u64,
    value: LableValue,
}

impl DeepView for Label {
    type V = Label;

    fn deep_view(&self) -> Self::V {
        panic!()
    }
}

impl<'a> Readable<'a> for Label {
    fn read(s: &mut ReadStream<'a>) -> Result<Self, Error> {
        let name_size: u32 = s.read()?;
        let name: &[u8] = s.read_exact(name_size as usize)?;
        let name: String = str::from_utf8(name).map_err(|_| Error::NotValid)?.into();

        let timestamp: u64 = s.read()?;
        let value: LableValue = s.read()?;

        Ok(Self {
            name,
            timestamp,
            value,
        })
    }
}

impl Writable for Label {
    fn write(s: &mut WriteStream, val: &Self) -> Result<(), Error> {
        if val.name.len() > u32::MAX as usize {
            return Err(Error::NotValid);
        }

        s.write(&(val.name.len() as u32))?;
        s.write_exact(val.name.as_bytes())?;
        s.write(&val.timestamp)?;
        s.write(&val.value)?;

        Ok(())
    }
}

#[test]
fn write_custom() -> Result<(), Error> {
    let label: Label = Label {
        name: "Byte".into(),
        timestamp: 17293822569102704640,
        value: LableValue(0x78563412, -5, [1, 2, 3, 4, 5, 6, 7, 8, 9, 10, 11, 12]),
    };

    let mut writer: ByteWriter = ByteWriter::with_endian(vec![0u8; 45], Endian::Big);
    writer.write(&label)?;

    assert_eq!(
        writer.as_slice(),
        &[
            0x00, 0x00, 0x00, 0x04, b'B', b'y', b't', b'e', 0xF0, 0x00, 0x00, 0x00, 0x00, 0x00,
            0x00, 0x00, 0x78, 0x56, 0x34, 0x12, 0xFB, 0x00, 0x01, 0x00, 0x02, 0x00, 0x03, 0x00,
            0x04, 0x00, 0x05, 0x00, 0x06, 0x00, 0x07, 0x00, 0x08, 0x00, 0x09, 0x00, 0x0A, 0x00,
            0x0B, 0x00, 0x0C,
        ]
    );

    let data: Vec<u8> = writer.into_inner();
    let mut lreader: ByteReader = ByteReader::with_endian(&data, Endian::Big);

    let rlabel: Label = lreader.read()?;

    assert_eq!(rlabel, label);

    Ok(())
}
