use std::borrow::Borrow;
use std::borrow::Cow;

use bytecraft::common::Endian;
use bytecraft::error::Error;
use bytecraft::readable::Readable;
use bytecraft::reader::{ByteReader, ReadStream};
use vstd::prelude::DeepView;

#[test]
fn reader_constructor() {
    let slice: [u8; 10] = [0u8; 10];
    let reader: ByteReader = ByteReader::new(&slice);
    assert_eq!(reader.endian(), Endian::Native);

    let vec: Vec<u8> = Vec::new();
    let reader: ByteReader = ByteReader::new(&vec);
    assert_eq!(reader.endian(), Endian::Native);

    let string: String = String::new();
    let reader: ByteReader = ByteReader::new(string.as_bytes());
    assert_eq!(reader.endian(), Endian::Native);

    let vec: Vec<u8> = Vec::new();
    let cow: Cow<'_, [u8]> = Cow::Borrowed(&vec);
    let reader: ByteReader = ByteReader::new(cow.borrow());
    assert_eq!(reader.endian(), Endian::Native);

    let cow: Cow<'_, [u8]> = Cow::Owned(vec);
    let reader: ByteReader = ByteReader::new(cow.borrow());
    assert_eq!(reader.endian(), Endian::Native);
}

#[test]
fn read_number() -> Result<(), Error> {
    let data: [u8; 16] = [
        0x00, 0x01, 0x02, 0x03, 0x04, 0x05, 0x06, 0x07, 0x08, 0x09, 0x0A, 0x0B, 0x0C, 0x0D, 0x0E,
        0x0F,
    ];

    let mut lreader: ByteReader = ByteReader::with_endian(&data, Endian::Little);
    let mut breader: ByteReader = ByteReader::with_endian(&data, Endian::Big);

    assert_eq!(lreader.read::<u8>()?, 0x00);
    lreader.reset();
    assert_eq!(breader.read::<u8>()?, 0x00);
    breader.reset();
    assert_eq!(lreader.read::<i8>()?, 0x00);
    lreader.reset();
    assert_eq!(breader.read::<i8>()?, 0x00);
    breader.reset();
    assert_eq!(lreader.read::<u16>()?, 0x0100);
    lreader.reset();
    assert_eq!(breader.read::<u16>()?, 0x0001);
    breader.reset();
    assert_eq!(lreader.read::<i16>()?, 0x0100);
    lreader.reset();
    assert_eq!(breader.read::<i16>()?, 0x0001);
    breader.reset();
    assert_eq!(lreader.read::<u32>()?, 0x03020100);
    lreader.reset();
    assert_eq!(breader.read::<u32>()?, 0x00010203);
    breader.reset();
    assert_eq!(lreader.read::<i32>()?, 0x03020100);
    lreader.reset();
    assert_eq!(breader.read::<i32>()?, 0x00010203);
    breader.reset();
    assert_eq!(lreader.read::<u64>()?, 0x0706050403020100);
    lreader.reset();
    assert_eq!(breader.read::<u64>()?, 0x0001020304050607);
    breader.reset();
    assert_eq!(lreader.read::<i64>()?, 0x0706050403020100);
    lreader.reset();
    assert_eq!(breader.read::<i64>()?, 0x0001020304050607);
    breader.reset();
    assert_eq!(lreader.read::<u128>()?, 0x0F0E0D0C0B0A09080706050403020100);
    lreader.reset();
    assert_eq!(breader.read::<u128>()?, 0x000102030405060708090A0B0C0D0E0F);
    breader.reset();
    assert_eq!(lreader.read::<i128>()?, 0x0F0E0D0C0B0A09080706050403020100);
    lreader.reset();
    assert_eq!(breader.read::<i128>()?, 0x000102030405060708090A0B0C0D0E0F);
    breader.reset();

    Ok(())
}

#[derive(Debug, PartialEq, Eq)]
pub struct LableValue(u32, i8, [u16; 12]);

impl DeepView for LableValue {
    type V = LableValue;

    fn deep_view(&self) -> Self::V {
        panic!()
    }
}

impl<'a> Readable<'a> for LableValue {
    fn read(s: &mut ReadStream<'a>) -> Result<Self, Error> {
        let (f1, f2, f3) = s.read::<(u32, i8, [u16; 12])>()?;
        Ok(Self(f1, f2, f3))
    }
}

#[derive(Debug, PartialEq, Eq)]
pub struct Label {
    name: String,
    timestamp: u64,
    value: LableValue,
}

impl DeepView for Label {
    type V = Label;

    fn deep_view(&self) -> Self::V {
        panic!()
    }
}

impl<'a> Readable<'a> for Label {
    fn read(s: &mut ReadStream<'a>) -> Result<Self, Error> {
        let name_size: u32 = s.read()?;
        let name: &[u8] = s.read_exact(name_size as usize)?;
        let name: String = str::from_utf8(name).map_err(|_| Error::NotValid)?.into();

        let timestamp: u64 = s.read()?;
        let value: LableValue = s.read()?;

        Ok(Self {
            name,
            timestamp,
            value,
        })
    }
}

#[test]
fn read_custom() -> Result<(), Error> {
    let data: [u8; 45] = [
        0x04, 0x00, 0x00, 0x00, b'B', b'y', b't', b'e', 0x00, 0x00, 0x00, 0x00, 0x00, 0x00, 0x00,
        0xF0, 0x12, 0x34, 0x56, 0x78, 0xFB, 0x01, 0x00, 0x02, 0x00, 0x03, 0x00, 0x04, 0x00, 0x05,
        0x00, 0x06, 0x00, 0x07, 0x00, 0x08, 0x00, 0x09, 0x00, 0x0A, 0x00, 0x0B, 0x00, 0x0C, 0x00,
    ];

    let mut lreader: ByteReader = ByteReader::with_endian(&data, Endian::Little);

    let label: Label = lreader.read()?;

    assert_eq!(
        label,
        Label {
            name: "Byte".into(),
            timestamp: 17293822569102704640,
            value: LableValue(0x78563412, -5, [1, 2, 3, 4, 5, 6, 7, 8, 9, 10, 11, 12])
        }
    );

    let mut breader: ByteReader = ByteReader::with_endian(&data, Endian::Big);

    let res: Result<Label, Error> = breader.read();

    assert_eq!(
        matches!(
            res,
            Err(Error::InsufficientData {
                requested: 0x4000000,
                available: 41
            })
        ),
        true
    );

    Ok(())
}

#[derive(Debug)]
struct TreeNode {
    val: u32,
    l: Option<Box<TreeNode>>,
    r: Option<Box<TreeNode>>,
}

impl PartialEq for TreeNode {
    fn eq(&self, other: &Self) -> bool {
        if self.val != other.val {
            return false;
        }

        self.l == other.l && self.r == other.r
    }
}

impl DeepView for TreeNode {
    type V = TreeNode;

    fn deep_view(&self) -> Self::V {
        panic!()
    }
}

impl<'a> Readable<'a> for TreeNode {
    fn read(s: &mut ReadStream<'a>) -> Result<Self, Error> {
        let val: u32 = s.read()?;
        let flg: u8 = s.read()?;

        let l: Option<Box<TreeNode>> = if flg & 0x01 != 0 {
            let left: TreeNode = s.read()?;
            Some(Box::new(left))
        } else {
            None
        };

        let r: Option<Box<TreeNode>> = if flg & 0x02 != 0 {
            let right: TreeNode = s.read()?;
            Some(Box::new(right))
        } else {
            None
        };

        Ok(Self { val, l, r })
    }
}

#[test]
fn read_tree() -> Result<(), Error> {
    let data: [u8; 5] = [0x01, 0x00, 0x00, 0x00, 0x00];
    let mut reader: ByteReader = ByteReader::new(&data);
    let ts: TreeNode = reader.read()?;

    assert_eq!(
        ts,
        TreeNode {
            val: 1,
            l: None,
            r: None
        }
    );

    let data: [u8; 10] = [0x01, 0x00, 0x00, 0x00, 0x01, 0x02, 0x00, 0x00, 0x00, 0x00];
    let mut reader: ByteReader = ByteReader::new(&data);
    let ts: TreeNode = reader.read()?;

    assert_eq!(
        ts,
        TreeNode {
            val: 1,
            l: Some(Box::new(TreeNode {
                val: 2,
                l: None,
                r: None
            })),
            r: None
        }
    );

    let data: [u8; 15] = [
        0x01, 0x00, 0x00, 0x00, 0x03, 0x02, 0x00, 0x00, 0x00, 0x00, 0x03, 0x00, 0x00, 0x00, 0x00,
    ];
    let mut reader: ByteReader = ByteReader::new(&data);
    let ts: TreeNode = reader.read()?;

    assert_eq!(
        ts,
        TreeNode {
            val: 1,
            l: Some(Box::new(TreeNode {
                val: 2,
                l: None,
                r: None
            })),
            r: Some(Box::new(TreeNode {
                val: 3,
                l: None,
                r: None
            }))
        }
    );

    Ok(())
}

#[derive(Debug, PartialEq)]
struct ParsedData<'a> {
    f1: u32,
    f2: i8,
    hash: &'a [u8],
}

#[derive(Debug, PartialEq)]
struct MyStruct<'a> {
    data: &'a [u8],
    parsed: ParsedData<'a>,
}

impl<'a> DeepView for ParsedData<'a> {
    type V = (u32, i8, Vec<u8>);

    fn deep_view(&self) -> Self::V {
        panic!()
    }
}

impl<'a> Readable<'a> for ParsedData<'a> {
    fn read(s: &mut ReadStream<'a>) -> Result<Self, Error> {
        let f1: u32 = s.read()?;
        let f2: i8 = s.read()?;
        let hash: &[u8] = s.read_exact(10)?;

        Ok(Self { f1, f2, hash })
    }
}

#[test]
fn lifetimes() -> Result<(), Error> {
    let data: [u8; 100] = [0u8; 100];

    let v: MyStruct;

    {
        let mut reader: ByteReader = ByteReader::new(&data);
        let p: ParsedData = reader.read()?;
        v = MyStruct {
            data: &data,
            parsed: p,
        };
    }

    assert_eq!(
        v,
        MyStruct {
            data: &data,
            parsed: ParsedData {
                f1: 0,
                f2: 0,
                hash: &[0, 0, 0, 0, 0, 0, 0, 0, 0, 0]
            }
        }
    );

    Ok(())
}

#[test]
fn peek_does_not_move() -> Result<(), Error> {
    let data = [0x01, 0x02, 0x03, 0x04];
    let mut reader: ByteReader = ByteReader::with_endian(&data, Endian::Little);

    let peeked: u16 = reader.peek()?;
    assert_eq!(peeked, 0x0201);
    assert_eq!(reader.position(), 0);

    let read: u16 = reader.read()?;
    assert_eq!(read, peeked);
    assert_eq!(reader.position(), 2);

    let peeked: u16 = reader.peek()?;
    assert_eq!(peeked, 0x0403);
    assert_eq!(reader.position(), 2);
    Ok(())
}

#[test]
fn peek_ascii_and_bytes() -> Result<(), Error> {
    let data = b"Hello World";
    let mut reader: ByteReader = ByteReader::new(&data[..]);

    assert_eq!(reader.peek_ascii(5)?, "Hello");
    assert_eq!(reader.position(), 0);
    assert_eq!(reader.peek_bytes(5)?, b"Hello");
    assert_eq!(reader.read_ascii(5)?, "Hello");
    assert_eq!(reader.position(), 5);
    assert_eq!(reader.read_bytes(6)?, b" World");
    assert!(reader.is_eof());
    Ok(())
}
