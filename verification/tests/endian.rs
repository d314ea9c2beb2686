use bytecraft::common::Endian;

#[test]
fn formatting() {
    let lendian: Endian = Endian::Little;
    let bendian: Endian = Endian::Big;
    let nendian: Endian = Endian::Native;

    assert_eq!(&format!("{}", lendian.label()), "Endian::Little");
    assert_eq!(&format!("{}", bendian.label()), "Endian::Big");
    assert_eq!(&format!("{}", nendian.label()), "Endian::Native");

    assert_eq!(&format!("{:?}", lendian), "Little");
    assert_eq!(&format!("{:?}", bendian), "Big");
    assert_eq!(&format!("{:?}", nendian), "Native");

    assert_eq!(&format!("{:#?}", lendian), "Little");
    assert_eq!(&format!("{:#?}", bendian), "Big");
    assert_eq!(&format!("{:#?}", nendian), "Native");

    assert_eq!(&format!("{:>5}", lendian.label()), "Endian::Little");
    assert_eq!(&format!("{:>5}", bendian.label()), "Endian::Big");
    assert_eq!(&format!("{:>5}", nendian.label()), "Endian::Native");

    assert_eq!(&format!("{:>15}", lendian.label()), " Endian::Little");
    assert_eq!(&format!("{:>15}", bendian.label()), "    Endian::Big");
    assert_eq!(&format!("{:>15}", nendian.label()), " Endian::Native");

    assert_eq!(&format!("{:<15}", lendian.label()), "Endian::Little ");
    assert_eq!(&format!("{:<15}", bendian.label()), "Endian::Big    ");
    assert_eq!(&format!("{:<15}", nendian.label()), "Endian::Native ");

    assert_eq!(&format!("{:->15}", lendian.label()), "-Endian::Little");
    assert_eq!(&format!("{:->15}", bendian.label()), "----Endian::Big");
    assert_eq!(&format!("{:->15}", nendian.label()), "-Endian::Native");
}

#[test]
fn utf16_byte_order_marks() {
    assert_eq!(Endian::from_utf16_bom([0xFE, 0xFF]), Some(Endian::Big));
    assert_eq!(Endian::from_utf16_bom([0xFF, 0xFE]), Some(Endian::Little));
    assert_eq!(Endian::from_utf16_bom([0x00, 0x00]), None);

    assert_eq!(Endian::Big.into_utf16_bom(), [0xFE, 0xFF]);
    assert_eq!(Endian::Little.into_utf16_bom(), [0xFF, 0xFE]);
    assert_eq!(Endian::Native.into_utf16_bom(), [0xFF, 0xFE]);
}

#[test]
fn utf32_byte_order_marks() {
    assert_eq!(
        Endian::from_utf32_bom([0x00, 0x00, 0xFE, 0xFF]),
        Some(Endian::Big)
    );
    assert_eq!(
        Endian::from_utf32_bom([0xFF, 0xFE, 0x00, 0x00]),
        Some(Endian::Little)
    );
    assert_eq!(Endian::from_utf32_bom([0xFF, 0xFE, 0xFF, 0xFE]), None);

    assert_eq!(Endian::Big.into_utf32_bom(), [0x00, 0x00, 0xFE, 0xFF]);
    assert_eq!(Endian::Little.into_utf32_bom(), [0xFF, 0xFE, 0x00, 0x00]);
    assert_eq!(Endian::Native.into_utf32_bom(), [0xFF, 0xFE, 0x00, 0x00]);
}
