use bytecraft::common::SeekFrom;
use bytecraft::error::Error;
use bytecraft::reader::ByteReader;

#[test]
fn test_insufficient_data_error() -> Result<(), Error> {
    let error: Error = Error::InsufficientData {
        requested: 4,
        available: 2,
    };

    assert!(matches!(
        error,
        Error::InsufficientData {
            requested: 4,
            available: 2
        }
    ));

    assert_eq!(
        error.message(),
        "Insufficient data: requested 4 bytes, but only 2 available"
    );

    Ok(())
}

#[test]
fn test_out_of_bounds_error() -> Result<(), Error> {
    let error: Error = Error::OutOfBounds {
        pos: 0,
        requested: 100,
        len: 4,
    };

    assert!(matches!(
        error,
        Error::OutOfBounds {
            pos: 0,
            requested: 100,
            len: 4
        }
    ));

    assert_eq!(
        error.message(),
        "Position out of bounds: current=0, requested=100, length=4"
    );

    Ok(())
}

#[test]
fn test_not_valid_error() -> Result<(), Error> {
    let error: Error = Error::NotValid;
    assert_eq!(
        error.message(),
        "Data is not valid for the requested operation"
    );
    Ok(())
}

#[test]
fn test_not_valid_ascii_error() -> Result<(), Error> {
    let error: Error = Error::NotValidAscii;
    assert_eq!(error.message(), "Data contains non-ASCII characters");
    Ok(())
}

#[test]
fn test_not_valid_ascii_error_doc() -> Result<(), Error> {
    let data: &[u8] = "📚".as_bytes(); // Valid UTF-8 but non-ASCII
    let mut reader: ByteReader = ByteReader::new(data);

    match reader.read_ascii(4) {
        Err(Error::NotValidAscii) => {
            // Data contains non-ASCII bytes
            Ok(())
        }
        Err(Error::NotValidUTF8) => {
            // Data contains non-UTF8 bytes
            Err(Error::NotValidUTF8)
        }
        _ => panic!("Expected NotValidAscii error"),
    }
}

#[test]
fn test_not_valid_utf8_error() -> Result<(), Error> {
    let data = [0xC0, 0x80]; // Not a valid UTF-8 sequence
    let mut reader: ByteReader = ByteReader::new(&data);
    let error: Error = reader.read_ascii(2).unwrap_err();
    assert!(matches!(error, Error::NotValidUTF8));
    assert!(error.message().contains("Invalid UTF-8 sequence"));
    Ok(())
}

#[test]
fn test_custom_error() -> Result<(), Error> {
    let error: Error = Error::Custom("Custom: test".to_string());
    assert_eq!(error.message(), "Custom error: Custom: test");
    Ok(())
}

#[test]
fn test_insufficient_data_example() -> Result<(), Error> {
    let data: [u8; 2] = [0x01, 0x02]; // Only 2 bytes
    let mut reader: ByteReader = ByteReader::new(&data);

    // Trying to read u32 (4 bytes) from 2 bytes of data
    match reader.read::<u32>() {
        Err(Error::InsufficientData {
            requested,
            available,
        }) => {
            assert_eq!(requested, 4);
            assert_eq!(available, 2);
            Ok(())
        }
        _ => panic!("Expected InsufficientData error"),
    }
}

#[test]
fn test_out_of_bounds_example() -> Result<(), Error> {
    let data: [u8; 4] = [0x01, 0x02, 0x03, 0x04];
    let mut reader: ByteReader = ByteReader::new(&data);

    // Trying to seek beyond the end of data
    match reader.seek(SeekFrom::Start(100)) {
        Err(Error::OutOfBounds {
            pos,
            requested,
            len,
        }) => {
            assert_eq!(pos, 0);
            assert_eq!(requested, 100);
            assert_eq!(len, 4);
            Ok(())
        }
        _ => panic!("Expected OutOfBounds error"),
    }
}

#[test]
fn test_result_type_usage() -> Result<(), Error> {
    fn read_header(data: &[u8]) -> Result<u32, Error> {
        let mut reader: ByteReader = ByteReader::new(data);
        reader.read::<u32>()
    }

    let result: Result<u32, Error> = read_header(&[0x01, 0x02, 0x03, 0x04]);
    assert!(result.is_ok());
    Ok(())
}

#[test]
fn test_custom_error_source() -> Result<(), Error> {
    // A failed UTF-8 decode reports the dedicated variant, and its message
    // names the underlying cause.
    let data = [0xC0, 0x80];
    let mut reader: ByteReader = ByteReader::new(&data);
    let error: Error = reader.read_ascii(2).unwrap_err();

    assert!(matches!(error, Error::NotValidUTF8));
    assert!(error.message().contains("UTF-8"));
    Ok(())
}

#[test]
fn test_error_source_none() -> Result<(), Error> {
    // The generic invalidity error names no underlying cause.
    let error: Error = Error::NotValid;
    assert!(!error.message().contains(":"));
    Ok(())
}
