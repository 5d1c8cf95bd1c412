use payload_bridge::error::ExtractError;
use payload_bridge::format::{detect, FileKind};

#[test]
fn zip_signature_is_detected() {
    assert_eq!(detect(&[0x50, 0x4B, 0x03, 0x04]), Ok(FileKind::Zip));
}

#[test]
fn zip_signature_is_detected_whatever_follows() {
    for third in [0x00u8, 0x05, 0x41, 0xFF] {
        for fourth in [0x00u8, 0x06, 0x55, 0xFF] {
            assert_eq!(detect(&[0x50, 0x4B, third, fourth]), Ok(FileKind::Zip));
        }
    }
}

#[test]
fn payload_signature_is_detected() {
    assert_eq!(detect(b"CrAU"), Ok(FileKind::Bin));
    assert_eq!(detect(&[0x43, 0x72, 0x41, 0x55]), Ok(FileKind::Bin));
}

#[test]
fn other_prefixes_are_unsupported() {
    assert_eq!(detect(&[0, 0, 0, 0]), Err(ExtractError::UnsupportedFormat));
    assert_eq!(detect(b"CrAV"), Err(ExtractError::UnsupportedFormat));
    assert_eq!(detect(b"crau"), Err(ExtractError::UnsupportedFormat));
    assert_eq!(detect(&[0x4B, 0x50, 0x03, 0x04]), Err(ExtractError::UnsupportedFormat));
    assert_eq!(detect(&[0x50, 0x4C, 0x41, 0x55]), Err(ExtractError::UnsupportedFormat));
    assert_eq!(detect(&[0x7F, 0x45, 0x4C, 0x46]), Err(ExtractError::UnsupportedFormat));
}

#[test]
fn every_prefix_is_classified_by_the_two_signatures() {
    for a in 0u16..=255 {
        for b in [0x00u8, 0x4B, 0x72, 0xFF] {
            let magic = [a as u8, b, 0x41, 0x55];
            let expected = if magic[0] == 0x50 && magic[1] == 0x4B {
                Ok(FileKind::Zip)
            } else if magic == [0x43, 0x72, 0x41, 0x55] {
                Ok(FileKind::Bin)
            } else {
                Err(ExtractError::UnsupportedFormat)
            };
            assert_eq!(detect(&magic), expected);
        }
    }
}

#[test]
fn errors_read_as_the_host_sees_them() {
    assert_eq!(ExtractError::UnsupportedFormat.message(), "Unsupported file format");
    assert_eq!(
        ExtractError::PartitionNotFound { name: "vendor_boot".to_string() }.message(),
        "Partition 'vendor_boot' not found"
    );
    assert_eq!(
        ExtractError::Serialization { detail: "key must be a string".to_string() }.message(),
        "Serialization failed: key must be a string"
    );
    assert_eq!(
        ExtractError::Engine { detail: "No such file or directory (os error 2)".to_string() }
            .message(),
        "No such file or directory (os error 2)"
    );
}
