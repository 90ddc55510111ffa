use minix2_rs::minix::{Data, Header, MinixError, Program, Text};

fn asem_binary() -> Vec<u8> {
    vec![
        // Header part
        0x01, 0x03, 0x20, 0x04, 0x20, 0x00, 0x00, 0x00, 0x10, 0x00, 0x00, 0x00, 0x26, 0x00,
        0x00, 0x00, 0x00, 0x00, 0x00, 0x00, 0x00, 0x00, 0x00, 0x00, 0x00, 0x00, 0x01, 0x00,
        0x70, 0x00, 0x00, 0x00, // Text part (0x10 bytes)
        0xbb, 0x00, 0x00, 0xcd, 0x20, 0xbb, 0x10, 0x00, 0xcd, 0x20, 0x00, 0x00, 0x00, 0x00,
        0x00, 0x00, // Data part (0x26 bytes)
        0x01, 0x00, 0x04, 0x00, 0x01, 0x00, 0x06, 0x00, 0x00, 0x00, 0x20, 0x00, 0x00, 0x00,
        0x00, 0x00, 0x01, 0x00, 0x01, 0x00, 0x00, 0x00, 0x00, 0x00, 0x00, 0x00, 0x00, 0x00,
        0x00, 0x00, 0x00, 0x00, 0x68, 0x65, 0x6c, 0x6c, 0x6f, 0x0a, // Additional data
        0x00, 0x00, 0x00, 0x00,
    ]
}

#[test]
fn test_parse_header() {
    let binary: Vec<u8> = vec![
        0x01, 0x03, 0x20, 0x04, 0x20, 0x00, 0x00, 0x00, 0x10, 0x00, 0x00, 0x00, 0x26, 0x00,
        0x00, 0x00, 0x00, 0x00, 0x00, 0x00, 0x00, 0x00, 0x00, 0x00, 0x00, 0x00, 0x01, 0x00,
        0x70, 0x00, 0x00, 0x00,
    ];
    assert_eq!(binary.len(), 32);

    let header = Header::parse(&binary).unwrap();
    assert_eq!(header.magic, [0x01, 0x03]);
    assert_eq!(header.flags, 0x20);
    assert_eq!(header.cpu, 0x04);
    assert_eq!(header.hdrlen, 0x20);
    assert_eq!(header.unused, 0x00);
    assert_eq!(header.version, 0x0000);
    assert_eq!(header.text, 0x00000010);
    assert_eq!(header.data, 0x00000026);
    assert_eq!(header.bss, 0x00000000);
    assert_eq!(header.entry, 0x00000000);
    assert_eq!(header.total, 0x00010000);
    assert_eq!(header.syms, 0x00000070);
}

#[test]
fn test_parse_invalid_header() {
    let binary: Vec<u8> = vec![0x01, 0x03, 0x20, 0x04, 0x20, 0x00, 0x00, 0x00, 0x10, 0x00];
    assert_eq!(binary.len(), 10);

    let header = Header::parse(&binary);
    assert_eq!(header, Err(MinixError::InvalidSize));
}

#[test]
fn segment_test_parse_text_segment() {
    let header = Header::parse(&asem_binary()).unwrap();
    let text_segment = Text::parse(&asem_binary(), header.text).unwrap();

    assert_eq!(
        *text_segment,
        vec![
            0xbb, 0x00, 0x00, 0xcd, 0x20, 0xbb, 0x10, 0x00, 0xcd, 0x20, 0x00, 0x00, 0x00, 0x00,
            0x00, 0x00
        ]
    );
}

#[test]
fn segment_test_parse_invalid_text_segment() {
    let binary: Vec<u8> = vec![
        // Header part
        0x01, 0x03, 0x20, 0x04, 0x20, 0x00, 0x00, 0x00, 0x10, 0x00, 0x00, 0x00, 0x26, 0x00,
        0x00, 0x00, 0x00, 0x00, 0x00, 0x00, 0x00, 0x00, 0x00, 0x00, 0x00, 0x00, 0x01, 0x00,
        0x70, 0x00, 0x00, 0x00, // Text part (should be 16 bytes, but only 5 bytes)
        0xbb, 0x00, 0x00, 0xcd, 0x20,
    ];

    let header = Header::parse(&binary).unwrap();
    let text_segment = Text::parse(&binary, header.text);

    assert_eq!(text_segment, Err(MinixError::InvalidSize));
}

#[test]
fn test_parse_data_segment() {
    let header = Header::parse(&asem_binary()).unwrap();
    let data_segment = Data::parse(&asem_binary(), header.text, header.data).unwrap();

    assert_eq!(
        *data_segment,
        vec![
            0x01, 0x00, 0x04, 0x00, 0x01, 0x00, 0x06, 0x00, 0x00, 0x00, 0x20, 0x00, 0x00, 0x00,
            0x00, 0x00, 0x01, 0x00, 0x01, 0x00, 0x00, 0x00, 0x00, 0x00, 0x00, 0x00, 0x00, 0x00,
            0x00, 0x00, 0x00, 0x00, 0x68, 0x65, 0x6c, 0x6c, 0x6f, 0x0a
        ]
    );
}

#[test]
fn program_from_bytes() {
    let program = Program::from_bytes(&asem_binary()).unwrap();

    assert_eq!(program.header.raw.to_vec(), asem_binary()[..32].to_vec());
    assert_eq!(*program.text_segment, asem_binary()[32..48].to_vec());
    assert_eq!(*program.data_segment, asem_binary()[48..86].to_vec());
}

#[test]
fn program_too_short_for_its_segments() {
    let binary = asem_binary();
    assert_eq!(
        Program::from_bytes(&binary[..85]).err(),
        Some(MinixError::InvalidSize)
    );
    assert_eq!(
        Program::from_bytes(&binary[..40]).err(),
        Some(MinixError::InvalidSize)
    );
    assert_eq!(
        Program::from_bytes(&binary[..31]).err(),
        Some(MinixError::InvalidSize)
    );
    assert!(Program::from_bytes(&binary[..86]).is_ok());
}

#[test]
fn header_fields_are_little_endian() {
    let mut binary = vec![0u8; 32];
    binary[6] = 0x34;
    binary[7] = 0x12;
    binary[28] = 0x78;
    binary[29] = 0x56;
    binary[30] = 0x34;
    binary[31] = 0x12;
    let header = Header::parse(&binary).unwrap();
    assert_eq!(header.version, 0x1234);
    assert_eq!(header.syms, 0x12345678);
    assert_eq!(header.raw.to_vec(), binary);
}

#[test]
fn minix_error_messages() {
    assert_eq!(MinixError::InvalidFile.to_string(), "Invalid file");
    assert_eq!(MinixError::InvalidSize.to_string(), "Invalid size");
    assert_eq!(MinixError::CorruptedData.to_string(), "Corrupted data");
}
