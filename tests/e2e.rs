use simple_someip::e2e::{
    check_profile4, check_profile4_with_crc, check_profile5, check_profile5_with_crc, compute_crc16_p5, compute_crc32_p4, protect_profile4,
    protect_profile5, E2ECheckStatus, Profile4Config, Profile4State, Profile5Config,
    Profile5State,
};

#[test]
fn test_crc32_p4_basic() {
    // Basic smoke test - verify CRC changes with different inputs
    let crc1 = compute_crc32_p4(10, 0, 0x12345678, b"test");
    let crc2 = compute_crc32_p4(10, 1, 0x12345678, b"test");
    let crc3 = compute_crc32_p4(10, 0, 0x12345679, b"test");
    let crc4 = compute_crc32_p4(10, 0, 0x12345678, b"Test");

    assert_ne!(crc1, crc2, "Different counter should produce different CRC");
    assert_ne!(crc1, crc3, "Different data_id should produce different CRC");
    assert_ne!(crc1, crc4, "Different payload should produce different CRC");
}

#[test]
fn test_crc16_p5_basic() {
    // Basic smoke test - verify CRC changes with different inputs
    let crc1 = compute_crc16_p5(0x1234, 0, b"test");
    let crc2 = compute_crc16_p5(0x1234, 1, b"test");
    let crc3 = compute_crc16_p5(0x1235, 0, b"test");
    let crc4 = compute_crc16_p5(0x1234, 0, b"Test");

    assert_ne!(crc1, crc2, "Different counter should produce different CRC");
    assert_ne!(crc1, crc3, "Different data_id should produce different CRC");
    assert_ne!(crc1, crc4, "Different payload should produce different CRC");
}

#[test]
fn test_crc32_p4_deterministic() {
    // Same inputs should always produce same output
    let crc1 = compute_crc32_p4(20, 5, 0xABCDEF01, b"payload data");
    let crc2 = compute_crc32_p4(20, 5, 0xABCDEF01, b"payload data");
    assert_eq!(crc1, crc2);
}

#[test]
fn test_crc16_p5_deterministic() {
    // Same inputs should always produce same output
    let crc1 = compute_crc16_p5(0xABCD, 5, b"payload data");
    let crc2 = compute_crc16_p5(0xABCD, 5, b"payload data");
    assert_eq!(crc1, crc2);
}

#[test]
fn test_crc32_p4_empty_payload() {
    // Should work with empty payload
    let crc = compute_crc32_p4(8, 0, 0x12345678, b"");
    assert_ne!(crc, 0); // CRC should be non-trivial even for empty payload
}

#[test]
fn test_crc16_p5_empty_payload() {
    // Should work with empty payload
    let crc = compute_crc16_p5(0x1234, 0, b"");
    assert_ne!(crc, 0); // CRC should be non-trivial even for empty payload
}

#[test]
fn test_check_profile4_valid() {
    let config = Profile4Config::new(0x12345678, 15);
    let mut protect_state = Profile4State::new();
    let mut check_state = Profile4State::new();

    let payload = b"Hello, World!";
    let protected = protect_profile4(&config, &mut protect_state, payload);

    let result = check_profile4(&config, &mut check_state, &protected);
    assert_eq!(result.status, E2ECheckStatus::Okay);
    assert_eq!(result.counter, Some(0));
    assert_eq!(result.payload.as_deref(), Some(payload.as_slice()));
}

#[test]
fn test_check_profile4_wrong_data_id() {
    let config1 = Profile4Config::new(0x12345678, 15);
    let config2 = Profile4Config::new(0xDEADBEEF, 15);
    let mut protect_state = Profile4State::new();
    let mut check_state = Profile4State::new();

    let payload = b"test";
    let protected = protect_profile4(&config1, &mut protect_state, payload);

    // Check with different data_id
    let result = check_profile4(&config2, &mut check_state, &protected);
    assert_eq!(result.status, E2ECheckStatus::BadArgument);
}

#[test]
fn test_check_profile4_corrupted_crc() {
    let config = Profile4Config::new(0x12345678, 15);
    let mut protect_state = Profile4State::new();
    let mut check_state = Profile4State::new();

    let payload = b"test";
    let mut protected = protect_profile4(&config, &mut protect_state, payload);

    // Corrupt CRC (bytes 8-11)
    protected[8] ^= 0xFF;

    let result = check_profile4(&config, &mut check_state, &protected);
    assert_eq!(result.status, E2ECheckStatus::CrcError);
}

#[test]
fn test_check_profile4_corrupted_payload() {
    let config = Profile4Config::new(0x12345678, 15);
    let mut protect_state = Profile4State::new();
    let mut check_state = Profile4State::new();

    let payload = b"test";
    let mut protected = protect_profile4(&config, &mut protect_state, payload);

    // Corrupt payload
    protected[12] ^= 0xFF;

    let result = check_profile4(&config, &mut check_state, &protected);
    assert_eq!(result.status, E2ECheckStatus::CrcError);
}

#[test]
fn test_check_profile4_wrong_length() {
    let config = Profile4Config::new(0x12345678, 15);
    let mut protect_state = Profile4State::new();
    let mut check_state = Profile4State::new();

    let payload = b"test";
    let mut protected = protect_profile4(&config, &mut protect_state, payload);

    // Truncate message
    protected.truncate(14);

    let result = check_profile4(&config, &mut check_state, &protected);
    assert_eq!(result.status, E2ECheckStatus::BadArgument);
}

#[test]
fn test_check_profile4_too_short() {
    let config = Profile4Config::new(0x12345678, 15);
    let mut check_state = Profile4State::new();

    let short = [0u8; 11]; // Less than 12-byte header
    let result = check_profile4(&config, &mut check_state, &short);
    assert_eq!(result.status, E2ECheckStatus::BadArgument);
}

#[test]
fn test_check_profile5_valid() {
    let config = Profile5Config::new(0x1234, 20, 15);
    let mut protect_state = Profile5State::new();
    let mut check_state = Profile5State::new();

    // Payload must be padded to data_length (20 bytes) for check_profile5
    let mut payload = [0u8; 20];
    payload[..13].copy_from_slice(b"Hello, World!");
    let protected = protect_profile5(&config, &mut protect_state, &payload);

    let result = check_profile5(&config, &mut check_state, &protected);
    assert_eq!(result.status, E2ECheckStatus::Okay);
    assert_eq!(result.counter, Some(0));
    assert_eq!(result.payload.as_deref(), Some(payload.as_slice()));
}

#[test]
fn test_check_profile5_corrupted_crc() {
    let config = Profile5Config::new(0x1234, 20, 15);
    let mut protect_state = Profile5State::new();
    let mut check_state = Profile5State::new();

    let mut payload = [0u8; 20];
    payload[..4].copy_from_slice(b"test");
    let mut protected = protect_profile5(&config, &mut protect_state, &payload);

    // Corrupt CRC (bytes 1-2)
    protected[1] ^= 0xFF;

    let result = check_profile5(&config, &mut check_state, &protected);
    assert_eq!(result.status, E2ECheckStatus::CrcError);
}

#[test]
fn test_check_profile5_too_short() {
    let config = Profile5Config::new(0x1234, 20, 15);
    let mut check_state = Profile5State::new();

    let short = [0u8; 2]; // Less than 3-byte header
    let result = check_profile5(&config, &mut check_state, &short);
    assert_eq!(result.status, E2ECheckStatus::BadArgument);
}

#[test]
fn test_sequence_repeated() {
    let config = Profile4Config::new(0x12345678, 15);
    let mut protect_state = Profile4State::new();
    let mut check_state = Profile4State::new();

    let payload = b"test";
    let protected = protect_profile4(&config, &mut protect_state, payload);

    // First check
    let result1 = check_profile4(&config, &mut check_state, &protected);
    assert_eq!(result1.status, E2ECheckStatus::Okay);

    // Replay same message
    let result2 = check_profile4(&config, &mut check_state, &protected);
    assert_eq!(result2.status, E2ECheckStatus::Repeated);
}

#[test]
fn test_sequence_consecutive() {
    let config = Profile4Config::new(0x12345678, 15);
    let mut protect_state = Profile4State::new();
    let mut check_state = Profile4State::new();

    let payload = b"test";

    for _ in 0..5 {
        let protected = protect_profile4(&config, &mut protect_state, payload);
        let result = check_profile4(&config, &mut check_state, &protected);
        assert_eq!(result.status, E2ECheckStatus::Okay);
    }
}

#[test]
fn test_sequence_some_lost() {
    let config = Profile4Config::new(0x12345678, 10);
    let mut protect_state = Profile4State::new();
    let mut check_state = Profile4State::new();

    let payload = b"test";

    // First message
    let protected1 = protect_profile4(&config, &mut protect_state, payload);
    let result1 = check_profile4(&config, &mut check_state, &protected1);
    assert_eq!(result1.status, E2ECheckStatus::Okay);

    // Skip some messages
    for _ in 0..5 {
        let _ = protect_profile4(&config, &mut protect_state, payload);
    }

    // Check with gap of 6 (within max_delta of 10)
    let protected2 = protect_profile4(&config, &mut protect_state, payload);
    let result2 = check_profile4(&config, &mut check_state, &protected2);
    assert_eq!(result2.status, E2ECheckStatus::OkSomeLost);
}

#[test]
fn test_sequence_wrong_sequence() {
    let config = Profile4Config::new(0x12345678, 3);
    let mut protect_state = Profile4State::new();
    let mut check_state = Profile4State::new();

    let payload = b"test";

    // First message
    let protected1 = protect_profile4(&config, &mut protect_state, payload);
    let result1 = check_profile4(&config, &mut check_state, &protected1);
    assert_eq!(result1.status, E2ECheckStatus::Okay);

    // Skip many messages
    for _ in 0..10 {
        let _ = protect_profile4(&config, &mut protect_state, payload);
    }

    // Check with gap of 11 (exceeds max_delta of 3)
    let protected2 = protect_profile4(&config, &mut protect_state, payload);
    let result2 = check_profile4(&config, &mut check_state, &protected2);
    assert_eq!(result2.status, E2ECheckStatus::WrongSequence);
}

#[test]
fn test_sequence_wraparound() {
    let config = Profile4Config::new(0x12345678, 5);
    let mut protect_state = Profile4State::with_initial_counter(u16::MAX - 2);
    let mut check_state = Profile4State::new();

    let payload = b"test";

    // Messages around counter wraparound
    for _ in 0..5 {
        let protected = protect_profile4(&config, &mut protect_state, payload);
        let result = check_profile4(&config, &mut check_state, &protected);
        assert_eq!(result.status, E2ECheckStatus::Okay);
    }
}

#[test]
fn test_profile5_sequence_wraparound() {
    let config = Profile5Config::new(0x1234, 20, 5);
    let mut protect_state = Profile5State::with_initial_counter(u8::MAX - 2);
    let mut check_state = Profile5State::new();

    let mut payload = [0u8; 20];
    payload[..4].copy_from_slice(b"test");

    // Messages around counter wraparound
    for _ in 0..5 {
        let protected = protect_profile5(&config, &mut protect_state, &payload);
        let result = check_profile5(&config, &mut check_state, &protected);
        assert_eq!(result.status, E2ECheckStatus::Okay);
    }
}

#[test]
fn test_protect_profile4_header_format() {
    let config = Profile4Config::new(0x12345678, 15);
    let mut state = Profile4State::new();

    let payload = b"test";
    let protected = protect_profile4(&config, &mut state, payload);

    // Check total length
    assert_eq!(protected.len(), 12 + 4); // header + payload

    // Check length field (first 2 bytes)
    let length = u16::from_be_bytes([protected[0], protected[1]]);
    assert_eq!(length, 16); // 12 + 4

    // Check counter field (bytes 2-3)
    let counter = u16::from_be_bytes([protected[2], protected[3]]);
    assert_eq!(counter, 0);

    // Check data_id field (bytes 4-7)
    let data_id = u32::from_be_bytes([protected[4], protected[5], protected[6], protected[7]]);
    assert_eq!(data_id, 0x12345678);

    // Check payload at end
    assert_eq!(&protected[12..], b"test");
}

#[test]
fn test_protect_profile4_counter_increment() {
    let config = Profile4Config::new(0x12345678, 15);
    let mut state = Profile4State::new();

    let payload = b"test";

    for i in 0..5 {
        let protected = protect_profile4(&config, &mut state, payload);
        let counter = u16::from_be_bytes([protected[2], protected[3]]);
        assert_eq!(counter, i);
    }
}

#[test]
fn test_protect_profile4_counter_wraps() {
    let config = Profile4Config::new(0x12345678, 15);
    let mut state = Profile4State::with_initial_counter(u16::MAX);

    let payload = b"test";

    let protected1 = protect_profile4(&config, &mut state, payload);
    let counter1 = u16::from_be_bytes([protected1[2], protected1[3]]);
    assert_eq!(counter1, u16::MAX);

    let protected2 = protect_profile4(&config, &mut state, payload);
    let counter2 = u16::from_be_bytes([protected2[2], protected2[3]]);
    assert_eq!(counter2, 0); // Wrapped
}

#[test]
fn test_protect_profile5_header_format() {
    let config = Profile5Config::new(0x1234, 20, 15);
    let mut state = Profile5State::new();

    let payload = b"test";
    let protected = protect_profile5(&config, &mut state, payload);

    // Check total length
    assert_eq!(protected.len(), 3 + 4); // header + payload

    // Header layout: [CRC_lo, CRC_hi, Counter]
    // Check counter field (third byte)
    assert_eq!(protected[2], 0);

    // Check payload at end
    assert_eq!(&protected[3..], b"test");
}

#[test]
fn test_protect_profile5_counter_increment() {
    let config = Profile5Config::new(0x1234, 20, 15);
    let mut state = Profile5State::new();

    let payload = b"test";

    for i in 0..5u8 {
        let protected = protect_profile5(&config, &mut state, payload);
        assert_eq!(protected[2], i); // Counter is at byte 2
    }
}

#[test]
fn test_protect_profile5_counter_wraps() {
    let config = Profile5Config::new(0x1234, 20, 15);
    let mut state = Profile5State::with_initial_counter(u8::MAX);

    let payload = b"test";

    let protected1 = protect_profile5(&config, &mut state, payload);
    assert_eq!(protected1[2], u8::MAX); // Counter is at byte 2

    let protected2 = protect_profile5(&config, &mut state, payload);
    assert_eq!(protected2[2], 0); // Wrapped
}

#[test]
fn test_protect_profile4_empty_payload() {
    let config = Profile4Config::new(0x12345678, 15);
    let mut state = Profile4State::new();

    let protected = protect_profile4(&config, &mut state, b"");
    assert_eq!(protected.len(), 12); // Just header
}

#[test]
fn test_protect_profile5_empty_payload() {
    let config = Profile5Config::new(0x1234, 3, 15);
    let mut state = Profile5State::new();

    let protected = protect_profile5(&config, &mut state, b"");
    assert_eq!(protected.len(), 3); // Just header
}

#[test]
fn test_status_return_codes() {
    assert_eq!(E2ECheckStatus::Unchecked.to_return_code(), 0);
    assert_eq!(E2ECheckStatus::Okay.to_return_code(), 1);
    assert_eq!(E2ECheckStatus::CrcError.to_return_code(), 2);
    assert_eq!(E2ECheckStatus::Repeated.to_return_code(), 3);
    assert_eq!(E2ECheckStatus::OkSomeLost.to_return_code(), 4);
    assert_eq!(E2ECheckStatus::WrongSequence.to_return_code(), 5);
    assert_eq!(E2ECheckStatus::BadArgument.to_return_code(), 6);
}

#[test]
fn test_profile4_roundtrip() {
    let config = Profile4Config::new(0x12345678, 15);
    let mut protect_state = Profile4State::new();
    let mut check_state = Profile4State::new();

    let payload = b"Test payload data";
    let protected = protect_profile4(&config, &mut protect_state, payload);

    assert_eq!(protected.len(), payload.len() + 12); // 12-byte header

    let result = check_profile4(&config, &mut check_state, &protected);
    assert_eq!(result.status, E2ECheckStatus::Okay);
    assert_eq!(result.counter, Some(0));
    assert_eq!(result.payload.as_deref(), Some(payload.as_slice()));
}

#[test]
fn test_profile5_roundtrip() {
    let config = Profile5Config::new(0x1234, 20, 15);
    let mut protect_state = Profile5State::new();
    let mut check_state = Profile5State::new();

    // Payload must be padded to data_length (20 bytes) for check_profile5
    let mut payload = [0u8; 20];
    payload[..17].copy_from_slice(b"Test payload data");
    let protected = protect_profile5(&config, &mut protect_state, &payload);

    assert_eq!(protected.len(), payload.len() + 3); // 3-byte header

    let result = check_profile5(&config, &mut check_state, &protected);
    assert_eq!(result.status, E2ECheckStatus::Okay);
    assert_eq!(result.counter, Some(0));
    assert_eq!(result.payload.as_deref(), Some(payload.as_slice()));
}

#[test]
fn test_profile4_sequence_detection() {
    let config = Profile4Config::new(0x12345678, 5);
    let mut protect_state = Profile4State::new();
    let mut check_state = Profile4State::new();

    let payload = b"Test";

    // First message - should be Ok
    let protected1 = protect_profile4(&config, &mut protect_state, payload);
    let result1 = check_profile4(&config, &mut check_state, &protected1);
    assert_eq!(result1.status, E2ECheckStatus::Okay);

    // Second message - should be Ok
    let protected2 = protect_profile4(&config, &mut protect_state, payload);
    let result2 = check_profile4(&config, &mut check_state, &protected2);
    assert_eq!(result2.status, E2ECheckStatus::Okay);

    // Replay first message - should be Repeated or WrongSequence
    let result3 = check_profile4(&config, &mut check_state, &protected1);
    assert!(matches!(
        result3.status,
        E2ECheckStatus::Repeated | E2ECheckStatus::WrongSequence
    ));
}

#[test]
fn test_profile4_some_lost_detection() {
    let config = Profile4Config::new(0x12345678, 5);
    let mut protect_state = Profile4State::new();
    let mut check_state = Profile4State::new();

    let payload = b"Test";

    // First message
    let protected1 = protect_profile4(&config, &mut protect_state, payload);
    let result1 = check_profile4(&config, &mut check_state, &protected1);
    assert_eq!(result1.status, E2ECheckStatus::Okay);

    // Skip a few messages by advancing protector counter
    let _ = protect_profile4(&config, &mut protect_state, payload);
    let _ = protect_profile4(&config, &mut protect_state, payload);
    let protected4 = protect_profile4(&config, &mut protect_state, payload);

    // Check skipped message - should be OkSomeLost (delta=3, within max_delta=5)
    let result4 = check_profile4(&config, &mut check_state, &protected4);
    assert_eq!(result4.status, E2ECheckStatus::OkSomeLost);
}

#[test]
fn test_profile4_wrong_sequence_detection() {
    let config = Profile4Config::new(0x12345678, 2);
    let mut protect_state = Profile4State::new();
    let mut check_state = Profile4State::new();

    let payload = b"Test";

    // First message
    let protected1 = protect_profile4(&config, &mut protect_state, payload);
    let result1 = check_profile4(&config, &mut check_state, &protected1);
    assert_eq!(result1.status, E2ECheckStatus::Okay);

    // Skip many messages (exceed max_delta)
    for _ in 0..5 {
        let _ = protect_profile4(&config, &mut protect_state, payload);
    }
    let protected_late = protect_profile4(&config, &mut protect_state, payload);

    // Check - should be WrongSequence (delta=6, exceeds max_delta=2)
    let result = check_profile4(&config, &mut check_state, &protected_late);
    assert_eq!(result.status, E2ECheckStatus::WrongSequence);
}

#[test]
fn test_profile4_crc_error() {
    let config = Profile4Config::new(0x12345678, 15);
    let mut protect_state = Profile4State::new();
    let mut check_state = Profile4State::new();

    let payload = b"Test";
    let mut protected = protect_profile4(&config, &mut protect_state, payload);

    // Corrupt the CRC (last 4 bytes of header)
    protected[8] ^= 0xFF;

    let result = check_profile4(&config, &mut check_state, &protected);
    assert_eq!(result.status, E2ECheckStatus::CrcError);
}

#[test]
fn test_profile5_crc_error() {
    let config = Profile5Config::new(0x1234, 20, 15);
    let mut protect_state = Profile5State::new();
    let mut check_state = Profile5State::new();

    let mut payload = [0u8; 20];
    payload[..4].copy_from_slice(b"Test");
    let mut protected = protect_profile5(&config, &mut protect_state, &payload);

    // Corrupt the CRC (bytes 1-2 of header)
    protected[1] ^= 0xFF;

    let result = check_profile5(&config, &mut check_state, &protected);
    assert_eq!(result.status, E2ECheckStatus::CrcError);
}

#[test]
fn test_profile4_bad_argument_short_message() {
    let config = Profile4Config::new(0x12345678, 15);
    let mut check_state = Profile4State::new();

    // Message too short (less than 12-byte header)
    let short_message = [0u8; 8];
    let result = check_profile4(&config, &mut check_state, &short_message);
    assert_eq!(result.status, E2ECheckStatus::BadArgument);
}

#[test]
fn test_profile5_bad_argument_short_message() {
    let config = Profile5Config::new(0x1234, 20, 15);
    let mut check_state = Profile5State::new();

    // Message too short (less than 3-byte header)
    let short_message = [0u8; 2];
    let result = check_profile5(&config, &mut check_state, &short_message);
    assert_eq!(result.status, E2ECheckStatus::BadArgument);
}

#[test]
fn profile4_hello_layout() {
    let config = Profile4Config::new(0x12345678, 15);
    let mut protect_state = Profile4State::new();
    let mut check_state = Profile4State::new();
    let protected = protect_profile4(&config, &mut protect_state, b"Hello");
    assert_eq!(protected.len(), 17);
    assert_eq!(&protected[0..8], &[0x00, 0x11, 0x00, 0x00, 0x12, 0x34, 0x56, 0x78]);
    let crc = compute_crc32_p4(17, 0, 0x12345678, b"Hello");
    assert_eq!(&protected[8..12], &crc.to_be_bytes());
    let result = check_profile4(&config, &mut check_state, &protected);
    assert_eq!(result.status, E2ECheckStatus::Okay);
    assert_eq!(result.counter, Some(0));
    assert_eq!(result.payload.as_deref(), Some(&b"Hello"[..]));
}

#[test]
fn crc_check_values() {
    // The CRC input is length, counter and DataID, then the payload: "123456789".
    assert_eq!(compute_crc32_p4(0x3132, 0x3334, 0x35363738, b"9"), 0x1697_D06A);
    // Counter, payload, then the DataID little-endian: "123456789".
    assert_eq!(compute_crc16_p5(0x3938, 0x31, b"234567"), 0x29B1);
}

#[test]
fn profile5_sequence_loss() {
    let config = Profile5Config::new(0x1234, 20, 2);
    let mut protect_state = Profile5State::new();
    let mut check_state = Profile5State::new();
    let payload = [0u8; 20];
    let first = protect_profile5(&config, &mut protect_state, &payload);
    assert_eq!(check_profile5(&config, &mut check_state, &first).status, E2ECheckStatus::Okay);
    for _ in 0..4 {
        let _ = protect_profile5(&config, &mut protect_state, &payload);
    }
    let fifth = protect_profile5(&config, &mut protect_state, &payload);
    assert_eq!(fifth[2], 5);
    let result = check_profile5(&config, &mut check_state, &fifth);
    assert_eq!(result.status, E2ECheckStatus::WrongSequence);
    assert_eq!(result.counter, Some(5));
}

#[test]
fn profile5_classification_across_wrap() {
    let config = Profile5Config::new(0x1234, 4, 3);
    let payload = [1u8, 2, 3, 4];
    for (k, expected) in [
        (0u8, E2ECheckStatus::Repeated),
        (1, E2ECheckStatus::Okay),
        (2, E2ECheckStatus::OkSomeLost),
        (3, E2ECheckStatus::OkSomeLost),
        (4, E2ECheckStatus::WrongSequence),
    ] {
        let mut protect_state = Profile5State::with_initial_counter(254);
        let mut check_state = Profile5State::new();
        let first = protect_profile5(&config, &mut protect_state, &payload);
        assert_eq!(check_profile5(&config, &mut check_state, &first).status, E2ECheckStatus::Okay);
        let mut protect_later = Profile5State::with_initial_counter(254u8.wrapping_add(k));
        let later = protect_profile5(&config, &mut protect_later, &payload);
        assert_eq!(check_profile5(&config, &mut check_state, &later).status, expected);
    }
}

#[test]
fn profile4_single_bit_flips() {
    let config = Profile4Config::new(0x12345678, 15);
    let mut protect_state = Profile4State::new();
    let protected = protect_profile4(&config, &mut protect_state, b"abc");
    for byte in 2..protected.len() {
        if (4..8).contains(&byte) {
            continue;
        }
        for bit in 0..8 {
            let mut corrupted = protected.clone();
            corrupted[byte] ^= 1 << bit;
            let mut check_state = Profile4State::new();
            let result = check_profile4(&config, &mut check_state, &corrupted);
            assert_eq!(result.status, E2ECheckStatus::CrcError);
            assert_eq!(result.payload, None);
        }
    }
}

#[test]
fn profile5_single_bit_flips() {
    let config = Profile5Config::new(0x1234, 3, 15);
    let mut protect_state = Profile5State::new();
    let protected = protect_profile5(&config, &mut protect_state, b"abc");
    for byte in 0..protected.len() {
        for bit in 0..8 {
            let mut corrupted = protected.clone();
            corrupted[byte] ^= 1 << bit;
            let mut check_state = Profile5State::new();
            assert_eq!(
                check_profile5(&config, &mut check_state, &corrupted).status,
                E2ECheckStatus::CrcError
            );
        }
    }
}

#[test]
fn profile5_wrong_length_and_reset() {
    let config = Profile5Config::new(0x1234, 20, 15);
    let mut state = Profile5State::with_initial_counter(9);
    let protected = protect_profile5(&config, &mut state, &[0u8; 19]);
    let mut check_state = Profile5State::new();
    assert_eq!(
        check_profile5(&config, &mut check_state, &protected).status,
        E2ECheckStatus::BadArgument
    );
    state.reset();
    assert_eq!(protect_profile5(&config, &mut state, &[0u8; 20])[2], 0);
    let mut p4 = Profile4State::with_initial_counter(7);
    p4.reset();
    assert_eq!(p4.protect_counter, 0);
    assert_eq!(p4.last_counter, None);
}

#[test]
fn checks_given_a_computed_crc() {
    let config = Profile4Config::new(0x12345678, 15);
    let mut protect_state = Profile4State::new();
    let protected = protect_profile4(&config, &mut protect_state, b"data");
    let carried = u32::from_be_bytes([protected[8], protected[9], protected[10], protected[11]]);
    let mut state = Profile4State::new();
    let result = check_profile4_with_crc(&config, &mut state, &protected, carried ^ 1);
    assert_eq!(result.status, E2ECheckStatus::CrcError);
    assert_eq!(state.last_counter, None);
    let result = check_profile4_with_crc(&config, &mut state, &protected, carried);
    assert_eq!(result.status, E2ECheckStatus::Okay);
    assert_eq!(result.payload.as_deref(), Some(&b"data"[..]));

    let config = Profile5Config::new(0x1234, 2, 15);
    let mut protect_state = Profile5State::with_initial_counter(7);
    let protected = protect_profile5(&config, &mut protect_state, &[5, 6]);
    let carried = u16::from_le_bytes([protected[0], protected[1]]);
    let mut state = Profile5State::new();
    assert_eq!(
        check_profile5_with_crc(&config, &mut state, &protected, carried.wrapping_add(1)).status,
        E2ECheckStatus::CrcError
    );
    let result = check_profile5_with_crc(&config, &mut state, &protected, carried);
    assert_eq!(result.status, E2ECheckStatus::Okay);
    assert_eq!(result.counter, Some(7));
}
