use timekeeper::args::{parse_args, OutputType};
use timekeeper::record::PoHRecord;
use timekeeper::serialization::{decode_hash, encode_hash, HashParseError};

fn strings(items: &[&str]) -> Vec<String> {
    items.iter().map(|item| item.to_string()).collect()
}

#[test]
fn hash_is_written_as_lowercase_hex() {
    let mut hash: [u8; 32] = [0u8; 32];
    assert_eq!(encode_hash(&hash), "0".repeat(64));
    hash[0] = 0xAB;
    hash[1] = 0x0F;
    hash[31] = 0xF0;
    let text: String = encode_hash(&hash);
    assert_eq!(text.len(), 64);
    assert_eq!(&text[..4], "ab0f");
    assert_eq!(&text[62..], "f0");
    assert_eq!(text, text.to_lowercase());
}

#[test]
fn hash_text_round_trips() {
    let mut hash: [u8; 32] = [0u8; 32];
    for (i, byte) in hash.iter_mut().enumerate() {
        *byte = (i as u8).wrapping_mul(37).wrapping_add(11);
    }
    assert_eq!(decode_hash(&encode_hash(&hash)), Ok(hash));
    // Either case is read.
    assert_eq!(decode_hash(&encode_hash(&hash).to_uppercase()), Ok(hash));
}

#[test]
fn hash_text_of_wrong_shape_is_refused() {
    assert_eq!(decode_hash(""), Err(HashParseError::WrongLength { decoded: 0 }));
    assert_eq!(decode_hash(&"0".repeat(62)), Err(HashParseError::WrongLength { decoded: 31 }));
    assert_eq!(decode_hash(&"0".repeat(66)), Err(HashParseError::WrongLength { decoded: 33 }));
    assert_eq!(decode_hash(&"0".repeat(63)), Err(HashParseError::NotHex));
    assert_eq!(decode_hash(&format!("{}g", "0".repeat(63))), Err(HashParseError::NotHex));
    assert_eq!(decode_hash(&format!("{} ", "0".repeat(63))), Err(HashParseError::NotHex));
    assert_eq!(decode_hash(&"é".repeat(32)), Err(HashParseError::NotHex));
    assert!(decode_hash(&"f".repeat(64)).is_ok());
}

#[test]
fn record_is_written_on_one_line() {
    let mut hash: [u8; 32] = [0u8; 32];
    hash[0] = 0x12;
    hash[7] = 0xEF;
    hash[8] = 0x9A;
    let record = PoHRecord {
        tick_index: 27_648_001,
        slot_index: 432_000,
        epoch_index: 1,
        hash,
        timestamp_ms: 172_800_006,
        event: Some(vec![1, 2, 3]),
    };
    assert_eq!(
        record.to_text(),
        "Epoch 1, Slot 432000, Tick 27648001, Timestamp 172800006ms, Hash 0x12000000000000ef9..."
    );
    let zero = PoHRecord { tick_index: 0, slot_index: 0, epoch_index: 0, hash: [0u8; 32], timestamp_ms: 0, event: None };
    assert_eq!(zero.to_text(), "Epoch 0, Slot 0, Tick 0, Timestamp 0ms, Hash 0x00000000000000000...");
}

#[test]
fn arguments_choose_the_output() {
    assert!(matches!(parse_args(&strings(&[])), Ok(OutputType::Terminal)));
    assert!(matches!(parse_args(&strings(&["program"])), Ok(OutputType::Terminal)));
    // The program's name is never read.
    assert!(matches!(parse_args(&strings(&["--help"])), Ok(OutputType::Terminal)));
    match parse_args(&strings(&["program", "--json=out.json"])) {
        Ok(OutputType::JsonFile(name)) => assert_eq!(name, "out.json"),
        _ => panic!("expected a JSON file"),
    }
    match parse_args(&strings(&["program", "--json=a.json", "--json=b.json"])) {
        Ok(OutputType::JsonFile(name)) => assert_eq!(name, "b.json"),
        _ => panic!("expected a JSON file"),
    }
    // Every occurrence of the option leaves the name.
    match parse_args(&strings(&["program", "--json=a--json=b"])) {
        Ok(OutputType::JsonFile(name)) => assert_eq!(name, "ab"),
        _ => panic!("expected a JSON file"),
    }
    match parse_args(&strings(&["program", "--json=données.json"])) {
        Ok(OutputType::JsonFile(name)) => assert_eq!(name, "données.json"),
        _ => panic!("expected a JSON file"),
    }
}

#[test]
fn arguments_that_end_the_parse() {
    assert_eq!(parse_args(&strings(&["program", "--help"])).unwrap_err(), "Help requested");
    assert_eq!(parse_args(&strings(&["program", "-h"])).unwrap_err(), "Help requested");
    assert_eq!(parse_args(&strings(&["program", "--json=x", "-h"])).unwrap_err(), "Help requested");
    assert_eq!(
        parse_args(&strings(&["program", "--json="])).unwrap_err(),
        "Error: The filename cannot be empty"
    );
    assert_eq!(
        parse_args(&strings(&["program", "--json=--json="])).unwrap_err(),
        "Error: The filename cannot be empty"
    );
    assert_eq!(
        parse_args(&strings(&["program", "--verbose"])).unwrap_err(),
        "Unrecognized argument: --verbose"
    );
    assert_eq!(parse_args(&strings(&["program", "--json"])).unwrap_err(), "Unrecognized argument: --json");
    assert_eq!(parse_args(&strings(&["program", ""])).unwrap_err(), "Unrecognized argument: ");
    // The first such argument decides.
    assert_eq!(
        parse_args(&strings(&["program", "first", "--help"])).unwrap_err(),
        "Unrecognized argument: first"
    );
}
