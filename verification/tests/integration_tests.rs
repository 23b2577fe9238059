use cek_debugger::error_interpreter::interpret_error;
use cek_debugger::loader::{
    apply_parameters, decode_compiled_code, identify_file_type, parse_parameter, ApplyError,
    FileType, LoadError, LoadedProgram, ParameterError, PlutusData,
};
use cek_debugger::machine::term::{Constant, Term};
use cek_debugger::parser::parse_program;
use std::collections::BTreeMap;
use std::rc::Rc;

fn loaded(source_map: BTreeMap<u64, String>) -> LoadedProgram {
    LoadedProgram {
        filename: "validator.uplc".to_string(),
        program: parse_program("(program 1.0.0 (lam x x))").unwrap(),
        source_map,
    }
}

#[test]
fn test_parameter_parsing() {
    let hex = "d8799f0102ff";
    let result = parse_parameter(0, hex.to_string());
    assert!(result.is_ok());
}

#[test]
fn a_parameter_holds_the_bytes_of_its_text() {
    let data = parse_parameter(0, "D8799f0102FF".to_string()).unwrap();
    assert_eq!(data.clone().into_cbor(), vec![0xd8, 0x79, 0x9f, 0x01, 0x02, 0xff]);
    assert_eq!(Some(data), PlutusData::from_cbor(vec![0xd8, 0x79, 0x9f, 0x01, 0x02, 0xff]));
    let five = parse_parameter(3, "05".to_string()).unwrap();
    assert_eq!(five.into_cbor(), vec![5]);
}

#[test]
fn parameters_that_cannot_be_read() {
    assert_eq!(parse_parameter(2, "d87".to_string()), Err(ParameterError::InvalidHex(2)));
    assert_eq!(parse_parameter(5, "zz".to_string()), Err(ParameterError::InvalidHex(5)));
    assert_eq!(parse_parameter(1, "0x05".to_string()), Err(ParameterError::InvalidHex(1)));
    assert_eq!(parse_parameter(7, "".to_string()), Err(ParameterError::InvalidData(7)));
    assert_eq!(parse_parameter(4, "d8799f0102".to_string()), Err(ParameterError::InvalidData(4)));
    assert_eq!(parse_parameter(0, "f5".to_string()), Err(ParameterError::InvalidData(0)));
    assert_eq!(PlutusData::from_cbor(vec![0xf5]), None);
}

#[test]
fn data_is_decoded_up_to_a_length() {
    // An array in an array, and so on, down to a zero: as deep as the bytes are many.
    let nested = |depth: usize| {
        let mut hex = "81".repeat(depth);
        hex.push_str("00");
        hex
    };
    let longest = parse_parameter(0, nested(4095)).unwrap();
    assert_eq!(longest.into_cbor().len(), 4096);
    assert_eq!(parse_parameter(3, nested(4096)), Err(ParameterError::InvalidData(3)));
    assert_eq!(parse_parameter(3, nested(300_000)), Err(ParameterError::InvalidData(3)));
    // A byte string of 4093 bytes with its header of three bytes, and one of a byte more.
    let mut bytes = vec![0x59, 0x0f, 0xfd];
    bytes.extend(vec![0u8; 4093]);
    assert_eq!(bytes.len(), 4096);
    assert!(PlutusData::from_cbor(bytes).is_some());
    let mut bytes = vec![0x59, 0x0f, 0xfe];
    bytes.extend(vec![0u8; 4094]);
    assert_eq!(PlutusData::from_cbor(bytes), None);
}

#[test]
fn parameters_wrap_the_term_and_move_the_source_map() {
    let mut source_map = BTreeMap::new();
    source_map.insert(0, "a.ak:1".to_string());
    source_map.insert(7, "b.ak:2".to_string());
    let first = parse_parameter(0, "01".to_string()).unwrap();
    let second = parse_parameter(1, "02".to_string()).unwrap();
    let applied = apply_parameters(loaded(source_map), vec![first, second]).ok().unwrap();
    assert_eq!(applied.filename, "validator.uplc");
    assert_eq!(applied.program.version, (1, 0, 0));
    assert_eq!(applied.program.to_string(), "(program 1.0.0 [[(lam i_0 i_0) (con data #01)] (con data #02)])");
    let data = |b: u8| Rc::new(Term::Constant(Rc::new(Constant::Data(vec![b]))));
    let identity = Rc::new(Term::Lambda(Rc::new(Term::Var(0))));
    assert_eq!(
        applied.program.term,
        Term::Apply(Rc::new(Term::Apply(identity, data(1))), data(2))
    );
    let moved: Vec<(u64, String)> = applied.source_map.into_iter().collect();
    assert_eq!(moved, vec![(2, "a.ak:1".to_string()), (9, "b.ak:2".to_string())]);
}

#[test]
fn no_parameters_change_nothing() {
    let mut source_map = BTreeMap::new();
    source_map.insert(u64::MAX, "end.ak:1".to_string());
    let applied = apply_parameters(loaded(source_map.clone()), vec![]).ok().unwrap();
    assert_eq!(applied.program, parse_program("(program 1.0.0 (lam x x))").unwrap());
    assert_eq!(applied.source_map, source_map);
}

#[test]
fn an_index_that_cannot_move_is_an_error() {
    let mut source_map = BTreeMap::new();
    source_map.insert(1, "a.ak:1".to_string());
    source_map.insert(u64::MAX, "end.ak:1".to_string());
    let one = parse_parameter(0, "01".to_string()).unwrap();
    let result = apply_parameters(loaded(source_map), vec![one]);
    assert_eq!(result.err(), Some(ApplyError::IndexOverflow));
}

#[test]
fn kinds_of_file() {
    assert_eq!(identify_file_type(Some("uplc")), Ok(FileType::Uplc));
    assert_eq!(identify_file_type(Some("flat")), Ok(FileType::Flat));
    assert_eq!(identify_file_type(Some("json")), Ok(FileType::Json));
    assert_eq!(identify_file_type(Some("UPLC")), Err(LoadError::UnsupportedExtension));
    assert_eq!(identify_file_type(Some("txt")), Err(LoadError::UnsupportedExtension));
    assert_eq!(identify_file_type(Some("")), Err(LoadError::UnsupportedExtension));
    assert_eq!(identify_file_type(None), Err(LoadError::UnsupportedExtension));
    assert_eq!(
        LoadError::UnsupportedExtension.message(),
        "That extension is not supported. Supported: .uplc .flat .json"
    );
    assert_eq!(LoadError::InvalidHex.message(), "could not hex-decode compiled_code");
    assert_eq!(LoadError::InvalidCbor.message(), "minicbor decode failed");
}

#[test]
fn compiled_code_is_a_byte_string_in_hexadecimal() {
    assert_eq!(decode_compiled_code("43010203"), Ok(vec![1, 2, 3]));
    assert_eq!(decode_compiled_code("40"), Ok(vec![]));
    assert_eq!(decode_compiled_code("4301020"), Err(LoadError::InvalidHex));
    assert_eq!(decode_compiled_code("xy"), Err(LoadError::InvalidHex));
    assert_eq!(decode_compiled_code("430102"), Err(LoadError::InvalidCbor));
    assert_eq!(decode_compiled_code("05"), Err(LoadError::InvalidCbor));
    assert_eq!(decode_compiled_code(""), Err(LoadError::InvalidCbor));
}

#[test]
fn the_error_term_has_a_message() {
    assert_eq!(
        interpret_error(&Term::Error),
        Some("UPLC evaluation error (IndexedTerm::Error)".to_string())
    );
    assert_eq!(interpret_error(&Term::Var(0)), None);
    assert_eq!(interpret_error(&Term::Delay(Rc::new(Term::Error))), None);
}
