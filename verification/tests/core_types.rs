//! The version gate, the loader negotiation, the future store, and the
//! result-stream framing, exercised on concrete values.

use selene::encoder::{InternalBuffer, OutputStream, StreamWritable};
use selene::errors::EmuError;
use selene::future_store::FutureStore;
use selene::loader::{
    decode_measure_status, decode_status, negotiate, negotiate_simulator, LoadError,
    RequiredSimulatorSymbol, RequiredSymbol, SimulatorSymbolScan, SymbolScan,
};
use selene::version::{RuntimeAPIVersion, CURRENT_API_MAJOR, CURRENT_API_MINOR, CURRENT_API_PATCH};

fn full_scan(word: u64) -> SymbolScan {
    SymbolScan {
        version_word: Some(word),
        has_init: true,
        has_shot_start: true,
        has_shot_end: true,
        has_get_next_operations: true,
        has_qalloc: true,
        has_qfree: true,
        has_local_barrier: true,
        has_global_barrier: true,
        has_rxy_gate: true,
        has_rzz_gate: true,
        has_rz_gate: true,
        has_twin_rxy_gate: true,
        has_rpp_gate: true,
        has_tk2_gate: true,
        has_measure: true,
        has_measure_leaked: true,
        has_reset: true,
        has_force_result: true,
        has_get_bool_result: true,
        has_get_u64_result: true,
        has_set_bool_result: true,
        has_set_u64_result: true,
        has_increment_future_refcount: true,
        has_decrement_future_refcount: true,
        has_exit: true,
        has_get_metrics: false,
        has_custom_call: true,
    }
}

fn host_word(patch: u8) -> u64 {
    RuntimeAPIVersion {
        reserved: 0,
        major: CURRENT_API_MAJOR,
        minor: CURRENT_API_MINOR,
        patch,
    }
    .to_word()
}

#[test]
fn version_word_round_trip() {
    let v = RuntimeAPIVersion { reserved: 0, major: 1, minor: 2, patch: 3 };
    let word = v.to_word();
    assert_eq!(word, 0x00010203);
    assert_eq!(RuntimeAPIVersion::from_word(word), v);
    // Bits above the reserved byte are ignored on decode.
    assert_eq!(RuntimeAPIVersion::from_word(0xFFFF_0001_0203), v);
}

#[test]
fn version_gate_accepts_patch_differences() {
    let same_patch = RuntimeAPIVersion {
        reserved: 0,
        major: CURRENT_API_MAJOR,
        minor: CURRENT_API_MINOR,
        patch: CURRENT_API_PATCH,
    };
    assert!(same_patch.validate().is_ok());
    let other_patch = RuntimeAPIVersion {
        reserved: 0,
        major: CURRENT_API_MAJOR,
        minor: CURRENT_API_MINOR,
        patch: CURRENT_API_PATCH.wrapping_add(7),
    };
    assert!(other_patch.validate().is_ok());
}

#[test]
fn version_gate_rejects_major_minor_and_reserved() {
    let bad_major = RuntimeAPIVersion {
        reserved: 0,
        major: CURRENT_API_MAJOR.wrapping_add(1),
        minor: CURRENT_API_MINOR,
        patch: 0,
    };
    assert_eq!(bad_major.validate(), Err(LoadError::IncompatibleVersion(bad_major)));
    let bad_minor = RuntimeAPIVersion {
        reserved: 0,
        major: CURRENT_API_MAJOR,
        minor: CURRENT_API_MINOR.wrapping_add(1),
        patch: 0,
    };
    assert_eq!(bad_minor.validate(), Err(LoadError::IncompatibleVersion(bad_minor)));
    let bad_reserved = RuntimeAPIVersion {
        reserved: 9,
        major: CURRENT_API_MAJOR,
        minor: CURRENT_API_MINOR,
        patch: 0,
    };
    assert_eq!(bad_reserved.validate(), Err(LoadError::IncompatibleVersion(bad_reserved)));
}

#[test]
fn negotiate_accepts_a_complete_compatible_plugin() {
    let scan = full_scan(host_word(5));
    let table = negotiate(&scan).unwrap();
    assert_eq!(table.version.major, CURRENT_API_MAJOR);
    assert_eq!(table.version.patch, 5);
    assert!(table.has_exit);
    assert!(!table.has_get_metrics);
    assert!(table.has_custom_call);
}

#[test]
fn negotiate_rejects_a_missing_version_symbol() {
    let mut scan = full_scan(host_word(0));
    scan.version_word = None;
    assert_eq!(negotiate(&scan), Err(LoadError::MissingVersionSymbol));
}

#[test]
fn negotiate_rejects_an_incompatible_version() {
    let bad = RuntimeAPIVersion {
        reserved: 0,
        major: CURRENT_API_MAJOR.wrapping_add(1),
        minor: CURRENT_API_MINOR,
        patch: 0,
    };
    let scan = full_scan(bad.to_word());
    assert_eq!(negotiate(&scan), Err(LoadError::IncompatibleVersion(bad)));
}

#[test]
fn negotiate_rejects_a_missing_required_symbol() {
    let mut scan = full_scan(host_word(0));
    scan.has_measure = false;
    assert_eq!(negotiate(&scan), Err(LoadError::MissingRequiredSymbol(RequiredSymbol::Measure)));
}

fn full_simulator_scan(word: u64) -> SimulatorSymbolScan {
    SimulatorSymbolScan {
        version_word: Some(word),
        has_init: true,
        has_shot_start: true,
        has_shot_end: true,
        has_measure: true,
        has_reset: true,
        has_exit: true,
        has_get_metrics: true,
        has_rxy: true,
        has_rz: true,
        has_rzz: true,
        has_tk2: false,
        has_twin_rxy: false,
        has_rpp: false,
        has_postselect: true,
        has_dump_state: false,
    }
}

#[test]
fn simulator_negotiation_mirrors_the_scan() {
    let table = negotiate_simulator(&full_simulator_scan(host_word(2))).unwrap();
    assert_eq!(table.version.patch, 2);
    assert!(table.has_rxy && table.has_postselect);
    assert!(!table.has_twin_rxy && !table.has_dump_state);
    let mut scan = full_simulator_scan(host_word(0));
    scan.version_word = None;
    assert_eq!(negotiate_simulator(&scan), Err(LoadError::MissingVersionSymbol));
    let mut scan = full_simulator_scan(host_word(0));
    scan.has_reset = false;
    assert_eq!(
        negotiate_simulator(&scan),
        Err(LoadError::MissingSimulatorSymbol(RequiredSimulatorSymbol::Reset))
    );
}

#[test]
fn status_decoding_separates_failure_from_panic() {
    assert_eq!(decode_status(0), Ok(()));
    assert_eq!(decode_status(7), Err(EmuError::PluginFailed));
    assert_eq!(decode_measure_status(0), Ok(false));
    assert_eq!(decode_measure_status(1), Ok(true));
    assert_eq!(decode_measure_status(-3), Err(EmuError::PluginFailed));
}

#[test]
fn future_store_resolves_at_most_once() {
    let mut store = FutureStore::new();
    let h = store.create();
    assert_eq!(h, 0);
    assert_eq!(store.get(h), Ok(None));
    assert!(store.set(h, 1).is_ok());
    assert_eq!(store.get(h), Ok(Some(1)));
    // A second write before consumption is a contract violation and changes
    // nothing.
    assert_eq!(store.set(h, 0), Err(EmuError::ContractViolation));
    assert_eq!(store.get(h), Ok(Some(1)));
}

#[test]
fn future_store_refcounting_gates_access() {
    let mut store = FutureStore::new();
    let h = store.create();
    assert!(store.increment_refcount(h).is_ok());
    assert!(store.decrement_refcount(h).is_ok());
    assert!(store.decrement_refcount(h).is_ok());
    // The count reached zero: the handle's life is over.
    assert_eq!(store.get(h), Err(EmuError::InvalidResultHandle));
    assert_eq!(store.set(h, 1), Err(EmuError::InvalidResultHandle));
    assert_eq!(store.decrement_refcount(h), Err(EmuError::InvalidResultHandle));
    // A handle never created is invalid.
    assert_eq!(store.get(7), Err(EmuError::InvalidResultHandle));
}

#[test]
fn framing_encodes_values_and_boundaries() {
    let mut stream = OutputStream::new(InternalBuffer::new());
    stream.begin_message(2).unwrap();
    stream.write(&0x01020304u64).unwrap();
    stream.write(&true).unwrap();
    stream.end_message().unwrap();
    stream.end_of_stream().unwrap();
    let n = stream.get_bytes_written();
    let bytes = stream.try_read(n).unwrap();
    let mut expected: Vec<u8> = Vec::new();
    expected.extend_from_slice(&[2, 0, 0, 0, 0, 0, 0, 0]); // time cursor
    expected.extend_from_slice(&[1, 0, 0, 0]); // u64 tag + zero length
    expected.extend_from_slice(&[4, 3, 2, 1, 0, 0, 0, 0]); // u64 payload
    expected.extend_from_slice(&[4, 0, 0, 0, 1]); // bool tag + length + payload
    expected.extend_from_slice(&[0, 0, 0, 0]); // end of message
    expected.extend_from_slice(&[255; 8]); // end of stream
    assert_eq!(bytes, expected);
}

#[test]
fn framing_encodes_strings() {
    let mut stream = OutputStream::new(InternalBuffer::new());
    stream.write(&"ab".to_string()).unwrap();
    let n = stream.get_bytes_written();
    let bytes = stream.try_read(n).unwrap();
    assert_eq!(bytes, vec![3, 0, 2, 0, b'a', b'b']);
}

#[test]
fn framing_rejects_a_string_with_an_embedded_zero_byte() {
    let mut stream = OutputStream::new(InternalBuffer::new());
    let r = stream.write(&"a\0b".to_string());
    assert!(r.is_err());
}

#[test]
fn framing_rejects_an_oversize_string() {
    let mut stream = OutputStream::new(InternalBuffer::new());
    let long = "x".repeat(70000);
    let r = stream.write(&long);
    assert!(r.is_err());
    // Nothing was written for a value whose length cannot be framed.
    assert_eq!(stream.get_bytes_written(), 0);
}

#[test]
fn internal_buffer_reads_back_in_pieces() {
    let mut buffer = InternalBuffer::new();
    buffer.write(&vec![1, 2, 3, 4, 5]);
    let first = buffer.try_read(2).unwrap();
    assert_eq!(first, vec![1, 2]);
    let rest = buffer.try_read(100).unwrap();
    assert_eq!(rest, vec![3, 4, 5]);
    let empty = buffer.try_read(1).unwrap();
    assert!(empty.is_empty());
}
