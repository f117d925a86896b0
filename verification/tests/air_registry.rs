//! Tests of the AIR identifier registry: the identifier/name round trip and
//! the core subset.
use std::str::FromStr;
use zkvm_core::air::MipsAirId;

#[test]
fn test_name_roundtrip() {
    // Converting every identifier to its name and back yields the original.
    for id in MipsAirId::all() {
        match MipsAirId::from_name(id.as_str()) {
            Ok(back) => assert_eq!(back, id),
            Err(e) => panic!("registry entry failed to round trip: {}", e),
        }
    }
}

#[test]
fn test_unrecognized_name_fails() {
    match MipsAirId::from_name("NoSuchChip") {
        Ok(_) => panic!("an unrecognized name must be rejected"),
        Err(e) => assert_eq!(e, "Invalid MIPS Air: NoSuchChip"),
    }
}

#[test]
fn test_as_str_samples() {
    assert_eq!(MipsAirId::Cpu.as_str(), "Cpu");
    assert_eq!(MipsAirId::DivRem.as_str(), "DivRem");
    assert_eq!(MipsAirId::CloClz.as_str(), "CloClz");
    assert_eq!(MipsAirId::Byte.as_str(), "Byte");
    assert_eq!(MipsAirId::KeccakSponge.as_str(), "KeccakSponge");
}

#[test]
fn test_all_ids_count_and_order() {
    let ids = MipsAirId::all();
    assert_eq!(ids.len(), 46);
    assert_eq!(ids[0], MipsAirId::Cpu);
    assert_eq!(ids[45], MipsAirId::Byte);
}

#[test]
fn test_core_subset() {
    let core = MipsAirId::core_ids();
    assert_eq!(core.len(), 15);
    assert_eq!(core[0], MipsAirId::Cpu);
    assert_eq!(core[14], MipsAirId::Global);
    // Neither the program nor the byte chip belongs to the core subset.
    assert!(!core.contains(&MipsAirId::Program));
    assert!(!core.contains(&MipsAirId::Byte));
    assert!(core.contains(&MipsAirId::DivRem));
    assert!(core.contains(&MipsAirId::Branch));
}

#[test]
fn test_from_str_trait() {
    assert_eq!(MipsAirId::from_str("Lt"), Ok(MipsAirId::Lt));
    assert!(MipsAirId::from_str("Nope").is_err());
}
