use computer_simulator::gates::{AND, NAND, NOR, NOT, OR, XOR};

#[test]
fn test_and_gate() {
    let mut and_gate = AND::new();
    assert_eq!(and_gate.update(false, false), false);
    assert_eq!(and_gate.update(false, true), false);
    assert_eq!(and_gate.update(true, false), false);
    assert_eq!(and_gate.update(true, true), true);
}

#[test]
fn test_nand_gate() {
    let mut nand_gate = NAND::new();
    assert_eq!(nand_gate.update(false, false), true);
    assert_eq!(nand_gate.update(false, true), true);
    assert_eq!(nand_gate.update(true, false), true);
    assert_eq!(nand_gate.update(true, true), false);
}

#[test]
fn test_nor_gate() {
    let mut nor_gate = NOR::new();
    assert_eq!(nor_gate.update(false, false), true);
    assert_eq!(nor_gate.update(false, true), false);
    assert_eq!(nor_gate.update(true, false), false);
    assert_eq!(nor_gate.update(true, true), false);
}

#[test]
fn nor_test_nor_gate() {
    let mut nor_gate = NOR::new();
    assert_eq!(nor_gate.update(false, false), true);
    assert_eq!(nor_gate.update(false, true), false);
    assert_eq!(nor_gate.update(true, false), false);
    assert_eq!(nor_gate.update(true, true), false);
}

#[test]
fn test_not_gate() {
    let mut not_gate = NOT::new();
    assert_eq!(not_gate.update(false), true);
    assert_eq!(not_gate.update(true), false);
}

#[test]
fn test_or_gate() {
    let mut or_gate = OR::new();
    assert_eq!(or_gate.update(false, false), false);
    assert_eq!(or_gate.update(false, true), true);
    assert_eq!(or_gate.update(true, false), true);
    assert_eq!(or_gate.update(true, true), true);
}

#[test]
fn test_xor_gate() {
    let mut xor_gate = XOR::new();
    assert_eq!(xor_gate.update(false, false), false);
    assert_eq!(xor_gate.update(false, true), true);
    assert_eq!(xor_gate.update(true, false), true);
    assert_eq!(xor_gate.update(true, true), false);
}

#[test]
fn gate_keeps_its_last_output() {
    let mut and_gate = AND::new();
    and_gate.update(true, true);
    assert!(and_gate.get());
    let mut not_gate = NOT::new();
    not_gate.update(true);
    assert!(!not_gate.get());
}
