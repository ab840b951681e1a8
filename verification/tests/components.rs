use computer_simulator::components::bus::Bus;
use computer_simulator::components::{
    get_output_value, set_component_value_16, set_component_value_32, ANDGate3, ANDGate4, ANDGate8,
    ANDer, Adder, Bit, Comparator, Component, Decoder3x8, Decoder4x16, Decoder8x256, Enableable,
    Enabler, FullAdder, IsZero, LeftShifter, NOTer, ORer, Register, RightShifter, Settable,
    Stepper, XORer, BUS_WIDTH,
};
use computer_simulator::computer::IOBus;

fn test_one_and_gate_3(input_a: bool, input_b: bool, input_c: bool, output: bool) {
    let mut and_gate_3 = ANDGate3::new();
    and_gate_3.update(input_a, input_b, input_c);
    assert_eq!(and_gate_3.get(), output);
}

#[test]
fn test_and_gate_3() {
    test_one_and_gate_3(false, false, false, false);
    test_one_and_gate_3(false, false, true, false);
    test_one_and_gate_3(false, true, false, false);
    test_one_and_gate_3(false, true, true, false);
    test_one_and_gate_3(true, false, false, false);
    test_one_and_gate_3(true, false, true, false);
    test_one_and_gate_3(true, true, false, false);
    test_one_and_gate_3(true, true, true, true);
}

#[test]
fn gates_test_and_gate_3() {
    let test_one_and_gate_3 = |input_a: bool, input_b: bool, input_c: bool, output: bool| {
        let mut and_gate_3 = ANDGate3::new();
        and_gate_3.update(input_a, input_b, input_c);
        assert_eq!(and_gate_3.get(), output);
    };
    test_one_and_gate_3(false, false, false, false);
    test_one_and_gate_3(false, false, true, false);
    test_one_and_gate_3(false, true, false, false);
    test_one_and_gate_3(false, true, true, false);
    test_one_and_gate_3(true, false, false, false);
    test_one_and_gate_3(true, false, true, false);
    test_one_and_gate_3(true, true, false, false);
    test_one_and_gate_3(true, true, true, true);
}

#[test]
fn test_and_gate4() {}

#[test]
fn test_and_gate8() {}

#[test]
fn wide_and_gates_need_every_input() {
    let mut g4 = ANDGate4::new();
    g4.update(true, true, true, true);
    assert!(g4.get());
    g4.update(true, false, true, true);
    assert!(!g4.get());
    let mut g8 = ANDGate8::new();
    g8.update(true, true, true, true, true, true, true, true);
    assert!(g8.get());
    g8.update(true, true, true, true, true, true, true, false);
    assert!(!g8.get());
}

fn test_one_full_adder(a: bool, b: bool, carry_in: bool, sum: bool, carry_out: bool, code: &str) {
    let mut full_adder = FullAdder::new();
    full_adder.update(a, b, carry_in);
    assert_eq!(full_adder.get_sum(), sum, "{}", code);
    assert_eq!(full_adder.get_carry_out(), carry_out, "{}", code);
}

#[test]
fn test_full_adder() {
    test_one_full_adder(false, false, false, false, false, "1");
    test_one_full_adder(true, false, false, true, false, "2");
    test_one_full_adder(false, true, false, true, false, "3");
    test_one_full_adder(false, false, true, true, false, "4");
    test_one_full_adder(true, true, false, false, true, "5");
    test_one_full_adder(false, true, true, false, true, "6");
    test_one_full_adder(true, false, true, false, true, "7");
    test_one_full_adder(true, true, true, true, true, "8");
}

fn test_one_16_adder(input_a: i32, input_b: i32, carry_in: bool, output: i32, carry_out: bool) {
    let mut adder = Box::new(Adder::new());
    set_component_value_32(adder.as_mut(), input_a, input_b);
    adder.update(carry_in);

    let adder_output = get_output_value(adder.as_mut(), BUS_WIDTH);
    let adder_carry_out = adder.get_carry_out();
    assert_eq!(adder_output, output);
    assert_eq!(adder_carry_out, carry_out);
}

#[test]
fn test_16_adder() {
    test_one_16_adder(0, 0, false, 0, false);
    test_one_16_adder(1, 0, false, 1, false);
    test_one_16_adder(0, 1, false, 1, false);
    test_one_16_adder(1, 1, false, 2, false);
    test_one_16_adder(64, 64, false, 128, false);
    test_one_16_adder(127, 128, false, 255, false);
    test_one_16_adder(32768, 32767, false, 65535, false);

    test_one_16_adder(0, 0, true, 1, false);
    test_one_16_adder(1, 1, true, 3, false);
    test_one_16_adder(0xFFFF, 0, true, 0, true);
    test_one_16_adder(32768, 32768, false, 0, true);
    test_one_16_adder(32769, 32768, false, 1, true);
    test_one_16_adder(65535, 2, false, 1, true);
}

#[test]
fn test_bus() {
    let test_one_bus = |input: u16, ans: u16| {
        let mut bus = Bus::new(BUS_WIDTH);
        bus.set_value(input);

        assert_eq!(bus.get_value(), ans)
    };

    test_one_bus(0x0000, 0x0000);
    test_one_bus(0x00FF, 0x00FF);
    test_one_bus(0xFF00, 0xFF00);
    test_one_bus(0xFFFF, 0xFFFF);
}

#[test]
fn narrow_bus_keeps_the_low_bits() {
    let mut bus = Bus::new(8);
    bus.set_value(0x1234);
    assert_eq!(bus.get_value(), 0x34);
}

#[test]
fn test_comparator() {
    let test_comparator =
        |input_a: i32, input_b: i32, expected_is_equal: bool, expected_is_larger: bool| {
            let mut comparator = Box::new(Comparator::new());
            set_component_value_32(comparator.as_mut(), input_a, input_b);

            comparator.update();

            assert_eq!(comparator.equal(), expected_is_equal);
            assert_eq!(comparator.larger(), expected_is_larger);
        };

    test_comparator(0, 0, true, false);
    test_comparator(1, 0, false, true);
    test_comparator(0, 1, false, false);
    test_comparator(0xFFFF, 0xFFFF, true, false);
    test_comparator(0xFF00, 0x00FF, false, true);
}

#[test]
fn test_decoder_3x8() {
    let check_decoder_3x8 = |input_a: bool, input_b: bool, input_c: bool, ans: i32| {
        let mut expected: [bool; 16] = [false; 16];
        expected[ans as usize] = true;
        let mut decoder_3x8 = Decoder3x8::new();
        decoder_3x8.update(input_a, input_b, input_c);
        for i in 0..decoder_3x8.outputs.len() {
            assert_eq!(decoder_3x8.outputs[i].get(), expected[i])
        }
    };
    check_decoder_3x8(false, false, false, 0);
    check_decoder_3x8(false, false, true, 1);
    check_decoder_3x8(false, true, false, 2);
    check_decoder_3x8(false, true, true, 3);
    check_decoder_3x8(true, false, false, 4);
    check_decoder_3x8(true, false, true, 5);
    check_decoder_3x8(true, true, false, 6);
    check_decoder_3x8(true, true, true, 7);
}

#[test]
fn test_decoder_4x16() {
    let check_decoder_4x16 =
        |input_a: bool, input_b: bool, input_c: bool, input_d: bool, ans: i32| {
            let mut expected: [bool; 16] = [false; 16];
            expected[ans as usize] = true;
            let mut decoder_4x16 = Decoder4x16::new();
            decoder_4x16.update(input_a, input_b, input_c, input_d);
            for i in 0..decoder_4x16.outputs.len() {
                assert_eq!(decoder_4x16.outputs[i].get(), expected[i])
            }
        };
    check_decoder_4x16(false, false, false, false, 0);
    check_decoder_4x16(false, false, false, true, 1);
    check_decoder_4x16(false, false, true, false, 2);
    check_decoder_4x16(false, false, true, true, 3);
    check_decoder_4x16(false, true, false, false, 4);
    check_decoder_4x16(false, true, false, true, 5);
    check_decoder_4x16(false, true, true, false, 6);
    check_decoder_4x16(false, true, true, true, 7);
    check_decoder_4x16(true, false, false, false, 8);
    check_decoder_4x16(true, false, false, true, 9);
    check_decoder_4x16(true, false, true, false, 10);
    check_decoder_4x16(true, false, true, true, 11);
    check_decoder_4x16(true, true, false, false, 12);
    check_decoder_4x16(true, true, false, true, 13);
    check_decoder_4x16(true, true, true, false, 14);
    check_decoder_4x16(true, true, true, true, 15);
}

fn check_decoder_8x256(
    input_a: bool,
    input_b: bool,
    input_c: bool,
    input_d: bool,
    input_e: bool,
    input_f: bool,
    input_g: bool,
    input_h: bool,
    ans: i32,
) {
    let mut decoder_8x256 = Decoder8x256::new();
    decoder_8x256.update(input_a, input_b, input_c, input_d, input_e, input_f, input_g, input_h);
    assert_eq!(decoder_8x256.index(), ans, "err at {}", ans)
}

#[test]
fn test_decoder_8x256() {
    check_decoder_8x256(false, false, false, false, false, false, false, false, 0);
    check_decoder_8x256(false, false, false, true, false, false, false, false, 1);
    check_decoder_8x256(false, false, true, false, false, false, false, false, 2);
    check_decoder_8x256(false, false, true, true, false, false, false, false, 3);
    check_decoder_8x256(false, true, false, false, false, false, false, false, 4);
    check_decoder_8x256(false, true, false, true, false, false, false, false, 5);
    check_decoder_8x256(false, true, true, false, false, false, false, false, 6);
    check_decoder_8x256(false, true, true, true, false, false, false, false, 7);
    check_decoder_8x256(true, false, false, false, false, false, false, false, 8);
    check_decoder_8x256(true, false, false, true, false, false, false, false, 9);
    check_decoder_8x256(true, false, true, false, false, false, false, false, 10);
    check_decoder_8x256(true, false, true, true, false, false, false, false, 11);
    check_decoder_8x256(true, true, false, false, false, false, false, false, 12);
    check_decoder_8x256(true, true, false, true, false, false, false, false, 13);
    check_decoder_8x256(true, true, true, false, false, false, false, false, 14);
    check_decoder_8x256(true, true, true, true, false, false, false, false, 15);
    check_decoder_8x256(false, false, false, false, false, false, false, true, 16);
    check_decoder_8x256(false, false, false, true, false, false, false, true, 17);
    check_decoder_8x256(false, false, true, false, false, false, false, true, 18);
    check_decoder_8x256(false, false, true, true, false, false, false, true, 19);
    check_decoder_8x256(false, true, false, false, false, false, false, true, 20);
    check_decoder_8x256(false, true, false, true, false, false, false, true, 21);
    check_decoder_8x256(false, true, true, false, false, false, false, true, 22);
    check_decoder_8x256(false, true, true, true, false, false, false, true, 23);
    check_decoder_8x256(true, false, false, false, false, false, false, true, 24);
    check_decoder_8x256(true, false, false, true, false, false, false, true, 25);
    check_decoder_8x256(true, false, true, false, false, false, false, true, 26);
    check_decoder_8x256(true, false, true, true, false, false, false, true, 27);
    check_decoder_8x256(true, true, false, false, false, false, false, true, 28);
    check_decoder_8x256(true, true, false, true, false, false, false, true, 29);
    check_decoder_8x256(true, true, true, false, false, false, false, true, 30);
    check_decoder_8x256(true, true, true, true, false, false, false, true, 31);
    check_decoder_8x256(false, false, false, false, false, false, true, false, 32);
    check_decoder_8x256(false, false, false, true, false, false, true, false, 33);
    check_decoder_8x256(false, false, true, false, false, false, true, false, 34);
    check_decoder_8x256(false, false, true, true, false, false, true, false, 35);
    check_decoder_8x256(false, true, false, false, false, false, true, false, 36);
    check_decoder_8x256(false, true, false, true, false, false, true, false, 37);
    check_decoder_8x256(false, true, true, false, false, false, true, false, 38);
    check_decoder_8x256(false, true, true, true, false, false, true, false, 39);
    check_decoder_8x256(true, false, false, false, false, false, true, false, 40);
    check_decoder_8x256(true, false, false, true, false, false, true, false, 41);
    check_decoder_8x256(true, false, true, false, false, false, true, false, 42);
    check_decoder_8x256(true, false, true, true, false, false, true, false, 43);
    check_decoder_8x256(true, true, false, false, false, false, true, false, 44);
    check_decoder_8x256(true, true, false, true, false, false, true, false, 45);
    check_decoder_8x256(true, true, true, false, false, false, true, false, 46);
    check_decoder_8x256(true, true, true, true, false, false, true, false, 47);
    check_decoder_8x256(false, false, false, false, false, false, true, true, 48);
    check_decoder_8x256(false, false, false, true, false, false, true, true, 49);
    check_decoder_8x256(false, false, true, false, false, false, true, true, 50);
    check_decoder_8x256(false, false, true, true, false, false, true, true, 51);
    check_decoder_8x256(false, true, false, false, false, false, true, true, 52);
    check_decoder_8x256(false, true, false, true, false, false, true, true, 53);
    check_decoder_8x256(false, true, true, false, false, false, true, true, 54);
    check_decoder_8x256(false, true, true, true, false, false, true, true, 55);
    check_decoder_8x256(true, false, false, false, false, false, true, true, 56);
    check_decoder_8x256(true, false, false, true, false, false, true, true, 57);
    check_decoder_8x256(true, false, true, false, false, false, true, true, 58);
    check_decoder_8x256(true, false, true, true, false, false, true, true, 59);
    check_decoder_8x256(true, true, false, false, false, false, true, true, 60);
    check_decoder_8x256(true, true, false, true, false, false, true, true, 61);
    check_decoder_8x256(true, true, true, false, false, false, true, true, 62);
    check_decoder_8x256(true, true, true, true, false, false, true, true, 63);
    check_decoder_8x256(false, false, false, false, false, true, false, false, 64);
    check_decoder_8x256(false, false, false, true, false, true, false, false, 65);
    check_decoder_8x256(false, false, true, false, false, true, false, false, 66);
    check_decoder_8x256(false, false, true, true, false, true, false, false, 67);
    check_decoder_8x256(false, true, false, false, false, true, false, false, 68);
    check_decoder_8x256(false, true, false, true, false, true, false, false, 69);
    check_decoder_8x256(false, true, true, false, false, true, false, false, 70);
    check_decoder_8x256(false, true, true, true, false, true, false, false, 71);
    check_decoder_8x256(true, false, false, false, false, true, false, false, 72);
    check_decoder_8x256(true, false, false, true, false, true, false, false, 73);
    check_decoder_8x256(true, false, true, false, false, true, false, false, 74);
    check_decoder_8x256(true, false, true, true, false, true, false, false, 75);
    check_decoder_8x256(true, true, false, false, false, true, false, false, 76);
    check_decoder_8x256(true, true, false, true, false, true, false, false, 77);
    check_decoder_8x256(true, true, true, false, false, true, false, false, 78);
    check_decoder_8x256(true, true, true, true, false, true, false, false, 79);
    check_decoder_8x256(false, false, false, false, false, true, false, true, 80);
    check_decoder_8x256(false, false, false, true, false, true, false, true, 81);
    check_decoder_8x256(false, false, true, false, false, true, false, true, 82);
    check_decoder_8x256(false, false, true, true, false, true, false, true, 83);
    check_decoder_8x256(false, true, false, false, false, true, false, true, 84);
    check_decoder_8x256(false, true, false, true, false, true, false, true, 85);
    check_decoder_8x256(false, true, true, false, false, true, false, true, 86);
    check_decoder_8x256(false, true, true, true, false, true, false, true, 87);
    check_decoder_8x256(true, false, false, false, false, true, false, true, 88);
    check_decoder_8x256(true, false, false, true, false, true, false, true, 89);
    check_decoder_8x256(true, false, true, false, false, true, false, true, 90);
    check_decoder_8x256(true, false, true, true, false, true, false, true, 91);
    check_decoder_8x256(true, true, false, false, false, true, false, true, 92);
    check_decoder_8x256(true, true, false, true, false, true, false, true, 93);
    check_decoder_8x256(true, true, true, false, false, true, false, true, 94);
    check_decoder_8x256(true, true, true, true, false, true, false, true, 95);
    check_decoder_8x256(false, false, false, false, false, true, true, false, 96);
    check_decoder_8x256(false, false, false, true, false, true, true, false, 97);
    check_decoder_8x256(false, false, true, false, false, true, true, false, 98);
    check_decoder_8x256(false, false, true, true, false, true, true, false, 99);
    check_decoder_8x256(false, true, false, false, false, true, true, false, 100);
    check_decoder_8x256(false, true, false, true, false, true, true, false, 101);
    check_decoder_8x256(false, true, true, false, false, true, true, false, 102);
    check_decoder_8x256(false, true, true, true, false, true, true, false, 103);
    check_decoder_8x256(true, false, false, false, false, true, true, false, 104);
    check_decoder_8x256(true, false, false, true, false, true, true, false, 105);
    check_decoder_8x256(true, false, true, false, false, true, true, false, 106);
    check_decoder_8x256(true, false, true, true, false, true, true, false, 107);
    check_decoder_8x256(true, true, false, false, false, true, true, false, 108);
    check_decoder_8x256(true, true, false, true, false, true, true, false, 109);
    check_decoder_8x256(true, true, true, false, false, true, true, false, 110);
    check_decoder_8x256(true, true, true, true, false, true, true, false, 111);
    check_decoder_8x256(false, false, false, false, false, true, true, true, 112);
    check_decoder_8x256(false, false, false, true, false, true, true, true, 113);
    check_decoder_8x256(false, false, true, false, false, true, true, true, 114);
    check_decoder_8x256(false, false, true, true, false, true, true, true, 115);
    check_decoder_8x256(false, true, false, false, false, true, true, true, 116);
    check_decoder_8x256(false, true, false, true, false, true, true, true, 117);
    check_decoder_8x256(false, true, true, false, false, true, true, true, 118);
    check_decoder_8x256(false, true, true, true, false, true, true, true, 119);
    check_decoder_8x256(true, false, false, false, false, true, true, true, 120);
    check_decoder_8x256(true, false, false, true, false, true, true, true, 121);
    check_decoder_8x256(true, false, true, false, false, true, true, true, 122);
    check_decoder_8x256(true, false, true, true, false, true, true, true, 123);
    check_decoder_8x256(true, true, false, false, false, true, true, true, 124);
    check_decoder_8x256(true, true, false, true, false, true, true, true, 125);
    check_decoder_8x256(true, true, true, false, false, true, true, true, 126);
    check_decoder_8x256(true, true, true, true, false, true, true, true, 127);
    check_decoder_8x256(false, false, false, false, true, false, false, false, 128);
    check_decoder_8x256(false, false, false, true, true, false, false, false, 129);
    check_decoder_8x256(false, false, true, false, true, false, false, false, 130);
    check_decoder_8x256(false, false, true, true, true, false, false, false, 131);
    check_decoder_8x256(false, true, false, false, true, false, false, false, 132);
    check_decoder_8x256(false, true, false, true, true, false, false, false, 133);
    check_decoder_8x256(false, true, true, false, true, false, false, false, 134);
    check_decoder_8x256(false, true, true, true, true, false, false, false, 135);
    check_decoder_8x256(true, false, false, false, true, false, false, false, 136);
    check_decoder_8x256(true, false, false, true, true, false, false, false, 137);
    check_decoder_8x256(true, false, true, false, true, false, false, false, 138);
    check_decoder_8x256(true, false, true, true, true, false, false, false, 139);
    check_decoder_8x256(true, true, false, false, true, false, false, false, 140);
    check_decoder_8x256(true, true, false, true, true, false, false, false, 141);
    check_decoder_8x256(true, true, true, false, true, false, false, false, 142);
    check_decoder_8x256(true, true, true, true, true, false, false, false, 143);
    check_decoder_8x256(false, false, false, false, true, false, false, true, 144);
    check_decoder_8x256(false, false, false, true, true, false, false, true, 145);
    check_decoder_8x256(false, false, true, false, true, false, false, true, 146);
    check_decoder_8x256(false, false, true, true, true, false, false, true, 147);
    check_decoder_8x256(false, true, false, false, true, false, false, true, 148);
    check_decoder_8x256(false, true, false, true, true, false, false, true, 149);
    check_decoder_8x256(false, true, true, false, true, false, false, true, 150);
    check_decoder_8x256(false, true, true, true, true, false, false, true, 151);
    check_decoder_8x256(true, false, false, false, true, false, false, true, 152);
    check_decoder_8x256(true, false, false, true, true, false, false, true, 153);
    check_decoder_8x256(true, false, true, false, true, false, false, true, 154);
    check_decoder_8x256(true, false, true, true, true, false, false, true, 155);
    check_decoder_8x256(true, true, false, false, true, false, false, true, 156);
    check_decoder_8x256(true, true, false, true, true, false, false, true, 157);
    check_decoder_8x256(true, true, true, false, true, false, false, true, 158);
    check_decoder_8x256(true, true, true, true, true, false, false, true, 159);
    check_decoder_8x256(false, false, false, false, true, false, true, false, 160);
    check_decoder_8x256(false, false, false, true, true, false, true, false, 161);
    check_decoder_8x256(false, false, true, false, true, false, true, false, 162);
    check_decoder_8x256(false, false, true, true, true, false, true, false, 163);
    check_decoder_8x256(false, true, false, false, true, false, true, false, 164);
    check_decoder_8x256(false, true, false, true, true, false, true, false, 165);
    check_decoder_8x256(false, true, true, false, true, false, true, false, 166);
    check_decoder_8x256(false, true, true, true, true, false, true, false, 167);
    check_decoder_8x256(true, false, false, false, true, false, true, false, 168);
    check_decoder_8x256(true, false, false, true, true, false, true, false, 169);
    check_decoder_8x256(true, false, true, false, true, false, true, false, 170);
    check_decoder_8x256(true, false, true, true, true, false, true, false, 171);
    check_decoder_8x256(true, true, false, false, true, false, true, false, 172);
    check_decoder_8x256(true, true, false, true, true, false, true, false, 173);
    check_decoder_8x256(true, true, true, false, true, false, true, false, 174);
    check_decoder_8x256(true, true, true, true, true, false, true, false, 175);
    check_decoder_8x256(false, false, false, false, true, false, true, true, 176);
    check_decoder_8x256(false, false, false, true, true, false, true, true, 177);
    check_decoder_8x256(false, false, true, false, true, false, true, true, 178);
    check_decoder_8x256(false, false, true, true, true, false, true, true, 179);
    check_decoder_8x256(false, true, false, false, true, false, true, true, 180);
    check_decoder_8x256(false, true, false, true, true, false, true, true, 181);
    check_decoder_8x256(false, true, true, false, true, false, true, true, 182);
    check_decoder_8x256(false, true, true, true, true, false, true, true, 183);
    check_decoder_8x256(true, false, false, false, true, false, true, true, 184);
    check_decoder_8x256(true, false, false, true, true, false, true, true, 185);
    check_decoder_8x256(true, false, true, false, true, false, true, true, 186);
    check_decoder_8x256(true, false, true, true, true, false, true, true, 187);
    check_decoder_8x256(true, true, false, false, true, false, true, true, 188);
    check_decoder_8x256(true, true, false, true, true, false, true, true, 189);
    check_decoder_8x256(true, true, true, false, true, false, true, true, 190);
    check_decoder_8x256(true, true, true, true, true, false, true, true, 191);
    check_decoder_8x256(false, false, false, false, true, true, false, false, 192);
    check_decoder_8x256(false, false, false, true, true, true, false, false, 193);
    check_decoder_8x256(false, false, true, false, true, true, false, false, 194);
    check_decoder_8x256(false, false, true, true, true, true, false, false, 195);
    check_decoder_8x256(false, true, false, false, true, true, false, false, 196);
    check_decoder_8x256(false, true, false, true, true, true, false, false, 197);
    check_decoder_8x256(false, true, true, false, true, true, false, false, 198);
    check_decoder_8x256(false, true, true, true, true, true, false, false, 199);
    check_decoder_8x256(true, false, false, false, true, true, false, false, 200);
    check_decoder_8x256(true, false, false, true, true, true, false, false, 201);
    check_decoder_8x256(true, false, true, false, true, true, false, false, 202);
    check_decoder_8x256(true, false, true, true, true, true, false, false, 203);
    check_decoder_8x256(true, true, false, false, true, true, false, false, 204);
    check_decoder_8x256(true, true, false, true, true, true, false, false, 205);
    check_decoder_8x256(true, true, true, false, true, true, false, false, 206);
    check_decoder_8x256(true, true, true, true, true, true, false, false, 207);
    check_decoder_8x256(false, false, false, false, true, true, false, true, 208);
    check_decoder_8x256(false, false, false, true, true, true, false, true, 209);
    check_decoder_8x256(false, false, true, false, true, true, false, true, 210);
    check_decoder_8x256(false, false, true, true, true, true, false, true, 211);
    check_decoder_8x256(false, true, false, false, true, true, false, true, 212);
    check_decoder_8x256(false, true, false, true, true, true, false, true, 213);
    check_decoder_8x256(false, true, true, false, true, true, false, true, 214);
    check_decoder_8x256(false, true, true, true, true, true, false, true, 215);
    check_decoder_8x256(true, false, false, false, true, true, false, true, 216);
    check_decoder_8x256(true, false, false, true, true, true, false, true, 217);
    check_decoder_8x256(true, false, true, false, true, true, false, true, 218);
    check_decoder_8x256(true, false, true, true, true, true, false, true, 219);
    check_decoder_8x256(true, true, false, false, true, true, false, true, 220);
    check_decoder_8x256(true, true, false, true, true, true, false, true, 221);
    check_decoder_8x256(true, true, true, false, true, true, false, true, 222);
    check_decoder_8x256(true, true, true, true, true, true, false, true, 223);
    check_decoder_8x256(false, false, false, false, true, true, true, false, 224);
    check_decoder_8x256(false, false, false, true, true, true, true, false, 225);
    check_decoder_8x256(false, false, true, false, true, true, true, false, 226);
    check_decoder_8x256(false, false, true, true, true, true, true, false, 227);
    check_decoder_8x256(false, true, false, false, true, true, true, false, 228);
    check_decoder_8x256(false, true, false, true, true, true, true, false, 229);
    check_decoder_8x256(false, true, true, false, true, true, true, false, 230);
    check_decoder_8x256(false, true, true, true, true, true, true, false, 231);
    check_decoder_8x256(true, false, false, false, true, true, true, false, 232);
    check_decoder_8x256(true, false, false, true, true, true, true, false, 233);
    check_decoder_8x256(true, false, true, false, true, true, true, false, 234);
    check_decoder_8x256(true, false, true, true, true, true, true, false, 235);
    check_decoder_8x256(true, true, false, false, true, true, true, false, 236);
    check_decoder_8x256(true, true, false, true, true, true, true, false, 237);
    check_decoder_8x256(true, true, true, false, true, true, true, false, 238);
    check_decoder_8x256(true, true, true, true, true, true, true, false, 239);
    check_decoder_8x256(false, false, false, false, true, true, true, true, 240);
    check_decoder_8x256(false, false, false, true, true, true, true, true, 241);
    check_decoder_8x256(false, false, true, false, true, true, true, true, 242);
    check_decoder_8x256(false, false, true, true, true, true, true, true, 243);
    check_decoder_8x256(false, true, false, false, true, true, true, true, 244);
    check_decoder_8x256(false, true, false, true, true, true, true, true, 245);
    check_decoder_8x256(false, true, true, false, true, true, true, true, 246);
    check_decoder_8x256(false, true, true, true, true, true, true, true, 247);
    check_decoder_8x256(true, false, false, false, true, true, true, true, 248);
    check_decoder_8x256(true, false, false, true, true, true, true, true, 249);
    check_decoder_8x256(true, false, true, false, true, true, true, true, 250);
    check_decoder_8x256(true, false, true, true, true, true, true, true, 251);
    check_decoder_8x256(true, true, false, false, true, true, true, true, 252);
    check_decoder_8x256(true, true, false, true, true, true, true, true, 253);
    check_decoder_8x256(true, true, true, false, true, true, true, true, 254);
    check_decoder_8x256(true, true, true, true, true, true, true, true, 255);
}

#[test]
fn test_ander() {
    let test_fn = |input_a: i32, input_b: i32, output: i32| {
        let mut ander = Box::new(ANDer::new());
        set_component_value_32(ander.as_mut(), input_a, input_b);
        ander.update();
        assert_eq!(get_output_value(ander.as_mut(), BUS_WIDTH), output);
    };
    test_fn(0xFFFF, 0xFFFF, 0xFFFF);
    test_fn(0x0000, 0xFFFF, 0x0000);
    test_fn(0xFF00, 0xFFFF, 0xFF00);
    test_fn(0xFF00, 0x00FF, 0x0000);
}

#[test]
fn test_noter() {
    let test_fn = |input: i32, output: i32| {
        let mut noter = Box::new(NOTer::new());
        set_component_value_16(noter.as_mut(), input);
        noter.update();
        assert_eq!(get_output_value(noter.as_mut(), BUS_WIDTH), output);
    };
    test_fn(0xFFFF, 0x0000);
    test_fn(0xFF00, 0x00FF);
    test_fn(0x0000, 0xFFFF);
}

#[test]
fn test_orer() {
    let test_fn = |input_a: i32, input_b: i32, output: i32| {
        let mut orer = Box::new(ORer::new());
        set_component_value_32(orer.as_mut(), input_a, input_b);
        orer.update();
        assert_eq!(get_output_value(orer.as_mut(), BUS_WIDTH), output);
    };
    test_fn(0xFFFF, 0x0000, 0xFFFF);
    test_fn(0x0000, 0xFFFF, 0xFFFF);
    test_fn(0xFF00, 0x00FF, 0xFFFF);
    test_fn(0xFF00, 0x0000, 0xFF00);
    test_fn(0x0000, 0x0000, 0x0000);
}

#[test]
fn test_xorer() {
    let test_fn = |input_a: i32, input_b: i32, output: i32| {
        let mut xorer = Box::new(XORer::new());
        set_component_value_32(xorer.as_mut(), input_a, input_b);
        xorer.update();
        assert_eq!(get_output_value(xorer.as_mut(), BUS_WIDTH), output);
    };
    test_fn(0xFFFF, 0x0000, 0xFFFF);
    test_fn(0x0000, 0xFFFF, 0xFFFF);
    test_fn(0xFF00, 0x00FF, 0xFFFF);
    test_fn(0xFF00, 0x0000, 0xFF00);
    test_fn(0x0000, 0x0000, 0x0000);
    test_fn(0xFFFF, 0xFFFF, 0x0000);
}

#[test]
fn test_enabler() {
    let mut enabler = Enabler::new();
    for i in 0..16 {
        enabler.set_input_wire(i as i32, true);
    }
    enabler.update(false);
    for i in 0..16 {
        assert_eq!(enabler.get_output_wire(i as i32), false);
    }
    enabler.update(true);
    for i in 0..16 {
        assert_eq!(enabler.get_output_wire(i as i32), true);
    }
}

#[test]
fn test_left_shifter() {
    let test_left_shifter =
        |input: i32, shift_in: bool, expected_output: i32, expected_shift_out: bool| {
            let mut left_shifter = Box::new(LeftShifter::new());
            set_component_value_16(left_shifter.as_mut(), input);
            left_shifter.update(shift_in);
            assert_eq!(get_output_value(left_shifter.as_ref(), BUS_WIDTH), expected_output,);
            assert_eq!(left_shifter.get(), expected_shift_out);
        };
    for i in 0..0x7FFF {
        test_left_shifter(i, false, i * 2, false);
    }
    test_left_shifter(0, false, 0, false);
    test_left_shifter(0x8000, false, 0, true);
    test_left_shifter(0xEEEF, false, 0xDDDE, true);
    test_left_shifter(0xFFFF, false, 0xFFFE, true);
    test_left_shifter(0x0000, true, 0x0001, false);
    test_left_shifter(0x8000, true, 0x0001, true);
}

#[test]
fn test_right_shifter() {
    let test_right_shifter =
        |input: i32, shift_in: bool, expected_output: i32, expected_shift_out: bool| {
            let mut right_shifter = Box::new(RightShifter::new());
            set_component_value_16(right_shifter.as_mut(), input);
            right_shifter.update(shift_in);
            assert_eq!(get_output_value(right_shifter.as_ref(), BUS_WIDTH), expected_output,);
            assert_eq!(right_shifter.get(), expected_shift_out);
        };
    let mut i: i32 = 0x8000;
    while i > 1 {
        test_right_shifter(i, false, i / 2, false);
        i /= 2;
    }
    test_right_shifter(0, false, 0, false);
    test_right_shifter(0x0001, false, 0x0000, true);
    test_right_shifter(0x8000, false, 0x4000, false);
    test_right_shifter(0xEEEF, false, 0x7777, true);
    test_right_shifter(0xFFFF, false, 0x7FFF, true);
    test_right_shifter(0x0000, true, 0x8000, false);
    test_right_shifter(0x8000, true, 0xC000, false);
    test_right_shifter(0x4AAA, true, 0xA555, false);
}

#[test]
fn test_is_zero() {
    let mut is_zero = IsZero::new();
    for i in 0..BUS_WIDTH {
        is_zero.set_input_wire(i, false);
    }
    is_zero.update();
    assert_eq!(is_zero.get_output_wire(0), true);
    for i in 0..BUS_WIDTH {
        is_zero.set_input_wire(i, true);
    }
    is_zero.update();
    assert_eq!(is_zero.get_output_wire(0), false);
    for i in 0..BUS_WIDTH {
        let mut is_zero = IsZero::new();
        is_zero.set_input_wire(i, true);
        is_zero.update();
        assert_eq!(is_zero.get_output_wire(0), false);
    }
}

#[test]
fn test_register_disable_output_zero() {
    let mut bus = Bus::new(BUS_WIDTH);
    let mut register = Register::new("test");

    bus.set_value(0xABCD);
    register.set();
    register.enable();
    register.update_on(&mut bus);
    assert_eq!(register.value(), 0xABCD);

    register.disable();
    register.update_on(&mut bus);

    bus.set_value(0x00FF);

    assert_eq!(bus.get_value(), 0x00FF);
    assert_eq!(register.value(), 0x0000);
}

#[test]
fn test_register_set() {
    let mut bus = Bus::new(BUS_WIDTH);
    let mut register = Register::new("test");
    register.disable();

    bus.set_value(0x00FF);
    register.set();
    register.update_on(&mut bus);

    bus.set_value(0x0EEE);
    register.unset();
    register.update_on(&mut bus);
    assert_eq!(register.word_value(), 0x00FF, "value should not change");

    bus.set_value(0xFF00);
    register.set();
    register.update_on(&mut bus);
    assert_eq!(register.value(), 0x0000, "value should change");
}

#[test]
fn test_register_enable_output() {
    let mut bus = Bus::new(BUS_WIDTH);
    let mut register = Register::new("test");

    bus.set_value(0xABCD);
    register.set();
    register.disable();
    register.update_on(&mut bus);

    register.enable();
    register.update_on(&mut bus);

    bus.set_value(0x00FF);

    assert_eq!(bus.get_value(), 0x00FF);
    assert_eq!(register.value(), 0xABCD);
}

#[test]
fn register_between_two_buses() {
    let mut input = Bus::new(BUS_WIDTH);
    let mut output = Bus::new(BUS_WIDTH);
    let mut register = Register::new("between");
    input.set_value(0x1234);
    register.set();
    register.enable();
    register.update(&input, &mut output);
    assert_eq!(output.get_value(), 0x1234);
    assert_eq!(input.get_value(), 0x1234);
}

fn get_output(stepper: &Stepper) -> i32 {
    for i in 0..7 {
        if stepper.get_output_wire(i) {
            return i + 1;
        }
    }
    return -1;
}

#[test]
fn test_stepper() {
    let test_one_stepper = |cycles: u16, expected: i32| {
        let mut stepper = Stepper::new();
        for _ in 0..cycles {
            stepper.update(true);
            stepper.update(false);
        }
        assert_eq!(expected, get_output(&stepper));
    };
    test_one_stepper(0, -1);
    test_one_stepper(1, 1);
    test_one_stepper(2, 2);
    test_one_stepper(3, 3);
    test_one_stepper(4, 4);
    test_one_stepper(5, 5);
    test_one_stepper(6, 6);
}

#[test]
fn stepper_starts_again_after_six_steps() {
    let mut stepper = Stepper::new();
    for _ in 0..7 {
        stepper.update(true);
        stepper.update(false);
    }
    assert_eq!(get_output(&stepper), 1);
}

#[test]
fn test_bit() {
    let mut bit = Bit::new();
    bit.update(false, true);
    assert_eq!(bit.get(), false);
    bit.update(false, false);
    assert_eq!(bit.get(), false);
    bit.update(true, true);
    assert_eq!(bit.get(), true);
    bit.update(false, false);
    assert_eq!(bit.get(), true);
}

#[test]
fn test_io_bus() {
    let mut io_bus = IOBus::new();
    io_bus.set();
    assert_eq!(io_bus.is_set(), true);
    io_bus.unset();
    assert_eq!(io_bus.is_set(), false);
    io_bus.enable();
    assert_eq!(io_bus.is_enable(), true);
    io_bus.disable();
    assert_eq!(io_bus.is_enable(), false);
    io_bus.update(false, false);
    assert_eq!(io_bus.is_input_mode(), true);
    assert_eq!(io_bus.is_data_mode(), true);
    io_bus.update(true, true);
    assert_eq!(io_bus.is_output_mode(), true);
    assert_eq!(io_bus.is_address_mode(), true);
}
