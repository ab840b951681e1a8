use computer_simulator::computer::{Computer, PrintStateConfig, CODE_REGION_START};

#[test]
fn computer_runs_a_loaded_program() {
    let mut computer = Computer::new();
    // DATA R0, 0x0005 ; DATA R1, 0x0003 ; ADD R0, R1
    computer.load_to_ram(0x0500, vec![0x0020, 0x0005, 0x0021, 0x0003, 0x0081]);
    computer.start();
    assert_eq!(computer.cpu().iar_value(), CODE_REGION_START);
    for _ in 0..18 {
        computer.tick();
    }
    assert_eq!(computer.cpu().register_value(0), 0x0005);
    assert_eq!(computer.cpu().register_value(1), 0x0008);
}

#[test]
fn print_state_every_n_steps() {
    let config = PrintStateConfig { print_state: true, print_state_every: 6 };
    assert!(config.shows_step(0));
    assert!(!config.shows_step(5));
    assert!(config.shows_step(12));
    let quiet = PrintStateConfig { print_state: false, print_state_every: 6 };
    assert!(!quiet.shows_step(12));
}

#[test]
fn refreshing_the_screen_keeps_its_size() {
    let mut computer = Computer::new();
    computer.refresh_screen();
    assert_eq!(computer.screen_control.output.len(), 160 * 240);
}

#[test]
fn an_instruction_fetches_its_word_and_an_alu_instruction_moves_on_by_one() {
    let mut computer = Computer::new();
    // ADD R0, R1 ; NOT R2
    computer.load_to_ram(0x0500, vec![0x0081, 0x00B2]);
    computer.start();
    for _ in 0..6 {
        computer.tick();
    }
    assert_eq!(computer.cpu().ir_value(), 0x0081);
    assert_eq!(computer.cpu().iar_value(), 0x0501);
    for _ in 0..6 {
        computer.tick();
    }
    assert_eq!(computer.cpu().ir_value(), 0x00B2);
    assert_eq!(computer.cpu().iar_value(), 0x0502);
}

#[test]
fn a_data_instruction_is_fetched_like_any_other() {
    let mut computer = Computer::new();
    // DATA R3, 0x1234
    computer.load_to_ram(0x0500, vec![0x0023, 0x1234]);
    computer.start();
    for _ in 0..6 {
        computer.tick();
    }
    assert_eq!(computer.cpu().ir_value(), 0x0023);
    assert_eq!(computer.cpu().register_value(3), 0x1234);
}

#[test]
fn a_comparison_leaves_register_b_alone() {
    let mut computer = Computer::new();
    // DATA R0, 0x0005 ; DATA R1, 0x0003 ; CMP R0, R1
    computer.load_to_ram(0x0500, vec![0x0020, 0x0005, 0x0021, 0x0003, 0x00F1]);
    computer.start();
    for _ in 0..18 {
        computer.tick();
    }
    assert_eq!(computer.cpu().register_value(0), 0x0005);
    assert_eq!(computer.cpu().register_value(1), 0x0003);
    assert_eq!(computer.cpu().iar_value(), 0x0505);
}

#[test]
fn an_addition_takes_in_the_carry_flag() {
    let mut computer = Computer::new();
    // DATA R0, 0xFFFF ; DATA R1, 0x0001 ; ADD R0, R1 (sets the carry flag)
    // DATA R2, 0x0002 ; DATA R3, 0x0003 ; ADD R2, R3
    computer.load_to_ram(
        0x0500,
        vec![0x0020, 0xFFFF, 0x0021, 0x0001, 0x0081, 0x0022, 0x0002, 0x0023, 0x0003, 0x008B],
    );
    computer.start();
    for _ in 0..18 {
        computer.tick();
    }
    assert_eq!(computer.cpu().register_value(1), 0x0000);
    assert!(computer.cpu().flag(0));
    for _ in 0..18 {
        computer.tick();
    }
    assert_eq!(computer.cpu().register_value(3), 0x0006);
}

#[test]
fn store_then_load_goes_through_memory() {
    let mut computer = Computer::new();
    // DATA R0, 0x0600 ; DATA R1, 0x4242 ; ST R0, R1 ; LD R0, R2
    computer.load_to_ram(0x0500, vec![0x0020, 0x0600, 0x0021, 0x4242, 0x0011, 0x0002]);
    computer.start();
    for _ in 0..24 {
        computer.tick();
    }
    assert_eq!(computer.cpu().register_value(2), 0x4242);
    assert_eq!(computer.cpu().iar_value(), 0x0506);
}

#[test]
fn a_conditional_jump_follows_the_flags() {
    let mut computer = Computer::new();
    // DATA R0, 0x0001 ; DATA R1, 0x0001 ; CMP R0, R1 (equal) ; JE 0x0600
    computer.load_to_ram(0x0500, vec![0x0020, 0x0001, 0x0021, 0x0001, 0x00F1, 0x0052, 0x0600]);
    computer.start();
    for _ in 0..24 {
        computer.tick();
    }
    assert_eq!(computer.cpu().iar_value(), 0x0600);
}

#[test]
fn a_conditional_jump_not_taken_moves_past_its_address() {
    let mut computer = Computer::new();
    // DATA R0, 0x0001 ; DATA R1, 0x0002 ; CMP R0, R1 (not equal) ; JE 0x0600
    computer.load_to_ram(0x0500, vec![0x0020, 0x0001, 0x0021, 0x0002, 0x00F1, 0x0052, 0x0600]);
    computer.start();
    for _ in 0..24 {
        computer.tick();
    }
    assert_eq!(computer.cpu().iar_value(), 0x0507);
}
