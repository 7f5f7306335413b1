use lc3::engine::Action;
use lc3::opcode::Opcodes;
use lc3::operations::Operations;
use lc3::vm::{Register, VM, FL_NEG, FL_POS, FL_ZRO, MR_KBDR, MR_KBSR, PC_START};
use lc3::{sign_extend, VMError};

const R0: usize = 0;
const R1: usize = 1;
const R7: usize = 7;
const PC: usize = 8;
const COND: usize = 9;

fn add_imm(dr: u16, sr: u16, imm5: u16) -> u16 {
    (1 << 12) | (dr << 9) | (sr << 6) | (1 << 5) | (imm5 & 0x1F)
}

fn add_reg(dr: u16, sr1: u16, sr2: u16) -> u16 {
    (1 << 12) | (dr << 9) | (sr1 << 6) | sr2
}

fn and_imm(dr: u16, sr: u16, imm5: u16) -> u16 {
    (5 << 12) | (dr << 9) | (sr << 6) | (1 << 5) | (imm5 & 0x1F)
}

fn and_reg(dr: u16, sr1: u16, sr2: u16) -> u16 {
    (5 << 12) | (dr << 9) | (sr1 << 6) | sr2
}

fn run_to_halt(vm: &mut VM) -> Vec<u8> {
    let mut out = Vec::new();
    vm.turn_on();
    for _ in 0..10_000 {
        match vm.step() {
            Ok(Action::Output(bytes)) => out.extend(bytes),
            Ok(Action::Halt) => return out,
            Ok(Action::Continue) => {}
            other => panic!("unexpected step result {:?}", other),
        }
    }
    panic!("program did not halt");
}

#[test]
fn new_machine_starts_at_entry_with_zero_flag() {
    let vm = VM::new();
    assert_eq!(vm.get_pc(), PC_START);
    assert_eq!(vm.read_reg(COND), FL_ZRO);
    assert!(!vm.is_running());
    for r in 0..8 {
        assert_eq!(vm.read_reg(r), 0);
    }
}

#[test]
fn register_ids() {
    assert_eq!(Register::R0.id(), 0);
    assert_eq!(Register::R7.id(), 7);
    assert_eq!(Register::PC.id(), 8);
    assert_eq!(Register::COND.id(), 9);
    assert_eq!(Register::COUNT.id(), 10);
}

#[test]
fn sign_extend_examples() {
    assert_eq!(sign_extend(0x1F, 5), 0xFFFF);
    assert_eq!(sign_extend(0x0F, 5), 0x000F);
    assert_eq!(sign_extend(0x10, 5), 0xFFF0);
    assert_eq!(sign_extend(0x20, 6), 0xFFE0);
    assert_eq!(sign_extend(0x1FF, 9), 0xFFFF);
    assert_eq!(sign_extend(0x0FF, 9), 0x00FF);
    assert_eq!(sign_extend(0x400, 11), 0xFC00);
    assert_eq!(sign_extend(0x3FF, 11), 0x03FF);
}

#[test]
fn sign_extend_is_idempotent() {
    for n in [5usize, 6, 9, 11] {
        for x in 0..(1u16 << n) {
            let once = sign_extend(x, n);
            assert_eq!(sign_extend(once, n), once);
        }
    }
}

#[test]
fn immediate_and_register_modes_agree() {
    for imm in 0..32u16 {
        for r1 in 0..8u16 {
            for r2 in 0..8u16 {
                if r2 == r1 {
                    continue;
                }
                for (imm_instr, reg_instr) in [
                    (add_imm(0, r1, imm), add_reg(0, r1, r2)),
                    (and_imm(0, r1, imm), and_reg(0, r1, r2)),
                ] {
                    let mut a = VM::new();
                    let mut b = VM::new();
                    a.set_reg(r1 as usize, 0x1234);
                    b.set_reg(r1 as usize, 0x1234);
                    b.set_reg(r2 as usize, sign_extend(imm, 5));
                    a.execute(imm_instr).unwrap();
                    b.execute(reg_instr).unwrap();
                    assert_eq!(a.read_reg(R0), b.read_reg(R0));
                    assert_eq!(a.read_reg(COND), b.read_reg(COND));
                }
            }
        }
    }
}

#[test]
fn add_wraps_and_sets_flags() {
    let mut vm = VM::new();
    vm.set_reg(R1, 0xFFFF);
    vm.add(add_imm(0, 1, 1));
    assert_eq!(vm.read_reg(R0), 0);
    assert_eq!(vm.read_reg(COND), FL_ZRO);
    vm.add(add_imm(0, 1, 0x1F));
    assert_eq!(vm.read_reg(R0), 0xFFFE);
    assert_eq!(vm.read_reg(COND), FL_NEG);
    vm.set_reg(R1, 7);
    vm.add(add_imm(0, 1, 2));
    assert_eq!(vm.read_reg(R0), 9);
    assert_eq!(vm.read_reg(COND), FL_POS);
}

#[test]
fn flags_exactly_one_for_every_value() {
    let mut vm = VM::new();
    for v in [0u16, 1, 0x7FFF, 0x8000, 0xFFFF, 0x1234, 0xABCD] {
        vm.set_reg(R1, v);
        // R0 = R1 AND R1 = v
        vm.and(and_reg(0, 1, 1));
        let c = vm.read_reg(COND);
        let expected = if v == 0 {
            FL_ZRO
        } else if v & 0x8000 != 0 {
            FL_NEG
        } else {
            FL_POS
        };
        assert_eq!(c, expected);
        assert_eq!([FL_POS, FL_ZRO, FL_NEG].iter().filter(|f| **f == c).count(), 1);
    }
}

#[test]
fn not_complements() {
    let mut vm = VM::new();
    vm.set_reg(R1, 0x00F0);
    vm.not((9 << 12) | (2 << 9) | (1 << 6) | 0x3F);
    assert_eq!(vm.read_reg(2), 0xFF0F);
    assert_eq!(vm.read_reg(COND), FL_NEG);
}

#[test]
fn branch_with_no_condition_never_branches() {
    for cond in [FL_POS, FL_ZRO, FL_NEG] {
        let mut vm = VM::new();
        vm.set_reg(COND, cond);
        vm.branch(0x0005);
        assert_eq!(vm.get_pc(), PC_START);
    }
}

#[test]
fn branch_with_all_conditions_always_branches() {
    for cond in [FL_POS, FL_ZRO, FL_NEG] {
        let mut vm = VM::new();
        vm.set_reg(COND, cond);
        vm.branch(0x0E05);
        assert_eq!(vm.get_pc(), PC_START + 5);
        vm.branch(0x0FFF);
        assert_eq!(vm.get_pc(), PC_START + 4);
    }
}

#[test]
fn branch_tests_only_the_selected_flags() {
    let mut vm = VM::new();
    vm.set_reg(COND, FL_POS);
    // BRn: no branch on a positive flag
    vm.branch(0x0803);
    assert_eq!(vm.get_pc(), PC_START);
    // BRp: branch
    vm.branch(0x0203);
    assert_eq!(vm.get_pc(), PC_START + 3);
}

#[test]
fn jsr_long_links_and_offsets() {
    let mut vm = VM::new();
    vm.set_pc(0x3001);
    vm.jump(0x4800 | 0x010);
    assert_eq!(vm.read_reg(R7), 0x3001);
    assert_eq!(vm.get_pc(), 0x3011);
    vm.jump(0x4800 | 0x7FF);
    assert_eq!(vm.read_reg(R7), 0x3011);
    assert_eq!(vm.get_pc(), 0x3010);
}

#[test]
fn jsrr_links_and_takes_base() {
    let mut vm = VM::new();
    vm.set_pc(0x3001);
    vm.set_reg(2, 0x4000);
    vm.jump(0x4000 | (2 << 6));
    assert_eq!(vm.read_reg(R7), 0x3001);
    assert_eq!(vm.get_pc(), 0x4000);
}

#[test]
fn jmp_takes_base_and_keeps_r7() {
    let mut vm = VM::new();
    vm.set_reg(3, 0x5000);
    vm.set_reg(R7, 0x1111);
    vm.jmp(0xC000 | (3 << 6));
    assert_eq!(vm.get_pc(), 0x5000);
    assert_eq!(vm.read_reg(R7), 0x1111);
}

#[test]
fn ldi_reads_through_pointer() {
    let mut vm = VM::new();
    vm.set_pc(0x3001);
    vm.mem_write(0x3003, 0x4000);
    vm.mem_write(0x4000, 0xBEEF);
    vm.ldi(0xA000 | (1 << 9) | 2);
    assert_eq!(vm.read_reg(R1), 0xBEEF);
    assert_eq!(vm.read_reg(COND), FL_NEG);
}

#[test]
fn ld_ldr_lea() {
    let mut vm = VM::new();
    vm.set_pc(0x3001);
    vm.mem_write(0x3000, 42);
    vm.load(0x2000 | (1 << 9) | 0x1FF);
    assert_eq!(vm.read_reg(R1), 42);
    assert_eq!(vm.read_reg(COND), FL_POS);
    vm.set_reg(2, 0x4005);
    vm.mem_write(0x4003, 0);
    vm.ldr(0x6000 | (3 << 9) | (2 << 6) | 0x3E);
    assert_eq!(vm.read_reg(3), 0);
    assert_eq!(vm.read_reg(COND), FL_ZRO);
    vm.lea(0xE000 | (4 << 9) | 0x10);
    assert_eq!(vm.read_reg(4), 0x3011);
    assert_eq!(vm.read_reg(COND), FL_POS);
}

#[test]
fn lea_wraps() {
    let mut vm = VM::new();
    vm.set_pc(0xFFFF);
    vm.lea(0xE000 | 2);
    assert_eq!(vm.read_reg(R0), 1);
}

#[test]
fn stores() {
    let mut vm = VM::new();
    vm.set_pc(0x3001);
    vm.set_reg(R1, 0xAAAA);
    vm.store(0x3000 | (1 << 9) | 4);
    assert_eq!(vm.mem_read(0x3005), 0xAAAA);
    vm.mem_write(0x3006, 0x5000);
    vm.store_indirect(0xB000 | (1 << 9) | 5);
    assert_eq!(vm.mem_read(0x5000), 0xAAAA);
    vm.set_reg(2, 0x6000);
    vm.store_register(0x7000 | (1 << 9) | (2 << 6) | 0x3F);
    assert_eq!(vm.mem_read(0x5FFF), 0xAAAA);
    assert_eq!(vm.read_reg(COND), FL_ZRO);
}

#[test]
fn keyboard_status_poll() {
    let mut vm = VM::new();
    assert_eq!(vm.mem_read(MR_KBSR), 0);
    vm.press_key(b'a');
    assert!(vm.key_ready());
    assert_eq!(vm.mem_read(MR_KBSR), 0x8000);
    assert_eq!(vm.mem_read(MR_KBDR), b'a' as u16);
    assert!(!vm.key_ready());
    assert_eq!(vm.mem_read(MR_KBSR), 0);
    assert_eq!(vm.mem_read(MR_KBDR), b'a' as u16);
}

#[test]
fn image_loads_big_endian_words_at_origin() {
    let mut vm = VM::new();
    vm.read_image(&[0x30, 0x00, 0x12, 0x34, 0x56, 0x78]).unwrap();
    assert_eq!(vm.mem_read(0x3000), 0x1234);
    assert_eq!(vm.mem_read(0x3001), 0x5678);
    assert_eq!(vm.mem_read(0x3002), 0);
}

#[test]
fn image_wraps_at_end_of_memory() {
    let mut vm = VM::new();
    vm.read_image(&[0xFF, 0xFF, 0x00, 0x01, 0x00, 0x02]).unwrap();
    assert_eq!(vm.mem_read(0xFFFF), 1);
    assert_eq!(vm.mem_read(0x0000), 2);
}

#[test]
fn malformed_images_are_rejected() {
    for image in [&[][..], &[0x30][..], &[0x30, 0x00, 0x12][..]] {
        let mut vm = VM::new();
        assert_eq!(vm.read_image(image), Err(VMError::MalformedImage));
        assert_eq!(vm.mem_read(0x3000), 0);
    }
    let mut vm = VM::new();
    assert_eq!(vm.read_image(&[0x30, 0x00]), Ok(()));
}

#[test]
fn reserved_opcodes_are_invalid() {
    let mut vm = VM::new();
    assert_eq!(vm.execute(0x8000), Err(VMError::InvalidOpcode));
    assert_eq!(vm.execute(0xD000), Err(VMError::InvalidOpcode));
}

#[test]
fn unknown_trap_vector_is_invalid() {
    let mut vm = VM::new();
    assert_eq!(vm.execute(0xF026), Err(VMError::InvalidOpcode));
    assert_eq!(vm.execute_trap_routine(0xF01F), Err(VMError::InvalidOpcode));
}

#[test]
fn opcode_decoding() {
    assert_eq!(Opcodes::of_instruction(0x1263), Opcodes::ADD);
    assert_eq!(Opcodes::of_instruction(0xF025), Opcodes::TRAP);
    assert_eq!(Opcodes::of_instruction(0x0000), Opcodes::BR);
    assert_eq!(Opcodes::of_instruction(0xD000), Opcodes::RES);
    assert_eq!(Opcodes::from_bits(8), Opcodes::RTI);
}

#[test]
fn trap_out_writes_low_byte() {
    let mut vm = VM::new();
    vm.set_reg(R0, 0x1241);
    assert_eq!(vm.execute_trap_routine(0xF021), Ok(Action::Output(vec![0x41])));
}

#[test]
fn trap_puts_writes_one_char_per_word() {
    let mut vm = VM::new();
    vm.set_reg(R0, 0x4000);
    vm.mem_write(0x4000, b'h' as u16);
    vm.mem_write(0x4001, 0x0100 | b'i' as u16);
    vm.mem_write(0x4002, 0);
    assert_eq!(vm.execute_trap_routine(0xF022), Ok(Action::Output(b"hi".to_vec())));
}

#[test]
fn trap_putsp_writes_two_chars_per_word() {
    let mut vm = VM::new();
    vm.set_reg(R0, 0x4000);
    vm.mem_write(0x4000, ((b'e' as u16) << 8) | b'h' as u16);
    vm.mem_write(0x4001, ((b'l' as u16) << 8) | b'l' as u16);
    vm.mem_write(0x4002, b'o' as u16);
    vm.mem_write(0x4003, 0);
    assert_eq!(vm.execute_trap_routine(0xF024), Ok(Action::Output(b"hello".to_vec())));
}

#[test]
fn trap_getc_and_in_ask_for_input() {
    let mut vm = VM::new();
    assert_eq!(vm.execute_trap_routine(0xF020), Ok(Action::Input { echo: false }));
    assert_eq!(vm.execute_trap_routine(0xF023), Ok(Action::Input { echo: true }));
    vm.finish_input(b'x');
    assert_eq!(vm.read_reg(R0), b'x' as u16);
    assert_eq!(vm.read_reg(COND), FL_POS);
    vm.finish_input(0);
    assert_eq!(vm.read_reg(COND), FL_ZRO);
}

#[test]
fn take_key_consumes_the_ready_character() {
    let mut vm = VM::new();
    assert_eq!(vm.take_key(), None);
    vm.press_key(b'q');
    assert_eq!(vm.take_key(), Some(b'q'));
    assert!(!vm.key_ready());
}

#[test]
fn trap_links_r7() {
    let mut vm = VM::new();
    vm.set_pc(0x3005);
    vm.turn_on();
    vm.execute(0xF021).unwrap();
    assert_eq!(vm.read_reg(R7), 0x3005);
}

#[test]
fn halt_stops_the_machine_and_no_further_fetch() {
    let mut vm = VM::new();
    vm.mem_write(0x3000, 0xF025);
    vm.mem_write(0x3001, 0x1263);
    vm.turn_on();
    assert_eq!(vm.step(), Ok(Action::Halt));
    assert!(!vm.is_running());
    assert_eq!(vm.get_pc(), 0x3001);
    assert_eq!(vm.step(), Ok(Action::Halt));
    assert_eq!(vm.get_pc(), 0x3001);
    assert_eq!(vm.read_reg(R1), 0);
}

#[test]
fn program_doubles_and_prints() {
    let mut vm = VM::new();
    vm.read_image(&[
        0x30, 0x00, // origin
        0x12, 0x63, // ADD R1, R1, #3
        0x12, 0x62, // ADD R1, R1, #2
        0x10, 0x41, // ADD R0, R1, R1
        0xF0, 0x21, // TRAP OUT
        0xF0, 0x25, // TRAP HALT
    ])
    .unwrap();
    let out = run_to_halt(&mut vm);
    assert_eq!(out, vec![10u8]);
    assert_eq!(vm.read_reg(R1), 5);
    assert_eq!(vm.read_reg(R0), 10);
    assert_eq!(vm.read_reg(COND), FL_POS);
}

#[test]
fn operations_run_their_instruction() {
    let mut vm = VM::new();
    vm.set_reg(R1, 0x0F0F);
    let op = Operations::new(and_imm(0, 1, 0x0F));
    assert_eq!(op.instruction(), and_imm(0, 1, 0x0F));
    op.and(&mut vm);
    assert_eq!(vm.read_reg(R0), 0x000F);
    Operations::new((9 << 12) | (1 << 6) | 0x3F).not(&mut vm);
    assert_eq!(vm.read_reg(R0), 0xF0F0);
    vm.set_reg(COND, FL_NEG);
    Operations::new(0x0E02).branch(&mut vm);
    assert_eq!(vm.get_pc(), PC_START + 2);
    Operations::new(0x4804).jump(&mut vm);
    assert_eq!(vm.read_reg(R7), PC_START + 2);
    assert_eq!(vm.get_pc(), PC_START + 6);
    assert_eq!(vm.read_reg(PC), PC_START + 6);
}
