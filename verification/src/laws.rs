//! What holds of the machine as a whole: properties that relate several
//! operations, proved from the definitions in `crate::machine`.

use vstd::prelude::*;
use crate::alu::{jump_target_spec, signed};
use crate::error::EmulatorError;
use crate::instruction::{
    acts, decode_extended_spec, decode_spec, operand_at, Condition, Instruction, Operand8,
    EXTENDED_PREFIX,
};
use crate::machine::{MachineState, Step, HIGH_PAGE};
use crate::memory::{MemoryView, BOOT_OVERLAY_END};
use crate::registers::{Flag, Flags, Reg16, Reg8, Registers};
use crate::utils::bit_set;

verus! {

/// A flag that was set reads back as it was set, and setting one flag leaves
/// every other flag as it was.
pub proof fn law_flag_set_then_get(flags: Flags, flag: Flag, value: bool, other: Flag)
    ensures
        flags.with(flag, value).get(flag) == value,
        other != flag ==> flags.with(flag, value).get(other) == flags.get(other),
{
}

/// A byte that was written is the byte read back from the same address,
/// unless the boot overlay hides the address. A write changes what is read at
/// no other address, and leaves the overlay and the boot image as they were.
pub proof fn law_read_after_write(memory: MemoryView, addr: u16, value: u8, other: u16)
    requires
        memory.write(addr, value) is Ok,
    ensures
        !memory.shadowed(addr) ==> memory.write(addr, value).unwrap().read(addr) == Ok::<
            u8,
            EmulatorError,
        >(value),
        other != addr ==> memory.write(addr, value).unwrap().read(other) == memory.read(other),
        memory.write(addr, value).unwrap().boot_overlay_active == memory.boot_overlay_active,
        memory.write(addr, value).unwrap().bootrom == memory.bootrom,
{
}

/// Whether a read of `addr` would return `value` once `value` was written
/// there. The boot overlay is the one thing that can come between: a write
/// below it lands in the cartridge, a read is served from the boot image,
/// which then shows `value` only by coincidence.
pub open spec fn reads_back(memory: MemoryView, addr: u16, value: u8) -> bool {
    memory.shadowed(addr) ==> memory.read(addr) == Ok::<u8, EmulatorError>(value)
}

/// A byte that was pushed is the byte popped, and the pop puts the stack
/// pointer back where it was before the push. This holds exactly where the
/// boot overlay does not come between the write and the read of the stack
/// slot.
pub proof fn law_push_pop_u8(state: MachineState, value: u8)
    requires
        state.push8(value) is Ok,
    ensures
        reads_back(state.memory, state.cpu.sp.wrapping_sub(1), value) <==> state.push8(
            value,
        ).unwrap().pop8() == Ok::<(u8, MachineState), EmulatorError>(
            (value, MachineState { cpu: state.cpu, memory: state.push8(value).unwrap().memory }),
        ),
{
    law_read_after_write(state.memory, state.cpu.sp.wrapping_sub(1), value, 0);
}

/// A word that was pushed is the word popped, whatever the word, and the pop
/// puts the stack pointer back where it was before the push. This holds
/// exactly where the boot overlay does not come between the write and the
/// read of either stack slot.
pub proof fn law_push_pop_u16(state: MachineState, value: u16)
    requires
        state.push16(value) is Ok,
    ensures
        (reads_back(state.memory, state.cpu.sp.wrapping_sub(1), (value / 256) as u8) && reads_back(
            state.memory,
            state.cpu.sp.wrapping_sub(2),
            (value % 256) as u8,
        )) <==> state.push16(value).unwrap().pop16() == Ok::<(u16, MachineState), EmulatorError>(
            (value, MachineState { cpu: state.cpu, memory: state.push16(value).unwrap().memory }),
        ),
{
    let high = (value / 256) as u8;
    let low = (value % 256) as u8;
    let high_slot = state.cpu.sp.wrapping_sub(1);
    let low_slot = state.cpu.sp.wrapping_sub(2);
    let first = state.push8(high).unwrap();
    let second = first.push8(low).unwrap();
    law_read_after_write(state.memory, high_slot, high, low_slot);
    law_read_after_write(first.memory, low_slot, low, high_slot);
    if reads_back(state.memory, high_slot, high) && reads_back(state.memory, low_slot, low) {
        assert(second.memory.read(low_slot) == Ok::<u8, EmulatorError>(low));
        assert(second.memory.read(high_slot) == Ok::<u8, EmulatorError>(high));
        assert(second.pop8() == Ok::<(u8, MachineState), EmulatorError>(
            (low, second.with_cpu(second.cpu.with_sp(high_slot))),
        ));
    } else {
        if second.pop16() is Ok {
            let (popped, rest) = second.pop16().unwrap();
            assert(second.memory.read(low_slot) is Ok);
            assert(second.memory.read(high_slot) is Ok);
            let read_low = second.memory.read(low_slot).unwrap();
            let read_high = second.memory.read(high_slot).unwrap();
            assert(popped == read_high * 256 + read_low);
            assert(read_low != low || read_high != high);
            assert(popped != value);
        }
    }
}

/// Switching the boot overlay off a second time changes nothing.
pub proof fn law_overlay_removal_idempotent(memory: MemoryView)
    ensures
        memory.without_overlay().without_overlay() == memory.without_overlay(),
        !memory.without_overlay().boot_overlay_active,
{
}

/// Before any step, the addresses below `0x0100` show the boot image, as far
/// as a boot image was supplied and reaches.
pub proof fn law_boot_image_shown_at_power_on(rom: Seq<u8>, bootrom: Seq<u8>, addr: u16)
    requires
        addr < BOOT_OVERLAY_END,
        addr < bootrom.len(),
    ensures
        MachineState::power_on(rom, bootrom).memory.read(addr) == Ok::<u8, EmulatorError>(
            bootrom[addr as int],
        ),
{
}

/// Without the boot overlay, the addresses below `0x0100` show the
/// cartridge.
pub proof fn law_cartridge_shown_without_overlay(memory: MemoryView, addr: u16)
    requires
        !memory.boot_overlay_active,
        addr < BOOT_OVERLAY_END,
        addr < memory.rom.len(),
    ensures
        memory.read(addr) == Ok::<u8, EmulatorError>(memory.rom[addr as int]),
{
}

/// Whether two address spaces have the same boot image and the same state
/// of the overlay.
pub open spec fn same_overlay(before: MemoryView, after: MemoryView) -> bool {
    after.boot_overlay_active == before.boot_overlay_active && after.bootrom == before.bootrom
}

proof fn lemma_store_keeps_overlay(state: MachineState, addr: u16, value: u8)
    requires
        state.store(addr, value) is Ok,
    ensures
        same_overlay(state.memory, state.store(addr, value).unwrap().memory),
{
}

proof fn lemma_store_operand_keeps_overlay(state: MachineState, operand: Operand8, value: u8)
    requires
        state.store_operand(operand, value) is Ok,
    ensures
        same_overlay(state.memory, state.store_operand(operand, value).unwrap().memory),
{
}

proof fn lemma_push16_keeps_overlay(state: MachineState, value: u16)
    requires
        state.push16(value) is Ok,
    ensures
        same_overlay(state.memory, state.push16(value).unwrap().memory),
{
    let first = state.push8((value / 256) as u8).unwrap();
    assert(same_overlay(state.memory, first.memory));
}

/// No instruction brings the boot overlay back, switches it off, or changes
/// the boot image.
pub proof fn law_execute_keeps_overlay(
    state: MachineState,
    instruction: Instruction,
    immediate: u16,
)
    requires
        state.execute(instruction, immediate) is Ok,
    ensures
        same_overlay(state.memory, state.execute(instruction, immediate).unwrap().memory),
{
    let after = state.execute(instruction, immediate).unwrap();
    match instruction {
        Instruction::Load { target, source } => {
            lemma_store_operand_keeps_overlay(state, target, state.operand(source).unwrap());
        },
        Instruction::StoreAAtHlDecrement | Instruction::StoreAAtHlIncrement => {
            lemma_store_keeps_overlay(state, state.cpu.pair(Reg16::HL), state.cpu.a);
        },
        Instruction::StoreAAtHighImmediate => {
            lemma_store_keeps_overlay(state, (HIGH_PAGE + immediate % 256) as u16, state.cpu.a);
        },
        Instruction::StoreAAtHighC => {
            lemma_store_keeps_overlay(state, (HIGH_PAGE + state.cpu.c) as u16, state.cpu.a);
        },
        Instruction::StoreAAtImmediate => {
            lemma_store_keeps_overlay(state, immediate, state.cpu.a);
        },
        Instruction::Call { condition } => {
            if acts(condition, state.cpu.flags) {
                lemma_push16_keeps_overlay(state, state.cpu.pc);
            }
        },
        Instruction::Push { source } => {
            lemma_push16_keeps_overlay(state, state.cpu.pair(source));
        },
        Instruction::Return | Instruction::Pop { .. } => {
            assert(state.pop16().unwrap().1.memory == state.memory);
        },
        Instruction::LoadImmediate { .. }
        | Instruction::LoadImmediate16 { .. }
        | Instruction::LoadAFromDe
        | Instruction::Xor { .. }
        | Instruction::Compare { .. }
        | Instruction::CompareImmediate
        | Instruction::Increment { .. }
        | Instruction::Decrement { .. }
        | Instruction::Increment16 { .. }
        | Instruction::RotateLeft { .. }
        | Instruction::TestBit { .. }
        | Instruction::JumpRelative { .. } => {
            assert(after.memory == state.memory);
        },
    }
}

/// The step taken with the program counter at `0x0100` removes the boot
/// overlay, however the step ends. Any other step leaves the overlay as it
/// was. No step changes the boot image.
pub proof fn law_step_and_overlay(state: MachineState)
    ensures
        state.step().state.memory.boot_overlay_active == (state.memory.boot_overlay_active
            && state.cpu.pc != BOOT_OVERLAY_END),
        state.step().state.memory.bootrom == state.memory.bootrom,
{
    let entered = state.enter();
    match entered.memory.read(entered.cpu.pc) {
        Err(e) => {},
        Ok(opcode) => {
            let fetched = entered.advance(1);
            if opcode == EXTENDED_PREFIX {
                match fetched.memory.read(fetched.cpu.pc) {
                    Err(e) => {},
                    Ok(extended) => {
                        lemma_dispatch_keeps_overlay(
                            fetched.advance(1),
                            decode_extended_spec(extended),
                            extended,
                            fetched.cpu.pc,
                        );
                    },
                }
            } else {
                lemma_dispatch_keeps_overlay(fetched, decode_spec(opcode), opcode, entered.cpu.pc);
            }
        },
    }
}

proof fn lemma_dispatch_keeps_overlay(
    state: MachineState,
    decoded: Option<Instruction>,
    opcode: u8,
    address: u16,
)
    ensures
        same_overlay(state.memory, state.dispatch(decoded, opcode, address).state.memory),
{
    match decoded {
        None => {},
        Some(instruction) => match state.fetch_immediate(instruction.immediate()) {
            Err(e) => {},
            Ok(immediate) => {
                let ready = state.advance(instruction.immediate().len());
                if ready.execute(instruction, immediate) is Ok {
                    law_execute_keeps_overlay(ready, instruction, immediate);
                }
            },
        },
    }
}

/// Once the boot overlay is removed it stays removed, whatever runs and for
/// however long, also where the program counter returns to the addresses
/// that the overlay covered.
pub proof fn law_overlay_removed_for_good(state: MachineState, count: nat)
    requires
        !state.memory.boot_overlay_active,
    ensures
        !state.run(count).state.memory.boot_overlay_active,
    decreases count,
{
    if count > 0 {
        law_step_and_overlay(state);
        if state.step().outcome is Ok {
            law_overlay_removed_for_good(state.step().state, (count - 1) as nat);
        }
    }
}

/// A run can be taken in two parts: the second part starts where the first
/// ended, unless the first ended in a failure, which then ends the whole run.
pub proof fn law_run_in_two_parts(state: MachineState, first: nat, rest: nat)
    ensures
        state.run(first + rest) == (if state.run(first).outcome is Ok {
            state.run(first).state.run(rest)
        } else {
            state.run(first)
        }),
    decreases first,
{
    if first > 0 {
        if state.step().outcome is Ok {
            law_run_in_two_parts(state.step().state, (first - 1) as nat, rest);
            assert(state.run(first + rest) == state.step().state.run((first - 1 + rest) as nat));
        }
    } else {
        assert(state.run(0).outcome == Ok::<(), EmulatorError>(()));
    }
}

/// Once a run has brought the program counter to `0x0100`, the next step
/// removes the boot overlay, and it is gone at the end of every longer run.
pub proof fn law_overlay_gone_after_entry_point(state: MachineState, before: nat, after: nat)
    requires
        state.run(before).outcome is Ok,
        state.run(before).state.cpu.pc == BOOT_OVERLAY_END,
        after >= 1,
    ensures
        !state.run(before + after).state.memory.boot_overlay_active,
{
    let reached = state.run(before).state;
    law_run_in_two_parts(state, before, after);
    law_step_and_overlay(reached);
    if reached.step().outcome is Ok {
        law_overlay_removed_for_good(reached.step().state, (after - 1) as nat);
    }
}

/// The accumulator combined with itself by exclusive or is zero, whatever it
/// held: the instruction leaves `Zero` set and the other three flags clear,
/// and changes nothing else.
pub proof fn law_xor_a_with_itself(state: MachineState, immediate: u16)
    ensures
        state.execute(Instruction::Xor { source: Operand8::Register(Reg8::A) }, immediate) == Ok::<
            MachineState,
            EmulatorError,
        >(
            state.with_cpu(
                Registers {
                    a: 0,
                    flags: Flags { zero: true, subtract: false, half_carry: false, carry: false },
                    ..state.cpu
                },
            ),
        ),
{
    let a = state.cpu.a;
    assert(a ^ a == 0) by (bit_vector);
}

/// The step that fetches opcode `0xaf` succeeds, whatever the state. It
/// leaves the accumulator at zero, `Zero` set and the other three flags
/// clear, and the program counter just past the opcode.
pub proof fn law_step_xor_a(state: MachineState)
    requires
        state.enter().memory.read(state.cpu.pc) == Ok::<u8, EmulatorError>(0xaf),
    ensures
        state.step() == (Step {
            state: state.enter().with_cpu(
                Registers {
                    a: 0,
                    flags: Flags { zero: true, subtract: false, half_carry: false, carry: false },
                    pc: state.cpu.pc.wrapping_add(1),
                    ..state.cpu
                },
            ),
            outcome: Ok(()),
        }),
{
    assert(decode_spec(0xaf) == Some(Instruction::Xor { source: Operand8::Register(Reg8::A) }));
    law_xor_a_with_itself(state.enter().advance(1), 0);
}

/// A bit test sets `Zero` exactly if the tested bit is clear, sets
/// `HalfCarry`, clears `Subtract`, leaves `Carry` as it was, and changes
/// nothing else.
pub proof fn law_bit_test(state: MachineState, bit: u8, source: Operand8, immediate: u16)
    requires
        state.operand(source) is Ok,
    ensures
        state.execute(Instruction::TestBit { bit, source }, immediate) == Ok::<
            MachineState,
            EmulatorError,
        >(
            state.with_cpu(
                state.cpu.with_flags(
                    Flags {
                        zero: !bit_set(state.operand(source).unwrap(), bit),
                        subtract: false,
                        half_carry: true,
                        carry: state.cpu.flags.carry,
                    },
                ),
            ),
        ),
{
}

/// The step that fetches the prefix and then a bit test, encoded as
/// `0x40 + 8 * bit + field`, succeeds wherever the operand can be read. It
/// sets `Zero` exactly if the tested bit of the operand is clear, sets
/// `HalfCarry`, clears `Subtract`, leaves `Carry` as it was, and moves the
/// program counter past the two opcode bytes. It changes nothing else.
pub proof fn law_step_bit_test(state: MachineState, bit: u8, field: u8)
    requires
        bit < 8,
        field < 8,
        state.enter().memory.read(state.cpu.pc) == Ok::<u8, EmulatorError>(EXTENDED_PREFIX),
        state.enter().memory.read(state.cpu.pc.wrapping_add(1)) == Ok::<u8, EmulatorError>(
            (0x40 + 8 * bit + field) as u8,
        ),
        state.enter().operand(operand_at(field as int)) is Ok,
    ensures
        state.step() == (Step {
            state: state.enter().with_cpu(
                Registers {
                    flags: Flags {
                        zero: !bit_set(
                            state.enter().operand(operand_at(field as int)).unwrap(),
                            bit,
                        ),
                        subtract: false,
                        half_carry: true,
                        carry: state.cpu.flags.carry,
                    },
                    pc: state.cpu.pc.wrapping_add(2),
                    ..state.cpu
                },
            ),
            outcome: Ok(()),
        }),
{
    let opcode = (0x40 + 8 * bit + field) as u8;
    let source = operand_at(field as int);
    assert(decode_extended_spec(opcode) == Some(Instruction::TestBit { bit, source }));
    let ready = state.enter().advance(1).advance(1);
    assert(ready.operand(source) == state.enter().operand(source));
    law_bit_test(ready, bit, source, 0);
}

/// A register loaded into itself is an instruction that changes nothing.
pub proof fn law_load_into_itself(state: MachineState, register: Reg8, immediate: u16)
    ensures
        state.execute(
            Instruction::Load {
                target: Operand8::Register(register),
                source: Operand8::Register(register),
            },
            immediate,
        ) == Ok::<MachineState, EmulatorError>(state),
{
}

/// A jump or call whose condition does not hold has no effect: execution goes
/// on after the instruction's operand bytes, and the stack is left alone.
pub proof fn law_untaken_branch(state: MachineState, condition: Condition, immediate: u16)
    requires
        !condition.holds(state.cpu.flags),
    ensures
        state.execute(Instruction::JumpRelative { condition: Some(condition) }, immediate) == Ok::<
            MachineState,
            EmulatorError,
        >(state),
        state.execute(Instruction::Call { condition: Some(condition) }, immediate) == Ok::<
            MachineState,
            EmulatorError,
        >(state),
{
}

/// A relative jump lands at the program counter plus the signed offset. A
/// jump that would land below address zero lands as far below the top of the
/// address space, and one that would land above the top lands as far above
/// zero.
pub proof fn law_relative_jump_wraps(pc: u16, offset: u8)
    ensures
        -128 <= signed(offset) < 128,
        0 <= pc + signed(offset) < 0x1_0000 ==> jump_target_spec(pc, offset) == pc + signed(offset),
        pc + signed(offset) < 0 ==> jump_target_spec(pc, offset) == pc + signed(offset) + 0x1_0000,
        pc + signed(offset) >= 0x1_0000 ==> jump_target_spec(pc, offset) == pc + signed(offset)
            - 0x1_0000,
{
}

/// A step that meets a plain opcode which encodes no instruction fails with
/// `UnimplementedOpcode`, naming the opcode and the address it was fetched
/// from. It leaves the program counter just past the opcode. No other
/// register and no byte of memory changes.
pub proof fn law_unimplemented_opcode(state: MachineState, opcode: u8)
    requires
        state.enter().memory.read(state.cpu.pc) == Ok::<u8, EmulatorError>(opcode),
        opcode != EXTENDED_PREFIX,
        decode_spec(opcode) is None,
    ensures
        state.step() == (Step {
            state: state.enter().advance(1),
            outcome: Err(EmulatorError::UnimplementedOpcode { opcode, address: state.cpu.pc }),
        }),
{
}

/// A step that meets, after the prefix, an extended opcode which encodes no
/// instruction fails with `UnimplementedOpcode`, naming the extended opcode
/// and the address it was fetched from. It leaves the program counter just
/// past the extended opcode. No other register and no byte of memory changes.
pub proof fn law_unimplemented_extended_opcode(state: MachineState, opcode: u8)
    requires
        state.enter().memory.read(state.cpu.pc) == Ok::<u8, EmulatorError>(EXTENDED_PREFIX),
        state.enter().memory.read(state.cpu.pc.wrapping_add(1)) == Ok::<u8, EmulatorError>(opcode),
        decode_extended_spec(opcode) is None,
    ensures
        state.step() == (Step {
            state: state.enter().advance(2),
            outcome: Err(
                EmulatorError::UnimplementedOpcode {
                    opcode,
                    address: state.cpu.pc.wrapping_add(1),
                },
            ),
        }),
{
}

/// A call and the return that matches it. `state` is about to execute a
/// call, with or without a condition, and the call acts and succeeds. `later`
/// is any state reached with no stack activity left over: the stack pointer
/// is where the call left it, and the two bytes on top of the stack read as
/// they did after the call. `later` is about to execute a return.
///
/// Then the call continued at its target, the word after the call's opcode;
/// and the return succeeds, continues just past the call's three bytes, and
/// puts the stack pointer back where it was before the call.
///
/// This is stated for the calls whose return address the boot overlay does
/// not come between: see `reads_back`.
pub proof fn law_call_then_return(
    state: MachineState,
    opcode: u8,
    condition: Option<Condition>,
    later: MachineState,
)
    requires
        state.enter().memory.read(state.cpu.pc) == Ok::<u8, EmulatorError>(opcode),
        decode_spec(opcode) == Some(Instruction::Call { condition }),
        acts(condition, state.cpu.flags),
        state.step().outcome == Ok::<(), EmulatorError>(()),
        reads_back(
            state.enter().memory,
            state.cpu.sp.wrapping_sub(1),
            (state.cpu.pc.wrapping_add(3) / 256) as u8,
        ),
        reads_back(
            state.enter().memory,
            state.cpu.sp.wrapping_sub(2),
            (state.cpu.pc.wrapping_add(3) % 256) as u8,
        ),
        later.cpu.sp == state.step().state.cpu.sp,
        later.enter().memory.read(later.cpu.sp) == state.step().state.memory.read(later.cpu.sp),
        later.enter().memory.read(later.cpu.sp.wrapping_add(1)) == state.step().state.memory.read(
            later.cpu.sp.wrapping_add(1),
        ),
        later.enter().memory.read(later.cpu.pc) == Ok::<u8, EmulatorError>(0xc9),
    ensures
        state.enter().memory.read_word(state.cpu.pc.wrapping_add(1)) == Ok::<u16, EmulatorError>(
            state.step().state.cpu.pc,
        ),
        later.step().outcome == Ok::<(), EmulatorError>(()),
        later.step().state.cpu.pc == state.cpu.pc.wrapping_add(3),
        later.step().state.cpu.sp == state.cpu.sp,
{
    let return_address = state.cpu.pc.wrapping_add(3);
    let ready = state.enter().advance(1).advance(2);
    assert(opcode != EXTENDED_PREFIX);
    assert(ready.cpu.pc == return_address);
    assert(ready.cpu.sp == state.cpu.sp);
    assert(ready.memory == state.enter().memory);
    let target = state.enter().memory.read_word(state.cpu.pc.wrapping_add(1)).unwrap();
    assert(state.step().state == ready.call(target).unwrap());
    let pushed = ready.push16(return_address).unwrap();
    law_push_pop_u16(ready, return_address);
    assert(pushed.memory == state.step().state.memory);
    assert(pushed.cpu.sp == later.cpu.sp);

    assert(decode_spec(0xc9) == Some(Instruction::Return));
    let returning = later.enter().advance(1);
    assert(returning.pop16() is Ok);
    assert(returning.pop16().unwrap().0 == return_address);
}

} // verus!
