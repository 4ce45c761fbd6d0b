use crate::components::cpu::semantics::{fetch8, op_result, CpuState};
use crate::hw::cpu::program::{decoded, illegal_opcode};
use crate::hw::cpu::MicroOp;
use crate::memory::Memory;
use vstd::prelude::*;

verus! {

/// The M-cycles a micro-op program takes: one per bus or internal step;
/// the effects run free.
pub open spec fn bus_cycles(q: Seq<MicroOp>) -> nat
    decreases q.len(),
{
    if q.len() == 0 {
        0
    } else {
        (if q[0] is Exec { 0nat } else { 1nat }) + bus_cycles(q.drop_first())
    }
}

/// JR cc, RET cc, JP cc and CALL cc: their length depends on the flags.
pub open spec fn conditional_opcode(op: u8) -> bool {
    ||| op == 0x20 || op == 0x28 || op == 0x30 || op == 0x38
    ||| op == 0xC0 || op == 0xC8 || op == 0xD0 || op == 0xD8
    ||| op == 0xC2 || op == 0xCA || op == 0xD2 || op == 0xDA
    ||| op == 0xC4 || op == 0xCC || op == 0xD4 || op == 0xDC
}

/// The opcodes whose timing is fixed by the opcode alone.
pub open spec fn fixed_timing(op: u8) -> bool {
    !conditional_opcode(op) && op != 0xCB && !illegal_opcode(op)
}

/// The block of opcodes with x = 1, one opcode (or one row of eight) at a
/// time.
proof fn lemma_timing_x1<M: Memory>(s: CpuState<M::V>)
    requires
        fixed_timing(fetch8::<M>(s).1),
        fetch8::<M>(s).1 != 0x10,
        fetch8::<M>(s).1 / 64 == 1,
    ensures
        bus_cycles(decoded(fetch8::<M>(s).1)) == op_result::<M>(s).1,
{
    reveal_with_fuel(bus_cycles, 10);
    let op = fetch8::<M>(s).1;
    if op == 64 {
    } else if op == 65 {
    } else if op == 66 {
    } else if op == 67 {
    } else if op == 68 {
    } else if op == 69 {
    } else if op == 70 {
    } else if op == 71 {
    } else if op == 72 {
    } else if op == 73 {
    } else if op == 74 {
    } else if op == 75 {
    } else if op == 76 {
    } else if op == 77 {
    } else if op == 78 {
    } else if op == 79 {
    } else if op == 80 {
    } else if op == 81 {
    } else if op == 82 {
    } else if op == 83 {
    } else if op == 84 {
    } else if op == 85 {
    } else if op == 86 {
    } else if op == 87 {
    } else if op == 88 {
    } else if op == 89 {
    } else if op == 90 {
    } else if op == 91 {
    } else if op == 92 {
    } else if op == 93 {
    } else if op == 94 {
    } else if op == 95 {
    } else if op == 96 {
    } else if op == 97 {
    } else if op == 98 {
    } else if op == 99 {
    } else if op == 100 {
    } else if op == 101 {
    } else if op == 102 {
    } else if op == 103 {
    } else if op == 104 {
    } else if op == 105 {
    } else if op == 106 {
    } else if op == 107 {
    } else if op == 108 {
    } else if op == 109 {
    } else if op == 110 {
    } else if op == 111 {
    } else if op == 112 {
    } else if op == 113 {
    } else if op == 114 {
    } else if op == 115 {
    } else if op == 116 {
    } else if op == 117 {
    } else if op == 118 {
    } else if op == 119 {
    } else if op == 120 {
    } else if op == 121 {
    } else if op == 122 {
    } else if op == 123 {
    } else if op == 124 {
    } else if op == 125 {
    } else if op == 126 {
    } else {
    }
}

/// The block of opcodes with x = 2, one opcode (or one row of eight) at a
/// time.
proof fn lemma_timing_x2<M: Memory>(s: CpuState<M::V>)
    requires
        fixed_timing(fetch8::<M>(s).1),
        fetch8::<M>(s).1 != 0x10,
        fetch8::<M>(s).1 / 64 == 2,
    ensures
        bus_cycles(decoded(fetch8::<M>(s).1)) == op_result::<M>(s).1,
{
    reveal_with_fuel(bus_cycles, 10);
    let op = fetch8::<M>(s).1;
    if op == 128 {
    } else if op == 129 {
    } else if op == 130 {
    } else if op == 131 {
    } else if op == 132 {
    } else if op == 133 {
    } else if op == 134 {
    } else if op == 135 {
    } else if op == 136 {
    } else if op == 137 {
    } else if op == 138 {
    } else if op == 139 {
    } else if op == 140 {
    } else if op == 141 {
    } else if op == 142 {
    } else if op == 143 {
    } else if op == 144 {
    } else if op == 145 {
    } else if op == 146 {
    } else if op == 147 {
    } else if op == 148 {
    } else if op == 149 {
    } else if op == 150 {
    } else if op == 151 {
    } else if op == 152 {
    } else if op == 153 {
    } else if op == 154 {
    } else if op == 155 {
    } else if op == 156 {
    } else if op == 157 {
    } else if op == 158 {
    } else if op == 159 {
    } else if op == 160 {
    } else if op == 161 {
    } else if op == 162 {
    } else if op == 163 {
    } else if op == 164 {
    } else if op == 165 {
    } else if op == 166 {
    } else if op == 167 {
    } else if op == 168 {
    } else if op == 169 {
    } else if op == 170 {
    } else if op == 171 {
    } else if op == 172 {
    } else if op == 173 {
    } else if op == 174 {
    } else if op == 175 {
    } else if op == 176 {
    } else if op == 177 {
    } else if op == 178 {
    } else if op == 179 {
    } else if op == 180 {
    } else if op == 181 {
    } else if op == 182 {
    } else if op == 183 {
    } else if op == 184 {
    } else if op == 185 {
    } else if op == 186 {
    } else if op == 187 {
    } else if op == 188 {
    } else if op == 189 {
    } else if op == 190 {
    } else {
    }
}

/// The block of opcodes with x = 0, one opcode (or one row of eight) at a
/// time.
proof fn lemma_timing_x0<M: Memory>(s: CpuState<M::V>)
    requires
        fixed_timing(fetch8::<M>(s).1),
        fetch8::<M>(s).1 != 0x10,
        fetch8::<M>(s).1 / 64 == 0,
    ensures
        bus_cycles(decoded(fetch8::<M>(s).1)) == op_result::<M>(s).1,
{
    let op = fetch8::<M>(s).1;
    if op / 8 == 0 {
        lemma_timing_0_0::<M>(s);
    }
    if op / 8 == 1 {
        lemma_timing_0_1::<M>(s);
    }
    if op / 8 == 2 {
        lemma_timing_0_2::<M>(s);
    }
    if op / 8 == 3 {
        lemma_timing_0_3::<M>(s);
    }
    if op / 8 == 4 {
        lemma_timing_0_4::<M>(s);
    }
    if op / 8 == 5 {
        lemma_timing_0_5::<M>(s);
    }
    if op / 8 == 6 {
        lemma_timing_0_6::<M>(s);
    }
    if op / 8 == 7 {
        lemma_timing_0_7::<M>(s);
    }
}

/// The row of eight opcodes from 0x00, one at a time.
proof fn lemma_timing_0_0<M: Memory>(s: CpuState<M::V>)
    requires
        fixed_timing(fetch8::<M>(s).1),
        fetch8::<M>(s).1 != 0x10,
        fetch8::<M>(s).1 / 8 == 0,
    ensures
        bus_cycles(decoded(fetch8::<M>(s).1)) == op_result::<M>(s).1,
{
    reveal_with_fuel(bus_cycles, 10);
    let op = fetch8::<M>(s).1;
    if op == 0 {
    } else if op == 1 {
    } else if op == 2 {
    } else if op == 3 {
    } else if op == 4 {
    } else if op == 5 {
    } else if op == 6 {
    } else {
    }
}

/// The row of eight opcodes from 0x08, one at a time.
proof fn lemma_timing_0_1<M: Memory>(s: CpuState<M::V>)
    requires
        fixed_timing(fetch8::<M>(s).1),
        fetch8::<M>(s).1 != 0x10,
        fetch8::<M>(s).1 / 8 == 1,
    ensures
        bus_cycles(decoded(fetch8::<M>(s).1)) == op_result::<M>(s).1,
{
    reveal_with_fuel(bus_cycles, 10);
    let op = fetch8::<M>(s).1;
    if op == 8 {
    } else if op == 9 {
    } else if op == 10 {
    } else if op == 11 {
    } else if op == 12 {
    } else if op == 13 {
    } else if op == 14 {
    } else {
    }
}

/// The row of eight opcodes from 0x10, one at a time.
proof fn lemma_timing_0_2<M: Memory>(s: CpuState<M::V>)
    requires
        fixed_timing(fetch8::<M>(s).1),
        fetch8::<M>(s).1 != 0x10,
        fetch8::<M>(s).1 / 8 == 2,
    ensures
        bus_cycles(decoded(fetch8::<M>(s).1)) == op_result::<M>(s).1,
{
    reveal_with_fuel(bus_cycles, 10);
    let op = fetch8::<M>(s).1;
    if op == 16 {
    } else if op == 17 {
    } else if op == 18 {
    } else if op == 19 {
    } else if op == 20 {
    } else if op == 21 {
    } else if op == 22 {
    } else {
    }
}

/// The row of eight opcodes from 0x18, one at a time.
proof fn lemma_timing_0_3<M: Memory>(s: CpuState<M::V>)
    requires
        fixed_timing(fetch8::<M>(s).1),
        fetch8::<M>(s).1 != 0x10,
        fetch8::<M>(s).1 / 8 == 3,
    ensures
        bus_cycles(decoded(fetch8::<M>(s).1)) == op_result::<M>(s).1,
{
    reveal_with_fuel(bus_cycles, 10);
    let op = fetch8::<M>(s).1;
    if op == 24 {
    } else if op == 25 {
    } else if op == 26 {
    } else if op == 27 {
    } else if op == 28 {
    } else if op == 29 {
    } else if op == 30 {
    } else {
    }
}

/// The row of eight opcodes from 0x20, one at a time.
proof fn lemma_timing_0_4<M: Memory>(s: CpuState<M::V>)
    requires
        fixed_timing(fetch8::<M>(s).1),
        fetch8::<M>(s).1 != 0x10,
        fetch8::<M>(s).1 / 8 == 4,
    ensures
        bus_cycles(decoded(fetch8::<M>(s).1)) == op_result::<M>(s).1,
{
    reveal_with_fuel(bus_cycles, 10);
    let op = fetch8::<M>(s).1;
    if op == 32 {
    } else if op == 33 {
    } else if op == 34 {
    } else if op == 35 {
    } else if op == 36 {
    } else if op == 37 {
    } else if op == 38 {
    } else {
    }
}

/// The row of eight opcodes from 0x28, one at a time.
proof fn lemma_timing_0_5<M: Memory>(s: CpuState<M::V>)
    requires
        fixed_timing(fetch8::<M>(s).1),
        fetch8::<M>(s).1 != 0x10,
        fetch8::<M>(s).1 / 8 == 5,
    ensures
        bus_cycles(decoded(fetch8::<M>(s).1)) == op_result::<M>(s).1,
{
    reveal_with_fuel(bus_cycles, 10);
    let op = fetch8::<M>(s).1;
    if op == 40 {
    } else if op == 41 {
    } else if op == 42 {
    } else if op == 43 {
    } else if op == 44 {
    } else if op == 45 {
    } else if op == 46 {
    } else {
    }
}

/// The row of eight opcodes from 0x30, one at a time.
proof fn lemma_timing_0_6<M: Memory>(s: CpuState<M::V>)
    requires
        fixed_timing(fetch8::<M>(s).1),
        fetch8::<M>(s).1 != 0x10,
        fetch8::<M>(s).1 / 8 == 6,
    ensures
        bus_cycles(decoded(fetch8::<M>(s).1)) == op_result::<M>(s).1,
{
    reveal_with_fuel(bus_cycles, 10);
    let op = fetch8::<M>(s).1;
    if op == 48 {
    } else if op == 49 {
    } else if op == 50 {
    } else if op == 51 {
    } else if op == 52 {
    } else if op == 53 {
    } else if op == 54 {
    } else {
    }
}

/// The row of eight opcodes from 0x38, one at a time.
proof fn lemma_timing_0_7<M: Memory>(s: CpuState<M::V>)
    requires
        fixed_timing(fetch8::<M>(s).1),
        fetch8::<M>(s).1 != 0x10,
        fetch8::<M>(s).1 / 8 == 7,
    ensures
        bus_cycles(decoded(fetch8::<M>(s).1)) == op_result::<M>(s).1,
{
    reveal_with_fuel(bus_cycles, 10);
    let op = fetch8::<M>(s).1;
    if op == 56 {
    } else if op == 57 {
    } else if op == 58 {
    } else if op == 59 {
    } else if op == 60 {
    } else if op == 61 {
    } else if op == 62 {
    } else {
    }
}

/// The block of opcodes with x = 3, one opcode (or one row of eight) at a
/// time.
proof fn lemma_timing_x3<M: Memory>(s: CpuState<M::V>)
    requires
        fixed_timing(fetch8::<M>(s).1),
        fetch8::<M>(s).1 != 0x10,
        fetch8::<M>(s).1 / 64 == 3,
    ensures
        bus_cycles(decoded(fetch8::<M>(s).1)) == op_result::<M>(s).1,
{
    let op = fetch8::<M>(s).1;
    if op / 8 == 24 {
        lemma_timing_3_0::<M>(s);
    }
    if op / 8 == 25 {
        lemma_timing_3_1::<M>(s);
    }
    if op / 8 == 26 {
        lemma_timing_3_2::<M>(s);
    }
    if op / 8 == 27 {
        lemma_timing_3_3::<M>(s);
    }
    if op / 8 == 28 {
        lemma_timing_3_4::<M>(s);
    }
    if op / 8 == 29 {
        lemma_timing_3_5::<M>(s);
    }
    if op / 8 == 30 {
        lemma_timing_3_6::<M>(s);
    }
    if op / 8 == 31 {
        lemma_timing_3_7::<M>(s);
    }
}

/// The row of eight opcodes from 0xC0, one at a time.
proof fn lemma_timing_3_0<M: Memory>(s: CpuState<M::V>)
    requires
        fixed_timing(fetch8::<M>(s).1),
        fetch8::<M>(s).1 != 0x10,
        fetch8::<M>(s).1 / 8 == 24,
    ensures
        bus_cycles(decoded(fetch8::<M>(s).1)) == op_result::<M>(s).1,
{
    reveal_with_fuel(bus_cycles, 10);
    let op = fetch8::<M>(s).1;
    if op == 192 {
    } else if op == 193 {
    } else if op == 194 {
    } else if op == 195 {
    } else if op == 196 {
    } else if op == 197 {
    } else if op == 198 {
    } else {
    }
}

/// The row of eight opcodes from 0xC8, one at a time.
proof fn lemma_timing_3_1<M: Memory>(s: CpuState<M::V>)
    requires
        fixed_timing(fetch8::<M>(s).1),
        fetch8::<M>(s).1 != 0x10,
        fetch8::<M>(s).1 / 8 == 25,
    ensures
        bus_cycles(decoded(fetch8::<M>(s).1)) == op_result::<M>(s).1,
{
    reveal_with_fuel(bus_cycles, 10);
    let op = fetch8::<M>(s).1;
    if op == 200 {
    } else if op == 201 {
    } else if op == 202 {
    } else if op == 203 {
    } else if op == 204 {
    } else if op == 205 {
    } else if op == 206 {
    } else {
    }
}

/// The row of eight opcodes from 0xD0, one at a time.
proof fn lemma_timing_3_2<M: Memory>(s: CpuState<M::V>)
    requires
        fixed_timing(fetch8::<M>(s).1),
        fetch8::<M>(s).1 != 0x10,
        fetch8::<M>(s).1 / 8 == 26,
    ensures
        bus_cycles(decoded(fetch8::<M>(s).1)) == op_result::<M>(s).1,
{
    reveal_with_fuel(bus_cycles, 10);
    let op = fetch8::<M>(s).1;
    if op == 208 {
    } else if op == 209 {
    } else if op == 210 {
    } else if op == 211 {
    } else if op == 212 {
    } else if op == 213 {
    } else if op == 214 {
    } else {
    }
}

/// The row of eight opcodes from 0xD8, one at a time.
proof fn lemma_timing_3_3<M: Memory>(s: CpuState<M::V>)
    requires
        fixed_timing(fetch8::<M>(s).1),
        fetch8::<M>(s).1 != 0x10,
        fetch8::<M>(s).1 / 8 == 27,
    ensures
        bus_cycles(decoded(fetch8::<M>(s).1)) == op_result::<M>(s).1,
{
    reveal_with_fuel(bus_cycles, 10);
    let op = fetch8::<M>(s).1;
    if op == 216 {
    } else if op == 217 {
    } else if op == 218 {
    } else if op == 219 {
    } else if op == 220 {
    } else if op == 221 {
    } else if op == 222 {
    } else {
    }
}

/// The row of eight opcodes from 0xE0, one at a time.
proof fn lemma_timing_3_4<M: Memory>(s: CpuState<M::V>)
    requires
        fixed_timing(fetch8::<M>(s).1),
        fetch8::<M>(s).1 != 0x10,
        fetch8::<M>(s).1 / 8 == 28,
    ensures
        bus_cycles(decoded(fetch8::<M>(s).1)) == op_result::<M>(s).1,
{
    reveal_with_fuel(bus_cycles, 10);
    let op = fetch8::<M>(s).1;
    if op == 224 {
    } else if op == 225 {
    } else if op == 226 {
    } else if op == 227 {
    } else if op == 228 {
    } else if op == 229 {
    } else if op == 230 {
    } else {
    }
}

/// The row of eight opcodes from 0xE8, one at a time.
proof fn lemma_timing_3_5<M: Memory>(s: CpuState<M::V>)
    requires
        fixed_timing(fetch8::<M>(s).1),
        fetch8::<M>(s).1 != 0x10,
        fetch8::<M>(s).1 / 8 == 29,
    ensures
        bus_cycles(decoded(fetch8::<M>(s).1)) == op_result::<M>(s).1,
{
    reveal_with_fuel(bus_cycles, 10);
    let op = fetch8::<M>(s).1;
    if op == 232 {
    } else if op == 233 {
    } else if op == 234 {
    } else if op == 235 {
    } else if op == 236 {
    } else if op == 237 {
    } else if op == 238 {
    } else {
    }
}

/// The row of eight opcodes from 0xF0, one at a time.
proof fn lemma_timing_3_6<M: Memory>(s: CpuState<M::V>)
    requires
        fixed_timing(fetch8::<M>(s).1),
        fetch8::<M>(s).1 != 0x10,
        fetch8::<M>(s).1 / 8 == 30,
    ensures
        bus_cycles(decoded(fetch8::<M>(s).1)) == op_result::<M>(s).1,
{
    reveal_with_fuel(bus_cycles, 10);
    let op = fetch8::<M>(s).1;
    if op == 240 {
    } else if op == 241 {
    } else if op == 242 {
    } else if op == 243 {
    } else if op == 244 {
    } else if op == 245 {
    } else if op == 246 {
    } else {
    }
}

/// The row of eight opcodes from 0xF8, one at a time.
proof fn lemma_timing_3_7<M: Memory>(s: CpuState<M::V>)
    requires
        fixed_timing(fetch8::<M>(s).1),
        fetch8::<M>(s).1 != 0x10,
        fetch8::<M>(s).1 / 8 == 31,
    ensures
        bus_cycles(decoded(fetch8::<M>(s).1)) == op_result::<M>(s).1,
{
    reveal_with_fuel(bus_cycles, 10);
    let op = fetch8::<M>(s).1;
    if op == 248 {
    } else if op == 249 {
    } else if op == 250 {
    } else if op == 251 {
    } else if op == 252 {
    } else if op == 253 {
    } else if op == 254 {
    } else {
    }
}

/// The two CPU models agree on timing: for every opcode of fixed length,
/// the micro-op program the cycle-accurate core decodes (ending in the next
/// fetch, which overlaps this instruction's last cycle) takes as many
/// M-cycles as the instruction-level interpreter charges. STOP (0x10) is
/// left out: the interpreter takes it as one byte in one M-cycle, while the
/// core also reads the byte after it.
pub proof fn lemma_timing_agrees<M: Memory>(s: CpuState<M::V>)
    requires
        fixed_timing(fetch8::<M>(s).1),
        fetch8::<M>(s).1 != 0x10,
    ensures
        bus_cycles(decoded(fetch8::<M>(s).1)) == op_result::<M>(s).1,
{
    let op = fetch8::<M>(s).1;
    if op / 64 == 0 {
        lemma_timing_x0::<M>(s);
    } else if op / 64 == 1 {
        lemma_timing_x1::<M>(s);
    } else if op / 64 == 2 {
        lemma_timing_x2::<M>(s);
    } else {
        lemma_timing_x3::<M>(s);
    }
}

} // verus!
