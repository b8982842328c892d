//! Inspectable state rendered as text: the hex memory dump and the
//! disassembler.  These read RAM and cartridge only; the PPU register
//! window shows as zeroes so that looking at the machine never disturbs
//! it.

use vstd::prelude::*;
use vstd::string::StringExecFns;

use crate::bus::{Bus, BusView};
use crate::cartridge::{spec_mapper_cpu_read, Mapper0View};
use crate::hardware::Hardware;
use crate::instructions::pc_len;
use crate::memory::spec_ram_read;
use crate::opcode::{get_instruction, spec_decode, Instruction};

verus! {

/// One hex digit.
pub open spec fn hex_digit(n: u8) -> char {
    if n == 0 {
        '0'
    } else if n == 1 {
        '1'
    } else if n == 2 {
        '2'
    } else if n == 3 {
        '3'
    } else if n == 4 {
        '4'
    } else if n == 5 {
        '5'
    } else if n == 6 {
        '6'
    } else if n == 7 {
        '7'
    } else if n == 8 {
        '8'
    } else if n == 9 {
        '9'
    } else if n == 10 {
        'A'
    } else if n == 11 {
        'B'
    } else if n == 12 {
        'C'
    } else if n == 13 {
        'D'
    } else if n == 14 {
        'E'
    } else {
        'F'
    }
}

/// A byte as two hex digits.
pub open spec fn spec_hex_byte(b: u8) -> Seq<char> {
    seq![hex_digit(b / 16), hex_digit(b % 16)]
}

/// A word as four hex digits.
pub open spec fn spec_hex_word(w: u16) -> Seq<char> {
    seq![
        hex_digit((w / 4096) as u8),
        hex_digit(((w / 256) % 16) as u8),
        hex_digit(((w / 16) % 16) as u8),
        hex_digit((w % 16) as u8),
    ]
}

/// One hex digit as a string slice.
fn hex_digit_str(n: u8) -> (r: &'static str)
    requires
        n < 16,
    ensures
        r@ == seq![hex_digit(n)],
{
    let r = match n {
        0 => "0",
        1 => "1",
        2 => "2",
        3 => "3",
        4 => "4",
        5 => "5",
        6 => "6",
        7 => "7",
        8 => "8",
        9 => "9",
        10 => "A",
        11 => "B",
        12 => "C",
        13 => "D",
        14 => "E",
        _ => "F",
    };
    proof {
        reveal_strlit("0");
        reveal_strlit("1");
        reveal_strlit("2");
        reveal_strlit("3");
        reveal_strlit("4");
        reveal_strlit("5");
        reveal_strlit("6");
        reveal_strlit("7");
        reveal_strlit("8");
        reveal_strlit("9");
        reveal_strlit("A");
        reveal_strlit("B");
        reveal_strlit("C");
        reveal_strlit("D");
        reveal_strlit("E");
        reveal_strlit("F");
        assert(r@ =~= seq![hex_digit(n)]);
    }
    r
}

/// Append a byte as two hex digits.
fn push_hex_byte(s: &mut String, b: u8)
    ensures
        final(s)@ == old(s)@ + spec_hex_byte(b),
{
    s.append(hex_digit_str(b / 16));
    s.append(hex_digit_str(b % 16));
    proof {
        assert(s@ =~= old(s)@ + spec_hex_byte(b));
    }
}

/// Append a word as four hex digits.
fn push_hex_word(s: &mut String, w: u16)
    ensures
        final(s)@ == old(s)@ + spec_hex_word(w),
{
    s.append(hex_digit_str((w / 4096) as u8));
    s.append(hex_digit_str(((w / 256) % 16) as u8));
    s.append(hex_digit_str(((w / 16) % 16) as u8));
    s.append(hex_digit_str((w % 16) as u8));
    proof {
        assert(s@ =~= old(s)@ + spec_hex_word(w));
    }
}

/// What a silent read returns: RAM and cartridge bytes; the PPU and
/// input register windows show as zero.
pub open spec fn spec_bus_peek(b: BusView, address: u16) -> u8 {
    if address < 0x2000 {
        spec_ram_read(b.memory, address)
    } else if address < 0x4020 {
        0
    } else {
        match spec_mapper_cpu_read(b.cartridge.mapper, address) {
            Some(v) => v,
            None => 0,
        }
    }
}

/// The byte a dump shows for an address: the cartridge's, or zero.
pub open spec fn spec_dump_byte(m: Mapper0View, i: int) -> u8 {
    match spec_mapper_cpu_read(m, i as u16) {
        Some(v) => v,
        None => 0,
    }
}

/// One dump entry: at each 32-byte boundary a fresh line with the
/// address, then the byte as two hex digits and a space.  The first
/// entry of a dump opens no new line.
pub open spec fn spec_dump_entry(m: Mapper0View, start: int, j: int) -> Seq<char> {
    let i = start + j;
    let prefix = if i % 32 == 0 {
        (if j != 0 {
            seq!['\n']
        } else {
            Seq::<char>::empty()
        }) + spec_hex_word(i as u16) + seq![':', ' ']
    } else {
        Seq::<char>::empty()
    };
    prefix + spec_hex_byte(spec_dump_byte(m, i)) + seq![' ']
}

/// The dump of `n` cartridge bytes starting at `start`.
pub open spec fn spec_dump_text(m: Mapper0View, start: int, n: int) -> Seq<char>
    decreases n,
{
    if n <= 0 {
        Seq::<char>::empty()
    } else {
        spec_dump_text(m, start, n - 1) + spec_dump_entry(m, start, n - 1)
    }
}

/// How many bytes the instruction at an address occupies in a listing:
/// its mode's length, or one for an undocumented byte.
pub open spec fn spec_disasm_size(b: BusView, address: u16) -> u8 {
    match spec_decode(spec_bus_peek(b, address)) {
        None => 1,
        Some(i) => pc_len(i.address_mode) as u8,
    }
}

/// One disassembled line: the mnemonic, then the operand bytes as one
/// hex literal (the word operand printed high byte first); an
/// undocumented byte shows as question marks.
pub open spec fn spec_disasm_line(b: BusView, address: u16) -> Seq<char> {
    match spec_decode(spec_bus_peek(b, address)) {
        None => "???"@,
        Some(i) => {
            let text = spec_mnemonic_text(i.name);
            let n = pc_len(i.address_mode);
            if n == 1 {
                text
            } else if n == 2 {
                text + " $"@ + spec_hex_byte(
                    spec_bus_peek(b, vstd::wrapping::u16_specs::wrapping_add(address, 1)),
                )
            } else {
                text + " $"@ + spec_hex_byte(
                    spec_bus_peek(b, vstd::wrapping::u16_specs::wrapping_add(address, 2)),
                ) + spec_hex_byte(
                    spec_bus_peek(b, vstd::wrapping::u16_specs::wrapping_add(address, 1)),
                )
            }
        },
    }
}

/// The address of the `k`-th line of a listing that starts at `pc`.
pub open spec fn spec_disasm_addr(b: BusView, pc: u16, k: nat) -> u16
    decreases k,
{
    if k == 0 {
        pc
    } else {
        let prev = spec_disasm_addr(b, pc, (k - 1) as nat);
        vstd::wrapping::u16_specs::wrapping_add(prev, spec_disasm_size(b, prev) as u16)
    }
}

/// The text of one mnemonic.
pub open spec fn spec_mnemonic_text(mn: crate::instructions::Mnemonic) -> Seq<char> {
    mnemonic_literal(mn)@
}

/// The string literal of one mnemonic.
pub open spec fn mnemonic_literal(mn: crate::instructions::Mnemonic) -> &'static str {
    match mn {
        crate::instructions::Mnemonic::ADC => "ADC",
        crate::instructions::Mnemonic::AND => "AND",
        crate::instructions::Mnemonic::ASL => "ASL",
        crate::instructions::Mnemonic::BCC => "BCC",
        crate::instructions::Mnemonic::BCS => "BCS",
        crate::instructions::Mnemonic::BEQ => "BEQ",
        crate::instructions::Mnemonic::BIT => "BIT",
        crate::instructions::Mnemonic::BMI => "BMI",
        crate::instructions::Mnemonic::BNE => "BNE",
        crate::instructions::Mnemonic::BPL => "BPL",
        crate::instructions::Mnemonic::BRK => "BRK",
        crate::instructions::Mnemonic::BVC => "BVC",
        crate::instructions::Mnemonic::BVS => "BVS",
        crate::instructions::Mnemonic::CLC => "CLC",
        crate::instructions::Mnemonic::CLD => "CLD",
        crate::instructions::Mnemonic::CLI => "CLI",
        crate::instructions::Mnemonic::CLV => "CLV",
        crate::instructions::Mnemonic::CMP => "CMP",
        crate::instructions::Mnemonic::CPX => "CPX",
        crate::instructions::Mnemonic::CPY => "CPY",
        crate::instructions::Mnemonic::DEC => "DEC",
        crate::instructions::Mnemonic::DEX => "DEX",
        crate::instructions::Mnemonic::DEY => "DEY",
        crate::instructions::Mnemonic::EOR => "EOR",
        crate::instructions::Mnemonic::INC => "INC",
        crate::instructions::Mnemonic::INX => "INX",
        crate::instructions::Mnemonic::INY => "INY",
        crate::instructions::Mnemonic::JMP => "JMP",
        crate::instructions::Mnemonic::JSR => "JSR",
        crate::instructions::Mnemonic::LDA => "LDA",
        crate::instructions::Mnemonic::LDX => "LDX",
        crate::instructions::Mnemonic::LDY => "LDY",
        crate::instructions::Mnemonic::LSR => "LSR",
        crate::instructions::Mnemonic::NOP => "NOP",
        crate::instructions::Mnemonic::ORA => "ORA",
        crate::instructions::Mnemonic::PHA => "PHA",
        crate::instructions::Mnemonic::PHP => "PHP",
        crate::instructions::Mnemonic::PLA => "PLA",
        crate::instructions::Mnemonic::PLP => "PLP",
        crate::instructions::Mnemonic::ROL => "ROL",
        crate::instructions::Mnemonic::ROR => "ROR",
        crate::instructions::Mnemonic::RTI => "RTI",
        crate::instructions::Mnemonic::RTS => "RTS",
        crate::instructions::Mnemonic::SBC => "SBC",
        crate::instructions::Mnemonic::SEC => "SEC",
        crate::instructions::Mnemonic::SED => "SED",
        crate::instructions::Mnemonic::SEI => "SEI",
        crate::instructions::Mnemonic::STA => "STA",
        crate::instructions::Mnemonic::STX => "STX",
        crate::instructions::Mnemonic::STY => "STY",
        crate::instructions::Mnemonic::TAX => "TAX",
        crate::instructions::Mnemonic::TAY => "TAY",
        crate::instructions::Mnemonic::TSX => "TSX",
        crate::instructions::Mnemonic::TXA => "TXA",
        crate::instructions::Mnemonic::TXS => "TXS",
        crate::instructions::Mnemonic::TYA => "TYA",
    }
}

/// Resolve the text of one mnemonic.
fn mnemonic_text(mn: crate::instructions::Mnemonic) -> (r: &'static str)
    ensures
        r@ == spec_mnemonic_text(mn),
{
    match mn {
        crate::instructions::Mnemonic::ADC => "ADC",
        crate::instructions::Mnemonic::AND => "AND",
        crate::instructions::Mnemonic::ASL => "ASL",
        crate::instructions::Mnemonic::BCC => "BCC",
        crate::instructions::Mnemonic::BCS => "BCS",
        crate::instructions::Mnemonic::BEQ => "BEQ",
        crate::instructions::Mnemonic::BIT => "BIT",
        crate::instructions::Mnemonic::BMI => "BMI",
        crate::instructions::Mnemonic::BNE => "BNE",
        crate::instructions::Mnemonic::BPL => "BPL",
        crate::instructions::Mnemonic::BRK => "BRK",
        crate::instructions::Mnemonic::BVC => "BVC",
        crate::instructions::Mnemonic::BVS => "BVS",
        crate::instructions::Mnemonic::CLC => "CLC",
        crate::instructions::Mnemonic::CLD => "CLD",
        crate::instructions::Mnemonic::CLI => "CLI",
        crate::instructions::Mnemonic::CLV => "CLV",
        crate::instructions::Mnemonic::CMP => "CMP",
        crate::instructions::Mnemonic::CPX => "CPX",
        crate::instructions::Mnemonic::CPY => "CPY",
        crate::instructions::Mnemonic::DEC => "DEC",
        crate::instructions::Mnemonic::DEX => "DEX",
        crate::instructions::Mnemonic::DEY => "DEY",
        crate::instructions::Mnemonic::EOR => "EOR",
        crate::instructions::Mnemonic::INC => "INC",
        crate::instructions::Mnemonic::INX => "INX",
        crate::instructions::Mnemonic::INY => "INY",
        crate::instructions::Mnemonic::JMP => "JMP",
        crate::instructions::Mnemonic::JSR => "JSR",
        crate::instructions::Mnemonic::LDA => "LDA",
        crate::instructions::Mnemonic::LDX => "LDX",
        crate::instructions::Mnemonic::LDY => "LDY",
        crate::instructions::Mnemonic::LSR => "LSR",
        crate::instructions::Mnemonic::NOP => "NOP",
        crate::instructions::Mnemonic::ORA => "ORA",
        crate::instructions::Mnemonic::PHA => "PHA",
        crate::instructions::Mnemonic::PHP => "PHP",
        crate::instructions::Mnemonic::PLA => "PLA",
        crate::instructions::Mnemonic::PLP => "PLP",
        crate::instructions::Mnemonic::ROL => "ROL",
        crate::instructions::Mnemonic::ROR => "ROR",
        crate::instructions::Mnemonic::RTI => "RTI",
        crate::instructions::Mnemonic::RTS => "RTS",
        crate::instructions::Mnemonic::SBC => "SBC",
        crate::instructions::Mnemonic::SEC => "SEC",
        crate::instructions::Mnemonic::SED => "SED",
        crate::instructions::Mnemonic::SEI => "SEI",
        crate::instructions::Mnemonic::STA => "STA",
        crate::instructions::Mnemonic::STX => "STX",
        crate::instructions::Mnemonic::STY => "STY",
        crate::instructions::Mnemonic::TAX => "TAX",
        crate::instructions::Mnemonic::TAY => "TAY",
        crate::instructions::Mnemonic::TSX => "TSX",
        crate::instructions::Mnemonic::TXA => "TXA",
        crate::instructions::Mnemonic::TXS => "TXS",
        crate::instructions::Mnemonic::TYA => "TYA",
    }
}

impl Bus {
    /// Read a byte without side effects, for the inspection views.
    pub fn peek(&self, address: u16) -> (r: u8)
        requires
            self.wf(),
        ensures
            r == spec_bus_peek(self@, address),
    {
        if address < 0x2000 {
            self.memory.silent_read(address)
        } else if address < 0x4020 {
            0
        } else {
            match self.cartridge.mapper.cpu_read(address) {
                Some(v) => v,
                None => 0,
            }
        }
    }

    /// One disassembled line for the instruction at an address, and how
    /// many bytes it occupies.
    pub fn create_disassembled_line(&self, address: u16) -> (r: (String, u8))
        requires
            self.wf(),
        ensures
            r.0@ == spec_disasm_line(self@, address),
            r.1 == spec_disasm_size(self@, address),
    {
        let opcode = self.peek(address);
        match get_instruction(opcode) {
            None => {
                proof {
                    reveal_strlit("???");
                }
                (String::from_str("???"), 1)
            },
            Some(Instruction { name, address_mode }) => {
                let size = crate::instructions::instruction_len(address_mode);
                let mut line = String::from_str(mnemonic_text(name));
                if size == 2 {
                    line.append(" $");
                    push_hex_byte(&mut line, self.peek(address.wrapping_add(1)));
                } else if size == 3 {
                    line.append(" $");
                    push_hex_byte(&mut line, self.peek(address.wrapping_add(2)));
                    push_hex_byte(&mut line, self.peek(address.wrapping_add(1)));
                }
                proof {
                    reveal_strlit(" $");
                    assert(line@ =~= spec_disasm_line(self@, address));
                }
                (line, size)
            },
        }
    }
}

impl Hardware {
    /// A hex dump of `size` bytes of the cartridge windows starting at
    /// `start`, 32 bytes per line, each line prefixed with its address.
    pub fn get_memory_dump(&self, start: usize, size: usize) -> (r: String)
        requires
            self.wf(),
            start + size <= 0x10000,
        ensures
            r@ == spec_dump_text(self@.bus.cartridge.mapper, start as int, size as int),
    {
        let mut dumped = String::from_str("");
        proof {
            reveal_strlit("");
            assert(dumped@ =~= Seq::<char>::empty());
        }
        let mut j: usize = 0;
        while j < size
            invariant
                self.wf(),
                start + size <= 0x10000,
                j <= size,
                dumped@ == spec_dump_text(self@.bus.cartridge.mapper, start as int, j as int),
            decreases size - j,
        {
            let i: usize = start + j;
            if i % 32 == 0 {
                if j != 0 {
                    proof {
                        reveal_strlit("\n");
                    }
                    dumped.append("\n");
                }
                push_hex_word(&mut dumped, i as u16);
                proof {
                    reveal_strlit(": ");
                }
                dumped.append(": ");
            }
            let byte = match self.bus.cartridge.mapper.cpu_read(i as u16) {
                Some(v) => v,
                None => 0,
            };
            push_hex_byte(&mut dumped, byte);
            proof {
                reveal_strlit(" ");
            }
            dumped.append(" ");
            j = j + 1;
            proof {
                assert(dumped@ =~= spec_dump_text(self@.bus.cartridge.mapper, start as int, j as int));
            }
        }
        dumped
    }

    /// `count` disassembled lines starting at the program counter, and
    /// the index of the current one among them.
    pub fn get_assembly(&self, count: u16) -> (r: (Vec<String>, u16))
        requires
            self.wf(),
        ensures
            r.0@.len() == count,
            r.1 == 0,
            forall|k: int|
                0 <= k < count ==> #[trigger] r.0@[k]@ == spec_disasm_line(
                    self@.bus,
                    spec_disasm_addr(self@.bus, self@.bus.cpu.pc, k as nat),
                ),
    {
        let pc = self.bus.cpu.get_counter();
        let mut listing: Vec<String> = Vec::new();
        let mut line: u16 = pc;
        let mut k: u16 = 0;
        while k < count
            invariant
                self.wf(),
                k <= count,
                listing@.len() == k,
                line == spec_disasm_addr(self@.bus, pc, k as nat),
                pc == self@.bus.cpu.pc,
                forall|j: int|
                    0 <= j < k ==> #[trigger] listing@[j]@ == spec_disasm_line(
                        self@.bus,
                        spec_disasm_addr(self@.bus, pc, j as nat),
                    ),
            decreases count - k,
        {
            let entry = self.bus.create_disassembled_line(line);
            listing.push(entry.0);
            line = line.wrapping_add(entry.1 as u16);
            k = k + 1;
        }
        (listing, 0)
    }
}

} // verus!
