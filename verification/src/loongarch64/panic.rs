//! The text of the loongarch64 kernel panic report: addresses in
//! hexadecimal, the panic location, and the register state.
use vstd::prelude::*;
use vstd::string::StringSliceAdditionalSpecFns;

verus! {

/// The lowercase hexadecimal digit of `d` (below 16), as an ASCII byte.
pub open spec fn hex_digit(d: nat) -> u8 {
    if d < 10 { (48 + d) as u8 } else { (87 + d) as u8 }
}

/// The hexadecimal digits of `v`, most significant first, without leading
/// zeros (none at all for zero).
pub open spec fn hex_digits(v: nat) -> Seq<u8>
    decreases v,
{
    if v == 0 {
        Seq::empty()
    } else {
        hex_digits(v / 16).push(hex_digit(v % 16))
    }
}

/// `value` as the panic console prints it: `0x` and its lowercase
/// hexadecimal digits, `0x0` for zero.
pub open spec fn hex_text(value: u64) -> Seq<u8> {
    seq![48u8, 120u8] + if value == 0 { seq![48u8] } else { hex_digits(value as nat) }
}

/// Sixteen to the `n`.
pub open spec fn pow16(n: nat) -> nat
    decreases n,
{
    if n == 0 { 1 } else { 16 * pow16((n - 1) as nat) }
}

proof fn lemma_pow16_16()
    ensures
        pow16(16) == 0x1_0000_0000_0000_0000nat,
{
    reveal_with_fuel(pow16, 17);
}

/// `value` as `0x` and its lowercase hexadecimal digits, `0x0` for zero.
pub fn format_hex(value: u64) -> (r: Vec<u8>)
    ensures
        r@ == hex_text(value),
{
    let mut buffer = [0u8; 16];
    let mut i: usize = 16;
    let mut current_value = value;
    if current_value == 0 {
        i = 15;
        buffer[15] = 48u8;
    } else {
        proof { lemma_pow16_16(); }
        while current_value > 0
            invariant
                i <= 16,
                current_value < pow16(i as nat),
                hex_digits(value as nat) == hex_digits(current_value as nat) + buffer@.subrange(i as int, 16),
            decreases current_value,
        {
            if i == 0 {
                assert(pow16(0) == 1);
            }
            let digit = (current_value & 0xF) as u8;
            assert(current_value & 0xFu64 == current_value % 16 && current_value >> 4u64 == current_value / 16)
                by (bit_vector);
            let ghost old_suffix = buffer@.subrange(i as int, 16);
            i = i - 1;
            buffer[i] = if digit < 10 { 48u8 + digit } else { 87u8 + digit };
            assert(buffer@.subrange(i as int, 16) =~= seq![hex_digit((current_value % 16) as nat)] + old_suffix);
            assert(hex_digits(current_value as nat) == hex_digits((current_value / 16) as nat).push(
                hex_digit((current_value % 16) as nat)));
            assert(hex_digits((current_value / 16) as nat) + buffer@.subrange(i as int, 16)
                =~= hex_digits((current_value / 16) as nat).push(hex_digit((current_value % 16) as nat)) + old_suffix);
            assert(current_value / 16 < pow16(i as nat)) by (nonlinear_arith)
                requires
                    current_value < pow16((i + 1) as nat),
                    pow16((i + 1) as nat) == 16 * pow16(i as nat);
            current_value = current_value >> 4u64;
        }
        assert(hex_digits(0) == Seq::<u8>::empty());
        assert(buffer@.subrange(i as int, 16) =~= hex_digits(value as nat));
    }
    let mut out: Vec<u8> = Vec::new();
    out.push(48u8);
    out.push(120u8);
    let mut j: usize = i;
    while j < 16
        invariant
            i <= j <= 16,
            out@ == seq![48u8, 120u8] + buffer@.subrange(i as int, j as int),
        decreases 16 - j,
    {
        out.push(buffer[j]);
        j = j + 1;
        assert(out@ =~= seq![48u8, 120u8] + buffer@.subrange(i as int, j as int));
    }
    assert(value == 0 ==> buffer@.subrange(i as int, 16) =~= seq![48u8]);
    out
}

/// The decimal digits of `v` as ASCII bytes, most significant first,
/// without leading zeros (`0` for zero).
pub open spec fn decimal_text(v: nat) -> Seq<u8>
    decreases v,
{
    if v < 10 {
        seq![(48 + v) as u8]
    } else {
        decimal_text(v / 10).push((48 + v % 10) as u8)
    }
}

/// Calls `itoa::Buffer::format` on `value` and returns the bytes of the
/// text it prints. Claimed of it, as the crate documents: the text is
/// `value` in decimal, the same as the standard formatting gives, with no
/// sign and no leading zeros.
#[verifier::external_body]
fn format_decimal(value: u64) -> (r: Vec<u8>)
    ensures
        r@ == decimal_text(value as nat),
{
    let mut buffer = itoa::Buffer::new();
    buffer.format(value).as_bytes().to_vec()
}

/// Appends the bytes of `s` to `out`.
fn append_str(out: &mut Vec<u8>, s: &str)
    ensures
        final(out)@ == old(out)@ + s.spec_bytes(),
{
    let b = s.as_bytes();
    let mut i: usize = 0;
    while i < b.len()
        invariant
            b@ == s.spec_bytes(),
            i <= b@.len(),
            out@ == old(out)@ + b@.subrange(0, i as int),
        decreases b@.len() - i,
    {
        out.push(b[i]);
        i = i + 1;
        assert(out@ =~= old(out)@ + b@.subrange(0, i as int));
    }
    assert(b@.subrange(0, b@.len() as int) =~= b@);
}

/// Appends all of `bytes` to `out`.
fn append_bytes(out: &mut Vec<u8>, bytes: &Vec<u8>)
    ensures
        final(out)@ == old(out)@ + bytes@,
{
    let mut i: usize = 0;
    while i < bytes.len()
        invariant
            i <= bytes@.len(),
            out@ == old(out)@ + bytes@.subrange(0, i as int),
        decreases bytes@.len() - i,
    {
        out.push(bytes[i]);
        i = i + 1;
        assert(out@ =~= old(out)@ + bytes@.subrange(0, i as int));
    }
    assert(bytes@.subrange(0, bytes@.len() as int) =~= bytes@);
}

/// The line naming where the kernel panicked: `at <file>:<line>`.
pub open spec fn location_text(file: Seq<u8>, line: u32) -> Seq<u8> {
    seq![97u8, 116u8, 32u8] + file + seq![58u8] + decimal_text(line as nat)
}

/// The line naming where the kernel panicked: `at <file>:<line>`, the line
/// number in decimal.
pub fn panic_location(file: &str, line: u32) -> (r: Vec<u8>)
    ensures
        r@ == location_text(file.spec_bytes(), line),
{
    let mut out: Vec<u8> = Vec::new();
    out.push(97u8);
    out.push(116u8);
    out.push(32u8);
    append_str(&mut out, file);
    out.push(58u8);
    let digits = format_decimal(line as u64);
    append_bytes(&mut out, &digits);
    assert(out@ =~= location_text(file.spec_bytes(), line));
    out
}

/// The registers the panic report shows.
#[derive(Debug, Copy, Clone, PartialEq, Eq)]
pub struct PanicRegisters {
    pub pc: u64,
    /// r3
    pub sp: u64,
    /// r1
    pub ra: u64,
    pub cause: u64,
    pub status: u64,
    pub badvaddr: u64,
}

/// One line of the register report: two spaces, the label, the value in
/// hexadecimal, a newline.
pub open spec fn register_line(label: Seq<u8>, value: u64) -> Seq<u8> {
    label + hex_text(value) + seq![10u8]
}

fn append_register_line(out: &mut Vec<u8>, label: &str, value: u64)
    ensures
        final(out)@ == old(out)@ + register_line(label.spec_bytes(), value),
{
    append_str(out, label);
    let hex = format_hex(value);
    append_bytes(out, &hex);
    out.push(10u8);
    assert(final(out)@ =~= old(out)@ + register_line(label.spec_bytes(), value));
}

/// The register block of the panic report.
pub open spec fn register_state_text(regs: PanicRegisters) -> Seq<u8> {
    "LoongArch Register State:".spec_bytes() + seq![10u8]
        + register_line("  PC: ".spec_bytes(), regs.pc)
        + register_line("  SP (R3): ".spec_bytes(), regs.sp)
        + register_line("  RA (R1): ".spec_bytes(), regs.ra)
        + register_line("  Cause: ".spec_bytes(), regs.cause)
        + register_line("  Status: ".spec_bytes(), regs.status)
        + register_line("  BadVAddr: ".spec_bytes(), regs.badvaddr)
        + "  (Other GPRs not shown)".spec_bytes() + seq![10u8]
}

/// The register block of the panic report: a heading, then one line per
/// register with its value in hexadecimal.
pub fn register_state_report(regs: &PanicRegisters) -> (r: Vec<u8>)
    ensures
        r@ == register_state_text(*regs),
{
    let mut out: Vec<u8> = Vec::new();
    append_str(&mut out, "LoongArch Register State:");
    out.push(10u8);
    append_register_line(&mut out, "  PC: ", regs.pc);
    append_register_line(&mut out, "  SP (R3): ", regs.sp);
    append_register_line(&mut out, "  RA (R1): ", regs.ra);
    append_register_line(&mut out, "  Cause: ", regs.cause);
    append_register_line(&mut out, "  Status: ", regs.status);
    append_register_line(&mut out, "  BadVAddr: ", regs.badvaddr);
    append_str(&mut out, "  (Other GPRs not shown)");
    out.push(10u8);
    assert(out@ =~= register_state_text(*regs));
    out
}

} // verus!
