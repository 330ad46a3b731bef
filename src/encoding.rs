//! Little-endian integers and the fixed-size, NUL-terminated name fields of
//! the discovery records.
use vstd::prelude::*;
use vstd::string::StringSliceAdditionalSpecFns;

verus! {

/// Length of every name field in the discovery records.
pub const NAME_LEN: usize = 64;

/// The unsigned value of four bytes in little-endian order.
pub open spec fn le_u32(b: Seq<u8>) -> int {
    b[0] + 256 * b[1] + 65536 * b[2] + 16777216 * b[3]
}

/// The unsigned value of two bytes in little-endian order.
pub open spec fn le_u16(b: Seq<u8>) -> int {
    b[0] + 256 * b[1]
}

pub fn u32_from_bytes(bytes: [u8; 4]) -> (r: u32)
    ensures
        r == le_u32(bytes@),
{
    let b0 = bytes[0] as u32;
    let b1 = bytes[1] as u32;
    let b2 = bytes[2] as u32;
    let b3 = bytes[3] as u32;
    b0 + 256 * b1 + 65536 * b2 + 16777216 * b3
}

pub fn u16_from_bytes(lo: u8, hi: u8) -> (r: u16)
    ensures
        r == le_u16(seq![lo, hi]),
{
    lo as u16 + 256 * (hi as u16)
}

/// How many bytes of a text of length `n` a name field keeps: room is left
/// for the terminating NUL.
pub open spec fn kept_len(n: int) -> int {
    if n < NAME_LEN - 1 {
        n
    } else {
        NAME_LEN - 1
    }
}

/// `field` after the text `text` has been written into it: the kept prefix,
/// a NUL, and the field's former bytes after that.
pub open spec fn written_name(field: Seq<u8>, text: Seq<u8>) -> Seq<u8> {
    let n = kept_len(text.len() as int);
    text.subrange(0, n) + seq![0u8] + field.subrange(n + 1, NAME_LEN as int)
}

/// The name field holding `text` that starts out all zero.
pub open spec fn fixed_name(text: Seq<u8>) -> Seq<u8> {
    written_name(Seq::new(NAME_LEN as nat, |i: int| 0u8), text)
}

/// Writes `text` into `out`, truncated to leave room for a terminating NUL.
pub fn bytes_to_fixed(text: &[u8], out: &mut [u8; 64])
    ensures
        final(out)@ == written_name(old(out)@, text@),
{
    let n: usize = if text.len() < NAME_LEN - 1 {
        text.len()
    } else {
        NAME_LEN - 1
    };
    let mut i: usize = 0;
    while i < n
        invariant
            n == kept_len(text@.len() as int),
            i <= n,
            out@.len() == NAME_LEN,
            forall|k: int| 0 <= k < i ==> out@[k] == text@[k],
            forall|k: int| i <= k < NAME_LEN ==> out@[k] == old(out)@[k],
        decreases n - i,
    {
        out[i] = text[i];
        i = i + 1;
    }
    out[n] = 0;
    assert(out@ =~= written_name(old(out)@, text@));
}

pub fn string_to_fixed_bytes(s: &str, out: &mut [u8; 64])
    ensures
        final(out)@ == written_name(old(out)@, s.spec_bytes()),
{
    bytes_to_fixed(s.as_bytes(), out);
}

/// ASCII code of the lower-case hexadecimal digit `d`.
pub open spec fn hex_char(d: int) -> u8 {
    if d < 10 {
        (48 + d) as u8
    } else {
        (87 + d) as u8
    }
}

/// The last `width` hexadecimal digits of `v`, most significant first.
pub open spec fn hex_text(v: nat, width: nat) -> Seq<u8>
    decreases width,
{
    if width == 0 {
        seq![]
    } else {
        hex_text(v / 16, (width - 1) as nat).push(hex_char((v % 16) as int))
    }
}

/// Decimal digits of `n`, without leading zeros.
pub open spec fn dec_text(n: nat) -> Seq<u8>
    decreases n,
{
    if n < 10 {
        seq![(48 + n) as u8]
    } else {
        dec_text(n / 10).push((48 + n % 10) as u8)
    }
}

fn push_hex(out: &mut Vec<u8>, v: u32, width: u32)
    ensures
        final(out)@ == old(out)@ + hex_text(v as nat, width as nat),
    decreases width,
{
    if width > 0 {
        push_hex(out, v / 16, width - 1);
        let d = (v % 16) as u8;
        let c: u8 = if d < 10 {
            48 + d
        } else {
            87 + d
        };
        out.push(c);
        assert(out@ =~= old(out)@ + hex_text(v as nat, width as nat));
    } else {
        assert(out@ =~= old(out)@ + hex_text(v as nat, width as nat));
    }
}

fn push_decimal(out: &mut Vec<u8>, n: u32)
    ensures
        final(out)@ == old(out)@ + dec_text(n as nat),
    decreases n,
{
    if n >= 10 {
        push_decimal(out, n / 10);
    }
    out.push(48 + (n % 10) as u8);
    assert(out@ =~= old(out)@ + dec_text(n as nat));
}

/// Appends the bytes of `prefix` to `out`.
fn push_all(out: &mut Vec<u8>, prefix: &[u8])
    ensures
        final(out)@ == old(out)@ + prefix@,
{
    let mut i: usize = 0;
    while i < prefix.len()
        invariant
            i <= prefix@.len(),
            out@ == old(out)@ + prefix@.subrange(0, i as int),
        decreases prefix@.len() - i,
    {
        out.push(prefix[i]);
        i = i + 1;
        assert(out@ =~= old(out)@ + prefix@.subrange(0, i as int));
    }
    assert(prefix@.subrange(0, i as int) =~= prefix@);
}

/// "Entry_0x"
pub open spec fn entry_prefix() -> Seq<u8> {
    seq![69u8, 110, 116, 114, 121, 95, 48, 120]
}

/// "Input_PDO_"
pub open spec fn input_pdo_prefix() -> Seq<u8> {
    seq![73u8, 110, 112, 117, 116, 95, 80, 68, 79, 95]
}

/// "Output_PDO_"
pub open spec fn output_pdo_prefix() -> Seq<u8> {
    seq![79u8, 117, 116, 112, 117, 116, 95, 80, 68, 79, 95]
}

/// Text of a generated entry name: `Entry_0x` with four hex digits of the
/// object index, `_`, and two hex digits of the sub-index.
pub open spec fn entry_name_text(index: u16, sub_index: u8) -> Seq<u8> {
    entry_prefix() + hex_text(index as nat, 4) + seq![95u8] + hex_text(sub_index as nat, 2)
}

/// Text of the generated name of the `n`-th EEPROM PDO of one direction.
pub open spec fn eeprom_entry_name_text(is_output: bool, n: nat) -> Seq<u8> {
    if is_output {
        output_pdo_prefix() + dec_text(n)
    } else {
        input_pdo_prefix() + dec_text(n)
    }
}

/// A name field holding the text, truncated, after a NUL-filled start.
fn name_field(text: &Vec<u8>) -> (r: [u8; 64])
    ensures
        r@ == fixed_name(text@),
{
    let mut out = [0u8; 64];
    assert(out@ =~= Seq::new(NAME_LEN as nat, |i: int| 0u8));
    bytes_to_fixed(text.as_slice(), &mut out);
    out
}

/// Name generated for a PDO entry found through its mapping object.
pub fn entry_name(index: u16, sub_index: u8) -> (r: [u8; 64])
    ensures
        r@ == fixed_name(entry_name_text(index, sub_index)),
{
    let mut text: Vec<u8> = Vec::new();
    let prefix: [u8; 8] = [69, 110, 116, 114, 121, 95, 48, 120];
    assert(prefix@ =~= entry_prefix());
    push_all(&mut text, prefix.as_slice());
    push_hex(&mut text, index as u32, 4);
    text.push(95);
    push_hex(&mut text, sub_index as u32, 2);
    assert(text@ =~= entry_name_text(index, sub_index));
    name_field(&text)
}

/// Name generated for the single entry of the `n`-th EEPROM PDO of one
/// direction (`Input_PDO_n` or `Output_PDO_n`).
pub fn eeprom_entry_name(is_output: bool, n: u32) -> (r: [u8; 64])
    ensures
        r@ == fixed_name(eeprom_entry_name_text(is_output, n as nat)),
{
    let mut text: Vec<u8> = Vec::new();
    if is_output {
        let prefix: [u8; 11] = [79, 117, 116, 112, 117, 116, 95, 80, 68, 79, 95];
        assert(prefix@ =~= output_pdo_prefix());
        push_all(&mut text, prefix.as_slice());
    } else {
        let prefix: [u8; 10] = [73, 110, 112, 117, 116, 95, 80, 68, 79, 95];
        assert(prefix@ =~= input_pdo_prefix());
        push_all(&mut text, prefix.as_slice());
    }
    push_decimal(&mut text, n);
    assert(text@ =~= eeprom_entry_name_text(is_output, n as nat));
    name_field(&text)
}

/// Number of bytes a copy of `available` bytes into room for `capacity`
/// bytes moves: the smaller of the two.
pub fn copy_len(available: usize, capacity: usize) -> (r: usize)
    ensures
        r <= available,
        r <= capacity,
        r == available || r == capacity,
{
    if available < capacity {
        available
    } else {
        capacity
    }
}

} // verus!
