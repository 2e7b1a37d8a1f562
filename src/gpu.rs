use vstd::prelude::*;
use crate::text::{append_str, chars_of, digit_char, digit_to_char, string_of, trim, trimmed};

verus! {

/// A PCI function as the bus lists it: class code, vendor and device ids.
#[derive(Clone, Copy, Debug, PartialEq, Eq, Structural)]
pub struct PciDevice {
    pub class: u32,
    pub vendor: u16,
    pub device: u16,
}

/// Whether a PCI class code belongs to a display controller (base class 3).
pub open spec fn is_display_class(class: u32) -> bool {
    class / 65536 == 3
}

/// The name of a PCI vendor, for the vendors that make graphics devices.
pub open spec fn vendor_name_of(vendor: u16) -> Option<Seq<char>> {
    if vendor == 0x1002 {
        Some("Advanced Micro Devices, Inc. [AMD/ATI]"@)
    } else if vendor == 0x102b {
        Some("Matrox Electronics Systems Ltd."@)
    } else if vendor == 0x10de {
        Some("NVIDIA Corporation"@)
    } else if vendor == 0x15ad {
        Some("VMware"@)
    } else if vendor == 0x1a03 {
        Some("ASPEED Technology, Inc."@)
    } else if vendor == 0x1af4 {
        Some("Red Hat, Inc."@)
    } else if vendor == 0x80ee {
        Some("InnoTek Systemberatung GmbH"@)
    } else if vendor == 0x8086 {
        Some("Intel Corporation"@)
    } else {
        None
    }
}

pub open spec fn hex_char(d: nat) -> char {
    if d < 10 {
        digit_char(d)
    } else {
        ((d - 10) as u32 + 'a' as u32) as char
    }
}

/// `n` as four lower-case hexadecimal digits.
pub open spec fn hex4(n: u16) -> Seq<char> {
    let v = n as nat;
    seq![hex_char((v / 4096) % 16), hex_char((v / 256) % 16), hex_char((v / 16) % 16), hex_char(v % 16)]
}

/// The description of a graphics device: its vendor's name, or its vendor
/// id, and its device id.
pub open spec fn gpu_text(d: PciDevice) -> Seq<char> {
    match vendor_name_of(d.vendor) {
        Some(name) => name + " Device "@ + hex4(d.device),
        None => "Vendor "@ + hex4(d.vendor) + " Device "@ + hex4(d.device),
    }
}

/// The descriptions of the display controllers among `devs`, in their order.
pub open spec fn gpu_texts(devs: Seq<PciDevice>) -> Seq<Seq<char>>
    decreases devs.len(),
{
    if devs.len() == 0 {
        seq![]
    } else {
        let rest = gpu_texts(devs.drop_last());
        if is_display_class(devs.last().class) {
            rest.push(gpu_text(devs.last()))
        } else {
            rest
        }
    }
}

pub open spec fn hex_value(c: char) -> Option<nat> {
    if '0' <= c && c <= '9' {
        Some((c as u32 - '0' as u32) as nat)
    } else if 'a' <= c && c <= 'f' {
        Some((c as u32 - 'a' as u32 + 10) as nat)
    } else if 'A' <= c && c <= 'F' {
        Some((c as u32 - 'A' as u32 + 10) as nat)
    } else {
        None
    }
}

pub open spec fn all_hex(s: Seq<char>) -> bool {
    forall|i: int| 0 <= i < s.len() ==> (#[trigger] hex_value(s[i])) is Some
}

/// The number that the hexadecimal digits `s` write.
pub open spec fn hex_number(s: Seq<char>) -> nat
    decreases s.len(),
{
    if s.len() == 0 {
        0
    } else {
        hex_number(s.drop_last()) * 16 + hex_value(s.last())->0
    }
}

/// The digits of a sysfs id file: its trimmed contents without a leading `0x`.
pub open spec fn hex_digits_of(content: Seq<char>) -> Seq<char> {
    let t = trim(content);
    if t.len() >= 2 && t[0] == '0' && (t[1] == 'x' || t[1] == 'X') {
        t.skip(2)
    } else {
        t
    }
}

/// The id that a sysfs id file holds, where it is a non-empty run of
/// hexadecimal digits whose value fits in a `u32`.
pub open spec fn hex_id_of(content: Seq<char>) -> Option<nat> {
    let s = hex_digits_of(content);
    if s.len() > 0 && all_hex(s) && hex_number(s) <= u32::MAX {
        Some(hex_number(s))
    } else {
        None
    }
}

proof fn lemma_hex_number_prefix(s: Seq<char>, i: int)
    requires
        0 <= i <= s.len(),
    ensures
        hex_number(s.take(i)) <= hex_number(s),
    decreases s.len() - i,
{
    if i < s.len() {
        lemma_hex_number_prefix(s, i + 1);
        assert(s.take(i + 1).drop_last() =~= s.take(i));
    } else {
        assert(s.take(i) =~= s);
    }
}

fn hex_digit(c: char) -> (r: Option<u32>)
    ensures
        match hex_value(c) {
            Some(d) => r == Some(d as u32),
            None => r is None,
        },
{
    if '0' <= c && c <= '9' {
        Some(c as u32 - '0' as u32)
    } else if 'a' <= c && c <= 'f' {
        Some(c as u32 - 'a' as u32 + 10)
    } else if 'A' <= c && c <= 'F' {
        Some(c as u32 - 'A' as u32 + 10)
    } else {
        None
    }
}

/// The id held by the contents of a sysfs id file such as `0x10de`.
pub fn parse_hex_id(content: &str) -> (r: Option<u32>)
    ensures
        match hex_id_of(content@) {
            Some(n) => r == Some(n as u32),
            None => r is None,
        },
{
    let t = trimmed(&chars_of(content));
    let start: usize = if t.len() >= 2 && t[0] == '0' && (t[1] == 'x' || t[1] == 'X') {
        2
    } else {
        0
    };
    let ghost s = hex_digits_of(content@);
    assert(s =~= t@.skip(start as int));
    if start == t.len() {
        return None;
    }
    let mut acc: u32 = 0;
    let mut i: usize = start;
    while i < t.len()
        invariant
            start <= i <= t.len(),
            s == t@.skip(start as int),
            s == hex_digits_of(content@),
            acc as nat == hex_number(s.take(i - start)),
            all_hex(s.take(i - start)),
        decreases t.len() - i,
    {
        let ghost k = i - start;
        assert(s.take(k + 1).drop_last() =~= s.take(k));
        assert(s[k] == t@[i as int]);
        let d = match hex_digit(t[i]) {
            Some(d) => d,
            None => {
                assert(hex_value(s[k as int]) is None);
                assert(!all_hex(s));
                return None;
            },
        };
        proof {
            lemma_hex_number_prefix(s, k + 1);
            assert(s.take(k + 1).last() == s[k as int]);
            assert(hex_number(s.take(k + 1)) == acc * 16 + d);
        }
        if acc > (u32::MAX - d) / 16 {
            assert(acc * 16 + d > u32::MAX) by (nonlinear_arith)
                requires
                    acc > (u32::MAX - d) / 16,
                    d <= 15,
            ;
            return None;
        }
        acc = acc * 16 + d;
        i = i + 1;
        assert(all_hex(s.take(i - start))) by {
            assert forall|j: int| 0 <= j < s.take(i - start).len() implies (#[trigger] hex_value(
                s.take(i - start)[j],
            )) is Some by {
                if j < k {
                    assert(s.take(i - start)[j] == s.take(k)[j]);
                }
            }
        }
    }
    assert(s.take(t.len() - start) =~= s);
    Some(acc)
}

fn hex_to_char(d: u16) -> (r: char)
    requires
        d < 16,
    ensures
        r == hex_char(d as nat),
{
    if d < 10 {
        digit_to_char(d as u64)
    } else {
        ((d - 10) as u8 + 97u8) as char
    }
}

fn append_hex4(out: &mut Vec<char>, n: u16)
    ensures
        final(out)@ == old(out)@ + hex4(n),
{
    out.push(hex_to_char((n / 4096) % 16));
    out.push(hex_to_char((n / 256) % 16));
    out.push(hex_to_char((n / 16) % 16));
    out.push(hex_to_char(n % 16));
    assert(out@ =~= old(out)@ + hex4(n));
}

/// The name of the PCI vendor `vendor`, where it makes graphics devices.
pub fn vendor_name(vendor: u16) -> (r: Option<&'static str>)
    ensures
        vendor_name_of(vendor) == match r {
            Some(s) => Some(s@),
            None => None::<Seq<char>>,
        },
{
    if vendor == 0x1002 {
        Some("Advanced Micro Devices, Inc. [AMD/ATI]")
    } else if vendor == 0x102b {
        Some("Matrox Electronics Systems Ltd.")
    } else if vendor == 0x10de {
        Some("NVIDIA Corporation")
    } else if vendor == 0x15ad {
        Some("VMware")
    } else if vendor == 0x1a03 {
        Some("ASPEED Technology, Inc.")
    } else if vendor == 0x1af4 {
        Some("Red Hat, Inc.")
    } else if vendor == 0x80ee {
        Some("InnoTek Systemberatung GmbH")
    } else if vendor == 0x8086 {
        Some("Intel Corporation")
    } else {
        None
    }
}

/// The description of the graphics device `d`.
pub fn gpu_description(d: &PciDevice) -> (r: String)
    ensures
        r@ == gpu_text(*d),
{
    let mut out: Vec<char> = Vec::new();
    match vendor_name(d.vendor) {
        Some(name) => {
            append_str(&mut out, name);
        },
        None => {
            append_str(&mut out, "Vendor ");
            append_hex4(&mut out, d.vendor);
        },
    }
    append_str(&mut out, " Device ");
    append_hex4(&mut out, d.device);
    assert(out@ =~= gpu_text(*d));
    string_of(&out)
}

/// The descriptions of the display controllers among `devs`, in order.
pub fn gpu_descriptions(devs: &Vec<PciDevice>) -> (r: Vec<String>)
    ensures
        r@.map_values(|s: String| s@) == gpu_texts(devs@),
{
    let mut out: Vec<String> = Vec::new();
    for i in 0..devs.len()
        invariant
            out@.map_values(|s: String| s@) == gpu_texts(devs@.take(i as int)),
    {
        let ghost before = out@.map_values(|s: String| s@);
        assert(devs@.take(i + 1).drop_last() =~= devs@.take(i as int));
        if devs[i].class / 65536 == 3 {
            out.push(gpu_description(&devs[i]));
            assert(out@.map_values(|s: String| s@) =~= before.push(gpu_text(devs@[i as int])));
        }
    }
    assert(devs@.take(devs.len() as int) =~= devs@);
    out
}

} // verus!
