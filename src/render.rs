//! Human-readable renderings of objects and program headers.
use vstd::prelude::*;
use vstd::string::StringExecFns;

use crate::object::{Object, ObjectModel, ProgramHeader};

use crate::consts::{
    PF_MASKPROC, PF_R, PF_W, PF_X, PT_DYNAMIC, PT_GNU_EH_FRAME, PT_GNU_RELRO, PT_HIOS, PT_HIPROC,
    PT_INTERP, PT_LOAD, PT_LOOS, PT_LOPROC, PT_NOTE, PT_NULL, PT_PHDR, PT_SHLIB, PT_TLS,
};

verus! {

/// Relies on `String::push`: the character goes to the end of the string.
#[verifier::external_body]
fn push_char(s: &mut String, c: char)
    ensures
        final(s)@ == old(s)@.push(c),
{
    s.push(c);
}

/// The digit characters, by value.
pub open spec fn digit_char(d: int) -> char {
    "0123456789abcdef"@[d]
}

/// `n` written in base `base` (10 or 16), most significant digit first, with
/// no leading zeros.
pub open spec fn digits_text(n: nat, base: nat) -> Seq<char>
    decreases n
    via digits_text_decreases
{
    if base < 2 || n < base {
        seq![digit_char(n as int)]
    } else {
        digits_text(n / base, base).push(digit_char((n % base) as int))
    }
}

#[via_fn]
proof fn digits_text_decreases(n: nat, base: nat) {
    if !(base < 2 || n < base) {
        assert(n / base < n) by (nonlinear_arith)
            requires
                base >= 2,
                n >= base,
        ;
    }
}

/// Appends `n` in base `base` (10 or 16).
pub fn push_digits(out: &mut String, n: u64, base: u64)
    requires
        base == 10 || base == 16,
    ensures
        final(out)@ == old(out)@ + digits_text(n as nat, base as nat),
    decreases n,
{
    let digits = "0123456789abcdef";
    proof {
        reveal_strlit("0123456789abcdef");
    }
    if n < base {
        push_char(out, digits.get_char(n as usize));
        assert(final(out)@ =~= old(out)@ + digits_text(n as nat, base as nat));
    } else {
        push_digits(out, n / base, base);
        let d = n % base;
        push_char(out, digits.get_char(d as usize));
        assert(final(out)@ =~= old(out)@ + digits_text(n as nat, base as nat));
    }
}

/// The symbolic name of a segment type code; codes outside the known set,
/// which vendors may define for themselves, are "other".
pub open spec fn type_label(t: u32) -> Seq<char> {
    if t == PT_NULL {
        "PT_NULL"@
    } else if t == PT_LOAD {
        "PT_LOAD"@
    } else if t == PT_DYNAMIC {
        "PT_DYNAMIC"@
    } else if t == PT_INTERP {
        "PT_INTERP"@
    } else if t == PT_NOTE {
        "PT_NOTE"@
    } else if t == PT_SHLIB {
        "PT_SHLIB"@
    } else if t == PT_PHDR {
        "PT_PHDR"@
    } else if t == PT_TLS {
        "PT_TLS"@
    } else if t == PT_LOOS {
        "PT_LOOS"@
    } else if t == PT_HIOS {
        "PT_HIOS"@
    } else if t == PT_LOPROC {
        "PT_LOPROC"@
    } else if t == PT_HIPROC {
        "PT_HIPROC"@
    } else if t == PT_GNU_EH_FRAME {
        "PT_GNU_EH_FRAME"@
    } else if t == PT_GNU_RELRO {
        "PT_GNU_RELRO"@
    } else {
        "other"@
    }
}

/// Returns the symbolic name of a segment type code, or "other".
pub fn segment_type_name(t: u32) -> (r: &'static str)
    ensures
        r@ == type_label(t),
{
    if t == PT_NULL {
        "PT_NULL"
    } else if t == PT_LOAD {
        "PT_LOAD"
    } else if t == PT_DYNAMIC {
        "PT_DYNAMIC"
    } else if t == PT_INTERP {
        "PT_INTERP"
    } else if t == PT_NOTE {
        "PT_NOTE"
    } else if t == PT_SHLIB {
        "PT_SHLIB"
    } else if t == PT_PHDR {
        "PT_PHDR"
    } else if t == PT_TLS {
        "PT_TLS"
    } else if t == PT_LOOS {
        "PT_LOOS"
    } else if t == PT_HIOS {
        "PT_HIOS"
    } else if t == PT_LOPROC {
        "PT_LOPROC"
    } else if t == PT_HIPROC {
        "PT_HIPROC"
    } else if t == PT_GNU_EH_FRAME {
        "PT_GNU_EH_FRAME"
    } else if t == PT_GNU_RELRO {
        "PT_GNU_RELRO"
    } else {
        "other"
    }
}

/// The names of the permission bits set in `f`, in the order execute, write,
/// read, processor-specific.
pub open spec fn flag_labels(f: u32) -> Seq<Seq<char>> {
    (if f & PF_X != 0 { seq!["PF_X"@] } else { Seq::empty() })
    + (if f & PF_W != 0 { seq!["PF_W"@] } else { Seq::empty() })
    + (if f & PF_R != 0 { seq!["PF_R"@] } else { Seq::empty() })
    + (if f & PF_MASKPROC != 0 { seq!["PF_MASKPROC"@] } else { Seq::empty() })
}

/// Returns the names of the permission bits set in `f`.
pub fn flag_names(f: u32) -> (r: Vec<&'static str>)
    ensures
        r@.map_values(|s: &str| s@) == flag_labels(f),
{
    let mut r: Vec<&'static str> = Vec::new();
    if f & PF_X != 0 {
        r.push("PF_X");
    }
    if f & PF_W != 0 {
        r.push("PF_W");
    }
    if f & PF_R != 0 {
        r.push("PF_R");
    }
    if f & PF_MASKPROC != 0 {
        r.push("PF_MASKPROC");
    }
    assert(r@.map_values(|s: &str| s@) =~= flag_labels(f));
    r
}

/// The items of `s`, with "|" between each two.
pub open spec fn join_bar(s: Seq<Seq<char>>) -> Seq<char>
    decreases s.len(),
{
    if s.len() == 0 {
        Seq::empty()
    } else if s.len() == 1 {
        s[0]
    } else {
        join_bar(s.drop_last()) + "|"@ + s.last()
    }
}

/// Appends the names, with "|" between each two.
fn push_joined(out: &mut String, names: &Vec<&'static str>)
    ensures
        final(out)@ == old(out)@ + join_bar(names@.map_values(|s: &str| s@)),
{
    let ghost all = names@.map_values(|s: &str| s@);
    let mut i: usize = 0;
    while i < names.len()
        invariant
            i <= names@.len(),
            all == names@.map_values(|s: &str| s@),
            out@ == old(out)@ + join_bar(all.take(i as int)),
        decreases names@.len() - i,
    {
        let ghost prev = out@;
        if i > 0 {
            out.append("|");
        }
        out.append(names[i]);
        proof {
            let t = all.take(i + 1);
            assert(t.drop_last() =~= all.take(i as int));
            assert(t.last() == names@[i as int]@);
            if i == 0 {
                assert(join_bar(t) == t[0]);
                assert(out@ =~= old(out)@ + join_bar(t));
            } else {
                assert(out@ =~= old(out)@ + join_bar(t));
            }
        }
        i = i + 1;
    }
    assert(all.take(names@.len() as int) =~= all);
}

/// The rendering of a program header: the type code in decimal with its
/// name, the permission bits by name, the file offset, the addresses and the
/// alignment in hexadecimal, the two sizes in decimal.
pub open spec fn segment_text(p: ProgramHeader) -> Seq<char> {
    "ProgramHeader(typ="@ + digits_text(p.p_type as nat, 10) + " ("@ + type_label(p.p_type)
        + "), flags=<"@ + join_bar(flag_labels(p.p_flags)) + ">, offset=<0x"@
        + digits_text(p.p_offset as nat, 16) + ">, vaddr=<0x"@ + digits_text(p.p_vaddr as nat, 16)
        + ">, paddr=<0x"@ + digits_text(p.p_paddr as nat, 16) + ">, filesz=<"@
        + digits_text(p.p_filesz as nat, 10) + ">, memsz=<"@ + digits_text(p.p_memsz as nat, 10)
        + ">, align=<0x"@ + digits_text(p.p_align as nat, 16) + ">)"@
}

impl ProgramHeader {
    /// Renders the header for people to read.
    pub fn describe(&self) -> (r: String)
        ensures
            r@ == segment_text(*self),
    {
        let mut out = String::from_str("ProgramHeader(typ=");
        push_digits(&mut out, self.p_type as u64, 10);
        out.append(" (");
        out.append(segment_type_name(self.p_type));
        out.append("), flags=<");
        let names = flag_names(self.p_flags);
        push_joined(&mut out, &names);
        out.append(">, offset=<0x");
        push_digits(&mut out, self.p_offset, 16);
        out.append(">, vaddr=<0x");
        push_digits(&mut out, self.p_vaddr, 16);
        out.append(">, paddr=<0x");
        push_digits(&mut out, self.p_paddr, 16);
        out.append(">, filesz=<");
        push_digits(&mut out, self.p_filesz, 10);
        out.append(">, memsz=<");
        push_digits(&mut out, self.p_memsz, 10);
        out.append(">, align=<0x");
        push_digits(&mut out, self.p_align, 16);
        out.append(">)");
        out
    }
}

/// The printable ASCII characters, from the space (0x20) to the tilde (0x7e).
pub open spec fn printable_char(b: u8) -> char {
    " !\"#$%&'()*+,-./0123456789:;<=>?@ABCDEFGHIJKLMNOPQRSTUVWXYZ[\\]^_`abcdefghijklmnopqrstuvwxyz{|}~"@[b as int - 0x20]
}

/// How one byte of a name is shown: printable ASCII as itself, a quote and a
/// backslash behind a backslash, any other byte as `\x` and two hex digits.
pub open spec fn byte_text(b: u8) -> Seq<char> {
    if b == 0x22 {
        "\\\""@
    } else if b == 0x5c {
        "\\\\"@
    } else if 0x20 <= b <= 0x7e {
        seq![printable_char(b)]
    } else {
        "\\x"@ + seq![digit_char((b / 16) as int), digit_char((b % 16) as int)]
    }
}

/// The bytes of a name, each shown as `byte_text` says.
pub open spec fn name_text(s: Seq<u8>) -> Seq<char>
    decreases s.len(),
{
    if s.len() == 0 {
        Seq::empty()
    } else {
        name_text(s.drop_last()) + byte_text(s.last())
    }
}

/// Appends one byte of a name, escaped.
fn push_byte(out: &mut String, b: u8)
    ensures
        final(out)@ == old(out)@ + byte_text(b),
{
    if b == 0x22 {
        out.append("\\\"");
    } else if b == 0x5c {
        out.append("\\\\");
    } else if 0x20 <= b && b <= 0x7e {
        let table = " !\"#$%&'()*+,-./0123456789:;<=>?@ABCDEFGHIJKLMNOPQRSTUVWXYZ[\\]^_`abcdefghijklmnopqrstuvwxyz{|}~";
        proof {
            reveal_strlit(" !\"#$%&'()*+,-./0123456789:;<=>?@ABCDEFGHIJKLMNOPQRSTUVWXYZ[\\]^_`abcdefghijklmnopqrstuvwxyz{|}~");
        }
        push_char(out, table.get_char((b - 0x20) as usize));
        assert(final(out)@ =~= old(out)@ + byte_text(b));
    } else {
        let digits = "0123456789abcdef";
        proof {
            reveal_strlit("0123456789abcdef");
        }
        out.append("\\x");
        push_char(out, digits.get_char((b / 16) as usize));
        push_char(out, digits.get_char((b % 16) as usize));
        assert(final(out)@ =~= old(out)@ + byte_text(b));
    }
}

/// Appends a name, each byte escaped.
fn push_name(out: &mut String, name: &[u8])
    ensures
        final(out)@ == old(out)@ + name_text(name@),
{
    let mut i: usize = 0;
    while i < name.len()
        invariant
            i <= name@.len(),
            out@ == old(out)@ + name_text(name@.take(i as int)),
        decreases name@.len() - i,
    {
        push_byte(out, name[i]);
        proof {
            let t = name@.take(i + 1);
            assert(t.drop_last() =~= name@.take(i as int));
            assert(out@ =~= old(out)@ + name_text(t));
        }
        i = i + 1;
    }
    assert(name@.take(name@.len() as int) =~= name@);
}

/// The rendering of an object: its base address in hexadecimal, its name
/// quoted, and the number of its program headers in decimal.
pub open spec fn object_text(m: ObjectModel) -> Seq<char> {
    "Object { addr: 0x"@ + digits_text(m.addr as nat, 16) + ", name: \""@ + name_text(m.name)
        + "\", num_phdrs: "@ + digits_text(m.phdrs.len(), 10) + " }"@
}

impl Object {
    /// Renders the object for people to read.
    pub fn describe(&self) -> (r: String)
        ensures
            r@ == object_text(self@),
    {
        let mut out = String::from_str("Object { addr: 0x");
        push_digits(&mut out, self.addr(), 16);
        out.append(", name: \"");
        push_name(&mut out, self.name());
        out.append("\", num_phdrs: ");
        push_digits(&mut out, self.num_phdrs() as u64, 10);
        out.append(" }");
        out
    }
}

} // verus!
