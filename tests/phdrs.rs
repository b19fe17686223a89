use phdrs::{
    record_object, segment_type_name, flag_names, push_digits, Object, ProgramHeader,
    PF_MASKPROC, PF_R, PF_W, PF_X, PT_DYNAMIC, PT_GNU_EH_FRAME, PT_GNU_RELRO, PT_HIOS, PT_HIPROC,
    PT_INTERP, PT_LOAD, PT_LOOS, PT_LOPROC, PT_NOTE, PT_NULL, PT_PHDR, PT_SHLIB, PT_TLS,
};

fn header(p_type: u32, p_flags: u32) -> ProgramHeader {
    ProgramHeader::new(p_type, p_flags, 0x1000, 0x401000, 0x401000, 4096, 8192, 0x1000)
}

fn sample_object() -> Object {
    let hs = vec![header(PT_PHDR, PF_R), header(PT_LOAD, PF_R | PF_X), header(PT_DYNAMIC, PF_R | PF_W)];
    Object::new(0x5555_5555_4000, b"/usr/lib/libc.so.6", &hs)
}

fn fields(p: &ProgramHeader) -> (u32, u32, u64, u64, u64, u64, u64, u64) {
    (p.type_(), p.flags(), p.offset(), p.vaddr(), p.paddr(), p.filesz(), p.memsz(), p.align())
}

#[test]
fn constants_match_libc_and_elf() {
    assert_eq!(PT_NULL, libc::PT_NULL);
    assert_eq!(PT_LOAD, libc::PT_LOAD);
    assert_eq!(PT_DYNAMIC, libc::PT_DYNAMIC);
    assert_eq!(PT_INTERP, libc::PT_INTERP);
    assert_eq!(PT_NOTE, libc::PT_NOTE);
    assert_eq!(PT_SHLIB, libc::PT_SHLIB);
    assert_eq!(PT_PHDR, libc::PT_PHDR);
    assert_eq!(PT_TLS, libc::PT_TLS);
    assert_eq!(PT_LOOS, libc::PT_LOOS);
    assert_eq!(PT_GNU_EH_FRAME, libc::PT_GNU_EH_FRAME);
    assert_eq!(PT_GNU_RELRO, libc::PT_GNU_RELRO);
    assert_eq!(PF_X, elf::types::PF_X.0);
    assert_eq!(PF_W, elf::types::PF_W.0);
    assert_eq!(PF_R, elf::types::PF_R.0);
    assert_eq!(PT_HIOS, 0x6fffffff);
    assert_eq!(PT_LOPROC, 0x70000000);
    assert_eq!(PT_HIPROC, 0x7fffffff);
    assert_eq!(PF_MASKPROC, 0xf0000000);
}

#[test]
fn header_accessors_pass_raw_values() {
    let p = ProgramHeader::new(0x6474e551, 0xf000_0006, 1, 2, 3, 4, 5, 6);
    assert_eq!(fields(&p), (0x6474e551, 0xf000_0006, 1, 2, 3, 4, 5, 6));
}

#[test]
fn object_accessors() {
    let o = sample_object();
    assert_eq!(o.addr(), 0x5555_5555_4000);
    assert_eq!(o.name(), b"/usr/lib/libc.so.6");
    assert_eq!(o.num_phdrs(), 3);
}

#[test]
fn iterator_yields_count_then_stays_exhausted() {
    let o = sample_object();
    let mut it = o.iter_phdrs();
    let mut n = 0;
    while let Some(p) = it.next() {
        assert_ne!(p.type_(), 0);
        assert_ne!(p.flags(), 0);
        n += 1;
    }
    assert_eq!(n, o.num_phdrs() as usize);
    for _ in 0..5 {
        assert!(it.next().is_none());
    }
}

#[test]
fn iterator_over_no_headers_is_empty() {
    let o = Object::new(0x1000, b"", &[]);
    assert_eq!(o.num_phdrs(), 0);
    assert!(o.iter_phdrs().next().is_none());
    assert!(o.collect_phdrs().is_empty());
}

#[test]
fn two_iterators_agree() {
    let o = sample_object();
    let mut a = o.iter_phdrs();
    let mut b = o.iter_phdrs();
    // Advancing one leaves the other where it was.
    let first = a.next().unwrap();
    let mut from_b = Vec::new();
    while let Some(p) = b.next() {
        from_b.push(fields(&p));
    }
    let mut from_a = vec![fields(&first)];
    while let Some(p) = a.next() {
        from_a.push(fields(&p));
    }
    assert_eq!(from_a, from_b);
    assert_eq!(from_a.len(), 3);
}

#[test]
fn collect_phdrs_in_order() {
    let o = sample_object();
    let v = o.collect_phdrs();
    let types: Vec<u32> = v.iter().map(|p| p.type_()).collect();
    assert_eq!(types, vec![PT_PHDR, PT_LOAD, PT_DYNAMIC]);
}

#[test]
fn record_object_copies_name_and_headers() {
    let mut objs = Vec::new();
    let mut name = b"libfoo.so".to_vec();
    let mut hs = vec![header(PT_LOAD, PF_R | PF_X)];
    record_object(&mut objs, 0x7f00_0000_0000, &name, &hs);
    name[0] = b'X';
    hs[0] = header(PT_NULL, 0);
    record_object(&mut objs, 0x7f00_1000_0000, b"", &[]);
    assert_eq!(objs.len(), 2);
    assert_eq!(objs[0].name(), b"libfoo.so");
    assert_eq!(objs[0].collect_phdrs()[0].type_(), PT_LOAD);
    assert_eq!(objs[0].addr(), 0x7f00_0000_0000);
    assert_eq!(objs[1].name(), b"");
    assert_eq!(objs[1].num_phdrs(), 0);
}

#[test]
fn names_pass_through_unchanged() {
    let raw: &[u8] = &[0xff, 0xfe, b'a', 0x00, 0x80];
    let o = Object::new(1, raw, &[]);
    assert_eq!(o.name(), raw);
    let empty = Object::new(1, b"", &[]);
    assert!(empty.name().is_empty());
}

#[test]
fn main_program_has_loadable_code_segment() {
    let o = Object::new(0x5555_0000_0000, b"", &[
        header(PT_PHDR, PF_R),
        header(PT_LOAD, PF_R),
        header(PT_LOAD, PF_R | PF_X),
        header(PT_LOAD, PF_R | PF_W),
    ]);
    let hs = o.collect_phdrs();
    assert!(hs.iter().any(|p| p.type_() == PT_LOAD));
    assert!(hs
        .iter()
        .any(|p| p.type_() == PT_LOAD && p.flags() & PF_R != 0 && p.flags() & PF_X != 0));
}

#[test]
fn type_names() {
    assert_eq!(segment_type_name(PT_LOAD), "PT_LOAD");
    assert_eq!(segment_type_name(PT_NULL), "PT_NULL");
    assert_eq!(segment_type_name(PT_GNU_RELRO), "PT_GNU_RELRO");
    assert_eq!(segment_type_name(PT_HIPROC), "PT_HIPROC");
    assert_eq!(segment_type_name(0x6474e551), "other");
    assert_eq!(segment_type_name(0x12345), "other");
}

#[test]
fn flag_name_lists() {
    assert_eq!(flag_names(0), Vec::<&str>::new());
    assert_eq!(flag_names(PF_R | PF_X), vec!["PF_X", "PF_R"]);
    assert_eq!(flag_names(0xffff_ffff), vec!["PF_X", "PF_W", "PF_R", "PF_MASKPROC"]);
    assert_eq!(flag_names(0x8), Vec::<&str>::new());
}

#[test]
fn digits_in_both_bases() {
    let mut s = String::from("x=");
    push_digits(&mut s, 0, 16);
    assert_eq!(s, "x=0");
    let mut s = String::new();
    push_digits(&mut s, 0x401000, 16);
    assert_eq!(s, "401000");
    let mut s = String::new();
    push_digits(&mut s, u64::MAX, 16);
    assert_eq!(s, "ffffffffffffffff");
    let mut s = String::new();
    push_digits(&mut s, u64::MAX, 10);
    assert_eq!(s, "18446744073709551615");
    let mut s = String::new();
    push_digits(&mut s, 4096, 10);
    assert_eq!(s, "4096");
}

#[test]
fn describe_header() {
    let p = ProgramHeader::new(PT_LOAD, PF_R | PF_X, 0, 0x1000, 0x1000, 4096, 8192, 0x200000);
    assert_eq!(
        p.describe(),
        "ProgramHeader(typ=1 (PT_LOAD), flags=<PF_X|PF_R>, offset=<0x0>, vaddr=<0x1000>, \
         paddr=<0x1000>, filesz=<4096>, memsz=<8192>, align=<0x200000>)"
    );
}

#[test]
fn describe_header_unknown_type_and_no_flags() {
    let p = ProgramHeader::new(0x6474e551, 0, 0x10, 0, 0, 0, 0, 16);
    assert_eq!(
        p.describe(),
        "ProgramHeader(typ=1685382481 (other), flags=<>, offset=<0x10>, vaddr=<0x0>, \
         paddr=<0x0>, filesz=<0>, memsz=<0>, align=<0x10>)"
    );
}

#[test]
fn describe_header_processor_bits() {
    let p = ProgramHeader::new(PT_LOPROC, PF_MASKPROC | PF_W, 0, 0, 0, 0, 0, 1);
    assert!(p.describe().contains("typ=1879048192 (PT_LOPROC), flags=<PF_W|PF_MASKPROC>"));
}

#[test]
fn describe_object() {
    let o = sample_object();
    assert_eq!(
        o.describe(),
        "Object { addr: 0x555555554000, name: \"/usr/lib/libc.so.6\", num_phdrs: 3 }"
    );
}

#[test]
fn describe_object_escapes_name() {
    let o = Object::new(0xabc, &[b'a', b'"', b'\\', 0xff, 0x00, b'\n', b'~'], &[]);
    assert_eq!(
        o.describe(),
        "Object { addr: 0xabc, name: \"a\\\"\\\\\\xff\\x00\\x0a~\", num_phdrs: 0 }"
    );
    let main = Object::new(0x1, b"", &[]);
    assert_eq!(main.describe(), "Object { addr: 0x1, name: \"\", num_phdrs: 0 }");
}
