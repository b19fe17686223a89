//! Loaded objects and the program headers that describe their segments.
use vstd::prelude::*;

verus! {

/// One ELF program header, laid out as the loader publishes it: each field is
/// the raw value, passed through without interpretation.
#[derive(Clone, Copy, PartialEq, Eq, Structural)]
pub struct ProgramHeader {
    /// Segment kind (one of the `PT_*` codes, or a vendor-specific one).
    pub p_type: u32,
    /// Permission bits (`PF_*`).
    pub p_flags: u32,
    /// Offset of the segment in the file.
    pub p_offset: u64,
    /// Virtual address of the segment, before the object's base is added.
    pub p_vaddr: u64,
    /// Physical address of the segment.
    pub p_paddr: u64,
    /// Size of the segment in the file.
    pub p_filesz: u64,
    /// Size of the segment in memory.
    pub p_memsz: u64,
    /// Alignment of the segment.
    pub p_align: u64,
}

impl ProgramHeader {
    /// Builds a header from its raw fields.
    pub fn new(
        p_type: u32,
        p_flags: u32,
        p_offset: u64,
        p_vaddr: u64,
        p_paddr: u64,
        p_filesz: u64,
        p_memsz: u64,
        p_align: u64,
    ) -> (r: ProgramHeader)
        ensures
            r == (ProgramHeader {
                p_type,
                p_flags,
                p_offset,
                p_vaddr,
                p_paddr,
                p_filesz,
                p_memsz,
                p_align,
            }),
    {
        ProgramHeader { p_type, p_flags, p_offset, p_vaddr, p_paddr, p_filesz, p_memsz, p_align }
    }

    /// Returns the segment type (as one of the `PT_*` constants).
    pub fn type_(&self) -> (r: u32)
        ensures
            r == self.p_type,
    {
        self.p_type
    }

    /// Returns the segment flags bitfield (see the `PF_*` constants).
    pub fn flags(&self) -> (r: u32)
        ensures
            r == self.p_flags,
    {
        self.p_flags
    }

    /// Returns the segment offset.
    pub fn offset(&self) -> (r: u64)
        ensures
            r == self.p_offset,
    {
        self.p_offset
    }

    /// Returns the segment virtual address.
    pub fn vaddr(&self) -> (r: u64)
        ensures
            r == self.p_vaddr,
    {
        self.p_vaddr
    }

    /// Returns the segment physical address.
    /// On modern systems, this is usually reported as the same as the virtual address.
    pub fn paddr(&self) -> (r: u64)
        ensures
            r == self.p_paddr,
    {
        self.p_paddr
    }

    /// Returns the size of the segment when on disk.
    pub fn filesz(&self) -> (r: u64)
        ensures
            r == self.p_filesz,
    {
        self.p_filesz
    }

    /// Returns the size of the segment when in memory.
    pub fn memsz(&self) -> (r: u64)
        ensures
            r == self.p_memsz,
    {
        self.p_memsz
    }

    /// Returns the alignment of the segment.
    pub fn align(&self) -> (r: u64)
        ensures
            r == self.p_align,
    {
        self.p_align
    }
}

/// What an [`Object`] holds: its base address, its name as raw bytes, and its
/// program headers in the loader's order.
pub struct ObjectModel {
    pub addr: u64,
    pub name: Seq<u8>,
    pub phdrs: Seq<ProgramHeader>,
}

/// One object in the virtual address space: the running program or a shared
/// library. Its name is an owned copy of the loader's bytes, which may be
/// empty (the running program itself, on Linux) and need not be UTF-8.
pub struct Object {
    addr: u64,
    name: Vec<u8>,
    phdrs: Vec<ProgramHeader>,
    num_phdrs: u16,
}

impl View for Object {
    type V = ObjectModel;

    closed spec fn view(&self) -> ObjectModel {
        ObjectModel { addr: self.addr, name: self.name@, phdrs: self.phdrs@ }
    }
}

impl Object {
    /// The count always agrees with the program headers held.
    #[verifier::type_invariant]
    closed spec fn count_matches(&self) -> bool {
        self.num_phdrs as int == self.phdrs@.len()
    }

    /// Builds an object from a base address, the bytes of its name and its
    /// program headers, copying both.
    pub fn new(addr: u64, name: &[u8], phdrs: &[ProgramHeader]) -> (r: Object)
        requires
            phdrs@.len() <= u16::MAX,
        ensures
            r@.addr == addr,
            r@.name == name@,
            r@.phdrs == phdrs@,
    {
        let name = copy_seq(name);
        let phdrs = copy_seq(phdrs);
        let num_phdrs = phdrs.len() as u16;
        Object { addr, name, phdrs, num_phdrs }
    }

    /// Returns an iterator over the program headers of the object. Each item
    /// corresponds with one ELF segment. Every call gives a fresh iterator.
    pub fn iter_phdrs(&self) -> (r: ProgramHeaderIterator<'_>)
        ensures
            r@ == self@.phdrs,
    {
        proof {
            use_type_invariant(self);
        }
        ProgramHeaderIterator { phdrs: self.phdrs.as_slice(), pos: 0, num: self.num_phdrs }
    }

    /// Returns the base address of the object in the virtual address space.
    pub fn addr(&self) -> (r: u64)
        ensures
            r == self@.addr,
    {
        self.addr
    }

    /// Returns the name of the object, as the loader reported it.
    pub fn name(&self) -> (r: &[u8])
        ensures
            r@ == self@.name,
    {
        self.name.as_slice()
    }

    /// Returns the number of program headers.
    pub fn num_phdrs(&self) -> (r: u16)
        ensures
            r as int == self@.phdrs.len(),
    {
        proof {
            use_type_invariant(self);
        }
        self.num_phdrs
    }

    /// Returns the program headers in order, by running an iterator to its end.
    pub fn collect_phdrs(&self) -> (r: Vec<ProgramHeader>)
        ensures
            r@ == self@.phdrs,
    {
        let mut it = self.iter_phdrs();
        let mut out: Vec<ProgramHeader> = Vec::new();
        loop
            invariant
                out@ + it@ == self@.phdrs,
            decreases it@.len(),
        {
            let ghost before = it@;
            match it.next() {
                None => {
                    assert(out@ + it@ =~= out@);
                    return out;
                },
                Some(p) => {
                    out.push(p);
                    assert(out@ + it@ =~= self@.phdrs) by {
                        assert(before =~= seq![p] + it@);
                    }
                },
            }
        }
    }
}

/// Copies a slice into a new vector of its own.
fn copy_seq<T: Copy>(s: &[T]) -> (r: Vec<T>)
    ensures
        r@ == s@,
{
    let mut r: Vec<T> = Vec::new();
    let mut i: usize = 0;
    while i < s.len()
        invariant
            i <= s@.len(),
            r@ == s@.subrange(0, i as int),
        decreases s@.len() - i,
    {
        r.push(s[i]);
        i = i + 1;
        assert(r@ =~= s@.subrange(0, i as int));
    }
    assert(r@ =~= s@);
    r
}

/// Records one object reported by the loader: the name's bytes and the
/// program headers are copied, so that nothing of the loader's transient
/// record is kept, and the new object goes to the end of `objs`.
pub fn record_object(objs: &mut Vec<Object>, addr: u64, name: &[u8], phdrs: &[ProgramHeader])
    requires
        phdrs@.len() <= u16::MAX,
    ensures
        final(objs)@.len() == old(objs)@.len() + 1,
        forall|i: int| 0 <= i < old(objs)@.len() ==> #[trigger] final(objs)@[i] == old(objs)@[i],
        final(objs)@.last()@ == (ObjectModel { addr, name: name@, phdrs: phdrs@ }),
{
    let o = Object::new(addr, name, phdrs);
    objs.push(o);
}

/// An iterator over the program headers of an [`Object`].
///
/// Each program header describes an ELF segment loaded in the virtual address space.
pub struct ProgramHeaderIterator<'a> {
    phdrs: &'a [ProgramHeader],
    pos: usize,
    num: u16,
}

impl<'a> View for ProgramHeaderIterator<'a> {
    type V = Seq<ProgramHeader>;

    /// The program headers that are still to come.
    closed spec fn view(&self) -> Seq<ProgramHeader> {
        self.phdrs@.subrange(self.pos as int, self.pos + self.num)
    }
}

/// One step of a program-header iterator over `rest`, the headers still to
/// come: the item it yields and what is left afterwards.
pub open spec fn iter_step(rest: Seq<ProgramHeader>) -> (Option<ProgramHeader>, Seq<ProgramHeader>) {
    if rest.len() == 0 {
        (None, rest)
    } else {
        (Some(rest[0]), rest.drop_first())
    }
}

/// What `n` successive calls of `next` yield, from the headers `rest`.
pub open spec fn iter_outputs(rest: Seq<ProgramHeader>, n: nat) -> Seq<Option<ProgramHeader>>
    decreases n,
{
    if n == 0 {
        Seq::empty()
    } else {
        seq![iter_step(rest).0] + iter_outputs(iter_step(rest).1, (n - 1) as nat)
    }
}

/// An iterator over headers `rest` yields each of them once, in order, and
/// then `None` on every later call: any `n` calls with `n` at least the
/// number of headers give exactly the headers, followed by `None`s.
pub proof fn lemma_iteration_exact(rest: Seq<ProgramHeader>, n: nat)
    requires
        n >= rest.len(),
    ensures
        iter_outputs(rest, n).len() == n,
        forall|i: int| 0 <= i < rest.len() ==> #[trigger] iter_outputs(rest, n)[i] == Some(rest[i]),
        forall|i: int| rest.len() <= i < n ==> #[trigger] iter_outputs(rest, n)[i] is None,
    decreases n,
{
    if n > 0 {
        let t = iter_step(rest).1;
        lemma_iteration_exact(t, (n - 1) as nat);
        let out = iter_outputs(rest, n);
        assert(out == seq![iter_step(rest).0] + iter_outputs(t, (n - 1) as nat));
        assert forall|i: int| 0 <= i < rest.len() implies #[trigger] out[i] == Some(rest[i]) by {
            if i > 0 {
                assert(out[i] == iter_outputs(t, (n - 1) as nat)[i - 1]);
                assert(rest[i] == t[i - 1]);
            }
        }
        assert forall|i: int| rest.len() <= i < n implies #[trigger] out[i] is None by {
            if i > 0 {
                assert(out[i] == iter_outputs(t, (n - 1) as nat)[i - 1]);
            }
        }
    }
}

/// Two iterators over the program headers of one object, such as two calls
/// of `iter_phdrs` give, yield the same items call for call, and in the first
/// `num_phdrs` calls the object's headers in order.
pub proof fn lemma_iterators_agree(
    o: &Object,
    a: &ProgramHeaderIterator,
    b: &ProgramHeaderIterator,
    n: nat,
)
    requires
        a@ == o@.phdrs,
        b@ == o@.phdrs,
    ensures
        iter_outputs(a@, n) == iter_outputs(b@, n),
        iter_outputs(a@, o@.phdrs.len()) == o@.phdrs.map_values(|p: ProgramHeader| Some(p)),
{
    let len = o@.phdrs.len();
    lemma_iteration_exact(a@, len);
    assert(iter_outputs(a@, len) =~= o@.phdrs.map_values(|p: ProgramHeader| Some(p)));
}

impl<'a> ProgramHeaderIterator<'a> {
    /// The position and the count left stay within the headers.
    #[verifier::type_invariant]
    closed spec fn within(&self) -> bool {
        self.pos + self.num <= self.phdrs@.len()
    }

    /// Yields the next program header, or `None` once all have been yielded,
    /// and again `None` on every later call.
    pub fn next(&mut self) -> (r: Option<ProgramHeader>)
        ensures
            (r, final(self)@) == iter_step(old(self)@),
    {
        proof {
            use_type_invariant(&*self);
        }
        if self.num == 0 {
            assert(self@ =~= Seq::<ProgramHeader>::empty());
            None
        } else {
            let ret = self.phdrs[self.pos];
            let ghost before = self@;
            *self = ProgramHeaderIterator { phdrs: self.phdrs, pos: self.pos + 1, num: self.num - 1 };
            assert(self@ =~= before.drop_first());
            Some(ret)
        }
    }
}

} // verus!
