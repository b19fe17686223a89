//! The shared objects mapped into the calling process, and the ELF program
//! headers (segments) of each.

mod consts;
mod object;
mod render;

pub use consts::{
    PF_MASKPROC, PF_R, PF_W, PF_X, PT_DYNAMIC, PT_GNU_EH_FRAME, PT_GNU_RELRO, PT_HIOS, PT_HIPROC,
    PT_INTERP, PT_LOAD, PT_LOOS, PT_LOPROC, PT_NOTE, PT_NULL, PT_PHDR, PT_SHLIB, PT_TLS,
};
pub use object::{
    Object, ObjectModel, ProgramHeader, ProgramHeaderIterator, iter_outputs, iter_step,
    lemma_iteration_exact, lemma_iterators_agree, record_object,
};
pub use render::{
    byte_text, digit_char, digits_text, flag_labels, flag_names, join_bar, name_text,
    object_text, printable_char, push_digits, segment_text, segment_type_name, type_label,
};
