//! A value stored at the alignment of another type.
//!
//! `AlignAs<T, A>` holds one `T` laid out with the alignment of `A` (or of `T`, whichever is
//! stricter), so that generic code can choose an alignment by naming a type instead of writing a
//! number. The alignment comes from a zero-length array of `A` beside the value: it occupies no
//! bytes, holds no `A`, and raises the alignment of the whole struct to that of `A`.

mod align_as;

pub use align_as::{
    lemma_cmp_ignores_alignment, lemma_compare_ignores_alignment, lemma_read_after_default,
    lemma_read_after_new, AlignAs,
};
