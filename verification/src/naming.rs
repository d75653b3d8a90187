use vstd::prelude::*;
use crate::bytes::{
    contains_seq, ends_with_seq, contains_exec, ends_with_exec, push_all, push_prefix,
};

verus! {

/// The bytes of `.png`.
pub open spec fn png_ext() -> Seq<u8> {
    seq![46u8, 112u8, 110u8, 103u8]
}

/// The bytes of `.jpg`.
pub open spec fn jpg_ext() -> Seq<u8> {
    seq![46u8, 106u8, 112u8, 103u8]
}

/// The bytes of `.png` as a vector.
pub fn png_ext_vec() -> (v: Vec<u8>)
    ensures
        v@ == png_ext(),
{
    let v: Vec<u8> = vec![46u8, 112u8, 110u8, 103u8];
    proof {
        assert(v@ =~= png_ext());
    }
    v
}

/// The bytes of `.jpg` as a vector.
pub fn jpg_ext_vec() -> (v: Vec<u8>)
    ensures
        v@ == jpg_ext(),
{
    let v: Vec<u8> = vec![46u8, 106u8, 112u8, 103u8];
    proof {
        assert(v@ =~= jpg_ext());
    }
    v
}

/// The derived output name: the pattern inserted before a final `.png` or
/// `.jpg` extension; a name ending in neither is left unchanged.
pub open spec fn spec_derive_name(base: Seq<u8>, pattern: Seq<u8>) -> Seq<u8> {
    if ends_with_seq(base, png_ext()) {
        base.subrange(0, base.len() - 4) + pattern + png_ext()
    } else if ends_with_seq(base, jpg_ext()) {
        base.subrange(0, base.len() - 4) + pattern + jpg_ext()
    } else {
        base
    }
}

/// Inserts `pattern` before a final `.png` or `.jpg` extension of `base`;
/// any other name comes back unchanged.
pub fn derive_name(base: &Vec<u8>, pattern: &Vec<u8>) -> (r: Vec<u8>)
    ensures
        r@ == spec_derive_name(base@, pattern@),
{
    let png = png_ext_vec();
    let jpg = jpg_ext_vec();
    let mut out: Vec<u8> = Vec::new();
    if ends_with_exec(base, &png) {
        push_prefix(&mut out, base, base.len() - 4);
        push_all(&mut out, pattern);
        push_all(&mut out, &png);
    } else if ends_with_exec(base, &jpg) {
        push_prefix(&mut out, base, base.len() - 4);
        push_all(&mut out, pattern);
        push_all(&mut out, &jpg);
    } else {
        push_prefix(&mut out, base, base.len());
        proof {
            assert(base@.subrange(0, base@.len() as int) =~= base@);
        }
    }
    out
}

/// A name that ends in neither `.png` nor `.jpg` is left unchanged by the
/// derivation, whatever the pattern: no substitution triggers.
pub proof fn lemma_unrecognized_name_unchanged(base: Seq<u8>, pattern: Seq<u8>)
    requires
        !ends_with_seq(base, png_ext()),
        !ends_with_seq(base, jpg_ext()),
    ensures
        spec_derive_name(base, pattern) == base,
{
}

/// A path names a PNG when it ends with `.png`.
pub open spec fn spec_is_png(path: Seq<u8>) -> bool {
    ends_with_seq(path, png_ext())
}

/// Whether `path` ends with `.png`.
pub fn is_png(path: &Vec<u8>) -> (b: bool)
    ensures
        b == spec_is_png(path@),
{
    let png = png_ext_vec();
    ends_with_exec(path, &png)
}

/// A path carries the double-pattern marker when the pattern occurs twice in
/// succession; such a path is a previously generated output.
pub open spec fn spec_double_marked(path: Seq<u8>, pattern: Seq<u8>) -> bool {
    contains_seq(path, pattern + pattern)
}

/// Whether `pattern` occurs twice in succession anywhere in `path`.
pub fn double_marked(path: &Vec<u8>, pattern: &Vec<u8>) -> (b: bool)
    ensures
        b == spec_double_marked(path@, pattern@),
{
    let mut doubled: Vec<u8> = Vec::new();
    push_all(&mut doubled, pattern);
    push_all(&mut doubled, pattern);
    contains_exec(path, &doubled)
}

} // verus!
