use vstd::prelude::*;
use crate::bytes::{ends_with_seq, match_at, contains_seq};
use crate::naming::{png_ext, jpg_ext, spec_derive_name, spec_double_marked};
use crate::pipeline::{
    Job, Action, spec_plan, spec_output_path, lemma_double_marked_never_compresses,
};

verus! {

/// A name cannot end with both extensions: they differ one byte in.
proof fn lemma_extensions_differ(s: Seq<u8>)
    requires
        ends_with_seq(s, jpg_ext()),
    ensures
        !ends_with_seq(s, png_ext()),
{
    if ends_with_seq(s, png_ext()) {
        let n = s.len() as int;
        assert(s.subrange(n - 4, n)[1] == png_ext()[1]);
        assert(s.subrange(n - 4, n)[1] == jpg_ext()[1]);
    }
}

/// A string that ends with `x` followed by anything more contains `x`.
proof fn lemma_suffix_gives_contains(s: Seq<u8>, x: Seq<u8>, tail: Seq<u8>)
    requires
        ends_with_seq(s, x + tail),
    ensures
        contains_seq(s, x),
{
    let w = x + tail;
    let n = s.len() as int;
    let i0 = n - w.len();
    assert(s.subrange(i0, n) == w);
    assert(s.subrange(i0, i0 + x.len() as int) =~= w.subrange(0, x.len() as int));
    assert(w.subrange(0, x.len() as int) =~= x);
    assert(match_at(s, x, i0));
}

/// The derivation's naming guarantee for PNG sources: a name ending in
/// `.png` derives to one ending in the pattern followed by `.png`.
pub proof fn lemma_derived_png_name(base: Seq<u8>, p: Seq<u8>)
    requires
        ends_with_seq(base, png_ext()),
    ensures
        ends_with_seq(spec_derive_name(base, p), p + png_ext()),
{
    let f = spec_derive_name(base, p);
    let n = f.len() as int;
    assert(f.subrange(n - (p + png_ext()).len(), n) =~= p + png_ext());
}

/// The derivation's naming guarantee for JPG sources: a name ending in
/// `.jpg` derives to one ending in the pattern followed by `.jpg`.
pub proof fn lemma_derived_jpg_name(base: Seq<u8>, p: Seq<u8>)
    requires
        ends_with_seq(base, jpg_ext()),
    ensures
        ends_with_seq(spec_derive_name(base, p), p + jpg_ext()),
{
    lemma_extensions_differ(base);
    let f = spec_derive_name(base, p);
    let n = f.len() as int;
    assert(f.subrange(n - (p + jpg_ext()).len(), n) =~= p + jpg_ext());
}

/// The guard the double-pattern marker provides: a name the derivation
/// produced from a `.png` or `.jpg` source, run through the derivation a
/// second time under the same pattern, carries the pattern twice in
/// succession. A later run that encounters a finished output therefore
/// recognizes it, whatever the pattern.
pub proof fn lemma_derived_output_is_double_marked(base: Seq<u8>, p: Seq<u8>)
    requires
        ends_with_seq(base, png_ext()) || ends_with_seq(base, jpg_ext()),
    ensures
        spec_double_marked(spec_derive_name(spec_derive_name(base, p), p), p),
{
    let f = spec_derive_name(base, p);
    let out2 = spec_derive_name(f, p);
    let nf = f.len() as int;
    if ends_with_seq(base, png_ext()) {
        let stem = base.subrange(0, base.len() - 4);
        assert(f == stem + p + png_ext());
        assert(f.subrange(nf - 4, nf) =~= png_ext());
        assert(ends_with_seq(f, png_ext()));
        assert(out2 == f.subrange(0, nf - 4) + p + png_ext());
        assert(f.subrange(0, nf - 4) =~= stem + p);
        assert(out2.subrange(out2.len() - ((p + p) + png_ext()).len(), out2.len() as int)
            =~= (p + p) + png_ext());
        lemma_suffix_gives_contains(out2, p + p, png_ext());
    } else {
        lemma_extensions_differ(base);
        let stem = base.subrange(0, base.len() - 4);
        assert(f == stem + p + jpg_ext());
        assert(f.subrange(nf - 4, nf) =~= jpg_ext());
        assert(ends_with_seq(f, jpg_ext()));
        lemma_extensions_differ(f);
        assert(out2 == f.subrange(0, nf - 4) + p + jpg_ext());
        assert(f.subrange(0, nf - 4) =~= stem + p);
        assert(out2.subrange(out2.len() - ((p + p) + jpg_ext()).len(), out2.len() as int)
            =~= (p + p) + jpg_ext());
        lemma_suffix_gives_contains(out2, p + p, jpg_ext());
    }
}

/// A later run over a finished output of an earlier run decides the marker
/// skip, whatever is on disk and whatever the pattern: the output is never
/// reprocessed.
pub proof fn lemma_rerun_on_own_output_skips(source: Seq<u8>, j2: Job, output_exists: bool)
    requires
        ends_with_seq(source, png_ext()) || ends_with_seq(source, jpg_ext()),
        j2.source@ == spec_derive_name(source, j2.pattern@),
        j2.output_override is None,
    ensures
        spec_plan(j2, output_exists) == Action::SkipAlreadyProcessed,
{
    lemma_derived_output_is_double_marked(source, j2.pattern@);
    assert(spec_output_path(j2) == spec_derive_name(j2.source@, j2.pattern@));
    lemma_double_marked_never_compresses(j2, output_exists);
}

} // verus!
