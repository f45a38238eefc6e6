//! The selection extractor: recovers from a ranked result list the single
//! glyph to inject — the part of the top label before its first blank.

use crate::corpus::entry_label;
use crate::ranker::RankedResult;
use vstd::prelude::*;
use vstd::string::StrSliceExecFns;
use vstd::string::StringExecFns;

verus! {

/// The position of the first blank in `label`, or `label.len()` if there
/// is none.
pub open spec fn first_blank(label: Seq<char>) -> int
    decreases label.len(),
{
    if label.len() == 0 {
        0
    } else if label[0] == ' ' {
        0
    } else {
        1 + first_blank(label.drop_first())
    }
}

/// The glyph carried by a label: everything before the first blank. For a
/// well-formed corpus label `"<glyph> <shortcode>"` this is the glyph.
pub open spec fn glyph_of(label: Seq<char>) -> Seq<char> {
    label.take(first_blank(label))
}

/// The first blank's position is characterised by what stands before and
/// at it.
proof fn lemma_first_blank_at(label: Seq<char>, j: int)
    requires
        0 <= j <= label.len(),
        forall|k: int| 0 <= k < j ==> label[k] != ' ',
        j < label.len() ==> label[j] == ' ',
    ensures
        first_blank(label) == j,
    decreases j,
{
    if label.len() == 0 {
    } else if label[0] == ' ' {
        if j > 0 {
            assert(label[0] != ' ');
        }
    } else {
        assert(j >= 1);
        let d = label.drop_first();
        assert forall|k: int| 0 <= k < j - 1 implies d[k] != ' ' by {
            assert(d[k] == label[k + 1]);
        }
        assert(j - 1 < d.len() ==> d[j - 1] == ' ');
        lemma_first_blank_at(d, j - 1);
    }
}

/// For a label built from a blank-free glyph and a shortcode, the
/// extracted glyph is the glyph itself: the label's first blank is the
/// separator standing right after it.
pub proof fn lemma_glyph_of_entry_label(glyph: Seq<char>, code: Seq<char>)
    requires
        !glyph.contains(' '),
    ensures
        glyph_of(entry_label(glyph, code)) == glyph,
{
    let label = entry_label(glyph, code);
    assert forall|k: int| 0 <= k < glyph.len() implies label[k] != ' ' by {
        assert(label[k] == glyph[k]);
        if glyph[k] == ' ' {
            assert(glyph.contains(' '));
        }
    }
    assert(label[glyph.len() as int] == ' ');
    lemma_first_blank_at(label, glyph.len() as int);
    assert(label.take(glyph.len() as int) =~= glyph);
}

/// Take the top-ranked result, if any, and return the glyph its label
/// carries. Returns `None` exactly when there are no results, so the
/// armed selection always tracks the current top of the list.
pub fn extract(results: &Vec<RankedResult>) -> (g: Option<String>)
    ensures
        g is None <==> results@.len() == 0,
        results@.len() > 0 ==> (g matches Some(s) && s@ == glyph_of(results@[0].label@)),
{
    if results.len() == 0 {
        return None;
    }
    let label: &str = results[0].label.as_str();
    let n: usize = label.unicode_len();
    let mut j: usize = 0;
    while j < n && label.get_char(j) != ' '
        invariant
            j <= n,
            n == label@.len(),
            forall|k: int| 0 <= k < j ==> label@[k] != ' ',
        decreases n - j,
    {
        j = j + 1;
    }
    proof {
        lemma_first_blank_at(label@, j as int);
    }
    let glyph = label.substring_char(0, j);
    proof {
        assert(glyph@ =~= glyph_of(label@));
    }
    Some(String::from_str(glyph))
}

} // verus!
