use vstd::prelude::*;

use crate::conversion::{feature_warning, unsupported, ConversionLog, WarningText};
use crate::ir::{Annotation, RawAttribute, TargetLanguage};
use crate::text::push_str;

verus! {

/// The over-alignment that the annotations ask for: that of the last `Aligned` annotation.
pub open spec fn last_alignment(annotations: Seq<Annotation>) -> Option<u32>
    decreases annotations.len(),
{
    if annotations.len() == 0 {
        None
    } else {
        match annotations.last() {
            Annotation::Aligned(n) => Some(n),
            _ => last_alignment(annotations.drop_last()),
        }
    }
}

/// Finds the over-alignment that the annotations ask for.
pub fn alignment_of(annotations: &Vec<Annotation>) -> (r: Option<u32>)
    ensures
        r == last_alignment(annotations@),
{
    let mut alignment: Option<u32> = None;
    let mut i: usize = 0;
    while i < annotations.len()
        invariant
            i <= annotations@.len(),
            alignment == last_alignment(annotations@.take(i as int)),
        decreases annotations@.len() - i,
    {
        assert(annotations@.take(i + 1).drop_last() =~= annotations@.take(i as int));
        match &annotations[i] {
            Annotation::Aligned(n) => {
                alignment = Some(*n);
            },
            _ => {},
        }
        i = i + 1;
    }
    assert(annotations@.take(i as int) =~= annotations@);
    alignment
}

/// The warnings for the raw attributes of other languages, which C++ cannot take, in order.
pub open spec fn cpp_foreign_warnings(raws: Seq<RawAttribute>) -> Seq<WarningText>
    decreases raws.len(),
{
    if raws.len() == 0 {
        Seq::empty()
    } else {
        cpp_foreign_warnings(raws.drop_last()) + if raws.last().source == TargetLanguage::Cpp {
            Seq::<WarningText>::empty()
        } else {
            seq![unsupported(
                "opaque "@ + raws.last().source.name_text() + " attribute `"@ + raws.last().text@ + "`"@,
                "cannot translate to C++; dropped"@,
            )]
        }
    }
}

/// Raw attributes that lose nothing on the way to C++ are all C++ attributes.
pub proof fn lemma_no_cpp_foreign_warnings(raws: Seq<RawAttribute>)
    requires
        cpp_foreign_warnings(raws).len() == 0,
    ensures
        forall|i: int| 0 <= i < raws.len() ==> (#[trigger] raws[i]).source == TargetLanguage::Cpp,
    decreases raws.len(),
{
    if raws.len() > 0 {
        lemma_no_cpp_foreign_warnings(raws.drop_last());
        assert forall|i: int| 0 <= i < raws.len() implies (#[trigger] raws[i]).source == TargetLanguage::Cpp by {
            if i < raws.len() - 1 {
                assert(raws[i] == raws.drop_last()[i]);
            }
        }
    }
}

/// Reports each raw attribute of another language as dropped; raw C++ attributes are dropped
/// without a word.
pub fn report_foreign_cpp(raws: &Vec<RawAttribute>, log: &mut ConversionLog)
    ensures
        final(log)@ == old(log)@ + cpp_foreign_warnings(raws@),
{
    let ghost start = log@;
    let mut i: usize = 0;
    while i < raws.len()
        invariant
            i <= raws@.len(),
            log@ == start + cpp_foreign_warnings(raws@.take(i as int)),
        decreases raws@.len() - i,
    {
        assert(raws@.take(i + 1).drop_last() =~= raws@.take(i as int));
        let raw = &raws[i];
        if raw.source != TargetLanguage::Cpp {
            let mut pre = String::new();
            push_str(&mut pre, "opaque ");
            push_str(&mut pre, raw.source.name());
            push_str(&mut pre, " attribute `");
            log.add_warning(feature_warning(pre.as_str(), raw.text.as_str(), "`", "cannot translate to C++; dropped"));
        }
        i = i + 1;
        assert(log@ =~= start + cpp_foreign_warnings(raws@.take(i as int)));
    }
    assert(raws@.take(i as int) =~= raws@);
}

} // verus!
