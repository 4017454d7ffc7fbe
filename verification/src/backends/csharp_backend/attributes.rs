//! Mapping between C# native attribute strings and the neutral [`Annotation`] vocabulary.
use vstd::prelude::*;

use crate::conversion::{feature_warning, unsupported, ConversionLog, WarningText};
use crate::ir::{raw_attributes_are, Annotation, RawAttribute, TargetLanguage};
pub use crate::ir::{push_resolved, resolved_texts};
use crate::literal::{str_eq, without_whitespace};
use crate::text::{char_is_whitespace, push_char, push_str, texts};

verus! {

/// The annotation a C# attribute body stands for: sequential struct layout, packed or not,
/// however it is spaced.
pub open spec fn csharp_annotation(attribute: Seq<char>) -> Option<Annotation> {
    let n = without_whitespace(attribute);
    if n == "StructLayout(LayoutKind.Sequential)"@ {
        Some(Annotation::ReprC)
    } else if n == "StructLayout(LayoutKind.Sequential,Pack=1)"@ {
        Some(Annotation::Packed)
    } else {
        None
    }
}

/// Recognize a C# attribute body (without the leading `[`) as a Tier-1 [`Annotation`].
///
/// Returns `None` when the attribute has no curated mapping; the caller carries it as a raw
/// attribute instead.
pub fn csharp_attribute_to_annotation(attribute: &str) -> (r: Option<Annotation>)
    ensures
        r == csharp_annotation(attribute@),
{
    let n = normalize(attribute);
    if str_eq(n.as_str(), "StructLayout(LayoutKind.Sequential)") {
        Some(Annotation::ReprC)
    } else if str_eq(n.as_str(), "StructLayout(LayoutKind.Sequential,Pack=1)") {
        Some(Annotation::Packed)
    } else {
        None
    }
}

/// Strip whitespace so spacing variants of the same attribute compare equal.
fn normalize(attribute: &str) -> (r: String)
    ensures
        r@ == without_whitespace(attribute@),
{
    let n = attribute.unicode_len();
    let mut out = String::new();
    let mut i: usize = 0;
    assert(attribute@.take(0) =~= Seq::<char>::empty());
    while i < n
        invariant
            i <= n,
            n == attribute@.len(),
            out@ == without_whitespace(attribute@.take(i as int)),
        decreases n - i,
    {
        let c = attribute.get_char(i);
        assert(attribute@.take(i + 1).drop_last() =~= attribute@.take(i as int));
        if !char_is_whitespace(c) {
            push_char(&mut out, c);
        }
        i = i + 1;
    }
    assert(attribute@.take(n as int) =~= attribute@);
    out
}

/// Attributes that differ only in whitespace map to the same annotation.
pub proof fn spacing_does_not_change_annotation(a: Seq<char>, b: Seq<char>)
    requires
        without_whitespace(a) == without_whitespace(b),
    ensures
        csharp_annotation(a) == csharp_annotation(b),
{
}


/// The annotations that a list of C# attributes maps to, in order.
pub open spec fn csharp_annotations(attributes: Seq<String>) -> Seq<Annotation>
    decreases attributes.len(),
{
    if attributes.len() == 0 {
        Seq::empty()
    } else {
        csharp_annotations(attributes.drop_last()) + match csharp_annotation(attributes.last()@) {
            Some(a) => seq![a],
            None => Seq::empty(),
        }
    }
}

/// The C# attributes of a list that map to no annotation, in order.
pub open spec fn csharp_raw_texts(attributes: Seq<String>) -> Seq<Seq<char>>
    decreases attributes.len(),
{
    if attributes.len() == 0 {
        Seq::empty()
    } else {
        csharp_raw_texts(attributes.drop_last()) + match csharp_annotation(attributes.last()@) {
            Some(_) => Seq::empty(),
            None => seq![attributes.last()@],
        }
    }
}

/// Splits C# attributes into the annotations they map to and, kept as raw C# attributes, those
/// that map to none.
pub fn classify_csharp_attributes(attributes: &Vec<String>) -> (r: (Vec<Annotation>, Vec<RawAttribute>))
    ensures
        r.0@ == csharp_annotations(attributes@),
        raw_attributes_are(r.1@, TargetLanguage::CSharp, csharp_raw_texts(attributes@)),
{
    let mut annotations: Vec<Annotation> = Vec::new();
    let mut raw: Vec<RawAttribute> = Vec::new();
    let mut i: usize = 0;
    while i < attributes.len()
        invariant
            i <= attributes@.len(),
            annotations@ == csharp_annotations(attributes@.take(i as int)),
            raw_attributes_are(raw@, TargetLanguage::CSharp, csharp_raw_texts(attributes@.take(i as int))),
        decreases attributes@.len() - i,
    {
        assert(attributes@.take(i + 1).drop_last() =~= attributes@.take(i as int));
        match csharp_attribute_to_annotation(attributes[i].as_str()) {
            Some(a) => annotations.push(a),
            None => raw.push(RawAttribute { source: TargetLanguage::CSharp, text: attributes[i].clone() }),
        }
        i = i + 1;
    }
    assert(attributes@.take(attributes@.len() as int) =~= attributes@);
    (annotations, raw)
}


/// The texts of the raw attributes that come from C#, in order.
pub open spec fn csharp_kept_raw(raws: Seq<RawAttribute>) -> Seq<Seq<char>>
    decreases raws.len(),
{
    if raws.len() == 0 {
        Seq::empty()
    } else {
        csharp_kept_raw(raws.drop_last()) + if raws.last().source == TargetLanguage::CSharp {
            seq![raws.last().text@]
        } else {
            Seq::empty()
        }
    }
}

/// The warning for a raw attribute of another language, which C# cannot take.
pub open spec fn foreign_attribute_warning(raw: RawAttribute) -> WarningText {
    unsupported(
        "opaque "@ + raw.source.name_text() + " attribute `"@ + raw.text@ + "`"@,
        "cannot translate to C#; dropped"@,
    )
}

/// The warnings for the raw attributes of other languages, in order.
pub open spec fn foreign_attribute_warnings(raws: Seq<RawAttribute>) -> Seq<WarningText>
    decreases raws.len(),
{
    if raws.len() == 0 {
        Seq::empty()
    } else {
        foreign_attribute_warnings(raws.drop_last()) + if raws.last().source == TargetLanguage::CSharp {
            Seq::<WarningText>::empty()
        } else {
            seq![foreign_attribute_warning(raws.last())]
        }
    }
}

/// Appends the raw C# attributes to `out`, in order, and reports each attribute of another
/// language as dropped.
pub fn push_csharp_raw(raws: &Vec<RawAttribute>, out: &mut Vec<String>, log: &mut ConversionLog)
    ensures
        texts(final(out)@) == texts(old(out)@) + csharp_kept_raw(raws@),
        final(log)@ == old(log)@ + foreign_attribute_warnings(raws@),
{
    let ghost start = texts(out@);
    let ghost lstart = log@;
    let mut i: usize = 0;
    while i < raws.len()
        invariant
            i <= raws@.len(),
            texts(out@) == start + csharp_kept_raw(raws@.take(i as int)),
            log@ == lstart + foreign_attribute_warnings(raws@.take(i as int)),
        decreases raws@.len() - i,
    {
        assert(raws@.take(i + 1).drop_last() =~= raws@.take(i as int));
        let raw = &raws[i];
        let ghost before = out@;
        if raw.source == TargetLanguage::CSharp {
            out.push(raw.text.clone());
            assert(texts(out@) =~= texts(before) + seq![raw.text@]);
        } else {
            let mut pre = String::new();
            push_str(&mut pre, "opaque ");
            push_str(&mut pre, raw.source.name());
            push_str(&mut pre, " attribute `");
            log.add_warning(feature_warning(pre.as_str(), raw.text.as_str(), "`", "cannot translate to C#; dropped"));
        }
        i = i + 1;
        assert(texts(out@) =~= start + csharp_kept_raw(raws@.take(i as int)));
        assert(log@ =~= lstart + foreign_attribute_warnings(raws@.take(i as int)));
    }
    assert(raws@.take(i as int) =~= raws@);
}

} // verus!
