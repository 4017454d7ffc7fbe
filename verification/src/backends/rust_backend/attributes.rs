//! Mapping between Rust native attribute strings and the neutral [`Annotation`] vocabulary.
use vstd::prelude::*;

use crate::conversion::{feature_warning, unsupported, ConversionLog, WarningText};
use crate::ir::{raw_attributes_are, Annotation, RawAttribute, TargetLanguage};
use crate::literal::{
    accepts_int, digits_value, has_prefix, has_suffix, int_digits, lemma_decimal_digits, lemma_digits_untrimmed,
    parse_u32, str_eq, strip_prefix, strip_suffix, trim, trim_ws,
};
use crate::text::{decimal, push_str, texts};

verus! {

/// The alignment `N` written as `repr(align(N))` (spaces allowed around `N`), if that is what
/// the attribute is.
pub open spec fn repr_align_value(attribute: Seq<char>) -> Option<u32> {
    let rest = attribute.skip("repr(align("@.len() as int);
    if has_prefix(attribute, "repr(align("@) && has_suffix(rest, "))"@) {
        let inner = trim_ws(rest.take(rest.len() - "))"@.len()));
        if accepts_int(inner, false, false, 0, u32::MAX as int) {
            Some(digits_value(int_digits(inner, false), false) as u32)
        } else {
            None
        }
    } else {
        None
    }
}

/// The annotation a Rust attribute body stands for: `repr(C)`, `repr(packed)` or
/// `repr(align(N))`, with surrounding whitespace ignored.
pub open spec fn rust_annotation(attribute: Seq<char>) -> Option<Annotation> {
    let t = trim_ws(attribute);
    if t == "repr(C)"@ {
        Some(Annotation::ReprC)
    } else if t == "repr(packed)"@ {
        Some(Annotation::Packed)
    } else {
        match repr_align_value(t) {
            Some(n) => Some(Annotation::Aligned(n)),
            None => None,
        }
    }
}

/// Recognize a Rust attribute body (without the leading `#[`) as a Tier-1 [`Annotation`].
///
/// Returns `None` when the attribute has no curated mapping; the caller carries it as a raw
/// attribute instead.
pub fn rust_attribute_to_annotation(attribute: &str) -> (r: Option<Annotation>)
    ensures
        r == rust_annotation(attribute@),
{
    let t = trim(attribute);
    if str_eq(t, "repr(C)") {
        Some(Annotation::ReprC)
    } else if str_eq(t, "repr(packed)") {
        Some(Annotation::Packed)
    } else {
        match parse_repr_align(t) {
            Some(n) => Some(Annotation::Aligned(n)),
            None => None,
        }
    }
}

/// Parse `repr(align(N))` into `N`.
fn parse_repr_align(attribute: &str) -> (r: Option<u32>)
    ensures
        r == repr_align_value(attribute@),
{
    let rest = match strip_prefix(attribute, "repr(align(") {
        Some(rest) => rest,
        None => return None,
    };
    let inner = match strip_suffix(rest, "))") {
        Some(inner) => inner,
        None => return None,
    };
    parse_u32(trim(inner))
}

/// Writing an alignment as `repr(align(N))` and reading the attribute back gives `N`.
pub proof fn repr_align_round_trip(n: u32)
    ensures
        rust_annotation("repr(align("@ + decimal(n as nat) + "))"@) == Some(Annotation::Aligned(n)),
{
    reveal_strlit("repr(align(");
    reveal_strlit("))");
    reveal_strlit("repr(C)");
    reveal_strlit("repr(packed)");
    let d = decimal(n as nat);
    lemma_decimal_digits(n as nat);
    let t = "repr(align("@ + d + "))"@;
    assert(t[0] == 'r');
    assert(t[t.len() - 1] == ')');
    assert(trim_ws(t) == t);
    assert(t.len() != "repr(C)"@.len());
    assert(t.len() != "repr(packed)"@.len());
    let rest = t.skip("repr(align("@.len() as int);
    assert(t.take("repr(align("@.len() as int) =~= "repr(align("@);
    assert(rest =~= d + "))"@);
    assert(rest.skip(rest.len() - "))"@.len()) =~= "))"@);
    assert(rest.take(rest.len() - "))"@.len()) =~= d);
    lemma_digits_untrimmed(d);
    assert('0' <= d[0] <= '9');
    assert(int_digits(d, false) == d);
}


/// The warning for one Rust attribute on the `kind` named `name`, which the IR drops.
pub open spec fn rust_attribute_warning(attribute: Seq<char>, kind: Seq<char>, name: Seq<char>) -> WarningText {
    unsupported(
        "attribute `#["@ + attribute + "]` on "@ + kind + " `"@ + name + "`"@,
        "Rust attributes are dropped from the language-agnostic IR"@,
    )
}

/// The warnings for each of the attributes, in order.
pub open spec fn rust_attribute_warnings(attributes: Seq<String>, kind: Seq<char>, name: Seq<char>) -> Seq<WarningText> {
    Seq::new(attributes.len(), |i: int| rust_attribute_warning(attributes[i]@, kind, name))
}

/// Reports each attribute of the `kind` named `name` as dropped.
pub fn warn_dropped_attributes(attributes: &Vec<String>, kind: &str, name: &str, log: &mut ConversionLog)
    ensures
        final(log)@ == old(log)@ + rust_attribute_warnings(attributes@, kind@, name@),
{
    let ghost start = log@;
    let mut i: usize = 0;
    while i < attributes.len()
        invariant
            i <= attributes@.len(),
            log@ == start + rust_attribute_warnings(attributes@.take(i as int), kind@, name@),
        decreases attributes@.len() - i,
    {
        let mut pre = String::new();
        push_str(&mut pre, "attribute `#[");
        push_str(&mut pre, attributes[i].as_str());
        push_str(&mut pre, "]` on ");
        push_str(&mut pre, kind);
        push_str(&mut pre, " `");
        log.add_warning(feature_warning(pre.as_str(), name, "`", "Rust attributes are dropped from the language-agnostic IR"));
        i = i + 1;
        assert(log@ =~= start + rust_attribute_warnings(attributes@.take(i as int), kind@, name@));
    }
    assert(attributes@.take(attributes@.len() as int) =~= attributes@);
}

/// The texts of derives as raw Rust attributes: `derive(Name)`.
pub open spec fn derive_texts(derives: Seq<String>) -> Seq<Seq<char>> {
    Seq::new(derives.len(), |i: int| "derive("@ + derives[i]@ + ")"@)
}

/// The raw Rust attributes `derive(Name)` of the derives, in order, after those in `raw`.
pub fn push_derives(derives: &Vec<String>, raw: &mut Vec<RawAttribute>)
    requires
        raw_attributes_are(old(raw)@, TargetLanguage::Rust, Seq::empty()),
    ensures
        raw_attributes_are(final(raw)@, TargetLanguage::Rust, derive_texts(derives@)),
{
    let mut i: usize = 0;
    while i < derives.len()
        invariant
            i <= derives@.len(),
            raw_attributes_are(raw@, TargetLanguage::Rust, derive_texts(derives@.take(i as int))),
        decreases derives@.len() - i,
    {
        let mut text = String::new();
        push_str(&mut text, "derive(");
        push_str(&mut text, derives[i].as_str());
        push_str(&mut text, ")");
        raw.push(RawAttribute { source: TargetLanguage::Rust, text });
        i = i + 1;
        assert(derive_texts(derives@.take(i as int)) =~= derive_texts(derives@.take(i - 1)).push(
            "derive("@ + derives@[i - 1]@ + ")"@,
        ));
    }
    assert(derives@.take(derives@.len() as int) =~= derives@);
}


/// The annotations that a list of Rust attributes maps to, in order.
pub open spec fn rust_annotations(attributes: Seq<String>) -> Seq<Annotation>
    decreases attributes.len(),
{
    if attributes.len() == 0 {
        Seq::empty()
    } else {
        rust_annotations(attributes.drop_last()) + match rust_annotation(attributes.last()@) {
            Some(a) => seq![a],
            None => Seq::empty(),
        }
    }
}

/// The Rust attributes of a list that map to no annotation, in order.
pub open spec fn rust_raw_texts(attributes: Seq<String>) -> Seq<Seq<char>>
    decreases attributes.len(),
{
    if attributes.len() == 0 {
        Seq::empty()
    } else {
        rust_raw_texts(attributes.drop_last()) + match rust_annotation(attributes.last()@) {
            Some(_) => Seq::empty(),
            None => seq![attributes.last()@],
        }
    }
}

/// Splits Rust attributes into the annotations they map to and, appended to `raw` as raw Rust
/// attributes, those that map to none.
pub fn classify_rust_attributes(attributes: &Vec<String>, raw: &mut Vec<RawAttribute>) -> (r: Vec<Annotation>)
    requires
        forall|i: int| 0 <= i < old(raw)@.len() ==> (#[trigger] old(raw)@[i]).source == TargetLanguage::Rust,
    ensures
        r@ == rust_annotations(attributes@),
        final(raw)@.len() == old(raw)@.len() + rust_raw_texts(attributes@).len(),
        forall|i: int| 0 <= i < old(raw)@.len() ==> #[trigger] final(raw)@[i] == old(raw)@[i],
        forall|i: int| 0 <= i < final(raw)@.len() ==> (#[trigger] final(raw)@[i]).source == TargetLanguage::Rust,
        forall|i: int|
            0 <= i < rust_raw_texts(attributes@).len() ==> #[trigger] final(raw)@[old(raw)@.len() + i].text@
                == rust_raw_texts(attributes@)[i],
{
    let ghost start = raw@;
    let mut annotations: Vec<Annotation> = Vec::new();
    let mut i: usize = 0;
    while i < attributes.len()
        invariant
            i <= attributes@.len(),
            annotations@ == rust_annotations(attributes@.take(i as int)),
            raw@.len() == start.len() + rust_raw_texts(attributes@.take(i as int)).len(),
            forall|k: int| 0 <= k < start.len() ==> #[trigger] raw@[k] == start[k],
            forall|k: int| 0 <= k < raw@.len() ==> (#[trigger] raw@[k]).source == TargetLanguage::Rust,
            forall|k: int|
                0 <= k < rust_raw_texts(attributes@.take(i as int)).len() ==> #[trigger] raw@[start.len() + k].text@
                    == rust_raw_texts(attributes@.take(i as int))[k],
        decreases attributes@.len() - i,
    {
        assert(attributes@.take(i + 1).drop_last() =~= attributes@.take(i as int));
        match rust_attribute_to_annotation(attributes[i].as_str()) {
            Some(a) => annotations.push(a),
            None => raw.push(RawAttribute { source: TargetLanguage::Rust, text: attributes[i].clone() }),
        }
        i = i + 1;
    }
    assert(attributes@.take(attributes@.len() as int) =~= attributes@);
    annotations
}


/// The derive named by a raw attribute `derive(Name)`, if it is one.
pub open spec fn derive_name(text: Seq<char>) -> Option<Seq<char>> {
    if has_prefix(text, "derive("@) && has_suffix(text.skip(7), ")"@) {
        Some(text.skip(7).take(text.skip(7).len() - 1))
    } else {
        None
    }
}

/// The derives among the raw Rust attributes, in order.
pub open spec fn rust_raw_derives(raws: Seq<RawAttribute>) -> Seq<Seq<char>>
    decreases raws.len(),
{
    if raws.len() == 0 {
        Seq::empty()
    } else {
        rust_raw_derives(raws.drop_last()) + if raws.last().source == TargetLanguage::Rust && derive_name(
            raws.last().text@,
        ) is Some {
            seq![derive_name(raws.last().text@)->0]
        } else {
            Seq::empty()
        }
    }
}

/// The raw Rust attributes that are no derive, in order.
pub open spec fn rust_raw_others(raws: Seq<RawAttribute>) -> Seq<Seq<char>>
    decreases raws.len(),
{
    if raws.len() == 0 {
        Seq::empty()
    } else {
        rust_raw_others(raws.drop_last()) + if raws.last().source == TargetLanguage::Rust && derive_name(
            raws.last().text@,
        ) is None {
            seq![raws.last().text@]
        } else {
            Seq::empty()
        }
    }
}

/// The warnings for the raw attributes of other languages, which Rust cannot take, in order.
pub open spec fn rust_foreign_warnings(raws: Seq<RawAttribute>) -> Seq<WarningText>
    decreases raws.len(),
{
    if raws.len() == 0 {
        Seq::empty()
    } else {
        rust_foreign_warnings(raws.drop_last()) + if raws.last().source == TargetLanguage::Rust {
            Seq::<WarningText>::empty()
        } else {
            seq![unsupported(
                "opaque "@ + raws.last().source.name_text() + " attribute `"@ + raws.last().text@ + "`"@,
                "cannot translate to Rust; dropped"@,
            )]
        }
    }
}

/// Raw attributes that lose nothing on the way to Rust are all Rust attributes.
pub proof fn lemma_no_foreign_warnings(raws: Seq<RawAttribute>)
    requires
        rust_foreign_warnings(raws).len() == 0,
    ensures
        forall|i: int| 0 <= i < raws.len() ==> (#[trigger] raws[i]).source == TargetLanguage::Rust,
    decreases raws.len(),
{
    if raws.len() > 0 {
        lemma_no_foreign_warnings(raws.drop_last());
        assert forall|i: int| 0 <= i < raws.len() implies (#[trigger] raws[i]).source == TargetLanguage::Rust by {
            if i < raws.len() - 1 {
                assert(raws[i] == raws.drop_last()[i]);
            }
        }
    }
}

/// Sorts the raw Rust attributes into derives and other attributes, appended in order, and
/// reports each attribute of another language as dropped.
pub fn sort_rust_raw(raws: &Vec<RawAttribute>, derives: &mut Vec<String>, attributes: &mut Vec<String>, log: &mut ConversionLog)
    ensures
        texts(final(derives)@) == texts(old(derives)@) + rust_raw_derives(raws@),
        texts(final(attributes)@) == texts(old(attributes)@) + rust_raw_others(raws@),
        final(log)@ == old(log)@ + rust_foreign_warnings(raws@),
{
    let ghost d0 = texts(derives@);
    let ghost a0 = texts(attributes@);
    let ghost l0 = log@;
    let mut i: usize = 0;
    while i < raws.len()
        invariant
            i <= raws@.len(),
            texts(derives@) == d0 + rust_raw_derives(raws@.take(i as int)),
            texts(attributes@) == a0 + rust_raw_others(raws@.take(i as int)),
            log@ == l0 + rust_foreign_warnings(raws@.take(i as int)),
        decreases raws@.len() - i,
    {
        assert(raws@.take(i + 1).drop_last() =~= raws@.take(i as int));
        let raw = &raws[i];
        let ghost db = derives@;
        let ghost ab = attributes@;
        if raw.source != TargetLanguage::Rust {
            let mut pre = String::new();
            push_str(&mut pre, "opaque ");
            push_str(&mut pre, raw.source.name());
            push_str(&mut pre, " attribute `");
            log.add_warning(feature_warning(pre.as_str(), raw.text.as_str(), "`", "cannot translate to Rust; dropped"));
        } else {
            let inner = match strip_prefix(raw.text.as_str(), "derive(") {
                Some(rest) => strip_suffix(rest, ")"),
                None => None,
            };
            proof {
                reveal_strlit("derive(");
                reveal_strlit(")");
            }
            match inner {
                Some(d) => {
                    derives.push(d.to_owned());
                    assert(texts(derives@) =~= texts(db) + seq![d@]);
                },
                None => {
                    attributes.push(raw.text.clone());
                    assert(texts(attributes@) =~= texts(ab) + seq![raw.text@]);
                },
            }
        }
        i = i + 1;
        assert(texts(derives@) =~= d0 + rust_raw_derives(raws@.take(i as int)));
        assert(texts(attributes@) =~= a0 + rust_raw_others(raws@.take(i as int)));
        assert(log@ =~= l0 + rust_foreign_warnings(raws@.take(i as int)));
    }
    assert(raws@.take(i as int) =~= raws@);
}

} // verus!
