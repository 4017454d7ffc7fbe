//! Results of converting between a language's declarations and the neutral IR, with the log of
//! every feature that the conversion could not carry over.
use vstd::prelude::*;

use std::sync::Arc;

use crate::ir::{LanguageEnum, LanguageFunction, LanguageStruct};
use crate::text::{decimal, push_str, push_u128};

verus! {

/// Something a conversion could not carry over exactly.
#[derive(Debug, Clone)]
pub enum ConversionWarning {
    /// A feature that the target has no form for, and what was done instead.
    UnsupportedFeature { feature: String, resolution: String },
    /// A visibility that the target can only approximate.
    VisibilityApproximated { original: String, approximated: String },
    /// Any other loss, described in words.
    Other(String),
}

/// The text of a warning, for contracts.
pub enum WarningText {
    UnsupportedFeature { feature: Seq<char>, resolution: Seq<char> },
    VisibilityApproximated { original: Seq<char>, approximated: Seq<char> },
    Other(Seq<char>),
}

impl View for ConversionWarning {
    type V = WarningText;

    open spec fn view(&self) -> WarningText {
        match self {
            ConversionWarning::UnsupportedFeature { feature, resolution } => WarningText::UnsupportedFeature {
                feature: feature@,
                resolution: resolution@,
            },
            ConversionWarning::VisibilityApproximated { original, approximated } => WarningText::VisibilityApproximated {
                original: original@,
                approximated: approximated@,
            },
            ConversionWarning::Other(message) => WarningText::Other(message@),
        }
    }
}

/// An unsupported-feature warning built from its two texts.
pub open spec fn unsupported(feature: Seq<char>, resolution: Seq<char>) -> WarningText {
    WarningText::UnsupportedFeature { feature, resolution }
}

/// A visibility-approximated warning built from its two texts.
pub open spec fn approximated(original: Seq<char>, approx: Seq<char>) -> WarningText {
    WarningText::VisibilityApproximated { original, approximated: approx }
}

/// The warnings of one conversion, in the order they arose.
#[derive(Debug, Clone)]
pub struct ConversionLog {
    pub warnings: Vec<ConversionWarning>,
}

/// The texts of a list of warnings.
pub open spec fn warning_texts(ws: Seq<ConversionWarning>) -> Seq<WarningText> {
    ws.map_values(|w: ConversionWarning| w@)
}

impl View for ConversionLog {
    type V = Seq<WarningText>;

    open spec fn view(&self) -> Seq<WarningText> {
        warning_texts(self.warnings@)
    }
}

impl ConversionLog {
    /// An empty log.
    pub fn new() -> (r: Self)
        ensures
            r@ == Seq::<WarningText>::empty(),
    {
        let r = ConversionLog { warnings: Vec::new() };
        assert(r@ =~= Seq::<WarningText>::empty());
        r
    }

    /// Records one warning after the others.
    pub fn add_warning(&mut self, warning: ConversionWarning)
        ensures
            final(self)@ == old(self)@.push(warning@),
    {
        self.warnings.push(warning);
        assert(self@ =~= old(self)@.push(warning@));
    }

    /// Records the warnings of another conversion after the others, in their order.
    pub fn add_warnings(&mut self, warnings: Vec<ConversionWarning>)
        ensures
            final(self)@ == old(self)@ + warning_texts(warnings@),
    {
        let ghost added = warnings@;
        let mut warnings = warnings;
        self.warnings.append(&mut warnings);
        assert(self@ =~= old(self)@ + warning_texts(added));
    }

    /// Whether any warning was recorded.
    pub fn has_warnings(&self) -> (r: bool)
        ensures
            r == (self@.len() > 0),
    {
        self.warnings.len() > 0
    }
}

/// A converted value and the log of what its conversion could not carry over.
#[derive(Debug, Clone)]
pub struct ConversionResult<T> {
    pub value: T,
    pub log: ConversionLog,
}

impl<T> ConversionResult<T> {
    /// A value converted without loss.
    pub fn new(value: T) -> (r: Self)
        ensures
            r.value == value,
            r.log@ == Seq::<WarningText>::empty(),
    {
        ConversionResult { value, log: ConversionLog::new() }
    }

    /// A value with the log of its conversion.
    pub fn with_log(value: T, log: ConversionLog) -> (r: Self)
        ensures
            r.value == value,
            r.log@ == log@,
    {
        ConversionResult { value, log }
    }

    /// A value whose conversion lost one thing.
    pub fn with_warning(value: T, warning: ConversionWarning) -> (r: Self)
        ensures
            r.value == value,
            r.log@ == seq![warning@],
    {
        let mut log = ConversionLog::new();
        log.add_warning(warning);
        assert(log@ =~= seq![warning@]);
        ConversionResult { value, log }
    }
}


/// The unsupported-feature warning whose feature is `pre`, `name` and `post` in a row.
pub fn feature_warning(pre: &str, name: &str, post: &str, resolution: &str) -> (w: ConversionWarning)
    ensures
        w@ == unsupported(pre@ + name@ + post@, resolution@),
{
    let mut feature = String::new();
    push_str(&mut feature, pre);
    push_str(&mut feature, name);
    push_str(&mut feature, post);
    ConversionWarning::UnsupportedFeature { feature, resolution: resolution.to_owned() }
}


/// The warnings of several conversions, one after the other.
pub open spec fn flat(parts: Seq<Seq<WarningText>>) -> Seq<WarningText>
    decreases parts.len(),
{
    if parts.len() == 0 {
        Seq::empty()
    } else {
        flat(parts.drop_last()) + parts.last()
    }
}

/// The warnings of the first `i + 1` conversions extend those of the first `i`.
pub proof fn lemma_flat_step(parts: Seq<Seq<WarningText>>, i: int)
    requires
        0 <= i < parts.len(),
    ensures
        flat(parts.take(i + 1)) == flat(parts.take(i)) + parts[i],
{
    assert(parts.take(i + 1).drop_last() =~= parts.take(i));
}

/// All of the parts are the first `len` of them.
pub proof fn lemma_flat_all(parts: Seq<Seq<WarningText>>)
    ensures
        flat(parts.take(parts.len() as int)) == flat(parts),
{
    assert(parts.take(parts.len() as int) =~= parts);
}


/// Each part's warnings are among the warnings of all of them.
pub proof fn lemma_flat_contains(parts: Seq<Seq<WarningText>>, i: int)
    requires
        0 <= i < parts.len(),
    ensures
        flat(parts).len() >= parts[i].len(),
    decreases parts.len(),
{
    if i < parts.len() - 1 {
        lemma_flat_contains(parts.drop_last(), i);
    }
}

/// The warnings of converting each item of an optional list, one after the other.
pub open spec fn opt_flat<T>(items: Option<Vec<T>>, w: spec_fn(T) -> Seq<WarningText>) -> Seq<WarningText> {
    match items {
        Some(v) => flat(Seq::new(v@.len(), |i: int| w(v@[i]))),
        None => Seq::empty(),
    }
}

/// The warning for a feature of the declaration `name` that the target language has no
/// equivalent of, and that the conversion drops.
pub open spec fn dropped_feature(feature: Seq<char>, name: Seq<char>, target: Seq<char>) -> WarningText {
    unsupported(feature + " on `"@ + name + "`"@, target + " has no equivalent; dropped"@)
}

/// Builds the warning for a dropped feature of the declaration `name`.
pub fn dropped_feature_warning(feature: &str, name: &str, target: &str) -> (w: ConversionWarning)
    ensures
        w@ == dropped_feature(feature@, name@, target@),
{
    let mut pre = String::new();
    push_str(&mut pre, feature);
    push_str(&mut pre, " on `");
    let mut resolution = String::new();
    push_str(&mut resolution, target);
    push_str(&mut resolution, " has no equivalent; dropped");
    feature_warning(pre.as_str(), name, "`", resolution.as_str())
}

/// The warning for the `count` annotations and raw attributes of the `kind` declaration
/// `name`, which the target language has no place for, and which the conversion drops.
pub open spec fn dropped_annotations(count: nat, kind: Seq<char>, name: Seq<char>, target: Seq<char>) -> WarningText {
    unsupported(
        decimal(count) + " attribute(s) on "@ + kind + " `"@ + name + "`"@,
        target + " has no attributes; dropped"@,
    )
}

/// Builds the warning for the dropped annotations and raw attributes of a declaration.
pub fn dropped_annotations_warning(count: u128, kind: &str, name: &str, target: &str) -> (w: ConversionWarning)
    ensures
        w@ == dropped_annotations(count as nat, kind@, name@, target@),
{
    let mut pre = String::new();
    push_u128(&mut pre, count);
    push_str(&mut pre, " attribute(s) on ");
    push_str(&mut pre, kind);
    push_str(&mut pre, " `");
    let mut resolution = String::new();
    push_str(&mut resolution, target);
    push_str(&mut resolution, " has no attributes; dropped");
    feature_warning(pre.as_str(), name, "`", resolution.as_str())
}

/// The items of an optional list; none when it is absent.
pub open spec fn opt_seq<T>(items: Option<Vec<T>>) -> Seq<T> {
    match items {
        Some(v) => v@,
        None => Seq::empty(),
    }
}

/// Whether `r` holds, item for item, what `f` converts the items of `v` to.
pub open spec fn opt_items_are<T, U>(r: Option<Vec<U>>, v: Option<Vec<T>>, is: spec_fn(U, T) -> bool) -> bool {
    match v {
        Some(xs) => r matches Some(ys) && ys@.len() == xs@.len() && forall|i: int| 0 <= i < xs@.len() ==> #[trigger] is(ys@[i], xs@[i]),
        None => r is None,
    }
}

} // verus!

verus! {

/// Callbacks a user can give a conversion, to adjust the IR right after a declaration was
/// converted to it, or right before one is converted from it. Each does nothing unless
/// overridden.
pub trait ConversionHooks {
    /// Called on a struct just converted to the IR.
    fn after_to_ir_struct(&self, item: &mut LanguageStruct) {
    }

    /// Called on an enum just converted to the IR.
    fn after_to_ir_enum(&self, item: &mut LanguageEnum) {
    }

    /// Called on a function just converted to the IR.
    fn after_to_ir_function(&self, item: &mut LanguageFunction) {
    }

    /// Called on an IR struct about to be converted from the IR.
    fn before_from_ir_struct(&self, item: &mut LanguageStruct) {
    }

    /// Called on an IR enum about to be converted from the IR.
    fn before_from_ir_enum(&self, item: &mut LanguageEnum) {
    }

    /// Called on an IR function about to be converted from the IR.
    fn before_from_ir_function(&self, item: &mut LanguageFunction) {
    }
}

/// The configuration of a conversion: the user's hooks, if any.
#[derive(Clone)]
pub struct ConversionConfig {
    pub hooks: Option<Arc<dyn ConversionHooks>>,
}

impl Default for ConversionConfig {
    fn default() -> (r: Self)
        ensures
            r.hooks is None,
    {
        ConversionConfig { hooks: None }
    }
}

impl ConversionConfig {
    /// A copy of the configuration, sharing its hooks.
    pub fn share(&self) -> (r: Self)
        ensures
            r.hooks is Some <==> self.hooks is Some,
    {
        ConversionConfig { hooks: self.hooks.clone() }
    }

    /// Applies the user's struct hook, if any, to a struct just converted to the IR.
    pub fn after_to_ir_struct(&self, item: &mut LanguageStruct)
        ensures
            self.hooks is None ==> *final(item) == *old(item),
    {
        if let Some(h) = &self.hooks {
            h.after_to_ir_struct(item);
        }
    }

    /// Applies the user's enum hook, if any, to an enum just converted to the IR.
    pub fn after_to_ir_enum(&self, item: &mut LanguageEnum)
        ensures
            self.hooks is None ==> *final(item) == *old(item),
    {
        if let Some(h) = &self.hooks {
            h.after_to_ir_enum(item);
        }
    }

    /// Applies the user's function hook, if any, to a function just converted to the IR.
    pub fn after_to_ir_function(&self, item: &mut LanguageFunction)
        ensures
            self.hooks is None ==> *final(item) == *old(item),
    {
        if let Some(h) = &self.hooks {
            h.after_to_ir_function(item);
        }
    }

    /// Applies the user's hook, if any, to an IR struct about to be converted from the IR.
    pub fn before_from_ir_struct(&self, item: &mut LanguageStruct)
        ensures
            self.hooks is None ==> *final(item) == *old(item),
    {
        if let Some(h) = &self.hooks {
            h.before_from_ir_struct(item);
        }
    }

    /// Applies the user's hook, if any, to an IR enum about to be converted from the IR.
    pub fn before_from_ir_enum(&self, item: &mut LanguageEnum)
        ensures
            self.hooks is None ==> *final(item) == *old(item),
    {
        if let Some(h) = &self.hooks {
            h.before_from_ir_enum(item);
        }
    }

    /// Applies the user's hook, if any, to an IR function about to be converted from the IR.
    pub fn before_from_ir_function(&self, item: &mut LanguageFunction)
        ensures
            self.hooks is None ==> *final(item) == *old(item),
    {
        if let Some(h) = &self.hooks {
            h.before_from_ir_function(item);
        }
    }
}

/// Whether the options, if given, carry hooks.
pub open spec fn hooked(config: Option<ConversionConfig>) -> bool {
    config matches Some(c) && c.hooks is Some
}

} // verus!
