//! Primitive types and their spellings in each target language.
use vstd::prelude::*;

verus! {

/// A language the backends render.
#[derive(Debug, Clone, Copy, PartialEq, Eq, Structural)]
pub enum TargetLanguage {
    Cpp,
    CSharp,
    Rust,
    Python,
    Js,
    Lua,
}

/// A language-agnostic primitive type.
#[derive(Debug, Clone, Copy, PartialEq, Eq, Structural)]
pub enum PrimitiveType {
    Bool,
    I8,
    U8,
    I16,
    U16,
    I32,
    U32,
    I64,
    U64,
    I128,
    U128,
    ISize,
    USize,
    F32,
    F64,
    Char,
    Str,
    Void,
}

/// The spellings of primitive types in target languages: for a primitive type and a language,
/// the type written in that language's output, if one was set.
#[derive(Debug, Clone)]
pub struct TypeMap {
    outputs: Vec<(PrimitiveType, TargetLanguage, String)>,
}

/// The spelling that the latest of `entries` gives `p` in `lang`, if any.
pub open spec fn latest_output(
    entries: Seq<(PrimitiveType, TargetLanguage, String)>,
    p: PrimitiveType,
    lang: TargetLanguage,
) -> Option<Seq<char>>
    decreases entries.len(),
{
    if entries.len() == 0 {
        None
    } else if entries.last().0 == p && entries.last().1 == lang {
        Some(entries.last().2@)
    } else {
        latest_output(entries.drop_last(), p, lang)
    }
}

impl View for TypeMap {
    type V = Map<(PrimitiveType, TargetLanguage), Seq<char>>;

    closed spec fn view(&self) -> Map<(PrimitiveType, TargetLanguage), Seq<char>> {
        Map::new(
            |k: (PrimitiveType, TargetLanguage)| latest_output(self.outputs@, k.0, k.1) is Some,
            |k: (PrimitiveType, TargetLanguage)| latest_output(self.outputs@, k.0, k.1)->0,
        )
    }
}

impl Default for TypeMap {
    /// A map with no spellings.
    fn default() -> (r: Self)
        ensures
            r@ == Map::<(PrimitiveType, TargetLanguage), Seq<char>>::empty(),
    {
        let r = TypeMap { outputs: Vec::new() };
        assert(r@ =~= Map::<(PrimitiveType, TargetLanguage), Seq<char>>::empty());
        r
    }
}

impl TypeMap {
    /// Sets the spelling of `primitive` in the output of `language`.
    pub fn set_output(&mut self, primitive: PrimitiveType, language: TargetLanguage, spelling: &str)
        ensures
            final(self)@ == old(self)@.insert((primitive, language), spelling@),
    {
        self.outputs.push((primitive, language, spelling.to_owned()));
        assert(self.outputs@.drop_last() =~= old(self).outputs@);
        assert(self@ =~= old(self)@.insert((primitive, language), spelling@));
    }

    /// The spelling of `primitive` in the output of `language`, if one was set.
    pub fn output(&self, primitive: PrimitiveType, language: TargetLanguage) -> (r: Option<&str>)
        ensures
            match r {
                Some(s) => self@.contains_key((primitive, language)) && self@[(primitive, language)] == s@,
                None => !self@.contains_key((primitive, language)),
            },
    {
        let mut i: usize = self.outputs.len();
        assert(self.outputs@.take(i as int) =~= self.outputs@);
        while i > 0
            invariant
                i <= self.outputs@.len(),
                latest_output(self.outputs@, primitive, language) == latest_output(
                    self.outputs@.take(i as int),
                    primitive,
                    language,
                ),
            decreases i,
        {
            let e = &self.outputs[i - 1];
            assert(self.outputs@.take(i as int).drop_last() =~= self.outputs@.take(i - 1));
            if e.0 == primitive && e.1 == language {
                return Some(e.2.as_str());
            }
            i = i - 1;
        }
        None
    }
}


impl TargetLanguage {
    /// The variant's name, as `{:?}` prints it.
    pub open spec fn name_text(self) -> Seq<char> {
        match self {
            TargetLanguage::Cpp => "Cpp"@,
            TargetLanguage::CSharp => "CSharp"@,
            TargetLanguage::Rust => "Rust"@,
            TargetLanguage::Python => "Python"@,
            TargetLanguage::Js => "Js"@,
            TargetLanguage::Lua => "Lua"@,
        }
    }

    /// The variant's name, as `{:?}` prints it.
    pub fn name(&self) -> (r: &'static str)
        ensures
            r@ == self.name_text(),
    {
        match self {
            TargetLanguage::Cpp => "Cpp",
            TargetLanguage::CSharp => "CSharp",
            TargetLanguage::Rust => "Rust",
            TargetLanguage::Python => "Python",
            TargetLanguage::Js => "Js",
            TargetLanguage::Lua => "Lua",
        }
    }
}

} // verus!
