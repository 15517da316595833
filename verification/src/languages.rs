//! The closed set of languages a project can be created for, and the text
//! encoding under which a language is persisted in the registry.

use vstd::prelude::*;

use crate::strutil::str_eq;

verus! {

#[derive(Debug, Clone, Copy, PartialEq, Eq, Hash, Structural)]
pub enum ProgrammingLanguage {
    Rust,
    Python,
    JavaScript,
    Java,
    C,
    CSharp,
    CPlusPlus,
    Go,
    Swift,
    Kotlin,
}

/// Every language, in the order the setup screen offers them.
pub open spec fn all_languages() -> Seq<ProgrammingLanguage> {
    seq![
        ProgrammingLanguage::Rust,
        ProgrammingLanguage::Python,
        ProgrammingLanguage::JavaScript,
        ProgrammingLanguage::Java,
        ProgrammingLanguage::C,
        ProgrammingLanguage::CSharp,
        ProgrammingLanguage::CPlusPlus,
        ProgrammingLanguage::Go,
        ProgrammingLanguage::Swift,
        ProgrammingLanguage::Kotlin,
    ]
}

/// The symbolic name under which a language is stored.
pub open spec fn language_name_spec(l: ProgrammingLanguage) -> Seq<char> {
    match l {
        ProgrammingLanguage::Rust => "Rust"@,
        ProgrammingLanguage::Python => "Python"@,
        ProgrammingLanguage::JavaScript => "JavaScript"@,
        ProgrammingLanguage::Java => "Java"@,
        ProgrammingLanguage::C => "C"@,
        ProgrammingLanguage::CSharp => "CSharp"@,
        ProgrammingLanguage::CPlusPlus => "CPlusPlus"@,
        ProgrammingLanguage::Go => "Go"@,
        ProgrammingLanguage::Swift => "Swift"@,
        ProgrammingLanguage::Kotlin => "Kotlin"@,
    }
}

/// The language a stored name decodes to, if it is recognized. An
/// unrecognized name decodes to nothing rather than to a default, so a
/// corrupted record is never silently reinterpreted.
pub open spec fn language_from_name_spec(s: Seq<char>) -> Option<ProgrammingLanguage> {
    if s == language_name_spec(ProgrammingLanguage::Rust) {
        Some(ProgrammingLanguage::Rust)
    } else if s == language_name_spec(ProgrammingLanguage::Python) {
        Some(ProgrammingLanguage::Python)
    } else if s == language_name_spec(ProgrammingLanguage::JavaScript) {
        Some(ProgrammingLanguage::JavaScript)
    } else if s == language_name_spec(ProgrammingLanguage::Java) {
        Some(ProgrammingLanguage::Java)
    } else if s == language_name_spec(ProgrammingLanguage::C) {
        Some(ProgrammingLanguage::C)
    } else if s == language_name_spec(ProgrammingLanguage::CSharp) {
        Some(ProgrammingLanguage::CSharp)
    } else if s == language_name_spec(ProgrammingLanguage::CPlusPlus) {
        Some(ProgrammingLanguage::CPlusPlus)
    } else if s == language_name_spec(ProgrammingLanguage::Go) {
        Some(ProgrammingLanguage::Go)
    } else if s == language_name_spec(ProgrammingLanguage::Swift) {
        Some(ProgrammingLanguage::Swift)
    } else if s == language_name_spec(ProgrammingLanguage::Kotlin) {
        Some(ProgrammingLanguage::Kotlin)
    } else {
        None
    }
}

impl ProgrammingLanguage {
    pub fn all_langs() -> (r: Vec<ProgrammingLanguage>)
        ensures
            r@ == all_languages(),
    {
        let r = vec![
            ProgrammingLanguage::Rust,
            ProgrammingLanguage::Python,
            ProgrammingLanguage::JavaScript,
            ProgrammingLanguage::Java,
            ProgrammingLanguage::C,
            ProgrammingLanguage::CSharp,
            ProgrammingLanguage::CPlusPlus,
            ProgrammingLanguage::Go,
            ProgrammingLanguage::Swift,
            ProgrammingLanguage::Kotlin,
        ];
        proof {
            assert(r@ =~= all_languages());
        }
        r
    }

    /// The symbolic name under which this language is stored.
    pub fn name(&self) -> (r: &'static str)
        ensures
            r@ == language_name_spec(*self),
    {
        match self {
            ProgrammingLanguage::Rust => "Rust",
            ProgrammingLanguage::Python => "Python",
            ProgrammingLanguage::JavaScript => "JavaScript",
            ProgrammingLanguage::Java => "Java",
            ProgrammingLanguage::C => "C",
            ProgrammingLanguage::CSharp => "CSharp",
            ProgrammingLanguage::CPlusPlus => "CPlusPlus",
            ProgrammingLanguage::Go => "Go",
            ProgrammingLanguage::Swift => "Swift",
            ProgrammingLanguage::Kotlin => "Kotlin",
        }
    }

    /// Decodes a stored name back into a language.
    pub fn from_name(s: &str) -> (r: Option<ProgrammingLanguage>)
        ensures
            r == language_from_name_spec(s@),
    {
        if str_eq(s, "Rust") {
            Some(ProgrammingLanguage::Rust)
        } else if str_eq(s, "Python") {
            Some(ProgrammingLanguage::Python)
        } else if str_eq(s, "JavaScript") {
            Some(ProgrammingLanguage::JavaScript)
        } else if str_eq(s, "Java") {
            Some(ProgrammingLanguage::Java)
        } else if str_eq(s, "C") {
            Some(ProgrammingLanguage::C)
        } else if str_eq(s, "CSharp") {
            Some(ProgrammingLanguage::CSharp)
        } else if str_eq(s, "CPlusPlus") {
            Some(ProgrammingLanguage::CPlusPlus)
        } else if str_eq(s, "Go") {
            Some(ProgrammingLanguage::Go)
        } else if str_eq(s, "Swift") {
            Some(ProgrammingLanguage::Swift)
        } else if str_eq(s, "Kotlin") {
            Some(ProgrammingLanguage::Kotlin)
        } else {
            None
        }
    }
}

/// Decoding the stored name of a language gives back exactly that language.
pub proof fn lemma_language_name_round_trip(l: ProgrammingLanguage)
    ensures
        language_from_name_spec(language_name_spec(l)) == Some(l),
{
    reveal_strlit("Rust");
    reveal_strlit("Python");
    reveal_strlit("JavaScript");
    reveal_strlit("Java");
    reveal_strlit("C");
    reveal_strlit("CSharp");
    reveal_strlit("CPlusPlus");
    reveal_strlit("Go");
    reveal_strlit("Swift");
    reveal_strlit("Kotlin");
    // The names have pairwise different lengths or first characters, so no
    // earlier branch of the decoder can capture a later name.
    assert("Rust"@.len() == 4 && "Python"@.len() == 6 && "JavaScript"@.len() == 10);
    assert("Java"@.len() == 4 && "C"@.len() == 1 && "CSharp"@.len() == 6);
    assert("CPlusPlus"@.len() == 9 && "Go"@.len() == 2 && "Swift"@.len() == 5);
    assert("Kotlin"@.len() == 6);
    assert("Rust"@[0] == 'R' && "Java"@[0] == 'J');
    assert("Python"@[0] == 'P' && "CSharp"@[0] == 'C' && "Kotlin"@[0] == 'K');
}

/// A name only ever decodes to the language it encodes: decoding is the
/// inverse of encoding.
pub proof fn lemma_language_name_injective(s: Seq<char>, l: ProgrammingLanguage)
    requires
        language_from_name_spec(s) == Some(l),
    ensures
        s == language_name_spec(l),
{
}

} // verus!
