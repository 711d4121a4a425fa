pub use crate::gender::Gender;
use crate::text::{contains_char, contains_text, occurs_in};
use vstd::prelude::*;
use vstd::string::*;

verus! {

/// A directory or file path of the operating system. Nothing is known of
/// what such a value holds: it is only handed on.
#[verifier::external_type_specification]
#[verifier::external_body]
pub struct ExPathBuf(std::path::PathBuf);

/// What a stored name says, as plain values.
pub struct NameRecord {
    pub name: Seq<char>,
    pub language: Option<Seq<char>>,
    pub meaning: Option<Seq<char>>,
    pub gender: Gender,
    pub fictional: bool,
}

/// What a query asks for, as plain values. An absent field, and a
/// `fictional` of `false`, ask for nothing.
pub struct FilterSpec {
    pub name: Option<Seq<char>>,
    pub language: Option<Seq<char>>,
    pub meaning: Option<Seq<char>>,
    pub gender: Option<Gender>,
    pub length: Option<nat>,
    pub contains: Option<Seq<char>>,
    pub contains_letter: Option<char>,
    pub fictional: bool,
}

/// A name with what is known of it: the unit that is stored.
#[derive(Debug)]
pub struct WriteArgs {
    /// The name itself.
    pub name: String,
    /// Language of origin.
    pub language: Option<String>,
    /// Meaning or etymology, free text.
    pub meaning: Option<String>,
    pub gender: Gender,
    /// Whether the name comes from fiction.
    pub fictional: bool,
}

impl View for WriteArgs {
    type V = NameRecord;

    open spec fn view(&self) -> NameRecord {
        NameRecord {
            name: self.name@,
            language: text_of(self.language),
            meaning: text_of(self.meaning),
            gender: self.gender,
            fictional: self.fictional,
        }
    }
}

/// The constraints of a query. Each field that is present narrows the
/// result; `fictional` narrows it only when `true`.
#[derive(Debug)]
pub struct ReadArgs {
    pub name: Option<String>,
    pub language: Option<String>,
    pub meaning: Option<String>,
    pub gender: Option<Gender>,
    pub length: Option<u8>,
    pub contains: Option<String>,
    pub contains_letter: Option<char>,
    pub fictional: bool,
}

impl View for ReadArgs {
    type V = FilterSpec;

    open spec fn view(&self) -> FilterSpec {
        FilterSpec {
            name: text_of(self.name),
            language: text_of(self.language),
            meaning: text_of(self.meaning),
            gender: self.gender,
            length: match self.length {
                Some(length) => Some(length as nat),
                None => None,
            },
            contains: text_of(self.contains),
            contains_letter: self.contains_letter,
            fictional: self.fictional,
        }
    }
}

/// What is to be done: note a name down, or look names up.
#[derive(Debug)]
pub enum Commands {
    Write(WriteArgs),
    Read(ReadArgs),
}

/// A command with the place of the store.
#[derive(Debug)]
pub struct Cli {
    pub command: Commands,
    /// The directory that holds the store; the home directory where absent.
    pub path: Option<std::path::PathBuf>,
}

/// A record can be stored when it has a name. Nothing in this library
/// makes a record, so nothing in it asks for this: whoever takes a name in
/// does.
pub open spec fn has_name(record: NameRecord) -> bool {
    record.name.len() > 0
}

/// The text of an optional string.
pub open spec fn text_of(field: Option<String>) -> Option<Seq<char>> {
    match field {
        Some(text) => Some(text@),
        None => None,
    }
}

/// Whether `record` meets every constraint that `filter` states.
///
/// - `name`: the record's name is exactly the one asked for;
/// - `contains_letter`: the name holds that character;
/// - `contains`: the name holds that run of characters;
/// - `language`: the record has a language, and it is exactly the one asked for;
/// - `meaning`: the record has a meaning, and it holds the run of characters
///   asked for;
/// - `gender`: the record's gender passes the requested one
///   (see [`Gender::passes`]);
/// - `length`: the name has exactly that many characters;
/// - `fictional`: when set, the record is fictional.
///
/// A filter without constraints is met by every record.
pub open spec fn record_matches(record: NameRecord, filter: FilterSpec) -> bool {
    &&& filter.name matches Some(name) ==> record.name == name
    &&& filter.contains_letter matches Some(letter) ==> record.name.contains(letter)
    &&& filter.contains matches Some(part) ==> occurs_in(part, record.name)
    &&& filter.language matches Some(language) ==> record.language == Some(language)
    &&& filter.meaning matches Some(part) ==> (record.meaning matches Some(meaning) && occurs_in(
        part,
        meaning,
    ))
    &&& filter.gender matches Some(requested) ==> record.gender.passes(requested)
    &&& filter.length matches Some(length) ==> record.name.len() == length
    &&& filter.fictional ==> record.fictional
}

/// The filter that states no constraint.
pub open spec fn no_constraint(filter: FilterSpec) -> bool {
    &&& filter.name is None
    &&& filter.language is None
    &&& filter.meaning is None
    &&& filter.gender is None
    &&& filter.length is None
    &&& filter.contains is None
    &&& filter.contains_letter is None
    &&& !filter.fictional
}

/// One line of a report: `label` followed by `value` and a line break;
/// nothing where the value is absent.
pub open spec fn rendered_line(label: Seq<char>, value: Option<Seq<char>>) -> Seq<char> {
    match value {
        Some(text) => label + text + "\n"@,
        None => Seq::empty(),
    }
}

/// The report on one record: the name between single quotes, then one line
/// for each attribute that is present. The gender is always shown; the mark
/// `(fictional)` only on a fictional name.
pub open spec fn rendered_record(record: NameRecord) -> Seq<char> {
    "'"@ + record.name + "'\n"@ + rendered_line("Language: "@, record.language) + rendered_line(
        "Meaning: "@,
        record.meaning,
    ) + rendered_line("Gender: "@, Some(record.gender.label_text())) + (if record.fictional {
        "(fictional)\n"@
    } else {
        Seq::empty()
    })
}

/// No constraint among the first `upto` of `outcomes` is broken: none of
/// these entries is `Some(false)`.
spec fn all_hold(outcomes: Seq<Option<bool>>, upto: int) -> bool {
    forall|k: int| 0 <= k < upto ==> outcomes[k] != Some(false)
}

impl WriteArgs {
    /// Decides whether this name meets every constraint of `args`.
    ///
    /// Each constraint gives an outcome of its own: `None` where `args` does
    /// not state it, else whether the name meets it. The name matches when no
    /// outcome is `Some(false)`.
    pub fn matches_readargs(&self, args: &ReadArgs) -> (matched: bool)
        ensures
            matched == record_matches(self@, args@),
    {
        let name_matches = match &args.name {
            Some(args_name) => Some(self.name == *args_name),
            None => None,
        };

        let name_contains_char = match args.contains_letter {
            Some(args_char) => Some(contains_char(self.name.as_str(), args_char)),
            None => None,
        };

        let name_contains_string = match &args.contains {
            Some(args_string) => Some(contains_text(self.name.as_str(), args_string.as_str())),
            None => None,
        };

        let language_matches = match &args.language {
            Some(args_lang) => match &self.language {
                Some(lang) => Some(*lang == *args_lang),
                None => Some(false),
            },
            None => None,
        };

        let meaning_matches = match &args.meaning {
            Some(args_meaning) => match &self.meaning {
                Some(meaning) => Some(contains_text(meaning.as_str(), args_meaning.as_str())),
                None => Some(false),
            },
            None => None,
        };

        let gender_matches = match args.gender {
            Some(args_gender) => Some(self.gender.passes_filter(args_gender)),
            None => None,
        };

        let length_matches = match args.length {
            Some(args_length) => {
                let wanted: usize = args_length.into();
                Some(self.name.as_str().unicode_len() == wanted)
            },
            None => None,
        };

        let fictional_matches = if args.fictional {
            Some(self.fictional)
        } else {
            None
        };

        let outcomes: [Option<bool>; 8] = [
            name_matches,
            name_contains_char,
            name_contains_string,
            language_matches,
            meaning_matches,
            gender_matches,
            length_matches,
            fictional_matches,
        ];

        let mut matched = true;
        let mut i: usize = 0;
        while i < 8
            invariant
                i <= 8,
                matched == all_hold(outcomes@, i as int),
            decreases 8 - i,
        {
            if let Some(false) = outcomes[i] {
                matched = false;
            }
            i += 1;
        }
        matched
    }

    /// Writes the report on this name: see [`rendered_record`].
    pub fn to_string(&self) -> (out: String)
        ensures
            out@ == rendered_record(self@),
    {
        let mut out = String::new();
        out.append("'");
        out.append(self.name.as_str());
        out.append("'\n");
        let ghost name_part = out@;
        if let Some(l) = &self.language {
            out.append("Language: ");
            out.append(l.as_str());
            out.append("\n");
        }
        let ghost language_part = out@;
        if let Some(m) = &self.meaning {
            out.append("Meaning: ");
            out.append(m.as_str());
            out.append("\n");
        }
        let ghost meaning_part = out@;
        out.append("Gender: ");
        out.append(self.gender.label());
        out.append("\n");
        let ghost gender_part = out@;
        if self.fictional {
            out.append("(fictional)\n");
        }
        proof {
            let record = self@;
            assert(name_part =~= "'"@ + record.name + "'\n"@);
            assert(language_part =~= name_part + rendered_line("Language: "@, record.language));
            assert(meaning_part =~= language_part + rendered_line("Meaning: "@, record.meaning));
            assert(gender_part =~= meaning_part + rendered_line(
                "Gender: "@,
                Some(record.gender.label_text()),
            ));
            assert(out@ =~= rendered_record(record));
        }
        out
    }
}

/// A record without a language meets no filter that asks for a language,
/// whichever language it asks for.
pub proof fn lemma_absent_language_never_matches(record: NameRecord, filter: FilterSpec)
    requires
        record.language is None,
        filter.language is Some,
    ensures
        !record_matches(record, filter),
{
}

/// A record without a meaning meets no filter that asks for a meaning,
/// whatever it asks for.
pub proof fn lemma_absent_meaning_never_matches(record: NameRecord, filter: FilterSpec)
    requires
        record.meaning is None,
        filter.meaning is Some,
    ensures
        !record_matches(record, filter),
{
}

/// A filter without constraints is met by every record.
pub proof fn lemma_no_constraint_matches(record: NameRecord, filter: FilterSpec)
    requires
        no_constraint(filter),
    ensures
        record_matches(record, filter),
{
}

} // verus!
