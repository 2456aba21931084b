//! Compiled patterns: globs of the `glob` crate and regular expressions of
//! the `regex` crate, each kept with the text it was compiled from.

use crate::string_map::StringMap;
use vstd::prelude::*;

verus! {

/// `glob::Pattern`, a compiled glob. Nothing of its inside is known here.
#[verifier::external_type_specification]
#[verifier::external_body]
pub struct ExGlobPattern(glob::Pattern);

/// `regex::Regex`, a compiled regular expression. Nothing of its inside is
/// known here.
#[verifier::external_type_specification]
#[verifier::external_body]
pub struct ExRegex(regex::Regex);

/// Whether `glob::Pattern::new` accepts a pattern.
pub uninterp spec fn glob_compiles(pattern: Seq<char>) -> bool;

/// Whether the glob compiled from `pattern` matches `candidate`.
pub uninterp spec fn glob_accepts(pattern: Seq<char>, candidate: Seq<char>) -> bool;

/// Whether `regex::Regex::new` accepts a pattern.
pub uninterp spec fn regex_compiles(pattern: Seq<char>) -> bool;

/// The names of the capture groups of the regular expression compiled from
/// `pattern`, in the order of their opening brackets, the whole match first;
/// a group without a name gives `None`.
pub uninterp spec fn regex_group_names(pattern: Seq<char>) -> Seq<Option<Seq<char>>>;

/// What the regular expression compiled from `pattern` captures at its first
/// match in `haystack`: the text of each group in the order of
/// `regex_group_names`, `None` for a group that took no part in the match;
/// or `None` where nothing matches.
pub uninterp spec fn regex_captures(pattern: Seq<char>, haystack: Seq<char>) -> Option<
    Seq<Option<Seq<char>>>,
>;

/// The characters of a text that may be absent.
pub open spec fn text_of(text: Option<String>) -> Option<Seq<char>> {
    match text {
        Some(text) => Some(text@),
        None => None,
    }
}

/// The characters of each text of a list.
pub open spec fn texts_of(texts: Seq<Option<String>>) -> Seq<Option<Seq<char>>> {
    texts.map_values(|text: Option<String>| text_of(text))
}

/// `Clone` of `glob::Pattern`. Nothing is claimed of the copy here: the
/// pattern is opaque.
pub assume_specification[ <glob::Pattern as Clone>::clone ](value: &glob::Pattern) -> (r:
    glob::Pattern)
;

/// `Clone` of `regex::Regex`. Nothing is claimed of the copy here: the
/// expression is opaque.
pub assume_specification[ <regex::Regex as Clone>::clone ](value: &regex::Regex) -> (r:
    regex::Regex)
;

/// A compiled glob.
#[derive(Debug)]
pub struct CompiledGlob {
    source: String,
    compiled: glob::Pattern,
}

impl View for CompiledGlob {
    type V = Seq<char>;

    /// The pattern that the glob was compiled from.
    closed spec fn view(&self) -> Seq<char> {
        self.source@
    }
}

/// A compiled regular expression.
#[derive(Debug)]
pub struct CompiledRegex {
    source: String,
    compiled: regex::Regex,
}

impl View for CompiledRegex {
    type V = Seq<char>;

    /// The pattern that the regular expression was compiled from.
    closed spec fn view(&self) -> Seq<char> {
        self.source@
    }
}

/// Calls `glob::Pattern::new` and keeps the compiled pattern beside its
/// text; an error comes back in the words of its `Display`. Whether a
/// pattern compiles is known by name only; a glob that comes back was
/// compiled from the text given.
#[verifier::external_body]
fn compile_glob(pattern: &str) -> (r: Result<CompiledGlob, String>)
    ensures
        r is Ok <==> glob_compiles(pattern@),
        r matches Ok(glob) ==> glob@ == pattern@,
{
    match glob::Pattern::new(pattern) {
        Ok(compiled) => Ok(CompiledGlob { source: pattern.to_string(), compiled }),
        Err(error) => Err(error.to_string()),
    }
}

/// Calls `glob::Pattern::matches` on the compiled pattern. The answer is
/// known by name only, as a function of the pattern's text and the candidate.
#[verifier::external_body]
fn glob_matches(glob: &CompiledGlob, candidate: &str) -> (r: bool)
    ensures
        r == glob_accepts(glob@, candidate@),
{
    glob.compiled.matches(candidate)
}

/// Calls `regex::Regex::new` and keeps the compiled expression beside its
/// text; an error comes back in the words of its `Display`. Whether a
/// pattern compiles is known by name only; an expression that comes back
/// was compiled from the text given.
#[verifier::external_body]
fn compile_regex(pattern: &str) -> (r: Result<CompiledRegex, String>)
    ensures
        r is Ok <==> regex_compiles(pattern@),
        r matches Ok(regex) ==> regex@ == pattern@,
{
    match regex::Regex::new(pattern) {
        Ok(compiled) => Ok(CompiledRegex { source: pattern.to_string(), compiled }),
        Err(error) => Err(error.to_string()),
    }
}

/// Calls `regex::Regex::capture_names` and collects the names. They are
/// known by name only, as a function of the pattern's text.
#[verifier::external_body]
fn regex_capture_names(regex: &CompiledRegex) -> (r: Vec<Option<String>>)
    ensures
        texts_of(r@) == regex_group_names(regex@),
{
    regex.compiled.capture_names().map(|name| name.map(|name| name.to_string())).collect()
}

/// Calls `regex::Regex::captures` and collects the text of every group with
/// `Captures::iter`. The groups are known by name only, as a function of the
/// pattern's text and the haystack.
#[verifier::external_body]
fn regex_find_captures(regex: &CompiledRegex, haystack: &str) -> (r: Option<Vec<Option<String>>>)
    ensures
        r is Some <==> regex_captures(regex@, haystack@) is Some,
        r matches Some(groups) ==> Some(texts_of(groups@)) == regex_captures(regex@, haystack@),
{
    regex.compiled.captures(haystack).map(
        |found| found.iter().map(|group| group.map(|group| group.as_str().to_string())).collect(),
    )
}

impl Clone for CompiledGlob {
    fn clone(&self) -> (r: CompiledGlob)
        ensures
            r@ == self@,
    {
        CompiledGlob { source: self.source.clone(), compiled: self.compiled.clone() }
    }
}

impl Clone for CompiledRegex {
    fn clone(&self) -> (r: CompiledRegex)
        ensures
            r@ == self@,
    {
        CompiledRegex { source: self.source.clone(), compiled: self.compiled.clone() }
    }
}

impl CompiledGlob {
    /// The compiled pattern that the glob holds beside its text.
    pub closed spec fn held(&self) -> glob::Pattern {
        self.compiled
    }

    /// Compiles a glob. On failure the reason comes back as text.
    pub fn new(pattern: &str) -> (r: Result<CompiledGlob, String>)
        ensures
            r is Ok <==> glob_compiles(pattern@),
            r matches Ok(glob) ==> glob@ == pattern@,
    {
        compile_glob(pattern)
    }

    /// The pattern as it was written.
    pub fn as_str(&self) -> (r: &str)
        ensures
            r@ == self@,
    {
        self.source.as_str()
    }

    /// The compiled pattern: the one that this glob holds and matches with.
    pub fn compiled(&self) -> (r: &glob::Pattern)
        ensures
            *r == self.held(),
    {
        &self.compiled
    }

    /// Whether the glob matches `candidate`.
    pub fn matches(&self, candidate: &str) -> (r: bool)
        ensures
            r == glob_accepts(self@, candidate@),
    {
        glob_matches(self, candidate)
    }
}

impl CompiledRegex {
    /// The compiled expression that the regular expression holds beside its
    /// text.
    pub closed spec fn held(&self) -> regex::Regex {
        self.compiled
    }

    /// Compiles a regular expression. On failure the reason comes back as
    /// text.
    pub fn new(pattern: &str) -> (r: Result<CompiledRegex, String>)
        ensures
            r is Ok <==> regex_compiles(pattern@),
            r matches Ok(regex) ==> regex@ == pattern@,
    {
        compile_regex(pattern)
    }

    /// The expression as it was written.
    pub fn as_str(&self) -> (r: &str)
        ensures
            r@ == self@,
    {
        self.source.as_str()
    }

    /// The compiled expression: the one that this regular expression holds
    /// and matches with.
    pub fn compiled(&self) -> (r: &regex::Regex)
        ensures
            *r == self.held(),
    {
        &self.compiled
    }

    /// The names of the capture groups, the whole match first.
    pub fn capture_names(&self) -> (r: Vec<Option<String>>)
        ensures
            texts_of(r@) == regex_group_names(self@),
    {
        regex_capture_names(self)
    }

    /// The text of each capture group at the first match in `haystack`, or
    /// `None` where the expression does not match.
    pub fn captures(&self, haystack: &str) -> (r: Option<Vec<Option<String>>>)
        ensures
            r is Some <==> regex_captures(self@, haystack@) is Some,
            r matches Some(groups) ==> Some(texts_of(groups@)) == regex_captures(
                self@,
                haystack@,
            ),
    {
        regex_find_captures(self, haystack)
    }
}

/// The variables with the first `count` capture groups bound: each group
/// that has a name and took part in the match is bound under its name, a
/// later group over an earlier binding.
pub open spec fn with_captures(
    variables: Map<Seq<char>, Seq<char>>,
    names: Seq<Option<Seq<char>>>,
    groups: Seq<Option<Seq<char>>>,
    count: nat,
) -> Map<Seq<char>, Seq<char>>
    decreases count,
{
    if count == 0 {
        variables
    } else {
        let earlier = with_captures(variables, names, groups, (count - 1) as nat);
        let at = count - 1;
        if at < names.len() && at < groups.len() && names[at] is Some && groups[at] is Some {
            earlier.insert(names[at]->0, groups[at]->0)
        } else {
            earlier
        }
    }
}

/// The variables with every named capture group bound.
pub open spec fn with_named_captures(
    variables: Map<Seq<char>, Seq<char>>,
    names: Seq<Option<Seq<char>>>,
    groups: Seq<Option<Seq<char>>>,
) -> Map<Seq<char>, Seq<char>> {
    with_captures(variables, names, groups, names.len())
}

/// Binds every capture group that has a name and took part in the match.
pub fn bind_captures(
    variables: &mut StringMap,
    names: &Vec<Option<String>>,
    groups: &Vec<Option<String>>,
)
    ensures
        final(variables)@ == with_named_captures(
            old(variables)@,
            texts_of(names@),
            texts_of(groups@),
        ),
{
    let ghost base = variables@;
    let mut i: usize = 0;
    while i < names.len()
        invariant
            i <= names.len(),
            variables@ == with_captures(base, texts_of(names@), texts_of(groups@), i as nat),
        decreases names.len() - i,
    {
        if i < groups.len() {
            match (&names[i], &groups[i]) {
                (Some(name), Some(text)) => {
                    variables.insert(name.clone(), text.clone());
                },
                _ => {},
            }
        }
        i = i + 1;
    }
}

} // verus!
