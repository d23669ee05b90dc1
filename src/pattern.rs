use vstd::prelude::*;

use crate::text::{contains, contains_text, replace, replace_text};

verus! {

#[verifier::external_type_specification]
#[verifier::external_body]
pub struct ExRegex(regex::Regex);

#[verifier::external_type_specification]
#[verifier::external_body]
pub struct ExFancyRegex(fancy_regex::Regex);

/// What `regex::Regex::new` says of `pattern`: `None` where it accepts it,
/// else the text of its error.
pub uninterp spec fn regex_compile_error(pattern: Seq<char>) -> Option<Seq<char>>;

/// `regex::Regex::new` accepts `pattern`.
pub open spec fn regex_accepts(pattern: Seq<char>) -> bool {
    regex_compile_error(pattern) is None
}

/// Whether the regex compiled from `pattern` matches somewhere in `text`.
pub uninterp spec fn regex_finds(pattern: Seq<char>, text: Seq<char>) -> bool;

/// `text` with every match of the regex compiled from `pattern` replaced by
/// `template`, with the engine's expansion of group references.
pub uninterp spec fn regex_replaced(pattern: Seq<char>, text: Seq<char>, template: Seq<char>) -> Seq<char>;

/// What `fancy_regex::Regex::new` says of `pattern`: `None` where it accepts
/// it, else the text of its error.
pub uninterp spec fn fancy_regex_compile_error(pattern: Seq<char>) -> Option<Seq<char>>;

/// `fancy_regex::Regex::new` accepts `pattern`.
pub open spec fn fancy_regex_accepts(pattern: Seq<char>) -> bool {
    fancy_regex_compile_error(pattern) is None
}

/// Whether the advanced regex compiled from `pattern` matches somewhere in
/// `text`; `None` where the engine gives up (its backtracking limit).
pub uninterp spec fn fancy_regex_finds(pattern: Seq<char>, text: Seq<char>) -> Option<bool>;

/// `text` with every match of the advanced regex compiled from `pattern`
/// replaced by `template`; `None` where the engine gives up.
pub uninterp spec fn fancy_regex_replaced(pattern: Seq<char>, text: Seq<char>, template: Seq<char>) -> Option<Seq<char>>;

/// A regex of the basic engine, with the pattern it was compiled from.
#[derive(Debug)]
pub struct BasicRegex {
    inner: regex::Regex,
    source: String,
}

/// A regex of the engine with look-around and back-references, with the
/// pattern it was compiled from.
#[derive(Debug)]
pub struct AdvancedRegex {
    inner: fancy_regex::Regex,
    source: String,
}

impl BasicRegex {
    pub closed spec fn pattern(&self) -> Seq<char> {
        self.source@
    }

    /// Relies on `regex::Regex::new`: it accepts or refuses a pattern by the
    /// pattern alone; the error is its message.
    #[verifier::external_body]
    pub(crate) fn compile(pattern: &str) -> (r: Result<BasicRegex, String>)
        ensures
            r is Ok <==> regex_accepts(pattern@),
            r matches Ok(re) ==> re.pattern() == pattern@,
            r matches Err(e) ==> regex_compile_error(pattern@) == Some(e@),
    {
        match regex::Regex::new(pattern) {
            Ok(inner) => Ok(BasicRegex { inner, source: pattern.to_string() }),
            Err(e) => Err(e.to_string()),
        }
    }

    /// Relies on `regex::Regex::is_match`.
    #[verifier::external_body]
    pub(crate) fn is_match(&self, text: &str) -> (r: bool)
        ensures
            r == regex_finds(self.pattern(), text@),
    {
        self.inner.is_match(text)
    }

    /// Relies on `regex::Regex::replace_all`.
    #[verifier::external_body]
    pub(crate) fn replace_all(&self, text: &str, template: &str) -> (r: String)
        ensures
            r@ == regex_replaced(self.pattern(), text@, template@),
    {
        self.inner.replace_all(text, template).into_owned()
    }
}

impl AdvancedRegex {
    pub closed spec fn pattern(&self) -> Seq<char> {
        self.source@
    }

    /// Relies on `fancy_regex::Regex::new`: it accepts or refuses a pattern
    /// by the pattern alone; the error is its message.
    #[verifier::external_body]
    pub(crate) fn compile(pattern: &str) -> (r: Result<AdvancedRegex, String>)
        ensures
            r is Ok <==> fancy_regex_accepts(pattern@),
            r matches Ok(re) ==> re.pattern() == pattern@,
            r matches Err(e) ==> fancy_regex_compile_error(pattern@) == Some(e@),
    {
        match fancy_regex::Regex::new(pattern) {
            Ok(inner) => Ok(AdvancedRegex { inner, source: pattern.to_string() }),
            Err(e) => Err(e.to_string()),
        }
    }

    /// Relies on `fancy_regex::Regex::is_match`, which fails only at run time
    /// limits.
    #[verifier::external_body]
    pub(crate) fn is_match(&self, text: &str) -> (r: Option<bool>)
        ensures
            r == fancy_regex_finds(self.pattern(), text@),
    {
        self.inner.is_match(text).ok()
    }

    /// Relies on `fancy_regex::Regex::try_replacen` with no limit on the
    /// number of replacements, which fails only at run time limits.
    #[verifier::external_body]
    pub(crate) fn replace_all(&self, text: &str, template: &str) -> (r: Option<String>)
        ensures
            r matches Some(s) ==> fancy_regex_replaced(self.pattern(), text@, template@) == Some(s@),
            r is None <==> fancy_regex_replaced(self.pattern(), text@, template@) is None,
    {
        self.inner.try_replacen(text, 0, template).ok().map(|s| s.into_owned())
    }
}

/// A compiled search or path pattern.
#[derive(Debug)]
pub enum SearchType {
    Pattern(BasicRegex),
    PatternAdvanced(AdvancedRegex),
    Fixed(String),
}

impl SearchType {
    /// A pattern of the basic regex engine; the engine's message where it
    /// does not compile.
    pub fn basic(pattern: &str) -> (r: Result<SearchType, String>)
        ensures
            r is Ok <==> regex_accepts(pattern@),
            r matches Ok(t) ==> (t matches SearchType::Pattern(re) && re.pattern() == pattern@),
            r matches Err(e) ==> regex_compile_error(pattern@) == Some(e@),
    {
        match BasicRegex::compile(pattern) {
            Ok(re) => Ok(SearchType::Pattern(re)),
            Err(e) => Err(e),
        }
    }

    /// A pattern of the engine with look-around and back-references; the
    /// engine's message where it does not compile.
    pub fn advanced(pattern: &str) -> (r: Result<SearchType, String>)
        ensures
            r is Ok <==> fancy_regex_accepts(pattern@),
            r matches Ok(t) ==> (t matches SearchType::PatternAdvanced(re) && re.pattern() == pattern@),
            r matches Err(e) ==> fancy_regex_compile_error(pattern@) == Some(e@),
    {
        match AdvancedRegex::compile(pattern) {
            Ok(re) => Ok(SearchType::PatternAdvanced(re)),
            Err(e) => Err(e),
        }
    }

    /// Whether the pattern occurs in `line`; `None` where the engine gives up.
    pub open spec fn finds(&self, line: Seq<char>) -> Option<bool> {
        match self {
            SearchType::Pattern(re) => Some(regex_finds(re.pattern(), line)),
            SearchType::PatternAdvanced(re) => fancy_regex_finds(re.pattern(), line),
            SearchType::Fixed(s) => Some(contains_text(line, s@)),
        }
    }

    /// `line` with every occurrence replaced by `template`; `None` where the
    /// engine gives up.
    pub open spec fn replaced(&self, line: Seq<char>, template: Seq<char>) -> Option<Seq<char>> {
        match self {
            SearchType::Pattern(re) => Some(regex_replaced(re.pattern(), line, template)),
            SearchType::PatternAdvanced(re) => fancy_regex_replaced(re.pattern(), line, template),
            SearchType::Fixed(s) => Some(replace_text(line, s@, template)),
        }
    }

    /// The line that `line` would become, if the pattern occurs in it.
    pub open spec fn replacement_for(&self, line: Seq<char>, template: Seq<char>) -> Option<Seq<char>> {
        if self.finds(line) == Some(true) {
            self.replaced(line, template)
        } else {
            None
        }
    }

    /// Whether the pattern occurs in `text`; `None` where the engine gives up.
    pub fn is_match(&self, text: &str) -> (r: Option<bool>)
        ensures
            r == self.finds(text@),
    {
        match self {
            SearchType::Pattern(re) => Some(re.is_match(text)),
            SearchType::PatternAdvanced(re) => re.is_match(text),
            SearchType::Fixed(s) => Some(contains(text, s.as_str())),
        }
    }

    /// `text` with every occurrence replaced by `template`; `None` where the
    /// engine gives up.
    pub fn replace_all(&self, text: &str, template: &str) -> (r: Option<String>)
        ensures
            r matches Some(s) ==> self.replaced(text@, template@) == Some(s@),
            r is None <==> self.replaced(text@, template@) is None,
    {
        match self {
            SearchType::Pattern(re) => Some(re.replace_all(text, template)),
            SearchType::PatternAdvanced(re) => re.replace_all(text, template),
            SearchType::Fixed(s) => Some(replace(text, s.as_str(), template)),
        }
    }

    /// The line that `line` would become, if the pattern occurs in it.
    pub fn replacement_if_match(&self, line: &str, template: &str) -> (r: Option<String>)
        ensures
            r matches Some(s) ==> self.replacement_for(line@, template@) == Some(s@),
            r is None <==> self.replacement_for(line@, template@) is None,
    {
        match self.is_match(line) {
            Some(true) => self.replace_all(line, template),
            _ => None,
        }
    }
}

} // verus!
