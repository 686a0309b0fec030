//! Matching a chat message against named patterns.
//!
//! Patterns are regular expressions compiled by the `regex` crate; what a
//! pattern matches and captures is that crate's business, and the
//! contracts here name it rather than restate it.

use vstd::prelude::*;

verus! {

/// `regex::Regex`, a compiled regular expression, carried through opaquely.
#[verifier::external_type_specification]
#[verifier::external_body]
pub struct ExRegex(regex::Regex);

/// `regex::Error`, why a pattern was refused, carried through opaquely.
#[verifier::external_type_specification]
#[verifier::external_body]
pub struct ExRegexError(regex::Error);

/// Whether `regex::Regex::new` accepts `pattern`.
pub uninterp spec fn regex_accepts(pattern: Seq<char>) -> bool;

/// Whether the regular expression `pattern` matches somewhere in `text`.
pub uninterp spec fn regex_matches(pattern: Seq<char>, text: Seq<char>) -> bool;

/// The text that group `group` of `pattern` captures in the leftmost-first
/// match in `text`, if there is a match and the group took part in it.
pub uninterp spec fn regex_group(pattern: Seq<char>, text: Seq<char>, group: Seq<char>) -> Option<
    Seq<char>,
>;

/// A character that has a meaning in a regular expression.
pub open spec fn is_regex_meta(c: char) -> bool {
    c == '\\' || c == '.' || c == '+' || c == '*' || c == '?' || c == '(' || c == ')' || c == '|'
        || c == '[' || c == ']' || c == '{' || c == '}' || c == '^' || c == '$' || c == '#' || c
        == '&' || c == '-' || c == '~'
}

/// `s` with a backslash before every meta character, so that it matches
/// itself literally.
pub open spec fn escaped(s: Seq<char>) -> Seq<char>
    decreases s.len(),
{
    if s.len() == 0 {
        Seq::empty()
    } else {
        escaped(s.drop_last()) + if is_regex_meta(s.last()) {
            seq!['\\', s.last()]
        } else {
            seq![s.last()]
        }
    }
}

/// Relies on `regex::escape`: it puts a backslash before each meta
/// character and copies every other character.
#[verifier::external_body]
pub(crate) fn regex_escape(s: &str) -> (r: String)
    ensures
        r@ == escaped(s@),
{
    regex::escape(s)
}

/// A compiled regular expression together with its source.
pub struct Pattern {
    source: String,
    regex: regex::Regex,
}

/// Relies on `regex::Regex::new`: whether it accepts a pattern depends on
/// the pattern alone.
#[verifier::external_body]
fn compile(source: &str) -> (r: Result<Pattern, regex::Error>)
    ensures
        r is Ok <==> regex_accepts(source@),
        r is Ok ==> r->Ok_0.source() == source@,
{
    regex::Regex::new(source).map(|regex| Pattern { source: source.to_string(), regex })
}

/// Relies on `regex::Regex::is_match`.
#[verifier::external_body]
fn regex_is_match(p: &Pattern, text: &str) -> (r: bool)
    ensures
        r == regex_matches(p.source(), text@),
{
    p.regex.is_match(text)
}

/// Relies on `regex::Regex::captures` and `regex::Captures::name`.
#[verifier::external_body]
fn regex_capture(p: &Pattern, text: &str, group: &str) -> (r: Option<String>)
    ensures
        r is Some <==> regex_group(p.source(), text@, group@) is Some,
        r is Some ==> r->0@ == regex_group(p.source(), text@, group@)->0,
{
    p.regex.captures(text).and_then(|c| c.name(group)).map(|m| m.as_str().to_string())
}

impl Pattern {
    /// The source the pattern was compiled from.
    pub closed spec fn source(&self) -> Seq<char> {
        self.source@
    }

    /// Compiles `source`.
    pub fn new(source: &str) -> (r: Result<Pattern, regex::Error>)
        ensures
            r is Ok <==> regex_accepts(source@),
            r is Ok ==> r->Ok_0.source() == source@,
    {
        compile(source)
    }

    /// Whether the pattern matches somewhere in `text`.
    pub fn is_match(&self, text: &str) -> (r: bool)
        ensures
            r == regex_matches(self.source(), text@),
    {
        regex_is_match(self, text)
    }

    /// What group `group` captures in `text`.
    pub fn group(&self, text: &str, group: &str) -> (r: Option<String>)
        ensures
            r is Some <==> regex_group(self.source(), text@, group@) is Some,
            r is Some ==> r->0@ == regex_group(self.source(), text@, group@)->0,
    {
        regex_capture(self, text, group)
    }

    /// The source the pattern was compiled from.
    pub fn as_str(&self) -> (r: &str)
        ensures
            r@ == self.source(),
    {
        self.source.as_str()
    }
}

/// A pattern registered under a name.
pub struct NamedPattern {
    pub name: String,
    pub pattern: Pattern,
}

/// Named patterns, tried in the order they were first added.
pub struct Parser {
    entries: Vec<NamedPattern>,
}

impl View for Parser {
    type V = Seq<NamedPattern>;

    closed spec fn view(&self) -> Seq<NamedPattern> {
        self.entries@
    }
}

impl Parser {
    /// No two entries share a name.
    pub open spec fn wf(&self) -> bool {
        forall|i: int, j: int|
            0 <= i < j < self@.len() ==> (#[trigger] self@[i]).name@ != (#[trigger] self@[j]).name@
    }

    /// The index of the entry named `name`, if any.
    pub open spec fn index_of(&self, name: Seq<char>) -> Option<int> {
        if exists|i: int| 0 <= i < self@.len() && (#[trigger] self@[i]).name@ == name {
            Some(choose|i: int| 0 <= i < self@.len() && (#[trigger] self@[i]).name@ == name)
        } else {
            None
        }
    }

    /// The first entry whose pattern matches `text`.
    pub open spec fn first_match(&self, text: Seq<char>) -> Option<int> {
        if exists|i: int| 0 <= i < self@.len() && regex_matches((#[trigger] self@[i]).pattern.source(), text) {
            Some(choose|i: int|
                0 <= i < self@.len() && regex_matches((#[trigger] self@[i]).pattern.source(), text)
                    && forall|k: int| 0 <= k < i ==> !regex_matches((#[trigger] self@[k]).pattern.source(), text))
        } else {
            None
        }
    }

    /// A parser without patterns.
    pub fn new() -> (r: Parser)
        ensures
            r.wf(),
            r@.len() == 0,
    {
        Parser { entries: Vec::new() }
    }

    fn position_of(&self, name: &str) -> (r: Option<usize>)
        ensures
            match r {
                Some(i) => i < self@.len() && self@[i as int].name@ == name@,
                None => forall|k: int| 0 <= k < self@.len() ==> (#[trigger] self@[k]).name@ != name@,
            },
    {
        let key = String::from_str(name);
        let mut i: usize = 0;
        while i < self.entries.len()
            invariant
                0 <= i <= self.entries@.len(),
                key@ == name@,
                forall|k: int| 0 <= k < i ==> (#[trigger] self.entries@[k]).name@ != name@,
            decreases self.entries@.len() - i,
        {
            if self.entries[i].name == key {
                return Some(i);
            }
            i = i + 1;
        }
        None
    }

    /// Compiles `pattern` and adds it under `name`, replacing the pattern
    /// of that name; a pattern the regex engine refuses leaves the parser
    /// as it was.
    pub fn add(&mut self, name: &str, pattern: &str) -> (r: Result<(), regex::Error>)
        requires
            old(self).wf(),
        ensures
            final(self).wf(),
            r is Ok <==> regex_accepts(pattern@),
            r is Err ==> final(self)@ == old(self)@,
            r is Ok ==> match old(self).index_of(name@) {
                Some(i) => {
                    &&& final(self)@.len() == old(self)@.len()
                    &&& forall|k: int| 0 <= k < old(self)@.len() && k != i ==> final(self)@[k] == old(self)@[k]
                    &&& final(self)@[i].name@ == name@
                    &&& final(self)@[i].pattern.source() == pattern@
                },
                None => {
                    &&& final(self)@.len() == old(self)@.len() + 1
                    &&& forall|k: int| 0 <= k < old(self)@.len() ==> final(self)@[k] == old(self)@[k]
                    &&& final(self)@[old(self)@.len() as int].name@ == name@
                    &&& final(self)@[old(self)@.len() as int].pattern.source() == pattern@
                },
            },
    {
        let compiled = match Pattern::new(pattern) {
            Ok(p) => p,
            Err(e) => {
                return Err(e);
            },
        };
        let entry = NamedPattern { name: String::from_str(name), pattern: compiled };
        let ghost before = self@;
        match self.position_of(name) {
            Some(i) => {
                proof {
                    let k = choose|k: int| 0 <= k < before.len() && (#[trigger] before[k]).name@ == name@;
                    assert(k == i);
                }
                self.entries.set(i, entry);
                proof {
                    assert forall|a: int, b: int| 0 <= a < b < self@.len() implies (#[trigger] self@[a]).name@ != (#[trigger] self@[b]).name@ by {
                        if a != i && b != i {
                            assert(self@[a] == before[a]);
                            assert(self@[b] == before[b]);
                        }
                    };
                }
            },
            None => {
                self.entries.push(entry);
                proof {
                    assert forall|a: int, b: int| 0 <= a < b < self@.len() implies (#[trigger] self@[a]).name@ != (#[trigger] self@[b]).name@ by {
                        assert(self@[a] == before[a]);
                        if b < before.len() {
                            assert(self@[b] == before[b]);
                        }
                    };
                }
            },
        }
        Ok(())
    }

    /// Removes the pattern named `name` and returns it.
    pub fn remove(&mut self, name: &str) -> (r: Option<Pattern>)
        requires
            old(self).wf(),
        ensures
            final(self).wf(),
            r is Some <==> old(self).index_of(name@) is Some,
            r is Some ==> r->0 == old(self)@[old(self).index_of(name@)->0].pattern,
            r is Some ==> final(self)@ == old(self)@.remove(old(self).index_of(name@)->0),
            r is None ==> final(self)@ == old(self)@,
            final(self).index_of(name@) is None,
            forall|n: Seq<char>| n != name@ ==> (#[trigger] final(self).index_of(n) is Some)
                == old(self).index_of(n) is Some,
    {
        match self.position_of(name) {
            Some(i) => {
                let ghost before = self@;
                let removed = self.entries.remove(i);
                proof {
                    assert forall|k: int| 0 <= k < self@.len() implies (#[trigger] self@[k]).name@ != name@ by {
                        if k < i {
                            assert(self@[k] == before[k]);
                        } else {
                            assert(self@[k] == before[k + 1]);
                        }
                    };
                    assert forall|n: Seq<char>| n != name@ implies (#[trigger] self.index_of(n) is Some)
                        == old(self).index_of(n) is Some by {
                        if exists|k: int| 0 <= k < before.len() && (#[trigger] before[k]).name@ == n {
                            let k = choose|k: int| 0 <= k < before.len() && (#[trigger] before[k]).name@ == n;
                            if k < i {
                                assert(self@[k] == before[k]);
                            } else {
                                assert(self@[k - 1] == before[k]);
                            }
                        }
                        if exists|k: int| 0 <= k < self@.len() && (#[trigger] self@[k]).name@ == n {
                            let k = choose|k: int| 0 <= k < self@.len() && (#[trigger] self@[k]).name@ == n;
                            if k < i {
                                assert(before[k] == self@[k]);
                            } else {
                                assert(before[k + 1] == self@[k]);
                            }
                        }
                    };
                    assert forall|a: int, b: int| 0 <= a < b < self@.len() implies (#[trigger] self@[a]).name@ != (#[trigger] self@[b]).name@ by {
                        let a0 = if a < i { a } else { a + 1 };
                        let b0 = if b < i { b } else { b + 1 };
                        assert(self@[a] == before[a0]);
                        assert(self@[b] == before[b0]);
                    };
                    let k = choose|k: int| 0 <= k < before.len() && (#[trigger] before[k]).name@ == name@;
                    assert(k == i);
                    assert(self@ =~= before.remove(i as int));
                }
                Some(removed.pattern)
            },
            None => None,
        }
    }

    /// The name and pattern of the first entry whose pattern matches `src`.
    pub fn parse(&self, src: &str) -> (r: Option<(String, &Pattern)>)
        ensures
            match self.first_match(src@) {
                Some(i) => r is Some && (r->0).0@ == self@[i].name@ && *(r->0).1 == self@[i].pattern,
                None => r is None,
            },
    {
        let mut i: usize = 0;
        while i < self.entries.len()
            invariant
                0 <= i <= self.entries@.len(),
                forall|k: int| 0 <= k < i ==> !regex_matches((#[trigger] self.entries@[k]).pattern.source(), src@),
            decreases self.entries@.len() - i,
        {
            if self.entries[i].pattern.is_match(src) {
                proof {
                    let j = choose|j: int|
                        0 <= j < self@.len() && regex_matches((#[trigger] self@[j]).pattern.source(), src@)
                            && forall|k: int| 0 <= k < j ==> !regex_matches((#[trigger] self@[k]).pattern.source(), src@);
                    assert(j == i);
                }
                return Some((self.entries[i].name.clone(), &self.entries[i].pattern));
            }
            i = i + 1;
        }
        None
    }
}

} // verus!
