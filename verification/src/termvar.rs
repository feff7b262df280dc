//! One named variable of the environment, normalized for comparison.

use crate::source::EnvVarSource;
use crate::text;
use vstd::prelude::*;
use vstd::std_specs::convert::FromSpecImpl;

verus! {

/// The text of an optional string.
pub open spec fn text_of(value: Option<String>) -> Option<Seq<char>> {
    match value {
        Some(s) => Some(s@),
        None => None,
    }
}

/// What a raw value becomes when it is stored: trimmed of ASCII whitespace,
/// then put in lowercase. An absent value stays absent.
pub open spec fn normalized(raw: Option<Seq<char>>) -> Option<Seq<char>> {
    match raw {
        Some(s) => Some(text::lowered(text::trimmed(s))),
        None => None,
    }
}

/// A plain word is stored as it stands: a text of ASCII characters without
/// capital letters, and without ASCII whitespace at its ends, is its own
/// normalized form.
pub proof fn lemma_plain_word_is_stored(word: Seq<char>)
    requires
        text::is_plain(word),
        word.len() > 0 ==> !text::is_ascii_space(word[0]) && !text::is_ascii_space(word.last()),
    ensures
        normalized(Some(word)) == Some(word),
{
    text::lemma_trimmed_whole(word);
}

/// Whether a normalized text counts as "yes": `1`, `true`, `yes` or `on`.
pub open spec fn is_truthy_text(s: Seq<char>) -> bool {
    s == "1"@ || s == "true"@ || s == "yes"@ || s == "on"@
}

/// A variable of the environment: absent, or present with a normalized value.
#[derive(Debug)]
pub struct TermVar(Option<String>);

impl View for TermVar {
    type V = Option<Seq<char>>;

    closed spec fn view(&self) -> Option<Seq<char>> {
        text_of(self.0)
    }
}

impl TermVar {
    /// The stored text; empty for an absent variable.
    pub open spec fn text(&self) -> Seq<char> {
        match self@ {
            Some(s) => s,
            None => Seq::empty(),
        }
    }

    /// Whether the variable is present and says "yes".
    pub open spec fn truthy(&self) -> bool {
        self@ matches Some(s) && is_truthy_text(s)
    }

    /// Whether the variable is absent or holds the empty text.
    pub open spec fn blank(&self) -> bool {
        self.text().len() == 0
    }

    /// A present variable with the normalized form of `value`.
    pub fn new(value: &str) -> (r: TermVar)
        ensures
            r@ == normalized(Some(value@)),
    {
        TermVar(Some(text::to_lowered(text::trim_ascii(value))))
    }

    /// The variable that a lookup with the answer `value` stands for.
    pub fn from_raw(value: Option<String>) -> (r: TermVar)
        ensures
            r@ == normalized(text_of(value)),
    {
        match value {
            Some(s) => TermVar::new(s.as_str()),
            None => TermVar(None),
        }
    }

    /// Whether `var` is what a lookup of `key` in `source` may come to: the
    /// normalized form of one of the answers that the source may give.
    pub open spec fn read_from<S: EnvVarSource>(source: &S, key: &str, var: TermVar) -> bool {
        exists|raw: Option<String>| #[trigger]
            crate::source::may_answer(source, key, raw) && var@ == normalized(text_of(raw))
    }

    /// Looks `var` up in `source` and normalizes the answer.
    pub fn from_source<S: EnvVarSource>(source: &S, var: &str) -> (r: TermVar)
        ensures
            TermVar::read_from(source, var, r),
    {
        let raw = source.var(var);
        let ghost answer = raw;
        let r = TermVar::from_raw(raw);
        proof {
            assert(crate::source::may_answer(source, var, answer) && r@ == normalized(text_of(answer)));
        }
        r
    }

    /// Whether the variable is present and says "yes".
    pub fn is_truthy(&self) -> (r: bool)
        ensures
            r == self.truthy(),
    {
        match &self.0 {
            Some(s) => {
                let s = s.as_str();
                text::equal(s, "1") || text::equal(s, "true") || text::equal(s, "yes")
                    || text::equal(s, "on")
            },
            None => false,
        }
    }

    /// Whether the variable is absent or holds the empty text.
    pub fn is_empty(&self) -> (r: bool)
        ensures
            r == self.blank(),
    {
        match &self.0 {
            Some(s) => s.as_str().is_empty(),
            None => true,
        }
    }

    /// `self` where it is present, else `other`.
    pub fn or(&self, other: &TermVar) -> (r: TermVar)
        ensures
            r@ == (if self@ is Some {
                self@
            } else {
                other@
            }),
    {
        match &self.0 {
            Some(s) => TermVar(Some(s.clone())),
            None => match &other.0 {
                Some(s) => TermVar(Some(s.clone())),
                None => TermVar(None),
            },
        }
    }

    /// The stored text; empty for an absent variable.
    pub fn value(&self) -> (r: String)
        ensures
            r@ == self.text(),
    {
        match &self.0 {
            Some(s) => s.clone(),
            None => String::new(),
        }
    }

    /// Whether the stored text is exactly `word`.
    pub fn is(&self, word: &str) -> (r: bool)
        ensures
            r == (self.text() == word@),
    {
        match &self.0 {
            Some(s) => text::equal(s.as_str(), word),
            None => {
                let empty = word.is_empty();
                proof {
                    if empty {
                        assert(word@ =~= Seq::<char>::empty());
                    }
                }
                empty
            },
        }
    }
}

impl Clone for TermVar {
    fn clone(&self) -> (r: TermVar)
        ensures
            r@ == self@,
    {
        match &self.0 {
            Some(s) => TermVar(Some(s.clone())),
            None => TermVar(None),
        }
    }
}

impl Default for TermVar {
    /// The absent variable.
    fn default() -> (r: TermVar)
        ensures
            r@ is None,
    {
        TermVar(None)
    }
}

impl<'a> From<&'a str> for TermVar {
    /// A present variable with the normalized form of `value`.
    fn from(value: &'a str) -> (r: TermVar)
        ensures
            r@ == normalized(Some(value@)),
    {
        TermVar::new(value)
    }
}

impl<'a> FromSpecImpl<&'a str> for TermVar {
    open spec fn obeys_from_spec() -> bool {
        false
    }

    open spec fn from_spec(value: &'a str) -> TermVar {
        arbitrary()
    }
}

} // verus!
