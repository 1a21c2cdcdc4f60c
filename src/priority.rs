//! The three priorities a task can have, and how they are read from text.
use vstd::prelude::*;

verus! {

/// How important a task is.
#[derive(Clone, Copy, Debug, PartialEq, Eq, Structural)]
pub enum Priority {
    Low,
    Normal,
    High,
}

/// Why a text is not a priority.
#[derive(Clone, Debug, PartialEq, Eq)]
pub enum PriorityError {
    /// The text given, which names none of the three priorities.
    NonParsablePriority(String),
}

/// The lower-case form of a text, as `str::to_lowercase` gives it.
pub uninterp spec fn lower_of(s: Seq<char>) -> Seq<char>;

/// Relies on `str::to_lowercase`: the lower-case form depends on the characters
/// alone, and an empty text stays empty.
#[verifier::external_body]
fn lowercase(s: &str) -> (r: String)
    ensures
        r@ == lower_of(s@),
        s@.len() == 0 ==> r@.len() == 0,
{
    s.to_lowercase()
}

/// The priority that a lower-case word names, if it names one.
pub open spec fn priority_of_word(w: Seq<char>) -> Option<Priority> {
    if w == seq!['l', 'o', 'w'] {
        Some(Priority::Low)
    } else if w == seq!['n', 'o', 'r', 'm', 'a', 'l'] {
        Some(Priority::Normal)
    } else if w == seq!['h', 'i', 'g', 'h'] {
        Some(Priority::High)
    } else {
        None
    }
}

/// The priority that a text names, whatever the case of its letters.
pub open spec fn priority_of_text(s: Seq<char>) -> Option<Priority> {
    priority_of_word(lower_of(s))
}

/// Whether two texts hold the same characters.
fn same_text(a: &str, b: &str) -> (r: bool)
    ensures
        r == (a@ == b@),
{
    let n = a.unicode_len();
    if n != b.unicode_len() {
        return false;
    }
    let mut i: usize = 0;
    while i < n
        invariant
            n == a@.len(),
            n == b@.len(),
            i <= n,
            a@.subrange(0, i as int) == b@.subrange(0, i as int),
        decreases n - i,
    {
        if a.get_char(i) != b.get_char(i) {
            assert(a@[i as int] != b@[i as int]);
            return false;
        }
        assert(a@.subrange(0, i + 1) =~= a@.subrange(0, i as int).push(a@[i as int]));
        assert(b@.subrange(0, i + 1) =~= b@.subrange(0, i as int).push(b@[i as int]));
        i = i + 1;
    }
    assert(a@ =~= a@.subrange(0, n as int));
    assert(b@ =~= b@.subrange(0, n as int));
    true
}

impl Priority {
    /// Reads a priority from a text that is already in lower case.
    pub fn from_lowercase(t: &str) -> (r: Result<Priority, PriorityError>)
        ensures
            match priority_of_word(t@) {
                Some(p) => r == Ok::<Priority, PriorityError>(p),
                None => r matches Err(PriorityError::NonParsablePriority(m)) && m@ == t@,
            },
    {
        proof {
            reveal_strlit("low");
            reveal_strlit("normal");
            reveal_strlit("high");
            assert("low"@ =~= seq!['l', 'o', 'w']);
            assert("normal"@ =~= seq!['n', 'o', 'r', 'm', 'a', 'l']);
            assert("high"@ =~= seq!['h', 'i', 'g', 'h']);
        }
        if same_text(t, "low") {
            Ok(Priority::Low)
        } else if same_text(t, "normal") {
            Ok(Priority::Normal)
        } else if same_text(t, "high") {
            Ok(Priority::High)
        } else {
            Err(PriorityError::NonParsablePriority(t.to_owned()))
        }
    }

    /// Reads a priority from a text, whatever the case of its letters. On
    /// failure the error holds the text as it was given.
    pub fn from_str(input: &str) -> (r: Result<Priority, PriorityError>)
        ensures
            match priority_of_text(input@) {
                Some(p) => r == Ok::<Priority, PriorityError>(p),
                None => r matches Err(PriorityError::NonParsablePriority(m)) && m@ == input@,
            },
            input@.len() == 0 ==> r is Err,
    {
        let lower = lowercase(input);
        match Priority::from_lowercase(lower.as_str()) {
            Ok(p) => Ok(p),
            Err(_) => Err(PriorityError::NonParsablePriority(input.to_owned())),
        }
    }
}

impl Default for Priority {
    /// The priority of a task for which none was given: `Normal`.
    fn default() -> (r: Priority)
        ensures
            r == Priority::Normal,
    {
        Priority::Normal
    }
}

/// A text names a priority exactly when its lower-case form is one of the words
/// "low", "normal" and "high", and then it names that priority; every other
/// text, the empty one among them, names none.
pub proof fn lemma_priority_words(s: Seq<char>)
    ensures
        lower_of(s) == seq!['l', 'o', 'w'] ==> priority_of_text(s) == Some(Priority::Low),
        lower_of(s) == seq!['n', 'o', 'r', 'm', 'a', 'l'] ==> priority_of_text(s) == Some(
            Priority::Normal,
        ),
        lower_of(s) == seq!['h', 'i', 'g', 'h'] ==> priority_of_text(s) == Some(Priority::High),
        lower_of(s) != seq!['l', 'o', 'w'] && lower_of(s) != seq!['n', 'o', 'r', 'm', 'a', 'l']
            && lower_of(s) != seq!['h', 'i', 'g', 'h'] ==> priority_of_text(s) is None,
{
}

} // verus!
