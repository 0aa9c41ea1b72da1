//! Menu commands and the parsing of a line of user input into one.

use vstd::prelude::*;

verus! {

/// One of the six menu commands.
#[derive(Clone, Copy, Debug, PartialEq, Eq, Structural)]
pub enum Choice {
    Open,
    Delete,
    Append,
    Truncate,
    Print,
    Quit,
}

/// What `str::trim` gives for a text: the text without its leading and
/// trailing Unicode whitespace.
pub uninterp spec fn trim_of(s: Seq<char>) -> Seq<char>;

/// What `str::to_lowercase` gives for a text: its Unicode lowercase mapping.
pub uninterp spec fn lower_of(s: Seq<char>) -> Seq<char>;

/// Relies on `str::trim`: the result depends on the characters of `s` alone.
#[verifier::external_body]
fn trim_text(s: &str) -> (r: &str)
    ensures
        r@ == trim_of(s@),
{
    s.trim()
}

/// Relies on `str::to_lowercase`: the result depends on the characters of `s` alone.
#[verifier::external_body]
fn lowercase(s: &str) -> (r: String)
    ensures
        r@ == lower_of(s@),
{
    s.to_lowercase()
}

/// Whether `t` is one of the words that name command `c`: its menu digit,
/// its initial, or its full name (lowercase; `Open` also answers to
/// `c` and `create`).
pub open spec fn is_alias(t: Seq<char>, c: Choice) -> bool {
    match c {
        Choice::Open => t == "1"@ || t == "o"@ || t == "open"@ || t == "c"@ || t == "create"@,
        Choice::Delete => t == "2"@ || t == "d"@ || t == "delete"@,
        Choice::Append => t == "3"@ || t == "a"@ || t == "append"@,
        Choice::Truncate => t == "4"@ || t == "t"@ || t == "truncate"@,
        Choice::Print => t == "5"@ || t == "p"@ || t == "print"@,
        Choice::Quit => t == "6"@ || t == "q"@ || t == "quit"@,
    }
}

/// The command that a normalized (trimmed, lowercased) token names, if any.
pub open spec fn choice_of(t: Seq<char>) -> Option<Choice> {
    if is_alias(t, Choice::Open) {
        Some(Choice::Open)
    } else if is_alias(t, Choice::Delete) {
        Some(Choice::Delete)
    } else if is_alias(t, Choice::Append) {
        Some(Choice::Append)
    } else if is_alias(t, Choice::Truncate) {
        Some(Choice::Truncate)
    } else if is_alias(t, Choice::Print) {
        Some(Choice::Print)
    } else if is_alias(t, Choice::Quit) {
        Some(Choice::Quit)
    } else {
        None
    }
}

/// The normalized form of a line of input: trimmed, then lowercased.
pub open spec fn normalized(s: Seq<char>) -> Seq<char> {
    lower_of(trim_of(s))
}

/// Every accepted word of a command parses to that command, and a token
/// that is no accepted word of any command parses to nothing. With
/// `Choice::from_str`, which normalizes before it matches, this holds of a
/// line of input whose trimmed, lowercased form is such a word.
pub proof fn lemma_aliases_parse(t: Seq<char>, c: Choice)
    ensures
        is_alias(t, c) ==> choice_of(t) == Some(c),
        choice_of(t) is None <==> (forall|d: Choice| !is_alias(t, d)),
{
    reveal_strlit("1");
    reveal_strlit("2");
    reveal_strlit("3");
    reveal_strlit("4");
    reveal_strlit("5");
    reveal_strlit("6");
    reveal_strlit("o");
    reveal_strlit("c");
    reveal_strlit("d");
    reveal_strlit("a");
    reveal_strlit("t");
    reveal_strlit("p");
    reveal_strlit("q");
    reveal_strlit("open");
    reveal_strlit("create");
    reveal_strlit("delete");
    reveal_strlit("append");
    reveal_strlit("truncate");
    reveal_strlit("print");
    reveal_strlit("quit");
    if is_alias(t, c) {
        assert(t.len() > 0);
        match c {
            Choice::Open => assert(t[0] == '1' || t[0] == 'o' || t[0] == 'c'),
            Choice::Delete => assert(t[0] == '2' || t[0] == 'd'),
            Choice::Append => assert(t[0] == '3' || t[0] == 'a'),
            Choice::Truncate => assert(t[0] == '4' || t[0] == 't'),
            Choice::Print => assert(t[0] == '5' || t[0] == 'p'),
            Choice::Quit => assert(t[0] == '6' || t[0] == 'q'),
        }
    }
    if choice_of(t) is None {
        assert forall|d: Choice| !is_alias(t, d) by {
            match d {
                Choice::Open => {},
                Choice::Delete => {},
                Choice::Append => {},
                Choice::Truncate => {},
                Choice::Print => {},
                Choice::Quit => {},
            }
        }
    }
    if (forall|d: Choice| !is_alias(t, d)) {
        assert(!is_alias(t, Choice::Open));
        assert(!is_alias(t, Choice::Delete));
        assert(!is_alias(t, Choice::Append));
        assert(!is_alias(t, Choice::Truncate));
        assert(!is_alias(t, Choice::Print));
        assert(!is_alias(t, Choice::Quit));
    }
}

/// Whether two texts hold the same characters.
fn same_text(a: &str, b: &str) -> (r: bool)
    ensures
        r == (a@ == b@),
{
    let n = a.unicode_len();
    if n != b.unicode_len() {
        return false;
    }
    let mut i: usize = 0;
    while i < n
        invariant
            n == a@.len(),
            n == b@.len(),
            i <= n,
            a@.subrange(0, i as int) == b@.subrange(0, i as int),
        decreases n - i,
    {
        if a.get_char(i) != b.get_char(i) {
            return false;
        }
        assert(a@.subrange(0, i + 1) == a@.subrange(0, i as int).push(a@[i as int]));
        assert(b@.subrange(0, i + 1) == b@.subrange(0, i as int).push(b@[i as int]));
        i = i + 1;
    }
    assert(a@ == a@.subrange(0, n as int));
    assert(b@ == b@.subrange(0, n as int));
    true
}

impl Choice {
    /// The command that an already normalized token names, or `None`.
    pub fn from_normalized(t: &str) -> (r: Option<Choice>)
        ensures
            r == choice_of(t@),
    {
        if same_text(t, "1") || same_text(t, "o") || same_text(t, "open") || same_text(t, "c")
            || same_text(t, "create") {
            Some(Choice::Open)
        } else if same_text(t, "2") || same_text(t, "d") || same_text(t, "delete") {
            Some(Choice::Delete)
        } else if same_text(t, "3") || same_text(t, "a") || same_text(t, "append") {
            Some(Choice::Append)
        } else if same_text(t, "4") || same_text(t, "t") || same_text(t, "truncate") {
            Some(Choice::Truncate)
        } else if same_text(t, "5") || same_text(t, "p") || same_text(t, "print") {
            Some(Choice::Print)
        } else if same_text(t, "6") || same_text(t, "q") || same_text(t, "quit") {
            Some(Choice::Quit)
        } else {
            None
        }
    }

    /// Parses a line of user input: surrounding whitespace is ignored and
    /// letters match in any case. Unknown input gives `Err(())`.
    pub fn from_str(s: &str) -> (r: Result<Choice, ()>)
        ensures
            r matches Ok(c) ==> choice_of(normalized(s@)) == Some(c),
            r is Err <==> choice_of(normalized(s@)) is None,
    {
        let t = lowercase(trim_text(s));
        match Choice::from_normalized(t.as_str()) {
            Some(c) => Ok(c),
            None => Err(()),
        }
    }
}

} // verus!
