//! Reading a line of input: trimming, case folding, and the one command.

use vstd::prelude::*;
use vstd::std_specs::iter::IteratorSpec;

verus! {

/// Whether a character has the Unicode property White_Space.
pub uninterp spec fn white_space(c: char) -> bool;

/// The lower-case form that Unicode gives to a text.
pub uninterp spec fn lowercase_of(s: Seq<char>) -> Seq<char>;

/// Calls `char::is_whitespace`. The contract names the answer: the character
/// has the property White_Space exactly if the call says so.
#[verifier::external_body]
fn is_whitespace(c: char) -> (b: bool)
    ensures
        b == white_space(c),
{
    c.is_whitespace()
}

/// Calls `str::to_lowercase`. The contract names the answer: the string that
/// comes back holds the lower-case form of the text that went in.
#[verifier::external_body]
fn to_lowercase(s: &str) -> (r: String)
    ensures
        r@ == lowercase_of(s@),
{
    s.to_lowercase()
}

/// `s` without its leading white space.
pub open spec fn trim_start(s: Seq<char>) -> Seq<char>
    decreases s.len(),
{
    if s.len() > 0 && white_space(s.first()) {
        trim_start(s.drop_first())
    } else {
        s
    }
}

/// `s` without its trailing white space.
pub open spec fn trim_end(s: Seq<char>) -> Seq<char>
    decreases s.len(),
{
    if s.len() > 0 && white_space(s.last()) {
        trim_end(s.drop_last())
    } else {
        s
    }
}

/// `s` without its leading and trailing white space.
pub open spec fn trimmed(s: Seq<char>) -> Seq<char> {
    trim_end(trim_start(s))
}

/// The word that ends a session.
pub open spec fn exit_word() -> Seq<char> {
    seq!['e', 'x', 'i', 't']
}

/// Whether a line of input is the command to leave: trimmed and put in lower
/// case it reads `exit`.
pub open spec fn is_exit_line(line: Seq<char>) -> bool {
    lowercase_of(trimmed(line)) == exit_word()
}

/// What a line of input asks for.
#[derive(Debug)]
pub enum Input<'a> {
    /// To leave the session.
    Exit,
    /// To say this text to the assistant.
    Say(&'a str),
}

/// The mathematical value of an [`Input`].
pub enum InputView {
    Exit,
    Say(Seq<char>),
}

impl<'a> View for Input<'a> {
    type V = InputView;

    open spec fn view(&self) -> InputView {
        match self {
            Input::Exit => InputView::Exit,
            Input::Say(text) => InputView::Say(text@),
        }
    }
}

/// What a line of input asks for: to leave, if it is the command for that,
/// and else to say what it holds between its leading and trailing white
/// space, be that nothing at all.
pub open spec fn parsed(line: Seq<char>) -> InputView {
    if is_exit_line(line) {
        InputView::Exit
    } else {
        InputView::Say(trimmed(line))
    }
}

/// Where the first `a` characters of `s` are white space and the next one,
/// if there is one, is not, `s` without its leading white space is `s`
/// without its first `a` characters.
proof fn lemma_trim_start_skips(s: Seq<char>, a: int)
    requires
        0 <= a <= s.len(),
        forall|i: int| 0 <= i < a ==> white_space(#[trigger] s[i]),
        a < s.len() ==> !white_space(s[a]),
    ensures
        trim_start(s) == s.skip(a),
    decreases a,
{
    if a == 0 {
        assert(s.skip(0) =~= s);
    } else {
        let rest = s.drop_first();
        assert forall|i: int| 0 <= i < a - 1 implies white_space(#[trigger] rest[i]) by {
            assert(rest[i] == s[i + 1]);
        }
        lemma_trim_start_skips(rest, a - 1);
        assert(rest.skip(a - 1) =~= s.skip(a));
    }
}

/// Where all of `s` from position `b` on is white space and the character
/// before, if there is one, is not, `s` without its trailing white space is
/// the first `b` characters of `s`.
proof fn lemma_trim_end_takes(s: Seq<char>, b: int)
    requires
        0 <= b <= s.len(),
        forall|i: int| b <= i < s.len() ==> white_space(#[trigger] s[i]),
        0 < b ==> !white_space(s[b - 1]),
    ensures
        trim_end(s) == s.take(b),
    decreases s.len() - b,
{
    if b == s.len() {
        assert(s.take(b) =~= s);
    } else {
        let rest = s.drop_last();
        assert forall|i: int| b <= i < rest.len() implies white_space(#[trigger] rest[i]) by {
            assert(rest[i] == s[i]);
        }
        lemma_trim_end_takes(rest, b);
        assert(rest.take(b) =~= s.take(b));
    }
}

/// The part of `s` between its leading and its trailing white space.
pub fn trim(s: &str) -> (r: &str)
    ensures
        r@ == trimmed(s@),
{
    broadcast use vstd::string::group_string_axioms;

    let n: usize = s.unicode_len();
    // `start` counts the white space before the first other character, and
    // `end` is the position after the last other character, or 0 while none
    // was seen.
    let mut start: usize = 0;
    let mut end: usize = 0;
    let mut i: usize = 0;
    let mut rest = s.chars();
    loop
        invariant_except_break
            rest.remaining() == s@.skip(i as int),
        invariant
            n == s@.len(),
            i <= n,
            start <= i,
            end <= i,
            end == 0 ==> start == i,
            end > 0 ==> start < end,
            end > 0 ==> !white_space(s@[start as int]) && !white_space(s@[end - 1]),
            forall|j: int| 0 <= j < start ==> white_space(#[trigger] s@[j]),
            forall|j: int| end <= j < i ==> white_space(#[trigger] s@[j]),
        ensures
            i == n,
        decreases n - i,
    {
        match rest.next() {
            Some(c) => {
                assert(c == s@[i as int]);
                if !is_whitespace(c) {
                    end = i + 1;
                } else if end == 0 {
                    start = start + 1;
                }
                i = i + 1;
            },
            None => {
                break ;
            },
        }
    }
    if end == 0 {
        start = 0;
    }
    proof {
        let a: int = if end == 0 { n as int } else { start as int };
        lemma_trim_start_skips(s@, a);
        let tail = s@.skip(a);
        assert forall|j: int| end - start <= j < tail.len() implies white_space(
            #[trigger] tail[j],
        ) by {
            assert(tail[j] == s@[j + a]);
        }
        if end > 0 {
            assert(tail[end - start - 1] == s@[end - 1]);
        }
        lemma_trim_end_takes(tail, end - start);
        assert(tail.take(end - start) =~= s@.subrange(start as int, end as int));
    }
    s.substring_char(start, end)
}

/// Whether a text, already trimmed and in lower case, is the command to
/// leave the session.
pub fn is_exit_command(folded: &str) -> (b: bool)
    ensures
        b == (folded@ == exit_word()),
{
    if folded.unicode_len() != 4 {
        return false;
    }
    let b = folded.get_char(0) == 'e' && folded.get_char(1) == 'x' && folded.get_char(2) == 'i'
        && folded.get_char(3) == 't';
    assert(b ==> folded@ =~= exit_word());
    b
}

/// Reads a line of input as it came from the terminal: the command to
/// leave, in any mix of upper and lower case and with any white space
/// around it, or else what the user said, trimmed.
pub fn parse_line(line: &str) -> (input: Input<'_>)
    ensures
        input@ == parsed(line@),
{
    let text = trim(line);
    let folded = to_lowercase(text);
    if is_exit_command(folded.as_str()) {
        Input::Exit
    } else {
        Input::Say(text)
    }
}

} // verus!
