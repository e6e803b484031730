//! The tokenizer: splits an input line on whitespace and classifies each
//! word as a plain name or an `@`-prefixed indirect (address) reference.
//! Tokens come out in reverse order, so the command word is popped first
//! and the arguments follow in left-to-right order.

use vstd::prelude::*;
use super::CommandLineEditor;
use crate::strutil::{is_space, is_space_char, trim_spec, trim_str};

verus! {

/// One token of an input line.
pub enum Token {
    /// A plain word, taken literally.
    Alphanumeric(String),
    /// A word that began with `@`: an indirect reference through the
    /// named pin (the sigil itself is stripped).
    Adress(String),
}

/// What specifications see of a token.
pub enum TokenV {
    Alphanumeric(Seq<char>),
    Adress(Seq<char>),
}

impl View for Token {
    type V = TokenV;

    open spec fn view(&self) -> TokenV {
        match self {
            Token::Alphanumeric(s) => TokenV::Alphanumeric(s@),
            Token::Adress(s) => TokenV::Adress(s@),
        }
    }
}

/// The text a token carries, sigil aside.
pub open spec fn token_text(t: TokenV) -> Seq<char> {
    match t {
        TokenV::Alphanumeric(s) => s,
        TokenV::Adress(s) => s,
    }
}

/// The views of a token sequence.
pub open spec fn tokens_view(s: Seq<Token>) -> Seq<TokenV> {
    s.map_values(|t: Token| t@)
}

impl Default for Token {
    /// An empty plain token.
    fn default() -> (t: Token)
        ensures
            t@ == TokenV::Alphanumeric(Seq::<char>::empty()),
    {
        Token::Alphanumeric(String::new())
    }
}

impl Token {
    /// The carried text.
    pub fn to_string(&self) -> (r: String)
        ensures
            r@ == token_text(self@),
    {
        match self {
            Token::Alphanumeric(s) => s.clone(),
            Token::Adress(s) => s.clone(),
        }
    }

    /// The carried text without surrounding whitespace.
    pub fn trim(&self) -> (r: String)
        ensures
            r@ == trim_spec(token_text(self@)),
    {
        let s = self.to_string();
        trim_str(s.as_str())
    }
}

/// The longest whitespace-free prefix.
pub open spec fn word_prefix(s: Seq<char>) -> Seq<char>
    decreases s.len(),
{
    if s.len() == 0 || is_space_char(s[0]) {
        Seq::empty()
    } else {
        seq![s[0]] + word_prefix(s.drop_first())
    }
}

/// The whitespace-separated words of the line, in order.
pub open spec fn split_ws(s: Seq<char>) -> Seq<Seq<char>>
    decreases s.len(),
    via split_ws_decreases
{
    if s.len() == 0 {
        Seq::empty()
    } else if is_space_char(s[0]) {
        split_ws(s.drop_first())
    } else {
        seq![word_prefix(s)] + split_ws(s.skip(word_prefix(s).len() as int))
    }
}

/// A word prefix is never longer than the string.
proof fn lemma_word_prefix_len(s: Seq<char>)
    ensures
        word_prefix(s).len() <= s.len(),
    decreases s.len(),
{
    if s.len() > 0 && !is_space_char(s[0]) {
        lemma_word_prefix_len(s.drop_first());
    }
}

#[via_fn]
proof fn split_ws_decreases(s: Seq<char>) {
    if s.len() > 0 && !is_space_char(s[0]) {
        lemma_word_prefix_len(s);
        assert(word_prefix(s).len() >= 1);
    }
}

/// How a word becomes a token: a leading `@` makes an address token
/// carrying the rest, anything else a plain token carrying the word.
pub open spec fn classify(w: Seq<char>) -> TokenV {
    if w.len() > 0 && w[0] == '@' {
        TokenV::Adress(w.subrange(1, w.len() as int))
    } else {
        TokenV::Alphanumeric(w)
    }
}

/// The tokens of one input line: its whitespace-separated words,
/// classified, in reverse order.
pub open spec fn tokens_of(s: Seq<char>) -> Seq<TokenV> {
    split_ws(s).reverse().map_values(|w: Seq<char>| classify(w))
}

/// The views of a word list.
spec fn words_view(s: Seq<String>) -> Seq<Seq<char>> {
    s.map_values(|w: String| w@)
}

/// `word_prefix` is exactly the prefix up to the first space.
proof fn lemma_word_prefix_range(s: Seq<char>, j: int)
    requires
        0 <= j <= s.len(),
        forall|p: int| 0 <= p < j ==> !is_space_char(s[p]),
        j == s.len() || is_space_char(s[j]),
    ensures
        word_prefix(s) == s.take(j),
    decreases j,
{
    if j == 0 {
        assert(s.take(0) =~= Seq::<char>::empty());
    } else {
        let t = s.drop_first();
        assert(forall|p: int| 0 <= p < j - 1 ==> !is_space_char(t[p]));
        lemma_word_prefix_range(t, j - 1);
        assert(seq![s[0]] + t.take(j - 1) =~= s.take(j));
    }
}

/// Skipping one leading space does not change the word list.
proof fn lemma_split_skip_space(s: Seq<char>, pos: int)
    requires
        0 <= pos < s.len(),
        is_space_char(s[pos]),
    ensures
        split_ws(s.skip(pos)) == split_ws(s.skip(pos + 1)),
{
    let u = s.skip(pos);
    assert(u[0] == s[pos]);
    assert(u.drop_first() =~= s.skip(pos + 1));
}

/// A word running from `pos` up to the boundary `j` is the head of the
/// word list of the suffix at `pos`.
proof fn lemma_split_word(s: Seq<char>, pos: int, j: int)
    requires
        0 <= pos < j <= s.len(),
        forall|p: int| pos <= p < j ==> !is_space_char(s[p]),
        j == s.len() || is_space_char(s[j]),
    ensures
        split_ws(s.skip(pos)) == seq![s.subrange(pos, j)] + split_ws(s.skip(j)),
{
    let u = s.skip(pos);
    assert(u[0] == s[pos]);
    assert(forall|p: int| 0 <= p < j - pos ==> !is_space_char(u[p]));
    assert(j - pos == u.len() || is_space_char(u[j - pos]));
    lemma_word_prefix_range(u, j - pos);
    assert(u.take(j - pos) =~= s.subrange(pos, j));
    assert(u.skip(j - pos) =~= s.skip(j));
}

impl CommandLineEditor {
    /// Splits an input line into tokens: the whitespace-separated words,
    /// classified, in reverse order.
    pub fn tokenize_command(&self, command: String) -> (r: Vec<Token>)
        ensures
            tokens_view(r@) == tokens_of(command@),
    {
        let s = command.as_str();
        let len = s.unicode_len();
        let mut words: Vec<String> = Vec::new();
        let mut pos: usize = 0;
        proof {
            assert(command@.skip(0) =~= command@);
        }
        while pos < len
            invariant
                s@ == command@,
                len == command@.len(),
                pos <= len,
                split_ws(command@) == words_view(words@) + split_ws(command@.skip(pos as int)),
            decreases len - pos,
        {
            if is_space(s.get_char(pos)) {
                proof {
                    lemma_split_skip_space(command@, pos as int);
                }
                pos = pos + 1;
            } else {
                let start = pos;
                let mut end = pos + 1;
                while end < len && !is_space(s.get_char(end))
                    invariant
                        s@ == command@,
                        len == command@.len(),
                        start < end <= len,
                        forall|p: int| start <= p < end ==> !is_space_char(command@[p]),
                    decreases len - end,
                {
                    end = end + 1;
                }
                let ghost old_words = words@;
                let w = String::from_str(s.substring_char(start, end));
                words.push(w);
                proof {
                    lemma_split_word(command@, start as int, end as int);
                    assert(words_view(words@) =~= words_view(old_words) + seq![w@]);
                    assert(words_view(old_words) + (seq![command@.subrange(
                        start as int,
                        end as int,
                    )] + split_ws(command@.skip(end as int))) =~= words_view(words@) + split_ws(
                        command@.skip(end as int),
                    ));
                }
                pos = end;
            }
        }
        proof {
            assert(command@.skip(len as int) =~= Seq::<char>::empty());
            assert(split_ws(command@) =~= words_view(words@));
        }
        let n = words.len();
        let mut r: Vec<Token> = Vec::new();
        let mut k: usize = 0;
        while k < n
            invariant
                n == words@.len(),
                k <= n,
                r@.len() == k,
                split_ws(command@) == words_view(words@),
                forall|j: int| 0 <= j < k ==> r@[j]@ == classify(words@[n - 1 - j]@),
            decreases n - k,
        {
            let wstr = &words[n - 1 - k];
            let wlen = wstr.as_str().unicode_len();
            let t: Token;
            if wlen > 0 && wstr.as_str().get_char(0) == '@' {
                t = Token::Adress(String::from_str(wstr.as_str().substring_char(1, wlen)));
            } else {
                t = Token::Alphanumeric(wstr.clone());
            }
            r.push(t);
            k = k + 1;
        }
        proof {
            assert(tokens_view(r@) =~= tokens_of(command@));
        }
        r
    }
}

} // verus!
