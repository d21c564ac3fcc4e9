//! The request line: its tokens, and the three of them that make a request.

use crate::error::{result_view, ErrorKind, HttpError, HttpErrorView};
use crate::text::collect_chars;
use vstd::prelude::*;

verus! {

/// Whether `c` separates the tokens of a request line: the characters that
/// Unicode lists as `White_Space`.
pub open spec fn whitespace(c: char) -> bool {
    let u = c as u32;
    ||| 0x09 <= u <= 0x0D
    ||| u == 0x20
    ||| u == 0x85
    ||| u == 0xA0
    ||| u == 0x1680
    ||| 0x2000 <= u <= 0x200A
    ||| u == 0x2028
    ||| u == 0x2029
    ||| u == 0x202F
    ||| u == 0x205F
    ||| u == 0x3000
}

/// What is left of `s` once the whitespace at its front is dropped.
pub open spec fn skip_whitespace(s: Seq<char>) -> Seq<char>
    decreases s.len(),
{
    if s.len() > 0 && whitespace(s[0]) {
        skip_whitespace(s.drop_first())
    } else {
        s
    }
}

/// The length of the longest prefix of `s` that holds no whitespace.
pub open spec fn word_len(s: Seq<char>) -> nat
    decreases s.len(),
{
    if s.len() > 0 && !whitespace(s[0]) {
        1 + word_len(s.drop_first())
    } else {
        0
    }
}

/// The tokens of `s`: its maximal runs of characters that are not
/// whitespace, from left to right.
pub open spec fn tokens(s: Seq<char>) -> Seq<Seq<char>>
    decreases s.len(),
    via tokens_decreases
{
    let t = skip_whitespace(s);
    if t.len() == 0 {
        Seq::empty()
    } else {
        seq![t.take(word_len(t) as int)] + tokens(t.skip(word_len(t) as int))
    }
}

#[via_fn]
proof fn tokens_decreases(s: Seq<char>) {
    let t = skip_whitespace(s);
    lemma_skip_whitespace(s);
    if t.len() != 0 {
        lemma_word_len(t);
    }
}

/// `skip_whitespace(s)` is the suffix of `s` that starts at its first
/// character that is not whitespace.
pub proof fn lemma_skip_whitespace(s: Seq<char>)
    ensures
        skip_whitespace(s).len() <= s.len(),
        skip_whitespace(s) == s.skip(s.len() - skip_whitespace(s).len()),
        forall|i: int| 0 <= i < s.len() - skip_whitespace(s).len() ==> whitespace(#[trigger] s[i]),
        skip_whitespace(s).len() > 0 ==> !whitespace(skip_whitespace(s)[0]),
    decreases s.len(),
{
    if s.len() > 0 && whitespace(s[0]) {
        let r = s.drop_first();
        lemma_skip_whitespace(r);
        assert forall|i: int| 0 <= i < s.len() - skip_whitespace(s).len() implies whitespace(
            #[trigger] s[i],
        ) by {
            if i > 0 {
                assert(s[i] == r[i - 1]);
            }
        }
    }
}

/// The first `word_len(s)` characters of `s` are not whitespace, and the
/// one after them, if there is one, is.
pub proof fn lemma_word_len(s: Seq<char>)
    ensures
        word_len(s) <= s.len(),
        forall|i: int| 0 <= i < word_len(s) ==> !whitespace(#[trigger] s[i]),
        word_len(s) < s.len() ==> whitespace(s[word_len(s) as int]),
        s.len() > 0 && !whitespace(s[0]) ==> word_len(s) >= 1,
    decreases s.len(),
{
    if s.len() > 0 && !whitespace(s[0]) {
        let r = s.drop_first();
        lemma_word_len(r);
        assert forall|i: int| 0 <= i < word_len(s) implies !whitespace(#[trigger] s[i]) by {
            if i > 0 {
                assert(s[i] == r[i - 1]);
            }
        }
    }
}

/// Whether `c` is whitespace.
pub fn is_whitespace(c: char) -> (b: bool)
    ensures
        b == whitespace(c),
{
    let u: u32 = c as u32;
    (0x09 <= u && u <= 0x0D) || u == 0x20 || u == 0x85 || u == 0xA0 || u == 0x1680 || (0x2000 <= u
        && u <= 0x200A) || u == 0x2028 || u == 0x2029 || u == 0x202F || u == 0x205F || u
        == 0x3000
}

/// A prefix of `s` that holds no whitespace and ends where `s` ends or
/// before a whitespace character is the first word of `s`.
pub proof fn lemma_word_len_is(s: Seq<char>, n: int)
    requires
        0 <= n <= s.len(),
        forall|i: int| 0 <= i < n ==> !whitespace(#[trigger] s[i]),
        n < s.len() ==> whitespace(s[n]),
    ensures
        word_len(s) == n,
    decreases s.len(),
{
    if n > 0 {
        let r = s.drop_first();
        assert forall|i: int| 0 <= i < n - 1 implies !whitespace(#[trigger] r[i]) by {
            assert(r[i] == s[i + 1]);
        }
        lemma_word_len_is(r, n - 1);
    }
}

/// Whitespace at the front of `s` adds no token.
pub proof fn lemma_tokens_after_whitespace(s: Seq<char>)
    requires
        s.len() > 0,
        whitespace(s[0]),
    ensures
        tokens(s) == tokens(s.drop_first()),
{
    lemma_skip_whitespace(s.drop_first());
}

/// Where `s` starts with a character that is not whitespace, its first
/// token is its first word, and the others are the tokens of what follows.
pub proof fn lemma_tokens_from_word(s: Seq<char>)
    requires
        s.len() > 0,
        !whitespace(s[0]),
    ensures
        tokens(s) == seq![s.take(word_len(s) as int)] + tokens(s.skip(word_len(s) as int)),
{
}

/// Whether `s` is a word: not empty, and free of whitespace.
pub open spec fn is_word(s: Seq<char>) -> bool {
    s.len() > 0 && forall|i: int| 0 <= i < s.len() ==> !whitespace(#[trigger] s[i])
}

/// Every token is a word.
pub proof fn lemma_tokens_are_words(s: Seq<char>)
    ensures
        forall|k: int| 0 <= k < tokens(s).len() ==> is_word(#[trigger] tokens(s)[k]),
    decreases s.len(),
{
    let t = skip_whitespace(s);
    lemma_skip_whitespace(s);
    if t.len() > 0 {
        let n = word_len(t) as int;
        lemma_word_len(t);
        lemma_tokens_are_words(t.skip(n));
        assert(is_word(t.take(n)));
        let rest = tokens(t.skip(n));
        assert forall|k: int| 0 <= k < tokens(s).len() implies is_word(#[trigger] tokens(s)[k]) by {
            if k > 0 {
                assert(tokens(s)[k] == rest[k - 1]);
            }
        }
    }
}

/// A word, a whitespace character and a rest: the word is the first token,
/// and the others are those of the rest.
pub proof fn lemma_tokens_word_then_rest(word: Seq<char>, c: char, rest: Seq<char>)
    requires
        is_word(word),
        whitespace(c),
    ensures
        tokens(word + seq![c] + rest) == seq![word] + tokens(rest),
{
    let s = word + seq![c] + rest;
    let n = word.len() as int;
    assert forall|i: int| 0 <= i < n implies !whitespace(#[trigger] s[i]) by {
        assert(s[i] == word[i]);
    }
    lemma_word_len_is(s, n);
    lemma_tokens_from_word(s);
    assert(s.take(n) =~= word);
    let after = seq![c] + rest;
    assert(s.skip(n) =~= after);
    lemma_tokens_after_whitespace(after);
    assert(after.drop_first() =~= rest);
}

/// The request line as it goes over the wire, a method, a path and a
/// protocol version with one space between them and a line ending after
/// them, has these three as its tokens.
pub proof fn lemma_tokens_of_request_line(
    method: Seq<char>,
    path: Seq<char>,
    protocol: Seq<char>,
)
    requires
        is_word(method),
        is_word(path),
        is_word(protocol),
    ensures
        tokens(method + " "@ + path + " "@ + protocol + "\r\n"@) == seq![method, path, protocol],
{
    reveal_strlit(" ");
    reveal_strlit("\r\n");
    let end = seq!['\n'];
    let third = protocol + seq!['\r'] + end;
    let second = path + seq![' '] + third;
    let first = method + seq![' '] + second;
    assert(first =~= method + " "@ + path + " "@ + protocol + "\r\n"@);
    lemma_tokens_word_then_rest(method, ' ', second);
    lemma_tokens_word_then_rest(path, ' ', third);
    lemma_tokens_word_then_rest(protocol, '\r', end);
    lemma_tokens_after_whitespace(end);
}

/// The pieces of `s` that the spans cut out, each span a pair of a start
/// and an end.
pub open spec fn spans_text(s: Seq<char>, spans: Seq<(usize, usize)>) -> Seq<Seq<char>> {
    Seq::new(spans.len(), |k: int| s.subrange(spans[k].0 as int, spans[k].1 as int))
}

/// Finds the tokens of `chars`: for each, where it starts and where it ends.
pub fn token_spans(chars: &[char]) -> (spans: Vec<(usize, usize)>)
    ensures
        forall|k: int|
            0 <= k < spans.len() ==> (#[trigger] spans[k]).0 < spans[k].1 <= chars@.len(),
        spans_text(chars@, spans@) == tokens(chars@),
{
    let n = chars.len();
    let mut spans: Vec<(usize, usize)> = Vec::new();
    let mut i: usize = 0;
    proof {
        assert(chars@.skip(0) =~= chars@);
    }
    while i < n
        invariant
            n == chars@.len(),
            i <= n,
            forall|k: int| 0 <= k < spans.len() ==> (#[trigger] spans[k]).0 < spans[k].1 <= i,
            spans_text(chars@, spans@) + tokens(chars@.skip(i as int)) == tokens(chars@),
        decreases n - i,
    {
        let ghost rest = chars@.skip(i as int);
        if is_whitespace(chars[i]) {
            proof {
                lemma_tokens_after_whitespace(rest);
                assert(rest.drop_first() =~= chars@.skip(i + 1));
            }
            i = i + 1;
        } else {
            let start = i;
            while i < n && !is_whitespace(chars[i])
                invariant
                    n == chars@.len(),
                    start <= i <= n,
                    forall|j: int| start <= j < i ==> !whitespace(#[trigger] chars@[j]),
                decreases n - i,
            {
                i = i + 1;
            }
            proof {
                let len = i - start;
                assert forall|j: int| 0 <= j < len implies !whitespace(#[trigger] rest[j]) by {
                    assert(rest[j] == chars@[start + j]);
                }
                lemma_word_len_is(rest, len);
                lemma_tokens_from_word(rest);
                assert(rest.take(len) =~= chars@.subrange(start as int, i as int));
                assert(rest.skip(len) =~= chars@.skip(i as int));
                assert(spans_text(chars@, spans@.push((start, i))) =~= spans_text(chars@, spans@)
                    + seq![chars@.subrange(start as int, i as int)]);
                assert(spans_text(chars@, spans@.push((start, i))) + tokens(chars@.skip(i as int))
                    =~= spans_text(chars@, spans@) + (seq![
                    chars@.subrange(start as int, i as int),
                ] + tokens(chars@.skip(i as int))));
            }
            spans.push((start, i));
        }
    }
    proof {
        assert(spans_text(chars@, spans@) + tokens(Seq::<char>::empty()) =~= spans_text(
            chars@,
            spans@,
        ));
    }
    spans
}

/// The three tokens of a request line. Only the path is interpreted.
#[derive(Debug, PartialEq, Eq)]
pub struct RequestLine {
    pub method: String,
    pub path: String,
    pub protocol: String,
}

/// A [`RequestLine`] as a plain value.
pub struct RequestLineView {
    pub method: Seq<char>,
    pub path: Seq<char>,
    pub protocol: Seq<char>,
}

impl View for RequestLine {
    type V = RequestLineView;

    open spec fn view(&self) -> RequestLineView {
        RequestLineView { method: self.method@, path: self.path@, protocol: self.protocol@ }
    }
}

/// What a line is read as: its three tokens, or the error for a line that
/// has fewer or more.
pub open spec fn parsed_line(line: Seq<char>) -> Result<RequestLineView, HttpErrorView> {
    let t = tokens(line);
    if t.len() == 3 {
        Ok(RequestLineView { method: t[0], path: t[1], protocol: t[2] })
    } else {
        Err(HttpErrorView { kind: ErrorKind::BadRequest, message: "Invalid request"@ })
    }
}

/// Reads a request line: method, path and protocol version, with
/// whitespace between them and, possibly, around them.
pub fn parse_header(line: &str) -> (r: Result<RequestLine, HttpError>)
    ensures
        result_view(r) == parsed_line(line@),
{
    let chars = collect_chars(line);
    let spans = token_spans(chars.as_slice());
    if spans.len() == 3 {
        let (a0, b0) = spans[0];
        let (a1, b1) = spans[1];
        let (a2, b2) = spans[2];
        Ok(
            RequestLine {
                method: line.substring_char(a0, b0).to_owned(),
                path: line.substring_char(a1, b1).to_owned(),
                protocol: line.substring_char(a2, b2).to_owned(),
            },
        )
    } else {
        Err(HttpError::BadRequest("Invalid request".to_owned()))
    }
}

} // verus!
