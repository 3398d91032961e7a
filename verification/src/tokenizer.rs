//! Splitting a line into tokens and expanding variable references.
//!
//! A line is cut at runs of whitespace; there is no quoting and no escaping.
//! A token that begins with `$` and has at least one more character is then
//! replaced as a whole by the value of the variable it names, or by the empty
//! string where no such variable is set. The token `$` alone stays as it is.

use vstd::prelude::*;
use crate::text::{chars_of, same_text};
use crate::whitespace::{is_blank, is_space, is_whitespace};

verus! {

/// The length of the longest prefix of `s` that holds no whitespace.
pub open spec fn word_len(s: Seq<char>) -> nat
    decreases s.len(),
{
    if s.len() == 0 || is_space(s[0]) {
        0
    } else {
        1 + word_len(s.drop_first())
    }
}

/// The maximal runs of non-whitespace characters of `s`, from left to right.
pub open spec fn split_words(s: Seq<char>) -> Seq<Seq<char>>
    decreases s.len(),
    via split_words_decreases
{
    if s.len() == 0 {
        Seq::empty()
    } else if is_space(s[0]) {
        split_words(s.drop_first())
    } else {
        seq![s.take(word_len(s) as int)] + split_words(s.skip(word_len(s) as int))
    }
}

#[via_fn]
proof fn split_words_decreases(s: Seq<char>) {
    lemma_word_len_bounds(s);
}

/// The value of the first entry of `vars` whose name is `name`.
pub open spec fn lookup(vars: Seq<(Seq<char>, Seq<char>)>, name: Seq<char>) -> Option<Seq<char>>
    decreases vars.len(),
{
    if vars.len() == 0 {
        None
    } else if vars[0].0 == name {
        Some(vars[0].1)
    } else {
        lookup(vars.drop_first(), name)
    }
}

/// What a token stands for, given the variables `vars`.
pub open spec fn expand(token: Seq<char>, vars: Seq<(Seq<char>, Seq<char>)>) -> Seq<char> {
    if token.len() >= 2 && token[0] == '$' {
        match lookup(vars, token.skip(1)) {
            Some(value) => value,
            None => Seq::empty(),
        }
    } else {
        token
    }
}

/// The tokens of a line: its words, each expanded, in their order.
pub open spec fn parse(line: Seq<char>, vars: Seq<(Seq<char>, Seq<char>)>) -> Seq<Seq<char>> {
    split_words(line).map_values(|word: Seq<char>| expand(word, vars))
}

/// A word is as long as its run of non-whitespace characters, and it ends at
/// the end of the text or in front of a whitespace character.
pub proof fn lemma_word_len_bounds(s: Seq<char>)
    ensures
        word_len(s) <= s.len(),
        s.len() > 0 && !is_space(s[0]) ==> word_len(s) >= 1,
        forall|i: int| 0 <= i < word_len(s) ==> !is_space(#[trigger] s[i]),
        word_len(s) < s.len() ==> is_space(s[word_len(s) as int]),
    decreases s.len(),
{
    if s.len() > 0 && !is_space(s[0]) {
        let rest = s.drop_first();
        lemma_word_len_bounds(rest);
        assert forall|i: int| 0 <= i < word_len(s) implies !is_space(#[trigger] s[i]) by {
            if i > 0 {
                assert(s[i] == rest[i - 1]);
            }
        }
    }
}

/// A run of `n` non-whitespace characters that ends at the end of the text or
/// in front of a whitespace character is the first word.
pub proof fn lemma_word_len_is(s: Seq<char>, n: int)
    requires
        0 <= n <= s.len(),
        forall|i: int| 0 <= i < n ==> !is_space(#[trigger] s[i]),
        n < s.len() ==> is_space(s[n]),
    ensures
        word_len(s) == n,
    decreases s.len(),
{
    if n > 0 {
        let rest = s.drop_first();
        assert forall|i: int| 0 <= i < n - 1 implies !is_space(#[trigger] rest[i]) by {
            assert(rest[i] == s[i + 1]);
        }
        lemma_word_len_is(rest, n - 1);
    }
}

/// A text has no words exactly if it is blank.
pub proof fn lemma_blank_has_no_words(s: Seq<char>)
    ensures
        is_blank(s) <==> split_words(s).len() == 0,
    decreases s.len(),
{
    if s.len() > 0 {
        if is_space(s[0]) {
            let rest = s.drop_first();
            lemma_blank_has_no_words(rest);
            if is_blank(s) {
                assert forall|i: int| 0 <= i < rest.len() implies is_space(#[trigger] rest[i]) by {
                    assert(rest[i] == s[i + 1]);
                }
            }
            if is_blank(rest) {
                assert forall|i: int| 0 <= i < s.len() implies is_space(#[trigger] s[i]) by {
                    if i > 0 {
                        assert(s[i] == rest[i - 1]);
                    }
                }
            }
        } else {
            lemma_word_len_bounds(s);
        }
    }
}

/// Every word has at least one character, and none of them is whitespace.
pub proof fn lemma_words_hold_no_space(s: Seq<char>, i: int)
    requires
        0 <= i < split_words(s).len(),
    ensures
        split_words(s)[i].len() > 0,
        forall|k: int| 0 <= k < split_words(s)[i].len() ==> !is_space(#[trigger] split_words(s)[i][k]),
    decreases s.len(),
{
    if s.len() > 0 {
        if is_space(s[0]) {
            lemma_words_hold_no_space(s.drop_first(), i);
        } else {
            lemma_word_len_bounds(s);
            let n = word_len(s) as int;
            if i > 0 {
                lemma_words_hold_no_space(s.skip(n), i - 1);
            }
        }
    }
}

/// Splitting goes word by word: the words of two texts joined by a whitespace
/// character are the words of the first followed by the words of the second.
pub proof fn lemma_split_around_space(a: Seq<char>, c: char, b: Seq<char>)
    requires
        is_space(c),
    ensures
        split_words(a + seq![c] + b) == split_words(a) + split_words(b),
    decreases a.len(),
{
    let whole = a + seq![c] + b;
    if a.len() == 0 {
        assert(whole.drop_first() == b);
    } else if is_space(a[0]) {
        assert(whole.drop_first() == a.drop_first() + seq![c] + b);
        lemma_split_around_space(a.drop_first(), c, b);
    } else {
        lemma_word_len_bounds(a);
        let n = word_len(a) as int;
        assert forall|i: int| 0 <= i < n implies !is_space(#[trigger] whole[i]) by {
            assert(whole[i] == a[i]);
        }
        lemma_word_len_is(whole, n);
        assert(whole.take(n) == a.take(n));
        assert(whole.skip(n) == a.skip(n) + seq![c] + b);
        lemma_split_around_space(a.skip(n), c, b);
    }
}

/// A run of whitespace counts as one: a second whitespace character behind a
/// first changes no word.
pub proof fn lemma_whitespace_runs_collapse(a: Seq<char>, c: char, d: char, b: Seq<char>)
    requires
        is_space(c),
        is_space(d),
    ensures
        split_words(a + seq![c, d] + b) == split_words(a + seq![c] + b),
{
    let tail = seq![d] + b;
    assert(a + seq![c, d] + b == a + seq![c] + tail);
    lemma_split_around_space(a, c, tail);
    lemma_split_around_space(Seq::empty(), d, b);
    lemma_split_around_space(a, c, b);
}

/// Expansion drops no token: a line has as many tokens as words, and each
/// token is the expansion of the word in its place.
pub proof fn lemma_parse_keeps_every_word(line: Seq<char>, vars: Seq<(Seq<char>, Seq<char>)>)
    ensures
        parse(line, vars).len() == split_words(line).len(),
        forall|i: int|
            0 <= i < split_words(line).len() ==> #[trigger] parse(line, vars)[i] == expand(
                split_words(line)[i],
                vars,
            ),
{
}

/// Cuts `line` at its runs of whitespace.
///
/// Whitespace at either end gives no word, so a blank line gives none at all.
pub fn split_whitespace(line: &str) -> (words: Vec<String>)
    ensures
        words.deep_view() == split_words(line@),
{
    let chars = chars_of(line);
    let n = chars.len();
    let mut words: Vec<String> = Vec::new();
    let mut i: usize = 0;
    assert(line@.skip(0) == line@);
    while i < n
        invariant
            chars@ == line@,
            n == chars.len(),
            i <= n,
            words.deep_view() + split_words(line@.skip(i as int)) == split_words(line@),
        decreases n - i,
    {
        let ghost rest = line@.skip(i as int);
        if is_whitespace(chars[i]) {
            assert(rest.drop_first() == line@.skip(i + 1));
            i = i + 1;
        } else {
            let start = i;
            i = i + 1;
            while i < n && !is_whitespace(chars[i])
                invariant
                    chars@ == line@,
                    n == chars.len(),
                    start < i <= n,
                    forall|k: int| start <= k < i ==> !is_space(#[trigger] line@[k]),
                decreases n - i,
            {
                i = i + 1;
            }
            let word = line.substring_char(start, i).to_owned();
            proof {
                let len = i - start;
                lemma_word_len_is(rest, len);
                assert(rest.take(len) == line@.subrange(start as int, i as int));
                assert(rest.skip(len) == line@.skip(i as int));
                assert(words.deep_view().push(word@) + split_words(line@.skip(i as int))
                    == words.deep_view() + split_words(rest));
            }
            words.push(word);
        }
    }
    words
}

/// Looks `name` up in `vars` and gives the value of the first entry that has
/// this name, or `None` where there is no such entry.
pub fn lookup_variable(vars: &Vec<(String, String)>, name: &str) -> (value: Option<String>)
    ensures
        value.deep_view() == lookup(vars.deep_view(), name@),
{
    let mut i: usize = 0;
    assert(vars.deep_view().skip(0) == vars.deep_view());
    while i < vars.len()
        invariant
            i <= vars.len(),
            lookup(vars.deep_view(), name@) == lookup(vars.deep_view().skip(i as int), name@),
        decreases vars.len() - i,
    {
        let ghost rest = vars.deep_view().skip(i as int);
        if same_text(vars[i].0.as_str(), name) {
            return Some(vars[i].1.clone());
        }
        assert(rest.drop_first() == vars.deep_view().skip(i + 1));
        i = i + 1;
    }
    None
}

/// Expands one token.
///
/// A token of two or more characters that begins with `$` names a variable and
/// becomes its value, or the empty string where `vars` has no such variable.
/// Every other token, `$` alone among them, is returned as it is.
pub fn expand_variables(token: &str, vars: &Vec<(String, String)>) -> (out: String)
    ensures
        out@ == expand(token@, vars.deep_view()),
{
    let n = token.unicode_len();
    if n >= 2 && token.get_char(0) == '$' {
        let name = token.substring_char(1, n);
        match lookup_variable(vars, name) {
            Some(value) => value,
            None => String::new(),
        }
    } else {
        token.to_owned()
    }
}

/// Splits a command line into tokens and expands each of them.
///
/// The result holds one token for each whitespace-separated word of `line`, in
/// the order of the words. A word that names an unset variable gives an empty
/// token; it is not left out.
pub fn parse_command(line: &str, vars: &Vec<(String, String)>) -> (tokens: Vec<String>)
    ensures
        tokens.deep_view() == parse(line@, vars.deep_view()),
{
    let words = split_whitespace(line);
    let mut tokens: Vec<String> = Vec::new();
    let mut i: usize = 0;
    while i < words.len()
        invariant
            i <= words.len(),
            words.deep_view() == split_words(line@),
            tokens.deep_view() == parse(line@, vars.deep_view()).take(i as int),
        decreases words.len() - i,
    {
        let token = expand_variables(words[i].as_str(), vars);
        tokens.push(token);
        proof {
            let all = parse(line@, vars.deep_view());
            assert(all.take(i + 1) == all.take(i as int).push(all[i as int]));
        }
        i = i + 1;
    }
    tokens
}

} // verus!
