//! Turning a free-text query into a full-text search expression.
use crate::text::{
    chars_of, is_ws, join, join_strings, lemma_filter_keeps, lemma_join_empty, lemma_trim_keeps,
    lemma_words_shape, no_ws, push_char, split_words, string_of, trim, trim_chars, words,
};
use vstd::prelude::*;

verus! {

/// ASCII punctuation: `!`..`/`, `:`..`@`, `[`..`` ` ``, `{`..`~`.
pub open spec fn is_ascii_punct(c: char) -> bool {
    let u = c as u32;
    (0x21 <= u <= 0x2f) || (0x3a <= u <= 0x40) || (0x5b <= u <= 0x60) || (0x7b <= u <= 0x7e)
}

/// Characters dropped from query words: ASCII punctuation and the Arabic and
/// typographic marks `،` `؛` `؟` `ـ` `“` `”` `‘` `’` `«` `»` `…`.
pub open spec fn spec_is_query_punctuation(c: char) -> bool {
    ||| is_ascii_punct(c)
    ||| c == '،'
    ||| c == '؛'
    ||| c == '؟'
    ||| c == 'ـ'
    ||| c == '“'
    ||| c == '”'
    ||| c == '‘'
    ||| c == '’'
    ||| c == '«'
    ||| c == '»'
    ||| c == '…'
}

/// The test that keeps a character in a query word.
pub open spec fn kept_in_token() -> spec_fn(char) -> bool {
    |c: char| !spec_is_query_punctuation(c)
}

/// A query word with its punctuation removed and then trimmed.
pub open spec fn spec_clean_token(t: Seq<char>) -> Seq<char> {
    trim(t.filter(kept_in_token()))
}

/// The search terms of a list of words: each cleaned word of at least two
/// characters, followed by `*` (prefix match), in order.
pub open spec fn fts_terms(tokens: Seq<Seq<char>>) -> Seq<Seq<char>>
    decreases tokens.len(),
{
    if tokens.len() == 0 {
        seq![]
    } else {
        let rest = fts_terms(tokens.drop_last());
        let t = spec_clean_token(tokens.last());
        if t.len() >= 2 {
            rest.push(t.push('*'))
        } else {
            rest
        }
    }
}

/// The most words of a query that are searched for.
pub open spec fn max_query_words() -> nat {
    24
}

/// The full-text expression for a query: the terms of its first 24 words,
/// joined by " OR ".
pub open spec fn spec_normalize_fts_query(input: Seq<char>) -> Seq<char> {
    let ws = words(input);
    let n = if ws.len() < max_query_words() {
        ws.len()
    } else {
        max_query_words()
    };
    join(fts_terms(ws.take(n as int)), " OR "@)
}

/// Whether `ch` is dropped from query words.
pub fn is_query_punctuation(ch: char) -> (b: bool)
    ensures
        b == spec_is_query_punctuation(ch),
{
    let u = ch as u32;
    (0x21 <= u && u <= 0x2f) || (0x3a <= u && u <= 0x40) || (0x5b <= u && u <= 0x60) || (0x7b
        <= u && u <= 0x7e) || ch == '،' || ch == '؛' || ch == '؟' || ch == 'ـ' || ch == '“' || ch
        == '”' || ch == '‘' || ch == '’' || ch == '«' || ch == '»' || ch == '…'
}

fn clean_token_chars(input: &Vec<char>) -> (r: Vec<char>)
    ensures
        r@ == spec_clean_token(input@),
{
    let mut kept: Vec<char> = Vec::new();
    let mut i: usize = 0;
    while i < input.len()
        invariant
            i <= input.len(),
            kept@ == input@.take(i as int).filter(kept_in_token()),
        decreases input.len() - i,
    {
        proof {
            input@.take(i as int).lemma_filter_push(input@[i as int], kept_in_token());
            assert(input@.take(i + 1) =~= input@.take(i as int).push(input@[i as int]));
        }
        if !is_query_punctuation(input[i]) {
            kept.push(input[i]);
        }
        i += 1;
    }
    assert(input@.take(input@.len() as int) =~= input@);
    trim_chars(&kept)
}

/// A query word with its punctuation removed, trimmed.
pub fn clean_token(input: &str) -> (r: String)
    ensures
        r@ == spec_clean_token(input@),
{
    let v = chars_of(input);
    let c = clean_token_chars(&v);
    string_of(&c)
}

/// The full-text search expression for a free-text query.
pub fn normalize_fts_query(input: &str) -> (r: String)
    ensures
        r@ == spec_normalize_fts_query(input@),
{
    let tokens = split_words(input, 24);
    let ghost ws = words(input@);
    let ghost n: int = if ws.len() < 24 {
        ws.len() as int
    } else {
        24
    };
    let ghost tv = ws.take(n);
    let mut terms: Vec<String> = Vec::new();
    let mut i: usize = 0;
    while i < tokens.len()
        invariant
            i <= tokens.len(),
            tokens@.len() == tv.len(),
            forall|k: int| 0 <= k < tokens@.len() ==> #[trigger] tokens@[k]@ == tv[k],
            terms@.map_values(|p: String| p@) == fts_terms(tv.take(i as int)),
        decreases tokens.len() - i,
    {
        assert(tv.take(i + 1).drop_last() =~= tv.take(i as int));
        assert(tv.take(i + 1).last() == tokens@[i as int]@);
        let t = clean_token_chars(&tokens[i]);
        if t.len() >= 2 {
            let mut s = string_of(&t);
            push_char(&mut s, '*');
            let ghost before = terms@;
            terms.push(s);
            assert(terms@.map_values(|p: String| p@) =~= before.map_values(|p: String| p@).push(
                t@.push('*'),
            ));
        }
        i += 1;
    }
    assert(tv.take(tokens@.len() as int) =~= tv);
    join_strings(&terms, " OR ")
}

/// Every search term is a cleaned word of at least two characters followed
/// by `*`, and there are never more terms than words.
pub proof fn lemma_fts_terms_shape(tokens: Seq<Seq<char>>)
    ensures
        fts_terms(tokens).len() <= tokens.len(),
        forall|i: int|
            0 <= i < fts_terms(tokens).len() ==> (#[trigger] fts_terms(tokens)[i]).len() >= 3
                && fts_terms(tokens)[i].last() == '*',
    decreases tokens.len(),
{
    if tokens.len() > 0 {
        lemma_fts_terms_shape(tokens.drop_last());
    }
}

/// A query expression is built from at most 24 terms.
pub proof fn lemma_query_term_count(input: Seq<char>)
    ensures
        ({
            let ws = words(input);
            let n = if ws.len() < max_query_words() {
                ws.len()
            } else {
                max_query_words()
            };
            fts_terms(ws.take(n as int)).len() <= 24
        }),
{
    let ws = words(input);
    let n = if ws.len() < max_query_words() {
        ws.len()
    } else {
        max_query_words()
    };
    lemma_fts_terms_shape(ws.take(n as int));
}

/// A search term: at least two characters, none of them whitespace or query
/// punctuation, followed by `*`.
pub open spec fn is_fts_term(t: Seq<char>) -> bool {
    &&& t.len() >= 3
    &&& t.last() == '*'
    &&& forall|j: int|
        0 <= j < t.len() - 1 ==> !is_ws(#[trigger] t[j]) && !spec_is_query_punctuation(t[j])
}

/// A cleaned word holds no whitespace and no query punctuation.
pub proof fn lemma_clean_token_chars(t: Seq<char>)
    requires
        no_ws(t),
    ensures
        forall|j: int|
            0 <= j < spec_clean_token(t).len() ==> !is_ws(#[trigger] spec_clean_token(t)[j])
                && !spec_is_query_punctuation(spec_clean_token(t)[j]),
{
    let not_ws = |c: char| !is_ws(c);
    let good = |c: char| !is_ws(c) && !spec_is_query_punctuation(c);
    assert forall|i: int| 0 <= i < t.len() implies not_ws(#[trigger] t[i]) by {}
    lemma_filter_keeps(t, kept_in_token(), not_ws);
    let f = t.filter(kept_in_token());
    assert forall|i: int| 0 <= i < f.len() implies good(#[trigger] f[i]) by {
        assert(not_ws(f[i]) && kept_in_token()(f[i]));
    }
    lemma_trim_keeps(f, good);
    assert forall|j: int| 0 <= j < spec_clean_token(t).len() implies !is_ws(
        #[trigger] spec_clean_token(t)[j],
    ) && !spec_is_query_punctuation(spec_clean_token(t)[j]) by {
        assert(good(trim(f)[j]));
    }
}

/// The terms of whitespace-free words are search terms, and there are none
/// exactly when no cleaned word has two characters.
pub proof fn lemma_fts_terms_of_words(tokens: Seq<Seq<char>>)
    requires
        forall|k: int| 0 <= k < tokens.len() ==> no_ws(#[trigger] tokens[k]),
    ensures
        forall|i: int| 0 <= i < fts_terms(tokens).len() ==> is_fts_term(#[trigger] fts_terms(tokens)[i]),
        (fts_terms(tokens).len() == 0) == (forall|k: int|
            0 <= k < tokens.len() ==> spec_clean_token(#[trigger] tokens[k]).len() < 2),
    decreases tokens.len(),
{
    if tokens.len() > 0 {
        let init = tokens.drop_last();
        assert forall|k: int| 0 <= k < init.len() implies no_ws(#[trigger] init[k]) by {
            assert(init[k] == tokens[k]);
        }
        lemma_fts_terms_of_words(init);
        let t = spec_clean_token(tokens.last());
        assert(no_ws(tokens[tokens.len() - 1]));
        lemma_clean_token_chars(tokens.last());
        let rest = fts_terms(init);
        if t.len() >= 2 {
            let term = t.push('*');
            assert(is_fts_term(term)) by {
                assert forall|j: int| 0 <= j < term.len() - 1 implies !is_ws(#[trigger] term[j])
                    && !spec_is_query_punctuation(term[j]) by {
                    assert(term[j] == t[j]);
                }
            }
            assert forall|i: int| 0 <= i < rest.push(term).len() implies is_fts_term(
                #[trigger] rest.push(term)[i],
            ) by {
                if i < rest.len() {
                    assert(rest.push(term)[i] == rest[i]);
                }
            }
            assert(spec_clean_token(tokens[tokens.len() - 1]).len() >= 2);
        } else {
            if forall|k: int| 0 <= k < init.len() ==> spec_clean_token(#[trigger] init[k]).len() < 2 {
                assert forall|k: int| 0 <= k < tokens.len() implies spec_clean_token(
                    #[trigger] tokens[k],
                ).len() < 2 by {
                    if k < init.len() {
                        assert(tokens[k] == init[k]);
                    }
                }
            } else {
                let k = choose|k: int|
                    0 <= k < init.len() && !(spec_clean_token(#[trigger] init[k]).len() < 2);
                assert(tokens[k] == init[k]);
            }
        }
    }
}

/// The shape of a full-text expression: the search terms of the query's
/// first 24 words joined by " OR ", where each term is at least two
/// characters free of whitespace and query punctuation followed by `*`; the
/// expression is empty exactly when none of those words keeps two
/// characters once cleaned.
pub proof fn lemma_fts_query_shape(input: Seq<char>)
    ensures
        ({
            let ws = words(input);
            let n: int = if ws.len() < max_query_words() {
                ws.len() as int
            } else {
                max_query_words() as int
            };
            let terms = fts_terms(ws.take(n));
            &&& spec_normalize_fts_query(input) == join(terms, " OR "@)
            &&& forall|i: int| 0 <= i < terms.len() ==> is_fts_term(#[trigger] terms[i])
            &&& (spec_normalize_fts_query(input).len() == 0) == (forall|k: int|
                0 <= k < n ==> spec_clean_token(#[trigger] ws[k]).len() < 2)
        }),
{
    let ws = words(input);
    let n: int = if ws.len() < max_query_words() {
        ws.len() as int
    } else {
        max_query_words() as int
    };
    let tv = ws.take(n);
    lemma_words_shape(input);
    assert forall|k: int| 0 <= k < tv.len() implies no_ws(#[trigger] tv[k]) by {
        assert(tv[k] == ws[k]);
    }
    lemma_fts_terms_of_words(tv);
    let terms = fts_terms(tv);
    assert forall|i: int| 0 <= i < terms.len() implies (#[trigger] terms[i]).len() > 0 by {
        assert(is_fts_term(terms[i]));
    }
    lemma_join_empty(terms, " OR "@);
    if forall|k: int| 0 <= k < tv.len() ==> spec_clean_token(#[trigger] tv[k]).len() < 2 {
        assert forall|k: int| 0 <= k < n implies spec_clean_token(#[trigger] ws[k]).len() < 2 by {
            assert(tv[k] == ws[k]);
        }
    } else {
        let k = choose|k: int| 0 <= k < tv.len() && !(spec_clean_token(#[trigger] tv[k]).len() < 2);
        assert(tv[k] == ws[k]);
    }
}

} // verus!
