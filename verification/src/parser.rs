//! Tokenizer for the `Signature` request header.
//!
//! The field grammar is a comma-separated list of `key="value"` pairs.
//! Values must be double-quoted; there are no escape sequences, so an
//! embedded quote or comma inside a value is a parse error, not data.
//! The state machine below (`Key -> PreValue -> Value -> PostValue`) is
//! the authoritative definition of the grammar; it is deliberately
//! hand-written rather than delegated to a lenient general-purpose
//! parser.

use vstd::prelude::*;

verus! {

/// The tokenizer's state between two characters of the input.
#[derive(Debug, Clone, Copy, PartialEq, Eq, Structural)]
pub enum ParserState {
    Key,
    PreValue,
    Value,
    PostValue,
}

/// Why the `Signature` header failed to tokenize.
#[derive(Debug, Clone, Copy, PartialEq, Eq, Structural)]
pub enum HeaderParseError {
    /// A character arrived that the current state does not accept.
    UnexpectedCharacter(ParserState, char),
    /// The input ended anywhere but immediately after a closing quote.
    UnexpectedEndOfInput(ParserState),
}

/// One step short of the whole grammar: the fields recognized from `s`
/// when the machine starts in `state` with partial key `key`, partial
/// value `value`, and already-recognized pairs `acc`.
pub open spec fn sig_fields_rec(
    s: Seq<char>,
    state: ParserState,
    key: Seq<char>,
    value: Seq<char>,
    acc: Seq<(Seq<char>, Seq<char>)>,
) -> Result<Seq<(Seq<char>, Seq<char>)>, HeaderParseError>
    decreases s.len(),
{
    if s.len() == 0 {
        if state is PostValue {
            Ok(acc)
        } else {
            Err(HeaderParseError::UnexpectedEndOfInput(state))
        }
    } else {
        let c = s[0];
        let rest = s.drop_first();
        match state {
            ParserState::Key => if c == '=' {
                sig_fields_rec(rest, ParserState::PreValue, key, value, acc)
            } else {
                sig_fields_rec(rest, ParserState::Key, key.push(c), value, acc)
            },
            ParserState::PreValue => if c == '"' {
                sig_fields_rec(rest, ParserState::Value, key, value, acc)
            } else {
                Err(HeaderParseError::UnexpectedCharacter(ParserState::PreValue, c))
            },
            ParserState::Value => if c == '"' {
                sig_fields_rec(rest, ParserState::PostValue, key, value, acc.push((key, value)))
            } else if c == ',' {
                Err(HeaderParseError::UnexpectedCharacter(ParserState::Value, c))
            } else {
                sig_fields_rec(rest, ParserState::Value, key, value.push(c), acc)
            },
            ParserState::PostValue => if c == ',' {
                sig_fields_rec(rest, ParserState::Key, Seq::empty(), Seq::empty(), acc)
            } else {
                Err(HeaderParseError::UnexpectedCharacter(ParserState::PostValue, c))
            },
        }
    }
}

/// The fields of a `Signature` header value: every `key="value"` pair,
/// in input order, or the first error.
pub open spec fn sig_fields(s: Seq<char>) -> Result<Seq<(Seq<char>, Seq<char>)>, HeaderParseError> {
    sig_fields_rec(s, ParserState::Key, Seq::empty(), Seq::empty(), Seq::empty())
}

/// The views of a vector of string pairs.
pub open spec fn pair_views(v: Seq<(String, String)>) -> Seq<(Seq<char>, Seq<char>)> {
    v.map_values(|p: (String, String)| (p.0@, p.1@))
}

/// Tokenizes a `Signature` header value into its `key="value"` pairs,
/// in input order; repeated keys all appear.
pub fn sig(text: &str) -> (r: Result<Vec<(String, String)>, HeaderParseError>)
    ensures
        match r {
            Ok(v) => sig_fields(text@) == Ok::<_, HeaderParseError>(pair_views(v@)),
            Err(e) => sig_fields(text@) == Err::<Seq<(Seq<char>, Seq<char>)>, _>(e),
        },
{
    let n: usize = text.unicode_len();
    let mut state = ParserState::Key;
    let mut key: Vec<char> = Vec::new();
    let mut value: Vec<char> = Vec::new();
    let mut acc: Vec<(String, String)> = Vec::new();
    let mut i: usize = 0;
    proof {
        assert(text@.skip(0) =~= text@);
        assert(pair_views(Seq::empty()) =~= Seq::<(Seq<char>, Seq<char>)>::empty());
    }
    while i < n
        invariant
            i <= n,
            n == text@.len(),
            sig_fields(text@) == sig_fields_rec(
                text@.skip(i as int),
                state,
                key@,
                value@,
                pair_views(acc@),
            ),
        decreases n - i,
    {
        let c = text.get_char(i);
        let ghost pre_key = key@;
        let ghost pre_value = value@;
        let ghost pre_acc = pair_views(acc@);
        proof {
            assert(text@.skip(i as int)[0] == text@[i as int]);
            assert(text@.skip(i as int).drop_first() =~= text@.skip(i + 1));
        }
        match state {
            ParserState::Key => {
                if c == '=' {
                    state = ParserState::PreValue;
                } else {
                    key.push(c);
                }
            },
            ParserState::PreValue => {
                if c == '"' {
                    state = ParserState::Value;
                } else {
                    return Err(HeaderParseError::UnexpectedCharacter(ParserState::PreValue, c));
                }
            },
            ParserState::Value => {
                if c == '"' {
                    let k = crate::text::chars_to_string(&key);
                    let v = crate::text::chars_to_string(&value);
                    acc.push((k, v));
                    proof {
                        assert(pair_views(acc@) =~= pre_acc.push((pre_key, pre_value)));
                    }
                    state = ParserState::PostValue;
                } else if c == ',' {
                    return Err(HeaderParseError::UnexpectedCharacter(ParserState::Value, c));
                } else {
                    value.push(c);
                }
            },
            ParserState::PostValue => {
                if c == ',' {
                    key.clear();
                    value.clear();
                    state = ParserState::Key;
                } else {
                    return Err(HeaderParseError::UnexpectedCharacter(ParserState::PostValue, c));
                }
            },
        }
        i = i + 1;
    }
    proof {
        assert(text@.skip(n as int) =~= Seq::<char>::empty());
    }
    if let ParserState::PostValue = state {
        Ok(acc)
    } else {
        Err(HeaderParseError::UnexpectedEndOfInput(state))
    }
}

/// One step short of the whole list grammar: the headers recognized
/// from `s` with partial token `cur` and already-recognized list `acc`.
pub open spec fn sig_headers_rec(
    s: Seq<char>,
    cur: Seq<char>,
    acc: Seq<Seq<char>>,
) -> Seq<Seq<char>>
    decreases s.len(),
{
    if s.len() == 0 {
        if cur.len() > 0 {
            acc.push(cur)
        } else {
            acc
        }
    } else if s[0] == ' ' {
        if cur.len() > 0 {
            sig_headers_rec(s.drop_first(), Seq::empty(), acc.push(cur))
        } else {
            sig_headers_rec(s.drop_first(), Seq::empty(), acc)
        }
    } else {
        sig_headers_rec(s.drop_first(), cur.push(s[0]), acc)
    }
}

/// The space-separated tokens of `s`, in order, with runs of spaces
/// treated as one separator; empty input yields no tokens.
pub open spec fn header_list(s: Seq<char>) -> Seq<Seq<char>> {
    sig_headers_rec(s, Seq::empty(), Seq::empty())
}

/// The views of a vector of strings.
pub open spec fn string_views(v: Seq<String>) -> Seq<Seq<char>> {
    v.map_values(|p: String| p@)
}

/// A token with no space in it.
pub open spec fn space_free(token: Seq<char>) -> bool {
    forall|j: int| 0 <= j < token.len() ==> token[j] != ' '
}

/// Every token nonempty and space-free.
pub open spec fn all_tokens_wf(tokens: Seq<Seq<char>>) -> bool {
    forall|i: int| 0 <= i < tokens.len() ==> tokens[i].len() > 0 && space_free(tokens[i])
}

proof fn lemma_sig_headers_rec_tokens(s: Seq<char>, cur: Seq<char>, acc: Seq<Seq<char>>)
    requires
        space_free(cur),
        all_tokens_wf(acc),
    ensures
        all_tokens_wf(sig_headers_rec(s, cur, acc)),
    decreases s.len(),
{
    if s.len() == 0 {
        if cur.len() > 0 {
            assert(all_tokens_wf(acc.push(cur)));
        }
    } else if s[0] == ' ' {
        if cur.len() > 0 {
            assert(all_tokens_wf(acc.push(cur)));
            lemma_sig_headers_rec_tokens(s.drop_first(), Seq::empty(), acc.push(cur));
        } else {
            lemma_sig_headers_rec_tokens(s.drop_first(), Seq::empty(), acc);
        }
    } else {
        assert(space_free(cur.push(s[0])));
        lemma_sig_headers_rec_tokens(s.drop_first(), cur.push(s[0]), acc);
    }
}

/// Law: however many spaces separate the names, every token of a
/// header list is a nonempty name with no space in it — runs of
/// separators never produce empty tokens.
pub proof fn lemma_header_list_tokens(s: Seq<char>)
    ensures
        all_tokens_wf(header_list(s)),
{
    lemma_sig_headers_rec_tokens(s, Seq::empty(), Seq::empty());
}

/// Tokenizes the `headers` field of a `Signature` header: the header
/// names in declared order and original case, tolerant of repeated
/// spaces. Never fails; the `Result` mirrors the fields tokenizer.
pub fn sig_headers(text: &str) -> (r: Result<Vec<String>, HeaderParseError>)
    ensures
        r matches Ok(v) && string_views(v@) == header_list(text@),
{
    let n: usize = text.unicode_len();
    let mut cur: Vec<char> = Vec::new();
    let mut acc: Vec<String> = Vec::new();
    let mut i: usize = 0;
    proof {
        assert(text@.skip(0) =~= text@);
        assert(string_views(Seq::empty()) =~= Seq::<Seq<char>>::empty());
    }
    while i < n
        invariant
            i <= n,
            n == text@.len(),
            header_list(text@) == sig_headers_rec(
                text@.skip(i as int),
                cur@,
                string_views(acc@),
            ),
        decreases n - i,
    {
        let c = text.get_char(i);
        let ghost pre_cur = cur@;
        let ghost pre_acc = string_views(acc@);
        proof {
            assert(text@.skip(i as int)[0] == text@[i as int]);
            assert(text@.skip(i as int).drop_first() =~= text@.skip(i + 1));
        }
        if c == ' ' {
            if cur.len() > 0 {
                let h = crate::text::chars_to_string(&cur);
                acc.push(h);
                proof {
                    assert(string_views(acc@) =~= pre_acc.push(pre_cur));
                }
                cur.clear();
            } else {
                proof {
                    assert(cur@ =~= Seq::<char>::empty());
                }
            }
        } else {
            cur.push(c);
        }
        i = i + 1;
    }
    proof {
        assert(text@.skip(n as int) =~= Seq::<char>::empty());
    }
    if cur.len() > 0 {
        let h = crate::text::chars_to_string(&cur);
        acc.push(h);
        proof {
            assert(string_views(acc@) =~= string_views(acc@.drop_last()).push(cur@));
        }
    }
    Ok(acc)
}

} // verus!
