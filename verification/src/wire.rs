//! The wire form of a message, and what the parser makes of it.
//!
//! A line on the wire is `[":" prefix " "] command {" " middle} [" :" trailing] "\r\n"`.
//! The lemmas here say that parsing such a line gives back exactly the parts
//! it was written from, and that a malformed command is always refused.

use crate::lexer::{is_word_end, token_end, token_type_at, word_end, TokenType};
use crate::parser::{
    command_and_params, crlf_at, is_valid_command, line_end, params_at, params_from_word,
    parse_at, parse_line, skip_spaces, MessageView, ParamsOutcome, ParseError, Parsed,
};
use vstd::prelude::*;

verus! {

/// A word: at least one character, none of them a space or a carriage return.
pub open spec fn is_word(w: Seq<char>) -> bool {
    w.len() > 0 && forall|i: int| 0 <= i < w.len() ==> !is_word_end(#[trigger] w[i])
}

/// A middle parameter: a word that does not begin with a colon.
pub open spec fn is_middle(w: Seq<char>) -> bool {
    is_word(w) && w[0] != ':'
}

/// Every member of `ms` is a middle parameter.
pub open spec fn all_middles(ms: Seq<Seq<char>>) -> bool {
    forall|i: int| 0 <= i < ms.len() ==> is_middle(#[trigger] ms[i])
}

/// A text that holds no line terminator.
pub open spec fn no_line_end(t: Seq<char>) -> bool {
    forall|i: int| !crlf_at(t, i)
}

/// The line terminator.
pub open spec fn crlf() -> Seq<char> {
    seq!['\r', '\n']
}

/// The prefix as it stands on the wire: a colon, the prefix, one space.
pub open spec fn head_text(prefix: Option<Seq<char>>) -> Seq<char> {
    match prefix {
        Some(p) => seq![':'] + p + seq![' '],
        None => Seq::empty(),
    }
}

/// The middle parameters as they stand on the wire: a space before each.
pub open spec fn middles_text(ms: Seq<Seq<char>>) -> Seq<char>
    decreases ms.len(),
{
    if ms.len() == 0 {
        Seq::empty()
    } else {
        seq![' '] + ms[0] + middles_text(ms.drop_first())
    }
}

/// The end of the line on the wire: the trailing parameter, if there is one,
/// behind a space and a colon, then the line terminator.
pub open spec fn tail_text(trailing: Option<Seq<char>>) -> Seq<char> {
    match trailing {
        Some(t) => seq![' ', ':'] + t + crlf(),
        None => crlf(),
    }
}

/// The line that carries the given parts.
pub open spec fn wire_line(
    prefix: Option<Seq<char>>,
    command: Seq<char>,
    middles: Seq<Seq<char>>,
    trailing: Option<Seq<char>>,
) -> Seq<char> {
    head_text(prefix) + command + (middles_text(middles) + tail_text(trailing))
}

/// The parameters of a message with the given middle and trailing parameters.
pub open spec fn all_params(middles: Seq<Seq<char>>, trailing: Option<Seq<char>>) -> Seq<
    Seq<char>,
> {
    match trailing {
        Some(t) => middles + seq![t],
        None => middles,
    }
}

/// Where the characters from `i` up to `j` end no word and `j` does, the word
/// at `i` ends at `j`.
pub proof fn lemma_word_end_is(s: Seq<char>, i: int, j: int)
    requires
        0 <= i <= j <= s.len(),
        forall|k: int| i <= k < j ==> !is_word_end(#[trigger] s[k]),
        j == s.len() || is_word_end(s[j]),
    ensures
        word_end(s, i) == j,
    decreases j - i,
{
    if i < j {
        lemma_word_end_is(s, i + 1, j);
    }
}

/// Where no line terminator stands from `i` up to `j` and one stands at `j`,
/// the line ends at `j`.
pub proof fn lemma_line_end_is(s: Seq<char>, i: int, j: int)
    requires
        0 <= i <= j <= s.len(),
        forall|k: int| i <= k < j ==> !crlf_at(s, k),
        j == s.len() || crlf_at(s, j),
    ensures
        line_end(s, i) == j,
    decreases j - i,
{
    if i < j {
        lemma_line_end_is(s, i + 1, j);
    }
}

/// The text behind a word on the wire is empty or begins with a character
/// that ends the word.
pub proof fn lemma_rest_begins_with_word_end(middles: Seq<Seq<char>>, trailing: Option<Seq<char>>)
    ensures
        (middles_text(middles) + tail_text(trailing)).len() > 0,
        is_word_end((middles_text(middles) + tail_text(trailing))[0]),
{
    if middles.len() > 0 {
        assert(middles_text(middles)[0] == ' ');
    } else {
        assert(middles_text(middles) =~= Seq::<char>::empty());
        assert(middles_text(middles) + tail_text(trailing) =~= tail_text(trailing));
    }
}

/// Reading the parameters from the place where they begin on the wire gives
/// them back: the middle parameters in order, then the trailing one, and the
/// whole line is read.
pub proof fn lemma_params_round_trip(
    s: Seq<char>,
    p: int,
    middles: Seq<Seq<char>>,
    trailing: Option<Seq<char>>,
)
    requires
        0 < p <= s.len(),
        s.skip(p) == middles_text(middles) + tail_text(trailing),
        all_middles(middles),
        trailing matches Some(t) ==> no_line_end(t),
    ensures
        params_at(s, p) == (ParamsOutcome {
            params: Some(all_params(middles, trailing)),
            end: s.len() as int,
        }),
    decreases middles.len(),
{
    let rest = middles_text(middles) + tail_text(trailing);
    assert forall|k: int| 0 <= k < rest.len() implies s[p + k] == #[trigger] rest[k] by {
        assert(s.skip(p)[k] == s[p + k]);
    }
    assert(s.len() == p + rest.len());
    if middles.len() == 0 {
        assert(middles_text(middles) =~= Seq::<char>::empty());
        assert(rest =~= tail_text(trailing));
        match trailing {
            None => {
                assert(rest[0] == '\r' && rest[1] == '\n');
                assert(s[p] == '\r' && s[p + 1] == '\n');
                assert(all_params(middles, trailing) =~= Seq::<Seq<char>>::empty());
            },
            Some(t) => {
                let q = p + 1;
                let stop = q + 1 + t.len();
                assert(rest[0] == ' ' && rest[1] == ':');
                assert(s[p] == ' ' && s[q] == ':');
                assert(skip_spaces(s, p) == q) by {
                    assert(skip_spaces(s, q) == q);
                }
                assert forall|k: int| 0 <= k < t.len() implies s[q + 1 + k] == t[k] by {
                    assert(rest[2 + k] == t[k]);
                }
                assert(s[stop] == '\r' && s[stop + 1] == '\n') by {
                    assert(rest[2 + t.len() as int] == '\r');
                    assert(rest[3 + t.len() as int] == '\n');
                }
                assert forall|k: int| q + 1 <= k < stop implies !crlf_at(s, k) by {
                    if k + 1 < stop {
                        assert(!crlf_at(t, k - q - 1));
                        assert(s[k] == t[k - q - 1]);
                        assert(s[k + 1] == t[k - q]);
                    }
                }
                lemma_line_end_is(s, q + 1, stop);
                assert(s.subrange(q + 1, stop) =~= t);
                assert(token_type_at(s, stop) == TokenType::CrLf);
                assert(params_from_word(s, q) == (ParamsOutcome {
                    params: Some(seq![t]),
                    end: s.len() as int,
                }));
                assert(all_params(middles, trailing) =~= seq![t]);
            },
        }
    } else {
        let m = middles[0];
        let others = middles.drop_first();
        let behind = middles_text(others) + tail_text(trailing);
        let q = p + 1;
        let e = q + m.len();
        assert(rest =~= seq![' '] + m + behind);
        lemma_rest_begins_with_word_end(others, trailing);
        assert(rest[0] == ' ');
        assert(s[p] == ' ');
        assert forall|k: int| 0 <= k < m.len() implies s[q + k] == m[k] by {
            assert(rest[1 + k] == m[k]);
        }
        assert(s[q] == m[0]);
        assert(skip_spaces(s, p) == q) by {
            assert(skip_spaces(s, q) == q);
        }
        assert(s[e] == behind[0]) by {
            assert(rest[1 + m.len() as int] == behind[0]);
        }
        assert forall|k: int| q + 1 <= k < e implies !is_word_end(#[trigger] s[k]) by {
            assert(s[k] == m[k - q]);
        }
        lemma_word_end_is(s, q + 1, e);
        assert(token_type_at(s, q) == TokenType::Word);
        assert(token_end(s, q) == e);
        assert(s.subrange(q, e) =~= m);
        assert(s.skip(e) =~= behind) by {
            assert forall|k: int| 0 <= k < behind.len() implies s.skip(e)[k] == behind[k] by {
                assert(rest[1 + m.len() as int + k] == behind[k]);
            }
        }
        assert(all_middles(others)) by {
            assert forall|i: int| 0 <= i < others.len() implies is_middle(#[trigger] others[i]) by {
                assert(others[i] == middles[i + 1]);
            }
        }
        lemma_params_round_trip(s, e, others, trailing);
        assert(seq![m] + all_params(others, trailing) =~= all_params(middles, trailing)) by {
            assert(middles =~= seq![m] + others);
        }
        assert(params_from_word(s, q) == params_at(s, e).after(seq![m]));
    }
}

/// On a line in wire form the parser finds the command where the prefix ends,
/// and takes the command's word whole.
pub proof fn lemma_command_position(
    prefix: Option<Seq<char>>,
    command: Seq<char>,
    rest: Seq<char>,
)
    requires
        prefix matches Some(p) ==> is_word(p),
        is_word(command),
        prefix is None ==> command[0] != ':',
        rest.len() == 0 || is_word_end(rest[0]),
    ensures
        ({
            let s = head_text(prefix) + command + rest;
            let c = head_text(prefix).len() as int;
            &&& parse_at(s, 0) == command_and_params(s, c, prefix)
            &&& token_type_at(s, c) == TokenType::Word
            &&& token_end(s, c) == c + command.len()
            &&& s.subrange(c, c + command.len()) == command
            &&& s.skip(c + command.len()) == rest
        }),
{
    let head = head_text(prefix);
    let s = head + command + rest;
    let c = head.len() as int;
    let e = c + command.len();
    assert forall|k: int| 0 <= k < command.len() implies s[c + k] == command[k] by {}
    assert(s[c] == command[0]);
    assert forall|k: int| c + 1 <= k < e implies !is_word_end(#[trigger] s[k]) by {
        assert(s[k] == command[k - c]);
    }
    if rest.len() > 0 {
        assert(s[e] == rest[0]);
    }
    lemma_word_end_is(s, c + 1, e);
    assert(s.subrange(c, e) =~= command);
    assert(s.skip(e) =~= rest);
    match prefix {
        None => {
            assert(head =~= Seq::<char>::empty());
        },
        Some(p) => {
            assert(head.len() == p.len() + 2);
            assert(s[0] == ':');
            assert forall|k: int| 0 <= k < p.len() implies s[1 + k] == p[k] by {
                assert(head[1 + k] == p[k]);
            }
            assert(s[1] == p[0]);
            assert(s[1 + p.len() as int] == ' ') by {
                assert(head[1 + p.len() as int] == ' ');
            }
            assert forall|k: int| 2 <= k < 1 + p.len() implies !is_word_end(#[trigger] s[k]) by {
                assert(s[k] == p[k - 1]);
            }
            lemma_word_end_is(s, 2, 1 + p.len() as int);
            assert(token_type_at(s, 0) == TokenType::Colon);
            assert(token_type_at(s, 1) == TokenType::Word);
            assert(token_end(s, 1) == 1 + p.len());
            assert(s.subrange(1, 1 + p.len() as int) =~= p);
        },
    }
}

/// Parsing a well-formed line gives back exactly the prefix, the command and
/// the parameters that it was written from, in order; spaces inside the
/// trailing parameter are kept, and the whole line is read.
pub proof fn lemma_parse_round_trip(
    prefix: Option<Seq<char>>,
    command: Seq<char>,
    middles: Seq<Seq<char>>,
    trailing: Option<Seq<char>>,
)
    requires
        prefix matches Some(p) ==> is_word(p),
        command.len() > 0,
        is_valid_command(command),
        all_middles(middles),
        trailing matches Some(t) ==> no_line_end(t),
    ensures
        parse_at(wire_line(prefix, command, middles, trailing), 0) == (Parsed {
            result: Ok(MessageView { prefix, command, params: all_params(middles, trailing) }),
            end: wire_line(prefix, command, middles, trailing).len() as int,
        }),
        parse_line(wire_line(prefix, command, middles, trailing)) == Ok::<
            MessageView,
            ParseError,
        >(MessageView { prefix, command, params: all_params(middles, trailing) }),
{
    let rest = middles_text(middles) + tail_text(trailing);
    let s = wire_line(prefix, command, middles, trailing);
    let c = head_text(prefix).len() as int;
    lemma_valid_command_is_word(command);
    lemma_rest_begins_with_word_end(middles, trailing);
    lemma_command_position(prefix, command, rest);
    lemma_params_round_trip(s, c + command.len(), middles, trailing);
}

/// A line whose command is neither letters only nor three digits is refused
/// as a malformed command, whatever the rest of the line holds.
pub proof fn lemma_invalid_command_is_refused(
    prefix: Option<Seq<char>>,
    command: Seq<char>,
    rest: Seq<char>,
)
    requires
        prefix matches Some(p) ==> is_word(p),
        is_word(command),
        prefix is None ==> command[0] != ':',
        rest.len() == 0 || is_word_end(rest[0]),
        !is_valid_command(command),
    ensures
        parse_line(head_text(prefix) + command + rest) == Err::<MessageView, ParseError>(
            ParseError::MalformedCommand,
        ),
{
    lemma_command_position(prefix, command, rest);
}

/// The command of every message that the parser gives is letters only or
/// three digits.
pub proof fn lemma_parsed_command_is_valid(s: Seq<char>, p: int)
    ensures
        parse_at(s, p).result matches Ok(m) ==> m.well_formed(),
{
    if parse_at(s, p).result is Ok {
        let c = if token_type_at(s, p) == TokenType::Colon {
            token_end(s, p + 1) + 1
        } else {
            p
        };
        assert(token_type_at(s, c) == TokenType::Word);
        crate::lexer::lemma_token_end(s, c);
    }
}

/// A valid command is a word, and does not begin with a colon.
pub proof fn lemma_valid_command_is_word(command: Seq<char>)
    requires
        command.len() > 0,
        is_valid_command(command),
    ensures
        is_word(command),
        command[0] != ':',
{
    assert forall|i: int| 0 <= i < command.len() implies !is_word_end(#[trigger] command[i]) by {
        if crate::parser::only_letters(command) {
            assert(crate::parser::is_ascii_letter(command[i]));
        } else {
            assert(crate::parser::is_ascii_digit(command[i]));
        }
    }
    if crate::parser::only_letters(command) {
        assert(crate::parser::is_ascii_letter(command[0]));
    } else {
        assert(crate::parser::is_ascii_digit(command[0]));
    }
}

} // verus!
