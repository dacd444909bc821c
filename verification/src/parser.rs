//! The parser: reads one message from the tokens of a line.
//!
//! A message is an optional prefix, a command and a list of parameters:
//!
//! ```text
//! [":" prefix SPACE] command {SPACE+ middle} [SPACE+ ":" trailing] [CRLF]
//! ```

use crate::lexer::{
    is_word_end, lemma_token_end, lemma_word_end, token_end, token_literal, token_type_at, Lexer,
    Token, TokenType,
};
use crate::text::views;
use vstd::prelude::*;

verus! {

/// Why a line is no message.
#[derive(Debug, PartialEq, Eq, Clone, Copy)]
pub enum ParseError {
    /// The leading colon is not followed by a word and one space.
    MalformedPrefix,
    /// The command is missing, or is neither letters only nor three digits.
    MalformedCommand,
    /// A carriage return without a line feed stands where a parameter or the
    /// end of the line is due.
    MalformedParameters,
}

/// One protocol message.
#[derive(Debug, PartialEq, Eq, Clone)]
pub struct Message {
    pub prefix: Option<String>,
    pub command: String,
    pub params: Vec<String>,
}

/// A message as plain sequences of characters.
pub struct MessageView {
    pub prefix: Option<Seq<char>>,
    pub command: Seq<char>,
    pub params: Seq<Seq<char>>,
}

impl View for Message {
    type V = MessageView;

    open spec fn view(&self) -> MessageView {
        MessageView {
            prefix: match self.prefix {
                Some(p) => Some(p@),
                None => None,
            },
            command: self.command@,
            params: views(self.params@),
        }
    }
}

pub open spec fn is_ascii_letter(c: char) -> bool {
    ('a' <= c && c <= 'z') || ('A' <= c && c <= 'Z')
}

pub open spec fn is_ascii_digit(c: char) -> bool {
    '0' <= c && c <= '9'
}

/// Every character of `s` is an ASCII letter.
pub open spec fn only_letters(s: Seq<char>) -> bool {
    forall|i: int| 0 <= i < s.len() ==> is_ascii_letter(#[trigger] s[i])
}

/// `s` is three ASCII digits.
pub open spec fn three_digits(s: Seq<char>) -> bool {
    s.len() == 3 && forall|i: int| 0 <= i < s.len() ==> is_ascii_digit(#[trigger] s[i])
}

/// A command is letters only, or a number of three digits.
pub open spec fn is_valid_command(s: Seq<char>) -> bool {
    only_letters(s) || three_digits(s)
}

impl MessageView {
    /// What every parsed message meets: its command is well formed.
    pub open spec fn well_formed(self) -> bool {
        self.command.len() > 0 && is_valid_command(self.command)
    }
}

/// Whether a carriage return and a line feed stand at index `i` of `s`.
pub open spec fn crlf_at(s: Seq<char>, i: int) -> bool {
    0 <= i && i + 1 < s.len() && s[i] == '\r' && s[i + 1] == '\n'
}

/// The first index at or after `i` that holds no space, or the length of `s`.
pub open spec fn skip_spaces(s: Seq<char>, i: int) -> int
    decreases s.len() - i,
{
    if 0 <= i < s.len() && s[i] == ' ' {
        skip_spaces(s, i + 1)
    } else {
        i
    }
}

/// The first index at or after `i` at which a line terminator stands, or the
/// length of `s`.
pub open spec fn line_end(s: Seq<char>, i: int) -> int
    decreases s.len() - i,
{
    if 0 <= i < s.len() && !crlf_at(s, i) {
        line_end(s, i + 1)
    } else {
        i
    }
}

/// What reading the parameters gave: the parameters, or `None` where the line
/// is malformed, and the index at which reading stopped.
pub struct ParamsOutcome {
    pub params: Option<Seq<Seq<char>>>,
    pub end: int,
}

impl ParamsOutcome {
    /// The same outcome with `front` before its parameters.
    pub open spec fn after(self, front: Seq<Seq<char>>) -> ParamsOutcome {
        ParamsOutcome {
            params: match self.params {
                Some(rest) => Some(front + rest),
                None => None,
            },
            end: self.end,
        }
    }
}

/// The parameter that begins at index `q` of `s`, a place that holds neither a
/// space nor the end of the line, and all that follow it.
pub open spec fn params_from_word(s: Seq<char>, q: int) -> ParamsOutcome
    decreases s.len() - q, 0nat,
    via params_from_word_decreases
{
    if token_type_at(s, q) != TokenType::Word {
        ParamsOutcome { params: None, end: token_end(s, q) }
    } else if s[q] == ':' {
        let stop = line_end(s, q + 1);
        ParamsOutcome { params: Some(seq![s.subrange(q + 1, stop)]), end: token_end(s, stop) }
    } else {
        let e = token_end(s, q);
        params_at(s, e).after(seq![s.subrange(q, e)])
    }
}

/// The parameters that follow index `p` of `s`, a place just behind the command
/// or behind a parameter.
///
/// The end of the line (a line terminator, or the end of `s`) ends the list.
/// Spaces separate the parameters; any number of them may stand before a
/// parameter or before the end of the line. A parameter that begins with a
/// colon takes the rest of the line, without that colon, and is the last.
/// A carriage return that no line feed follows is malformed, except inside
/// that last parameter.
pub open spec fn params_at(s: Seq<char>, p: int) -> ParamsOutcome
    decreases s.len() - p, 1nat,
    via params_at_decreases
{
    match token_type_at(s, p) {
        TokenType::EOF | TokenType::CrLf => ParamsOutcome {
            params: Some(Seq::empty()),
            end: token_end(s, p),
        },
        TokenType::Space => {
            let q = skip_spaces(s, p);
            match token_type_at(s, q) {
                TokenType::EOF | TokenType::CrLf => ParamsOutcome {
                    params: Some(Seq::empty()),
                    end: token_end(s, q),
                },
                _ => params_from_word(s, q),
            }
        },
        _ => ParamsOutcome { params: None, end: token_end(s, p) },
    }
}

#[via_fn]
proof fn params_from_word_decreases(s: Seq<char>, q: int) {
    if token_type_at(s, q) == TokenType::Word {
        lemma_word_end(s, q + 1);
    }
}

#[via_fn]
proof fn params_at_decreases(s: Seq<char>, p: int) {
    if 0 <= p < s.len() {
        lemma_skip_spaces(s, p);
    }
}

/// What parsing gave: the message or the reason why there is none, and the
/// index at which reading stopped.
pub struct Parsed {
    pub result: Result<MessageView, ParseError>,
    pub end: int,
}

/// The command that begins at index `c` of `s` and the parameters behind it,
/// as a message with the given prefix.
pub open spec fn command_and_params(s: Seq<char>, c: int, prefix: Option<Seq<char>>) -> Parsed {
    let e = token_end(s, c);
    let command = s.subrange(c, e);
    if token_type_at(s, c) != TokenType::Word || !is_valid_command(command) {
        Parsed { result: Err(ParseError::MalformedCommand), end: e }
    } else {
        let rest = params_at(s, e);
        Parsed {
            result: match rest.params {
                Some(params) => Ok(MessageView { prefix, command, params }),
                None => Err(ParseError::MalformedParameters),
            },
            end: rest.end,
        }
    }
}

/// The message that begins at index `p` of `s`.
///
/// A colon at the very start of the line opens a prefix: a word and exactly one
/// space have to follow it. Then comes the command, then the parameters.
pub open spec fn parse_at(s: Seq<char>, p: int) -> Parsed {
    if token_type_at(s, p) == TokenType::Colon {
        let w = p + 1;
        let e = token_end(s, w);
        if token_type_at(s, w) != TokenType::Word {
            Parsed { result: Err(ParseError::MalformedPrefix), end: e }
        } else if token_type_at(s, e) != TokenType::Space {
            Parsed { result: Err(ParseError::MalformedPrefix), end: token_end(s, e) }
        } else {
            command_and_params(s, e + 1, Some(s.subrange(w, e)))
        }
    } else {
        command_and_params(s, p, None)
    }
}

/// The message that the line `s` holds.
pub open spec fn parse_line(s: Seq<char>) -> Result<MessageView, ParseError> {
    parse_at(s, 0).result
}

/// A parse result as plain sequences of characters.
pub open spec fn result_view(r: Result<Message, ParseError>) -> Result<MessageView, ParseError> {
    match r {
        Ok(m) => Ok(m@),
        Err(e) => Err(e),
    }
}

pub proof fn lemma_skip_spaces(s: Seq<char>, i: int)
    requires
        0 <= i <= s.len(),
    ensures
        i <= skip_spaces(s, i) <= s.len(),
        forall|k: int| i <= k < skip_spaces(s, i) ==> #[trigger] s[k] == ' ',
        skip_spaces(s, i) < s.len() ==> s[skip_spaces(s, i)] != ' ',
    decreases s.len() - i,
{
    if i < s.len() && s[i] == ' ' {
        lemma_skip_spaces(s, i + 1);
    }
}

pub proof fn lemma_line_end(s: Seq<char>, i: int)
    requires
        0 <= i <= s.len(),
    ensures
        i <= line_end(s, i) <= s.len(),
        forall|k: int| i <= k < line_end(s, i) ==> !crlf_at(s, k),
        line_end(s, i) < s.len() ==> crlf_at(s, line_end(s, i)),
    decreases s.len() - i,
{
    if i < s.len() && !crlf_at(s, i) {
        lemma_line_end(s, i + 1);
    }
}

/// Where no line terminator stands between `a` and `b`, the line ends at the
/// same place seen from either.
pub proof fn lemma_line_end_from(s: Seq<char>, a: int, b: int)
    requires
        0 <= a <= b <= s.len(),
        forall|k: int| a <= k < b ==> !crlf_at(s, k),
    ensures
        line_end(s, a) == line_end(s, b),
    decreases b - a,
{
    if a < b {
        lemma_line_end_from(s, a + 1, b);
    }
}

/// No token but a line terminator holds the start of one.
pub proof fn lemma_line_end_over_token(s: Seq<char>, pos: int)
    requires
        0 <= pos < s.len(),
        token_type_at(s, pos) != TokenType::CrLf,
    ensures
        line_end(s, pos) == line_end(s, token_end(s, pos)),
{
    lemma_token_end(s, pos);
    lemma_word_end(s, pos + 1);
    assert forall|k: int| pos <= k < token_end(s, pos) implies !crlf_at(s, k) by {
        if k > pos {
            assert(!is_word_end(s[k]));
        }
    }
    lemma_line_end_from(s, pos, token_end(s, pos));
}

/// A parser over one line.
pub struct Parser<'a> {
    lexer: Lexer<'a>,
}

impl<'a> Parser<'a> {
    /// The line that is being parsed.
    pub closed spec fn input(&self) -> Seq<char> {
        self.lexer.input()
    }

    /// The index of the next character to read.
    pub closed spec fn position(&self) -> int {
        self.lexer.position()
    }

    /// A parser at the start of `message`.
    pub fn new(message: &'a str) -> (parser: Self)
        ensures
            parser.input() == message@,
            parser.position() == 0,
    {
        Parser { lexer: Lexer::new(message) }
    }

    /// Parses the message that begins at the current position: on a fresh
    /// parser, the message of the line.
    pub fn parse_message(&mut self) -> (r: Result<Message, ParseError>)
        ensures
            final(self).input() == old(self).input(),
            result_view(r) == parse_at(old(self).input(), old(self).position()).result,
            final(self).position() == parse_at(old(self).input(), old(self).position()).end,
    {
        let first = self.lexer.next_token();
        let prefix = match self.parse_prefix(&first) {
            Ok(prefix) => prefix,
            Err(e) => {
                return Err(e);
            },
        };
        let command = match prefix {
            Some(_) => {
                let token = self.lexer.next_token();
                self.parse_command(&token)
            },
            None => self.parse_command(&first),
        };
        let command = match command {
            Ok(command) => command,
            Err(e) => {
                return Err(e);
            },
        };
        match self.parse_params() {
            Ok(params) => Ok(Message { prefix, command, params }),
            Err(e) => Err(e),
        }
    }

    /// Reads the prefix, where `token`, the first of the line, opens one.
    fn parse_prefix(&mut self, token: &Token) -> (r: Result<Option<String>, ParseError>)
        requires
            0 <= old(self).position() <= old(self).input().len(),
        ensures
            final(self).input() == old(self).input(),
            0 <= final(self).position() <= old(self).input().len(),
            token.token_type != TokenType::Colon ==> r == Ok::<Option<String>, ParseError>(None)
                && final(self).position() == old(self).position(),
            token.token_type == TokenType::Colon ==> ({
                let s = old(self).input();
                let w = old(self).position();
                let e = token_end(s, w);
                if token_type_at(s, w) != TokenType::Word {
                    r == Err::<Option<String>, ParseError>(ParseError::MalformedPrefix)
                        && final(self).position() == e
                } else if token_type_at(s, e) != TokenType::Space {
                    r == Err::<Option<String>, ParseError>(ParseError::MalformedPrefix)
                        && final(self).position() == token_end(s, e)
                } else {
                    r matches Ok(Some(prefix)) && prefix@ == s.subrange(w, e)
                        && final(self).position() == e + 1
                }
            }),
    {
        match token.token_type {
            TokenType::Colon => {},
            _ => {
                return Ok(None);
            },
        }
        let prefix_token = self.lexer.next_token();
        match prefix_token.token_type {
            TokenType::Word => {},
            _ => {
                return Err(ParseError::MalformedPrefix);
            },
        }
        let space_token = self.lexer.next_token();
        match space_token.token_type {
            TokenType::Space => {},
            _ => {
                return Err(ParseError::MalformedPrefix);
            },
        }
        Ok(Some(prefix_token.literal))
    }

    /// Takes the command from `token`, which has to be a word of letters only
    /// or of three digits.
    fn parse_command(&mut self, token: &Token) -> (r: Result<String, ParseError>)
        ensures
            *final(self) == *old(self),
            match r {
                Ok(command) => token.token_type == TokenType::Word && is_valid_command(
                    token.literal@,
                ) && command@ == token.literal@,
                Err(e) => e == ParseError::MalformedCommand && !(token.token_type
                    == TokenType::Word && is_valid_command(token.literal@)),
            },
    {
        match token.token_type {
            TokenType::Word => {},
            _ => {
                return Err(ParseError::MalformedCommand);
            },
        }
        if !Self::is_only_based_on_letters(token.literal.as_str())
            && !Self::is_three_digit_number(token.literal.as_str()) {
            Err(ParseError::MalformedCommand)
        } else {
            Ok(token.literal.clone())
        }
    }

    /// Reads the parameters that follow the command.
    #[verifier::loop_isolation(false)]
    fn parse_params(&mut self) -> (r: Result<Vec<String>, ParseError>)
        requires
            0 <= old(self).position() <= old(self).input().len(),
        ensures
            final(self).input() == old(self).input(),
            final(self).position() == params_at(old(self).input(), old(self).position()).end,
            match r {
                Ok(params) => params_at(old(self).input(), old(self).position()).params == Some(
                    views(params@),
                ),
                Err(e) => e == ParseError::MalformedParameters && params_at(
                    old(self).input(),
                    old(self).position(),
                ).params is None,
            },
    {
        let ghost s = self.lexer.input();
        let ghost start = self.lexer.position();
        let mut params: Vec<String> = Vec::new();
        let ghost mut at = self.lexer.position();
        let mut token = self.lexer.next_token();
        proof {
            assert(views(params@) =~= Seq::<Seq<char>>::empty());
            assert(params_at(s, at).after(Seq::empty()).params =~= params_at(s, at).params);
        }
        loop
            invariant
                self.lexer.input() == s,
                0 <= at <= s.len(),
                token.token_type == token_type_at(s, at),
                self.lexer.position() == token_end(s, at),
                params_at(s, start) == params_at(s, at).after(views(params@)),
            decreases s.len() - at,
        {
            match token.token_type {
                TokenType::CrLf | TokenType::EOF => {
                    assert(views(params@) + Seq::<Seq<char>>::empty() =~= views(params@));
                    return Ok(params);
                },
                TokenType::Space => {},
                _ => {
                    return Err(ParseError::MalformedParameters);
                },
            }
            let ghost mut q = self.lexer.position();
            let mut param_token = self.lexer.next_token();
            loop
                invariant
                    self.lexer.input() == s,
                    at < q <= s.len(),
                    skip_spaces(s, at) == skip_spaces(s, q),
                    param_token.token_type == token_type_at(s, q),
                    param_token.literal@ == token_literal(s, q),
                    self.lexer.position() == token_end(s, q),
                decreases s.len() - q,
            {
                match param_token.token_type {
                    TokenType::Space => {},
                    _ => {
                        break ;
                    },
                }
                proof {
                    q = self.lexer.position();
                }
                param_token = self.lexer.next_token();
            }
            assert(skip_spaces(s, at) == q);
            match param_token.token_type {
                TokenType::Word => {
                    let word = param_token.literal.as_str();
                    proof {
                        lemma_word_end(s, q + 1);
                    }
                    assert(word@[0] == s[q]);
                    if word.get_char(0) == ':' {
                        let n = word.unicode_len();
                        let mut trailing = word.substring_char(1, n).to_owned();
                        assert(trailing@ =~= s.subrange(q + 1, token_end(s, q)));
                        proof {
                            lemma_line_end_over_token(s, q);
                            lemma_line_end_from(s, q, q + 1);
                        }
                        loop
                            invariant
                                self.lexer.input() == s,
                                q + 1 <= self.lexer.position() <= s.len(),
                                trailing@ == s.subrange(q + 1, self.lexer.position()),
                                line_end(s, q + 1) == line_end(s, self.lexer.position()),
                                params_at(s, start) == params_at(s, at).after(views(params@)),
                            decreases s.len() - self.lexer.position(),
                        {
                            let ghost pos = self.lexer.position();
                            let next = self.lexer.next_token();
                            match next.token_type {
                                TokenType::CrLf | TokenType::EOF => {
                                    proof {
                                        assert(line_end(s, pos) == pos);
                                        assert(s[q] == ':');
                                        assert(params_at(s, at) == params_from_word(s, q));
                                        assert(params_from_word(s, q).params == Some(
                                            seq![trailing@],
                                        ));
                                        assert(views(params@.push(trailing)) =~= views(params@)
                                            + seq![trailing@]);
                                    }
                                    params.push(trailing);
                                    return Ok(params);
                                },
                                _ => {
                                    proof {
                                        lemma_token_end(s, pos);
                                        lemma_line_end_over_token(s, pos);
                                        assert(s.subrange(q + 1, pos) + s.subrange(
                                            pos,
                                            token_end(s, pos),
                                        ) =~= s.subrange(q + 1, token_end(s, pos)));
                                    }
                                    trailing.append(next.literal.as_str());
                                },
                            }
                        }
                    } else {
                        proof {
                            let e = token_end(s, q);
                            let piece = s.subrange(q, e);
                            assert(views(params@.push(param_token.literal)) =~= views(params@)
                                + seq![piece]);
                            let rest = params_at(s, e);
                            if rest.params is Some {
                                assert(views(params@) + (seq![piece] + rest.params->0) =~= (views(
                                    params@,
                                ) + seq![piece]) + rest.params->0);
                            }
                            at = e;
                        }
                        params.push(param_token.literal);
                    }
                },
                TokenType::CrLf | TokenType::EOF => {
                    assert(views(params@) + Seq::<Seq<char>>::empty() =~= views(params@));
                    return Ok(params);
                },
                _ => {
                    return Err(ParseError::MalformedParameters);
                },
            }
            token = self.lexer.next_token();
        }
    }

    /// Whether `value` holds ASCII letters only.
    pub fn is_only_based_on_letters(value: &str) -> (b: bool)
        ensures
            b == only_letters(value@),
    {
        let n = value.unicode_len();
        let mut i: usize = 0;
        while i < n
            invariant
                n == value@.len(),
                i <= n,
                forall|k: int| 0 <= k < i ==> is_ascii_letter(#[trigger] value@[k]),
            decreases n - i,
        {
            let c = value.get_char(i);
            if !(('a' <= c && c <= 'z') || ('A' <= c && c <= 'Z')) {
                return false;
            }
            i += 1;
        }
        true
    }

    /// Whether `value` is a number of three ASCII digits.
    pub fn is_three_digit_number(value: &str) -> (b: bool)
        ensures
            b == three_digits(value@),
    {
        let n = value.unicode_len();
        if n != 3 {
            return false;
        }
        let mut i: usize = 0;
        while i < n
            invariant
                n == value@.len(),
                i <= n,
                forall|k: int| 0 <= k < i ==> is_ascii_digit(#[trigger] value@[k]),
            decreases n - i,
        {
            let c = value.get_char(i);
            if !('0' <= c && c <= '9') {
                return false;
            }
            i += 1;
        }
        true
    }
}

} // verus!
