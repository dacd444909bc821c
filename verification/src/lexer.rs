//! The lexer: cuts one protocol line into tokens.
//!
//! Positions count Unicode scalar values, not bytes.

use vstd::prelude::*;

verus! {

/// What kind of token a piece of the line is.
#[derive(Debug, PartialEq, Eq, Clone, Copy)]
pub enum TokenType {
    /// A carriage return that no line feed follows.
    Illegal,
    /// The input is used up.
    EOF,
    /// A carriage return with the line feed behind it.
    CrLf,
    /// A colon at the very start of the line.
    Colon,
    /// One space.
    Space,
    /// A run of characters up to the next space, carriage return or the end.
    Word,
}

/// One token: its kind and the text it was read from.
#[derive(Debug, PartialEq, Eq, Clone)]
pub struct Token {
    pub token_type: TokenType,
    pub literal: String,
}

/// Whether `c` ends a word.
pub open spec fn is_word_end(c: char) -> bool {
    c == ' ' || c == '\r'
}

/// The first index at or after `i` that holds a space or a carriage return, or
/// the length of `s`.
pub open spec fn word_end(s: Seq<char>, i: int) -> int
    decreases s.len() - i,
{
    if 0 <= i < s.len() && !is_word_end(s[i]) {
        word_end(s, i + 1)
    } else {
        i
    }
}

/// The kind of the token that begins at index `pos` of `s`.
pub open spec fn token_type_at(s: Seq<char>, pos: int) -> TokenType {
    if pos < 0 || pos >= s.len() {
        TokenType::EOF
    } else if s[pos] == ':' && pos == 0 {
        TokenType::Colon
    } else if s[pos] == ' ' {
        TokenType::Space
    } else if s[pos] == '\r' {
        if pos + 1 < s.len() && s[pos + 1] == '\n' {
            TokenType::CrLf
        } else {
            TokenType::Illegal
        }
    } else {
        TokenType::Word
    }
}

/// The index just behind the token that begins at index `pos` of `s`. At the
/// end of the input it is `pos` itself.
pub open spec fn token_end(s: Seq<char>, pos: int) -> int {
    match token_type_at(s, pos) {
        TokenType::EOF => pos,
        TokenType::Colon | TokenType::Space | TokenType::Illegal => pos + 1,
        TokenType::CrLf => pos + 2,
        TokenType::Word => word_end(s, pos + 1),
    }
}

/// The text of the token that begins at index `pos` of `s`.
pub open spec fn token_literal(s: Seq<char>, pos: int) -> Seq<char> {
    s.subrange(pos, token_end(s, pos))
}

/// `word_end` lies between its start and the length, nothing before it ends a
/// word, and what stands at it does.
pub proof fn lemma_word_end(s: Seq<char>, i: int)
    requires
        0 <= i <= s.len(),
    ensures
        i <= word_end(s, i) <= s.len(),
        forall|k: int| i <= k < word_end(s, i) ==> !is_word_end(#[trigger] s[k]),
        word_end(s, i) < s.len() ==> is_word_end(s[word_end(s, i)]),
    decreases s.len() - i,
{
    if i < s.len() && !is_word_end(s[i]) {
        lemma_word_end(s, i + 1);
    }
}

/// A token ends inside the input, and behind its start unless the input is
/// used up.
pub proof fn lemma_token_end(s: Seq<char>, pos: int)
    requires
        0 <= pos <= s.len(),
    ensures
        pos <= token_end(s, pos) <= s.len(),
        pos < s.len() ==> pos < token_end(s, pos),
{
    if pos < s.len() {
        lemma_word_end(s, pos + 1);
    }
}

/// A cursor over one line.
pub struct Lexer<'a> {
    input: &'a str,
    length: usize,
    position: usize,
}

impl<'a> Lexer<'a> {
    #[verifier::type_invariant]
    spec fn well_formed(self) -> bool {
        self.length == self.input@.len() && self.position <= self.length
    }

    /// The line that is being read.
    pub closed spec fn input(&self) -> Seq<char> {
        self.input@
    }

    /// The index of the next character to read; the length of the input once
    /// all is read.
    pub closed spec fn position(&self) -> int {
        self.position as int
    }

    /// A lexer at the start of `input`.
    pub fn new(input: &'a str) -> (lexer: Self)
        ensures
            lexer.input() == input@,
            lexer.position() == 0,
    {
        Lexer { input, length: input.unicode_len(), position: 0 }
    }

    /// Steps over one character; stays where it is at the end of the input.
    fn read_char(&mut self)
        ensures
            final(self).input() == old(self).input(),
            final(self).position() == if old(self).position() < old(self).input().len() {
                old(self).position() + 1
            } else {
                old(self).position()
            },
    {
        proof {
            use_type_invariant(&*self);
        }
        if self.position < self.length {
            self.position += 1;
        }
    }

    /// The character behind the current one, if there is one.
    fn peek_char(&self) -> (c: Option<char>)
        ensures
            c == if self.position() + 1 < self.input().len() {
                Some(self.input()[self.position() + 1])
            } else {
                None::<char>
            },
    {
        proof {
            use_type_invariant(self);
        }
        if self.position < self.length && self.position + 1 < self.length {
            Some(self.input.get_char(self.position + 1))
        } else {
            None
        }
    }

    /// Reads the word that begins at the current character and stops on its
    /// last character.
    fn read_string(&mut self) -> (word: String)
        requires
            old(self).position() < old(self).input().len(),
        ensures
            final(self).input() == old(self).input(),
            final(self).position() == word_end(old(self).input(), old(self).position() + 1) - 1,
            word@ == old(self).input().subrange(
                old(self).position(),
                word_end(old(self).input(), old(self).position() + 1),
            ),
    {
        proof {
            use_type_invariant(&*self);
        }
        let start = self.position;
        let mut next = self.peek_char();
        while next.is_some() && next.unwrap() != '\r' && next.unwrap() != ' '
            invariant
                self.input() == old(self).input(),
                start == old(self).position(),
                start <= self.position() < self.input().len(),
                next == if self.position() + 1 < self.input().len() {
                    Some(self.input()[self.position() + 1])
                } else {
                    None::<char>
                },
                word_end(self.input(), start + 1) == word_end(self.input(), self.position() + 1),
            decreases self.input().len() - self.position(),
        {
            self.read_char();
            next = self.peek_char();
        }
        proof {
            use_type_invariant(&*self);
        }
        self.input.substring_char(start, self.position + 1).to_owned()
    }

    /// Reads the next token and steps behind it. Once the input is used up
    /// every call gives `EOF`.
    pub fn next_token(&mut self) -> (token: Token)
        ensures
            final(self).input() == old(self).input(),
            final(self).position() == token_end(old(self).input(), old(self).position()),
            0 <= old(self).position() <= final(self).position() <= old(self).input().len(),
            token.token_type == token_type_at(old(self).input(), old(self).position()),
            token.literal@ == token_literal(old(self).input(), old(self).position()),
    {
        proof {
            use_type_invariant(&*self);
        }
        let ghost s = self.input@;
        let ghost pos = self.position as int;
        if self.position >= self.length {
            assert(s.subrange(pos, pos) =~= Seq::<char>::empty());
            return Token { token_type: TokenType::EOF, literal: String::new() };
        }
        let c = self.input.get_char(self.position);
        let token = if c == ':' && self.position == 0 {
            Token {
                token_type: TokenType::Colon,
                literal: self.input.substring_char(0, 1).to_owned(),
            }
        } else if c == ' ' {
            Token {
                token_type: TokenType::Space,
                literal: self.input.substring_char(self.position, self.position + 1).to_owned(),
            }
        } else if c == '\r' {
            if self.peek_char() == Some('\n') {
                self.read_char();
                proof {
                    use_type_invariant(&*self);
                }
                Token {
                    token_type: TokenType::CrLf,
                    literal: self.input.substring_char(
                        self.position - 1,
                        self.position + 1,
                    ).to_owned(),
                }
            } else {
                Token {
                    token_type: TokenType::Illegal,
                    literal: self.input.substring_char(self.position, self.position + 1).to_owned(),
                }
            }
        } else {
            Token { token_type: TokenType::Word, literal: self.read_string() }
        };
        proof {
            lemma_word_end(s, pos + 1);
        }
        self.read_char();
        token
    }
}

} // verus!
