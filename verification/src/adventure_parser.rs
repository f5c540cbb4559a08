//! A lexer for stories that are written as lines of text.
//!
//! Every line gives one token. A line is a title where the line below it
//! is a rule of four dashes, else a jump where it holds an arrow `->`, and
//! else plain text.

use crate::text::{lemma_split_prefix, split, split_text, texts};
use vstd::prelude::*;
use vstd::string::StrSliceExecFns;
use vstd::string::StringExecFns;

verus! {

/// What a line of a story stands for, with the number of the line.
#[derive(Debug, PartialEq, Eq)]
pub enum Token {
    Title(String, usize),
    /// The name of an action and its arguments.
    Action(String, Vec<String>, usize),
    Text(String, usize),
    Check(bool, usize),
}

/// The mathematical value of a token.
pub enum TokenView {
    Title(Seq<char>, int),
    Action(Seq<char>, Seq<Seq<char>>, int),
    Text(Seq<char>, int),
    Check(bool, int),
}

impl View for Token {
    type V = TokenView;

    open spec fn view(&self) -> TokenView {
        match self {
            Token::Title(text, line) => TokenView::Title(text@, *line as int),
            Token::Action(name, arguments, line) => TokenView::Action(
                name@,
                texts(arguments@),
                *line as int,
            ),
            Token::Text(text, line) => TokenView::Text(text@, *line as int),
            Token::Check(value, line) => TokenView::Check(*value, *line as int),
        }
    }
}

/// What the lexer finds a line to be, and what it does next.
#[derive(Clone, Copy, Debug, PartialEq, Eq, Structural)]
pub enum State {
    Title,
    Text,
    Action,
    GoTo,
    Check,
    Next,
    Proceed,
    End,
    Error,
}

/// The characters that count as white space at the ends of a line.
pub open spec fn is_whitespace(c: char) -> bool {
    let code = c as u32;
    (9 <= code <= 13) || code == 32 || code == 0x85 || code == 0xA0 || code == 0x1680 || (0x2000
        <= code <= 0x200A) || code == 0x2028 || code == 0x2029 || code == 0x202F || code == 0x205F
        || code == 0x3000
}

pub open spec fn all_whitespace(line: Seq<char>, from: int, to: int) -> bool {
    forall|i: int| from <= i < to ==> is_whitespace(#[trigger] line[i])
}

/// The line is four dashes from `at` on, with nothing but white space
/// before and behind them.
pub open spec fn is_rule_at(line: Seq<char>, at: int) -> bool {
    &&& 0 <= at
    &&& at + 4 <= line.len()
    &&& all_whitespace(line, 0, at)
    &&& line[at] == '-'
    &&& line[at + 1] == '-'
    &&& line[at + 2] == '-'
    &&& line[at + 3] == '-'
    &&& all_whitespace(line, at + 4, line.len() as int)
}

/// The line is a rule: four dashes, and white space at most around them.
pub open spec fn is_rule(line: Seq<char>) -> bool {
    exists|at: int| is_rule_at(line, at)
}

pub open spec fn arrow_at(line: Seq<char>, i: int) -> bool {
    0 <= i && i + 1 < line.len() && line[i] == '-' && line[i + 1] == '>'
}

/// The position of the first arrow at or behind `from`, or the length of
/// the line where there is none.
pub open spec fn next_arrow(line: Seq<char>, from: int) -> int
    decreases line.len() - from,
{
    if from + 1 >= line.len() {
        line.len() as int
    } else if arrow_at(line, from) {
        from
    } else {
        next_arrow(line, from + 1)
    }
}

pub open spec fn has_arrow(line: Seq<char>) -> bool {
    next_arrow(line, 0) < line.len()
}

/// Where a jump leads: what stands between the first arrow of the line
/// and the next one, or the end of the line.
pub open spec fn jump_target(line: Seq<char>) -> Seq<char> {
    line.subrange(next_arrow(line, 0) + 2, next_arrow(line, next_arrow(line, 0) + 2))
}

/// The token of a line, given the line below it.
pub open spec fn token_of(line: Seq<char>, below: Seq<char>, number: int) -> TokenView {
    if is_rule(below) {
        TokenView::Title(line, number)
    } else if has_arrow(line) {
        TokenView::Action("GoTo"@, seq![jump_target(line)], number)
    } else {
        TokenView::Text(line, number)
    }
}

/// The tokens of the first `upto` lines.
pub open spec fn tokens_of(lines: Seq<Seq<char>>, upto: int) -> Seq<TokenView> {
    Seq::new(upto as nat, |i: int| token_of(lines[i], lines[i + 1], i))
}

/// The tokens of a text whose every line ends in a line feed.
pub open spec fn lexed(text: Seq<char>) -> Seq<TokenView> {
    tokens_of(split(text, '\n'), split(text, '\n').len() - 1)
}

/// The values of a list of tokens.
pub open spec fn token_views(tokens: Seq<Token>) -> Seq<TokenView> {
    Seq::new(tokens.len(), |i: int| tokens[i]@)
}

pub fn is_space(c: char) -> (space: bool)
    ensures
        space == is_whitespace(c),
{
    let code: u32 = c as u32;
    (9 <= code && code <= 13) || code == 32 || code == 0x85 || code == 0xA0 || code == 0x1680 || (
    0x2000 <= code && code <= 0x200A) || code == 0x2028 || code == 0x2029 || code == 0x202F || code
        == 0x205F || code == 0x3000
}

/// Whether a line is a rule.
pub fn line_is_rule(line: &str) -> (rule: bool)
    ensures
        rule == is_rule(line@),
{
    let length = line.unicode_len();
    let mut at: usize = 0;
    while at < length && is_space(line.get_char(at))
        invariant
            at <= length,
            length == line@.len(),
            all_whitespace(line@, 0, at as int),
        decreases length - at,
    {
        at = at + 1;
    }
    // A rule can only start at the first character that is no white space.
    assert forall|other: int| other != at implies !is_rule_at(line@, other) by {
        if is_rule_at(line@, other) {
            if other < at {
                assert(is_whitespace(line@[other]));
            } else {
                assert(is_whitespace(line@[at as int]));
            }
        }
    }
    if length - at < 4 {
        return false;
    }
    if line.get_char(at) != '-' || line.get_char(at + 1) != '-' || line.get_char(at + 2) != '-'
        || line.get_char(at + 3) != '-' {
        return false;
    }
    let mut behind: usize = at + 4;
    while behind < length
        invariant
            at + 4 <= behind <= length,
            length == line@.len(),
            all_whitespace(line@, at + 4, behind as int),
            forall|other: int| other != at ==> !is_rule_at(line@, other),
        decreases length - behind,
    {
        if !is_space(line.get_char(behind)) {
            assert(!is_rule_at(line@, at as int));
            return false;
        }
        behind = behind + 1;
    }
    assert(is_rule_at(line@, at as int));
    true
}

/// The position of the first arrow at or behind `from`, or the length of
/// the line where there is none.
pub fn find_arrow(line: &str, from: usize) -> (found: usize)
    requires
        from <= line@.len(),
    ensures
        found == next_arrow(line@, from as int),
        from <= found <= line@.len(),
        found < line@.len() ==> arrow_at(line@, found as int),
{
    let length = line.unicode_len();
    let mut i: usize = from;
    while i < length && i + 1 < length
        invariant
            from <= i <= length,
            length == line@.len(),
            next_arrow(line@, i as int) == next_arrow(line@, from as int),
        decreases length - i,
    {
        if line.get_char(i) == '-' && line.get_char(i + 1) == '>' {
            return i;
        }
        i = i + 1;
    }
    length
}

pub struct Lexer {
    // The lines of the input; behind the last line feed stands one more,
    // empty segment.
    lines: Vec<String>,
    current_line: usize,
    tokens: Vec<Token>,
}

impl Lexer {
    /// The tokens of a text, one per line. Every line, the last one too,
    /// has to end in a line feed.
    pub fn lex(s: &str) -> (tokens: Vec<Token>)
        requires
            s@.len() > 0,
            s@.last() == '\n',
        ensures
            token_views(tokens@) == lexed(s@),
    {
        let mut lexer = Lexer { lines: split_text(s, '\n'), current_line: 0, tokens: Vec::new() };
        assert(token_views(lexer.tokens@) =~= tokens_of(texts(lexer.lines@), 0));
        lexer.run();
        lexer.tokens
    }

    spec fn wf(&self) -> bool {
        &&& self.lines@.len() >= 1
        &&& self.current_line < self.lines@.len()
        &&& token_views(self.tokens@) == tokens_of(texts(self.lines@), self.current_line as int)
    }

    fn run(&mut self)
        requires
            old(self).wf(),
        ensures
            final(self).lines@ == old(self).lines@,
            token_views(final(self).tokens@) == tokens_of(
                texts(final(self).lines@),
                final(self).lines@.len() - 1,
            ),
    {
        let mut state = self.process();
        while state != State::End
            invariant
                self.wf(),
                self.lines@ == old(self).lines@,
                state == self.found(),
            decreases self.lines@.len() - self.current_line,
        {
            match state {
                State::Title => {
                    self.lex_title();
                },
                State::GoTo => {
                    self.lex_goto();
                },
                _ => {
                    self.lex_text();
                },
            }
            state = self.process();
        }
    }

    /// What the current line is found to be.
    spec fn found(&self) -> State {
        let lines = texts(self.lines@);
        let i = self.current_line as int;
        if i + 1 >= lines.len() {
            State::End
        } else if is_rule(lines[i + 1]) {
            State::Title
        } else if has_arrow(lines[i]) {
            State::GoTo
        } else {
            State::Text
        }
    }

    fn eof(&self) -> (end: bool)
        requires
            self.wf(),
        ensures
            end == (self.current_line + 1 >= self.lines@.len()),
    {
        self.current_line >= self.lines.len() - 1
    }

    fn peek(&self) -> (below: &str)
        requires
            self.wf(),
            self.current_line + 1 < self.lines@.len(),
        ensures
            below@ == texts(self.lines@)[self.current_line + 1],
    {
        let _count = self.lines.len();
        self.lines[self.current_line + 1].as_str()
    }

    fn process(&self) -> (state: State)
        requires
            self.wf(),
        ensures
            state == self.found(),
    {
        if self.eof() {
            State::End
        } else if line_is_rule(self.peek()) {
            State::Title
        } else {
            let line = self.lines[self.current_line].as_str();
            if find_arrow(line, 0) < line.unicode_len() {
                State::GoTo
            } else {
                State::Text
            }
        }
    }

    fn emit(&mut self, token: Token)
        requires
            old(self).wf(),
            old(self).current_line + 1 < old(self).lines@.len(),
            token@ == token_of(
                texts(old(self).lines@)[old(self).current_line as int],
                texts(old(self).lines@)[old(self).current_line + 1],
                old(self).current_line as int,
            ),
        ensures
            final(self).lines@ == old(self).lines@,
            final(self).current_line == old(self).current_line,
            token_views(final(self).tokens@) == tokens_of(
                texts(final(self).lines@),
                final(self).current_line + 1,
            ),
    {
        self.tokens.push(token);
        proof {
            let before = token_views(old(self).tokens@);
            let after = token_views(self.tokens@);
            let wanted = tokens_of(texts(self.lines@), self.current_line + 1);
            assert(before.len() == self.current_line);
            assert forall|i: int| 0 <= i < after.len() implies after[i] == wanted[i] by {
                if i < self.current_line {
                    assert(after[i] == before[i]);
                }
            }
            assert(after =~= wanted);
        }
    }

    fn next(&mut self) -> (state: State)
        requires
            old(self).lines@.len() >= 1,
            old(self).current_line + 1 < old(self).lines@.len(),
            token_views(old(self).tokens@) == tokens_of(
                texts(old(self).lines@),
                old(self).current_line + 1,
            ),
        ensures
            final(self).wf(),
            final(self).lines@ == old(self).lines@,
            final(self).current_line == old(self).current_line + 1,
            state == State::Proceed,
    {
        let _count = self.lines.len();
        self.current_line = self.current_line + 1;
        State::Proceed
    }

    fn lex_title(&mut self) -> (state: State)
        requires
            old(self).wf(),
            old(self).found() == State::Title,
        ensures
            final(self).wf(),
            final(self).lines@ == old(self).lines@,
            final(self).current_line == old(self).current_line + 1,
    {
        let title = self.lines[self.current_line].clone();
        self.emit(Token::Title(title, self.current_line));
        self.next()
    }

    fn lex_goto(&mut self) -> (state: State)
        requires
            old(self).wf(),
            old(self).found() == State::GoTo,
        ensures
            final(self).wf(),
            final(self).lines@ == old(self).lines@,
            final(self).current_line == old(self).current_line + 1,
    {
        let line = self.lines[self.current_line].as_str();
        let _length = line.unicode_len();
        let arrow = find_arrow(line, 0);
        let stop = find_arrow(line, arrow + 2);
        let mut parameter: Vec<String> = Vec::new();
        parameter.push(String::from_str(line.substring_char(arrow + 2, stop)));
        assert(texts(parameter@) =~~= seq![jump_target(line@)]);
        let token = Token::Action(String::from_str("GoTo"), parameter, self.current_line);
        self.emit(token);
        self.next()
    }

    fn lex_text(&mut self) -> (state: State)
        requires
            old(self).wf(),
            old(self).found() == State::Text,
        ensures
            final(self).wf(),
            final(self).lines@ == old(self).lines@,
            final(self).current_line == old(self).current_line + 1,
    {
        let text = self.lines[self.current_line].clone();
        self.emit(Token::Text(text, self.current_line));
        self.next()
    }
}

/// A text that ends in a line feed has as many tokens as line feeds.
pub proof fn lemma_one_token_per_line(text: Seq<char>)
    ensures
        lexed(text).len() == split(text, '\n').len() - 1,
        forall|i: int|
            0 <= i < lexed(text).len() ==> #[trigger] lexed(text)[i] == token_of(
                split(text, '\n')[i],
                split(text, '\n')[i + 1],
                i,
            ),
{
    lemma_split_prefix(text, '\n', text.len() as int);
}

} // verus!
