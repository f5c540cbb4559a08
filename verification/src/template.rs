//! Text with places that are filled from looked-up properties.

use crate::accessible::{AccessPath, Accessible};
use vstd::prelude::*;
use vstd::string::StringExecFns;

verus! {

pub enum Token {
    /// Text that is rendered as it is.
    Text(String),
    /// A place for the property that the path leads to.
    Accessor(AccessPath),
}

pub struct Template {
    pub tokens: Vec<Token>,
}

/// What a token contributes, given what was found for it: a text itself,
/// a place the value found, or nothing where none was.
pub open spec fn token_text(token: Token, found: Option<String>) -> Seq<char> {
    match token {
        Token::Text(text) => text@,
        Token::Accessor(_) => match found {
            Some(value) => value@,
            None => Seq::empty(),
        },
    }
}

/// The first `upto` tokens, filled and joined.
pub open spec fn filled(tokens: Seq<Token>, found: Seq<Option<String>>, upto: int) -> Seq<char>
    decreases upto,
{
    if upto <= 0 {
        Seq::empty()
    } else {
        filled(tokens, found, upto - 1) + token_text(tokens[upto - 1], found[upto - 1])
    }
}

impl Template {
    /// Builds a plain text template from a `&str` (no parsing).
    pub fn raw_from_str(text: &str) -> (template: Template)
        ensures
            template.tokens@.len() == 1,
            template.tokens@[0] matches Token::Text(only) && only@ == text@,
    {
        let mut tokens: Vec<Token> = Vec::new();
        tokens.push(Token::Text(String::from_str(text)));
        Template { tokens }
    }

    /// Looks up every place of the template, in order. A text has `None`
    /// at its position.
    pub fn lookups<A: Accessible>(&self, accessible: &A) -> (found: Vec<Option<String>>)
        ensures
            found@.len() == self.tokens@.len(),
            forall|i: int|
                0 <= i < found@.len() && self.tokens@[i] is Text ==> #[trigger] found@[i] is None,
    {
        let mut found: Vec<Option<String>> = Vec::new();
        let mut i: usize = 0;
        while i < self.tokens.len()
            invariant
                i <= self.tokens@.len(),
                found@.len() == i,
                forall|j: int| 0 <= j < i && self.tokens@[j] is Text ==> #[trigger] found@[j] is None,
            decreases self.tokens@.len() - i,
        {
            match &self.tokens[i] {
                Token::Text(_) => found.push(None),
                Token::Accessor(path) => found.push(accessible.lookup(path.view())),
            }
            i = i + 1;
        }
        found
    }

    /// Joins the tokens, each place filled with what was found for it.
    pub fn fill(&self, found: &Vec<Option<String>>) -> (text: String)
        requires
            found@.len() == self.tokens@.len(),
        ensures
            text@ == filled(self.tokens@, found@, self.tokens@.len() as int),
    {
        let mut rendered = String::new();
        let mut i: usize = 0;
        assert(rendered@ =~= filled(self.tokens@, found@, 0));
        while i < self.tokens.len()
            invariant
                i <= self.tokens@.len(),
                found@.len() == self.tokens@.len(),
                rendered@ == filled(self.tokens@, found@, i as int),
            decreases self.tokens@.len() - i,
        {
            match &self.tokens[i] {
                Token::Text(string) => rendered.append(string.as_str()),
                Token::Accessor(_) => {
                    match &found[i] {
                        Some(value) => rendered.append(value.as_str()),
                        None => {
                            assert(rendered@ =~= rendered@ + Seq::<char>::empty());
                        },
                    }
                },
            }
            i = i + 1;
        }
        rendered
    }

    /// Renders the template against what `accessible` gives for its
    /// places.
    pub fn render<A: Accessible>(&self, accessible: &A) -> (text: String)
        ensures
            exists|found: Seq<Option<String>>|
                found.len() == self.tokens@.len() && text@ == #[trigger] filled(
                    self.tokens@,
                    found,
                    self.tokens@.len() as int,
                ),
    {
        let found = self.lookups(accessible);
        self.fill(&found)
    }
}

} // verus!
