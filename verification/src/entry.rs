//! Finding the game in the source text of an item, so that a `main` function
//! can be written for it.

use vstd::prelude::*;

verus! {

/// One token at the top level of an item's source text.
#[derive(Debug)]
pub enum Token {
    /// A word: a keyword or a name.
    Ident(String),
    /// Anything else: punctuation, a literal, or a bracketed group.
    Other,
}

/// Whether the token at `at` is the name of a struct: a word that stands
/// right behind the word `struct`.
pub open spec fn names_struct(tokens: Seq<Token>, at: int) -> bool {
    &&& 1 <= at < tokens.len()
    &&& tokens[at - 1] matches Token::Ident(word)
    &&& word@ == "struct"@
    &&& tokens[at] is Ident
}

/// The place of the name of the first struct among `tokens`, or `None` where
/// they declare no struct.
pub fn struct_name(tokens: &[Token]) -> (place: Option<usize>)
    ensures
        match place {
            Some(at) => names_struct(tokens@, at as int) && forall|earlier: int|
                0 <= earlier < at ==> !names_struct(tokens@, earlier),
            None => forall|at: int| !names_struct(tokens@, at),
        },
{
    let keyword: String = "struct".to_owned();
    let mut at: usize = 1;
    while at < tokens.len()
        invariant
            1 <= at,
            keyword@ == "struct"@,
            forall|earlier: int| 0 <= earlier < at ==> !names_struct(tokens@, earlier),
        decreases tokens.len() - at,
    {
        let found: bool = match (&tokens[at - 1], &tokens[at]) {
            (Token::Ident(word), Token::Ident(_)) => *word == keyword,
            _ => false,
        };
        if found {
            return Some(at);
        }
        at += 1;
    }
    None
}

} // verus!
