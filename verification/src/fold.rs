//! Folding: from a sequence of constructor tokens back to nested Elm type
//! syntax, with parentheses only round an argument that is itself nested.

use vstd::prelude::*;
use vstd::string::StringExecFns;
use crate::error::{Failure, TranslationError};
use crate::types::{ElmToken, ElmTypes};

verus! {

/// The values of a list of tokens, in the same order.
pub open spec fn elm_tokens(list: Seq<ElmTypes>) -> Seq<ElmToken> {
    Seq::new(list.len(), |i: int| list[i]@)
}

impl ElmToken {
    /// Whether the token is one of the primitives.
    pub open spec fn is_scalar(self) -> bool {
        self is Bool || self is String || self is Int || self is Float || self is Char
    }

    /// How many type arguments the constructor takes.
    pub open spec fn arity(self) -> nat {
        match self {
            ElmToken::Maybe | ElmToken::List => 1,
            ElmToken::Dict => 2,
            _ => 0,
        }
    }
}

/// The Elm type expression for `tokens`, which lists the constructors from
/// the outermost to the innermost; `None` where the sequence is malformed.
///
/// A single token stands for itself. A constructor with one argument is
/// followed by that argument, a constructor with two by its key and then its
/// value; the key is always a single token. An argument of one token is set
/// off by a space, a longer one is put in parentheses.
pub open spec fn fold(tokens: Seq<ElmToken>) -> Option<Seq<char>>
    decreases tokens.len(),
{
    if tokens.len() == 0 {
        None
    } else if tokens.len() == 1 {
        Some(tokens[0].name())
    } else if tokens[0].arity() == 1 {
        if tokens.len() == 2 {
            Some(tokens[0].name() + " "@ + tokens[1].name())
        } else {
            match fold(tokens.skip(1)) {
                Some(inner) => Some(tokens[0].name() + "("@ + inner + ")"@),
                None => None,
            }
        }
    } else if tokens[0].arity() == 2 {
        if tokens.len() == 3 {
            Some(tokens[0].name() + " "@ + tokens[1].name() + " "@ + tokens[2].name())
        } else {
            match fold(tokens.skip(2)) {
                Some(inner) => Some(
                    tokens[0].name() + " "@ + tokens[1].name() + "("@ + inner + ")"@,
                ),
                None => None,
            }
        }
    } else {
        None
    }
}

/// What a rendering returns when the text to give is `expected`, where
/// `None` stands for a malformed sequence.
pub open spec fn text_outcome(expected: Option<Seq<char>>, out: Result<String, TranslationError>) -> bool {
    match expected {
        Some(text) => out matches Ok(s) && s@ == text,
        None => out matches Err(e) && e@ == Failure::MalformedSequence,
    }
}

/// Folds a working sequence, which holds the tokens innermost first, so that
/// the outermost constructor is the one taken from the end.
///
/// The sequence is used up: it is empty afterwards, except that a sequence of
/// one token is rendered where it stands and left as it is.
pub fn generate_elm_type(elm_type: &mut Vec<ElmTypes>) -> (out: Result<String, TranslationError>)
    ensures
        text_outcome(fold(elm_tokens(old(elm_type)@).reverse()), out),
        old(elm_type)@.len() == 1 ==> final(elm_type)@ == old(elm_type)@,
        old(elm_type)@.len() != 1 ==> final(elm_type)@.len() == 0,
    decreases old(elm_type)@.len(),
{
    let ghost tokens = elm_tokens(elm_type@).reverse();
    if elm_type.len() == 1 {
        return Ok(elm_type[0].elm_type());
    }
    let first = match elm_type.pop() {
        Some(token) => token,
        None => {
            return Err(TranslationError::MalformedSequence);
        },
    };
    proof {
        lemma_reverse_drop_last(old(elm_type)@);
    }
    let remain_len = elm_type.len();
    match first {
        ElmTypes::Maybe | ElmTypes::List => {
            if remain_len == 1 {
                let arg = elm_type.pop().unwrap();
                Ok(first.elm_type().concat(" ").concat(arg.elm_type().as_str()))
            } else {
                match generate_elm_type(elm_type) {
                    Ok(inner) => Ok(
                        first.elm_type().concat("(").concat(inner.as_str()).concat(")"),
                    ),
                    Err(e) => Err(e),
                }
            }
        },
        ElmTypes::Dict => {
            proof {
                lemma_reverse_drop_last(elm_type@);
            }
            let key = elm_type.pop().unwrap();
            let head = first.elm_type().concat(" ").concat(key.elm_type().as_str());
            if remain_len == 2 {
                let value = elm_type.pop().unwrap();
                Ok(head.concat(" ").concat(value.elm_type().as_str()))
            } else {
                assert(elm_tokens(elm_type@).reverse() == tokens.skip(2));
                match generate_elm_type(elm_type) {
                    Ok(inner) => Ok(head.concat("(").concat(inner.as_str()).concat(")")),
                    Err(e) => Err(e),
                }
            }
        },
        _ => {
            elm_type.clear();
            Err(TranslationError::MalformedSequence)
        },
    }
}

/// Taking the last token off a working sequence takes the first token off
/// the sequence read from the outside in.
pub proof fn lemma_reverse_drop_last(work: Seq<ElmTypes>)
    requires
        work.len() > 0,
    ensures
        elm_tokens(work).reverse()[0] == work.last()@,
        elm_tokens(work.drop_last()).reverse() == elm_tokens(work).reverse().skip(1),
{
}

/// A constructor of one argument before a single token gives the name of the
/// constructor, one space and the name of the token; where that token is a
/// primitive, no parenthesis occurs in the text.
pub proof fn lemma_unary_bare(wrapper: ElmToken, scalar: ElmToken)
    requires
        wrapper.arity() == 1,
    ensures
        fold(seq![wrapper, scalar]) == Some(wrapper.name() + seq![' '] + scalar.name()),
        scalar.is_scalar() ==> {
            let text = wrapper.name() + seq![' '] + scalar.name();
            !text.contains('(') && !text.contains(')')
        },
{
    reveal_strlit(" ");
    if scalar.is_scalar() {
        reveal_strlit("Maybe");
        reveal_strlit("List");
        reveal_strlit("bool");
        reveal_strlit("String");
        reveal_strlit("Int");
        reveal_strlit("Float");
        reveal_strlit("Char");
    }
}

} // verus!
