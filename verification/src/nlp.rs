//! Turning text into token ids for a language model, and token ids back into
//! text.

use vstd::prelude::*;
use vstd::string::StrSliceExecFns;
use crate::text::{same_text, trim, trimmed};

verus! {

/// `DeBERTaV2Tokenizer` of `rust_tokenizers`, carried through as it is.
#[verifier::external_type_specification]
#[verifier::external_body]
pub struct ExDeBERTaV2Tokenizer(rust_tokenizers::tokenizer::DeBERTaV2Tokenizer);

/// `RobertaTokenizer` of `rust_tokenizers`, carried through as it is.
#[verifier::external_type_specification]
#[verifier::external_body]
pub struct ExRobertaTokenizer(rust_tokenizers::tokenizer::RobertaTokenizer);

/// The text that a DeBERTa (v2) tokenizer decodes token ids to.
pub uninterp spec fn deberta_v2_decoded(
    tokenizer: rust_tokenizers::tokenizer::DeBERTaV2Tokenizer,
    token_ids: Seq<i64>,
    skip_special_tokens: bool,
    clean_up_tokenization_spaces: bool,
) -> Seq<char>;

/// The text that a RoBERTa tokenizer decodes token ids to.
pub uninterp spec fn roberta_decoded(
    tokenizer: rust_tokenizers::tokenizer::RobertaTokenizer,
    token_ids: Seq<i64>,
    skip_special_tokens: bool,
    clean_up_tokenization_spaces: bool,
) -> Seq<char>;

/// The tokens that a RoBERTa tokenizer's vocabulary has for token ids.
pub uninterp spec fn roberta_tokens(
    tokenizer: rust_tokenizers::tokenizer::RobertaTokenizer,
    token_ids: Seq<i64>,
    skip_special_tokens: bool,
) -> Seq<Seq<char>>;

/// Whether `c` is one of the 256 characters that stand for a byte in a
/// byte-level vocabulary.
pub open spec fn is_byte_symbol(c: char) -> bool {
    let code = c as u32;
    33 <= code <= 126 || 161 <= code <= 172 || 174 <= code <= 323
}

/// Whether every character of every token stands for a byte.
pub open spec fn all_byte_symbols(tokens: Seq<Seq<char>>) -> bool {
    forall|i: int, j: int|
        0 <= i < tokens.len() && 0 <= j < tokens[i].len() ==> is_byte_symbol(
            #[trigger] tokens[i][j],
        )
}

/// `Tokenizer::decode` of `DeBERTaV2Tokenizer`. It looks every id up in the
/// vocabulary, an unknown id giving the unknown token, and puts the tokens
/// together. The result depends on the tokenizer and the arguments alone.
#[verifier::external_body]
fn deberta_v2_decode(
    tokenizer: &rust_tokenizers::tokenizer::DeBERTaV2Tokenizer,
    token_ids: &[i64],
    skip_special_tokens: bool,
    clean_up_tokenization_spaces: bool,
) -> (text: String)
    ensures
        text@ == deberta_v2_decoded(
            *tokenizer,
            token_ids@,
            skip_special_tokens,
            clean_up_tokenization_spaces,
        ),
{
    rust_tokenizers::tokenizer::Tokenizer::decode(
        tokenizer,
        token_ids,
        skip_special_tokens,
        clean_up_tokenization_spaces,
    )
}

/// `Tokenizer::decode_to_vec` of `RobertaTokenizer`: the token that the
/// vocabulary has for each id, in their order, an unknown id giving the
/// unknown token, and the ids of special tokens left out where that is
/// asked for. The result depends on the tokenizer and the arguments alone.
#[verifier::external_body]
fn roberta_decode_to_vec(
    tokenizer: &rust_tokenizers::tokenizer::RobertaTokenizer,
    token_ids: &[i64],
    skip_special_tokens: bool,
) -> (tokens: Vec<String>)
    ensures
        tokens.deep_view() == roberta_tokens(*tokenizer, token_ids@, skip_special_tokens),
{
    rust_tokenizers::tokenizer::Tokenizer::decode_to_vec(tokenizer, token_ids, skip_special_tokens)
}

/// `Tokenizer::decode` of `RobertaTokenizer`. It joins the tokens of
/// `decode_to_vec` and turns each character that is left back into the byte
/// that it stands for, which fails on a character that stands for none: the
/// tokens must hold no such character. The result depends on the tokenizer
/// and the arguments alone.
#[verifier::external_body]
fn roberta_decode(
    tokenizer: &rust_tokenizers::tokenizer::RobertaTokenizer,
    token_ids: &[i64],
    skip_special_tokens: bool,
    clean_up_tokenization_spaces: bool,
) -> (text: String)
    requires
        all_byte_symbols(roberta_tokens(*tokenizer, token_ids@, skip_special_tokens)),
    ensures
        text@ == roberta_decoded(
            *tokenizer,
            token_ids@,
            skip_special_tokens,
            clean_up_tokenization_spaces,
        ),
{
    rust_tokenizers::tokenizer::Tokenizer::decode(
        tokenizer,
        token_ids,
        skip_special_tokens,
        clean_up_tokenization_spaces,
    )
}

/// Whether `c` stands for a byte.
pub fn byte_symbol(c: char) -> (known: bool)
    ensures
        known == is_byte_symbol(c),
{
    let code: u32 = c as u32;
    (33 <= code && code <= 126) || (161 <= code && code <= 172) || (174 <= code && code <= 323)
}

/// Whether every character of `token` stands for a byte.
pub fn token_of_byte_symbols(token: &str) -> (known: bool)
    ensures
        known == forall|j: int| 0 <= j < token@.len() ==> is_byte_symbol(#[trigger] token@[j]),
{
    let len: usize = token.unicode_len();
    let mut at: usize = 0;
    while at < len
        invariant
            at <= len == token@.len(),
            forall|j: int| 0 <= j < at ==> is_byte_symbol(#[trigger] token@[j]),
        decreases len - at,
    {
        if !byte_symbol(token.get_char(at)) {
            return false;
        }
        at += 1;
    }
    true
}

/// Whether every character of every token stands for a byte.
pub fn tokens_of_byte_symbols(tokens: &Vec<String>) -> (known: bool)
    ensures
        known == all_byte_symbols(tokens.deep_view()),
{
    let mut at: usize = 0;
    while at < tokens.len()
        invariant
            at <= tokens.len(),
            forall|i: int, j: int|
                0 <= i < at && 0 <= j < tokens.deep_view()[i].len() ==> is_byte_symbol(
                    #[trigger] tokens.deep_view()[i][j],
                ),
        decreases tokens.len() - at,
    {
        assert(tokens.deep_view()[at as int] == tokens[at as int]@);
        if !token_of_byte_symbols(tokens[at].as_str()) {
            return false;
        }
        at += 1;
    }
    true
}

/// The kinds of tokenizer that can be loaded.
#[derive(Clone, Copy, Debug, PartialEq, Eq, Structural)]
pub enum TokenizerKind {
    DeBERTaV2,
    Roberta,
}

/// Why no tokenizer can be loaded for a model.
#[derive(Debug, PartialEq, Eq)]
pub enum LoadError {
    /// The model is of a type that no tokenizer is known for.
    Unsupported(String),
    /// The model does not say of what type it is.
    Unknown,
}

impl TokenizerKind {
    /// The kind of tokenizer that goes with a type of model.
    pub open spec fn for_model(model_type: Seq<char>) -> Option<TokenizerKind> {
        if model_type == "distilbert"@ {
            Some(TokenizerKind::DeBERTaV2)
        } else if model_type == "roberta"@ {
            Some(TokenizerKind::Roberta)
        } else {
            None
        }
    }

    /// The kind of tokenizer to load for a model of the type that its
    /// configuration names.
    pub fn of_model(model_type: Option<&str>) -> (kind: Result<TokenizerKind, LoadError>)
        ensures
            model_type is None ==> kind == Err::<TokenizerKind, LoadError>(LoadError::Unknown),
            model_type is Some ==> match Self::for_model(model_type->0@) {
                Some(found) => kind == Ok::<TokenizerKind, LoadError>(found),
                None => kind is Err && kind->Err_0 is Unsupported && kind->Err_0->Unsupported_0@
                    == model_type->0@,
            },
    {
        match model_type {
            Some(model_type) => {
                if same_text(model_type, "distilbert") {
                    Ok(TokenizerKind::DeBERTaV2)
                } else if same_text(model_type, "roberta") {
                    Ok(TokenizerKind::Roberta)
                } else {
                    Err(LoadError::Unsupported(model_type.to_owned()))
                }
            },
            None => Err(LoadError::Unknown),
        }
    }

    /// The files of a model's repository that a tokenizer of this kind is
    /// made from, in the order in which its constructor takes them.
    pub fn files(self) -> (names: Vec<&'static str>)
        ensures
            self == TokenizerKind::DeBERTaV2 ==> names@.len() == 1 && names@[0]@ == "vocab.txt"@,
            self == TokenizerKind::Roberta ==> names@.len() == 2 && names@[0]@ == "vocab.json"@
                && names@[1]@ == "merges.txt"@,
    {
        let mut names: Vec<&'static str> = Vec::new();
        match self {
            TokenizerKind::DeBERTaV2 => {
                names.push("vocab.txt");
            },
            TokenizerKind::Roberta => {
                names.push("vocab.json");
                names.push("merges.txt");
            },
        }
        names
    }
}

/// A tokenizer of one of the kinds that can be loaded.
pub enum Tokenizer {
    DeBERTaV2(rust_tokenizers::tokenizer::DeBERTaV2Tokenizer),
    Roberta(rust_tokenizers::tokenizer::RobertaTokenizer),
}

impl Tokenizer {
    /// Of which kind this tokenizer is.
    pub fn kind(&self) -> (kind: TokenizerKind)
        ensures
            kind == match *self {
                Tokenizer::DeBERTaV2(_) => TokenizerKind::DeBERTaV2,
                Tokenizer::Roberta(_) => TokenizerKind::Roberta,
            },
    {
        match self {
            Tokenizer::DeBERTaV2(_) => TokenizerKind::DeBERTaV2,
            Tokenizer::Roberta(_) => TokenizerKind::Roberta,
        }
    }

    /// The text that this tokenizer decodes `token_ids` to.
    pub open spec fn decoded(
        self,
        token_ids: Seq<i64>,
        skip_special_tokens: bool,
        clean_up_tokenization_spaces: bool,
    ) -> Seq<char> {
        match self {
            Tokenizer::DeBERTaV2(tokenizer) => deberta_v2_decoded(
                tokenizer,
                token_ids,
                skip_special_tokens,
                clean_up_tokenization_spaces,
            ),
            Tokenizer::Roberta(tokenizer) => roberta_decoded(
                tokenizer,
                token_ids,
                skip_special_tokens,
                clean_up_tokenization_spaces,
            ),
        }
    }

    /// Whether this tokenizer can decode `token_ids`. A byte-level tokenizer
    /// cannot where its vocabulary gives a token with a character that stands
    /// for no byte.
    pub open spec fn decodable(self, token_ids: Seq<i64>, skip_special_tokens: bool) -> bool {
        match self {
            Tokenizer::DeBERTaV2(_) => true,
            Tokenizer::Roberta(tokenizer) => all_byte_symbols(
                roberta_tokens(tokenizer, token_ids, skip_special_tokens),
            ),
        }
    }

    /// Whether this tokenizer can decode `token_ids`.
    pub fn can_decode(&self, token_ids: &[i64], skip_special_tokens: bool) -> (can: bool)
        ensures
            can == self.decodable(token_ids@, skip_special_tokens),
    {
        match self {
            Tokenizer::DeBERTaV2(_) => true,
            Tokenizer::Roberta(tokenizer) => {
                let tokens = roberta_decode_to_vec(tokenizer, token_ids, skip_special_tokens);
                tokens_of_byte_symbols(&tokens)
            },
        }
    }

    /// The text of `token_ids`, without special tokens, with the spacing of
    /// the tokens tidied up and without white space around it.
    pub fn decode(&self, token_ids: &[i64]) -> (text: String)
        requires
            self.decodable(token_ids@, true),
        ensures
            text@ == trimmed(self.decoded(token_ids@, true, true)),
    {
        let skip_special_tokens = true;
        let clean_up_tokenization_spaces = true;
        self.decode_with(token_ids, skip_special_tokens, clean_up_tokenization_spaces)
    }

    /// The text of `token_ids` without white space around it.
    pub fn decode_with(
        &self,
        token_ids: &[i64],
        skip_special_tokens: bool,
        clean_up_tokenization_spaces: bool,
    ) -> (text: String)
        requires
            self.decodable(token_ids@, skip_special_tokens),
        ensures
            text@ == trimmed(
                self.decoded(token_ids@, skip_special_tokens, clean_up_tokenization_spaces),
            ),
    {
        let decoded = match self {
            Tokenizer::DeBERTaV2(tokenizer) => deberta_v2_decode(
                tokenizer,
                token_ids,
                skip_special_tokens,
                clean_up_tokenization_spaces,
            ),
            Tokenizer::Roberta(tokenizer) => roberta_decode(
                tokenizer,
                token_ids,
                skip_special_tokens,
                clean_up_tokenization_spaces,
            ),
        };
        trim(decoded.as_str())
    }

    /// The text of `token_ids` as [`Tokenizer::decode`] gives it, where this
    /// tokenizer can decode them, and nothing where it cannot.
    pub fn try_decode(&self, token_ids: &[i64]) -> (text: Option<String>)
        ensures
            text is Some <==> self.decodable(token_ids@, true),
            text is Some ==> text->0@ == trimmed(self.decoded(token_ids@, true, true)),
    {
        if self.can_decode(token_ids, true) {
            Some(self.decode(token_ids))
        } else {
            None
        }
    }
}

/// Something that a tokenizer can take: one text, or a pair of texts.
pub trait WordInput {
    /// The first text.
    spec fn first(&self) -> Seq<char>;

    /// The second text, where there is one.
    spec fn second(&self) -> Option<Seq<char>>;

    fn as_tokenizer_inputs(&self) -> (texts: (&str, Option<&str>))
        ensures
            texts.0@ == self.first(),
            texts.1 is Some <==> self.second() is Some,
            texts.1 is Some ==> texts.1->0@ == self.second()->0,
    ;

    fn as_tokenizer_input_1(&self) -> (text: &str)
        ensures
            text@ == self.first(),
    ;

    fn as_tokenizer_input_2(&self) -> (text: Option<&str>)
        ensures
            text is Some <==> self.second() is Some,
            text is Some ==> text->0@ == self.second()->0,
    ;
}

/// A question about a text.
#[derive(Debug, PartialEq, Eq)]
pub struct QuestionWordInput {
    pub context: String,
    pub question: String,
}

impl WordInput for QuestionWordInput {
    open spec fn first(&self) -> Seq<char> {
        self.question@
    }

    open spec fn second(&self) -> Option<Seq<char>> {
        Some(self.context@)
    }

    fn as_tokenizer_inputs(&self) -> (texts: (&str, Option<&str>)) {
        (self.question.as_str(), Some(self.context.as_str()))
    }

    fn as_tokenizer_input_1(&self) -> (text: &str) {
        self.question.as_str()
    }

    fn as_tokenizer_input_2(&self) -> (text: Option<&str>) {
        Some(self.context.as_str())
    }
}

/// A text, alone or with a second text to go with it.
#[derive(Debug, PartialEq, Eq)]
pub struct PlainWordInput {
    pub text: String,
    pub text_pair: Option<String>,
}

impl WordInput for PlainWordInput {
    open spec fn first(&self) -> Seq<char> {
        self.text@
    }

    open spec fn second(&self) -> Option<Seq<char>> {
        match self.text_pair {
            Some(text) => Some(text@),
            None => None,
        }
    }

    fn as_tokenizer_inputs(&self) -> (texts: (&str, Option<&str>)) {
        (self.as_tokenizer_input_1(), self.as_tokenizer_input_2())
    }

    fn as_tokenizer_input_1(&self) -> (text: &str) {
        self.text.as_str()
    }

    fn as_tokenizer_input_2(&self) -> (text: Option<&str>) {
        match &self.text_pair {
            Some(text) => Some(text.as_str()),
            None => None,
        }
    }
}

} // verus!
