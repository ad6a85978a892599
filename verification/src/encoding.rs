//! Batches of texts on their way into a language model: what to hand the
//! tokenizer, and how to lay out what it hands back.

use vstd::prelude::*;
use vstd::string::StringSliceAdditionalSpecFns;
use vstd::utf8::encode_utf8;
use crate::nlp::{Tokenizer, WordInput};

verus! {

/// Why a batch could not be encoded.
#[derive(Clone, Copy, Debug, PartialEq, Eq, Structural)]
pub enum EncodeError {
    /// Some inputs come with a second text and some without.
    TextPairs,
    /// There is nothing to lay out.
    NoInputs,
    /// A row of segment ids is longer than the longest row of token ids.
    Ragged,
}

/// The texts to hand to the tokenizer.
#[derive(Debug, PartialEq, Eq)]
pub enum Texts<'a> {
    Single(Vec<&'a str>),
    Pairs(Vec<(&'a str, &'a str)>),
}

/// What to ask of the tokenizer: the texts, and the number of tokens to cut
/// each encoding down to, the longest first and without stride.
#[derive(Debug, PartialEq, Eq)]
pub struct EncodeRequest<'a> {
    pub texts: Texts<'a>,
    pub max_len: usize,
}

/// What the tokenizer made of one input.
#[derive(Debug, PartialEq, Eq)]
pub struct Encoding {
    pub token_ids: Vec<i64>,
    pub segment_ids: Vec<i8>,
}

/// Rows of numbers, all of one width.
#[derive(Debug, PartialEq, Eq)]
pub struct Matrix {
    pub width: usize,
    pub rows: Vec<Vec<i64>>,
}

/// A batch as a model takes it.
#[derive(Debug, PartialEq, Eq)]
pub struct TokenizedInputs<Input> {
    /// The token ids, one row for each input.
    pub input_ids: Matrix,
    /// The named inputs of the model, in the order of their names. There are
    /// none unless they were asked for.
    pub inputs: Vec<(String, Matrix)>,
    pub inputs_str: Vec<Input>,
}

pub enum TextsView {
    Single(Seq<Seq<char>>),
    Pairs(Seq<(Seq<char>, Seq<char>)>),
}

impl<'a> View for Texts<'a> {
    type V = TextsView;

    open spec fn view(&self) -> TextsView {
        match *self {
            Texts::Single(texts) => TextsView::Single(Seq::new(texts.len() as nat, |i: int| texts[i]@)),
            Texts::Pairs(pairs) => TextsView::Pairs(
                Seq::new(pairs.len() as nat, |i: int| (pairs[i].0@, pairs[i].1@)),
            ),
        }
    }
}

impl Matrix {
    /// The numbers, row by row.
    pub open spec fn cells(self) -> Seq<Seq<i64>> {
        Seq::new(self.rows.len() as nat, |i: int| self.rows[i]@)
    }
}

/// The number of bytes that `text` takes.
pub open spec fn text_len(text: Seq<char>) -> nat {
    encode_utf8(text).len()
}

/// The number of bytes of the longer text of `input`.
pub open spec fn input_len<Input: WordInput>(input: Input) -> nat {
    let first = text_len(input.first());
    match input.second() {
        Some(second) if text_len(second) > first => text_len(second),
        _ => first,
    }
}

/// The number of bytes of the longest text of `inputs`.
pub open spec fn longest_text<Input: WordInput>(inputs: Seq<Input>) -> nat
    decreases inputs.len(),
{
    if inputs.len() == 0 {
        0
    } else {
        let before = longest_text(inputs.drop_last());
        if input_len(inputs.last()) > before {
            input_len(inputs.last())
        } else {
            before
        }
    }
}

/// Whether no input comes with a second text.
pub open spec fn none_paired<Input: WordInput>(inputs: Seq<Input>) -> bool {
    forall|i: int| 0 <= i < inputs.len() ==> (#[trigger] inputs[i]).second() is None
}

/// Whether every input comes with a second text.
pub open spec fn all_paired<Input: WordInput>(inputs: Seq<Input>) -> bool {
    forall|i: int| 0 <= i < inputs.len() ==> (#[trigger] inputs[i]).second() is Some
}

/// The texts of `inputs` that stand alone.
pub open spec fn single_texts<Input: WordInput>(inputs: Seq<Input>) -> Seq<Seq<char>> {
    Seq::new(inputs.len(), |i: int| inputs[i].first())
}

/// The texts of `inputs` that come in pairs.
pub open spec fn paired_texts<Input: WordInput>(inputs: Seq<Input>) -> Seq<(Seq<char>, Seq<char>)> {
    Seq::new(inputs.len(), |i: int| (inputs[i].first(), inputs[i].second()->0))
}

/// The length of the longest row of token ids.
pub open spec fn widest(encodings: Seq<Encoding>) -> nat
    decreases encodings.len(),
{
    if encodings.len() == 0 {
        0
    } else {
        let before = widest(encodings.drop_last());
        if encodings.last().token_ids.len() > before {
            encodings.last().token_ids.len() as nat
        } else {
            before
        }
    }
}

/// `row`, filled up with zeros to `width`.
pub open spec fn padded(row: Seq<i64>, width: nat) -> Seq<i64> {
    row + Seq::new((width - row.len()) as nat, |i: int| 0i64)
}

/// A row of `width` ones.
pub open spec fn ones(width: nat) -> Seq<i64> {
    Seq::new(width, |i: int| 1i64)
}

/// Whether some row of segment ids is longer than the longest row of token
/// ids.
pub open spec fn ragged(encodings: Seq<Encoding>) -> bool {
    exists|i: int|
        0 <= i < encodings.len() && (#[trigger] encodings[i]).segment_ids.len() > widest(encodings)
}

/// The token ids of `encodings`, each row filled up to the longest.
pub open spec fn token_rows(encodings: Seq<Encoding>) -> Seq<Seq<i64>> {
    Seq::new(encodings.len(), |i: int| padded(encodings[i].token_ids@, widest(encodings)))
}

/// The segment ids of `encodings`, each row filled up to the longest row of
/// token ids.
pub open spec fn segment_rows(encodings: Seq<Encoding>) -> Seq<Seq<i64>> {
    Seq::new(
        encodings.len(),
        |i: int|
            padded(
                Seq::new(
                    encodings[i].segment_ids.len() as nat,
                    |j: int| encodings[i].segment_ids[j] as i64,
                ),
                widest(encodings),
            ),
    )
}

/// As many rows of ones as there are `encodings`, as wide as the longest
/// row of token ids.
pub open spec fn mask_rows(encodings: Seq<Encoding>) -> Seq<Seq<i64>> {
    Seq::new(encodings.len(), |i: int| ones(widest(encodings)))
}

proof fn widest_bounds(encodings: Seq<Encoding>, i: int)
    requires
        0 <= i < encodings.len(),
    ensures
        encodings[i].token_ids.len() <= widest(encodings),
    decreases encodings.len(),
{
    if i < encodings.len() - 1 {
        widest_bounds(encodings.drop_last(), i);
    }
}

/// The number of bytes that `text` takes.
pub fn byte_len(text: &str) -> (len: usize)
    ensures
        len == text_len(text@),
{
    text.as_bytes().len()
}

/// The number of bytes of the longest text of `inputs`.
pub fn max_text_len<Input: WordInput>(inputs: &Vec<Input>) -> (max_len: usize)
    ensures
        max_len == longest_text(inputs@),
{
    let mut max_len: usize = 0;
    let mut at: usize = 0;
    while at < inputs.len()
        invariant
            at <= inputs.len(),
            max_len == longest_text(inputs@.take(at as int)),
        decreases inputs.len() - at,
    {
        let (text_1, text_2) = inputs[at].as_tokenizer_inputs();
        let mut len: usize = byte_len(text_1);
        if let Some(text_2) = text_2 {
            let len_2: usize = byte_len(text_2);
            if len_2 > len {
                len = len_2;
            }
        }
        assert(len == input_len(inputs@[at as int]));
        assert(inputs@.take(at as int + 1).drop_last() =~= inputs@.take(at as int));
        if len > max_len {
            max_len = len;
        }
        at += 1;
    }
    assert(inputs@.take(inputs.len() as int) =~= inputs@);
    max_len
}

/// Fills `row` up with zeros to `width`.
pub fn pad(row: &mut Vec<i64>, width: usize)
    requires
        old(row).len() <= width,
    ensures
        final(row)@ == padded(old(row)@, width as nat),
{
    let ghost before = row@;
    while row.len() < width
        invariant
            before.len() <= row.len() <= width,
            row@ =~= before + Seq::new((row.len() - before.len()) as nat, |i: int| 0i64),
        decreases width - row.len(),
    {
        row.push(0);
    }
}

/// The length of the longest row of token ids.
pub fn widest_of(encodings: &Vec<Encoding>) -> (width: usize)
    ensures
        width == widest(encodings@),
{
    let mut width: usize = 0;
    let mut at: usize = 0;
    while at < encodings.len()
        invariant
            at <= encodings.len(),
            width == widest(encodings@.take(at as int)),
        decreases encodings.len() - at,
    {
        assert(encodings@.take(at as int + 1).drop_last() =~= encodings@.take(at as int));
        let len: usize = encodings[at].token_ids.len();
        if len > width {
            width = len;
        }
        at += 1;
    }
    assert(encodings@.take(encodings.len() as int) =~= encodings@);
    width
}

/// The token ids of `encodings`, each row filled up to the longest.
pub fn token_matrix(encodings: &Vec<Encoding>) -> (matrix: Matrix)
    ensures
        matrix.width == widest(encodings@),
        matrix.cells() == token_rows(encodings@),
{
    let width = widest_of(encodings);
    let mut rows: Vec<Vec<i64>> = Vec::new();
    let mut at: usize = 0;
    while at < encodings.len()
        invariant
            at <= encodings.len(),
            width == widest(encodings@),
            rows.len() == at,
            forall|i: int| 0 <= i < at ==> (#[trigger] rows[i])@ == token_rows(encodings@)[i],
        decreases encodings.len() - at,
    {
        let ids = &encodings[at].token_ids;
        proof {
            widest_bounds(encodings@, at as int);
        }
        let mut row: Vec<i64> = Vec::new();
        let mut column: usize = 0;
        while column < ids.len()
            invariant
                column <= ids.len(),
                row@ == ids@.take(column as int),
            decreases ids.len() - column,
        {
            row.push(ids[column]);
            assert(ids@.take(column as int + 1) =~= ids@.take(column as int).push(
                ids@[column as int],
            ));
            column += 1;
        }
        assert(ids@.take(ids.len() as int) =~= ids@);
        pad(&mut row, width);
        rows.push(row);
        at += 1;
    }
    let matrix = Matrix { width, rows };
    assert(matrix.cells() =~= token_rows(encodings@));
    matrix
}

/// The segment ids of `encodings`, each row filled up to the longest row of
/// token ids, unless one of them is longer than that.
pub fn segment_matrix(encodings: &Vec<Encoding>) -> (matrix: Option<Matrix>)
    ensures
        matrix is None <==> ragged(encodings@),
        matrix is Some ==> matrix->0.width == widest(encodings@) && matrix->0.cells()
            == segment_rows(encodings@),
{
    let width = widest_of(encodings);
    let mut rows: Vec<Vec<i64>> = Vec::new();
    let mut at: usize = 0;
    while at < encodings.len()
        invariant
            at <= encodings.len(),
            width == widest(encodings@),
            rows.len() == at,
            forall|i: int| 0 <= i < at ==> (#[trigger] rows[i])@ == segment_rows(encodings@)[i],
            forall|i: int| 0 <= i < at ==> (#[trigger] encodings@[i]).segment_ids.len() <= width,
        decreases encodings.len() - at,
    {
        let ids = &encodings[at].segment_ids;
        if ids.len() > width {
            assert(encodings@[at as int].segment_ids.len() > widest(encodings@));
            return None;
        }
        let mut row: Vec<i64> = Vec::new();
        let mut column: usize = 0;
        while column < ids.len()
            invariant
                column <= ids.len(),
                row.len() == column,
                forall|j: int| 0 <= j < column ==> #[trigger] row[j] == ids[j] as i64,
            decreases ids.len() - column,
        {
            row.push(ids[column] as i64);
            column += 1;
        }
        assert(row@ =~= Seq::new(ids.len() as nat, |j: int| ids[j] as i64));
        pad(&mut row, width);
        rows.push(row);
        at += 1;
    }
    let matrix = Matrix { width, rows };
    assert(matrix.cells() =~= segment_rows(encodings@));
    Some(matrix)
}

/// `rows` rows of `width` ones.
pub fn ones_matrix(rows: usize, width: usize) -> (matrix: Matrix)
    ensures
        matrix.width == width,
        matrix.cells() == Seq::new(rows as nat, |i: int| ones(width as nat)),
{
    let mut all: Vec<Vec<i64>> = Vec::new();
    while all.len() < rows
        invariant
            all.len() <= rows,
            forall|i: int| 0 <= i < all.len() ==> (#[trigger] all[i])@ == ones(width as nat),
        decreases rows - all.len(),
    {
        let mut row: Vec<i64> = Vec::new();
        while row.len() < width
            invariant
                row.len() <= width,
                forall|j: int| 0 <= j < row.len() ==> #[trigger] row[j] == 1i64,
            decreases width - row.len(),
        {
            row.push(1);
        }
        assert(row@ =~= ones(width as nat));
        all.push(row);
    }
    let matrix = Matrix { width, rows: all };
    assert(matrix.cells() =~= Seq::new(rows as nat, |i: int| ones(width as nat)));
    matrix
}

/// A copy of `matrix`.
pub fn copy_matrix(matrix: &Matrix) -> (copy: Matrix)
    ensures
        copy.width == matrix.width,
        copy.cells() == matrix.cells(),
{
    let mut rows: Vec<Vec<i64>> = Vec::new();
    let mut at: usize = 0;
    while at < matrix.rows.len()
        invariant
            at <= matrix.rows.len(),
            rows.len() == at,
            forall|i: int| 0 <= i < at ==> (#[trigger] rows[i])@ == matrix.rows[i]@,
        decreases matrix.rows.len() - at,
    {
        let from = &matrix.rows[at];
        let mut row: Vec<i64> = Vec::new();
        let mut column: usize = 0;
        while column < from.len()
            invariant
                column <= from.len(),
                row.len() == column,
                forall|j: int| 0 <= j < column ==> #[trigger] row[j] == from[j],
            decreases from.len() - column,
        {
            row.push(from[column]);
            column += 1;
        }
        assert(row@ =~= from@);
        rows.push(row);
        at += 1;
    }
    let copy = Matrix { width: matrix.width, rows };
    assert(copy.cells() =~= matrix.cells());
    copy
}

impl Tokenizer {
    /// What to ask of a tokenizer for `inputs_str`: every first text alone
    /// where no input has a second text, every pair of texts where all of
    /// them have one, and in both cases encodings of no more tokens than the
    /// longest text has bytes. A batch that mixes the two is refused.
    pub fn prepare<'a, Input: WordInput>(inputs_str: &'a Vec<Input>) -> (request: Result<
        EncodeRequest<'a>,
        EncodeError,
    >)
        ensures
            request is Err <==> !none_paired(inputs_str@) && !all_paired(inputs_str@),
            request is Err ==> request == Err::<EncodeRequest<'a>, EncodeError>(
                EncodeError::TextPairs,
            ),
            request is Ok ==> request->Ok_0.max_len == longest_text(inputs_str@),
            request is Ok && none_paired(inputs_str@) ==> request->Ok_0.texts@ == TextsView::Single(
                single_texts(inputs_str@),
            ),
            request is Ok && !none_paired(inputs_str@) ==> request->Ok_0.texts@ == TextsView::Pairs(
                paired_texts(inputs_str@),
            ),
    {
        let max_len = max_text_len(inputs_str);

        let mut inputs_1: Vec<&'a str> = Vec::new();
        let mut inputs_2: Vec<&'a str> = Vec::new();
        let ghost mut lone: int = 0;
        let mut at: usize = 0;
        while at < inputs_str.len()
            invariant
                at <= inputs_str.len(),
                inputs_1.len() == at,
                forall|i: int| 0 <= i < at ==> inputs_1[i]@ == (#[trigger] inputs_str@[i]).first(),
                inputs_2.len() <= at,
                inputs_2.len() == 0 <==> none_paired(inputs_str@.take(at as int)),
                inputs_2.len() == at ==> forall|i: int|
                    0 <= i < at ==> (#[trigger] inputs_str@[i]).second() == Some(inputs_2[i]@),
                inputs_2.len() < at ==> 0 <= lone < at && inputs_str@[lone].second() is None,
            decreases inputs_str.len() - at,
        {
            let ghost seen = inputs_str@.take(at as int);
            let ghost next = inputs_str@.take(at as int + 1);
            assert(forall|i: int| 0 <= i < at ==> seen[i] == next[i]);
            assert(next[at as int] == inputs_str@[at as int]);
            inputs_1.push(inputs_str[at].as_tokenizer_input_1());
            match inputs_str[at].as_tokenizer_input_2() {
                Some(text) => {
                    inputs_2.push(text);
                    assert(next[at as int].second() is Some);
                },
                None => {
                    proof {
                        lone = at as int;
                        if inputs_2.len() == 0 {
                            assert forall|i: int| 0 <= i < next.len() implies (
                            #[trigger] next[i]).second() is None by {
                                if i < at {
                                    assert(seen[i].second() is None);
                                }
                            }
                        } else {
                            let k = choose|k: int|
                                0 <= k < seen.len() && !((#[trigger] seen[k]).second() is None);
                            assert(next[k].second() is Some);
                        }
                    }
                },
            }
            at += 1;
        }
        assert(inputs_str@.take(inputs_str.len() as int) =~= inputs_str@);

        if !(inputs_2.len() == 0) && inputs_1.len() != inputs_2.len() {
            return Err(EncodeError::TextPairs);
        }
        let texts = if inputs_2.len() == 0 {
            assert(Seq::new(inputs_1.len() as nat, |i: int| inputs_1[i]@) =~= single_texts(
                inputs_str@,
            ));
            Texts::Single(inputs_1)
        } else {
            let mut pairs: Vec<(&'a str, &'a str)> = Vec::new();
            let mut at: usize = 0;
            while at < inputs_1.len()
                invariant
                    at <= inputs_1.len() == inputs_2.len(),
                    pairs.len() == at,
                    forall|i: int|
                        0 <= i < at ==> (#[trigger] pairs[i]).0@ == inputs_1[i]@ && pairs[i].1@
                            == inputs_2[i]@,
                decreases inputs_1.len() - at,
            {
                pairs.push((inputs_1[at], inputs_2[at]));
                at += 1;
            }
            assert(Seq::new(pairs.len() as nat, |i: int| (pairs[i].0@, pairs[i].1@))
                =~= paired_texts(inputs_str@));
            Texts::Pairs(pairs)
        };
        Ok(EncodeRequest { texts, max_len })
    }

    /// Lays out what a tokenizer made of a batch: the token ids as rows of
    /// one width, filled up with zeros, and, where `to_tensor` asks for
    /// them, the three inputs of a model: a mask of ones, the token ids
    /// again, and the segment ids filled up alike. A batch of nothing cannot
    /// be laid out.
    pub fn encode_with<Input>(
        encodings: Vec<Encoding>,
        inputs_str: Vec<Input>,
        to_tensor: bool,
    ) -> (batch: Result<TokenizedInputs<Input>, EncodeError>)
        ensures
            encodings@.len() == 0 ==> batch == Err::<TokenizedInputs<Input>, EncodeError>(
                EncodeError::NoInputs,
            ),
            encodings@.len() > 0 && to_tensor && ragged(encodings@) ==> batch == Err::<
                TokenizedInputs<Input>,
                EncodeError,
            >(EncodeError::Ragged),
            encodings@.len() > 0 && !(to_tensor && ragged(encodings@)) ==> batch is Ok,
            batch is Ok ==> ({
                let batch = batch->Ok_0;
                &&& batch.inputs_str@ == inputs_str@
                &&& batch.input_ids.width == widest(encodings@)
                &&& batch.input_ids.cells() == token_rows(encodings@)
                &&& !to_tensor ==> batch.inputs@.len() == 0
                &&& to_tensor ==> {
                    &&& batch.inputs@.len() == 3
                    &&& batch.inputs@[0].0@ == "attention_mask"@
                    &&& batch.inputs@[0].1.width == widest(encodings@)
                    &&& batch.inputs@[0].1.cells() == mask_rows(encodings@)
                    &&& batch.inputs@[1].0@ == "input_ids"@
                    &&& batch.inputs@[1].1.width == widest(encodings@)
                    &&& batch.inputs@[1].1.cells() == token_rows(encodings@)
                    &&& batch.inputs@[2].0@ == "token_type_ids"@
                    &&& batch.inputs@[2].1.width == widest(encodings@)
                    &&& batch.inputs@[2].1.cells() == segment_rows(encodings@)
                }
            }),
    {
        if encodings.len() == 0 {
            return Err(EncodeError::NoInputs);
        }
        let input_ids = token_matrix(&encodings);

        let mut inputs: Vec<(String, Matrix)> = Vec::new();
        if to_tensor {
            let attention_mask = ones_matrix(encodings.len(), input_ids.width);
            let token_type_ids = match segment_matrix(&encodings) {
                Some(matrix) => matrix,
                None => {
                    return Err(EncodeError::Ragged);
                },
            };
            assert(attention_mask.cells() =~= mask_rows(encodings@));
            inputs.push(("attention_mask".to_owned(), attention_mask));
            inputs.push(("input_ids".to_owned(), copy_matrix(&input_ids)));
            inputs.push(("token_type_ids".to_owned(), token_type_ids));
        }
        Ok(TokenizedInputs { input_ids, inputs, inputs_str })
    }
}

} // verus!
