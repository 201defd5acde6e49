//! Scalar units and error types shared by the whole simulation, and the text
//! of the lists of tuples that its parameters are written in.

mod errors;
mod tuplelist;
mod types;

pub use errors::ModelError;
pub use tuplelist::{
    all_reach, bare, bare_text, field_separator, fields_of, first_short, has_at, is_bracket, led_by,
    lemma_first_short_is_at, lemma_split_has_a_piece, split_at, split_on, split_tuples, stands_at,
    texts_of, trim_back, trim_front, tuple_separator, tuples_of, without_spaces, COMMA, LIST_CLOSE,
    LIST_OPEN, SPACE, TUPLE_CLOSE, TUPLE_OPEN,
};
pub use types::{
    div_toward_zero, mHz, mVolt, rem_toward_zero, BaseInt, BaseUint, Minutes, Steps,
    StructTraitBound, Watt, MINUTES_PER_DAY, MINUTES_PER_STEP, STEPS_PER_DAY,
};
