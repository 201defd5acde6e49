//! The text of a list of tuples, as the parameters of a run write their
//! bands and attack windows: `[(a,b),(c,d)]`.
//!
//! The text is taken apart byte by byte. Every byte that the grammar knows is
//! an ASCII character, so a text in UTF-8 is split between characters only.
use vstd::prelude::*;

verus! {

/// The byte of a space.
pub const SPACE: u8 = 32;

/// The byte of `(`.
pub const TUPLE_OPEN: u8 = 40;

/// The byte of `)`.
pub const TUPLE_CLOSE: u8 = 41;

/// The byte of `,`.
pub const COMMA: u8 = 44;

/// The byte of `[`.
pub const LIST_OPEN: u8 = 91;

/// The byte of `]`.
pub const LIST_CLOSE: u8 = 93;

/// Whether the byte is one of the four brackets `[`, `]`, `(` and `)`.
pub open spec fn is_bracket(byte: u8) -> bool {
    byte == LIST_OPEN || byte == LIST_CLOSE || byte == TUPLE_OPEN || byte == TUPLE_CLOSE
}

/// The text without the brackets that it begins with.
pub open spec fn trim_front(text: Seq<u8>) -> Seq<u8>
    decreases text.len(),
{
    if text.len() > 0 && is_bracket(text[0]) {
        trim_front(text.skip(1))
    } else {
        text
    }
}

/// The text without the brackets that it ends with.
pub open spec fn trim_back(text: Seq<u8>) -> Seq<u8>
    decreases text.len(),
{
    if text.len() > 0 && is_bracket(text.last()) {
        trim_back(text.drop_last())
    } else {
        text
    }
}

/// The text without its spaces.
pub open spec fn without_spaces(text: Seq<u8>) -> Seq<u8>
    decreases text.len(),
{
    if text.len() == 0 {
        Seq::empty()
    } else if text.last() == SPACE {
        without_spaces(text.drop_last())
    } else {
        without_spaces(text.drop_last()).push(text.last())
    }
}

/// What stands between the outer brackets of a list, without its spaces:
/// the text without the brackets at both of its ends, then without spaces.
pub open spec fn bare(text: Seq<u8>) -> Seq<u8> {
    without_spaces(trim_back(trim_front(text)))
}

/// Whether the separator stands in the text at the given place.
pub open spec fn has_at(text: Seq<u8>, place: int, separator: Seq<u8>) -> bool {
    &&& 0 <= place
    &&& place + separator.len() <= text.len()
    &&& text.subrange(place, place + separator.len()) == separator
}

/// The pieces with the lead put in front of the first of them.
pub open spec fn led_by(lead: Seq<u8>, pieces: Seq<Seq<u8>>) -> Seq<Seq<u8>> {
    if pieces.len() == 0 {
        seq![lead]
    } else {
        pieces.update(0, lead + pieces[0])
    }
}

/// The pieces of the text between the occurrences of the separator, which are
/// found from the left and do not overlap. A text without the separator is
/// one piece, and so is the empty text.
pub open spec fn split_on(text: Seq<u8>, separator: Seq<u8>) -> Seq<Seq<u8>>
    decreases text.len(),
{
    if text.len() == 0 {
        seq![Seq::empty()]
    } else if separator.len() > 0 && has_at(text, 0, separator) {
        seq![Seq::empty()] + split_on(text.skip(separator.len() as int), separator)
    } else {
        led_by(seq![text[0]], split_on(text.skip(1), separator))
    }
}

/// What separates two tuples of a list: `),(`.
pub open spec fn tuple_separator() -> Seq<u8> {
    seq![TUPLE_CLOSE, COMMA, TUPLE_OPEN]
}

/// What separates two fields of a tuple: `,`.
pub open spec fn field_separator() -> Seq<u8> {
    seq![COMMA]
}

/// The fields of the tuples of a list. The text between the outer brackets,
/// without its spaces, is split into tuples at every `),(`, and every tuple
/// into fields at every comma.
pub open spec fn tuples_of(text: Seq<u8>) -> Seq<Seq<Seq<u8>>> {
    split_on(bare(text), tuple_separator()).map_values(
        |tuple: Seq<u8>| split_on(tuple, field_separator()),
    )
}

/// The place of the first tuple with fewer fields than the arity, or the
/// number of tuples where every tuple has as many.
pub open spec fn first_short(tuples: Seq<Seq<Seq<u8>>>, arity: int) -> int
    decreases tuples.len(),
{
    if tuples.len() == 0 || tuples[0].len() < arity {
        0
    } else {
        1 + first_short(tuples.skip(1), arity)
    }
}

/// Whether every tuple has as many fields as the arity at least.
pub open spec fn all_reach(tuples: Seq<Seq<Seq<u8>>>, arity: int) -> bool {
    forall|j: int| 0 <= j < tuples.len() ==> (#[trigger] tuples[j]).len() >= arity
}

/// The texts that the vectors hold.
pub open spec fn texts_of(pieces: Seq<Vec<u8>>) -> Seq<Seq<u8>> {
    pieces.map_values(|piece: Vec<u8>| piece@)
}

/// The fields that the vectors hold, tuple by tuple.
pub open spec fn fields_of(tuples: Seq<Vec<Vec<u8>>>) -> Seq<Seq<Seq<u8>>> {
    tuples.map_values(|tuple: Vec<Vec<u8>>| texts_of(tuple@))
}

/// A text is split into one piece at least.
pub proof fn lemma_split_has_a_piece(text: Seq<u8>, separator: Seq<u8>)
    ensures
        split_on(text, separator).len() >= 1,
    decreases text.len(),
{
    if text.len() == 0 {
    } else if separator.len() > 0 && has_at(text, 0, separator) {
    } else {
        lemma_split_has_a_piece(text.skip(1), separator);
    }
}

/// The place of the first short tuple is the place before which every tuple
/// has as many fields as the arity, and at which the tuples end or a tuple has
/// fewer.
pub proof fn lemma_first_short_is_at(tuples: Seq<Seq<Seq<u8>>>, arity: int, place: int)
    requires
        0 <= place <= tuples.len(),
        forall|j: int| 0 <= j < place ==> (#[trigger] tuples[j]).len() >= arity,
        place < tuples.len() ==> tuples[place].len() < arity,
    ensures
        first_short(tuples, arity) == place,
    decreases place,
{
    if place > 0 {
        assert(tuples[0].len() >= arity);
        assert forall|j: int| 0 <= j < place - 1 implies (#[trigger] tuples.skip(1)[j]).len()
            >= arity by {
            assert(tuples.skip(1)[j] == tuples[j + 1]);
        }
        lemma_first_short_is_at(tuples.skip(1), arity, place - 1);
    }
}

/// Whether the byte is one of the four brackets.
fn bracket(byte: u8) -> (found: bool)
    ensures
        found == is_bracket(byte),
{
    byte == LIST_OPEN || byte == LIST_CLOSE || byte == TUPLE_OPEN || byte == TUPLE_CLOSE
}

/// What stands between the outer brackets of the text, without its spaces.
pub fn bare_text(text: &Vec<u8>) -> (inner: Vec<u8>)
    ensures
        inner@ == bare(text@),
{
    let mut start: usize = 0;
    proof {
        assert(text@.skip(0) =~= text@);
    }
    while start < text.len() && bracket(text[start])
        invariant
            start <= text@.len(),
            trim_front(text@) == trim_front(text@.skip(start as int)),
        decreases text@.len() - start,
    {
        proof {
            assert(text@.skip(start as int).skip(1) =~= text@.skip(start + 1));
        }
        start += 1;
    }
    assert(trim_front(text@) == text@.skip(start as int));
    let mut end: usize = text.len();
    proof {
        assert(text@.skip(start as int) =~= text@.subrange(start as int, end as int));
    }
    while end > start && bracket(text[end - 1])
        invariant
            start <= end <= text@.len(),
            trim_back(trim_front(text@)) == trim_back(text@.subrange(start as int, end as int)),
        decreases end,
    {
        proof {
            assert(text@.subrange(start as int, end as int).drop_last() =~= text@.subrange(
                start as int,
                end - 1,
            ));
        }
        end -= 1;
    }
    assert(trim_back(trim_front(text@)) == text@.subrange(start as int, end as int));
    let mut inner: Vec<u8> = Vec::new();
    let mut i: usize = start;
    while i < end
        invariant
            start <= i <= end <= text@.len(),
            inner@ == without_spaces(text@.subrange(start as int, i as int)),
        decreases end - i,
    {
        proof {
            assert(text@.subrange(start as int, i + 1).drop_last() =~= text@.subrange(
                start as int,
                i as int,
            ));
        }
        if text[i] != SPACE {
            inner.push(text[i]);
        }
        i += 1;
    }
    inner
}

/// Whether the separator stands in the text at the given place.
pub fn stands_at(text: &Vec<u8>, place: usize, separator: &Vec<u8>) -> (found: bool)
    ensures
        found == has_at(text@, place as int, separator@),
{
    if place > text.len() || separator.len() > text.len() - place {
        return false;
    }
    let mut k: usize = 0;
    while k < separator.len()
        invariant
            k <= separator@.len(),
            place + separator@.len() <= text@.len(),
            text@.len() <= usize::MAX,
            forall|j: int| 0 <= j < k ==> text@[place + j] == separator@[j],
        decreases separator@.len() - k,
    {
        if text[place + k] != separator[k] {
            proof {
                assert(text@.subrange(place as int, place + separator@.len())[k as int]
                    == text@[place + k]);
            }
            return false;
        }
        k += 1;
    }
    proof {
        assert(text@.subrange(place as int, place + separator@.len()) =~= separator@);
    }
    true
}

/// Splits the text at every occurrence of the separator, found from the left.
/// An empty separator is found nowhere.
pub fn split_at(text: &Vec<u8>, separator: &Vec<u8>) -> (pieces: Vec<Vec<u8>>)
    ensures
        texts_of(pieces@) == split_on(text@, separator@),
{
    let mut pieces: Vec<Vec<u8>> = Vec::new();
    let mut piece: Vec<u8> = Vec::new();
    let mut i: usize = 0;
    proof {
        lemma_split_has_a_piece(text@, separator@);
        assert(text@.skip(0) =~= text@);
        assert(Seq::<u8>::empty() + split_on(text@, separator@)[0] =~= split_on(
            text@,
            separator@,
        )[0]);
        assert(texts_of(pieces@) + led_by(piece@, split_on(text@, separator@)) =~= split_on(
            text@,
            separator@,
        ));
    }
    while i < text.len()
        invariant
            i <= text@.len(),
            split_on(text@, separator@) == texts_of(pieces@) + led_by(
                piece@,
                split_on(text@.skip(i as int), separator@),
            ),
        decreases text@.len() - i,
    {
        let ghost rest = text@.skip(i as int);
        let ghost done = texts_of(pieces@);
        let ghost lead = piece@;
        proof {
            if i + separator@.len() <= text@.len() {
                assert(rest.subrange(0, separator@.len() as int) =~= text@.subrange(
                    i as int,
                    i + separator@.len(),
                ));
            }
        }
        if separator.len() > 0 && stands_at(text, i, separator) {
            proof {
                let after = split_on(rest.skip(separator@.len() as int), separator@);
                lemma_split_has_a_piece(rest.skip(separator@.len() as int), separator@);
                assert(rest.skip(separator@.len() as int) =~= text@.skip(i + separator@.len()));
                assert(has_at(rest, 0, separator@));
                assert(split_on(rest, separator@) == seq![Seq::<u8>::empty()] + after);
                assert(lead + Seq::<u8>::empty() =~= lead);
                assert(Seq::<u8>::empty() + after[0] =~= after[0]);
                assert(led_by(Seq::<u8>::empty(), after) =~= after);
                assert(done + led_by(lead, seq![Seq::<u8>::empty()] + after) =~= done.push(lead)
                    + led_by(Seq::<u8>::empty(), after));
            }
            pieces.push(piece);
            piece = Vec::new();
            i += separator.len();
            proof {
                assert(texts_of(pieces@) =~= done.push(lead));
            }
        } else {
            proof {
                let after = split_on(rest.skip(1), separator@);
                lemma_split_has_a_piece(rest.skip(1), separator@);
                assert(rest.skip(1) =~= text@.skip(i + 1));
                assert(!has_at(rest, 0, separator@) || separator@.len() == 0);
                assert(split_on(rest, separator@) == led_by(seq![rest[0]], after));
                assert(lead + (seq![rest[0]] + after[0]) =~= lead.push(rest[0]) + after[0]);
                assert(led_by(lead, led_by(seq![rest[0]], after)) =~= led_by(
                    lead.push(rest[0]),
                    after,
                ));
            }
            piece.push(text[i]);
            i += 1;
        }
    }
    proof {
        assert(text@.skip(i as int) =~= Seq::<u8>::empty());
        assert(piece@ + Seq::<u8>::empty() =~= piece@);
        assert(texts_of(pieces@) + led_by(piece@, seq![Seq::<u8>::empty()]) =~= texts_of(
            pieces@,
        ).push(piece@));
    }
    let ghost done = texts_of(pieces@);
    let ghost lead = piece@;
    pieces.push(piece);
    proof {
        assert(texts_of(pieces@) =~= done.push(lead));
    }
    pieces
}

/// Takes a list of tuples apart: `[(a,b),(c,d)]` gives the fields `a`, `b` of
/// the first tuple and `c`, `d` of the second. Brackets at the ends of the
/// text and spaces anywhere are dropped, tuples are separated by `),(` and
/// fields by commas. Every tuple has to have as many fields as the arity at
/// least; the number of fields of the first tuple that has fewer is the
/// error.
pub fn split_tuples(text: &Vec<u8>, arity: usize) -> (fields: Result<Vec<Vec<Vec<u8>>>, usize>)
    ensures
        fields is Ok <==> all_reach(tuples_of(text@), arity as int),
        fields is Ok <==> first_short(tuples_of(text@), arity as int) == tuples_of(text@).len(),
        arity <= 1 ==> fields is Ok,
        fields is Ok ==> fields_of(fields->Ok_0@) == tuples_of(text@),
        fields is Err ==> fields->Err_0 == tuples_of(text@)[first_short(
            tuples_of(text@),
            arity as int,
        )].len(),
{
    let inner = bare_text(text);
    let mut between_tuples: Vec<u8> = Vec::new();
    between_tuples.push(TUPLE_CLOSE);
    between_tuples.push(COMMA);
    between_tuples.push(TUPLE_OPEN);
    let mut between_fields: Vec<u8> = Vec::new();
    between_fields.push(COMMA);
    proof {
        assert(between_tuples@ =~= tuple_separator());
        assert(between_fields@ =~= field_separator());
    }
    let tuples = split_at(&inner, &between_tuples);
    let ghost all = tuples_of(text@);
    proof {
        assert(texts_of(tuples@).len() == tuples@.len());
        assert(all.len() == tuples@.len());
    }
    let mut fields: Vec<Vec<Vec<u8>>> = Vec::new();
    let mut i: usize = 0;
    while i < tuples.len()
        invariant
            i <= tuples@.len(),
            all == tuples_of(text@),
            all.len() == tuples@.len(),
            texts_of(tuples@) == split_on(bare(text@), tuple_separator()),
            between_fields@ == field_separator(),
            fields_of(fields@) == all.take(i as int),
            forall|j: int| 0 <= j < i ==> (#[trigger] all[j]).len() >= arity,
        decreases tuples@.len() - i,
    {
        let parts = split_at(&tuples[i], &between_fields);
        proof {
            assert(texts_of(tuples@)[i as int] == tuples@[i as int]@);
            assert(all[i as int] == texts_of(parts@));
            assert(texts_of(parts@).len() == parts@.len());
            lemma_split_has_a_piece(tuples@[i as int]@, field_separator());
        }
        if parts.len() < arity {
            proof {
                lemma_first_short_is_at(all, arity as int, i as int);
            }
            return Err(parts.len());
        }
        let ghost before = fields_of(fields@);
        fields.push(parts);
        proof {
            assert(fields_of(fields@) =~= before.push(all[i as int]));
            assert(all.take(i + 1) =~= all.take(i as int).push(all[i as int]));
        }
        i += 1;
    }
    proof {
        lemma_first_short_is_at(all, arity as int, i as int);
        assert(all.take(i as int) =~= all);
    }
    Ok(fields)
}

} // verus!
