//! The fields under which documents are indexed, and which of them a query
//! searches when it names no field.

use vstd::prelude::*;

verus! {

/// How the text of a field is indexed.
#[derive(Debug, Clone, Copy, PartialEq, Eq, Structural)]
pub enum Indexing {
    /// Split into words: found by free text.
    Tokenized,
    /// Kept whole: found only by the exact value.
    Exact,
}

/// One field of the index.
#[derive(Debug, Clone, Copy)]
pub struct FieldSpec {
    pub name: &'static str,
    pub indexing: Indexing,
    /// Whether the value can be read back from a matched document.
    pub stored: bool,
}

/// The mathematical value of a [`FieldSpec`].
pub struct FieldView {
    pub name: Seq<char>,
    pub indexing: Indexing,
    pub stored: bool,
}

impl View for FieldSpec {
    type V = FieldView;

    open spec fn view(&self) -> FieldView {
        FieldView { name: self.name@, indexing: self.indexing, stored: self.stored }
    }
}

/// The views of a list of fields.
pub open spec fn views_of(fields: Seq<FieldSpec>) -> Seq<FieldView> {
    fields.map_values(|f: FieldSpec| f@)
}

/// The four fields of a document: title and body are searched as text, the
/// two locations are matched exactly, and all but the body can be read back.
pub open spec fn schema_fields() -> Seq<FieldView> {
    seq![
        FieldView { name: "title"@, indexing: Indexing::Tokenized, stored: true },
        FieldView { name: "body"@, indexing: Indexing::Tokenized, stored: false },
        FieldView { name: "loc"@, indexing: Indexing::Exact, stored: true },
        FieldView { name: "archive_loc"@, indexing: Indexing::Exact, stored: true },
    ]
}

/// The positions of the tokenized fields among `fields`, in ascending order.
pub open spec fn tokenized_positions(fields: Seq<FieldView>) -> Seq<int>
    decreases fields.len(),
{
    if fields.len() == 0 {
        Seq::empty()
    } else {
        let before = tokenized_positions(fields.drop_last());
        if fields.last().indexing == Indexing::Tokenized {
            before.push(fields.len() - 1)
        } else {
            before
        }
    }
}

/// The fields to register with the index engine, in order.
pub fn index_schema() -> (fields: Vec<FieldSpec>)
    ensures
        views_of(fields@) == schema_fields(),
{
    let mut fields: Vec<FieldSpec> = Vec::new();
    fields.push(FieldSpec { name: "title", indexing: Indexing::Tokenized, stored: true });
    fields.push(FieldSpec { name: "body", indexing: Indexing::Tokenized, stored: false });
    fields.push(FieldSpec { name: "loc", indexing: Indexing::Exact, stored: true });
    fields.push(FieldSpec { name: "archive_loc", indexing: Indexing::Exact, stored: true });
    assert(views_of(fields@) =~= schema_fields());
    fields
}

/// The positions of the fields that a query without a field name searches:
/// the tokenized ones, and no exact-match field.
pub fn default_search_fields(fields: &Vec<FieldSpec>) -> (picked: Vec<usize>)
    ensures
        picked@.map_values(|i: usize| i as int) == tokenized_positions(views_of(fields@)),
{
    let mut picked: Vec<usize> = Vec::new();
    let ghost all = views_of(fields@);
    for i in 0..fields.len()
        invariant
            all == views_of(fields@),
            picked@.map_values(|i: usize| i as int) == tokenized_positions(all.take(i as int)),
    {
        assert(all.take(i + 1).drop_last() =~= all.take(i as int));
        let ghost before = picked@.map_values(|i: usize| i as int);
        match fields[i].indexing {
            Indexing::Tokenized => {
                picked.push(i);
                assert(picked@.map_values(|i: usize| i as int) =~= before.push(i as int));
            },
            Indexing::Exact => {},
        }
    }
    assert(all.take(fields.len() as int) =~= all);
    picked
}

/// Every position that [`tokenized_positions`] lists is that of a tokenized
/// field, the positions ascend, and no tokenized field is left out.
pub proof fn lemma_tokenized_positions(fields: Seq<FieldView>)
    ensures
        forall|k: int|
            0 <= k < tokenized_positions(fields).len() ==> {
                let at = #[trigger] tokenized_positions(fields)[k];
                0 <= at < fields.len() && fields[at].indexing == Indexing::Tokenized
            },
        forall|j: int, k: int|
            0 <= j < k < tokenized_positions(fields).len() ==> tokenized_positions(fields)[j]
                < tokenized_positions(fields)[k],
        forall|at: int|
            0 <= at < fields.len() && (#[trigger] fields[at]).indexing == Indexing::Tokenized
                ==> tokenized_positions(fields).contains(at),
    decreases fields.len(),
{
    if fields.len() > 0 {
        let shorter = fields.drop_last();
        let before = tokenized_positions(shorter);
        let all = tokenized_positions(fields);
        lemma_tokenized_positions(shorter);
        assert forall|at: int|
            0 <= at < fields.len() && (#[trigger] fields[at]).indexing
                == Indexing::Tokenized implies all.contains(at) by {
            if at < fields.len() - 1 {
                assert(shorter[at] == fields[at]);
                let k = choose|k: int| 0 <= k < before.len() && before[k] == at;
                assert(all[k] == at);
            } else {
                assert(all[all.len() - 1] == at);
            }
        }
    }
}

/// Free text is searched in the title and the body, and in nothing else.
pub proof fn lemma_default_fields_are_title_and_body()
    ensures
        tokenized_positions(schema_fields()) == seq![0int, 1int],
        schema_fields()[0].name == "title"@,
        schema_fields()[1].name == "body"@,
{
    let fields = schema_fields();
    let three = fields.drop_last();
    let two = three.drop_last();
    let one = two.drop_last();
    assert(tokenized_positions(one.drop_last()) =~= Seq::<int>::empty());
    assert(one.last() == fields[0]);
    assert(two.last() == fields[1]);
    assert(three.last() == fields[2]);
    assert(tokenized_positions(one) =~= seq![0int]);
    assert(tokenized_positions(two) =~= seq![0int, 1int]);
    assert(tokenized_positions(three) =~= seq![0int, 1int]);
    assert(tokenized_positions(fields) =~= seq![0int, 1int]);
}

} // verus!
