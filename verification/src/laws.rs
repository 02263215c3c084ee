//! What holds of every rendering.

use vstd::prelude::*;

use crate::error::Error;
use crate::serializer::{
    appended, array_closing, array_opening, initial_state, object_closing, object_opening,
    Serializer, State,
};
use crate::sink::Sink;
use crate::text::{null, separator};
use crate::value::{array, elements, mappings, members, object, pair, visited_count, Entry, Field, Value};

verus! {

/// The parts in order, with a comma between each two.
pub open spec fn joined(parts: Seq<Seq<char>>) -> Seq<char>
    decreases parts.len(),
{
    if parts.len() == 0 {
        Seq::empty()
    } else {
        joined(parts.drop_last()) + separator(parts.len() == 1) + parts.last()
    }
}

/// The lengths of the parts, added up.
pub open spec fn total_len(parts: Seq<Seq<char>>) -> nat
    decreases parts.len(),
{
    if parts.len() == 0 {
        0
    } else {
        total_len(parts.drop_last()) + parts.last().len()
    }
}

/// Where part `i` begins once the parts are joined: behind every earlier
/// part and one comma for each of them.
pub open spec fn start(parts: Seq<Seq<char>>, i: int) -> int
    decreases i,
{
    if i <= 0 {
        0
    } else {
        start(parts, i - 1) + parts[i - 1].len() + 1
    }
}

/// The texts of the items, one part each.
pub open spec fn texts(items: Seq<Value>) -> Seq<Seq<char>> {
    Seq::new(items.len(), |i: int| items[i].text())
}

/// The pairs of the entries, one part each.
pub open spec fn entry_pairs(entries: Seq<Entry>) -> Seq<Seq<char>> {
    Seq::new(entries.len(), |i: int| pair(entries[i].key@, entries[i].value.text()))
}

/// The pairs of the fields that reach the output, one part each.
pub open spec fn visited_pairs(fields: Seq<Field>) -> Seq<Seq<char>>
    decreases fields.len(),
{
    if fields.len() == 0 {
        Seq::empty()
    } else if fields.last().visited() {
        visited_pairs(fields.drop_last()).push(pair(fields.last().name@, fields.last().value.text()))
    } else {
        visited_pairs(fields.drop_last())
    }
}

/// Where a part begins depends on the parts before it alone.
proof fn lemma_start_of_prefix(parts: Seq<Seq<char>>, k: int, i: int)
    requires
        0 <= i <= k <= parts.len(),
    ensures
        start(parts.take(k), i) == start(parts, i),
    decreases i,
{
    if i > 0 {
        lemma_start_of_prefix(parts, k, i - 1);
    }
}

/// How joined parts are laid out: every part stands whole at its place, a
/// comma stands right before every part but the first, and the text ends
/// with the last part. Joining `n` parts so takes exactly `n - 1` commas,
/// and none of them trails.
pub proof fn lemma_joined_layout(parts: Seq<Seq<char>>)
    ensures
        joined(parts).len() == total_len(parts) + if parts.len() == 0 {
            0
        } else {
            parts.len() - 1
        },
        parts.len() > 0 ==> start(parts, parts.len() - 1) + parts.last().len() == joined(
            parts,
        ).len(),
        forall|i: int|
            0 <= i < parts.len() ==> 0 <= #[trigger] start(parts, i) && start(parts, i)
                + parts[i].len() <= joined(parts).len(),
        forall|i: int|
            0 <= i < parts.len() ==> joined(parts).subrange(
                #[trigger] start(parts, i),
                start(parts, i) + parts[i].len(),
            ) == parts[i],
        forall|i: int| 0 < i < parts.len() ==> joined(parts)[#[trigger] start(parts, i) - 1] == ',',
    decreases parts.len(),
{
    let n = parts.len() as int;
    if n > 0 {
        let before = parts.drop_last();
        let whole = joined(parts);
        let head = joined(before);
        lemma_joined_layout(before);
        assert(before =~= parts.take(n - 1));
        if n == 1 {
            assert(whole =~= parts[0]);
        } else {
            lemma_start_of_prefix(parts, n - 1, n - 2);
            assert(before.last() == parts[n - 2]);
            assert(start(parts, n - 1) == head.len() + 1);
            assert(whole =~= head + seq![','] + parts[n - 1]);
        }
        assert forall|i: int| 0 <= i < n implies 0 <= #[trigger] start(parts, i) && start(parts, i)
            + parts[i].len() <= whole.len() && whole.subrange(
            start(parts, i),
            start(parts, i) + parts[i].len(),
        ) == parts[i] && (i > 0 ==> whole[start(parts, i) - 1] == ',') by {
            if i < n - 1 {
                lemma_start_of_prefix(parts, n - 1, i);
                assert(before[i] == parts[i]);
                let at = start(before, i);
                assert(0 <= at && at + parts[i].len() <= head.len());
                assert(head.subrange(at, at + parts[i].len()) == parts[i]);
                assert(whole.subrange(at, at + parts[i].len()) =~= head.subrange(
                    at,
                    at + parts[i].len(),
                ));
                if i > 0 {
                    assert(0 <= start(before, i - 1));
                    assert(1 <= at);
                    assert(head[at - 1] == ',');
                    assert(whole[at - 1] == head[at - 1]);
                }
            } else if n == 1 {
                assert(whole.subrange(0, parts[0].len() as int) =~= parts[0]);
            } else {
                assert(whole.subrange(head.len() as int + 1, whole.len() as int) =~= parts[n - 1]);
                assert(whole[head.len() as int] == ',');
            }
        }
    }
}

/// The elements of an array are the texts of its items, joined.
pub proof fn lemma_elements_joined(items: Seq<Value>)
    ensures
        elements(items) == joined(texts(items)),
    decreases items.len(),
{
    if items.len() > 0 {
        lemma_elements_joined(items.drop_last());
        assert(texts(items).drop_last() =~= texts(items.drop_last()));
    }
}

/// The entries of a keyed map are its pairs, joined.
pub proof fn lemma_mappings_joined(entries: Seq<Entry>)
    ensures
        mappings(entries) == joined(entry_pairs(entries)),
    decreases entries.len(),
{
    if entries.len() > 0 {
        lemma_mappings_joined(entries.drop_last());
        assert(entry_pairs(entries).drop_last() =~= entry_pairs(entries.drop_last()));
    }
}

/// The members of a record are the pairs of its visited fields, joined, and
/// there are as many of those pairs as there are visited fields.
pub proof fn lemma_members_joined(fields: Seq<Field>)
    ensures
        visited_pairs(fields).len() == visited_count(fields),
        members(fields) == joined(visited_pairs(fields)),
    decreases fields.len(),
{
    if fields.len() > 0 {
        lemma_members_joined(fields.drop_last());
        if fields.last().visited() {
            let parts = visited_pairs(fields);
            assert(parts.drop_last() =~= visited_pairs(fields.drop_last()));
        }
    }
}

/// A record with `n` visited fields renders as its `n` pairs between
/// braces, with exactly `n - 1` commas: one right before every pair but the
/// first, and none after the last, which the closing brace follows at once.
pub proof fn lemma_record_commas(name: &'static str, fields: Vec<Field>)
    ensures
        ({
            let parts = visited_pairs(fields@);
            let inner = members(fields@);
            let text = (Value::Record { name, fields }).text();
            &&& parts.len() == visited_count(fields@)
            &&& text == object(inner)
            &&& inner.len() == total_len(parts) + if parts.len() == 0 {
                0
            } else {
                parts.len() - 1
            }
            &&& forall|i: int|
                0 <= i < parts.len() ==> inner.subrange(
                    #[trigger] start(parts, i),
                    start(parts, i) + parts[i].len(),
                ) == parts[i]
            &&& forall|i: int| 0 < i < parts.len() ==> inner[#[trigger] start(parts, i) - 1] == ','
            &&& parts.len() > 0 ==> start(parts, parts.len() - 1) + parts.last().len()
                == inner.len()
        }),
{
    lemma_members_joined(fields@);
    lemma_joined_layout(visited_pairs(fields@));
}

/// An array of `n` items renders as its `n` texts between brackets, with
/// exactly `n - 1` commas: one right before every text but the first, and
/// none after the last.
pub proof fn lemma_array_commas(items: Vec<Value>)
    ensures
        ({
            let parts = texts(items@);
            let inner = elements(items@);
            let text = Value::Sequence(items).text();
            &&& parts.len() == items@.len()
            &&& text == array(inner)
            &&& inner.len() == total_len(parts) + if parts.len() == 0 {
                0
            } else {
                parts.len() - 1
            }
            &&& forall|i: int|
                0 <= i < parts.len() ==> inner.subrange(
                    #[trigger] start(parts, i),
                    start(parts, i) + parts[i].len(),
                ) == parts[i]
            &&& forall|i: int| 0 < i < parts.len() ==> inner[#[trigger] start(parts, i) - 1] == ','
            &&& parts.len() > 0 ==> start(parts, parts.len() - 1) + parts.last().len()
                == inner.len()
        }),
{
    lemma_elements_joined(items@);
    lemma_joined_layout(texts(items@));
}

/// An absent optional, the unit value and a struct without fields all
/// render as `null`.
pub proof fn lemma_absent_and_unit_are_null(name: &'static str)
    ensures
        Value::Optional(None).text() == null(),
        Value::Unit.text() == null(),
        (Value::UnitStruct { name }).text() == null(),
        null() == seq!['n', 'u', 'l', 'l'],
{
}

/// A present optional and a struct that wraps one value render as the value
/// inside, with nothing added.
pub proof fn lemma_wrappers_are_transparent(name: &'static str, inner: Value)
    ensures
        Value::Optional(Some(Box::new(inner))).text() == inner.text(),
        (Value::NewtypeStruct { name, value: Box::new(inner) }).text() == inner.text(),
{
}

/// A field that is left out changes nothing: the members of the fields are
/// the members of the fields without it.
pub proof fn lemma_omitted_field_leaves_no_trace(fields: Seq<Field>, i: int)
    requires
        0 <= i < fields.len(),
        !fields[i].visited(),
    ensures
        visited_count(fields.remove(i)) == visited_count(fields),
        members(fields.remove(i)) == members(fields),
    decreases fields.len(),
{
    if i == fields.len() - 1 {
        assert(fields.remove(i) =~= fields.drop_last());
    } else {
        lemma_omitted_field_leaves_no_trace(fields.drop_last(), i);
        assert(fields.remove(i).drop_last() =~= fields.drop_last().remove(i));
        assert(fields.remove(i).last() == fields.last());
    }
}

/// A record of a field `a` that is flagged to be left out while absent and
/// is absent, and of a field `b` that is written, renders as `{b:<value>}`:
/// there is no comma before `b` and no trace of `a`.
pub proof fn lemma_absent_field_is_omitted(
    name: &'static str,
    a: &'static str,
    b: &'static str,
    value: Value,
    omit_b: bool,
    fields: Vec<Field>,
)
    requires
        (Field { name: b, value: value, omit_if_absent: omit_b }).visited(),
        fields@ == seq![
            (Field { name: a, value: Value::Optional(None), omit_if_absent: true }),
            (Field { name: b, value: value, omit_if_absent: omit_b }),
        ],
    ensures
        (Value::Record { name, fields }).text() == seq!['{'] + b@ + seq![':'] + value.text() + seq![
            '}',
        ],
{
    let fs = fields@;
    assert(fs.drop_last() =~= seq![fs[0]]);
    assert(fs.drop_last().drop_last() =~= Seq::<Field>::empty());
    assert(!fs[0].visited());
    assert(fs[1].visited());
    assert(members(fs.drop_last().drop_last()) =~= Seq::<char>::empty());
    assert(members(fs.drop_last()) =~= Seq::<char>::empty());
    assert(visited_count(fs.drop_last().drop_last()) == 0);
    assert(visited_count(fs.drop_last()) == 0);
    assert(members(fs) =~= b@ + seq![':'] + value.text());
    assert(object(members(fs)) =~= seq!['{'] + b@ + seq![':'] + value.text() + seq!['}']);
}

/// A variant without payload renders as its bare name: no quotes and no
/// braces. A variant that wraps one value renders as an object with one
/// entry, the bare name as the key and the value's text under it.
pub proof fn lemma_variant_shapes(
    name: &'static str,
    variant_index: u32,
    variant: &'static str,
    inner: Value,
)
    ensures
        (Value::UnitVariant { name, variant_index, variant }).text() == variant@,
        (Value::NewtypeVariant { name, variant_index, variant, value: Box::new(inner) }).text()
            == seq!['{'] + variant@ + seq![':'] + inner.text() + seq!['}'],
{
    assert(object(pair(variant@, inner.text())) =~= seq!['{'] + variant@ + seq![':']
        + inner.text() + seq!['}']);
}

/// A tuple and a tuple struct render exactly as the sequence of the same
/// items does.
pub proof fn lemma_tuple_is_sequence(name: &'static str, items: Vec<Value>)
    ensures
        Value::Tuple(items).text() == Value::Sequence(items).text(),
        (Value::TupleStruct { name, items }).text() == Value::Sequence(items).text(),
{
}

/// A record renders exactly as the keyed map of the same keys and values
/// does, as long as no field is left out.
pub proof fn lemma_record_is_keyed_map(name: &'static str, fields: Vec<Field>, entries: Vec<Entry>)
    requires
        fields@.len() == entries@.len(),
        forall|i: int|
            0 <= i < fields@.len() ==> {
                &&& (#[trigger] fields@[i]).visited()
                &&& fields@[i].name@ == entries@[i].key@
                &&& fields@[i].value == entries@[i].value
            },
    ensures
        (Value::Record { name, fields }).text() == Value::KeyedMap(entries).text(),
{
    lemma_same_members(fields@, entries@);
}

/// The members of fields that are all visited are the mappings of entries
/// with the same keys and values.
proof fn lemma_same_members(fields: Seq<Field>, entries: Seq<Entry>)
    requires
        fields.len() == entries.len(),
        forall|i: int|
            0 <= i < fields.len() ==> {
                &&& (#[trigger] fields[i]).visited()
                &&& fields[i].name@ == entries[i].key@
                &&& fields[i].value == entries[i].value
            },
    ensures
        members(fields) == mappings(entries),
        visited_count(fields) == fields.len(),
    decreases fields.len(),
{
    if fields.len() > 0 {
        let n = fields.len() - 1;
        assert(fields.last() == fields[n]);
        assert(entries.last() == entries[n]);
        assert forall|i: int| 0 <= i < n implies {
            &&& (#[trigger] fields.drop_last()[i]).visited()
            &&& fields.drop_last()[i].name@ == entries.drop_last()[i].key@
            &&& fields.drop_last()[i].value == entries.drop_last()[i].value
        } by {
            assert(fields.drop_last()[i] == fields[i]);
            assert(entries.drop_last()[i] == entries[i]);
        }
        lemma_same_members(fields.drop_last(), entries.drop_last());
    }
}

/// Whether `r` is what rendering `value` into a string gives: success, with
/// the text of the value.
pub open spec fn rendered(value: Value, r: Result<String, Error>) -> bool {
    r matches Ok(s) && s@ == value.text()
}

/// Rendering is stable: two renderings of one value are the same text.
pub proof fn lemma_rendering_is_stable(
    value: Value,
    first: Result<String, Error>,
    second: Result<String, Error>,
)
    requires
        rendered(value, first),
        rendered(value, second),
    ensures
        first is Ok,
        second is Ok,
        first->Ok_0@ == second->Ok_0@,
{
}

/// On sinks that hold the same bytes, two serializations of one value leave
/// the same bytes behind.
pub proof fn lemma_output_is_stable<W: Sink, F>(
    value: Value,
    first_before: Serializer<W, F>,
    first_after: Serializer<W, F>,
    second_before: Serializer<W, F>,
    second_after: Serializer<W, F>,
)
    requires
        appended(first_before, first_after, value.text()),
        appended(second_before, second_after, value.text()),
        first_before.writer().contents() == second_before.writer().contents(),
    ensures
        first_after.writer().contents() == second_after.writer().contents(),
{
}

/// A container starts out closed only when it was announced to hold
/// exactly nothing.
pub proof fn lemma_empty_only_when_announced(len: Option<usize>)
    ensures
        initial_state(len) == State::Empty <==> len == Some(0usize),
        initial_state(len) != State::Rest,
{
}

/// A container that was opened is closed exactly once, whether or not
/// anything was pushed into it: opening, contents and closing together are
/// the contents between one pair of brackets or braces. Nothing may be
/// pushed into a container that was announced empty.
pub proof fn lemma_closed_exactly_once(len: Option<usize>, pushed: bool, inner: Seq<char>)
    requires
        !pushed ==> inner.len() == 0,
        len == Some(0usize) ==> !pushed,
    ensures
        ({
            let state = if pushed {
                State::Rest
            } else {
                initial_state(len)
            };
            &&& array_opening(len) + inner + array_closing(state) == array(inner)
            &&& object_opening(len) + inner + object_closing(state) == object(inner)
        }),
{
    let state = if pushed {
        State::Rest
    } else {
        initial_state(len)
    };
    assert(array_opening(len) + inner + array_closing(state) =~= array(inner));
    assert(object_opening(len) + inner + object_closing(state) =~= object(inner));
}

} // verus!
