//! Opaque identities carried through reservation state and responses.
use vstd::prelude::*;

use crate::text::texts;

verus! {

/// A full git object name.
pub type GitObjectId = String;

/// A durable, non-recyclable reservation identity.
pub type ReservationId = String;

/// The identity of one worktree checkout.
pub type WorktreeId = String;

/// The identity of one coordination run acting in a worktree.
pub type CoordinationRunId = String;

/// The identity of one recorded incursion incident.
pub type IncursionIncidentId = String;

/// The identity of one forced-integration permit.
pub type ForcedIntegrationPermitId = String;

/// The identity of one journal append.
pub type EventId = String;

/// A recorded timestamp, kept in its rendered form.
pub type RecordedAt = String;

/// A repository-relative path named by a reservation scope.
pub type ReservationScopePath = String;

/// Compare two identities by their text.
pub fn same_text(left: &String, right: &String) -> (same: bool)
    ensures
        same == (left@ == right@),
{
    left.eq(right)
}

/// Whether a list of identities names one with this text.
pub fn contains_text(values: &Vec<String>, value: &String) -> (found: bool)
    ensures
        found == values.deep_view().contains(value@),
{
    let mut index: usize = 0;
    while index < values.len()
        invariant
            index <= values.len(),
            forall|earlier: int| 0 <= earlier < index ==> values.deep_view()[earlier] != value@,
        decreases values.len() - index,
    {
        if same_text(&values[index], value) {
            assert(values.deep_view()[index as int] == value@);
            return true;
        }
        index += 1;
    }
    proof {
        if values.deep_view().contains(value@) {
            let witness = choose|position: int|
                0 <= position < values.deep_view().len() && values.deep_view()[position] == value@;
            assert(values.deep_view()[witness] != value@);
        }
    }
    false
}

/// Copy a list of texts.
pub fn clone_texts(values: &Vec<String>) -> (copy: Vec<String>)
    ensures
        copy@ == values@,
{
    let mut copy: Vec<String> = Vec::new();
    let mut index: usize = 0;
    while index < values.len()
        invariant
            index <= values@.len(),
            copy@ == values@.take(index as int),
        decreases values@.len() - index,
    {
        copy.push(values[index].clone());
        assert(values@.take(index + 1) == values@.take(index as int).push(values@[index as int]));
        index += 1;
    }
    assert(values@.take(values@.len() as int) == values@);
    copy
}

/// Compare two lists of texts element by element.
pub fn same_texts(left: &Vec<String>, right: &Vec<String>) -> (same: bool)
    ensures
        same == (left.deep_view() == right.deep_view()),
{
    if left.len() != right.len() {
        assert(left.deep_view().len() != right.deep_view().len());
        return false;
    }
    let mut index: usize = 0;
    while index < left.len()
        invariant
            index <= left.len(),
            left.len() == right.len(),
            forall|earlier: int| 0 <= earlier < index ==> left.deep_view()[earlier]
                == right.deep_view()[earlier],
        decreases left.len() - index,
    {
        if !same_text(&left[index], &right[index]) {
            assert(left.deep_view()[index as int] != right.deep_view()[index as int]);
            return false;
        }
        index += 1;
    }
    assert(left.deep_view() =~= right.deep_view());
    true
}

/// Whether one text sorts before another in wire order: at their first difference its
/// character has the smaller code point, or it is a proper prefix of the other.
pub open spec fn sorts_before(left: Seq<char>, right: Seq<char>) -> bool
    decreases left.len(),
{
    if left.len() == 0 {
        right.len() > 0
    } else if right.len() == 0 {
        false
    } else if left[0] == right[0] {
        sorts_before(left.drop_first(), right.drop_first())
    } else {
        left[0] < right[0]
    }
}

/// No text sorts before itself.
pub proof fn sorts_before_is_irreflexive(text: Seq<char>)
    ensures
        !sorts_before(text, text),
    decreases text.len(),
{
    if text.len() > 0 {
        sorts_before_is_irreflexive(text.drop_first());
    }
}

/// Wire order is transitive.
pub proof fn sorts_before_is_transitive(first: Seq<char>, second: Seq<char>, third: Seq<char>)
    requires
        sorts_before(first, second),
        sorts_before(second, third),
    ensures
        sorts_before(first, third),
    decreases first.len(),
{
    if first.len() > 0 && second.len() > 0 && third.len() > 0 && first[0] == second[0]
        && second[0] == third[0] {
        sorts_before_is_transitive(first.drop_first(), second.drop_first(), third.drop_first());
    }
}

/// Of two different texts, one sorts before the other.
pub proof fn sorts_before_is_total(left: Seq<char>, right: Seq<char>)
    requires
        left != right,
    ensures
        sorts_before(left, right) || sorts_before(right, left),
    decreases left.len(),
{
    if left.len() == 0 && right.len() == 0 {
        assert(left =~= right);
    } else if left.len() > 0 && right.len() > 0 {
        if left[0] == right[0] {
            if left.drop_first() == right.drop_first() {
                assert(left =~= seq![left[0]] + left.drop_first());
                assert(right =~= seq![right[0]] + right.drop_first());
            }
            sorts_before_is_total(left.drop_first(), right.drop_first());
        }
    }
}

/// Whether every text of a list sorts before every later one: the list is in wire order and
/// names nothing twice.
pub open spec fn wire_ordered(values: Seq<String>) -> bool {
    forall|earlier: int, later: int|
        0 <= earlier < later < values.len() ==> sorts_before(
            #[trigger] values[earlier]@,
            #[trigger] values[later]@,
        )
}

/// The texts a list names, as a set.
pub open spec fn named(values: Seq<String>) -> Set<Seq<char>> {
    texts(values).to_set()
}

/// Whether one text sorts before another in wire order.
pub fn text_sorts_before(left: &String, right: &String) -> (before: bool)
    ensures
        before == sorts_before(left@, right@),
{
    let left_length = left.as_str().unicode_len();
    let right_length = right.as_str().unicode_len();
    let mut index: usize = 0;
    assert(left@.skip(0) =~= left@);
    assert(right@.skip(0) =~= right@);
    while index < left_length && index < right_length
        invariant
            left_length == left@.len(),
            right_length == right@.len(),
            index <= left_length,
            index <= right_length,
            sorts_before(left@, right@) == sorts_before(
                left@.skip(index as int),
                right@.skip(index as int),
            ),
        decreases left_length - index,
    {
        let left_char = left.as_str().get_char(index);
        let right_char = right.as_str().get_char(index);
        assert(left@.skip(index as int)[0] == left_char);
        assert(right@.skip(index as int)[0] == right_char);
        if left_char != right_char {
            return left_char < right_char;
        }
        assert(left@.skip(index as int).drop_first() =~= left@.skip(index + 1));
        assert(right@.skip(index as int).drop_first() =~= right@.skip(index + 1));
        index += 1;
    }
    index == left_length && index < right_length
}

/// Add a text to a list in wire order, unless the list already names it.
pub fn insert_in_wire_order(ordered: &mut Vec<String>, value: &String)
    requires
        wire_ordered(old(ordered)@),
    ensures
        wire_ordered(final(ordered)@),
        named(final(ordered)@) == named(old(ordered)@).insert(value@),
{
    let ghost before = ordered@;
    let mut position: usize = 0;
    while position < ordered.len()
        invariant
            position <= ordered@.len(),
            ordered@ == before,
            wire_ordered(before),
            forall|earlier: int| 0 <= earlier < position ==> sorts_before(#[trigger] before[earlier]@, value@),
        ensures
            position <= ordered@.len(),
            ordered@ == before,
            forall|earlier: int| 0 <= earlier < position ==> sorts_before(#[trigger] before[earlier]@, value@),
            position < ordered@.len() ==> !sorts_before(before[position as int]@, value@),
        decreases ordered@.len() - position,
    {
        if !text_sorts_before(&ordered[position], value) {
            break;
        }
        position += 1;
    }
    if position < ordered.len() && same_text(&ordered[position], value) {
        proof {
            assert(texts(before)[position as int] == value@);
            assert(named(before).contains(value@));
            assert(named(before).insert(value@) =~= named(before));
        }
        return;
    }
    proof {
        if position < before.len() {
            sorts_before_is_total(before[position as int]@, value@);
        }
    }
    ordered.insert(position, value.clone());
    proof {
        let after = ordered@;
        assert(after == before.insert(position as int, *value));
        assert forall|earlier: int, later: int|
            0 <= earlier < later < after.len() implies sorts_before(
                #[trigger] after[earlier]@,
                #[trigger] after[later]@,
            ) by {
            if later < position {
                assert(after[earlier] == before[earlier] && after[later] == before[later]);
            } else if later == position {
                assert(after[earlier] == before[earlier]);
            } else if earlier == position {
                assert(after[later] == before[later - 1]);
                if later - 1 > position {
                    sorts_before_is_transitive(value@, before[position as int]@, before[later - 1]@);
                }
            } else if earlier < position {
                assert(after[earlier] == before[earlier] && after[later] == before[later - 1]);
            } else {
                assert(after[earlier] == before[earlier - 1] && after[later] == before[later - 1]);
            }
        }
        assert forall|text: Seq<char>| named(after).contains(text) <==> named(before).insert(value@).contains(text) by {
            if named(after).contains(text) {
                let found = choose|index: int| 0 <= index < texts(after).len() && texts(after)[index] == text;
                if found < position {
                    assert(texts(before)[found] == text);
                } else if found > position {
                    assert(texts(before)[found - 1] == text);
                }
            }
            if named(before).contains(text) {
                let found = choose|index: int| 0 <= index < texts(before).len() && texts(before)[index] == text;
                if found < position {
                    assert(texts(after)[found] == text);
                } else {
                    assert(texts(after)[found + 1] == text);
                }
            }
            if text == value@ {
                assert(texts(after)[position as int] == text);
            }
        }
        assert(named(after) =~= named(before).insert(value@));
    }
}

/// The texts a list names, once each, in wire order.
pub fn wire_ordered_texts(values: &[String]) -> (ordered: Vec<String>)
    ensures
        wire_ordered(ordered@),
        named(ordered@) == named(values@),
{
    let mut ordered: Vec<String> = Vec::new();
    let mut index: usize = 0;
    proof {
        assert(named(values@.take(0)) =~= Set::<Seq<char>>::empty());
        assert(named(ordered@) =~= Set::<Seq<char>>::empty());
    }
    while index < values.len()
        invariant
            index <= values@.len(),
            wire_ordered(ordered@),
            named(ordered@) == named(values@.take(index as int)),
        decreases values@.len() - index,
    {
        insert_in_wire_order(&mut ordered, &values[index]);
        proof {
            let taken = values@.take(index + 1);
            assert(taken =~= values@.take(index as int).push(values@[index as int]));
            assert(texts(taken) =~= texts(values@.take(index as int)).push(values@[index as int]@));
            texts(values@.take(index as int)).lemma_push_to_set_commute(values@[index as int]@);
        }
        index += 1;
    }
    assert(values@.take(values@.len() as int) =~= values@);
    ordered
}

/// A list in wire order names nothing twice.
pub proof fn wire_ordered_names_nothing_twice(values: Seq<String>)
    requires
        wire_ordered(values),
    ensures
        texts(values).no_duplicates(),
{
    assert forall|first: int, second: int|
        0 <= first < texts(values).len() && 0 <= second < texts(values).len() && first != second
            implies texts(values)[first] != texts(values)[second] by {
        if first < second {
            assert(sorts_before(values[first]@, values[second]@));
            if values[first]@ == values[second]@ {
                sorts_before_is_irreflexive(values[first]@);
            }
        } else {
            assert(sorts_before(values[second]@, values[first]@));
            if values[first]@ == values[second]@ {
                sorts_before_is_irreflexive(values[first]@);
            }
        }
    }
}

} // verus!
