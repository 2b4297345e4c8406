//! The options of the meta-build tool: names with their values, held in the
//! dictionary order of the names so that equal sets of options are equal
//! sequences.

use crate::text::to_chars;
use vstd::prelude::*;
use vstd::utf8::encode_utf8;

verus! {

/// Whether `a` comes before `b` in dictionary order, judged from position
/// `from` on, where both agree before it.
pub open spec fn text_less_from(a: Seq<char>, b: Seq<char>, from: int) -> bool
    decreases a.len() - from,
{
    if from < 0 || from >= b.len() {
        false
    } else if from >= a.len() {
        true
    } else if a[from] != b[from] {
        (a[from] as u32) < (b[from] as u32)
    } else {
        text_less_from(a, b, from + 1)
    }
}

/// Whether `a` comes before `b` in dictionary order.
pub open spec fn text_less(a: Seq<char>, b: Seq<char>) -> bool {
    text_less_from(a, b, 0)
}

proof fn lemma_less_total(a: Seq<char>, b: Seq<char>, from: int)
    requires
        0 <= from <= a.len(),
        from <= b.len(),
        a.subrange(0, from) == b.subrange(0, from),
        !text_less_from(a, b, from),
        !text_less_from(b, a, from),
    ensures
        a == b,
    decreases a.len() - from,
{
    if from >= b.len() {
        assert(from >= a.len());
        assert(a.subrange(0, from) == a);
        assert(b.subrange(0, from) == b);
    } else if from >= a.len() {
    } else {
        assert(a[from] == b[from]) by {
            vstd::utf8::char_u32_cast(a[from], a[from] as u32);
            vstd::utf8::char_u32_cast(b[from], b[from] as u32);
        }
        assert(a.subrange(0, from + 1) == a.subrange(0, from).push(a[from]));
        assert(b.subrange(0, from + 1) == b.subrange(0, from).push(b[from]));
        lemma_less_total(a, b, from + 1);
    }
}

proof fn lemma_less_transitive(a: Seq<char>, b: Seq<char>, c: Seq<char>, from: int)
    requires
        0 <= from,
        text_less_from(a, b, from),
        text_less_from(b, c, from),
    ensures
        text_less_from(a, c, from),
    decreases a.len() - from,
{
    if from >= a.len() {
    } else if a[from] != b[from] {
    } else if b[from] != c[from] {
    } else {
        lemma_less_transitive(a, b, c, from + 1);
    }
}

/// Two texts that neither come before the other are the same text.
pub proof fn lemma_text_order_total(a: Seq<char>, b: Seq<char>)
    requires
        !text_less(a, b),
        !text_less(b, a),
    ensures
        a == b,
{
    assert(a.subrange(0, 0) == b.subrange(0, 0));
    lemma_less_total(a, b, 0);
}

/// Dictionary order is transitive.
pub proof fn lemma_text_order_transitive(a: Seq<char>, b: Seq<char>, c: Seq<char>)
    requires
        text_less(a, b),
        text_less(b, c),
    ensures
        text_less(a, c),
{
    lemma_less_transitive(a, b, c, 0);
}

/// No text comes before itself.
proof fn lemma_text_order_irreflexive(a: Seq<char>, from: int)
    ensures
        !text_less_from(a, a, from),
    decreases a.len() - from,
{
    if from < 0 || from >= a.len() {
    } else {
        lemma_text_order_irreflexive(a, from + 1);
    }
}

/// Whether `a` comes before `b` in dictionary order.
pub fn is_text_less(a: &Vec<char>, b: &Vec<char>) -> (less: bool)
    ensures
        less == text_less(a@, b@),
{
    let mut i: usize = 0;
    while i < a.len() && i < b.len()
        invariant
            i <= a.len(),
            i <= b.len(),
            text_less(a@, b@) == text_less_from(a@, b@, i as int),
        decreases a.len() - i,
    {
        if a[i] != b[i] {
            return (a[i] as u32) < (b[i] as u32);
        }
        i += 1;
    }
    i < b.len()
}

/// The options of the tool: names with their values.
pub type OptionsView = Seq<(Seq<char>, Seq<char>)>;

/// The names of the options come in strictly increasing dictionary order, so
/// that no name occurs twice and equal sets of options are equal sequences.
pub open spec fn keys_increasing(options: OptionsView) -> bool {
    forall|i: int, j: int|
        0 <= i < j < options.len() ==> text_less(#[trigger] options[i].0, #[trigger] options[j].0)
}

/// Where the names are in order, no name occurs twice.
pub proof fn lemma_keys_distinct(options: OptionsView, i: int, j: int)
    requires
        keys_increasing(options),
        0 <= i < j < options.len(),
    ensures
        options[i].0 != options[j].0,
{
    lemma_text_order_irreflexive(options[i].0, 0);
}

/// How many options, counted from the front, have a name that comes before `key`.
pub open spec fn lower_bound(options: OptionsView, key: Seq<char>, from: int) -> int
    decreases options.len() - from,
{
    if from < 0 || from >= options.len() {
        options.len() as int
    } else if !text_less(options[from].0, key) {
        from
    } else {
        lower_bound(options, key, from + 1)
    }
}

/// The options with `key` set to `value`: in the place of the old value
/// where the name was set before, else in the place that keeps the names in order.
pub open spec fn with_option(options: OptionsView, key: Seq<char>, value: Seq<char>) -> OptionsView {
    let place = lower_bound(options, key, 0);
    if 0 <= place < options.len() && options[place].0 == key {
        options.update(place, (key, value))
    } else {
        options.insert(place, (key, value))
    }
}

proof fn lemma_lower_bound(options: OptionsView, key: Seq<char>, from: int)
    requires
        0 <= from <= options.len(),
    ensures
        from <= lower_bound(options, key, from) <= options.len(),
        forall|i: int|
            from <= i < lower_bound(options, key, from) ==> text_less(
                (#[trigger] options[i]).0,
                key,
            ),
        lower_bound(options, key, from) < options.len() ==> !text_less(
            options[lower_bound(options, key, from)].0,
            key,
        ),
    decreases options.len() - from,
{
    if from >= options.len() {
    } else if !text_less(options[from].0, key) {
    } else {
        lemma_lower_bound(options, key, from + 1);
    }
}

/// Setting an option keeps the names in order.
pub proof fn lemma_with_option_keeps_order(options: OptionsView, key: Seq<char>, value: Seq<char>)
    requires
        keys_increasing(options),
    ensures
        keys_increasing(with_option(options, key, value)),
{
    let place = lower_bound(options, key, 0);
    lemma_lower_bound(options, key, 0);
    let after = with_option(options, key, value);
    if place < options.len() && options[place].0 == key {
        assert forall|i: int, j: int| 0 <= i < j < after.len() implies text_less(
            #[trigger] after[i].0,
            #[trigger] after[j].0,
        ) by {
            assert(after[i].0 == options[i].0);
            assert(after[j].0 == options[j].0);
        }
    } else {
        assert forall|i: int, j: int| 0 <= i < j < after.len() implies text_less(
            #[trigger] after[i].0,
            #[trigger] after[j].0,
        ) by {
            if j < place {
                assert(after[i] == options[i] && after[j] == options[j]);
            } else if j == place {
                assert(after[i] == options[i]);
            } else if i == place {
                assert(after[j] == options[j - 1]);
                if !text_less(key, options[place].0) {
                    lemma_text_order_total(key, options[place].0);
                }
                if j - 1 > place {
                    assert(text_less(options[place].0, options[j - 1].0));
                    lemma_text_order_transitive(key, options[place].0, options[j - 1].0);
                }
            } else if i < place {
                assert(after[i] == options[i] && after[j] == options[j - 1]);
            } else {
                assert(after[i] == options[i - 1] && after[j] == options[j - 1]);
            }
        }
    }
}

/// The value of `key` in `options` at or after position `from`, if it is set.
pub open spec fn option_value(options: OptionsView, key: Seq<char>, from: int) -> Option<Seq<char>>
    decreases options.len() - from,
{
    if from < 0 || from >= options.len() {
        None
    } else if options[from].0 == key {
        Some(options[from].1)
    } else {
        option_value(options, key, from + 1)
    }
}

/// A value that is found stands at a position.
proof fn lemma_value_found(options: OptionsView, key: Seq<char>, from: int) -> (place: int)
    requires
        0 <= from,
        option_value(options, key, from) is Some,
    ensures
        from <= place < options.len(),
        options[place] == (key, option_value(options, key, from)->0),
    decreases options.len() - from,
{
    if options[from].0 == key {
        from
    } else {
        lemma_value_found(options, key, from + 1)
    }
}

/// Where the names are in order, the value of a name that stands at a
/// position is the value at that position.
proof fn lemma_value_at(options: OptionsView, place: int, from: int)
    requires
        keys_increasing(options),
        0 <= from <= place < options.len(),
    ensures
        option_value(options, options[place].0, from) == Some(options[place].1),
    decreases place - from,
{
    if from < place {
        lemma_keys_distinct(options, from, place);
        lemma_value_at(options, place, from + 1);
    }
}

/// A name that stands at no position has no value.
proof fn lemma_value_absent(options: OptionsView, key: Seq<char>, from: int)
    requires
        0 <= from,
        forall|i: int| 0 <= i < options.len() ==> (#[trigger] options[i]).0 != key,
    ensures
        option_value(options, key, from) is None,
    decreases options.len() - from,
{
    if from < options.len() {
        lemma_value_absent(options, key, from + 1);
    }
}

/// Setting an option gives the name its value and leaves every other name
/// as it was.
pub proof fn law_option_is_set(
    options: OptionsView,
    key: Seq<char>,
    value: Seq<char>,
    other: Seq<char>,
)
    requires
        keys_increasing(options),
    ensures
        option_value(with_option(options, key, value), other, 0) == if other == key {
            Some(value)
        } else {
            option_value(options, other, 0)
        },
{
    let after = with_option(options, key, value);
    let place = lower_bound(options, key, 0);
    lemma_lower_bound(options, key, 0);
    lemma_with_option_keeps_order(options, key, value);
    let replaced = place < options.len() && options[place].0 == key;
    assert(after[place] == (key, value));
    if other == key {
        lemma_value_at(after, place, 0);
    } else if option_value(options, other, 0) is Some {
        let at = lemma_value_found(options, other, 0);
        let moved = if replaced || at < place {
            at
        } else {
            at + 1
        };
        assert(after[moved] == options[at]);
        lemma_value_at(after, moved, 0);
    } else {
        assert forall|i: int| 0 <= i < after.len() implies (#[trigger] after[i]).0 != other by {
            if i != place {
                let from = if replaced || i < place {
                    i
                } else {
                    i - 1
                };
                assert(after[i] == options[from]);
                if options[from].0 == other {
                    lemma_value_at(options, from, 0);
                }
            }
        }
        lemma_value_absent(after, other, 0);
    }
}

/// Options in order that give every name the same value agree at every
/// position of the first.
proof fn lemma_same_entries(first: OptionsView, second: OptionsView, i: int)
    requires
        keys_increasing(first),
        keys_increasing(second),
        forall|key: Seq<char>|
            #[trigger] option_value(first, key, 0) == option_value(second, key, 0),
        0 <= i < first.len(),
    ensures
        i < second.len(),
        first[i] == second[i],
    decreases i,
{
    assert forall|j: int| 0 <= j < i implies j < second.len() && first[j] == #[trigger] second[j] by {
        lemma_same_entries(first, second, j);
    }
    let key = first[i].0;
    lemma_value_at(first, i, 0);
    assert(option_value(first, key, 0) == option_value(second, key, 0));
    let m = lemma_value_found(second, key, 0);
    if m < i {
        lemma_keys_distinct(first, m, i);
    } else if m > i {
        let early = second[i].0;
        lemma_keys_distinct(second, i, m);
        lemma_value_at(second, i, 0);
        assert(option_value(first, early, 0) == option_value(second, early, 0));
        let n = lemma_value_found(first, early, 0);
        if n < i {
            lemma_keys_distinct(second, n, i);
        } else if n > i {
            assert(text_less(first[i].0, first[n].0));
            assert(text_less(second[i].0, second[m].0));
            lemma_text_order_transitive(key, early, key);
            lemma_text_order_irreflexive(key, 0);
        }
    }
}

/// The order in which options are set leaves no trace: options in order
/// that give every name the same value are the same options.
pub proof fn law_options_are_a_mapping(first: OptionsView, second: OptionsView)
    requires
        keys_increasing(first),
        keys_increasing(second),
        forall|key: Seq<char>|
            #[trigger] option_value(first, key, 0) == option_value(second, key, 0),
    ensures
        first == second,
{
    if first.len() > 0 {
        lemma_same_entries(first, second, first.len() - 1);
    }
    if second.len() > 0 {
        lemma_same_entries(second, first, second.len() - 1);
    }
    assert forall|i: int| 0 <= i < first.len() implies first[i] == second[i] by {
        lemma_same_entries(first, second, i);
    }
    assert(first =~= second);
}

/// Two different options may be set in either order.
pub proof fn law_option_order_is_irrelevant(
    options: OptionsView,
    key: Seq<char>,
    value: Seq<char>,
    other_key: Seq<char>,
    other_value: Seq<char>,
)
    requires
        keys_increasing(options),
        key != other_key,
    ensures
        with_option(with_option(options, key, value), other_key, other_value) == with_option(
            with_option(options, other_key, other_value),
            key,
            value,
        ),
{
    let one = with_option(options, key, value);
    let two = with_option(options, other_key, other_value);
    let first = with_option(one, other_key, other_value);
    let second = with_option(two, key, value);
    lemma_with_option_keeps_order(options, key, value);
    lemma_with_option_keeps_order(options, other_key, other_value);
    lemma_with_option_keeps_order(one, other_key, other_value);
    lemma_with_option_keeps_order(two, key, value);
    assert forall|name: Seq<char>| #[trigger]
        option_value(first, name, 0) == option_value(second, name, 0) by {
        law_option_is_set(options, key, value, name);
        law_option_is_set(options, other_key, other_value, name);
        law_option_is_set(one, other_key, other_value, name);
        law_option_is_set(two, key, value, name);
    }
    law_options_are_a_mapping(first, second);
}

/// The views of a vector of options.
pub open spec fn options_view(options: Seq<(String, String)>) -> OptionsView {
    Seq::new(options.len(), |i: int| (options[i].0@, options[i].1@))
}

/// What the options feed to the hasher: each name, then its value.
pub open spec fn option_writes(options: OptionsView) -> Seq<Seq<u8>> {
    Seq::new(
        2 * options.len(),
        |i: int|
            if i % 2 == 0 {
                encode_utf8(options[i / 2].0)
            } else {
                encode_utf8(options[i / 2].1)
            },
    )
}

/// Sets `key` to `value` in `options`.
pub(crate) fn set_option(options: &mut Vec<(String, String)>, key: String, value: String)
    requires
        keys_increasing(options_view(old(options)@)),
    ensures
        options_view(final(options)@) == with_option(options_view(old(options)@), key@, value@),
        keys_increasing(options_view(final(options)@)),
{
    let ghost before = options_view(options@);
    let key_chars = to_chars(key.as_str());
    let mut place: usize = 0;
    while place < options.len()
        invariant
            place <= options.len(),
            options@ == old(options)@,
            key_chars@ == key@,
            lower_bound(before, key@, 0) == lower_bound(before, key@, place as int),
            before == options_view(options@),
        ensures
            place <= options.len(),
            options@ == old(options)@,
            place == lower_bound(before, key@, 0),
        decreases options.len() - place,
    {
        let name = to_chars(options[place].0.as_str());
        assert(name@ == before[place as int].0);
        if !is_text_less(&name, &key_chars) {
            break ;
        }
        place += 1;
    }
    proof {
        lemma_with_option_keeps_order(before, key@, value@);
    }
    if place < options.len() && options[place].0 == key {
        assert(before[place as int].0 == key@);
        options.set(place, (key, value));
        assert(options_view(options@) =~= before.update(place as int, (key@, value@)));
    } else {
        assert(place < before.len() ==> before[place as int].0 != key@);
        options.insert(place, (key, value));
        assert(options_view(options@) =~= before.insert(place as int, (key@, value@)));
    }
}

} // verus!
