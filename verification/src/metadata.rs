//! Metadata of audit events: JSON values that hold no secrets.

use crate::digest::{digest_text, sha256_hex};
use crate::error::{StateError, StateErrorView};
use crate::json::{
    array_value, bool_value, insert_member, json_error_text, json_members, json_tree, json_trees,
    no_members, null_value, number_value, object_value, text_value, tree_text, value_text, JsonTree,
};
use crate::rules::{is_audit_secret, n6_audit_secret_value};
use crate::text::{
    ascii_lower, byte_len, byte_length, contains_text, has_substring, is_before, join,
    lemma_text_before_irreflexive, lemma_text_before_total, lemma_text_before_transitive, lower,
    same_text, text_before,
};
use vstd::prelude::*;
use vstd::utf8::encode_utf8;

verus! {

/// A JSON value.
#[derive(Debug, PartialEq, Eq)]
pub enum MetadataValue {
    Null,
    Bool(bool),
    Number(serde_json::Number),
    Text(String),
    Array(Vec<MetadataValue>),
    Object(MetadataObject),
}

/// A JSON object. It holds one value under each of its keys, in the order of the
/// keys.
#[derive(Debug, PartialEq, Eq)]
pub struct MetadataObject {
    entries: Vec<(String, MetadataValue)>,
}

/// The entries are in the order of their keys, each key once.
pub open spec fn is_by_key(entries: Seq<(String, MetadataValue)>) -> bool {
    forall|i: int, j: int|
        0 <= i < j < entries.len() ==> text_before(
            (#[trigger] entries[i]).0@,
            (#[trigger] entries[j]).0@,
        )
}

/// The value under each key, where the last entry of a key counts.
pub open spec fn values_of(entries: Seq<(String, MetadataValue)>) -> Map<Seq<char>, MetadataValue>
    decreases entries.len(),
{
    if entries.len() == 0 {
        Map::empty()
    } else {
        values_of(entries.drop_last()).insert(entries.last().0@, entries.last().1)
    }
}

impl View for MetadataObject {
    type V = Map<Seq<char>, MetadataValue>;

    closed spec fn view(&self) -> Map<Seq<char>, MetadataValue> {
        values_of(self.entries@)
    }
}

/// An entry in place of the one under the same key.
proof fn lemma_values_replaced(
    entries: Seq<(String, MetadataValue)>,
    at: int,
    entry: (String, MetadataValue),
)
    requires
        is_by_key(entries),
        0 <= at < entries.len(),
        entries[at].0@ == entry.0@,
    ensures
        is_by_key(entries.update(at, entry)),
        values_of(entries.update(at, entry)) == values_of(entries).insert(entry.0@, entry.1),
    decreases entries.len(),
{
    let after = entries.update(at, entry);
    assert forall|i: int, j: int| 0 <= i < j < after.len() implies text_before(
        (#[trigger] after[i]).0@,
        (#[trigger] after[j]).0@,
    ) by {
        assert(text_before(entries[i].0@, entries[j].0@));
    }
    let shorter = entries.drop_last();
    if at == entries.len() - 1 {
        assert(after.drop_last() =~= shorter);
        assert(values_of(after) =~= values_of(entries).insert(entry.0@, entry.1));
    } else {
        let last = entries.last();
        assert(entries[entries.len() - 1] == last);
        lemma_shorter_by_key(entries);
        assert(shorter[at] == entries[at]);
        lemma_values_replaced(shorter, at, entry);
        assert(after.drop_last() =~= shorter.update(at, entry));
        assert(after.last() == last);
        lemma_text_before_irreflexive(last.0@);
        assert(text_before(entries[at].0@, last.0@));
        assert(values_of(after) =~= values_of(entries).insert(entry.0@, entry.1));
    }
}

/// An entry under a new key, at its place.
proof fn lemma_values_inserted(
    entries: Seq<(String, MetadataValue)>,
    at: int,
    entry: (String, MetadataValue),
)
    requires
        is_by_key(entries),
        0 <= at <= entries.len(),
        forall|i: int| 0 <= i < at ==> text_before((#[trigger] entries[i]).0@, entry.0@),
        forall|i: int| at <= i < entries.len() ==> text_before(entry.0@, (#[trigger] entries[i]).0@),
    ensures
        is_by_key(entries.insert(at, entry)),
        values_of(entries.insert(at, entry)) == values_of(entries).insert(entry.0@, entry.1),
    decreases entries.len(),
{
    let after = entries.insert(at, entry);
    assert forall|i: int, j: int| 0 <= i < j < after.len() implies text_before(
        (#[trigger] after[i]).0@,
        (#[trigger] after[j]).0@,
    ) by {
        if i < at {
            assert(after[i] == entries[i]);
        } else if i > at {
            assert(after[i] == entries[i - 1]);
        }
        if j < at {
            assert(after[j] == entries[j]);
        } else if j > at {
            assert(after[j] == entries[j - 1]);
        }
    }
    if at == entries.len() {
        assert(after.drop_last() =~= entries);
    } else {
        let shorter = entries.drop_last();
        let last = entries.last();
        assert(entries[entries.len() - 1] == last);
        lemma_shorter_by_key(entries);
        assert forall|i: int| 0 <= i < at implies text_before(
            (#[trigger] shorter[i]).0@,
            entry.0@,
        ) by {
            assert(shorter[i] == entries[i]);
        }
        assert forall|i: int| at <= i < shorter.len() implies text_before(
            entry.0@,
            (#[trigger] shorter[i]).0@,
        ) by {
            assert(shorter[i] == entries[i]);
        }
        lemma_values_inserted(shorter, at, entry);
        assert(after.drop_last() =~= shorter.insert(at, entry));
        assert(after.last() == last);
        lemma_text_before_irreflexive(last.0@);
        assert(values_of(after) =~= values_of(entries).insert(entry.0@, entry.1));
    }
}

proof fn lemma_shorter_by_key(entries: Seq<(String, MetadataValue)>)
    requires
        is_by_key(entries),
        entries.len() > 0,
    ensures
        is_by_key(entries.drop_last()),
{
    let shorter = entries.drop_last();
    assert forall|i: int, j: int| 0 <= i < j < shorter.len() implies text_before(
        (#[trigger] shorter[i]).0@,
        (#[trigger] shorter[j]).0@,
    ) by {
        assert(shorter[i] == entries[i] && shorter[j] == entries[j]);
    }
}

impl MetadataObject {
    #[verifier::type_invariant]
    spec fn ordered(self) -> bool {
        is_by_key(self.entries@)
    }

    /// The entries of the object, as they are walked.
    pub closed spec fn entries(self) -> Seq<(String, MetadataValue)> {
        self.entries@
    }

    /// The object without entries.
    pub fn new() -> (object: Self)
        ensures
            object@ == Map::<Seq<char>, MetadataValue>::empty(),
            object.entries().len() == 0,
    {
        MetadataObject { entries: Vec::new() }
    }

    /// The entries of the object, in the order of their keys.
    pub fn in_order(&self) -> (entries: &Vec<(String, MetadataValue)>)
        ensures
            entries@ == self.entries(),
            is_by_key(entries@),
            values_of(entries@) == self@,
    {
        proof {
            use_type_invariant(self);
        }
        &self.entries
    }

    /// The same object with a value under a key, in place of an earlier one if
    /// there was one.
    pub fn insert(self, key: String, value: MetadataValue) -> (object: Self)
        ensures
            object@ == self@.insert(key@, value),
    {
        proof {
            use_type_invariant(&self);
        }
        let mut entries = self.entries;
        let ghost before = entries@;
        let mut at: usize = 0;
        while at < entries.len() && is_before(entries[at].0.as_str(), key.as_str())
            invariant
                at <= entries@.len(),
                forall|i: int| 0 <= i < at ==> text_before((#[trigger] entries@[i]).0@, key@),
            decreases entries@.len() - at,
        {
            at = at + 1;
        }
        let ghost entry = (key, value);
        if at < entries.len() && same_text(entries[at].0.as_str(), key.as_str()) {
            proof {
                lemma_values_replaced(before, at as int, entry);
            }
            entries[at] = (key, value);
        } else {
            proof {
                if at < before.len() {
                    lemma_text_before_total(before[at as int].0@, key@);
                    assert forall|i: int| at <= i < before.len() implies text_before(
                        key@,
                        (#[trigger] before[i]).0@,
                    ) by {
                        if at < i {
                            lemma_text_before_transitive(key@, before[at as int].0@, before[i].0@);
                        }
                    }
                }
                lemma_values_inserted(before, at as int, entry);
            }
            entries.insert(at, (key, value));
        }
        MetadataObject { entries }
    }

    /// The object of some entries. Of entries under one key the last counts.
    pub fn from_entries(entries: Vec<(String, MetadataValue)>) -> (object: Self)
        ensures
            object@ == values_of(entries@),
    {
        let ghost all = entries@;
        let mut object = MetadataObject::new();
        assert(all.take(0) =~= Seq::<(String, MetadataValue)>::empty());
        for entry in it: entries
            invariant
                it.seq() == all,
                all == entries@,
                object@ == values_of(all.take(it.index() as int)),
        {
            let ghost i = it.index() as int;
            proof {
                assert(entry == all[i]);
                assert(all.take(i + 1).drop_last() =~= all.take(i));
                assert(all.take(i + 1).last() == entry);
            }
            let (key, value) = entry;
            object = object.insert(key, value);
        }
        assert(all.take(all.len() as int) =~= all);
        object
    }
}

/// What a value holds.
pub open spec fn tree_of(value: MetadataValue) -> JsonTree
    decreases value,
{
    match value {
        MetadataValue::Null => JsonTree::Null,
        MetadataValue::Bool(flag) => JsonTree::Bool(flag),
        MetadataValue::Number(number) => JsonTree::Number(number),
        MetadataValue::Text(text) => JsonTree::Text(text@),
        MetadataValue::Array(values) => JsonTree::Array(trees_of(values@)),
        MetadataValue::Object(object) => JsonTree::Object(members_of(object.entries())),
    }
}

/// What each of the elements of an array holds.
pub open spec fn trees_of(values: Seq<MetadataValue>) -> Seq<JsonTree>
    decreases values,
{
    if values.len() == 0 {
        Seq::empty()
    } else {
        trees_of(values.drop_last()).push(tree_of(values.last()))
    }
}

/// What stands under each key of an object.
pub open spec fn members_of(entries: Seq<(String, MetadataValue)>) -> Map<Seq<char>, JsonTree>
    decreases entries,
{
    if entries.len() == 0 {
        Map::empty()
    } else {
        members_of(entries.drop_last()).insert(entries.last().0@, tree_of(entries.last().1))
    }
}

/// The compact JSON text of a value.
pub open spec fn metadata_json(value: MetadataValue) -> Seq<char> {
    tree_text(tree_of(value))
}

/// A key under which nothing may be recorded.
pub open spec fn is_banned_key(key: Seq<char>) -> bool {
    let normalized = ascii_lower(key);
    ||| has_substring(normalized, "secret"@)
    ||| has_substring(normalized, "token"@)
    ||| has_substring(normalized, "password"@)
    ||| has_substring(normalized, "credential"@)
    ||| has_substring(normalized, "api_key"@)
    ||| has_substring(normalized, "private_key"@)
    ||| has_substring(normalized, "nonce"@)
}

/// A key that may be recorded.
pub open spec fn is_safe_key(key: Seq<char>) -> bool {
    !is_banned_key(key) && !is_audit_secret(key)
}

/// A text that may be recorded.
pub open spec fn is_safe_text(text: Seq<char>) -> bool {
    byte_length(text) <= 1024 && !is_audit_secret(text)
}

/// At every depth, all keys and all texts may be recorded.
pub open spec fn is_safe(value: MetadataValue) -> bool
    decreases value,
{
    match value {
        MetadataValue::Object(object) => forall|i: int|
            0 <= i < object.entries().len() ==> is_safe_key((#[trigger] object.entries()[i]).0@)
                && is_safe(object.entries()[i].1),
        MetadataValue::Array(values) => forall|i: int|
            0 <= i < values@.len() ==> is_safe(#[trigger] values@[i]),
        MetadataValue::Text(text) => is_safe_text(text@),
        _ => true,
    }
}

/// What is wrong with a key, if anything.
pub open spec fn key_problem(key: Seq<char>) -> Option<StateErrorView> {
    if is_banned_key(key) {
        Some(StateErrorView::UnsafeAuditMetadata(key))
    } else if is_audit_secret(key) {
        Some(StateErrorView::UnsafeAuditMetadata("N6 secret key"@))
    } else {
        None
    }
}

/// What is wrong with a text, if anything.
pub open spec fn text_problem(text: Seq<char>) -> Option<StateErrorView> {
    if byte_length(text) > 1024 {
        Some(StateErrorView::UnsafeAuditMetadata("oversized string"@))
    } else if is_audit_secret(text) {
        Some(StateErrorView::UnsafeAuditMetadata("N6 secret value"@))
    } else {
        None
    }
}

/// The first thing wrong with a value when it is walked in depth, keys before
/// what they name.
pub open spec fn first_problem(value: MetadataValue) -> Option<StateErrorView>
    decreases value,
{
    match value {
        MetadataValue::Object(object) => first_entry_problem(object.entries()),
        MetadataValue::Array(values) => first_element_problem(values@),
        MetadataValue::Text(text) => text_problem(text@),
        _ => None,
    }
}

/// The first thing wrong with the entries of an object.
pub open spec fn first_entry_problem(entries: Seq<(String, MetadataValue)>) -> Option<
    StateErrorView,
>
    decreases entries,
{
    if entries.len() == 0 {
        None
    } else if key_problem(entries[0].0@) is Some {
        key_problem(entries[0].0@)
    } else if first_problem(entries[0].1) is Some {
        first_problem(entries[0].1)
    } else {
        first_entry_problem(entries.drop_first())
    }
}

/// The first thing wrong with the elements of an array.
pub open spec fn first_element_problem(values: Seq<MetadataValue>) -> Option<StateErrorView>
    decreases values,
{
    if values.len() == 0 {
        None
    } else if first_problem(values[0]) is Some {
        first_problem(values[0])
    } else {
        first_element_problem(values.drop_first())
    }
}

/// A value is accepted exactly when every key and every text in it, at every
/// depth, may be recorded.
pub proof fn law_accepted_metadata_is_safe(value: MetadataValue)
    ensures
        first_problem(value) is None <==> is_safe(value),
    decreases value,
{
    match value {
        MetadataValue::Object(object) => {
            lemma_entries_safe(object.entries());
        },
        MetadataValue::Array(values) => {
            lemma_elements_safe(values@);
        },
        _ => {},
    }
}

proof fn lemma_entries_safe(entries: Seq<(String, MetadataValue)>)
    ensures
        first_entry_problem(entries) is None <==> (forall|i: int|
            0 <= i < entries.len() ==> is_safe_key((#[trigger] entries[i]).0@) && is_safe(
                entries[i].1,
            )),
    decreases entries,
{
    if entries.len() > 0 {
        law_accepted_metadata_is_safe(entries[0].1);
        let rest = entries.drop_first();
        lemma_entries_safe(rest);
        assert forall|i: int| 0 < i < entries.len() implies #[trigger] entries[i] == rest[i - 1] by {}
        assert(forall|i: int| 0 <= i < rest.len() ==> #[trigger] rest[i] == entries[i + 1]);
    }
}

proof fn lemma_elements_safe(values: Seq<MetadataValue>)
    ensures
        first_element_problem(values) is None <==> (forall|i: int|
            0 <= i < values.len() ==> is_safe(#[trigger] values[i])),
    decreases values,
{
    if values.len() > 0 {
        law_accepted_metadata_is_safe(values[0]);
        let rest = values.drop_first();
        lemma_elements_safe(rest);
        assert forall|i: int| 0 < i < values.len() implies #[trigger] values[i] == rest[i - 1] by {}
        assert(forall|i: int| 0 <= i < rest.len() ==> #[trigger] rest[i] == values[i + 1]);
    }
}

/// Every refusal of metadata is one of unsafe metadata.
pub proof fn law_refusals_are_of_unsafe_metadata(value: MetadataValue)
    ensures
        first_problem(value) matches Some(error) ==> error is UnsafeAuditMetadata,
    decreases value,
{
    match value {
        MetadataValue::Object(object) => {
            lemma_entry_refusals(object.entries());
        },
        MetadataValue::Array(values) => {
            lemma_element_refusals(values@);
        },
        _ => {},
    }
}

proof fn lemma_entry_refusals(entries: Seq<(String, MetadataValue)>)
    ensures
        first_entry_problem(entries) matches Some(error) ==> error is UnsafeAuditMetadata,
    decreases entries,
{
    if entries.len() > 0 {
        law_refusals_are_of_unsafe_metadata(entries[0].1);
        lemma_entry_refusals(entries.drop_first());
    }
}

proof fn lemma_element_refusals(values: Seq<MetadataValue>)
    ensures
        first_element_problem(values) matches Some(error) ==> error is UnsafeAuditMetadata,
    decreases values,
{
    if values.len() > 0 {
        law_refusals_are_of_unsafe_metadata(values[0]);
        lemma_element_refusals(values.drop_first());
    }
}

/// Metadata is judged by its parts: an array is accepted exactly when each
/// element is, an object exactly when each key may be recorded and each value is
/// accepted, and a text exactly when it is short enough and holds no secret.
/// Null, flags and numbers are always accepted. The entries of an object are in
/// the order of their keys, each key once.
pub proof fn law_metadata_is_judged_by_its_parts(value: MetadataValue)
    requires
        value matches MetadataValue::Object(object) ==> is_by_key(object.entries()),
    ensures
        match value {
            MetadataValue::Array(values) => first_problem(value) is None <==> (forall|i: int|
                0 <= i < values@.len() ==> first_problem(#[trigger] values@[i]) is None),
            MetadataValue::Object(object) => first_problem(value) is None <==> (forall|
                key: Seq<char>,
            | #[trigger]
                object@.dom().contains(key) ==> !is_banned_key(key) && !is_audit_secret(key)
                    && first_problem(object@[key]) is None),
            MetadataValue::Text(text) => first_problem(value) is None <==> byte_length(text@)
                <= 1024 && !is_audit_secret(text@),
            _ => first_problem(value) is None,
        },
{
    match value {
        MetadataValue::Array(values) => {
            lemma_elements_judged(values@);
        },
        MetadataValue::Object(object) => {
            let entries = object.entries();
            lemma_entries_judged(entries);
            assert forall|key: Seq<char>| #[trigger] object@.dom().contains(key) implies exists|
                i: int,
            |
                0 <= i < entries.len() && (#[trigger] entries[i]).0@ == key && entries[i].1
                    == object@[key] by {
                lemma_value_is_entry(entries, key);
            }
            assert forall|i: int| 0 <= i < entries.len() implies object@.dom().contains(
                (#[trigger] entries[i]).0@,
            ) && object@[entries[i].0@] == entries[i].1 by {
                lemma_entry_is_value(entries, i);
            }
            if first_problem(value) is None {
                assert forall|key: Seq<char>| #[trigger]
                    object@.dom().contains(key) implies !is_banned_key(key) && !is_audit_secret(key)
                    && first_problem(object@[key]) is None by {
                    let i = choose|i: int|
                        0 <= i < entries.len() && (#[trigger] entries[i]).0@ == key && entries[i].1
                            == object@[key];
                    assert(key_problem(entries[i].0@) is None);
                }
            }
        },
        _ => {},
    }
}

proof fn lemma_elements_judged(values: Seq<MetadataValue>)
    ensures
        first_element_problem(values) is None <==> (forall|i: int|
            0 <= i < values.len() ==> first_problem(#[trigger] values[i]) is None),
    decreases values.len(),
{
    if values.len() > 0 {
        let rest = values.drop_first();
        lemma_elements_judged(rest);
        assert(forall|i: int| 0 < i < values.len() ==> #[trigger] values[i] == rest[i - 1]);
        assert(forall|i: int| 0 <= i < rest.len() ==> #[trigger] rest[i] == values[i + 1]);
    }
}

proof fn lemma_entries_judged(entries: Seq<(String, MetadataValue)>)
    ensures
        first_entry_problem(entries) is None <==> (forall|i: int|
            0 <= i < entries.len() ==> key_problem((#[trigger] entries[i]).0@) is None
                && first_problem(entries[i].1) is None),
    decreases entries.len(),
{
    if entries.len() > 0 {
        let rest = entries.drop_first();
        lemma_entries_judged(rest);
        assert(forall|i: int| 0 < i < entries.len() ==> #[trigger] entries[i] == rest[i - 1]);
        assert(forall|i: int| 0 <= i < rest.len() ==> #[trigger] rest[i] == entries[i + 1]);
    }
}

/// Each value of an object is that of an entry.
proof fn lemma_value_is_entry(entries: Seq<(String, MetadataValue)>, key: Seq<char>)
    requires
        values_of(entries).dom().contains(key),
    ensures
        exists|i: int|
            0 <= i < entries.len() && (#[trigger] entries[i]).0@ == key && entries[i].1
                == values_of(entries)[key],
    decreases entries.len(),
{
    if entries.len() > 0 {
        let shorter = entries.drop_last();
        let last = entries.last();
        if last.0@ == key {
            assert(entries[entries.len() - 1] == last);
        } else {
            lemma_value_is_entry(shorter, key);
            let i = choose|i: int|
                0 <= i < shorter.len() && (#[trigger] shorter[i]).0@ == key && shorter[i].1
                    == values_of(shorter)[key];
            assert(entries[i] == shorter[i]);
        }
    }
}

/// Each entry gives the value under its key.
proof fn lemma_entry_is_value(entries: Seq<(String, MetadataValue)>, at: int)
    requires
        is_by_key(entries),
        0 <= at < entries.len(),
    ensures
        values_of(entries).dom().contains(entries[at].0@),
        values_of(entries)[entries[at].0@] == entries[at].1,
    decreases entries.len(),
{
    if at < entries.len() - 1 {
        let shorter = entries.drop_last();
        lemma_shorter_by_key(entries);
        assert(shorter[at] == entries[at]);
        lemma_entry_is_value(shorter, at);
        lemma_text_before_irreflexive(entries[at].0@);
        assert(text_before(entries[at].0@, entries[entries.len() - 1].0@));
    }
}

fn banned_key(key: &str) -> (banned: bool)
    ensures
        banned == is_banned_key(key@),
{
    let normalized = lower(key);
    let text = normalized.as_str();
    contains_text(text, "secret") || contains_text(text, "token") || contains_text(text, "password")
        || contains_text(text, "credential") || contains_text(text, "api_key") || contains_text(
        text,
        "private_key",
    ) || contains_text(text, "nonce")
}

/// Refuses metadata that holds, at any depth, a banned key, a binding secret or
/// an oversized text, and reports the first of them.
pub fn validate_metadata(value: &MetadataValue) -> (result: Result<(), StateError>)
    ensures
        match result {
            Ok(()) => first_problem(*value) is None,
            Err(error) => first_problem(*value) == Some(error@) && error@ is UnsafeAuditMetadata,
        },
    decreases value,
{
    proof {
        law_refusals_are_of_unsafe_metadata(*value);
    }
    match value {
        MetadataValue::Object(object) => {
            let entries = object.in_order();
            assert(entries@.skip(0) =~= entries@);
            for i in 0..entries.len()
                invariant
                    *value == MetadataValue::Object(*object),
                    entries@ == object.entries(),
                    first_entry_problem(entries@) == first_entry_problem(entries@.skip(i as int)),
                    first_problem(*value) matches Some(error) ==> error is UnsafeAuditMetadata,
            {
                let entry = &entries[i];
                assert(entries@.skip(i as int)[0] == *entry);
                assert(entries@.skip(i as int).drop_first() =~= entries@.skip(i + 1));
                if banned_key(entry.0.as_str()) {
                    return Err(StateError::UnsafeAuditMetadata(entry.0.clone()));
                }
                if n6_audit_secret_value(entry.0.as_str()) {
                    return Err(StateError::UnsafeAuditMetadata("N6 secret key".to_owned()));
                }
                if let Err(error) = validate_metadata(&entry.1) {
                    return Err(error);
                }
            }
            Ok(())
        },
        MetadataValue::Array(values) => {
            assert(values@.skip(0) =~= values@);
            for i in 0..values.len()
                invariant
                    *value == MetadataValue::Array(*values),
                    first_element_problem(values@) == first_element_problem(values@.skip(i as int)),
                    first_problem(*value) matches Some(error) ==> error is UnsafeAuditMetadata,
            {
                assert(values@.skip(i as int)[0] == values@[i as int]);
                assert(values@.skip(i as int).drop_first() =~= values@.skip(i + 1));
                if let Err(error) = validate_metadata(&values[i]) {
                    return Err(error);
                }
            }
            Ok(())
        },
        MetadataValue::Text(text) => {
            if byte_len(text.as_str()) > 1024 {
                return Err(StateError::UnsafeAuditMetadata("oversized string".to_owned()));
            }
            if n6_audit_secret_value(text.as_str()) {
                return Err(StateError::UnsafeAuditMetadata("N6 secret value".to_owned()));
            }
            Ok(())
        },
        _ => Ok(()),
    }
}

/// Metadata that may be recorded.
#[derive(Debug, PartialEq, Eq)]
pub struct SanitizedMetadata {
    value: MetadataValue,
}

impl SanitizedMetadata {
    #[verifier::type_invariant]
    spec fn safe(self) -> bool {
        is_safe(self.value)
    }

    /// The metadata.
    pub closed spec fn value(self) -> MetadataValue {
        self.value
    }

    /// There is nothing in it.
    pub open spec fn is_empty_object(self) -> bool {
        self.value() matches MetadataValue::Object(object) && object.entries().len() == 0
    }

    /// Accepts metadata that holds no secrets.
    pub fn new(value: MetadataValue) -> (result: Result<Self, StateError>)
        ensures
            match result {
                Ok(accepted) => first_problem(value) is None && accepted.value() == value,
                Err(error) => first_problem(value) == Some(error@) && error@ is UnsafeAuditMetadata,
            },
    {
        validate_metadata(&value)?;
        proof {
            law_accepted_metadata_is_safe(value);
        }
        Ok(SanitizedMetadata { value })
    }

    /// No metadata: the empty object.
    pub fn empty() -> (metadata: Self)
        ensures
            metadata.is_empty_object(),
    {
        SanitizedMetadata { value: MetadataValue::Object(MetadataObject::new()) }
    }

    /// The compact JSON text of the metadata.
    pub fn json(&self) -> (result: Result<String, StateError>)
        ensures
            result matches Ok(text) && text@ == metadata_json(self.value()) && (
            self.is_empty_object() ==> text@ == "{}"@),
    {
        match value_text(&json_value(&self.value)) {
            Ok(text) => Ok(text),
            Err(error) => Err(StateError::Serialization(json_error_text(&error))),
        }
    }

    /// What is stored of the metadata presented with a redemption or a
    /// credential: nothing of it but its digest.
    pub open spec fn digest_document(self) -> Seq<char> {
        if self.is_empty_object() {
            "{}"@
        } else {
            digest_object(metadata_json(self.value()))
        }
    }

    /// What is stored of the metadata presented with a redemption or a
    /// credential: nothing of it but its digest.
    pub fn n4_digest_json(&self) -> (result: Result<String, StateError>)
        ensures
            result matches Ok(text) && text@ == self.digest_document(),
    {
        if let MetadataValue::Object(object) = &self.value {
            if object.in_order().len() == 0 {
                return Ok("{}".to_owned());
            }
        }
        let canonical = self.json()?;
        Ok(digest_object_text(canonical.as_str()))
    }
}

impl Default for SanitizedMetadata {
    fn default() -> (metadata: Self)
        ensures
            metadata.is_empty_object(),
    {
        SanitizedMetadata::empty()
    }
}

/// A JSON object that holds the digest of a text.
pub open spec fn digest_object(canonical: Seq<char>) -> Seq<char> {
    "{\"sha256\":\""@ + digest_text(encode_utf8(canonical)) + "\"}"@
}

/// A JSON object that holds the digest of a text.
pub fn digest_object_text(canonical: &str) -> (text: String)
    ensures
        text@ == digest_object(canonical@),
{
    let digest = sha256_hex(canonical.as_bytes());
    join(join("{\"sha256\":\"", digest.as_str()).as_str(), "\"}")
}

/// The same value as `serde_json` holds it.
fn json_value(value: &MetadataValue) -> (out: serde_json::Value)
    ensures
        json_tree(out) == tree_of(*value),
    decreases value,
{
    match value {
        MetadataValue::Null => null_value(),
        MetadataValue::Bool(flag) => bool_value(*flag),
        MetadataValue::Number(number) => number_value(number),
        MetadataValue::Text(text) => text_value(text.as_str()),
        MetadataValue::Array(values) => {
            let mut elements: Vec<serde_json::Value> = Vec::new();
            for i in 0..values.len()
                invariant
                    *value == MetadataValue::Array(*values),
                    json_trees(elements@) == trees_of(values@.take(i as int)),
            {
                assert(values@.take(i + 1).last() == values@[i as int]);
                assert(values@.take(i + 1).drop_last() =~= values@.take(i as int));
                assert(decreases_to!(value => value->Array_0));
                let element = json_value(&values[i]);
                let ghost before = elements@;
                elements.push(element);
                assert(json_trees(elements@) =~= json_trees(before).push(json_tree(element)));
            }
            assert(values@.take(values@.len() as int) =~= values@);
            array_value(elements)
        },
        MetadataValue::Object(object) => {
            let entries = object.in_order();
            let mut members = no_members();
            for i in 0..entries.len()
                invariant
                    *value == MetadataValue::Object(*object),
                    entries@ == object.entries(),
                    json_members(members) == members_of(entries@.take(i as int)),
            {
                let entry = &entries[i];
                assert(entries@.take(i + 1).last() == *entry);
                assert(entries@.take(i + 1).drop_last() =~= entries@.take(i as int));
                assert(decreases_to!(value => value->Object_0));
                insert_member(&mut members, entry.0.as_str(), json_value(&entry.1));
            }
            assert(entries@.take(entries@.len() as int) =~= entries@);
            object_value(members)
        },
    }
}

} // verus!
