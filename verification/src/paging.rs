//! Records in the order of their keys, and reading them page by page: each page
//! goes on where the last one ended.

use crate::text::{
    is_before, lemma_text_before_irreflexive, lemma_text_before_total,
    lemma_text_before_transitive, text_before,
};
use vstd::prelude::*;

verus! {

/// A stored record with a key, by which records are ordered.
pub trait Keyed: Sized {
    /// The key of the record.
    spec fn key(&self) -> Seq<char>;

    /// The key of the record.
    fn key_text(&self) -> (text: &str)
        ensures
            text@ == self.key(),
    ;
}

/// The key comes after the cursor, if there is a cursor.
pub open spec fn is_after(key: Seq<char>, cursor: Option<Seq<char>>) -> bool {
    match cursor {
        Some(last) => text_before(last, key),
        None => true,
    }
}

/// The cursor, as a sequence of characters.
pub open spec fn cursor_text(cursor: Option<&str>) -> Option<Seq<char>> {
    match cursor {
        Some(last) => Some(last@),
        None => None,
    }
}

/// The first of the records after the cursor, in their order, up to the limit.
pub open spec fn page_of<T: Keyed>(
    records: Seq<T>,
    cursor: Option<Seq<char>>,
    limit: nat,
) -> Seq<T>
    decreases records.len(),
{
    if records.len() == 0 {
        Seq::empty()
    } else {
        let page = page_of(records.drop_last(), cursor, limit);
        if page.len() < limit && is_after(records.last().key(), cursor) {
            page.push(records.last())
        } else {
            page
        }
    }
}

/// The first of the records after the cursor, in their order, up to the limit.
pub fn select_page<T: Keyed>(records: Vec<T>, cursor: Option<&str>, limit: usize) -> (page: Vec<T>)
    ensures
        page@ == page_of(records@, cursor_text(cursor), limit as nat),
{
    let ghost all = records@;
    let mut page: Vec<T> = Vec::new();
    assert(all.take(0) =~= Seq::<T>::empty());
    for record in it: records
        invariant
            it.seq() == all,
            all == records@,
            page@ == page_of(all.take(it.index() as int), cursor_text(cursor), limit as nat),
    {
        let ghost i = it.index() as int;
        proof {
            assert(record == all[i]);
            assert(all.take(i + 1).drop_last() =~= all.take(i));
            assert(all.take(i + 1).last() == record);
        }
        let follows = match cursor {
            Some(last) => is_before(last, record.key_text()),
            None => true,
        };
        if page.len() < limit && follows {
            page.push(record);
        }
    }
    assert(all.take(all.len() as int) =~= all);
    page
}

/// The keys of the records ascend, so that no two are the same.
pub open spec fn is_in_order<T: Keyed>(records: Seq<T>) -> bool {
    forall|i: int, j: int|
        0 <= i < j < records.len() ==> text_before(
            (#[trigger] records[i]).key(),
            (#[trigger] records[j]).key(),
        )
}

/// A page holds no more records than its limit, only records after the cursor,
/// and only records that there are.
pub proof fn law_page_is_bounded<T: Keyed>(
    records: Seq<T>,
    cursor: Option<Seq<char>>,
    limit: nat,
)
    ensures
        page_of(records, cursor, limit).len() <= limit,
        forall|i: int|
            0 <= i < page_of(records, cursor, limit).len() ==> {
                &&& is_after((#[trigger] page_of(records, cursor, limit)[i]).key(), cursor)
                &&& records.contains(page_of(records, cursor, limit)[i])
            },
    decreases records.len(),
{
    if records.len() > 0 {
        let before = records.drop_last();
        law_page_is_bounded(before, cursor, limit);
        let page = page_of(records, cursor, limit);
        assert forall|i: int| 0 <= i < page.len() implies {
            &&& is_after((#[trigger] page[i]).key(), cursor)
            &&& records.contains(page[i])
        } by {
            if i < page_of(before, cursor, limit).len() {
                assert(page[i] == page_of(before, cursor, limit)[i]);
                let j = choose|j: int| 0 <= j < before.len() && before[j] == page[i];
                assert(records[j] == page[i]);
            } else {
                assert(page[i] == records[records.len() - 1]);
            }
        }
    }
}

/// A page of records in order is in order.
pub proof fn law_page_is_in_order<T: Keyed>(
    records: Seq<T>,
    cursor: Option<Seq<char>>,
    limit: nat,
)
    requires
        is_in_order(records),
    ensures
        is_in_order(page_of(records, cursor, limit)),
    decreases records.len(),
{
    if records.len() > 0 {
        let before = records.drop_last();
        law_page_is_in_order(before, cursor, limit);
        law_page_is_bounded(before, cursor, limit);
        let page = page_of(records, cursor, limit);
        let earlier = page_of(before, cursor, limit);
        assert forall|i: int, j: int| 0 <= i < j < page.len() implies text_before(
            (#[trigger] page[i]).key(),
            (#[trigger] page[j]).key(),
        ) by {
            assert(page[i] == earlier[i]);
            if j < earlier.len() {
                assert(page[j] == earlier[j]);
            } else {
                assert(before.contains(earlier[i]));
                let k = choose|k: int| 0 <= k < before.len() && before[k] == earlier[i];
                assert(records[k] == page[i]);
                assert(records[records.len() - 1] == page[j]);
            }
        }
    }
}

/// A page that is not full stays the same under a larger limit.
proof fn lemma_unfilled_page<T: Keyed>(
    records: Seq<T>,
    cursor: Option<Seq<char>>,
    limit: nat,
    more: nat,
)
    requires
        page_of(records, cursor, limit).len() < limit,
    ensures
        page_of(records, cursor, limit + more) == page_of(records, cursor, limit),
    decreases records.len(),
{
    if records.len() > 0 {
        lemma_unfilled_page(records.drop_last(), cursor, limit, more);
    }
}

/// No record in order comes after the last.
proof fn lemma_nothing_after_last<T: Keyed>(records: Seq<T>, last: Seq<char>, limit: nat)
    requires
        forall|i: int| 0 <= i < records.len() ==> !text_before(last, (#[trigger] records[i]).key()),
    ensures
        page_of(records, Some(last), limit) == Seq::<T>::empty(),
    decreases records.len(),
{
    if records.len() > 0 {
        lemma_nothing_after_last(records.drop_last(), last, limit);
    }
}

/// Reading on from the last record of a page goes on exactly where the page
/// ended: both pages together are the page of both limits, so no record is
/// skipped and none comes twice.
pub proof fn law_pages_join<T: Keyed>(
    records: Seq<T>,
    cursor: Option<Seq<char>>,
    limit: nat,
    more: nat,
)
    requires
        is_in_order(records),
        page_of(records, cursor, limit).len() > 0,
    ensures
        page_of(records, cursor, limit) + page_of(
            records,
            Some(page_of(records, cursor, limit).last().key()),
            more,
        ) == page_of(records, cursor, limit + more),
    decreases records.len(),
{
    let before = records.drop_last();
    let page = page_of(records, cursor, limit);
    let earlier = page_of(before, cursor, limit);
    let next = records.last();
    law_page_is_bounded(before, cursor, limit);
    if earlier.len() < limit && is_after(next.key(), cursor) {
        lemma_unfilled_page(before, cursor, limit, more);
        assert forall|i: int| 0 <= i < records.len() implies !text_before(
            next.key(),
            (#[trigger] records[i]).key(),
        ) by {
            lemma_text_before_irreflexive(next.key());
            if i < records.len() - 1 && text_before(next.key(), records[i].key()) {
                assert(text_before(records[i].key(), records[records.len() - 1].key()));
                lemma_text_before_transitive(next.key(), records[i].key(), next.key());
            }
        }
        lemma_nothing_after_last(records, next.key(), more);
        assert(page + Seq::<T>::empty() =~= page);
    } else {
        assert(page == earlier);
        law_pages_join(before, cursor, limit, more);
        let last = earlier.last();
        assert(before.contains(last));
        let k = choose|k: int| 0 <= k < before.len() && before[k] == last;
        assert(records[k] == last);
        assert(text_before(last.key(), records[records.len() - 1].key()));
        if cursor is Some {
            lemma_text_before_transitive(cursor->Some_0, last.key(), next.key());
        }
        assert(is_after(next.key(), cursor));
        let rest = page_of(before, Some(last.key()), more);
        assert(earlier + rest.push(next) =~= (earlier + rest).push(next));
    }
}

/// A page of a page is the page itself.
pub proof fn law_page_of_page<T: Keyed>(
    records: Seq<T>,
    cursor: Option<Seq<char>>,
    limit: nat,
)
    ensures
        page_of(page_of(records, cursor, limit), cursor, limit) == page_of(records, cursor, limit),
    decreases records.len(),
{
    if records.len() > 0 {
        let before = records.drop_last();
        let earlier = page_of(before, cursor, limit);
        law_page_of_page(before, cursor, limit);
        if earlier.len() < limit && is_after(records.last().key(), cursor) {
            assert(earlier.push(records.last()).drop_last() =~= earlier);
        }
    }
}

/// The list with one more record: behind those whose keys its own does not come
/// before.
pub open spec fn placed_by_key<T: Keyed>(list: Seq<T>, record: T) -> Seq<T>
    decreases list.len(),
{
    if list.len() > 0 && text_before(record.key(), list.last().key()) {
        placed_by_key(list.drop_last(), record).push(list.last())
    } else {
        list.push(record)
    }
}

/// The records in the order of their keys.
pub open spec fn by_key<T: Keyed>(records: Seq<T>) -> Seq<T>
    decreases records.len(),
{
    if records.len() == 0 {
        Seq::empty()
    } else {
        placed_by_key(by_key(records.drop_last()), records.last())
    }
}

/// Where a record is placed in a list.
proof fn lemma_placed_by_key<T: Keyed>(list: Seq<T>, record: T, at: int)
    requires
        0 <= at <= list.len(),
        forall|i: int| at <= i < list.len() ==> text_before(record.key(), (#[trigger] list[i]).key()),
        at > 0 ==> !text_before(record.key(), list[at - 1].key()),
    ensures
        placed_by_key(list, record) == list.insert(at, record),
    decreases list.len(),
{
    if at == list.len() {
        assert(list.insert(at, record) =~= list.push(record));
    } else {
        let shorter = list.drop_last();
        assert(list[list.len() - 1] == list.last());
        assert forall|i: int| at <= i < shorter.len() implies text_before(
            record.key(),
            (#[trigger] shorter[i]).key(),
        ) by {
            assert(shorter[i] == list[i]);
        }
        lemma_placed_by_key(shorter, record, at);
        assert(shorter.insert(at, record).push(list.last()) =~= list.insert(at, record));
    }
}

/// Puts records into the order of their keys.
pub fn order_by_key<T: Keyed>(records: Vec<T>) -> (list: Vec<T>)
    ensures
        list@ == by_key(records@),
{
    let ghost all = records@;
    let mut list: Vec<T> = Vec::new();
    assert(all.take(0) =~= Seq::<T>::empty());
    for record in it: records
        invariant
            it.seq() == all,
            all == records@,
            list@ == by_key(all.take(it.index() as int)),
    {
        let ghost i = it.index() as int;
        proof {
            assert(record == all[i]);
            assert(all.take(i + 1).drop_last() =~= all.take(i));
            assert(all.take(i + 1).last() == record);
        }
        let mut at: usize = list.len();
        while at > 0 && is_before(record.key_text(), list[at - 1].key_text())
            invariant
                at <= list@.len(),
                forall|j: int|
                    at <= j < list@.len() ==> text_before(
                        record.key(),
                        (#[trigger] list@[j]).key(),
                    ),
            decreases at,
        {
            at = at - 1;
        }
        proof {
            lemma_placed_by_key(list@, record, at as int);
        }
        list.insert(at, record);
    }
    assert(all.take(all.len() as int) =~= all);
    list
}

/// No key comes before one that stands earlier.
pub open spec fn is_by_key<T: Keyed>(list: Seq<T>) -> bool {
    forall|i: int, j: int|
        0 <= i < j < list.len() ==> !text_before(
            (#[trigger] list[j]).key(),
            (#[trigger] list[i]).key(),
        )
}

proof fn lemma_placed_is_by_key<T: Keyed>(list: Seq<T>, record: T)
    requires
        is_by_key(list),
    ensures
        is_by_key(placed_by_key(list, record)),
        placed_by_key(list, record).to_multiset() == list.to_multiset().insert(record),
    decreases list.len(),
{
    broadcast use vstd::seq_lib::group_to_multiset_ensures;

    let after = placed_by_key(list, record);
    if list.len() > 0 && text_before(record.key(), list.last().key()) {
        let shorter = list.drop_last();
        let last = list.last();
        let earlier = placed_by_key(shorter, record);
        assert(is_by_key(shorter)) by {
            assert forall|i: int, j: int| 0 <= i < j < shorter.len() implies !text_before(
                (#[trigger] shorter[j]).key(),
                (#[trigger] shorter[i]).key(),
            ) by {
                assert(shorter[i] == list[i] && shorter[j] == list[j]);
            }
        }
        lemma_placed_is_by_key(shorter, record);
        assert(list =~= shorter.push(last));
        assert(after.to_multiset() =~= list.to_multiset().insert(record));
        assert forall|i: int, j: int| 0 <= i < j < after.len() implies !text_before(
            (#[trigger] after[j]).key(),
            (#[trigger] after[i]).key(),
        ) by {
            assert(after[i] == earlier[i]);
            if j < earlier.len() {
                assert(after[j] == earlier[j]);
            } else {
                assert(earlier.contains(earlier[i]));
                assert(earlier.to_multiset().count(earlier[i]) > 0);
                if earlier[i] == record {
                    if text_before(last.key(), record.key()) {
                        lemma_text_before_transitive(record.key(), last.key(), record.key());
                        lemma_text_before_irreflexive(record.key());
                    }
                } else {
                    assert(shorter.to_multiset().count(earlier[i]) > 0);
                    assert(shorter.contains(earlier[i]));
                    let k = choose|k: int| 0 <= k < shorter.len() && shorter[k] == earlier[i];
                    assert(list[k] == earlier[i] && list[list.len() - 1] == last);
                }
            }
        }
    } else {
        assert forall|i: int, j: int| 0 <= i < j < after.len() implies !text_before(
            (#[trigger] after[j]).key(),
            (#[trigger] after[i]).key(),
        ) by {
            assert(after[i] == list[i]);
            if j < list.len() {
                assert(after[j] == list[j]);
            } else if text_before(record.key(), list[i].key()) && i < list.len() - 1 {
                let last = list[list.len() - 1];
                lemma_text_before_total(list[i].key(), last.key());
                if text_before(list[i].key(), last.key()) {
                    lemma_text_before_transitive(record.key(), list[i].key(), last.key());
                }
            }
        }
    }
}

/// Ordering records by their keys puts them in order, and keeps each as often as
/// it is there.
pub proof fn law_order_by_key<T: Keyed>(records: Seq<T>)
    ensures
        is_by_key(by_key(records)),
        by_key(records).to_multiset() == records.to_multiset(),
    decreases records.len(),
{
    broadcast use vstd::seq_lib::group_to_multiset_ensures;

    if records.len() > 0 {
        let fewer = records.drop_last();
        law_order_by_key(fewer);
        lemma_placed_is_by_key(by_key(fewer), records.last());
        assert(records =~= fewer.push(records.last()));
    }
}

} // verus!
