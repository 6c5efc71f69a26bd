//! Lists kept in ascending order of a key, where entries of equal key stay
//! in the order in which they came.
//!
//! Every entry carries a serial number, handed out in ascending order, which
//! is its identity. A list is in order when each entry precedes every later
//! one by key and, among equal keys, by serial number. A new entry, whose
//! serial number is above all those in the list, therefore belongs before
//! the first entry whose key is strictly greater than its own.

use vstd::prelude::*;

verus! {

/// An entry that is found again by its serial number.
pub trait Identified: Sized {
    /// The serial number of the entry.
    spec fn serial(&self) -> u64;

    fn get_serial(&self) -> (serial: u64)
        ensures
            serial == self.serial(),
    ;
}

/// An entry of an ordered list.
pub trait Ordered: Identified {
    /// The key by which the list is ordered, lower first.
    spec fn key(&self) -> i32;

    fn get_key(&self) -> (key: i32)
        ensures
            key == self.key(),
    ;
}

/// Whether `a` stands strictly before `b`: by key, then by serial number.
pub open spec fn precedes<T: Ordered>(a: T, b: T) -> bool {
    a.key() < b.key() || (a.key() == b.key() && a.serial() < b.serial())
}

/// Whether every entry of `s` precedes every later one and no serial number
/// occurs twice.
pub open spec fn in_order<T: Ordered>(s: Seq<T>) -> bool {
    forall|i: int, j: int|
        0 <= i < j < s.len() ==> precedes(#[trigger] s[i], #[trigger] s[j]) && s[i].serial()
            != s[j].serial()
}

/// Whether every serial number in `s` is below `limit`.
pub open spec fn serials_below<T: Identified>(s: Seq<T>, limit: u64) -> bool {
    forall|i: int| 0 <= i < s.len() ==> (#[trigger] s[i]).serial() < limit
}

/// The first position in `s` whose key is strictly greater than `key`, or
/// the length of `s` if there is none.
pub open spec fn first_greater<T: Ordered>(s: Seq<T>, key: i32) -> int
    decreases s.len(),
{
    if s.len() == 0 {
        0
    } else if s[0].key() > key {
        0
    } else {
        1 + first_greater(s.drop_first(), key)
    }
}

/// The first position in `s` that holds the serial number `serial`, or the
/// length of `s` if there is none.
pub open spec fn position_of<T: Identified>(s: Seq<T>, serial: u64) -> int
    decreases s.len(),
{
    if s.len() == 0 {
        0
    } else if s[0].serial() == serial {
        0
    } else {
        1 + position_of(s.drop_first(), serial)
    }
}

/// Whether `s` holds the serial number `serial`.
pub open spec fn holds<T: Identified>(s: Seq<T>, serial: u64) -> bool {
    position_of(s, serial) < s.len()
}

/// `s` with `item` put in its place.
pub open spec fn with_entry<T: Ordered>(s: Seq<T>, item: T) -> Seq<T> {
    s.insert(first_greater(s, item.key()), item)
}

/// `s` without the entry that holds the serial number `serial`.
pub open spec fn without_entry<T: Identified>(s: Seq<T>, serial: u64) -> Seq<T> {
    if holds(s, serial) {
        s.remove(position_of(s, serial))
    } else {
        s
    }
}

/// `first_greater` is within bounds, everything before it has a key of at
/// most `key`, and what stands at it has a greater one.
pub proof fn lemma_first_greater<T: Ordered>(s: Seq<T>, key: i32)
    ensures
        0 <= first_greater(s, key) <= s.len(),
        forall|j: int| 0 <= j < first_greater(s, key) ==> (#[trigger] s[j]).key() <= key,
        first_greater(s, key) < s.len() ==> s[first_greater(s, key)].key() > key,
    decreases s.len(),
{
    if s.len() > 0 && s[0].key() <= key {
        let rest = s.drop_first();
        lemma_first_greater(rest, key);
        let k = first_greater(rest, key);
        assert forall|j: int| 0 <= j < k + 1 implies (#[trigger] s[j]).key() <= key by {
            if j > 0 {
                assert(s[j] == rest[j - 1]);
            }
        }
        if k < rest.len() {
        }
    }
}

/// A position with the two properties of `first_greater` is `first_greater`.
pub proof fn lemma_first_greater_is<T: Ordered>(s: Seq<T>, key: i32, k: int)
    requires
        0 <= k <= s.len(),
        forall|j: int| 0 <= j < k ==> (#[trigger] s[j]).key() <= key,
        k < s.len() ==> s[k].key() > key,
    ensures
        first_greater(s, key) == k,
    decreases s.len(),
{
    if s.len() > 0 && k > 0 {
        let rest = s.drop_first();
        if k - 1 < rest.len() {
        }
        lemma_first_greater_is(rest, key, k - 1);
    }
}

/// `position_of` is within bounds, nothing before it holds `serial`, and
/// what stands at it does.
pub proof fn lemma_position_of<T: Identified>(s: Seq<T>, serial: u64)
    ensures
        0 <= position_of(s, serial) <= s.len(),
        forall|j: int| 0 <= j < position_of(s, serial) ==> (#[trigger] s[j]).serial() != serial,
        position_of(s, serial) < s.len() ==> s[position_of(s, serial)].serial() == serial,
    decreases s.len(),
{
    if s.len() > 0 && s[0].serial() != serial {
        let rest = s.drop_first();
        lemma_position_of(rest, serial);
        let k = position_of(rest, serial);
        assert forall|j: int| 0 <= j < k + 1 implies (#[trigger] s[j]).serial() != serial by {
            if j > 0 {
                assert(s[j] == rest[j - 1]);
            }
        }
        if k < rest.len() {
        }
    }
}

/// A position with the two properties of `position_of` is `position_of`.
pub proof fn lemma_position_of_is<T: Identified>(s: Seq<T>, serial: u64, k: int)
    requires
        0 <= k <= s.len(),
        forall|j: int| 0 <= j < k ==> (#[trigger] s[j]).serial() != serial,
        k < s.len() ==> s[k].serial() == serial,
    ensures
        position_of(s, serial) == k,
    decreases s.len(),
{
    if s.len() > 0 && k > 0 {
        let rest = s.drop_first();
        if k - 1 < rest.len() {
        }
        lemma_position_of_is(rest, serial, k - 1);
    }
}

/// Putting an entry with a new, higher serial number in its place keeps the
/// list in order: the entry comes after all entries of equal key.
pub proof fn lemma_with_entry_in_order<T: Ordered>(s: Seq<T>, item: T)
    requires
        in_order(s),
        serials_below(s, item.serial()),
        item.serial() < u64::MAX,
    ensures
        in_order(with_entry(s, item)),
        serials_below(with_entry(s, item), (item.serial() + 1) as u64),
        forall|j: int|
            0 <= j < first_greater(s, item.key()) ==> precedes(
                #[trigger] with_entry(s, item)[j],
                item,
            ),
{
    lemma_first_greater(s, item.key());
    let k = first_greater(s, item.key());
    let t = with_entry(s, item);
}

/// Taking an entry out keeps the list in order.
pub proof fn lemma_without_entry_in_order<T: Ordered>(s: Seq<T>, serial: u64, limit: u64)
    requires
        in_order(s),
        serials_below(s, limit),
    ensures
        in_order(without_entry(s, serial)),
        serials_below(without_entry(s, serial), limit),
        !holds(without_entry(s, serial), serial),
{
    lemma_position_of(s, serial);
    let k = position_of(s, serial);
    let t = without_entry(s, serial);
    if k < s.len() {
        lemma_position_of_is(t, serial, t.len() as int);
    } else {
    }
}

/// Puts `item` into `list` before the first entry whose key is strictly
/// greater than its own, and answers where.
pub fn insert_in_order<T: Ordered>(list: &mut Vec<T>, item: T) -> (index: usize)
    ensures
        index == first_greater(old(list)@, item.key()),
        final(list)@ == with_entry(old(list)@, item),
{
    let key = item.get_key();
    let mut index: usize = 0;
    loop
        invariant_except_break
            index <= list.len(),
            forall|j: int| 0 <= j < index ==> (#[trigger] list@[j]).key() <= key,
        ensures
            index <= list.len(),
            forall|j: int| 0 <= j < index ==> (#[trigger] list@[j]).key() <= key,
            index < list.len() ==> list@[index as int].key() > key,
        decreases list.len() - index,
    {
        if index >= list.len() {
            break ;
        }
        if list[index].get_key() > key {
            break ;
        }
        index += 1;
    }
    proof {
        lemma_first_greater_is(list@, key, index as int);
    }
    list.insert(index, item);
    index
}

/// The first position in `list` that holds the serial number `serial`, or
/// the length of `list` if there is none.
pub fn find_serial<T: Identified>(list: &Vec<T>, serial: u64) -> (index: usize)
    ensures
        index == position_of(list@, serial),
        index <= list@.len(),
{
    let mut index: usize = 0;
    loop
        invariant_except_break
            index <= list.len(),
            forall|j: int| 0 <= j < index ==> (#[trigger] list@[j]).serial() != serial,
        ensures
            index <= list.len(),
            forall|j: int| 0 <= j < index ==> (#[trigger] list@[j]).serial() != serial,
            index < list.len() ==> list@[index as int].serial() == serial,
        decreases list.len() - index,
    {
        if index >= list.len() {
            break ;
        }
        if list[index].get_serial() == serial {
            break ;
        }
        index += 1;
    }
    proof {
        lemma_position_of_is(list@, serial, index as int);
    }
    index
}

} // verus!
