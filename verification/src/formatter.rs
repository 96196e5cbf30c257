//! Counting stack traces by their folded key, and writing the counts out.
use vstd::prelude::*;
use vstd::string::StringExecFns;
use vstd::utf8::encode_utf8;
use crate::error::BackendError;
use crate::frame::{decimal, folded_key_of, push_decimal, StackFrame, StackTrace};
use crate::writer::RbspyWriter;

verus! {

/// Whether some entry of `table` has the key `key`.
pub open spec fn has_key(table: Seq<(Seq<char>, nat)>, key: Seq<char>) -> bool {
    exists|i: int| 0 <= i < table.len() && (#[trigger] table[i]).0 == key
}

/// The place of an entry with the key `key`, where there is one.
pub open spec fn key_index(table: Seq<(Seq<char>, nat)>, key: Seq<char>) -> int {
    choose|i: int| 0 <= i < table.len() && (#[trigger] table[i]).0 == key
}

/// How often `key` was counted: the count of its entry, or 0 without one.
pub open spec fn count_of(table: Seq<(Seq<char>, nat)>, key: Seq<char>) -> nat {
    if has_key(table, key) {
        table[key_index(table, key)].1
    } else {
        0
    }
}

/// No key stands in two entries.
pub open spec fn distinct_keys(table: Seq<(Seq<char>, nat)>) -> bool {
    forall|i: int, j: int|
        0 <= i < j < table.len() ==> (#[trigger] table[i]).0 != (#[trigger] table[j]).0
}

/// The table after one more occurrence of `key`: its entry counts one more
/// and stays where it is, or a new entry with count 1 is added at the end.
pub open spec fn bump(table: Seq<(Seq<char>, nat)>, key: Seq<char>) -> Seq<(Seq<char>, nat)> {
    if has_key(table, key) {
        let i = key_index(table, key);
        table.update(i, (key, table[i].1 + 1))
    } else {
        table.push((key, 1))
    }
}

/// The table that counting `keys` one after the other leaves: one entry for
/// each distinct key, in the order in which the keys were first seen.
pub open spec fn tally(keys: Seq<Seq<char>>) -> Seq<(Seq<char>, nat)>
    decreases keys.len(),
{
    if keys.len() == 0 {
        Seq::<(Seq<char>, nat)>::empty()
    } else {
        bump(tally(keys.drop_last()), keys.last())
    }
}

/// How often `key` stands in `keys`.
pub open spec fn occurrences(keys: Seq<Seq<char>>, key: Seq<char>) -> nat
    decreases keys.len(),
{
    if keys.len() == 0 {
        0
    } else {
        occurrences(keys.drop_last(), key) + if keys.last() == key {
            1nat
        } else {
            0nat
        }
    }
}

/// The folded keys of `traces`, in the same order.
pub open spec fn folded_keys(traces: Seq<StackTrace>) -> Seq<Seq<char>> {
    traces.map_values(|t: StackTrace| folded_key_of(t.trace@))
}

/// One line of the report: the key, a space, the count and a line feed.
pub open spec fn entry_line(entry: (Seq<char>, nat)) -> Seq<char> {
    entry.0 + seq![' '] + decimal(entry.1) + seq!['\n']
}

/// The report for `table`: the lines of its entries in order. Empty for an
/// empty table.
pub open spec fn report_text(table: Seq<(Seq<char>, nat)>) -> Seq<char>
    decreases table.len(),
{
    if table.len() == 0 {
        Seq::<char>::empty()
    } else {
        report_text(table.drop_last()) + entry_line(table.last())
    }
}

/// The report for `table` as UTF-8.
pub open spec fn report_bytes(table: Seq<(Seq<char>, nat)>) -> Seq<u8> {
    encode_utf8(report_text(table))
}

/// The UTF-8 encoding of a concatenation is the concatenation of the
/// encodings.
pub proof fn lemma_encode_utf8_concat(a: Seq<char>, b: Seq<char>)
    ensures
        encode_utf8(a + b) == encode_utf8(a) + encode_utf8(b),
    decreases a.len(),
{
    if a.len() == 0 {
        assert(a + b =~= b);
        assert(encode_utf8(a) + encode_utf8(b) =~= encode_utf8(b));
    } else {
        lemma_encode_utf8_concat(a.drop_first(), b);
        assert((a + b).drop_first() =~= a.drop_first() + b);
        assert((a + b)[0] == a[0]);
        assert(encode_utf8(a + b) =~= encode_utf8(a) + encode_utf8(b));
    }
}

/// Among distinct keys an entry with the key `key` is the entry that
/// `key_index` names.
pub proof fn lemma_key_index(table: Seq<(Seq<char>, nat)>, key: Seq<char>, i: int)
    requires
        distinct_keys(table),
        0 <= i < table.len(),
        table[i].0 == key,
    ensures
        has_key(table, key),
        key_index(table, key) == i,
{
    let k = key_index(table, key);
    if k < i {
        assert(table[k].0 != table[i].0);
    } else if k > i {
        assert(table[i].0 != table[k].0);
    }
}

/// Counting one more occurrence keeps the keys distinct, raises the count of
/// the counted key by one and leaves every other count as it was.
pub proof fn lemma_bump_counts(table: Seq<(Seq<char>, nat)>, key: Seq<char>, other: Seq<char>)
    requires
        distinct_keys(table),
    ensures
        distinct_keys(bump(table, key)),
        count_of(bump(table, key), key) == count_of(table, key) + 1,
        other != key ==> count_of(bump(table, key), other) == count_of(table, other),
{
    let after = bump(table, key);
    let at = if has_key(table, key) {
        key_index(table, key)
    } else {
        table.len() as int
    };
    // The two tables agree on every key but at `at`, where `after` has `key`.
    assert forall|a: int| 0 <= a < table.len() && a != at implies #[trigger] after[a]
        == table[a] by {}
    assert forall|a: int| 0 <= a < table.len() implies #[trigger] table[a].0 == after[a].0 by {}
    assert forall|a: int, b: int| 0 <= a < b < after.len() implies (#[trigger] after[a]).0 != (
    #[trigger] after[b]).0 by {
        if b < table.len() {
            assert(table[a].0 != table[b].0);
        } else {
            assert(table[a].0 == after[a].0);
        }
    }
    lemma_key_index(after, key, at);
    if other != key {
        if has_key(table, other) {
            let o = key_index(table, other);
            assert(table[o].0 == after[o].0);
            lemma_key_index(after, other, o);
        } else if has_key(after, other) {
            let k = key_index(after, other);
            assert(table[k].0 == after[k].0);
        }
    }
}

/// A tally has distinct keys, and every entry counts at least one
/// occurrence.
pub proof fn lemma_tally_distinct(keys: Seq<Seq<char>>)
    ensures
        distinct_keys(tally(keys)),
        forall|i: int| 0 <= i < tally(keys).len() ==> (#[trigger] tally(keys)[i]).1 >= 1,
    decreases keys.len(),
{
    if keys.len() > 0 {
        let before = tally(keys.drop_last());
        lemma_tally_distinct(keys.drop_last());
        lemma_bump_counts(before, keys.last(), keys.last());
        let after = tally(keys);
        assert forall|i: int| 0 <= i < after.len() implies (#[trigger] after[i]).1 >= 1 by {
            if i < before.len() {
                assert(before[i].1 >= 1);
            }
        }
    }
}

/// A tally counts each key as often as it stands among the keys counted: a
/// key that was never counted has no entry, and a key counted `n` times has
/// one entry with the count `n`.
pub proof fn lemma_tally_counts(keys: Seq<Seq<char>>, key: Seq<char>)
    ensures
        count_of(tally(keys), key) == occurrences(keys, key),
        occurrences(keys, key) <= keys.len(),
        has_key(tally(keys), key) <==> occurrences(keys, key) > 0,
    decreases keys.len(),
{
    if keys.len() > 0 {
        lemma_tally_distinct(keys.drop_last());
        lemma_tally_distinct(keys);
        lemma_tally_counts(keys.drop_last(), key);
        lemma_bump_counts(tally(keys.drop_last()), keys.last(), key);
    }
    if has_key(tally(keys), key) {
        let i = key_index(tally(keys), key);
        assert(tally(keys)[i].1 >= 1);
    }
}

/// Nothing counted gives the empty report: no text and no bytes.
pub proof fn lemma_report_of_nothing()
    ensures
        tally(Seq::<Seq<char>>::empty()) == Seq::<(Seq<char>, nat)>::empty(),
        report_text(tally(Seq::<Seq<char>>::empty())) == Seq::<char>::empty(),
        report_bytes(tally(Seq::<Seq<char>>::empty())) == Seq::<u8>::empty(),
{
    assert(encode_utf8(Seq::<char>::empty()) =~= Seq::<u8>::empty());
}

/// One key counted once and another counted twice give two lines and
/// nothing else: the first key with the count 1, then the second with the
/// count 2.
pub proof fn lemma_report_one_and_two(first: Seq<char>, second: Seq<char>)
    requires
        first != second,
    ensures
        tally(seq![first, second, second]) == seq![(first, 1nat), (second, 2nat)],
        report_text(tally(seq![first, second, second])) == first + seq![' ', '1', '\n'] + second
            + seq![' ', '2', '\n'],
{
    let none = Seq::<Seq<char>>::empty();
    let one = seq![first];
    let two = seq![first, second];
    let three = seq![first, second, second];
    assert(one.drop_last() =~= none);
    assert(two.drop_last() =~= one);
    assert(three.drop_last() =~= two);
    let t1 = seq![(first, 1nat)];
    let t2 = seq![(first, 1nat), (second, 1nat)];
    let t3 = seq![(first, 1nat), (second, 2nat)];
    assert(tally(none) =~= Seq::<(Seq<char>, nat)>::empty());
    assert(!has_key(tally(none), first));
    assert(tally(one) =~= t1);
    assert(!has_key(t1, second));
    assert(tally(two) =~= t2);
    lemma_key_index(t2, second, 1);
    assert(tally(three) =~= t3);
    assert(t3.drop_last() =~= t1);
    assert(t1.drop_last() =~= Seq::<(Seq<char>, nat)>::empty());
    assert(decimal(1) =~= seq!['1']);
    assert(decimal(2) =~= seq!['2']);
    assert(report_text(t1.drop_last()) =~= Seq::<char>::empty());
    assert(entry_line(t1.last()) =~= first + seq![' ', '1', '\n']);
    assert(entry_line(t3.last()) =~= second + seq![' ', '2', '\n']);
    assert(report_text(t1) =~= first + seq![' ', '1', '\n']);
    assert(report_text(t3) =~= first + seq![' ', '1', '\n'] + second + seq![' ', '2', '\n']);
}

/// The occurrence counts of the folded keys seen so far.
///
/// Each key has one entry. The entries stand in the order in which their
/// keys were first recorded, and the report lists them in that order.
#[derive(Debug)]
pub struct RbspyFormatter(Vec<(String, usize)>);

impl View for RbspyFormatter {
    type V = Seq<(Seq<char>, nat)>;

    /// The entries as pairs of key and count.
    closed spec fn view(&self) -> Seq<(Seq<char>, nat)> {
        Seq::new(self.0@.len(), |i: int| (self.0@[i].0@, self.0@[i].1 as nat))
    }
}

impl Default for RbspyFormatter {
    /// A table without entries.
    fn default() -> (f: RbspyFormatter)
        ensures
            f@ == Seq::<(Seq<char>, nat)>::empty(),
            f.wf(),
    {
        let f = RbspyFormatter(Vec::new());
        assert(f@ =~= Seq::<(Seq<char>, nat)>::empty());
        f
    }
}

impl RbspyFormatter {
    /// No key stands in two entries, and every entry counts at least one
    /// occurrence.
    pub open spec fn wf(&self) -> bool {
        &&& distinct_keys(self@)
        &&& forall|i: int| 0 <= i < self@.len() ==> (#[trigger] self@[i]).1 >= 1
    }

    /// How often the key `key` was recorded: 0 if it never was.
    pub fn count(&self, key: &String) -> (n: usize)
        requires
            self.wf(),
        ensures
            n == count_of(self@, key@),
    {
        let len = self.0.len();
        let mut i: usize = 0;
        while i < len
            invariant
                i <= len,
                len == self.0@.len(),
                self.wf(),
                forall|j: int| 0 <= j < i ==> (#[trigger] self@[j]).0 != key@,
            decreases len - i,
        {
            if self.0[i].0 == *key {
                proof {
                    lemma_key_index(self@, key@, i as int);
                }
                return self.0[i].1;
            }
            i += 1;
        }
        proof {
            if has_key(self@, key@) {
                assert(self@[key_index(self@, key@)].0 == key@);
            }
        }
        0
    }

    /// Counts one occurrence of the folded key of `stack`.
    ///
    /// The count of a key cannot pass `usize::MAX`.
    pub fn record(&mut self, stack: &StackTrace) -> (r: Result<(), BackendError>)
        requires
            old(self).wf(),
            count_of(old(self)@, folded_key_of(stack.trace@)) < usize::MAX,
        ensures
            r is Ok,
            final(self).wf(),
            final(self)@ == bump(old(self)@, folded_key_of(stack.trace@)),
    {
        let key = stack.folded_key();
        let n = self.0.len();
        let mut i: usize = 0;
        while i < n
            invariant
                i <= n,
                n == self.0@.len(),
                *self == *old(self),
                self.wf(),
                key@ == folded_key_of(stack.trace@),
                count_of(self@, key@) < usize::MAX,
                forall|j: int| 0 <= j < i ==> (#[trigger] self@[j]).0 != key@,
            decreases n - i,
        {
            if self.0[i].0 == key {
                let count: usize = self.0[i].1;
                proof {
                    lemma_key_index(self@, key@, i as int);
                    lemma_bump_counts(self@, key@, key@);
                }
                self.0.set(i, (key, count + 1));
                proof {
                    assert(self@ =~= bump(old(self)@, key@));
                    assert forall|j: int| 0 <= j < self@.len() implies (#[trigger] self@[j]).1
                        >= 1 by {
                        assert(old(self)@[j].1 >= 1);
                    }
                }
                return Ok(());
            }
            i += 1;
        }
        proof {
            if has_key(self@, key@) {
                assert(self@[key_index(self@, key@)].0 == key@);
            }
            lemma_bump_counts(self@, key@, key@);
        }
        self.0.push((key, 1));
        proof {
            assert(self@ =~= bump(old(self)@, key@));
            assert forall|j: int| 0 <= j < self@.len() implies (#[trigger] self@[j]).1 >= 1 by {
                if j < old(self)@.len() {
                    assert(old(self)@[j].1 >= 1);
                }
            }
        }
        Ok(())
    }

    /// Writes one line for each entry to `writer`: the key, a space, the
    /// count and a line feed. Nothing is written for a table without
    /// entries. The lines are staged in the writer, not flushed.
    pub fn complete(&mut self, writer: &mut RbspyWriter) -> (r: Result<(), BackendError>)
        ensures
            r is Ok,
            *final(self) == *old(self),
            final(writer).staged() == old(writer).staged() + report_bytes(old(self)@),
            old(self)@.len() == 0 ==> final(writer).staged() == old(writer).staged(),
            final(writer).committed() == old(writer).committed(),
            *final(final(writer).buffer) == *final(old(writer).buffer),
    {
        let n = self.0.len();
        let mut i: usize = 0;
        assert(self@.subrange(0, 0) =~= Seq::<(Seq<char>, nat)>::empty());
        assert(writer.staged() =~= old(writer).staged() + report_bytes(self@.subrange(0, 0)));
        while i < n
            invariant
                i <= n,
                n == self.0@.len(),
                n == self@.len(),
                *self == *old(self),
                writer.staged() == old(writer).staged() + report_bytes(
                    self@.subrange(0, i as int),
                ),
                writer.committed() == old(writer).committed(),
                *final(writer.buffer) == *final(old(writer).buffer),
            decreases n - i,
        {
            let mut line = String::new();
            line.append(self.0[i].0.as_str());
            line.append(" ");
            push_decimal(&mut line, self.0[i].1);
            line.append("\n");
            let _ = writer.write(line.as_str().as_bytes());
            proof {
                reveal_strlit(" ");
                reveal_strlit("\n");
                let before = self@.subrange(0, i as int);
                let now = self@.subrange(0, i + 1);
                assert(line@ =~= entry_line(self@[i as int]));
                assert(now.drop_last() =~= before);
                assert(now.last() == self@[i as int]);
                lemma_encode_utf8_concat(report_text(before), entry_line(self@[i as int]));
                assert(writer.staged() =~= old(writer).staged() + report_bytes(now));
            }
            i += 1;
        }
        assert(self@.subrange(0, n as int) =~= self@);
        Ok(())
    }
}

} // verus!
