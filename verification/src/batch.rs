//! Splitting a list of symbols into groups that a venue takes in one subscription.

use vstd::prelude::*;
use crate::text::texts;

verus! {

/// How many groups of `size` hold `len` items: the quotient, rounded up.
pub open spec fn chunk_count(len: nat, size: nat) -> nat {
    if size == 0 {
        0
    } else {
        ((len + size - 1) / (size as int)) as nat
    }
}

/// The group of index `i`: the items from `i * size` up to `(i + 1) * size`, or up to
/// the last.
pub open spec fn chunk<T>(items: Seq<T>, size: nat, i: int) -> Seq<T> {
    items.subrange(
        i * size,
        if (i + 1) * size < items.len() {
            (i + 1) * size
        } else {
            items.len() as int
        },
    )
}

/// The items in groups of `size`, in their order; the last group holds what is left.
pub open spec fn chunks<T>(items: Seq<T>, size: nat) -> Seq<Seq<T>> {
    Seq::new(chunk_count(items.len(), size), |i: int| chunk(items, size, i))
}

/// The texts of each group.
pub open spec fn group_texts(groups: Seq<Vec<String>>) -> Seq<Seq<Seq<char>>> {
    groups.map_values(|group: Vec<String>| texts(group@))
}

/// The number of groups is the quotient rounded up: `count` groups hold all items and
/// `count - 1` do not.
pub proof fn lemma_chunk_count(len: nat, size: nat)
    requires
        size >= 1,
    ensures
        chunk_count(len, size) * size >= len,
        len > 0 ==> (chunk_count(len, size) - 1) * size < len,
        len == 0 ==> chunk_count(len, size) == 0,
{
    let n = len + size - 1;
    let d = size as int;
    vstd::arithmetic::div_mod::lemma_fundamental_div_mod(n, d);
    vstd::arithmetic::div_mod::lemma_mod_bound(n, d);
    assert(n == d * (n / d) + n % d);
    assert(0 <= n % d < d);
    let q = n / d;
    assert(q * d == d * q) by (nonlinear_arith);
    assert((q - 1) * d == q * d - d) by (nonlinear_arith);
    if len == 0 {
        assert(q == 0) by (nonlinear_arith)
            requires
                d - 1 == d * q + n % d,
                0 <= n % d < d,
                d >= 1,
        ;
    } else {
        assert(q >= 0) by (nonlinear_arith)
            requires
                n == d * q + n % d,
                0 <= n % d < d,
                n >= 0,
                d >= 1,
        ;
    }
}

/// The groups part the items: the item of index `j` is the item of index `j % size` of
/// the group of index `j / size`; every group but the last holds `size` items, and the
/// last holds one at least.
pub proof fn law_chunks_partition<T>(items: Seq<T>, size: nat, j: int)
    requires
        size >= 1,
        0 <= j < items.len(),
    ensures
        0 <= j / (size as int) < chunks(items, size).len(),
        0 <= j % (size as int) < chunks(items, size)[j / (size as int)].len() <= size,
        chunks(items, size)[j / (size as int)][j % (size as int)] == items[j],
        j / (size as int) < chunks(items, size).len() - 1 ==> chunks(items, size)[j / (
        size as int)].len() == size,
{
    let d = size as int;
    let q = j / d;
    let r = j % d;
    let count = chunk_count(items.len(), size) as int;
    lemma_chunk_count(items.len(), size);
    vstd::arithmetic::div_mod::lemma_fundamental_div_mod(j, d);
    vstd::arithmetic::div_mod::lemma_mod_bound(j, d);
    assert(q * d == d * q) by (nonlinear_arith);
    assert((q + 1) * d == q * d + d) by (nonlinear_arith);
    assert(q >= 0) by (nonlinear_arith)
        requires
            j == d * q + r,
            0 <= r < d,
            j >= 0,
    ;
    assert(q < count) by (nonlinear_arith)
        requires
            count * d >= items.len(),
            j == q * d + r,
            0 <= r,
            j < items.len(),
            d >= 1,
    ;
    if q < count - 1 {
        assert((q + 1) * d <= (count - 1) * d) by (nonlinear_arith)
            requires
                q + 1 <= count - 1,
                d >= 1,
        ;
    }
}

/// Every group but the last holds `size` items; the last holds what is left, one item
/// at least.
pub proof fn law_chunk_lengths<T>(items: Seq<T>, size: nat, i: int)
    requires
        size >= 1,
        0 <= i < chunks(items, size).len(),
    ensures
        i < chunks(items, size).len() - 1 ==> chunks(items, size)[i].len() == size,
        i == chunks(items, size).len() - 1 ==> chunks(items, size)[i].len() == items.len() - i
            * size,
        1 <= chunks(items, size)[i].len() <= size,
{
    let count = chunk_count(items.len(), size) as int;
    lemma_chunk_count(items.len(), size);
    assert((i + 1) * size == i * size + size) by (nonlinear_arith);
    assert(i * size >= 0) by (nonlinear_arith)
        requires
            i >= 0,
            size >= 1,
    ;
    if i < count - 1 {
        assert((i + 1) * size <= (count - 1) * size) by (nonlinear_arith)
            requires
                i + 1 <= count - 1,
                size >= 1,
        ;
    } else {
        assert(i * size == (count - 1) * size);
    }
}

/// A copy of the strings from index `from` up to index `to`.
fn copy_range(strings: &Vec<String>, from: usize, to: usize) -> (copy: Vec<String>)
    requires
        from <= to <= strings.len(),
    ensures
        texts(copy@) == texts(strings@).subrange(from as int, to as int),
{
    let mut copy: Vec<String> = Vec::new();
    let mut i: usize = from;
    while i < to
        invariant
            from <= i <= to <= strings.len(),
            copy@.len() == i - from,
            texts(copy@) == texts(strings@).subrange(from as int, i as int),
        decreases to - i,
    {
        let ghost prev = copy@;
        copy.push(strings[i].clone());
        assert forall|j: int| 0 <= j < i + 1 - from implies texts(copy@)[j] == texts(
            strings@,
        ).subrange(from as int, i + 1)[j] by {
            if j < i - from {
                assert(texts(prev)[j] == texts(strings@).subrange(from as int, i as int)[j]);
            }
        }
        assert(texts(copy@) =~= texts(strings@).subrange(from as int, i + 1));
        i += 1;
    }
    copy
}

/// Parts `symbols` into groups of no more than `ceiling`, in their order.
pub fn partition_symbols(symbols: &Vec<String>, ceiling: usize) -> (groups: Vec<Vec<String>>)
    requires
        ceiling >= 1,
    ensures
        group_texts(groups@) == chunks(texts(symbols@), ceiling as nat),
{
    let ghost all = texts(symbols@);
    let ghost size = ceiling as nat;
    let len = symbols.len();
    let mut groups: Vec<Vec<String>> = Vec::new();
    let mut start: usize = 0;
    proof {
        lemma_chunk_count(len as nat, size);
    }
    while start < len
        invariant
            ceiling >= 1,
            size == ceiling,
            len == symbols.len(),
            all == texts(symbols@),
            all.len() == len,
            start <= len,
            start < len ==> start == groups@.len() * size,
            start == len ==> groups@.len() == chunk_count(len as nat, size),
            forall|i: int|
                0 <= i < groups@.len() ==> #[trigger] group_texts(groups@)[i] == chunk(all, size, i),
        decreases len - start,
    {
        let ghost k = groups@.len() as int;
        let ghost prev = groups@;
        let end: usize = if len - start > ceiling {
            start + ceiling
        } else {
            len
        };
        let group = copy_range(symbols, start, end);
        groups.push(group);
        proof {
            assert((k + 1) * size == k * size + size) by (nonlinear_arith);
            if end == len {
                lemma_chunk_count(len as nat, size);
                let count = chunk_count(len as nat, size) as int;
                assert(count == k + 1) by (nonlinear_arith)
                    requires
                        count * size >= len,
                        (count - 1) * size < len,
                        k * size < len,
                        len <= k * size + size,
                        size >= 1,
                ;
            }
            assert forall|i: int| 0 <= i < groups@.len() implies #[trigger] group_texts(
                groups@,
            )[i] == chunk(all, size, i) by {
                if i < k {
                    assert(group_texts(prev)[i] == chunk(all, size, i));
                    assert(groups@[i] == prev[i]);
                }
            }
        }
        start = end;
    }
    assert(group_texts(groups@) =~= chunks(all, size));
    groups
}

} // verus!
