//! Human-readable byte sizes and the ranking of processes by memory use.

use crate::text::{decimal, digit_char, push_decimal, push_digit, push_str};
use vstd::prelude::*;

verus! {

/// `n / unit` rounded to the nearest integer, ties to the even one.
pub open spec fn round_half_even(n: nat, unit: nat) -> nat {
    let q = n / unit;
    let r = n % unit;
    if r * 2 > unit || (r * 2 == unit && q % 2 == 1) {
        q + 1
    } else {
        q
    }
}

/// Rounds `b` to a multiple of the first power of two `unit` (from the one
/// given, up to 2048) for which `b / unit` fits in 53 bits.
pub open spec fn f64_round_from(b: nat, unit: nat) -> nat
    decreases 4096 - unit,
{
    if unit == 0 || unit >= 2048 || b < 9007199254740992 * unit {
        round_half_even(b, unit) * unit
    } else {
        f64_round_from(b, unit * 2)
    }
}

/// The value of `b as f64` for a `u64` `b`: the nearest number with a
/// 53-bit significand, ties to the even significand.
pub open spec fn u64_to_f64(b: u64) -> nat {
    f64_round_from(b as nat, 1)
}

/// `v / unit` written with one decimal, rounded to the nearest tenth with
/// ties to the even digit (what `{:.1}` writes for that exact value).
pub open spec fn one_decimal(v: nat, unit: nat) -> Seq<char> {
    let t = round_half_even(v * 10, unit);
    decimal(t / 10) + "."@ + seq![digit_char((t % 10) as int)]
}

/// Whole multiples of a unit read as that many units with a zero decimal.
pub proof fn lemma_whole_units(k: u64)
    requires
        1 <= k < 1024,
    ensures
        byte_size_text((k * 1024) as u64) == decimal(k as nat) + ".0"@ + " KB"@,
        byte_size_text((k * 1048576) as u64) == decimal(k as nat) + ".0"@ + " MB"@,
        byte_size_text((k * 1073741824) as u64) == decimal(k as nat) + ".0"@ + " GB"@,
{
    lemma_exact_tenths(k as nat, 1024);
    lemma_exact_tenths(k as nat, 1048576);
    lemma_exact_tenths(k as nat, 1073741824);
    assert(digit_char(0) == '0');
    assert(seq!['0'] == "0"@) by {
        reveal_strlit("0");
    }
    assert(".0"@ == "."@ + "0"@) by {
        reveal_strlit(".0");
        reveal_strlit(".");
        reveal_strlit("0");
    }
}

proof fn lemma_exact_tenths(k: nat, unit: nat)
    requires
        1 <= k < 1024,
        unit == 1024 || unit == 1048576 || unit == 1073741824,
    ensures
        u64_to_f64((k * unit) as u64) == k * unit,
        round_half_even(k * unit * 10, unit) == k * 10,
{
    assert(k * unit < 9007199254740992) by (nonlinear_arith)
        requires
            k < 1024,
            unit <= 1073741824,
    ;
    assert((k * unit) / 1 == k * unit && (k * unit) % 1 == 0);
    assert((k * unit * 10) / unit == k * 10 && (k * unit * 10) % unit == 0) by (nonlinear_arith)
        requires
            unit >= 1,
    {
        assert(k * unit * 10 == (k * 10) * unit);
    }
}

pub open spec fn kib() -> nat { 1024 }
pub open spec fn mib() -> nat { 1048576 }
pub open spec fn gib() -> nat { 1073741824 }
pub open spec fn tib() -> nat { 1099511627776 }

/// A byte count in the largest unit (B, KB, MB, GB, TB, powers of 1024)
/// it reaches, with one decimal except for plain bytes.
pub open spec fn byte_size_text(bytes: u64) -> Seq<char> {
    if bytes >= tib() {
        one_decimal(u64_to_f64(bytes), tib()) + " TB"@
    } else if bytes >= gib() {
        one_decimal(u64_to_f64(bytes), gib()) + " GB"@
    } else if bytes >= mib() {
        one_decimal(u64_to_f64(bytes), mib()) + " MB"@
    } else if bytes >= kib() {
        one_decimal(u64_to_f64(bytes), kib()) + " KB"@
    } else {
        decimal(bytes as nat) + " B"@
    }
}

pub(crate) fn rounded_div(n: u128, unit: u128) -> (r: u128)
    requires
        unit >= 1,
    ensures
        r == round_half_even(n as nat, unit as nat),
{
    let q = n / unit;
    let r = n % unit;
    assert(q <= n && r < unit) by (nonlinear_arith)
        requires
            unit >= 1,
            q == n / unit,
            r == n % unit,
    ;
    if r > unit - r || (r == unit - r && q % 2 == 1) {
        assert(q < u128::MAX) by (nonlinear_arith)
            requires
                unit >= 1,
                q == n / unit,
                r == n % unit,
                r > 0,
                n <= u128::MAX,
        {
            assert(n == unit * q + r);
            assert(unit * q >= q);
        }
        q + 1
    } else {
        q
    }
}

/// `bytes as f64`, which is an integer, as an integer.
fn f64_value(bytes: u64) -> (v: u128)
    ensures
        v == u64_to_f64(bytes),
        v <= bytes as int + 2048,
{
    let mut unit: u128 = 1;
    while !(unit >= 2048 || (bytes as u128) < 9007199254740992 * unit)
        invariant
            unit == 1 || unit == 2 || unit == 4 || unit == 8 || unit == 16 || unit == 32 || unit == 64
                || unit == 128 || unit == 256 || unit == 512 || unit == 1024 || unit == 2048,
            u64_to_f64(bytes) == f64_round_from(bytes as nat, unit as nat),
        decreases 4096 - unit,
    {
        unit = unit * 2;
    }
    let q = rounded_div(bytes as u128, unit);
    assert(q * unit <= bytes + unit) by (nonlinear_arith)
        requires
            unit >= 1,
            q == round_half_even(bytes as nat, unit as nat),
    {
        assert(unit * (bytes as int / unit as int) <= bytes);
    }
    q * unit
}

/// Appends `v / unit` with one decimal.
fn push_one_decimal(s: &mut String, v: u128, unit: u128)
    requires
        unit >= 1,
        v <= 0x1_0000_0000_0000_1000,
    ensures
        final(s)@ == old(s)@ + one_decimal(v as nat, unit as nat),
{
    let t = rounded_div(v * 10, unit);
    push_decimal(s, t / 10);
    push_str(s, ".");
    push_digit(s, t % 10);
    assert(s@ =~= old(s)@ + one_decimal(v as nat, unit as nat));
}

/// Formats a byte count for people, e.g. `1536` as `1.5 KB`.
pub fn format_bytes(bytes: u64) -> (text: String)
    ensures
        text@ == byte_size_text(bytes),
{
    let mut s = String::new();
    if bytes >= 1099511627776 {
        push_one_decimal(&mut s, f64_value(bytes), 1099511627776);
        push_str(&mut s, " TB");
    } else if bytes >= 1073741824 {
        push_one_decimal(&mut s, f64_value(bytes), 1073741824);
        push_str(&mut s, " GB");
    } else if bytes >= 1048576 {
        push_one_decimal(&mut s, f64_value(bytes), 1048576);
        push_str(&mut s, " MB");
    } else if bytes >= 1024 {
        push_one_decimal(&mut s, f64_value(bytes), 1024);
        push_str(&mut s, " KB");
    } else {
        push_decimal(&mut s, bytes as u128);
        push_str(&mut s, " B");
    }
    assert(s@ =~= byte_size_text(bytes));
    s
}

/// A process and the memory it uses, in bytes.
#[derive(Clone, Debug)]
pub struct MemoryConsumer {
    pub name: String,
    pub usage: u64,
}

/// Where `usage` goes in `s`, which is ordered by decreasing usage: after
/// every entry that uses at least as much.
pub open spec fn insert_pos(s: Seq<MemoryConsumer>, usage: u64) -> nat
    decreases s.len(),
{
    if s.len() == 0 {
        0
    } else if s[0].usage < usage {
        0
    } else {
        1 + insert_pos(s.drop_first(), usage)
    }
}

/// `s` ordered by decreasing usage; entries with equal usage keep their
/// order (a stable sort, built by insertion).
pub open spec fn sort_by_usage(s: Seq<MemoryConsumer>) -> Seq<MemoryConsumer>
    decreases s.len(),
{
    if s.len() == 0 {
        s
    } else {
        let sorted = sort_by_usage(s.drop_last());
        sorted.insert(insert_pos(sorted, s.last().usage) as int, s.last())
    }
}

/// The processes of `ps` that are not threads of another process, in order.
/// The flag of each entry says whether it is such a thread.
pub open spec fn whole_processes(ps: Seq<(MemoryConsumer, bool)>) -> Seq<MemoryConsumer>
    decreases ps.len(),
{
    if ps.len() == 0 {
        Seq::empty()
    } else {
        let rest = whole_processes(ps.drop_last());
        if ps.last().1 {
            rest
        } else {
            rest.push(ps.last().0)
        }
    }
}

/// At most `limit` of the processes of `ps` that are not threads, those
/// that use the most memory first.
pub open spec fn top_consumers(ps: Seq<(MemoryConsumer, bool)>, limit: nat) -> Seq<MemoryConsumer> {
    let sorted = sort_by_usage(whole_processes(ps));
    if limit < sorted.len() {
        sorted.take(limit as int)
    } else {
        sorted
    }
}

/// Sorted by decreasing usage.
pub open spec fn usage_descending(s: Seq<MemoryConsumer>) -> bool {
    forall|i: int, j: int| 0 <= i < j < s.len() ==> s[j].usage <= s[i].usage
}

proof fn lemma_insert_pos(s: Seq<MemoryConsumer>, usage: u64, j: int)
    requires
        0 <= j <= s.len(),
        forall|k: int| 0 <= k < j ==> s[k].usage >= usage,
        j == s.len() || s[j].usage < usage,
    ensures
        insert_pos(s, usage) == j,
    decreases j,
{
    if j > 0 {
        lemma_insert_pos(s.drop_first(), usage, j - 1);
    }
}

proof fn lemma_insert_pos_bounds(s: Seq<MemoryConsumer>, usage: u64)
    ensures
        insert_pos(s, usage) <= s.len(),
        forall|k: int| 0 <= k < insert_pos(s, usage) ==> s[k].usage >= usage,
        insert_pos(s, usage) < s.len() ==> s[insert_pos(s, usage) as int].usage < usage,
    decreases s.len(),
{
    if s.len() > 0 && s[0].usage >= usage {
        lemma_insert_pos_bounds(s.drop_first(), usage);
        assert forall|k: int| 0 <= k < insert_pos(s, usage) implies s[k].usage >= usage by {
            if k > 0 {
                assert(s[k] == s.drop_first()[k - 1]);
            }
        }
    }
}

/// Insertion keeps a usage-descending sequence descending.
proof fn lemma_insert_keeps_order(s: Seq<MemoryConsumer>, x: MemoryConsumer)
    requires
        usage_descending(s),
    ensures
        usage_descending(s.insert(insert_pos(s, x.usage) as int, x)),
{
    lemma_insert_pos_bounds(s, x.usage);
    let p = insert_pos(s, x.usage) as int;
    let t = s.insert(p, x);
    assert forall|i: int, j: int| 0 <= i < j < t.len() implies t[j].usage <= t[i].usage by {
        if j < p {
        } else if j == p {
            assert(t[i] == s[i]);
        } else if i < p {
            assert(t[j] == s[j - 1]);
            assert(s[j - 1].usage <= s[i].usage);
        } else if i == p {
            assert(t[j] == s[j - 1]);
            assert(s[j - 1].usage <= s[p].usage);
        } else {
            assert(t[j] == s[j - 1] && t[i] == s[i - 1]);
        }
    }
}

/// The ranking is ordered by decreasing usage and holds every entry it was
/// given, each as often as it was given.
pub proof fn lemma_sort_by_usage(s: Seq<MemoryConsumer>)
    ensures
        usage_descending(sort_by_usage(s)),
        sort_by_usage(s).to_multiset() == s.to_multiset(),
    decreases s.len(),
{
    if s.len() > 0 {
        let sorted = sort_by_usage(s.drop_last());
        lemma_sort_by_usage(s.drop_last());
        lemma_insert_keeps_order(sorted, s.last());
        lemma_insert_pos_bounds(sorted, s.last().usage);
        vstd::seq_lib::to_multiset_insert(sorted, insert_pos(sorted, s.last().usage) as int, s.last());
        assert(s =~= s.drop_last().push(s.last()));
        vstd::seq_lib::to_multiset_build(s.drop_last(), s.last());
    }
}

/// The ranking holds `min(limit, n)` processes, where `n` is the number of
/// processes that are not threads; it is ordered by decreasing usage, each
/// of its entries is one of those processes, and no ranked process uses
/// less than one that was left out.
pub proof fn lemma_top_consumers(ps: Seq<(MemoryConsumer, bool)>, limit: nat)
    ensures
        ({
            let whole = whole_processes(ps);
            let top = top_consumers(ps, limit);
            &&& top.len() == if limit < whole.len() { limit } else { whole.len() }
            &&& usage_descending(top)
            &&& forall|i: int| 0 <= i < top.len() ==> whole.contains(#[trigger] top[i])
            &&& forall|i: int, j: int| 0 <= i < top.len() && top.len() <= j < whole.len()
                ==> #[trigger] sort_by_usage(whole)[j].usage <= #[trigger] top[i].usage
        }),
{
    let whole = whole_processes(ps);
    let sorted = sort_by_usage(whole);
    lemma_sort_by_usage(whole);
    vstd::seq_lib::to_multiset_len(sorted);
    vstd::seq_lib::to_multiset_len(whole);
    let top = top_consumers(ps, limit);
    assert forall|i: int| 0 <= i < top.len() implies whole.contains(#[trigger] top[i]) by {
        assert(top[i] == sorted[i]);
        vstd::seq_lib::to_multiset_contains(sorted, sorted[i]);
        assert(sorted.contains(sorted[i]));
        vstd::seq_lib::to_multiset_contains(whole, sorted[i]);
    }
}

/// The `limit` processes that use the most memory, threads of other
/// processes left out; `procs` pairs each process with whether it is such
/// a thread. Ties keep the order in which the processes came.
pub fn select_top_consumers(procs: Vec<(MemoryConsumer, bool)>, limit: usize) -> (top: Vec<MemoryConsumer>)
    ensures
        top@ == top_consumers(procs@, limit as nat),
{
    let ghost orig = procs@;
    let mut procs = procs;
    let mut sorted: Vec<MemoryConsumer> = Vec::new();
    let mut i: usize = 0;
    let n = procs.len();
    while procs.len() > 0
        invariant
            n == orig.len(),
            i <= n,
            procs@ == orig.skip(i as int),
            sorted@ == sort_by_usage(whole_processes(orig.take(i as int))),
            sorted@.len() <= i,
        decreases procs@.len(),
    {
        let (p, is_thread) = procs.remove(0);
        proof {
            assert(orig.take(i + 1).drop_last() =~= orig.take(i as int));
            assert(orig.take(i + 1).last() == orig[i as int]);
            assert(orig[i as int] == orig.skip(i as int)[0]);
        }
        if !is_thread {
            let ghost before = sorted@;
            let mut j: usize = 0;
            while j < sorted.len() && sorted[j].usage >= p.usage
                invariant
                    j <= sorted@.len(),
                    forall|k: int| 0 <= k < j ==> sorted@[k].usage >= p.usage,
                decreases sorted@.len() - j,
            {
                j += 1;
            }
            proof {
                lemma_insert_pos(sorted@, p.usage, j as int);
                assert(whole_processes(orig.take(i + 1)) =~= whole_processes(orig.take(i as int)).push(p));
                assert(whole_processes(orig.take(i as int)).push(p).drop_last() =~= whole_processes(orig.take(i as int)));
            }
            sorted.insert(j, p);
        } else {
            proof {
                assert(whole_processes(orig.take(i + 1)) == whole_processes(orig.take(i as int)));
            }
        }
        i += 1;
        assert(procs@ =~= orig.skip(i as int));
    }
    assert(orig.take(n as int) =~= orig);
    if limit < sorted.len() {
        sorted.truncate(limit);
        assert(sorted@ =~= top_consumers(orig, limit as nat));
    }
    sorted
}

} // verus!
