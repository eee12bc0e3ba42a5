//! The monthly report.
//!
//! The entries are grouped by the month of their date. Each month that has
//! an entry gets one line, which gives the balance of the month's entries;
//! the lines run from the earliest month to the latest.

use crate::calendar::is_calendar_date;
use crate::calendar::Date;
use crate::models::Entry;
use crate::models::Item;
use crate::services::io::book_to_report;
use crate::services::io::read_data_or_panic;
use crate::services::io::Found;
use crate::services::io::StoreContent;
use crate::services::io::StoreError;
use crate::text::decimal;
use crate::text::to_decimal;
use std::collections::BTreeMap;
use std::collections::BTreeSet;
use vstd::prelude::*;
use vstd::std_specs::cmp::OrdSpec;
use vstd::std_specs::iter::IteratorSpec;
use vstd::string::StringExecFns;

verus! {

/// The test that picks the entries booked in the month `key`.
pub open spec fn booked_in(key: (i32, u32)) -> spec_fn(Entry) -> bool {
    |entry: Entry| entry.month_key() == key
}

/// The entries that are booked in the month `key`, in the order of the
/// book. The day of an entry plays no part.
pub open spec fn bucket(entries: Seq<Entry>, key: (i32, u32)) -> Seq<Entry> {
    entries.filter(booked_in(key))
}

/// The balance of the entries: the sum of their signed amounts.
pub open spec fn total(entries: Seq<Entry>) -> int
    decreases entries.len(),
{
    if entries.len() == 0 {
        0
    } else {
        total(entries.drop_last()) + entries.last().signed_amount()
    }
}

/// The months in which at least one of the entries is booked.
pub open spec fn month_keys(entries: Seq<Entry>) -> Set<(i32, u32)> {
    Set::new(
        |key: (i32, u32)|
            exists|i: int| 0 <= i < entries.len() && #[trigger] entries[i].month_key() == key,
    )
}

/// The entries of `data` that are booked in the month of `first_date`, in
/// the order in which `data` holds them.
pub fn get_filtered_data<'a>(data: &'a Vec<Item>, first_date: Date) -> (r: Vec<&'a Item>)
    ensures
        r.deep_view() == bucket(data.deep_view(), first_date@.month_key()),
{
    let year = first_date.year();
    let month = first_date.month();
    let ghost key = first_date@.month_key();
    let ghost entries = data.deep_view();
    let mut filtered: Vec<&Item> = Vec::new();
    let mut i: usize = 0;
    proof {
        reveal(Seq::filter);
    }
    while i < data.len()
        invariant
            i <= data.len(),
            entries == data.deep_view(),
            key == (year, month),
            filtered.deep_view() =~= bucket(entries.take(i as int), key),
        decreases data.len() - i,
    {
        let item = &data[i];
        let keep = item.get_year() == year && item.get_month() == month;
        if keep {
            filtered.push(item);
        }
        proof {
            reveal(Seq::filter);
            assert(entries.take(i + 1).drop_last() =~= entries.take(i as int));
        }
        i = i + 1;
    }
    proof {
        assert(entries.take(data.len() as int) =~= entries);
    }
    filtered
}

/// A balance of `count` entries stays within `count` times the largest
/// amount, on either side of zero.
proof fn lemma_total_bounds(entries: Seq<Entry>)
    ensures
        -(entries.len() * u32::MAX) <= total(entries) <= entries.len() * u32::MAX,
    decreases entries.len(),
{
    if entries.len() > 0 {
        lemma_total_bounds(entries.drop_last());
        assert((entries.len() - 1) * u32::MAX + u32::MAX == entries.len() * u32::MAX)
            by (nonlinear_arith);
    }
}

/// The balance of the entries in `data`.
pub fn summarize_data(data: &Vec<&Item>) -> (r: i128)
    ensures
        r == total(data.deep_view()),
{
    let ghost entries = data.deep_view();
    let mut sum: i128 = 0;
    let mut i: usize = 0;
    while i < data.len()
        invariant
            i <= data.len(),
            entries == data.deep_view(),
            sum == total(entries.take(i as int)),
        decreases data.len() - i,
    {
        let amount = data[i].get_price_for_summary();
        proof {
            assert(entries.take(i + 1).drop_last() =~= entries.take(i as int));
            lemma_total_bounds(entries.take(i as int));
            assert(i * u32::MAX <= usize::MAX * u32::MAX) by (nonlinear_arith)
                requires
                    i <= usize::MAX,
            ;
        }
        sum = sum + amount as i128;
        i = i + 1;
    }
    proof {
        assert(entries.take(data.len() as int) =~= entries);
    }
    sum
}

/// Whether the month `a` lies before the month `b`.
pub open spec fn month_before(a: (i32, u32), b: (i32, u32)) -> bool {
    a.0 < b.0 || (a.0 == b.0 && a.1 < b.1)
}

/// Whether the months stand in ascending order, each before the next.
pub open spec fn ascending(months: Seq<(i32, u32)>) -> bool {
    forall|i: int, j: int|
        0 <= i < j < months.len() ==> month_before(#[trigger] months[i], #[trigger] months[j])
}

/// Whether `months` lists the months of `set` from the earliest to the
/// latest, each once.
pub open spec fn lists_in_order(months: Seq<(i32, u32)>, set: Set<(i32, u32)>) -> bool {
    &&& ascending(months)
    &&& forall|key: (i32, u32)| months.contains(key) <==> set.contains(key)
}

/// The months of `set` from the earliest to the latest, for a finite set;
/// [`lemma_finite_set_can_be_listed`] shows that there is such a list, and
/// [`lemma_in_order_is`] that there is one only.
pub open spec fn in_order(set: Set<(i32, u32)>) -> Seq<(i32, u32)> {
    choose|months: Seq<(i32, u32)>| lists_in_order(months, set)
}

/// Two ascending lists of the same months are one list.
pub proof fn lemma_ascending_lists_agree(a: Seq<(i32, u32)>, b: Seq<(i32, u32)>)
    requires
        ascending(a),
        ascending(b),
        forall|key: (i32, u32)| a.contains(key) <==> b.contains(key),
    ensures
        a == b,
    decreases a.len(),
{
    if a.len() == 0 {
        if b.len() > 0 {
            assert(b.contains(b[0]));
        }
        assert(a =~= b);
    } else if b.len() == 0 {
        assert(a.contains(a[0]));
    } else {
        assert(a.contains(a[0]));
        assert(b.contains(b[0]));
        let j = choose|j: int| 0 <= j < b.len() && b[j] == a[0];
        let i = choose|i: int| 0 <= i < a.len() && a[i] == b[0];
        assert(a[0] == b[0]) by {
            if j > 0 && i > 0 {
                assert(month_before(b[0], b[j]));
                assert(month_before(a[0], a[i]));
            }
        }
        let rest_a = a.drop_first();
        let rest_b = b.drop_first();
        assert forall|key: (i32, u32)| rest_a.contains(key) <==> rest_b.contains(key) by {
            if rest_a.contains(key) {
                let k = choose|k: int| 0 <= k < rest_a.len() && rest_a[k] == key;
                assert(a[k + 1] == key);
                assert(month_before(a[0], a[k + 1]));
                assert(a.contains(key));
                let m = choose|m: int| 0 <= m < b.len() && b[m] == key;
                assert(rest_b[m - 1] == key);
            }
            if rest_b.contains(key) {
                let k = choose|k: int| 0 <= k < rest_b.len() && rest_b[k] == key;
                assert(b[k + 1] == key);
                assert(month_before(b[0], b[k + 1]));
                assert(b.contains(key));
                let m = choose|m: int| 0 <= m < a.len() && a[m] == key;
                assert(rest_a[m - 1] == key);
            }
        }
        assert(ascending(rest_a)) by {
            assert forall|i: int, j: int| 0 <= i < j < rest_a.len() implies month_before(
                #[trigger] rest_a[i],
                #[trigger] rest_a[j],
            ) by {
                assert(month_before(a[i + 1], a[j + 1]));
            }
        }
        assert(ascending(rest_b)) by {
            assert forall|i: int, j: int| 0 <= i < j < rest_b.len() implies month_before(
                #[trigger] rest_b[i],
                #[trigger] rest_b[j],
            ) by {
                assert(month_before(b[i + 1], b[j + 1]));
            }
        }
        lemma_ascending_lists_agree(rest_a, rest_b);
        assert(a =~= seq![a[0]] + rest_a);
        assert(b =~= seq![b[0]] + rest_b);
    }
}

/// A list that names the months of `set` in ascending order is the list
/// [`in_order`] of that set.
pub proof fn lemma_in_order_is(months: Seq<(i32, u32)>, set: Set<(i32, u32)>)
    requires
        lists_in_order(months, set),
    ensures
        in_order(set) == months,
{
    lemma_ascending_lists_agree(in_order(set), months);
}

/// Whether the order in which std compares two months is the one that
/// the collections of std sort their keys by.
pub open spec fn months_are_ordered() -> bool {
    &&& vstd::laws_cmp::obeys_cmp::<(i32, u32)>()
    &&& vstd::std_specs::btree::key_obeys_cmp_spec::<(i32, u32)>()
}

proof fn lemma_months_are_ordered()
    ensures
        months_are_ordered(),
{
    broadcast use vstd::laws_cmp::group_laws_cmp;
    broadcast use vstd::std_specs::btree::group_btree_axioms;

}

/// Months that std calls increasing are ascending: std compares the years
/// first and the months where the years are equal.
proof fn lemma_increasing_is_ascending(months: Seq<(i32, u32)>)
    requires
        vstd::std_specs::btree::increasing_seq(months),
    ensures
        ascending(months),
{
    broadcast use vstd::laws_cmp::group_laws_cmp;

    vstd::std_specs::btree::axiom_increasing_seq_meaning::<(i32, u32)>(months);
    assert forall|i: int, j: int| 0 <= i < j < months.len() implies month_before(
        #[trigger] months[i],
        #[trigger] months[j],
    ) by {
        assert(OrdSpec::cmp_spec(&months[i], &months[j]) is Less);
    }
}

/// The months in which `data` has an entry.
///
/// Each month is taken from the first day of the month of an entry's date,
/// so each names a month of the calendar.
pub fn get_target_dates(data: &Vec<Item>) -> (r: BTreeSet<(i32, u32)>)
    ensures
        r@ == month_keys(data.deep_view()),
        forall|key: (i32, u32)| #[trigger]
            r@.contains(key) ==> is_calendar_date(key.0 as int, key.1 as int, 1),
{
    let ghost entries = data.deep_view();
    let mut target_dates: BTreeSet<(i32, u32)> = BTreeSet::new();
    let mut i: usize = 0;
    proof {
        lemma_months_are_ordered();
    }
    while i < data.len()
        invariant
            i <= data.len(),
            entries == data.deep_view(),
            months_are_ordered(),
            target_dates@ =~= month_keys(entries.take(i as int)),
            forall|key: (i32, u32)| #[trigger]
                target_dates@.contains(key) ==> is_calendar_date(key.0 as int, key.1 as int, 1),
        decreases data.len() - i,
    {
        let first_day = data[i].get_first_day();
        let key = (first_day.year(), first_day.month());
        target_dates.insert(key);
        proof {
            use_type_invariant(&first_day);
            let before = entries.take(i as int);
            let now = entries.take(i + 1);
            assert(now[i as int].month_key() == key);
            assert forall|k: (i32, u32)| month_keys(now).contains(k) <==> (month_keys(
                before,
            ).contains(k) || k == key) by {
                if month_keys(now).contains(k) {
                    let j = choose|j: int| 0 <= j < now.len() && #[trigger] now[j].month_key() == k;
                    if j < i {
                        assert(before[j].month_key() == k);
                    }
                }
                if month_keys(before).contains(k) {
                    let j = choose|j: int|
                        0 <= j < before.len() && #[trigger] before[j].month_key() == k;
                    assert(now[j].month_key() == k);
                }
            }
        }
        i = i + 1;
    }
    proof {
        assert(entries.take(data.len() as int) =~= entries);
    }
    target_dates
}

/// Whether `table` gives, for each month in which one of the entries is
/// booked and for no other, the balance of the entries booked in it.
pub open spec fn is_monthly_table(table: Map<(i32, u32), i128>, entries: Seq<Entry>) -> bool {
    &&& table.dom() == month_keys(entries)
    &&& forall|key: (i32, u32)| #[trigger]
        table.dom().contains(key) ==> table[key] == total(bucket(entries, key))
}

/// The balance of each month in which `data` has an entry.
pub fn monthly_totals(data: &Vec<Item>) -> (r: BTreeMap<(i32, u32), i128>)
    ensures
        is_monthly_table(r@, data.deep_view()),
{
    let ghost entries = data.deep_view();
    let target_dates = get_target_dates(data);
    let mut result_table: BTreeMap<(i32, u32), i128> = BTreeMap::new();
    let ghost months = target_dates.iter().remaining().unref();
    proof {
        lemma_months_are_ordered();
        vstd::std_specs::btree::axiom_spec_btree_keys_iter(&target_dates);
    }
    for date in it: target_dates.iter()
        invariant
            months_are_ordered(),
            entries == data.deep_view(),
            it.seq().unref() == months,
            months.to_set() == target_dates@,
            forall|key: (i32, u32)| #[trigger]
                target_dates@.contains(key) ==> is_calendar_date(key.0 as int, key.1 as int, 1),
            forall|key: (i32, u32)|
                result_table@.dom().contains(key) <==> months.take(it.index()).contains(key),
            forall|key: (i32, u32)| #[trigger]
                result_table@.dom().contains(key) ==> result_table@[key] == total(
                    bucket(entries, key),
                ),
    {
        let ghost done = months.take(it.index());
        proof {
            assert(months[it.index()] == *date);
            assert(months.to_set().contains(*date));
        }
        let first_day = Date::from_ymd_opt(date.0, date.1, 1).unwrap();
        let filtered_data = get_filtered_data(data, first_day);
        let sum = summarize_data(&filtered_data);
        result_table.insert(*date, sum);
        proof {
            let now = months.take(it.index() + 1);
            assert(now =~= done.push(*date));
            assert forall|key: (i32, u32)| result_table@.dom().contains(key) <==> now.contains(
                key,
            ) by {
                if done.contains(key) {
                    let j = choose|j: int| 0 <= j < done.len() && done[j] == key;
                    assert(now[j] == key);
                }
                if now.contains(key) && key != *date {
                    let j = choose|j: int| 0 <= j < now.len() && now[j] == key;
                    assert(done[j] == key);
                }
                assert(now[done.len() as int] == *date);
            }
        }
    }
    proof {
        assert(months.take(months.len() as int) =~= months);
        assert(result_table@.dom() =~= month_keys(entries)) by {
            assert forall|key: (i32, u32)| result_table@.dom().contains(key) <==> month_keys(
                entries,
            ).contains(key) by {
                assert(months.to_set().contains(key) <==> months.contains(key));
            }
        }
    }
    result_table
}

/// How a month is written: the year, a stroke, and the month without a
/// leading zero.
pub open spec fn month_text(key: (i32, u32)) -> Seq<char> {
    decimal(key.0 as int) + "/"@ + decimal(key.1 as int)
}

/// How a balance is written: with `+` in front where it is positive, with
/// the `-` of the number where it is negative, and as `0` where it is zero.
pub open spec fn price_text(price: int) -> Seq<char> {
    if price > 0 {
        "+"@ + decimal(price)
    } else {
        decimal(price)
    }
}

/// The line of the report for the month `key` with the balance `price`.
pub open spec fn line_text(key: (i32, u32), price: int) -> Seq<char> {
    month_text(key) + "の収支は"@ + price_text(price) + "円でした"@
}

/// The lines for the months of `table`, from the earliest month to the
/// latest.
pub open spec fn table_text(table: Map<(i32, u32), i128>) -> Seq<Seq<char>> {
    in_order(table.dom()).map_values(|key: (i32, u32)| line_text(key, table[key] as int))
}

/// The report on `entries`: for each month in which an entry is booked, from
/// the earliest to the latest, the line with the balance of the month's
/// entries.
pub open spec fn report(entries: Seq<Entry>) -> Seq<Seq<char>> {
    in_order(month_keys(entries)).map_values(
        |key: (i32, u32)| line_text(key, total(bucket(entries, key))),
    )
}

/// A balance is written with a sign in front unless it is zero: `+` for a
/// positive one, `-` for a negative one. Zero is written `0`.
pub proof fn lemma_price_text_sign(price: int)
    ensures
        price > 0 ==> price_text(price).first() == '+',
        price < 0 ==> price_text(price).first() == '-',
        price == 0 ==> price_text(price) == seq!['0'],
{
    reveal_strlit("+");
}

fn format_month(year: i32, month: u32) -> (r: String)
    ensures
        r@ == month_text((year, month)),
{
    let mut text = to_decimal(year as i128);
    text.append("/");
    text.append(to_decimal(month as i128).as_str());
    text
}

/// Writes the month of `date` as year, stroke and month.
pub fn format_date(date: Date) -> (r: String)
    ensures
        r@ == month_text(date@.month_key()),
{
    format_month(date.year(), date.month())
}

/// Writes a balance, with `+` in front of a positive one.
pub fn format_price(price: i128) -> (r: String)
    ensures
        r@ == price_text(price as int),
{
    if price > 0 {
        let mut text = String::from_str("+");
        text.append(to_decimal(price).as_str());
        text
    } else {
        to_decimal(price)
    }
}

/// Writes the line of the report for one month.
pub fn format_line(year: i32, month: u32, price: i128) -> (r: String)
    ensures
        r@ == line_text((year, month), price as int),
{
    let mut line = format_month(year, month);
    line.append("の収支は");
    line.append(format_price(price).as_str());
    line.append("円でした");
    line
}

/// Writes one line for each month of `result_table`, from the earliest
/// month to the latest.
pub fn format_table(result_table: &BTreeMap<(i32, u32), i128>) -> (r: Vec<String>)
    ensures
        r.deep_view() == table_text(result_table@),
{
    let ghost pairs = result_table.iter().remaining().unref();
    let ghost months = pairs.map_values(|pair: ((i32, u32), i128)| pair.0);
    let mut lines: Vec<String> = Vec::new();
    proof {
        lemma_months_are_ordered();
        vstd::std_specs::btree::axiom_spec_btree_map_iter(result_table);
    }
    for result in it: result_table.iter()
        invariant
            it.seq().unref() == pairs,
            lines@.len() == it.index(),
            forall|i: int|
                0 <= i < lines@.len() ==> (#[trigger] lines@[i])@ == line_text(
                    pairs[i].0,
                    pairs[i].1 as int,
                ),
    {
        let (date, price) = result;
        lines.push(format_line(date.0, date.1, *price));
    }
    proof {
        let remaining = result_table.iter().remaining();
        assert(months =~= remaining.map_values(|kv: (&(i32, u32), &i128)| *kv.0));
        lemma_increasing_is_ascending(months);
        assert forall|key: (i32, u32)| months.contains(key) <==> result_table@.dom().contains(
            key,
        ) by {
            if months.contains(key) {
                let i = choose|i: int| 0 <= i < months.len() && months[i] == key;
                assert(result_table@.contains_key(*remaining[i].0));
            }
            if result_table@.dom().contains(key) {
                assert(result_table@.contains_key(key));
                let value = result_table@[key];
                assert(remaining.contains((&key, &value)));
                let i = choose|i: int| 0 <= i < remaining.len() && remaining[i] == (&key, &value);
                assert(months[i] == key);
            }
        }
        lemma_in_order_is(months, result_table@.dom());
        assert(lines.deep_view() =~= table_text(result_table@)) by {
            assert forall|i: int| 0 <= i < lines@.len() implies lines.deep_view()[i] == table_text(
                result_table@,
            )[i] by {
                assert(result_table@.contains_key(*remaining[i].0));
                assert(result_table@[*remaining[i].0] == *remaining[i].1);
            }
        }
    }
    lines
}

/// An ascending list takes one more month and stays ascending.
proof fn lemma_insert_month(months: Seq<(i32, u32)>, key: (i32, u32)) -> (r: Seq<(i32, u32)>)
    requires
        ascending(months),
        !months.contains(key),
    ensures
        ascending(r),
        forall|k: (i32, u32)| r.contains(k) <==> (months.contains(k) || k == key),
    decreases months.len(),
{
    if months.len() == 0 {
        let r = seq![key];
        assert(r[0] == key);
        r
    } else if month_before(months.last(), key) {
        let r = months.push(key);
        assert(r[months.len() as int] == key);
        assert forall|k: (i32, u32)| r.contains(k) <==> (months.contains(k) || k == key) by {
            if months.contains(k) {
                let i = choose|i: int| 0 <= i < months.len() && months[i] == k;
                assert(r[i] == k);
            }
        }
        assert forall|i: int, j: int| 0 <= i < j < r.len() implies month_before(
            #[trigger] r[i],
            #[trigger] r[j],
        ) by {
            if j == months.len() && i < months.len() - 1 {
                assert(month_before(months[i], months[months.len() - 1]));
            }
        }
        r
    } else {
        let front = months.drop_last();
        let last = months.last();
        assert(months.contains(last)) by {
            assert(months[months.len() - 1] == last);
        }
        assert(!front.contains(key)) by {
            if front.contains(key) {
                let i = choose|i: int| 0 <= i < front.len() && front[i] == key;
                assert(months[i] == key);
            }
        }
        let inserted = lemma_insert_month(front, key);
        let r = inserted.push(last);
        assert(r[inserted.len() as int] == last);
        assert forall|k: (i32, u32)| r.contains(k) <==> (months.contains(k) || k == key) by {
            if inserted.contains(k) {
                let i = choose|i: int| 0 <= i < inserted.len() && inserted[i] == k;
                assert(r[i] == k);
            }
            if front.contains(k) {
                let i = choose|i: int| 0 <= i < front.len() && front[i] == k;
                assert(months[i] == k);
            }
            if months.contains(k) && k != last {
                let i = choose|i: int| 0 <= i < months.len() && months[i] == k;
                assert(front[i] == k);
            }
            if r.contains(k) {
                let i = choose|i: int| 0 <= i < r.len() && r[i] == k;
                if i < inserted.len() {
                    assert(inserted[i] == k);
                }
            }
        }
        assert forall|i: int, j: int| 0 <= i < j < r.len() implies month_before(
            #[trigger] r[i],
            #[trigger] r[j],
        ) by {
            if j == inserted.len() {
                assert(inserted.contains(r[i])) by {
                    assert(inserted[i] == r[i]);
                }
                if r[i] != key {
                    let m = choose|m: int| 0 <= m < front.len() && front[m] == r[i];
                    assert(month_before(months[m], months[months.len() - 1]));
                }
            } else {
                assert(month_before(inserted[i], inserted[j]));
            }
        }
        r
    }
}

/// The months of a finite set can be listed from the earliest to the latest:
/// [`in_order`] of the set is that list.
pub proof fn lemma_finite_set_can_be_listed(set: Set<(i32, u32)>)
    requires
        set.finite(),
    ensures
        lists_in_order(in_order(set), set),
    decreases set.len(),
{
    if set.len() == 0 {
        assert(set =~= Set::<(i32, u32)>::empty());
        assert(lists_in_order(Seq::<(i32, u32)>::empty(), set));
    } else {
        let key = set.choose();
        let rest = set.remove(key);
        lemma_finite_set_can_be_listed(rest);
        let listed = in_order(rest);
        let longer = lemma_insert_month(listed, key);
        assert(lists_in_order(longer, set));
    }
}

/// The months of a book can be listed from the earliest to the latest:
/// [`in_order`] of them is that list.
pub proof fn lemma_months_can_be_listed(entries: Seq<Entry>)
    ensures
        lists_in_order(in_order(month_keys(entries)), month_keys(entries)),
    decreases entries.len(),
{
    if entries.len() == 0 {
        assert(lists_in_order(Seq::<(i32, u32)>::empty(), month_keys(entries)));
    } else {
        let front = entries.drop_last();
        let key = entries.last().month_key();
        lemma_months_can_be_listed(front);
        let listed = in_order(month_keys(front));
        assert forall|k: (i32, u32)| month_keys(entries).contains(k) <==> (month_keys(
            front,
        ).contains(k) || k == key) by {
            assert(entries[entries.len() - 1].month_key() == key);
            if month_keys(entries).contains(k) {
                let i = choose|i: int|
                    0 <= i < entries.len() && #[trigger] entries[i].month_key() == k;
                if i < front.len() {
                    assert(front[i].month_key() == k);
                }
            }
            if month_keys(front).contains(k) {
                let i = choose|i: int| 0 <= i < front.len() && #[trigger] front[i].month_key() == k;
                assert(entries[i].month_key() == k);
            }
        }
        if listed.contains(key) {
            assert(lists_in_order(listed, month_keys(entries)));
        } else {
            let longer = lemma_insert_month(listed, key);
            assert(lists_in_order(longer, month_keys(entries)));
        }
    }
}

/// The lines written for the table of a book are the book's report.
pub proof fn lemma_table_text_is_report(table: Map<(i32, u32), i128>, entries: Seq<Entry>)
    requires
        is_monthly_table(table, entries),
    ensures
        table_text(table) == report(entries),
{
    lemma_months_can_be_listed(entries);
    let months = in_order(month_keys(entries));
    assert(table_text(table) =~= report(entries)) by {
        assert forall|i: int| 0 <= i < months.len() implies table_text(table)[i] == report(
            entries,
        )[i] by {
            assert(months.contains(months[i]));
        }
    }
}

/// What summarizing gives for what the store held: the report on its
/// entries, or the reason why there is none.
pub open spec fn summary(found: Found) -> Result<Seq<Seq<char>>, StoreError> {
    match book_to_report(found) {
        Ok(entries) => Ok(report(entries)),
        Err(e) => Err(e),
    }
}

/// Summarizes what the store held: the report on its entries, or the reason
/// why there is none. A store without entries gives no empty report but an
/// error.
pub fn run(found: StoreContent) -> (r: Result<Vec<String>, StoreError>)
    ensures
        match (r, summary(found@)) {
            (Ok(lines), Ok(expected)) => lines.deep_view() == expected,
            (Err(e), Err(expected)) => e == expected,
            _ => false,
        },
{
    match read_data_or_panic(found) {
        Ok(data) => {
            let result_table = monthly_totals(&data);
            let lines = format_table(&result_table);
            proof {
                lemma_table_text_is_report(result_table@, data.deep_view());
            }
            Ok(lines)
        },
        Err(e) => Err(e),
    }
}

/// Summarizing the same store twice gives the same outcome: what comes out
/// depends on nothing but what the store held.
pub proof fn lemma_summary_repeats(
    found: Found,
    first: Result<Seq<Seq<char>>, StoreError>,
    second: Result<Seq<Seq<char>>, StoreError>,
)
    requires
        first == summary(found),
        second == summary(found),
    ensures
        first == second,
{
}

/// Entries of one book that agree in year and month lie in the same bucket,
/// whatever their days; entries that differ in year or month lie in no
/// bucket together. Every entry lies in the bucket of its own month.
pub proof fn lemma_buckets_follow_months(entries: Seq<Entry>, i: int, j: int, key: (i32, u32))
    requires
        0 <= i < entries.len(),
        0 <= j < entries.len(),
    ensures
        bucket(entries, entries[i].month_key()).contains(entries[i]),
        entries[i].date.year == entries[j].date.year && entries[i].date.month
            == entries[j].date.month ==> (bucket(entries, key).contains(entries[i]) <==> bucket(
            entries,
            key,
        ).contains(entries[j])),
        entries[i].date.year != entries[j].date.year || entries[i].date.month
            != entries[j].date.month ==> !(bucket(entries, key).contains(entries[i]) && bucket(
            entries,
            key,
        ).contains(entries[j])),
{
    let own = entries[i].month_key();
    entries.lemma_filter_contains(booked_in(own), i);
    let picked = bucket(entries, key);
    if entries[i].month_key() == key {
        entries.lemma_filter_contains(booked_in(key), i);
    }
    if entries[j].month_key() == key {
        entries.lemma_filter_contains(booked_in(key), j);
    }
    if picked.contains(entries[i]) {
        let k = choose|k: int| 0 <= k < picked.len() && picked[k] == entries[i];
        entries.lemma_filter_pred(booked_in(key), k);
    }
    if picked.contains(entries[j]) {
        let k = choose|k: int| 0 <= k < picked.len() && picked[k] == entries[j];
        entries.lemma_filter_pred(booked_in(key), k);
    }
}

} // verus!
