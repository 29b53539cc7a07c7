//! The header set of an exporter: each header name with the ordered list of
//! its values. Names are told apart exactly as written, keep the order in
//! which they first came, and no name is held twice.

use crate::text::{
    chars_of, find_char, first_index, lemma_first_index_bounds, lemma_first_index_is, split,
    substring, trim, trim_range,
};
use vstd::prelude::*;

verus! {

/// Name of the header that identifies this library to the collector.
pub const USER_AGENT_NAME: &'static str = "User-Agent";

/// Value of the header that identifies this library to the collector.
pub const USER_AGENT_VALUE: &'static str = "otlp-exporter-rust/0.1.0";

/// What a header set is, mathematically: its entries in order, each a name
/// with the values given for it.
pub type HeadersView = Seq<(Seq<char>, Seq<Seq<char>>)>;

/// The character sequences of a list of strings.
pub open spec fn texts(v: Seq<String>) -> Seq<Seq<char>> {
    Seq::new(v.len(), |i: int| v[i]@)
}

/// The names of a header set, in order.
pub open spec fn names_of(h: HeadersView) -> Seq<Seq<char>> {
    Seq::new(h.len(), |i: int| h[i].0)
}

/// No name occurs in two entries.
pub open spec fn distinct_names(h: HeadersView) -> bool {
    forall|i: int, j: int| 0 <= i < j < h.len() ==> (#[trigger] h[i]).0 != (#[trigger] h[j]).0
}

/// The position of the entry for `name`, or `h.len()` where there is none.
pub open spec fn position_of(h: HeadersView, name: Seq<char>) -> int {
    first_index(names_of(h), name)
}

/// The values held for `name`, if it has an entry.
pub open spec fn values_of(h: HeadersView, name: Seq<char>) -> Option<Seq<Seq<char>>> {
    let i = position_of(h, name);
    if 0 <= i < h.len() {
        Some(h[i].1)
    } else {
        None
    }
}

/// `h` after one more value was given for `name`: it goes to the end of the
/// name's values, and a name not seen before gets a new last entry.
pub open spec fn appended(h: HeadersView, name: Seq<char>, value: Seq<char>) -> HeadersView {
    let i = position_of(h, name);
    if 0 <= i < h.len() {
        h.update(i, (name, h[i].1.push(value)))
    } else {
        h.push((name, seq![value]))
    }
}

/// `h` after `value` became the only value of `name`.
pub open spec fn replaced(h: HeadersView, name: Seq<char>, value: Seq<char>) -> HeadersView {
    let i = position_of(h, name);
    if 0 <= i < h.len() {
        h.update(i, (name, seq![value]))
    } else {
        h.push((name, seq![value]))
    }
}

/// The header set every configuration starts from: the one entry that
/// identifies this library.
pub open spec fn default_headers_view() -> HeadersView {
    seq![(USER_AGENT_NAME@, seq![USER_AGENT_VALUE@])]
}

/// What one item of a header list stands for. An item is `key=value`, cut at
/// its first `=`; key and value are trimmed. An item without `=`, or whose
/// key is empty once trimmed, stands for nothing.
pub open spec fn header_item(item: Seq<char>) -> Option<(Seq<char>, Seq<char>)> {
    let eq = first_index(item, '=');
    if 0 <= eq < item.len() && trim(item.take(eq)).len() > 0 {
        Some((trim(item.take(eq)), trim(item.skip(eq + 1))))
    } else {
        None
    }
}

/// `h` after the items were read in order, each adding its value to its key.
pub open spec fn with_items(h: HeadersView, items: Seq<Seq<char>>) -> HeadersView
    decreases items.len(),
{
    if items.len() == 0 {
        h
    } else {
        let before = with_items(h, items.drop_last());
        match header_item(items.last()) {
            Some((key, value)) => appended(before, key, value),
            None => before,
        }
    }
}

/// `h` after a comma-separated header list was read on top of it.
pub open spec fn with_header_text(h: HeadersView, text: Seq<char>) -> HeadersView {
    with_items(h, split(text, ','))
}

/// Adding a value keeps names distinct.
pub proof fn lemma_appended_distinct(h: HeadersView, name: Seq<char>, value: Seq<char>)
    requires
        distinct_names(h),
    ensures
        distinct_names(appended(h, name, value)),
{
    lemma_position(h, name);
    let i = position_of(h, name);
    let r = appended(h, name, value);
    assert forall|a: int, b: int| 0 <= a < b < r.len() implies (#[trigger] r[a]).0 != (
    #[trigger] r[b]).0 by {
        if i < h.len() {
            assert(r[a].0 == h[a].0);
            assert(r[b].0 == h[b].0);
        } else {
            if b < h.len() {
                assert(r[a] == h[a] && r[b] == h[b]);
            } else {
                assert(r[a] == h[a]);
                assert(names_of(h)[a] == h[a].0);
            }
        }
    }
}

/// Replacing the values of a name keeps names distinct.
pub proof fn lemma_replaced_distinct(h: HeadersView, name: Seq<char>, value: Seq<char>)
    requires
        distinct_names(h),
    ensures
        distinct_names(replaced(h, name, value)),
{
    lemma_position(h, name);
    let i = position_of(h, name);
    let r = replaced(h, name, value);
    assert forall|a: int, b: int| 0 <= a < b < r.len() implies (#[trigger] r[a]).0 != (
    #[trigger] r[b]).0 by {
        if i < h.len() {
            assert(r[a].0 == h[a].0);
            assert(r[b].0 == h[b].0);
        } else {
            if b < h.len() {
                assert(r[a] == h[a] && r[b] == h[b]);
            } else {
                assert(r[a] == h[a]);
                assert(names_of(h)[a] == h[a].0);
            }
        }
    }
}

/// What `position_of` returns: the place of the entry named `name`, with no
/// such entry before it, or the length where no entry has that name.
pub proof fn lemma_position(h: HeadersView, name: Seq<char>)
    ensures
        0 <= position_of(h, name) <= h.len(),
        position_of(h, name) < h.len() ==> h[position_of(h, name)].0 == name,
        forall|j: int| 0 <= j < position_of(h, name) ==> (#[trigger] h[j]).0 != name,
{
    let names = names_of(h);
    lemma_first_index_bounds(names, name);
    assert forall|j: int| 0 <= j < position_of(h, name) implies (#[trigger] h[j]).0 != name by {
        assert(names[j] == h[j].0);
    }
}

/// What `split` makes of the rest of `s` from `start`, when the next
/// separator stands at `i`: the piece up to `i`, then what it makes of the
/// rest behind `i`.
proof fn lemma_split_step(s: Seq<char>, sep: char, start: int, i: int)
    requires
        0 <= start <= i < s.len(),
        s[i] == sep,
        forall|j: int| start <= j < i ==> s[j] != sep,
    ensures
        split(s.skip(start), sep) == seq![s.subrange(start, i)] + split(s.skip(i + 1), sep),
{
    let t = s.skip(start);
    lemma_first_index_is(t, sep, i - start);
    assert(t.take(i - start) == s.subrange(start, i));
    assert(t.skip(i - start + 1) == s.skip(i + 1));
}

/// What `split` makes of the rest of `s` from `start`, when no separator is
/// left: the rest, as one piece.
proof fn lemma_split_last(s: Seq<char>, sep: char, start: int)
    requires
        0 <= start <= s.len(),
        forall|j: int| start <= j < s.len() ==> s[j] != sep,
    ensures
        split(s.skip(start), sep) == seq![s.skip(start)],
{
    let t = s.skip(start);
    lemma_first_index_is(t, sep, t.len() as int);
}

/// A set of headers: names in the order in which they first came, each with
/// the values given for it, in order.
#[derive(Debug, PartialEq, Eq)]
pub struct Headers {
    entries: Vec<(String, Vec<String>)>,
}

impl View for Headers {
    type V = HeadersView;

    closed spec fn view(&self) -> HeadersView {
        Seq::new(
            self.entries@.len(),
            |i: int| (self.entries@[i].0@, texts(self.entries@[i].1@)),
        )
    }
}

impl Clone for Headers {
    fn clone(&self) -> (r: Headers)
        ensures
            r@ == self@,
    {
        proof {
            use_type_invariant(self);
        }
        let mut entries: Vec<(String, Vec<String>)> = Vec::new();
        let mut i: usize = 0;
        while i < self.entries.len()
            invariant
                i <= self.entries@.len(),
                entries@.len() == i,
                forall|k: int|
                    0 <= k < i ==> entries@[k].0@ == self.entries@[k].0@ && texts(entries@[k].1@)
                        == texts(self.entries@[k].1@),
            decreases self.entries@.len() - i,
        {
            let values = clone_texts(&self.entries[i].1);
            entries.push((self.entries[i].0.clone(), values));
            i += 1;
        }
        assert(Headers { entries }@ =~~= self@);
        Headers { entries }
    }
}

/// A copy of a list of strings.
pub fn clone_texts(list: &Vec<String>) -> (r: Vec<String>)
    ensures
        texts(r@) == texts(list@),
{
    let mut r: Vec<String> = Vec::new();
    let mut i: usize = 0;
    while i < list.len()
        invariant
            i <= list@.len(),
            r@.len() == i,
            forall|k: int| 0 <= k < i ==> r@[k]@ == list@[k]@,
        decreases list@.len() - i,
    {
        r.push(list[i].clone());
        i += 1;
    }
    assert(texts(r@) =~= texts(list@));
    r
}

impl Headers {
    /// What holds of every value of this type.
    #[verifier::type_invariant]
    pub open spec fn well_formed(self) -> bool {
        distinct_names(self@)
    }

    /// A header set without entries.
    pub fn new() -> (r: Headers)
        ensures
            r@ == Seq::<(Seq<char>, Seq<Seq<char>>)>::empty(),
    {
        let entries: Vec<(String, Vec<String>)> = Vec::new();
        assert(Headers { entries }@ =~= Seq::<(Seq<char>, Seq<Seq<char>>)>::empty());
        Headers { entries }
    }

    /// The number of names.
    pub fn len(&self) -> (n: usize)
        ensures
            n == self@.len(),
    {
        self.entries.len()
    }

    /// The name of entry `i`.
    pub fn name_at(&self, i: usize) -> (name: &String)
        requires
            i < self@.len(),
        ensures
            name@ == self@[i as int].0,
    {
        &self.entries[i].0
    }

    /// The values of entry `i`.
    pub fn values_at(&self, i: usize) -> (values: &Vec<String>)
        requires
            i < self@.len(),
        ensures
            texts(values@) == self@[i as int].1,
    {
        &self.entries[i].1
    }

    /// Where the entry for `name` stands; `len()` where there is none.
    pub fn position(&self, name: &str) -> (i: usize)
        ensures
            i == position_of(self@, name@),
            i <= self@.len(),
    {
        let wanted = name.to_owned();
        let mut i: usize = 0;
        while i < self.entries.len() && self.entries[i].0 != wanted
            invariant
                i <= self.entries@.len(),
                wanted@ == name@,
                forall|j: int| 0 <= j < i ==> self.entries@[j].0@ != name@,
            decreases self.entries@.len() - i,
        {
            i += 1;
        }
        proof {
            let names = names_of(self@);
            assert forall|j: int| 0 <= j < i implies names[j] != name@ by {
                assert(names[j] == self.entries@[j].0@);
            }
            if i < names.len() {
                assert(names[i as int] == self.entries@[i as int].0@);
            }
            lemma_first_index_is(names, name@, i as int);
        }
        i
    }

    /// The values held for `name`.
    pub fn get(&self, name: &str) -> (r: Option<&Vec<String>>)
        ensures
            match r {
                Some(values) => values_of(self@, name@) == Some(texts(values@)),
                None => values_of(self@, name@).is_none(),
            },
    {
        let i = self.position(name);
        if i < self.entries.len() {
            Some(&self.entries[i].1)
        } else {
            None
        }
    }

    /// Gives one more value for `name`.
    pub fn add(self, name: &str, value: &str) -> (r: Headers)
        ensures
            r@ == appended(self@, name@, value@),
    {
        let i = self.position(name);
        proof {
            use_type_invariant(&self);
            lemma_appended_distinct(self@, name@, value@);
            lemma_position(self@, name@);
        }
        let ghost before = self@;
        let mut entries = self.entries;
        if i < entries.len() {
            entries[i].1.push(value.to_owned());
        } else {
            let mut values: Vec<String> = Vec::new();
            values.push(value.to_owned());
            entries.push((name.to_owned(), values));
        }
        assert(Headers { entries }@ =~~= appended(before, name@, value@));
        Headers { entries }
    }

    /// Makes `value` the only value of `name`.
    pub fn replace(self, name: &str, value: &str) -> (r: Headers)
        ensures
            r@ == replaced(self@, name@, value@),
    {
        let i = self.position(name);
        proof {
            use_type_invariant(&self);
            lemma_replaced_distinct(self@, name@, value@);
            lemma_position(self@, name@);
        }
        let ghost before = self@;
        let mut entries = self.entries;
        let mut values: Vec<String> = Vec::new();
        values.push(value.to_owned());
        if i < entries.len() {
            entries[i].1 = values;
        } else {
            entries.push((name.to_owned(), values));
        }
        assert(Headers { entries }@ =~~= replaced(before, name@, value@));
        Headers { entries }
    }

    /// The header set every configuration starts from.
    pub fn default_set() -> (r: Headers)
        ensures
            r@ == default_headers_view(),
    {
        let r = Headers::new().add(USER_AGENT_NAME, USER_AGENT_VALUE);
        proof {
            lemma_position(Seq::<(Seq<char>, Seq<Seq<char>>)>::empty(), USER_AGENT_NAME@);
        }
        assert(r@ =~~= default_headers_view());
        r
    }

    /// Reads a comma-separated header list on top of this set.
    pub fn with_text(self, text: &str) -> (r: Headers)
        ensures
            r@ == with_header_text(self@, text@),
    {
        let chars = chars_of(text);
        let n = chars.len();
        let ghost base = self@;
        let ghost s = text@;
        let ghost mut done: Seq<Seq<char>> = Seq::empty();
        let mut res = self;
        let mut start: usize = 0;
        let mut i: usize = 0;
        assert(s.skip(0) == s);
        assert(done + split(s, ',') == split(s, ','));
        while i < n
            invariant
                0 <= start <= i <= n,
                n == chars@.len(),
                chars@ == s,
                s == text@,
                forall|j: int| start <= j < i ==> s[j] != ',',
                split(s, ',') == done + split(s.skip(start as int), ','),
                res@ == with_items(base, done),
            decreases n - i,
        {
            if chars[i] == ',' {
                proof {
                    lemma_split_step(s, ',', start as int, i as int);
                    let item = s.subrange(start as int, i as int);
                    assert(done.push(item).drop_last() == done);
                    assert(done + (seq![item] + split(s.skip(i + 1), ',')) == done.push(item)
                        + split(s.skip(i + 1), ','));
                    done = done.push(item);
                }
                res = res.with_item(text, &chars, start, i);
                start = i + 1;
            }
            i += 1;
        }
        proof {
            lemma_split_last(s, ',', start as int);
            let item = s.subrange(start as int, n as int);
            assert(item == s.skip(start as int));
            assert(done.push(item).drop_last() == done);
            assert(done + seq![item] == done.push(item));
        }
        res.with_item(text, &chars, start, n)
    }

    /// Reads the one item `chars[lo..hi]` of a header list on top of this set.
    fn with_item(self, text: &str, chars: &Vec<char>, lo: usize, hi: usize) -> (r: Headers)
        requires
            chars@ == text@,
            lo <= hi <= chars@.len(),
        ensures
            r@ == match header_item(chars@.subrange(lo as int, hi as int)) {
                Some((key, value)) => appended(self@, key, value),
                None => self@,
            },
    {
        let ghost item = chars@.subrange(lo as int, hi as int);
        let eq = find_char(chars, lo, hi, '=');
        if eq == hi {
            return self;
        }
        assert(item.take(eq - lo) == chars@.subrange(lo as int, eq as int));
        assert(item.skip(eq - lo + 1) == chars@.subrange(eq as int + 1, hi as int));
        let (a, b) = trim_range(chars, lo, eq);
        if a == b {
            return self;
        }
        let (c, d) = trim_range(chars, eq + 1, hi);
        let key = substring(text, a, b);
        let value = substring(text, c, d);
        self.add(key.as_str(), value.as_str())
    }
}

} // verus!
