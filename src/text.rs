//! Character-level models and helpers shared by the validators: unsigned
//! integer text, splitting on a separator, whitespace-separated words and
//! fully-qualified (dot-terminated) names.
use vstd::prelude::*;

verus! {

pub open spec fn is_digit(c: char) -> bool {
    '0' <= c && c <= '9'
}

pub open spec fn digit_value(c: char) -> nat {
    (c as int - '0' as int) as nat
}

/// Decimal value of a run of digits.
pub open spec fn digits_value(s: Seq<char>) -> nat
    decreases s.len(),
{
    if s.len() == 0 {
        0
    } else {
        digits_value(s.drop_last()) * 10 + digit_value(s.last())
    }
}

/// The digits of an unsigned number: the text without one leading `+`.
pub open spec fn unsigned_body(s: Seq<char>) -> Seq<char> {
    if s.len() > 0 && s[0] == '+' {
        s.drop_first()
    } else {
        s
    }
}

/// `s` is accepted by std's parse of an unsigned integer whose largest value is `max`:
/// an optional `+`, then one or more ASCII digits, with a value of at most `max`.
pub open spec fn parses_uint(s: Seq<char>, max: nat) -> bool {
    let d = unsigned_body(s);
    &&& d.len() > 0
    &&& forall|i: int| 0 <= i < d.len() ==> is_digit(#[trigger] d[i])
    &&& digits_value(d) <= max
}

pub open spec fn is_hex_digit(c: char) -> bool {
    ('0' <= c && c <= '9') || ('a' <= c && c <= 'f') || ('A' <= c && c <= 'F')
}

/// The characters with Unicode's White_Space property (those of `char::is_whitespace`).
pub open spec fn is_ws(c: char) -> bool {
    ('\u{9}' <= c && c <= '\u{d}') || c == ' ' || c == '\u{85}' || c == '\u{a0}' || c
        == '\u{1680}' || ('\u{2000}' <= c && c <= '\u{200a}') || c == '\u{2028}' || c
        == '\u{2029}' || c == '\u{202f}' || c == '\u{205f}' || c == '\u{3000}'
}

/// The pieces of `s` between occurrences of `sep`, in order; there is always at least one.
pub open spec fn split_on(s: Seq<char>, sep: char) -> Seq<Seq<char>>
    decreases s.len(),
{
    if s.len() == 0 {
        seq![Seq::empty()]
    } else {
        let p = split_on(s.drop_last(), sep);
        if s.last() == sep {
            p.push(Seq::empty())
        } else {
            p.update(p.len() - 1, p.last().push(s.last()))
        }
    }
}

/// The maximal runs of non-whitespace characters of `s`, in order.
pub open spec fn words(s: Seq<char>) -> Seq<Seq<char>>
    decreases s.len(),
{
    if s.len() == 0 {
        seq![]
    } else {
        let w = words(s.drop_last());
        let c = s.last();
        if is_ws(c) {
            w
        } else if s.len() >= 2 && !is_ws(s[s.len() - 2]) {
            w.update(w.len() - 1, w.last().push(c))
        } else {
            w.push(seq![c])
        }
    }
}

pub open spec fn ends_with_dot(s: Seq<char>) -> bool {
    s.len() > 0 && s.last() == '.'
}

/// A name in its fully-qualified form: it ends with a dot.
pub open spec fn normalized(s: Seq<char>) -> Seq<char> {
    if ends_with_dot(s) {
        s
    } else {
        s.push('.')
    }
}

pub open spec fn hex_char(n: nat) -> char {
    seq!['0', '1', '2', '3', '4', '5', '6', '7', '8', '9', 'a', 'b', 'c', 'd', 'e', 'f'][n as int]
}

/// Lower-case hexadecimal text of a byte string, two digits per byte.
pub open spec fn hex_of(b: Seq<u8>) -> Seq<char>
    decreases b.len(),
{
    if b.len() == 0 {
        seq![]
    } else {
        hex_of(b.drop_last()) + seq![hex_char((b.last() / 16) as nat), hex_char((b.last() % 16) as nat)]
    }
}

/// Four dot-separated pieces, each an unsigned integer of at most 255.
pub open spec fn is_ipv4_text(s: Seq<char>) -> bool {
    let p = split_on(s, '.');
    &&& p.len() == 4
    &&& forall|i: int| 0 <= i < 4 ==> parses_uint(#[trigger] p[i], 255)
}

/// An octet as std's address parse takes it: one to three digits, no
/// leading zero unless it is the only digit, at most 255.
pub open spec fn is_std_octet(g: Seq<char>) -> bool {
    &&& 1 <= g.len() <= 3
    &&& is_digit(g[0])
    &&& (g.len() == 1 || g[0] != '0')
    &&& parses_uint(g, 255)
}

/// IPv4 address text as std's `Ipv4Addr` parse accepts it.
pub open spec fn is_std_ipv4(s: Seq<char>) -> bool {
    let p = split_on(s, '.');
    &&& p.len() == 4
    &&& forall|i: int| 0 <= i < 4 ==> is_std_octet(#[trigger] p[i])
}

/// One to four hexadecimal digits.
pub open spec fn is_hex_group(g: Seq<char>) -> bool {
    1 <= g.len() <= 4 && forall|j: int| 0 <= j < g.len() ==> is_hex_digit(#[trigger] g[j])
}

/// The colon-separated groups of `s` are all hexadecimal groups.
pub open spec fn all_hex_groups(s: Seq<char>) -> bool {
    let p = split_on(s, ':');
    forall|i: int| 0 <= i < p.len() ==> is_hex_group(#[trigger] p[i])
}

/// How many 16-bit slots the colon-separated groups of `s` fill: hexadecimal
/// groups fill one each, and a final embedded IPv4 address fills two.
pub open spec fn group_slots(s: Seq<char>) -> Option<int> {
    let p = split_on(s, ':');
    if all_hex_groups(s) {
        Some(p.len() as int)
    } else if (forall|i: int| 0 <= i < p.len() - 1 ==> is_hex_group(#[trigger] p[i]))
        && is_std_ipv4(p.last()) {
        Some(p.len() as int + 1)
    } else {
        None
    }
}

/// `s` is `head::tail` with the `::` at `i`: the head holds hexadecimal groups
/// only, and head and tail together fill at most seven slots.
pub open spec fn compressed_at(s: Seq<char>, i: int) -> bool {
    let a = s.take(i);
    let b = s.skip(i + 2);
    let h = if a.len() == 0 { 0 } else { split_on(a, ':').len() as int };
    let t = if b.len() == 0 { Some(0int) } else { group_slots(b) };
    &&& 0 <= i && i + 2 <= s.len()
    &&& s[i] == ':' && s[i + 1] == ':'
    &&& (a.len() == 0 || all_hex_groups(a))
    &&& t is Some
    &&& h + t->0 <= 7
}

/// IPv6 address text as std's `Ipv6Addr` parse accepts it: eight slots of
/// groups, or fewer with one `::` standing for the rest.
pub open spec fn is_std_ipv6(s: Seq<char>) -> bool {
    group_slots(s) == Some(8int) || exists|i: int| #[trigger] compressed_at(s, i)
}

pub proof fn lemma_split_on_nonempty(s: Seq<char>, sep: char)
    ensures
        split_on(s, sep).len() >= 1,
    decreases s.len(),
{
    if s.len() > 0 {
        lemma_split_on_nonempty(s.drop_last(), sep);
    }
}

pub proof fn lemma_words_nonempty(s: Seq<char>)
    requires
        s.len() > 0,
        !is_ws(s.last()),
    ensures
        words(s).len() >= 1,
    decreases s.len(),
{
    if s.len() >= 2 && !is_ws(s[s.len() - 2]) {
        lemma_words_nonempty(s.drop_last());
    }
}

/// The characters of `s`, one per element.
pub fn chars_of(s: &str) -> (r: Vec<char>)
    ensures
        r@ == s@,
{
    let n = s.unicode_len();
    let mut r: Vec<char> = Vec::new();
    let mut i: usize = 0;
    while i < n
        invariant
            i <= n,
            n == s@.len(),
            r@ == s@.take(i as int),
        decreases n - i,
    {
        r.push(s.get_char(i));
        i += 1;
        assert(r@ =~= s@.take(i as int));
    }
    assert(r@ =~= s@);
    r
}

pub fn ends_with_char(s: &str, c: char) -> (b: bool)
    ensures
        b == (s@.len() > 0 && s@.last() == c),
{
    let n = s.unicode_len();
    n > 0 && s.get_char(n - 1) == c
}

pub fn is_whitespace_char(c: char) -> (b: bool)
    ensures
        b == is_ws(c),
{
    ('\u{9}' <= c && c <= '\u{d}') || c == ' ' || c == '\u{85}' || c == '\u{a0}' || c
        == '\u{1680}' || ('\u{2000}' <= c && c <= '\u{200a}') || c == '\u{2028}' || c
        == '\u{2029}' || c == '\u{202f}' || c == '\u{205f}' || c == '\u{3000}'
}

pub fn is_hex_digit_char(c: char) -> (b: bool)
    ensures
        b == is_hex_digit(c),
{
    ('0' <= c && c <= '9') || ('a' <= c && c <= 'f') || ('A' <= c && c <= 'F')
}

/// Reads `v[lo..hi]` as an unsigned integer of at most `max`, as std's parse does.
pub fn parse_uint(v: &Vec<char>, lo: usize, hi: usize, max: u32) -> (r: Option<u32>)
    requires
        lo <= hi <= v@.len(),
    ensures
        r is Some <==> parses_uint(v@.subrange(lo as int, hi as int), max as nat),
        r matches Some(n) ==> n as nat == digits_value(
            unsigned_body(v@.subrange(lo as int, hi as int)),
        ),
{
    let ghost s = v@.subrange(lo as int, hi as int);
    let mut i: usize = lo;
    if i < hi && v[i] == '+' {
        i = i + 1;
        assert(unsigned_body(s) =~= v@.subrange(i as int, hi as int));
    } else {
        assert(unsigned_body(s) =~= v@.subrange(i as int, hi as int));
    }
    if i == hi {
        return None;
    }
    let start = i;
    let ghost d = v@.subrange(start as int, hi as int);
    let mut val: u64 = 0;
    let mut big = false;
    assert(v@.subrange(start as int, start as int) =~= Seq::<char>::empty());
    while i < hi
        invariant
            lo <= start <= i <= hi <= v@.len(),
            start < hi,
            d == v@.subrange(start as int, hi as int),
            s == v@.subrange(lo as int, hi as int),
            unsigned_body(s) == d,
            forall|j: int| start <= j < i ==> is_digit(#[trigger] v@[j]),
            !big ==> val as nat == digits_value(v@.subrange(start as int, i as int)) && val
                <= max,
            big ==> digits_value(v@.subrange(start as int, i as int)) > max,
        decreases hi - i,
    {
        let c = v[i];
        if !('0' <= c && c <= '9') {
            assert(d[i - start] == c);
            assert(!is_digit(d[i - start]));
            assert(!parses_uint(s, max as nat));
            return None;
        }
        let dv = (c as u32 - '0' as u32) as u64;
        proof {
            assert(v@.subrange(start as int, i + 1).drop_last() =~= v@.subrange(
                start as int,
                i as int,
            ));
        }
        if !big {
            val = val * 10 + dv;
            if val > max as u64 {
                big = true;
            }
        }
        i += 1;
    }
    assert(v@.subrange(start as int, i as int) =~= d);
    assert forall|j: int| 0 <= j < d.len() implies is_digit(#[trigger] d[j]) by {
        assert(d[j] == v@[start + j]);
    }
    if big {
        None
    } else {
        Some(val as u32)
    }
}

/// The bounds of each piece of `split_on(v, sep)`.
pub fn split_ranges(v: &Vec<char>, sep: char) -> (r: Vec<(usize, usize)>)
    ensures
        r@.len() == split_on(v@, sep).len(),
        forall|k: int|
            0 <= k < r@.len() ==> {
                &&& (#[trigger] r@[k]).0 <= r@[k].1 <= v@.len()
                &&& v@.subrange(r@[k].0 as int, r@[k].1 as int) == split_on(v@, sep)[k]
            },
{
    let mut r: Vec<(usize, usize)> = Vec::new();
    let mut start: usize = 0;
    let mut i: usize = 0;
    assert(v@.take(0) =~= Seq::<char>::empty());
    assert(v@.subrange(0, 0) =~= Seq::<char>::empty());
    while i < v.len()
        invariant
            start <= i <= v@.len(),
            r@.len() + 1 == split_on(v@.take(i as int), sep).len(),
            forall|k: int|
                0 <= k < r@.len() ==> {
                    &&& (#[trigger] r@[k]).0 <= r@[k].1 <= v@.len()
                    &&& v@.subrange(r@[k].0 as int, r@[k].1 as int) == split_on(
                        v@.take(i as int),
                        sep,
                    )[k]
                },
            v@.subrange(start as int, i as int) == split_on(v@.take(i as int), sep).last(),
        decreases v.len() - i,
    {
        let ghost p = split_on(v@.take(i as int), sep);
        proof {
            assert(v@.take(i + 1).drop_last() =~= v@.take(i as int));
            assert(v@.take(i + 1).last() == v@[i as int]);
            lemma_split_on_nonempty(v@.take(i as int), sep);
        }
        if v[i] == sep {
            r.push((start, i));
            start = i + 1;
            i += 1;
            assert(v@.subrange(start as int, i as int) =~= Seq::<char>::empty());
        } else {
            i += 1;
            assert(v@.subrange(start as int, i as int) =~= v@.subrange(
                start as int,
                i - 1,
            ).push(v@[i - 1]));
        }
    }
    r.push((start, v.len()));
    assert(v@.take(v@.len() as int) =~= v@);
    r
}

/// The bounds of each of `words(v)`.
pub fn word_ranges(v: &Vec<char>) -> (r: Vec<(usize, usize)>)
    ensures
        r@.len() == words(v@).len(),
        forall|k: int|
            0 <= k < r@.len() ==> {
                &&& (#[trigger] r@[k]).0 <= r@[k].1 <= v@.len()
                &&& v@.subrange(r@[k].0 as int, r@[k].1 as int) == words(v@)[k]
            },
{
    let mut r: Vec<(usize, usize)> = Vec::new();
    let mut start: usize = 0;
    let mut in_word = false;
    let mut i: usize = 0;
    assert(v@.take(0) =~= Seq::<char>::empty());
    while i < v.len()
        invariant
            start <= i <= v@.len(),
            r@.len() + (if in_word {
                1int
            } else {
                0int
            }) == words(v@.take(i as int)).len(),
            in_word <==> (i > 0 && !is_ws(v@[i - 1])),
            in_word ==> start < i && v@.subrange(start as int, i as int) == words(
                v@.take(i as int),
            ).last(),
            forall|k: int|
                0 <= k < r@.len() ==> {
                    &&& (#[trigger] r@[k]).0 <= r@[k].1 <= v@.len()
                    &&& v@.subrange(r@[k].0 as int, r@[k].1 as int) == words(
                        v@.take(i as int),
                    )[k]
                },
        decreases v.len() - i,
    {
        let ghost w = words(v@.take(i as int));
        proof {
            assert(v@.take(i + 1).drop_last() =~= v@.take(i as int));
            assert(v@.take(i + 1).last() == v@[i as int]);
            if i > 0 {
                assert(v@.take(i + 1)[i - 1] == v@[i - 1]);
                assert(v@.take(i as int).last() == v@[i - 1]);
            }
            if in_word {
                lemma_words_nonempty(v@.take(i as int));
            }
        }
        let c = v[i];
        if is_whitespace_char(c) {
            if in_word {
                r.push((start, i));
            }
            in_word = false;
            i += 1;
        } else {
            if in_word {
                i += 1;
                assert(v@.subrange(start as int, i as int) =~= v@.subrange(
                    start as int,
                    i - 1,
                ).push(c));
            } else {
                start = i;
                in_word = true;
                i += 1;
                assert(v@.subrange(start as int, i as int) =~= seq![c]);
            }
        }
    }
    assert(v@.take(v@.len() as int) =~= v@);
    if in_word {
        proof {
            lemma_words_nonempty(v@);
        }
        r.push((start, v.len()));
    }
    r
}

/// Whether `v` is the text of an IPv4 address: see `is_ipv4_text`.
pub fn ipv4_text_ok(v: &Vec<char>) -> (b: bool)
    ensures
        b == is_ipv4_text(v@),
{
    let parts = split_ranges(v, '.');
    if parts.len() != 4 {
        return false;
    }
    let ghost p = split_on(v@, '.');
    let mut k: usize = 0;
    while k < 4
        invariant
            k <= 4,
            parts@.len() == 4,
            p == split_on(v@, '.'),
            p.len() == 4,
            forall|j: int|
                0 <= j < 4 ==> {
                    &&& (#[trigger] parts@[j]).0 <= parts@[j].1 <= v@.len()
                    &&& v@.subrange(parts@[j].0 as int, parts@[j].1 as int) == p[j]
                },
            forall|j: int| 0 <= j < k ==> parses_uint(#[trigger] p[j], 255),
        decreases 4 - k,
    {
        let (lo, hi) = parts[k];
        assert(v@.subrange(parts@[k as int].0 as int, parts@[k as int].1 as int) == p[k as int]);
        if parse_uint(v, lo, hi, 255).is_none() {
            return false;
        }
        k += 1;
    }
    true
}

/// The characters `v[lo..hi]`.
pub fn sub_vec(v: &Vec<char>, lo: usize, hi: usize) -> (r: Vec<char>)
    requires
        lo <= hi <= v@.len(),
    ensures
        r@ == v@.subrange(lo as int, hi as int),
{
    let mut r: Vec<char> = Vec::new();
    let mut i: usize = lo;
    while i < hi
        invariant
            lo <= i <= hi <= v@.len(),
            r@ == v@.subrange(lo as int, i as int),
        decreases hi - i,
    {
        r.push(v[i]);
        i += 1;
        assert(r@ =~= v@.subrange(lo as int, i as int));
    }
    r
}

fn std_octet_ok(v: &Vec<char>, lo: usize, hi: usize) -> (b: bool)
    requires
        lo <= hi <= v@.len(),
    ensures
        b == is_std_octet(v@.subrange(lo as int, hi as int)),
{
    let n = hi - lo;
    if n < 1 || n > 3 {
        return false;
    }
    let c = v[lo];
    assert(v@.subrange(lo as int, hi as int)[0] == c);
    if !('0' <= c && c <= '9') {
        return false;
    }
    if n > 1 && c == '0' {
        return false;
    }
    parse_uint(v, lo, hi, 255).is_some()
}

fn hex_group_ok(v: &Vec<char>, lo: usize, hi: usize) -> (b: bool)
    requires
        lo <= hi <= v@.len(),
    ensures
        b == is_hex_group(v@.subrange(lo as int, hi as int)),
{
    let ghost g = v@.subrange(lo as int, hi as int);
    if hi - lo < 1 || hi - lo > 4 {
        return false;
    }
    let mut i: usize = lo;
    while i < hi
        invariant
            lo <= i <= hi <= v@.len(),
            g == v@.subrange(lo as int, hi as int),
            forall|j: int| 0 <= j < i - lo ==> is_hex_digit(#[trigger] g[j]),
        decreases hi - i,
    {
        if !is_hex_digit_char(v[i]) {
            assert(!is_hex_digit(g[i - lo]));
            return false;
        }
        i += 1;
    }
    true
}

/// Whether `v` is IPv4 address text as std's parse accepts it.
pub fn std_ipv4_ok(v: &Vec<char>) -> (b: bool)
    ensures
        b == is_std_ipv4(v@),
{
    let parts = split_ranges(v, '.');
    if parts.len() != 4 {
        return false;
    }
    let ghost p = split_on(v@, '.');
    let mut k: usize = 0;
    while k < 4
        invariant
            k <= 4,
            parts@.len() == 4,
            p == split_on(v@, '.'),
            p.len() == 4,
            forall|j: int|
                0 <= j < 4 ==> {
                    &&& (#[trigger] parts@[j]).0 <= parts@[j].1 <= v@.len()
                    &&& v@.subrange(parts@[j].0 as int, parts@[j].1 as int) == p[j]
                },
            forall|j: int| 0 <= j < k ==> is_std_octet(#[trigger] p[j]),
        decreases 4 - k,
    {
        let (lo, hi) = parts[k];
        assert(v@.subrange(parts@[k as int].0 as int, parts@[k as int].1 as int) == p[k as int]);
        if !std_octet_ok(v, lo, hi) {
            return false;
        }
        k += 1;
    }
    true
}

/// The slots that the groups of `v` fill (see `group_slots`), as the number
/// of groups and whether the last one is an embedded IPv4 address.
fn group_slots_of(v: &Vec<char>) -> (r: Option<(usize, bool)>)
    ensures
        match group_slots(v@) {
            Some(n) => r matches Some(m) && m.0 + (if m.1 { 1int } else { 0int }) == n
                && m.0 == split_on(v@, ':').len(),
            None => r is None,
        },
{
    let parts = split_ranges(v, ':');
    let ghost p = split_on(v@, ':');
    proof {
        lemma_split_on_nonempty(v@, ':');
    }
    let n = parts.len();
    let mut k: usize = 0;
    while k < n
        invariant
            k <= n,
            n == parts@.len(),
            p == split_on(v@, ':'),
            parts@.len() == p.len(),
            p.len() >= 1,
            forall|j: int|
                0 <= j < parts@.len() ==> {
                    &&& (#[trigger] parts@[j]).0 <= parts@[j].1 <= v@.len()
                    &&& v@.subrange(parts@[j].0 as int, parts@[j].1 as int) == p[j]
                },
            forall|j: int| 0 <= j < k ==> is_hex_group(#[trigger] p[j]),
        decreases n - k,
    {
        let (lo, hi) = parts[k];
        assert(v@.subrange(parts@[k as int].0 as int, parts@[k as int].1 as int) == p[k as int]);
        if !hex_group_ok(v, lo, hi) {
            assert(!all_hex_groups(v@));
            if k + 1 == n {
                let last = sub_vec(v, lo, hi);
                assert(p.last() == p[k as int]);
                if std_ipv4_ok(&last) {
                    return Some((n, true));
                }
                return None;
            }
            assert(!is_hex_group(p[k as int]));
            return None;
        }
        k += 1;
    }
    assert(all_hex_groups(v@));
    Some((n, false))
}

/// Whether `v` is IPv6 address text as std's parse accepts it.
pub fn std_ipv6_ok(v: &Vec<char>) -> (b: bool)
    ensures
        b == is_std_ipv6(v@),
{
    match group_slots_of(v) {
        Some(g) => {
            if (!g.1 && g.0 == 8) || (g.1 && g.0 == 7) {
                return true;
            }
        },
        None => {},
    }
    let len = v.len();
    if len < 2 {
        assert forall|i: int| !compressed_at(v@, i) by {}
        return false;
    }
    let mut i: usize = 0;
    while i < len - 1
        invariant
            len == v@.len(),
            len >= 2,
            i <= len - 1,
            group_slots(v@) != Some(8int),
            forall|j: int| 0 <= j < i ==> !#[trigger] compressed_at(v@, j),
        decreases len - i,
    {
        if v[i] == ':' && v[i + 1] == ':' {
            let a = sub_vec(v, 0, i);
            let b = sub_vec(v, i + 2, len);
            assert(a@ =~= v@.take(i as int));
            assert(b@ =~= v@.skip(i + 2));
            let head_ok = if a.len() == 0 {
                true
            } else {
                match group_slots_of(&a) {
                    Some(g) => !g.1,
                    None => false,
                }
            };
            if head_ok {
                let h: usize = if a.len() == 0 {
                    0
                } else {
                    split_ranges(&a, ':').len()
                };
                let t: Option<(usize, bool)> = if b.len() == 0 {
                    Some((0, false))
                } else {
                    group_slots_of(&b)
                };
                match t {
                    Some(t) => {
                        if h <= 7 && t.0 <= 7 - h && (!t.1 || t.0 + 1 <= 7 - h) {
                            assert(compressed_at(v@, i as int));
                            return true;
                        }
                    },
                    None => {},
                }
            }
        }
        i += 1;
    }
    assert forall|j: int| !#[trigger] compressed_at(v@, j) by {
        if 0 <= j && j + 2 <= len {
            assert(j < i);
        }
    }
    false
}

} // verus!
