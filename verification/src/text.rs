//! Text helpers over Unicode scalar values.
//!
//! Every function here works on the sequence of `char`s that a string holds,
//! never on its bytes, so a multi-byte character is never split.

use vstd::prelude::*;

verus! {

/// Whether `c` carries the Unicode `White_Space` property.
pub open spec fn is_whitespace(c: char) -> bool {
    let n = c as u32;
    ||| 0x09 <= n <= 0x0D
    ||| n == 0x20
    ||| n == 0x85
    ||| n == 0xA0
    ||| n == 0x1680
    ||| 0x2000 <= n <= 0x200A
    ||| n == 0x2028
    ||| n == 0x2029
    ||| n == 0x202F
    ||| n == 0x205F
    ||| n == 0x3000
}

/// Decides the Unicode `White_Space` property of a character.
pub fn char_is_whitespace(c: char) -> (b: bool)
    ensures
        b == is_whitespace(c),
{
    let n: u32 = c as u32;
    (0x09 <= n && n <= 0x0D) || n == 0x20 || n == 0x85 || n == 0xA0 || n == 0x1680 || (0x2000 <= n
        && n <= 0x200A) || n == 0x2028 || n == 0x2029 || n == 0x202F || n == 0x205F || n == 0x3000
}

/// The first index at or after `i` that holds no whitespace, or the length of `s`.
pub open spec fn skip_whitespace(s: Seq<char>, i: int) -> int
    decreases s.len() - i,
{
    if 0 <= i < s.len() && is_whitespace(s[i]) {
        skip_whitespace(s, i + 1)
    } else {
        i
    }
}

/// The first index at or after `i` that holds whitespace, or the length of `s`.
pub open spec fn skip_non_whitespace(s: Seq<char>, i: int) -> int
    decreases s.len() - i,
{
    if 0 <= i < s.len() && !is_whitespace(s[i]) {
        skip_non_whitespace(s, i + 1)
    } else {
        i
    }
}

/// The end of the trimmed text: the least `j >= start` such that everything
/// from `j` to `end` is whitespace.
pub open spec fn trim_end_index(s: Seq<char>, start: int, end: int) -> int
    decreases end - start,
{
    if start < end <= s.len() && is_whitespace(s[end - 1]) {
        trim_end_index(s, start, end - 1)
    } else {
        end
    }
}

/// `s` without its leading and trailing whitespace.
pub open spec fn trim_spec(s: Seq<char>) -> Seq<char> {
    let start = skip_whitespace(s, 0);
    s.subrange(start, trim_end_index(s, start, s.len() as int))
}

pub proof fn lemma_skip_whitespace_bounds(s: Seq<char>, i: int)
    requires
        0 <= i <= s.len(),
    ensures
        i <= skip_whitespace(s, i) <= s.len(),
        forall|k: int| i <= k < skip_whitespace(s, i) ==> is_whitespace(#[trigger] s[k]),
        skip_whitespace(s, i) < s.len() ==> !is_whitespace(s[skip_whitespace(s, i)]),
    decreases s.len() - i,
{
    if i < s.len() && is_whitespace(s[i]) {
        lemma_skip_whitespace_bounds(s, i + 1);
    }
}

pub proof fn lemma_skip_non_whitespace_bounds(s: Seq<char>, i: int)
    requires
        0 <= i <= s.len(),
    ensures
        i <= skip_non_whitespace(s, i) <= s.len(),
        forall|k: int| i <= k < skip_non_whitespace(s, i) ==> !is_whitespace(#[trigger] s[k]),
        skip_non_whitespace(s, i) < s.len() ==> is_whitespace(s[skip_non_whitespace(s, i)]),
    decreases s.len() - i,
{
    if i < s.len() && !is_whitespace(s[i]) {
        lemma_skip_non_whitespace_bounds(s, i + 1);
    }
}

pub proof fn lemma_trim_end_index_bounds(s: Seq<char>, start: int, end: int)
    requires
        0 <= start <= end <= s.len(),
    ensures
        start <= trim_end_index(s, start, end) <= end,
        forall|k: int| trim_end_index(s, start, end) <= k < end ==> is_whitespace(#[trigger] s[k]),
        start < trim_end_index(s, start, end) ==> !is_whitespace(
            s[trim_end_index(s, start, end) - 1],
        ),
    decreases end - start,
{
    if start < end && is_whitespace(s[end - 1]) {
        lemma_trim_end_index_bounds(s, start, end - 1);
    }
}

/// The trimmed text neither begins nor ends with whitespace, and only
/// whitespace was cut off.
pub proof fn lemma_trim_spec(s: Seq<char>)
    ensures
        trim_spec(s).len() > 0 ==> !is_whitespace(trim_spec(s).first()) && !is_whitespace(
            trim_spec(s).last(),
        ),
        exists|front: Seq<char>, back: Seq<char>|
            s == front + trim_spec(s) + back && (forall|i: int|
                0 <= i < front.len() ==> is_whitespace(#[trigger] front[i])) && (forall|i: int|
                0 <= i < back.len() ==> is_whitespace(#[trigger] back[i])),
{
    let start = skip_whitespace(s, 0);
    lemma_skip_whitespace_bounds(s, 0);
    let end = trim_end_index(s, start, s.len() as int);
    lemma_trim_end_index_bounds(s, start, s.len() as int);
    let front = s.subrange(0, start);
    let back = s.subrange(end, s.len() as int);
    assert(s =~= front + trim_spec(s) + back);
    assert forall|i: int| 0 <= i < front.len() implies is_whitespace(#[trigger] front[i]) by {
        assert(front[i] == s[i]);
    }
    assert forall|i: int| 0 <= i < back.len() implies is_whitespace(#[trigger] back[i]) by {
        assert(back[i] == s[end + i]);
    }
    if start < end {
        assert(trim_spec(s).first() == s[start]);
        assert(trim_spec(s).last() == s[end - 1]);
    }
}

/// Whether two strings hold the same characters.
pub fn str_eq(a: &str, b: &str) -> (r: bool)
    ensures
        r == (a@ == b@),
{
    let n = a.unicode_len();
    if n != b.unicode_len() {
        return false;
    }
    let mut i: usize = 0;
    while i < n
        invariant
            n == a@.len(),
            n == b@.len(),
            i <= n,
            forall|k: int| 0 <= k < i ==> a@[k] == b@[k],
        decreases n - i,
    {
        if a.get_char(i) != b.get_char(i) {
            return false;
        }
        i += 1;
    }
    assert(a@ =~= b@);
    true
}

/// Whether `s` begins with the characters of `pat`.
pub fn starts_with(s: &str, pat: &str) -> (r: bool)
    ensures
        r == pat@.is_prefix_of(s@),
{
    let n = pat.unicode_len();
    if n > s.unicode_len() {
        return false;
    }
    let mut i: usize = 0;
    while i < n
        invariant
            n == pat@.len(),
            n <= s@.len(),
            i <= n,
            forall|k: int| 0 <= k < i ==> pat@[k] == s@[k],
        decreases n - i,
    {
        if pat.get_char(i) != s.get_char(i) {
            assert(pat@[i as int] != s@.subrange(0, n as int)[i as int]);
            return false;
        }
        i += 1;
    }
    assert(pat@ =~= s@.subrange(0, n as int));
    true
}

/// `s` without its leading and trailing whitespace.
pub fn trim<'a>(s: &'a str) -> (r: &'a str)
    ensures
        r@ == trim_spec(s@),
{
    let n = s.unicode_len();
    let mut start: usize = 0;
    while start < n && char_is_whitespace(s.get_char(start))
        invariant
            n == s@.len(),
            start <= n,
            skip_whitespace(s@, 0) == skip_whitespace(s@, start as int),
        decreases n - start,
    {
        start += 1;
    }
    let mut end: usize = n;
    while start < end && char_is_whitespace(s.get_char(end - 1))
        invariant
            n == s@.len(),
            start <= end <= n,
            trim_end_index(s@, start as int, n as int) == trim_end_index(
                s@,
                start as int,
                end as int,
            ),
        decreases end - start,
    {
        end -= 1;
    }
    s.substring_char(start, end)
}

/// `s` after `pat` has been taken from its front as often as it stands there.
/// An empty `pat` takes nothing.
pub open spec fn strip_repeated_prefix(s: Seq<char>, pat: Seq<char>) -> Seq<char>
    decreases s.len(),
{
    if pat.len() > 0 && pat.is_prefix_of(s) {
        strip_repeated_prefix(s.skip(pat.len() as int), pat)
    } else {
        s
    }
}

/// The whitespace-separated fields of `s` that begin at or after index `i`, in
/// order. No field is empty and none holds whitespace.
pub open spec fn fields_from(s: Seq<char>, i: int) -> Seq<Seq<char>>
    decreases s.len() - i,
{
    let start = skip_whitespace(s, i);
    let end = skip_non_whitespace(s, start);
    if 0 <= i <= start < end <= s.len() {
        seq![s.subrange(start, end)] + fields_from(s, end)
    } else {
        Seq::empty()
    }
}

/// The whitespace-separated fields of `s`, in order.
pub open spec fn split_whitespace_spec(s: Seq<char>) -> Seq<Seq<char>> {
    fields_from(s, 0)
}

/// The members of `parts`, in order, with `sep` between each two neighbours.
pub open spec fn join_spec(parts: Seq<Seq<char>>, sep: Seq<char>) -> Seq<char>
    decreases parts.len(),
{
    if parts.len() == 0 {
        Seq::empty()
    } else if parts.len() == 1 {
        parts[0]
    } else {
        join_spec(parts.drop_last(), sep) + sep + parts.last()
    }
}

/// The views of the strings that `v` holds.
pub open spec fn views(v: Seq<String>) -> Seq<Seq<char>> {
    Seq::new(v.len(), |i: int| v[i]@)
}

/// `s` after `pat` has been taken from its front as often as it stands there.
pub fn trim_start_matches<'a>(s: &'a str, pat: &str) -> (r: &'a str)
    ensures
        r@ == strip_repeated_prefix(s@, pat@),
{
    let n = s.unicode_len();
    let m = pat.unicode_len();
    if m == 0 {
        return s;
    }
    let mut rest: &'a str = s;
    let mut left: usize = n;
    while starts_with(rest, pat)
        invariant
            m == pat@.len(),
            m > 0,
            left == rest@.len(),
            strip_repeated_prefix(s@, pat@) == strip_repeated_prefix(rest@, pat@),
        decreases left,
    {
        rest = rest.substring_char(m, left);
        left = left - m;
    }
    rest
}

/// No field is empty and none holds whitespace: runs of whitespace give no
/// field of their own.
pub proof fn lemma_fields_hold_no_whitespace(s: Seq<char>, i: int)
    requires
        0 <= i <= s.len(),
    ensures
        forall|k: int|
            0 <= k < fields_from(s, i).len() ==> (#[trigger] fields_from(s, i)[k]).len() > 0
                && forall|j: int|
                0 <= j < fields_from(s, i)[k].len() ==> !is_whitespace(
                    #[trigger] fields_from(s, i)[k][j],
                ),
    decreases s.len() - i,
{
    let start = skip_whitespace(s, i);
    lemma_skip_whitespace_bounds(s, i);
    let end = skip_non_whitespace(s, start);
    lemma_skip_non_whitespace_bounds(s, start);
    if start < end {
        lemma_fields_hold_no_whitespace(s, end);
        let first = s.subrange(start, end);
        let rest = fields_from(s, end);
        assert forall|k: int| 0 <= k < fields_from(s, i).len() implies (#[trigger] fields_from(
            s,
            i,
        )[k]).len() > 0 && forall|j: int|
            0 <= j < fields_from(s, i)[k].len() ==> !is_whitespace(
                #[trigger] fields_from(s, i)[k][j],
            ) by {
            if k == 0 {
                assert(fields_from(s, i)[0] == first);
                assert forall|j: int| 0 <= j < first.len() implies !is_whitespace(
                    #[trigger] first[j],
                ) by {
                    assert(first[j] == s[start + j]);
                }
            } else {
                assert(fields_from(s, i)[k] == rest[k - 1]);
            }
        }
    }
}

/// The whitespace-separated fields of `s`, in order.
pub fn split_whitespace(s: &str) -> (r: Vec<String>)
    ensures
        views(r@) == split_whitespace_spec(s@),
{
    let n = s.unicode_len();
    let mut fields: Vec<String> = Vec::new();
    let mut i: usize = 0;
    loop
        invariant
            n == s@.len(),
            i <= n,
            split_whitespace_spec(s@) == views(fields@) + fields_from(s@, i as int),
        ensures
            views(fields@) == split_whitespace_spec(s@),
        decreases n - i,
    {
        let mut start: usize = i;
        while start < n && char_is_whitespace(s.get_char(start))
            invariant
                n == s@.len(),
                i <= start <= n,
                skip_whitespace(s@, i as int) == skip_whitespace(s@, start as int),
            decreases n - start,
        {
            start += 1;
        }
        let mut end: usize = start;
        while end < n && !char_is_whitespace(s.get_char(end))
            invariant
                n == s@.len(),
                start <= end <= n,
                skip_non_whitespace(s@, start as int) == skip_non_whitespace(s@, end as int),
            decreases n - end,
        {
            end += 1;
        }
        if start == end {
            assert(fields_from(s@, i as int) =~= Seq::<Seq<char>>::empty());
            assert(views(fields@) + Seq::<Seq<char>>::empty() =~= views(fields@));
            break ;
        }
        let field = s.substring_char(start, end).to_owned();
        proof {
            let before = views(fields@);
            let piece = s@.subrange(start as int, end as int);
            assert(views(fields@.push(field)) =~= before + seq![piece]);
            assert(before + (seq![piece] + fields_from(s@, end as int)) =~= (before + seq![piece])
                + fields_from(s@, end as int));
        }
        fields.push(field);
        i = end;
    }
    fields
}

/// The strings of `parts`, in order, with `sep` between each two neighbours.
pub fn join(parts: &Vec<String>, sep: &str) -> (r: String)
    ensures
        r@ == join_spec(views(parts@), sep@),
{
    let mut out = String::new();
    let n = parts.len();
    let mut i: usize = 0;
    while i < n
        invariant
            n == parts@.len(),
            i <= n,
            out@ == join_spec(views(parts@).take(i as int), sep@),
        decreases n - i,
    {
        proof {
            let all = views(parts@);
            let next = all.take(i as int + 1);
            assert(next.drop_last() =~= all.take(i as int));
            assert(next.last() == parts@[i as int]@);
            if i == 0 {
                assert(join_spec(all.take(0), sep@) =~= Seq::<char>::empty());
                assert(Seq::<char>::empty() + parts@[0]@ =~= parts@[0]@);
            }
        }
        if i > 0 {
            out.append(sep);
        }
        out.append(parts[i].as_str());
        i += 1;
    }
    assert(views(parts@).take(n as int) =~= views(parts@));
    out
}

/// A copy of the strings of `v`.
pub fn clone_strings(v: &Vec<String>) -> (r: Vec<String>)
    ensures
        views(r@) == views(v@),
{
    let mut out: Vec<String> = Vec::new();
    let n = v.len();
    let mut i: usize = 0;
    while i < n
        invariant
            n == v@.len(),
            i <= n,
            out@.len() == i,
            forall|k: int| 0 <= k < i ==> out@[k]@ == v@[k]@,
        decreases n - i,
    {
        out.push(v[i].clone());
        i += 1;
    }
    assert(views(out@) =~= views(v@));
    out
}

} // verus!
