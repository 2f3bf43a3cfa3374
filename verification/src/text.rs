//! Byte-string helpers shared by the supervisor's parsers and command builders.
//!
//! All text handled by the supervisor (paths, command output, log lines) is
//! kept as raw bytes; whitespace means ASCII whitespace.

use vstd::prelude::*;
use vstd::slice::slice_subrange;
use vstd::slice::slice_to_vec;

verus! {

/// `needle` occurs in `hay` starting at position `i`.
pub open spec fn occurs_at(hay: Seq<u8>, needle: Seq<u8>, i: int) -> bool {
    0 <= i && i + needle.len() <= hay.len() && hay.subrange(i, i + needle.len()) == needle
}

/// `needle` occurs somewhere in `hay`.
pub open spec fn contains_bytes(hay: Seq<u8>, needle: Seq<u8>) -> bool {
    exists|i: int| occurs_at(hay, needle, i)
}

/// `hay` ends with `suffix`.
pub open spec fn ends_with_bytes(hay: Seq<u8>, suffix: Seq<u8>) -> bool {
    suffix.len() <= hay.len() && hay.subrange(hay.len() - suffix.len(), hay.len() as int) == suffix
}

/// ASCII whitespace: tab, line feed, vertical tab, form feed, carriage return, space.
pub open spec fn is_space(b: u8) -> bool {
    (9 <= b && b <= 13) || b == 32
}

/// Executable form of [`is_space`].
pub fn is_space_byte(b: u8) -> (r: bool)
    ensures
        r == is_space(b),
{
    (9 <= b && b <= 13) || b == 32
}

/// Whether `needle` matches `hay` at position `i`.
fn matches_at(hay: &[u8], needle: &[u8], i: usize) -> (r: bool)
    requires
        i + needle@.len() <= hay@.len(),
    ensures
        r == occurs_at(hay@, needle@, i as int),
{
    let hay_len: usize = hay.len();
    let mut k: usize = 0;
    while k < needle.len()
        invariant
            k <= needle@.len(),
            i + needle@.len() <= hay@.len(),
            hay@.len() == hay_len,
            forall|j: int| 0 <= j < k ==> hay@[i + j] == needle@[j],
        decreases needle@.len() - k,
    {
        if hay[i + k] != needle[k] {
            proof {
                let sub = hay@.subrange(i as int, i + needle@.len());
                assert(sub[k as int] == hay@[i + k]);
            }
            return false;
        }
        k += 1;
    }
    proof {
        assert(hay@.subrange(i as int, i + needle@.len()) =~= needle@);
    }
    true
}

/// Whether `needle` occurs anywhere in `hay`. The empty needle occurs in
/// every text.
pub fn contains(hay: &[u8], needle: &[u8]) -> (r: bool)
    ensures
        r == contains_bytes(hay@, needle@),
{
    if needle.len() > hay.len() {
        return false;
    }
    let last: usize = hay.len() - needle.len();
    let mut i: usize = 0;
    loop
        invariant
            needle@.len() <= hay@.len(),
            last == hay@.len() - needle@.len(),
            i <= last,
            forall|j: int| 0 <= j < i ==> !occurs_at(hay@, needle@, j),
        decreases last - i,
    {
        if matches_at(hay, needle, i) {
            return true;
        }
        if i == last {
            return false;
        }
        i += 1;
    }
}

/// Whether `hay` ends with `suffix`.
pub fn ends_with(hay: &[u8], suffix: &[u8]) -> (r: bool)
    ensures
        r == ends_with_bytes(hay@, suffix@),
{
    if suffix.len() > hay.len() {
        return false;
    }
    matches_at(hay, suffix, hay.len() - suffix.len())
}

/// The text with its leading whitespace removed.
pub open spec fn skip_space(s: Seq<u8>) -> Seq<u8>
    decreases s.len(),
{
    if s.len() > 0 && is_space(s[0]) {
        skip_space(s.subrange(1, s.len() as int))
    } else {
        s
    }
}

/// The text with its trailing whitespace removed.
pub open spec fn drop_trailing_space(s: Seq<u8>) -> Seq<u8>
    decreases s.len(),
{
    if s.len() > 0 && is_space(s.last()) {
        drop_trailing_space(s.drop_last())
    } else {
        s
    }
}

/// The text with whitespace removed at both ends.
pub open spec fn trimmed(s: Seq<u8>) -> Seq<u8> {
    drop_trailing_space(skip_space(s))
}

/// Skipping a run of whitespace at the front leaves the same text as
/// skipping from behind that run.
pub proof fn lemma_skip_space_prefix(s: Seq<u8>, n: int)
    requires
        0 <= n <= s.len(),
        forall|k: int| 0 <= k < n ==> is_space(s[k]),
    ensures
        skip_space(s) == skip_space(s.subrange(n, s.len() as int)),
    decreases n,
{
    if n == 0 {
        assert(s.subrange(0, s.len() as int) =~= s);
    } else {
        let rest = s.subrange(1, s.len() as int);
        assert forall|k: int| 0 <= k < n - 1 implies is_space(rest[k]) by {
            assert(rest[k] == s[k + 1]);
        }
        lemma_skip_space_prefix(rest, n - 1);
        assert(rest.subrange(n - 1, rest.len() as int) =~= s.subrange(n, s.len() as int));
    }
}

/// Dropping a run of whitespace at the back leaves the same text as
/// dropping from in front of that run.
pub proof fn lemma_drop_trailing_space_suffix(s: Seq<u8>, n: int)
    requires
        0 <= n <= s.len(),
        forall|k: int| n <= k < s.len() ==> is_space(s[k]),
    ensures
        drop_trailing_space(s) == drop_trailing_space(s.subrange(0, n)),
    decreases s.len() - n,
{
    if n == s.len() {
        assert(s.subrange(0, n) =~= s);
    } else {
        let front = s.drop_last();
        lemma_drop_trailing_space_suffix(front, n);
        assert(front.subrange(0, n) =~= s.subrange(0, n));
    }
}

/// A copy of the bytes of `s` from `from` up to `to`.
fn copy_range(s: &[u8], from: usize, to: usize) -> (r: Vec<u8>)
    requires
        from <= to <= s@.len(),
    ensures
        r@ == s@.subrange(from as int, to as int),
{
    slice_to_vec(slice_subrange(s, from, to))
}

/// The text with whitespace removed at both ends.
pub fn trim(s: &[u8]) -> (r: Vec<u8>)
    ensures
        r@ == trimmed(s@),
{
    let len: usize = s.len();
    let mut start: usize = 0;
    while start < len && is_space_byte(s[start])
        invariant
            start <= len,
            len == s@.len(),
            forall|k: int| 0 <= k < start ==> is_space(s@[k]),
        decreases len - start,
    {
        start += 1;
    }
    let mut end: usize = len;
    while end > start && is_space_byte(s[end - 1])
        invariant
            start <= end <= len,
            len == s@.len(),
            forall|k: int| end <= k < len ==> is_space(s@[k]),
        decreases end,
    {
        end -= 1;
    }
    proof {
        let tail = s@.subrange(start as int, len as int);
        lemma_skip_space_prefix(s@, start as int);
        assert(skip_space(tail) == tail) by {
            if tail.len() > 0 {
                assert(tail[0] == s@[start as int]);
            }
        }
        assert forall|k: int| end - start <= k < tail.len() implies is_space(tail[k]) by {
            assert(tail[k] == s@[start + k]);
        }
        lemma_drop_trailing_space_suffix(tail, end - start);
        let core = tail.subrange(0, end - start);
        assert(core =~= s@.subrange(start as int, end as int));
        assert(drop_trailing_space(core) == core) by {
            if core.len() > 0 {
                assert(core.last() == s@[end - 1]);
            }
        }
    }
    copy_range(s, start, end)
}

/// Appends the bytes of `src` to `dst`.
pub fn append(dst: &mut Vec<u8>, src: &[u8])
    ensures
        final(dst)@ == old(dst)@ + src@,
{
    let mut i: usize = 0;
    while i < src.len()
        invariant
            i <= src@.len(),
            dst@ == old(dst)@ + src@.subrange(0, i as int),
        decreases src@.len() - i,
    {
        dst.push(src[i]);
        i += 1;
        proof {
            assert(dst@ =~= old(dst)@ + src@.subrange(0, i as int));
        }
    }
    proof {
        assert(src@.subrange(0, i as int) =~= src@);
    }
}

/// The length of the part of `s` before its first line feed, or the whole
/// length where it has none.
pub open spec fn line_length(s: Seq<u8>) -> int
    decreases s.len(),
{
    if s.len() == 0 || s[0] == 10 {
        0
    } else {
        1 + line_length(s.subrange(1, s.len() as int))
    }
}

/// A line without the carriage return that may precede its line feed.
pub open spec fn strip_carriage_return(line: Seq<u8>) -> Seq<u8> {
    if line.len() > 0 && line.last() == 13 {
        line.drop_last()
    } else {
        line
    }
}

/// The lines of a text. A line ends at a line feed; the line feed, and a
/// carriage return directly before it, are not part of the line. Text after
/// the last line feed is a line of its own unless it is empty.
pub open spec fn lines_of(s: Seq<u8>) -> Seq<Seq<u8>>
    decreases s.len(),
{
    let n = line_length(s);
    if s.len() == 0 {
        Seq::empty()
    } else if 0 <= n < s.len() {
        seq![strip_carriage_return(s.subrange(0, n))] + lines_of(
            s.subrange(n + 1, s.len() as int),
        )
    } else {
        seq![s]
    }
}

/// The byte strings held by a vector of owned byte strings.
pub open spec fn rows(v: Seq<Vec<u8>>) -> Seq<Seq<u8>> {
    Seq::new(v.len(), |i: int| v[i]@)
}

/// `line_length` is the position of the first line feed.
pub proof fn lemma_line_length(s: Seq<u8>, n: int)
    requires
        0 <= n <= s.len(),
        forall|k: int| 0 <= k < n ==> s[k] != 10,
        n < s.len() ==> s[n] == 10,
    ensures
        line_length(s) == n,
    decreases n,
{
    if n > 0 {
        let rest = s.subrange(1, s.len() as int);
        assert forall|k: int| 0 <= k < n - 1 implies rest[k] != 10 by {
            assert(rest[k] == s[k + 1]);
        }
        if n < s.len() {
            assert(rest[n - 1] == s[n]);
        }
        lemma_line_length(rest, n - 1);
    }
}

/// The lines of a text.
pub fn lines(s: &[u8]) -> (r: Vec<Vec<u8>>)
    ensures
        rows(r@) == lines_of(s@),
{
    let len: usize = s.len();
    let mut out: Vec<Vec<u8>> = Vec::new();
    let mut pos: usize = 0;
    proof {
        assert(s@.subrange(0, len as int) =~= s@);
        assert(rows(out@) + lines_of(s@) =~= lines_of(s@));
    }
    while pos < len
        invariant
            pos <= len,
            len == s@.len(),
            lines_of(s@) == rows(out@) + lines_of(s@.subrange(pos as int, len as int)),
        decreases len - pos,
    {
        let mut end: usize = pos;
        while end < len && s[end] != 10
            invariant
                pos <= end <= len,
                len == s@.len(),
                forall|k: int| pos <= k < end ==> s@[k] != 10,
            decreases len - end,
        {
            end += 1;
        }
        let ghost rest = s@.subrange(pos as int, len as int);
        let ghost before = rows(out@);
        proof {
            assert forall|k: int| 0 <= k < end - pos implies rest[k] != 10 by {
                assert(rest[k] == s@[pos + k]);
            }
            if end < len {
                assert(rest[end - pos] == s@[end as int]);
            }
            lemma_line_length(rest, end - pos);
        }
        if end == len {
            let line = copy_range(s, pos, len);
            out.push(line);
            proof {
                assert(lines_of(rest) == seq![rest]);
                assert(rows(out@) =~= before + seq![rest]);
                assert(s@.subrange(len as int, len as int) =~= Seq::<u8>::empty());
                assert(lines_of(s@.subrange(len as int, len as int)) =~= Seq::<Seq<u8>>::empty());
            }
            pos = len;
        } else {
            let stop: usize = if end > pos && s[end - 1] == 13 {
                end - 1
            } else {
                end
            };
            let line = copy_range(s, pos, stop);
            out.push(line);
            proof {
                let raw = rest.subrange(0, end - pos);
                assert(raw =~= s@.subrange(pos as int, end as int));
                if raw.len() > 0 {
                    assert(raw.last() == s@[end - 1]);
                }
                assert(strip_carriage_return(raw) =~= s@.subrange(pos as int, stop as int));
                assert(rest.subrange(end - pos + 1, rest.len() as int) =~= s@.subrange(
                    end + 1,
                    len as int,
                ));
                assert(rows(out@) =~= before + seq![strip_carriage_return(raw)]);
            }
            pos = end + 1;
        }
    }
    proof {
        assert(s@.subrange(len as int, len as int) =~= Seq::<u8>::empty());
        assert(rows(out@) + Seq::<Seq<u8>>::empty() =~= rows(out@));
    }
    out
}

/// The whitespace-separated words of a text, in order.
pub open spec fn words_of(s: Seq<u8>) -> Seq<Seq<u8>>
    decreases s.len(),
{
    if s.len() == 0 {
        Seq::empty()
    } else {
        let before = words_of(s.drop_last());
        if is_space(s.last()) {
            before
        } else if s.len() >= 2 && !is_space(s[s.len() - 2]) {
            before.drop_last().push(before.last().push(s.last()))
        } else {
            before.push(seq![s.last()])
        }
    }
}

/// Splits a text into its whitespace-separated words.
pub fn words(s: &[u8]) -> (r: Vec<Vec<u8>>)
    ensures
        rows(r@) == words_of(s@),
{
    let len: usize = s.len();
    let mut out: Vec<Vec<u8>> = Vec::new();
    let mut current: Vec<u8> = Vec::new();
    let mut i: usize = 0;
    proof {
        assert(s@.subrange(0, 0) =~= Seq::<u8>::empty());
        assert(rows(out@) =~= Seq::<Seq<u8>>::empty());
    }
    while i < len
        invariant
            i <= len,
            len == s@.len(),
            (current@.len() > 0) == (i > 0 && !is_space(s@[i - 1])),
            words_of(s@.subrange(0, i as int)) == if current@.len() > 0 {
                rows(out@).push(current@)
            } else {
                rows(out@)
            },
        decreases len - i,
    {
        let b: u8 = s[i];
        let ghost before = rows(out@);
        let ghost word = current@;
        proof {
            let upto = s@.subrange(0, i + 1);
            assert(upto.drop_last() =~= s@.subrange(0, i as int));
            assert(upto.last() == b);
            if i > 0 {
                assert(upto[upto.len() - 2] == s@[i - 1]);
            }
        }
        if is_space_byte(b) {
            if current.len() > 0 {
                out.push(current);
                current = Vec::new();
                proof {
                    assert(rows(out@) =~= before.push(word));
                }
            }
        } else {
            current.push(b);
            proof {
                if word.len() > 0 {
                    assert(before.push(word).drop_last() =~= before);
                    assert(before.push(word).last() == word);
                } else {
                    assert(current@ =~= seq![b]);
                }
            }
        }
        i += 1;
    }
    proof {
        assert(s@.subrange(0, len as int) =~= s@);
    }
    if current.len() > 0 {
        let ghost before = rows(out@);
        let ghost word = current@;
        out.push(current);
        proof {
            assert(rows(out@) =~= before.push(word));
        }
    }
    out
}

/// Whether two texts are the same.
pub fn same_bytes(a: &[u8], b: &[u8]) -> (r: bool)
    ensures
        r == (a@ == b@),
{
    if a.len() != b.len() {
        return false;
    }
    let r = matches_at(a, b, 0);
    proof {
        assert(a@.subrange(0, b@.len() as int) =~= a@);
    }
    r
}

/// The decimal digits of `n`, most significant first, as ASCII.
pub open spec fn decimal(n: nat) -> Seq<u8>
    decreases n,
{
    if n < 10 {
        seq![(48 + n) as u8]
    } else {
        decimal(n / 10).push((48 + n % 10) as u8)
    }
}

/// The decimal digits of `n` as ASCII text.
pub fn format_decimal(n: u64) -> (r: Vec<u8>)
    ensures
        r@ == decimal(n as nat),
    decreases n,
{
    if n < 10 {
        let mut r: Vec<u8> = Vec::new();
        r.push(48 + (n as u8));
        proof {
            assert(r@ =~= decimal(n as nat));
        }
        r
    } else {
        let mut r: Vec<u8> = format_decimal(n / 10);
        r.push(48 + ((n % 10) as u8));
        r
    }
}

/// The decimal form of a number is made of digits, at least one, and of
/// two or more where the number is ten or more.
pub proof fn lemma_decimal_digits(n: nat)
    ensures
        decimal(n).len() >= 1,
        n >= 10 ==> decimal(n).len() >= 2,
        forall|i: int| 0 <= i < decimal(n).len() ==> 48 <= #[trigger] decimal(n)[i] <= 57,
    decreases n,
{
    if n >= 10 {
        lemma_decimal_digits(n / 10);
    }
}

/// Two numbers with the same decimal form are the same number.
pub proof fn lemma_decimal_is_injective(a: nat, b: nat)
    requires
        decimal(a) == decimal(b),
    ensures
        a == b,
    decreases a,
{
    lemma_decimal_digits(a);
    lemma_decimal_digits(b);
    if a < 10 && b < 10 {
        assert(decimal(a)[0] == (48 + a) as u8);
        assert(decimal(b)[0] == (48 + b) as u8);
    } else if a >= 10 && b >= 10 {
        let da = decimal(a / 10);
        let db = decimal(b / 10);
        assert(decimal(a).drop_last() =~= da);
        assert(decimal(b).drop_last() =~= db);
        assert(decimal(a).last() == (48 + a % 10) as u8);
        assert(decimal(b).last() == (48 + b % 10) as u8);
        lemma_decimal_is_injective(a / 10, b / 10);
        assert(a % 10 == b % 10);
    } else if a < 10 {
        assert(decimal(a).len() == 1);
    } else {
        assert(decimal(b).len() == 1);
    }
}

} // verus!
