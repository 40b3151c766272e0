//! Operations on text, counted in characters, that the prompt's rules are
//! built from.

use vstd::prelude::*;

verus! {

/// What a text holds that may be missing, as a variable that is not set.
pub open spec fn text_of(value: Option<&str>) -> Option<Seq<char>> {
    match value {
        Some(text) => Some(text@),
        None => None,
    }
}

/// Whether `c` has the Unicode property `White_Space`.
pub open spec fn is_whitespace(c: char) -> bool {
    let code = c as u32;
    ||| 0x09 <= code <= 0x0D
    ||| code == 0x20
    ||| code == 0x85
    ||| code == 0xA0
    ||| code == 0x1680
    ||| 0x2000 <= code <= 0x200A
    ||| code == 0x2028
    ||| code == 0x2029
    ||| code == 0x202F
    ||| code == 0x205F
    ||| code == 0x3000
}

/// `s` without the whitespace it begins with.
pub open spec fn trim_start(s: Seq<char>) -> Seq<char>
    decreases s.len(),
{
    if s.len() > 0 && is_whitespace(s[0]) {
        trim_start(s.drop_first())
    } else {
        s
    }
}

/// `s` without the whitespace it ends with.
pub open spec fn trim_end(s: Seq<char>) -> Seq<char>
    decreases s.len(),
{
    if s.len() > 0 && is_whitespace(s.last()) {
        trim_end(s.drop_last())
    } else {
        s
    }
}

/// `s` without the whitespace around it.
pub open spec fn trimmed(s: Seq<char>) -> Seq<char> {
    trim_end(trim_start(s))
}

/// Whether `s` begins with `prefix`.
pub open spec fn has_prefix(s: Seq<char>, prefix: Seq<char>) -> bool {
    prefix.len() <= s.len() && s.subrange(0, prefix.len() as int) == prefix
}

/// What follows the first `n` characters of `s`.
pub open spec fn after(s: Seq<char>, n: nat) -> Seq<char> {
    s.subrange(n as int, s.len() as int)
}

/// The first `n` characters of `s`, or all of `s` where it is shorter.
pub open spec fn first_chars(s: Seq<char>, n: nat) -> Seq<char> {
    if s.len() <= n {
        s
    } else {
        s.subrange(0, n as int)
    }
}

/// Where the last segment of `path` begins: just behind its last `/`, or at
/// 0 where it has none.
pub open spec fn last_segment_start(path: Seq<char>) -> int
    decreases path.len(),
{
    if path.len() == 0 || path.last() == '/' {
        path.len() as int
    } else {
        last_segment_start(path.drop_last())
    }
}

/// The final component of a `/`-separated path: its last segment, passing
/// over empty segments and `.` segments at the end. There is none where
/// nothing is left or where that segment is `..`.
pub open spec fn final_component(path: Seq<char>) -> Option<Seq<char>>
    decreases path.len(),
{
    let start = last_segment_start(path);
    let segment = path.subrange(start, path.len() as int);
    if segment.len() == 0 || segment == seq!['.'] {
        if 0 < start <= path.len() {
            final_component(path.subrange(0, start - 1))
        } else {
            None
        }
    } else if segment == seq!['.', '.'] {
        None
    } else {
        Some(segment)
    }
}

/// Whether `c` is whitespace.
pub fn is_space(c: char) -> (space: bool)
    ensures
        space == is_whitespace(c),
{
    let code = c as u32;
    (0x09 <= code && code <= 0x0D) || code == 0x20 || code == 0x85 || code == 0xA0 || code
        == 0x1680 || (0x2000 <= code && code <= 0x200A) || code == 0x2028 || code == 0x2029 || code
        == 0x202F || code == 0x205F || code == 0x3000
}

/// Whether two texts hold the same characters.
pub fn same_text(a: &str, b: &str) -> (same: bool)
    ensures
        same == (a@ == b@),
{
    let a = a.to_owned();
    let b = b.to_owned();
    a == b
}

/// `s` without the whitespace around it.
pub fn trim(s: &str) -> (out: &str)
    ensures
        out@ == trimmed(s@),
{
    let len = s.unicode_len();
    let mut start: usize = 0;
    assert(s@.subrange(0, len as int) =~= s@);
    while start < len && is_space(s.get_char(start))
        invariant
            start <= len,
            len == s@.len(),
            trim_start(s@) == trim_start(s@.subrange(start as int, len as int)),
        decreases len - start,
    {
        proof {
            let rest = s@.subrange(start as int, len as int);
            assert(rest.drop_first() =~= s@.subrange(start + 1, len as int));
        }
        start += 1;
    }
    let ghost body = s@.subrange(start as int, len as int);
    assert(trim_start(s@) == body);
    let mut end: usize = len;
    while end > start && is_space(s.get_char(end - 1))
        invariant
            start <= end <= len,
            len == s@.len(),
            trim_end(body) == trim_end(s@.subrange(start as int, end as int)),
            body == s@.subrange(start as int, len as int),
        decreases end - start,
    {
        proof {
            let rest = s@.subrange(start as int, end as int);
            assert(rest.drop_last() =~= s@.subrange(start as int, end - 1));
        }
        end -= 1;
    }
    s.substring_char(start, end)
}

/// What follows `prefix` in `s`, where `s` begins with it.
pub fn strip_prefix<'a>(s: &'a str, prefix: &str) -> (rest: Option<&'a str>)
    ensures
        match rest {
            Some(rest) => has_prefix(s@, prefix@) && rest@ == after(s@, prefix@.len()),
            None => !has_prefix(s@, prefix@),
        },
{
    let len = s.unicode_len();
    let prefix_len = prefix.unicode_len();
    if prefix_len <= len && same_text(s.substring_char(0, prefix_len), prefix) {
        Some(s.substring_char(prefix_len, len))
    } else {
        None
    }
}

/// The first `n` characters of `s`, or all of `s` where it is shorter.
pub fn take_chars(s: &str, n: usize) -> (out: &str)
    ensures
        out@ == first_chars(s@, n as nat),
{
    if s.unicode_len() <= n {
        s
    } else {
        s.substring_char(0, n)
    }
}

/// The final component of a `/`-separated path, if it has one.
pub fn file_name(path: &str) -> (name: Option<&str>)
    ensures
        match name {
            Some(name) => final_component(path@) == Some(name@),
            None => final_component(path@) is None,
        },
{
    let len = path.unicode_len();
    let mut end: usize = len;
    assert(path@.subrange(0, len as int) =~= path@);
    loop
        invariant
            end <= len,
            len == path@.len(),
            final_component(path@) == final_component(path@.subrange(0, end as int)),
        decreases end,
    {
        let ghost head = path@.subrange(0, end as int);
        let mut start: usize = end;
        while start > 0 && path.get_char(start - 1) != '/'
            invariant
                start <= end <= len,
                len == path@.len(),
                head == path@.subrange(0, end as int),
                last_segment_start(head) == last_segment_start(path@.subrange(0, start as int)),
            decreases start,
        {
            proof {
                let shorter = path@.subrange(0, start as int);
                assert(shorter.drop_last() =~= path@.subrange(0, start - 1));
            }
            start -= 1;
        }
        assert(last_segment_start(head) == start);
        let segment = path.substring_char(start, end);
        assert(segment@ =~= head.subrange(start as int, head.len() as int));
        proof {
            reveal_strlit(".");
            reveal_strlit("..");
            assert("."@ =~= seq!['.']);
            assert(".."@ =~= seq!['.', '.']);
        }
        if start == end || same_text(segment, ".") {
            if start == 0 {
                return None;
            }
            assert(head.subrange(0, start - 1) =~= path@.subrange(0, start - 1));
            end = start - 1;
        } else if same_text(segment, "..") {
            return None;
        } else {
            return Some(segment);
        }
    }
}

/// How many characters of `s` stand before its first `sep`; all of them
/// where it has none.
pub open spec fn segment_len(s: Seq<char>, sep: char) -> nat
    decreases s.len(),
{
    if s.len() == 0 || s[0] == sep {
        0
    } else {
        1 + segment_len(s.drop_first(), sep)
    }
}

/// The segments of `s` between its occurrences of `sep`, in order. There
/// is always at least one, and a segment may be empty.
pub open spec fn split(s: Seq<char>, sep: char) -> Seq<Seq<char>>
    decreases s.len(),
{
    let n = segment_len(s, sep);
    if n >= s.len() {
        seq![s]
    } else {
        seq![s.subrange(0, n as int)] + split(s.subrange(n as int + 1, s.len() as int), sep)
    }
}

/// `parts` in order with `sep` between each two of them.
pub open spec fn join(parts: Seq<Seq<char>>, sep: char) -> Seq<char>
    decreases parts.len(),
{
    if parts.len() == 0 {
        Seq::empty()
    } else if parts.len() == 1 {
        parts[0]
    } else {
        join(parts.drop_last(), sep) + seq![sep] + parts.last()
    }
}

/// `s` with each occurrence of `from` replaced by `to`, found from left to
/// right without overlap. An empty `from` occurs before each character and
/// at the end.
pub open spec fn replace_all(s: Seq<char>, from: Seq<char>, to: Seq<char>) -> Seq<char>
    decreases s.len(),
{
    if s.len() == 0 {
        if from.len() == 0 {
            to
        } else {
            s
        }
    } else if from.len() == 0 {
        to + seq![s[0]] + replace_all(s.drop_first(), from, to)
    } else if has_prefix(s, from) {
        to + replace_all(after(s, from.len()), from, to)
    } else {
        seq![s[0]] + replace_all(s.drop_first(), from, to)
    }
}

/// The first segment of `s` ends at the first `sep`.
pub proof fn lemma_segment_len(s: Seq<char>, sep: char, k: nat)
    requires
        k <= s.len(),
        forall|i: int| 0 <= i < k ==> s[i] != sep,
        k == s.len() || s[k as int] == sep,
    ensures
        segment_len(s, sep) == k,
    decreases k,
{
    if k > 0 {
        lemma_segment_len(s.drop_first(), sep, (k - 1) as nat);
    }
}

/// The segments of `s` between its occurrences of `sep`.
pub fn split_on(s: &str, sep: char) -> (parts: Vec<String>)
    ensures
        parts.deep_view() == split(s@, sep),
        parts.len() >= 1,
{
    let len = s.unicode_len();
    let mut parts: Vec<String> = Vec::new();
    let mut start: usize = 0;
    let mut i: usize = 0;
    assert(s@.subrange(0, len as int) =~= s@);
    assert(parts.deep_view() + split(s@, sep) =~= split(s@, sep));
    while i < len
        invariant
            start <= i <= len,
            len == s@.len(),
            forall|j: int| start <= j < i ==> s@[j] != sep,
            split(s@, sep) == parts.deep_view() + split(s@.subrange(start as int, len as int), sep),
        decreases len - i,
    {
        if s.get_char(i) == sep {
            let piece = String::from_str(s.substring_char(start, i));
            proof {
                let rest = s@.subrange(start as int, len as int);
                lemma_segment_len(rest, sep, (i - start) as nat);
                assert(rest.subrange(0, i - start) =~= piece@);
                assert(rest.subrange(i - start + 1, rest.len() as int) =~= s@.subrange(
                    i + 1,
                    len as int,
                ));
            }
            let ghost before = parts.deep_view();
            parts.push(piece);
            assert(parts.deep_view() =~= before + seq![piece@]);
            assert(before + (seq![piece@] + split(s@.subrange(i + 1, len as int), sep))
                =~= parts.deep_view() + split(s@.subrange(i + 1, len as int), sep));
            start = i + 1;
        }
        i += 1;
    }
    let piece = String::from_str(s.substring_char(start, len));
    proof {
        lemma_segment_len(piece@, sep, piece@.len());
    }
    let ghost before = parts.deep_view();
    parts.push(piece);
    assert(parts.deep_view() =~= before + seq![piece@]);
    parts
}

/// `s` with each occurrence of `from` replaced by `to`.
pub fn replace(s: &str, from: &str, to: &str) -> (out: String)
    ensures
        out@ == replace_all(s@, from@, to@),
{
    let len = s.unicode_len();
    let from_len = from.unicode_len();
    let mut out = String::new();
    let mut i: usize = 0;
    assert(s@.subrange(0, len as int) =~= s@);
    assert(out@ + replace_all(s@, from@, to@) =~= replace_all(s@, from@, to@));
    while i < len
        invariant
            i <= len,
            len == s@.len(),
            from_len == from@.len(),
            replace_all(s@, from@, to@) == out@ + replace_all(
                s@.subrange(i as int, len as int),
                from@,
                to@,
            ),
        decreases len - i,
    {
        let ghost rest = s@.subrange(i as int, len as int);
        let ghost done = out@;
        if from_len > 0 && from_len <= len - i && same_text(
            s.substring_char(i, i + from_len),
            from,
        ) {
            proof {
                assert(rest.subrange(0, from_len as int) =~= s@.subrange(i as int, i + from_len));
                assert(after(rest, from_len as nat) =~= s@.subrange(i + from_len, len as int));
            }
            out.append(to);
            assert(done + (to@ + replace_all(after(rest, from_len as nat), from@, to@)) =~= out@
                + replace_all(after(rest, from_len as nat), from@, to@));
            i += from_len;
        } else {
            proof {
                assert(rest.drop_first() =~= s@.subrange(i + 1, len as int));
                if from_len > 0 && from_len <= len - i {
                    assert(rest.subrange(0, from_len as int) =~= s@.subrange(
                        i as int,
                        i + from_len,
                    ));
                }
            }
            if from_len == 0 {
                out.append(to);
            }
            let one = s.substring_char(i, i + 1);
            assert(one@ =~= seq![rest[0]]);
            out.append(one);
            proof {
                let tail = replace_all(rest.drop_first(), from@, to@);
                if from_len == 0 {
                    assert(done + (to@ + seq![rest[0]] + tail) =~= out@ + tail);
                } else {
                    assert(done + (seq![rest[0]] + tail) =~= out@ + tail);
                }
            }
            i += 1;
        }
    }
    let ghost done = out@;
    if from_len == 0 {
        out.append(to);
    }
    assert(out@ =~= done + replace_all(s@.subrange(len as int, len as int), from@, to@));
    out
}

} // verus!
