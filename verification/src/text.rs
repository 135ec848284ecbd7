//! Text handling: the characters of a string, its lines, and the name that a
//! keymap file's path stands for.

use vstd::prelude::*;

verus! {

/// The character sequences that a list of strings stands for, in order.
pub open spec fn texts(items: Seq<String>) -> Seq<Seq<char>> {
    items.map_values(|s: String| s@)
}

/// `line` without one carriage return at its end, if it has one there.
pub open spec fn without_trailing_cr(line: Seq<char>) -> Seq<char> {
    if line.len() > 0 && line.last() == '\r' {
        line.drop_last()
    } else {
        line
    }
}

/// The lines of `text`. A line ends at a line feed; the line feed, and a
/// carriage return directly before it, are not part of the line. What follows
/// the last line feed is a line of its own unless it is empty.
pub open spec fn split_lines(text: Seq<char>) -> Seq<Seq<char>>
    decreases text.len(),
    via split_lines_decreases
{
    if text.len() == 0 {
        Seq::empty()
    } else {
        match text.index_of_first('\n') {
            None => seq![text],
            Some(k) => seq![without_trailing_cr(text.take(k))] + split_lines(text.skip(k + 1)),
        }
    }
}

#[via_fn]
proof fn split_lines_decreases(text: Seq<char>) {
    text.index_of_first_ensures('\n');
}

/// The characters of `text`, one by one.
pub fn chars_of(text: &str) -> (chars: Vec<char>)
    ensures
        chars@ == text@,
{
    let mut chars: Vec<char> = Vec::new();
    for c in it: text.chars()
        invariant
            it.seq() == text@,
            chars@ == text@.take(it.index() as int),
    {
        chars.push(c);
    }
    chars
}

/// A line that ends at a line feed is the first of the lines, and the lines
/// of what follows the line feed come after it.
pub proof fn lemma_split_lines_at_newline(text: Seq<char>, k: int)
    requires
        0 <= k < text.len(),
        text[k] == '\n',
        forall|j: int| 0 <= j < k ==> text[j] != '\n',
    ensures
        split_lines(text) == seq![without_trailing_cr(text.take(k))] + split_lines(
            text.skip(k + 1),
        ),
{
    text.index_of_first_ensures('\n');
}

/// Text without a line feed is empty or a single line.
pub proof fn lemma_split_lines_without_newline(text: Seq<char>)
    requires
        forall|j: int| 0 <= j < text.len() ==> text[j] != '\n',
    ensures
        split_lines(text) == if text.len() == 0 {
            Seq::<Seq<char>>::empty()
        } else {
            seq![text]
        },
{
    text.index_of_first_ensures('\n');
}

/// No line holds a line feed.
pub proof fn lemma_lines_hold_no_line_feed(text: Seq<char>)
    ensures
        forall|i: int, j: int|
            0 <= i < split_lines(text).len() && 0 <= j < split_lines(text)[i].len()
                ==> #[trigger] split_lines(text)[i][j] != '\n',
    decreases text.len(),
{
    text.index_of_first_ensures('\n');
    if text.len() > 0 {
        if let Some(k) = text.index_of_first('\n') {
            let head = without_trailing_cr(text.take(k));
            let rest = split_lines(text.skip(k + 1));
            lemma_lines_hold_no_line_feed(text.skip(k + 1));
            assert forall|i: int, j: int|
                0 <= i < split_lines(text).len() && 0 <= j < split_lines(text)[i].len()
                implies #[trigger] split_lines(text)[i][j] != '\n' by {
                if i == 0 {
                    assert(split_lines(text)[0] == head);
                    assert(head[j] == text[j]);
                } else {
                    assert(split_lines(text)[i] == rest[i - 1]);
                }
            }
        }
    }
}

/// The part of `text` from character `from` up to character `to`, as a
/// string of its own.
fn slice_of(text: &str, from: usize, to: usize) -> (part: String)
    requires
        from <= to <= text@.len(),
    ensures
        part@ == text@.subrange(from as int, to as int),
{
    text.substring_char(from, to).to_owned()
}

/// Splits `text` into its lines, keeping empty ones.
pub fn lines(text: &str) -> (out: Vec<String>)
    ensures
        texts(out@) == split_lines(text@),
{
    let chars = chars_of(text);
    let n = chars.len();
    let mut out: Vec<String> = Vec::new();
    let mut start: usize = 0;
    let mut i: usize = 0;
    proof {
        assert(text@.skip(0) == text@);
        assert(texts(out@) + split_lines(text@) == split_lines(text@));
    }
    while i < n
        invariant
            chars@ == text@,
            n == chars@.len(),
            start <= i <= n,
            forall|j: int| start <= j < i ==> text@[j] != '\n',
            split_lines(text@) == texts(out@) + split_lines(text@.skip(start as int)),
        decreases n - i,
    {
        if chars[i] == '\n' {
            let end = if i > start && chars[i - 1] == '\r' {
                i - 1
            } else {
                i
            };
            let line = slice_of(text, start, end);
            proof {
                let rest = text@.skip(start as int);
                let k = i - start;
                lemma_split_lines_at_newline(rest, k);
                assert(rest.skip(k + 1) == text@.skip(i + 1));
                assert(without_trailing_cr(rest.take(k)) == line@);
                assert(texts(out@.push(line)) == texts(out@).push(line@));
            }
            out.push(line);
            start = i + 1;
        }
        i += 1;
    }
    proof {
        lemma_split_lines_without_newline(text@.skip(start as int));
    }
    if start < n {
        let line = slice_of(text, start, n);
        proof {
            assert(line@ == text@.skip(start as int));
            assert(texts(out@.push(line)) == texts(out@).push(line@));
        }
        out.push(line);
    }
    out
}

/// The ending that every keymap file's name has.
pub const KEYMAP_SUFFIX: &'static str = ".map.gz";

/// The last component of `path`: what follows its last slash, or all of it
/// where it has none.
pub open spec fn base_name(path: Seq<char>) -> Seq<char> {
    match path.index_of_last('/') {
        Some(i) => path.skip(i + 1),
        None => path,
    }
}

/// `s` without `suffix` at its end, or `s` itself where it does not end so.
pub open spec fn without_suffix(s: Seq<char>, suffix: Seq<char>) -> Seq<char> {
    if suffix.is_suffix_of(s) {
        s.take(s.len() - suffix.len())
    } else {
        s
    }
}

/// The layout that the keymap file at `path` holds: its base name without
/// the keymap suffix.
pub open spec fn layout_name_of(path: Seq<char>) -> Seq<char> {
    without_suffix(base_name(path), KEYMAP_SUFFIX@)
}

/// A layout name holds no slash.
pub proof fn lemma_layout_name_holds_no_slash(path: Seq<char>)
    ensures
        !layout_name_of(path).contains('/'),
{
    path.index_of_last_ensures('/');
    let base = base_name(path);
    assert forall|j: int| 0 <= j < base.len() implies base[j] != '/' by {
        if let Some(i) = path.index_of_last('/') {
            assert(base[j] == path[i + 1 + j]);
        }
    }
    let name = layout_name_of(path);
    assert forall|j: int| 0 <= j < name.len() implies name[j] != '/' by {
        assert(name[j] == base[j]);
    }
}

/// Where the base name of `chars` begins.
fn base_name_start(chars: &Vec<char>) -> (start: usize)
    ensures
        start <= chars@.len(),
        base_name(chars@) == chars@.skip(start as int),
{
    let n = chars.len();
    let mut start: usize = 0;
    let mut i: usize = 0;
    while i < n
        invariant
            n == chars@.len(),
            start <= i <= n,
            start > 0 ==> chars@[start - 1] == '/',
            forall|j: int| start <= j < i ==> chars@[j] != '/',
        decreases n - i,
    {
        if chars[i] == '/' {
            start = i + 1;
        }
        i += 1;
    }
    proof {
        chars@.index_of_last_ensures('/');
        if start == 0 {
            assert(chars@.skip(0) == chars@);
        }
    }
    start
}

/// Whether what `chars` holds from index `start` on ends in `suffix`.
fn ends_with(chars: &Vec<char>, start: usize, suffix: &Vec<char>) -> (found: bool)
    requires
        start <= chars@.len(),
    ensures
        found == suffix@.is_suffix_of(chars@.skip(start as int)),
{
    let n = chars.len();
    let m = suffix.len();
    if n - start < m {
        return false;
    }
    let offset = n - m;
    let ghost tail = chars@.skip(start as int);
    let mut j: usize = 0;
    while j < m
        invariant
            n == chars@.len(),
            m == suffix@.len(),
            start <= offset,
            offset + m == n,
            j <= m,
            tail == chars@.skip(start as int),
            forall|k: int| 0 <= k < j ==> chars@[offset + k] == suffix@[k],
        decreases m - j,
    {
        if chars[offset + j] != suffix[j] {
            proof {
                let cut = tail.subrange(tail.len() - m, tail.len() as int);
                assert(cut[j as int] == chars@[offset + j]);
            }
            return false;
        }
        j += 1;
    }
    proof {
        let cut = tail.subrange(tail.len() - m, tail.len() as int);
        assert forall|k: int| 0 <= k < m implies cut[k] == suffix@[k] by {
            assert(cut[k] == chars@[offset + k]);
        }
        assert(cut =~= suffix@);
    }
    true
}

/// Reduces the path of a keymap file to the name of its layout.
pub fn layout_name(path: &str) -> (name: String)
    ensures
        name@ == layout_name_of(path@),
{
    let chars = chars_of(path);
    let suffix = chars_of(KEYMAP_SUFFIX);
    let n = chars.len();
    let start = base_name_start(&chars);
    let end = if ends_with(&chars, start, &suffix) {
        n - suffix.len()
    } else {
        n
    };
    let name = slice_of(path, start, end);
    proof {
        let base = path@.skip(start as int);
        assert(base.take(end - start) == path@.subrange(start as int, end as int));
    }
    name
}

} // verus!
