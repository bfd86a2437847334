//! String-building helpers shared by the derived-input generator, the
//! manifest generator and the build orchestrator: joining identifier lists,
//! escaping strings for JSON output, and trimming whitespace from the
//! external builder's output.

use vstd::prelude::*;
use vstd::string::StringExecFns;

verus! {

/// The whitespace characters trimmed from the external builder's output.
pub open spec fn is_space(c: char) -> bool {
    c == ' ' || c == '\n' || c == '\t' || c == '\r'
}

/// `s` without its leading whitespace.
pub open spec fn trim_front(s: Seq<char>) -> Seq<char>
    decreases s.len(),
{
    if s.len() > 0 && is_space(s[0]) {
        trim_front(s.drop_first())
    } else {
        s
    }
}

/// `s` without its trailing whitespace.
pub open spec fn trim_back(s: Seq<char>) -> Seq<char>
    decreases s.len(),
{
    if s.len() > 0 && is_space(s.last()) {
        trim_back(s.drop_last())
    } else {
        s
    }
}

/// `s` without leading or trailing whitespace.
pub open spec fn trim_spec(s: Seq<char>) -> Seq<char> {
    trim_back(trim_front(s))
}

proof fn lemma_trim_front_is_suffix(s: Seq<char>, i: int)
    requires
        0 <= i <= s.len(),
        forall|k: int| 0 <= k < i ==> is_space(s[k]),
        i == s.len() || !is_space(s[i]),
    ensures
        trim_front(s) == s.subrange(i, s.len() as int),
    decreases i,
{
    if i == 0 {
        if s.len() > 0 && is_space(s[0]) {
            assert(false);
        }
        assert(s.subrange(0, s.len() as int) =~= s);
    } else {
        assert(is_space(s[0]));
        let t = s.drop_first();
        assert(forall|k: int| 0 <= k < i - 1 ==> is_space(#[trigger] t[k]));
        lemma_trim_front_is_suffix(t, i - 1);
        assert(t.subrange(i - 1, t.len() as int) =~= s.subrange(i, s.len() as int));
    }
}

proof fn lemma_trim_back_is_prefix(s: Seq<char>, j: int)
    requires
        0 <= j <= s.len(),
        forall|k: int| j <= k < s.len() ==> is_space(s[k]),
        j == 0 || !is_space(s[j - 1]),
    ensures
        trim_back(s) == s.subrange(0, j),
    decreases s.len() - j,
{
    if j == s.len() {
        if s.len() > 0 && is_space(s.last()) {
            assert(false);
        }
        assert(s.subrange(0, s.len() as int) =~= s);
    } else {
        assert(is_space(s.last()));
        let t = s.drop_last();
        lemma_trim_back_is_prefix(t, j);
        assert(t.subrange(0, j) =~= s.subrange(0, j));
    }
}

/// Trims the whitespace characters of `is_space` from both ends of `s`.
pub fn trim_spaces(s: &str) -> (r: String)
    ensures
        r@ == trim_spec(s@),
{
    let len = s.unicode_len();
    let mut i: usize = 0;
    while i < len && is_space_exec(s.get_char(i))
        invariant
            0 <= i <= len,
            len == s@.len(),
            forall|k: int| 0 <= k < i ==> is_space(s@[k]),
        decreases len - i,
    {
        i = i + 1;
    }
    proof {
        lemma_trim_front_is_suffix(s@, i as int);
    }
    let mut j: usize = len;
    while j > i && is_space_exec(s.get_char(j - 1))
        invariant
            i <= j <= len,
            len == s@.len(),
            forall|k: int| j <= k < len ==> is_space(s@[k]),
        decreases j,
    {
        j = j - 1;
    }
    proof {
        let front = s@.subrange(i as int, len as int);
        let inner = front.subrange(0, j - i);
        assert(forall|k: int| j - i <= k < front.len() ==> is_space(#[trigger] front[k]));
        lemma_trim_back_is_prefix(front, j - i);
        assert(inner =~= s@.subrange(i as int, j as int));
    }
    s.substring_char(i, j).to_owned()
}

/// Exec mirror of `is_space`.
pub fn is_space_exec(c: char) -> (r: bool)
    ensures
        r == is_space(c),
{
    c == ' ' || c == '\n' || c == '\t' || c == '\r'
}

/// The elements of `items` joined by the separator `sep`.
pub open spec fn join_with(items: Seq<Seq<char>>, sep: Seq<char>) -> Seq<char>
    decreases items.len(),
{
    if items.len() == 0 {
        Seq::empty()
    } else if items.len() == 1 {
        items[0]
    } else {
        join_with(items.drop_last(), sep) + sep + items.last()
    }
}

/// Appends the elements of `items` to `out`, separated by `sep`.
pub fn append_joined(out: &mut String, items: &Vec<String>, sep: &str)
    ensures
        final(out)@ == old(out)@ + join_with(items.deep_view(), sep@),
{
    let ghost views = items.deep_view();
    let mut idx: usize = 0;
    while idx < items.len()
        invariant
            0 <= idx <= items.len(),
            views == items.deep_view(),
            views.len() == items@.len(),
            forall|k: int| 0 <= k < items@.len() ==> views[k] == items@[k]@,
            out@ == old(out)@ + join_with(views.take(idx as int), sep@),
        decreases items.len() - idx,
    {
        if idx > 0 {
            out.append(sep);
        }
        out.append(items[idx].as_str());
        proof {
            let pre = views.take(idx as int);
            let cur = views.take(idx + 1);
            assert(cur.drop_last() =~= pre);
            assert(cur.last() == views[idx as int]);
            if idx == 0 {
                assert(join_with(cur, sep@) == views[0]);
            }
        }
        idx = idx + 1;
    }
    proof {
        assert(views.take(items@.len() as int) =~= views);
    }
}

/// The lower-case hexadecimal digit for `n`, for `0 <= n < 16`.
pub open spec fn hex_digit(n: int) -> char {
    if n == 0 { '0' } else if n == 1 { '1' } else if n == 2 { '2' } else if n == 3 { '3' }
    else if n == 4 { '4' } else if n == 5 { '5' } else if n == 6 { '6' } else if n == 7 { '7' }
    else if n == 8 { '8' } else if n == 9 { '9' } else if n == 10 { 'a' } else if n == 11 { 'b' }
    else if n == 12 { 'c' } else if n == 13 { 'd' } else if n == 14 { 'e' } else { 'f' }
}

/// How one character appears inside a JSON string literal: quotes and
/// backslashes are escaped, control characters become `\u00XX` (with the
/// common short forms for newline, tab and carriage return), everything
/// else stands for itself.
pub open spec fn json_escape_char(c: char) -> Seq<char> {
    if c == '"' {
        seq!['\\', '"']
    } else if c == '\\' {
        seq!['\\', '\\']
    } else if c == '\n' {
        seq!['\\', 'n']
    } else if c == '\t' {
        seq!['\\', 't']
    } else if c == '\r' {
        seq!['\\', 'r']
    } else if (c as u32) < 32 {
        seq!['\\', 'u', '0', '0', hex_digit(c as u32 as int / 16), hex_digit(c as u32 as int % 16)]
    } else {
        seq![c]
    }
}

/// `s` with every character escaped for a JSON string literal.
pub open spec fn json_escape(s: Seq<char>) -> Seq<char>
    decreases s.len(),
{
    if s.len() == 0 {
        Seq::empty()
    } else {
        json_escape(s.drop_last()) + json_escape_char(s.last())
    }
}

/// A JSON string literal holding `s`: quoted and escaped.
pub open spec fn json_string(s: Seq<char>) -> Seq<char> {
    seq!['"'] + json_escape(s) + seq!['"']
}

/// A JSON array of string literals, one per element of `items`.
pub open spec fn json_string_array(items: Seq<Seq<char>>) -> Seq<char> {
    seq!['['] + join_with(items.map_values(|s: Seq<char>| json_string(s)), seq![',']) + seq![']']
}

fn append_hex_digit(out: &mut String, n: u32)
    requires
        n < 16,
    ensures
        final(out)@ == old(out)@ + seq![hex_digit(n as int)],
{
    let d: &str = if n == 0 { "0" } else if n == 1 { "1" } else if n == 2 { "2" }
        else if n == 3 { "3" } else if n == 4 { "4" } else if n == 5 { "5" }
        else if n == 6 { "6" } else if n == 7 { "7" } else if n == 8 { "8" }
        else if n == 9 { "9" } else if n == 10 { "a" } else if n == 11 { "b" }
        else if n == 12 { "c" } else if n == 13 { "d" } else if n == 14 { "e" } else { "f" };
    proof {
        reveal_strlit("0");
        reveal_strlit("1");
        reveal_strlit("2");
        reveal_strlit("3");
        reveal_strlit("4");
        reveal_strlit("5");
        reveal_strlit("6");
        reveal_strlit("7");
        reveal_strlit("8");
        reveal_strlit("9");
        reveal_strlit("a");
        reveal_strlit("b");
        reveal_strlit("c");
        reveal_strlit("d");
        reveal_strlit("e");
        reveal_strlit("f");
    }
    out.append(d);
}

/// Appends `s` to `out` as a JSON string literal, quoted and escaped.
pub fn append_json_string(out: &mut String, s: &str)
    ensures
        final(out)@ == old(out)@ + json_string(s@),
{
    proof {
        reveal_strlit("\"");
    }
    out.append("\"");
    let len = s.unicode_len();
    let mut i: usize = 0;
    while i < len
        invariant
            0 <= i <= len,
            len == s@.len(),
            out@ == old(out)@ + seq!['"'] + json_escape(s@.take(i as int)),
        decreases len - i,
    {
        proof {
            reveal_strlit("\\\"");
            reveal_strlit("\\\\");
            reveal_strlit("\\n");
            reveal_strlit("\\t");
            reveal_strlit("\\r");
            reveal_strlit("\\u00");
        }
        let c = s.get_char(i);
        if c == '"' {
            out.append("\\\"");
        } else if c == '\\' {
            out.append("\\\\");
        } else if c == '\n' {
            out.append("\\n");
        } else if c == '\t' {
            out.append("\\t");
        } else if c == '\r' {
            out.append("\\r");
        } else if (c as u32) < 32 {
            let code = c as u32;
            out.append("\\u00");
            append_hex_digit(out, code / 16);
            append_hex_digit(out, code % 16);
        } else {
            append_char(out, c);
        }
        proof {
            let pre = s@.take(i as int);
            let cur = s@.take(i + 1);
            assert(cur.drop_last() =~= pre);
            assert(cur.last() == s@[i as int]);
            assert(json_escape(cur) == json_escape(pre) + json_escape_char(s@[i as int]));
            assert(out@ =~= old(out)@ + seq!['"'] + json_escape(cur));
        }
        i = i + 1;
    }
    out.append("\"");
    proof {
        assert(s@.take(s@.len() as int) =~= s@);
        assert(out@ =~= old(out)@ + json_string(s@));
    }
}

/// A copy of `v` with the same elements.
pub fn clone_strings(v: &Vec<String>) -> (r: Vec<String>)
    ensures
        r@ == v@,
{
    let mut out: Vec<String> = Vec::new();
    let mut i: usize = 0;
    while i < v.len()
        invariant
            0 <= i <= v.len(),
            out@ =~= v@.take(i as int),
        decreases v.len() - i,
    {
        out.push(v[i].clone());
        proof {
            assert(out@ =~= v@.take(i + 1));
        }
        i = i + 1;
    }
    proof {
        assert(v@.take(v@.len() as int) =~= v@);
    }
    out
}

/// Relies on std's `String::push`: appends exactly the one character `c`.
#[verifier::external_body]
fn append_char(out: &mut String, c: char)
    ensures
        final(out)@ == old(out)@ + seq![c],
{
    out.push(c);
}

/// Appends the elements of `items` to `out` as a JSON array of strings.
pub fn append_json_string_array(out: &mut String, items: &Vec<String>)
    ensures
        final(out)@ == old(out)@ + json_string_array(items.deep_view()),
{
    proof {
        reveal_strlit("[");
        reveal_strlit("]");
        reveal_strlit(",");
    }
    let ghost views = items.deep_view();
    let ghost mapped = views.map_values(|s: Seq<char>| json_string(s));
    out.append("[");
    let mut idx: usize = 0;
    while idx < items.len()
        invariant
            0 <= idx <= items.len(),
            views == items.deep_view(),
            mapped == views.map_values(|s: Seq<char>| json_string(s)),
            views.len() == items@.len(),
            mapped.len() == items@.len(),
            forall|k: int| 0 <= k < items@.len() ==> views[k] == items@[k]@,
            forall|k: int| 0 <= k < items@.len() ==> mapped[k] == json_string(views[k]),
            out@ == old(out)@ + seq!['['] + join_with(mapped.take(idx as int), seq![',']),
        decreases items.len() - idx,
    {
        proof {
            reveal_strlit(",");
        }
        if idx > 0 {
            out.append(",");
        }
        append_json_string(out, items[idx].as_str());
        proof {
            let pre = mapped.take(idx as int);
            let cur = mapped.take(idx + 1);
            assert(cur.drop_last() =~= pre);
            assert(cur.last() == mapped[idx as int]);
            if idx == 0 {
                assert(join_with(cur, seq![',']) == mapped[0]);
            }
            assert(out@ =~= old(out)@ + seq!['['] + join_with(cur, seq![',']));
        }
        idx = idx + 1;
    }
    out.append("]");
    proof {
        assert(mapped.take(items@.len() as int) =~= mapped);
        assert(out@ =~= old(out)@ + json_string_array(views));
    }
}

} // verus!
