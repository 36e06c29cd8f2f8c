use vstd::prelude::*;

verus! {

/// Appends one character to a string.
#[verifier::external_body]
pub(crate) fn push_char(s: &mut String, c: char)
    ensures
        final(s)@ == old(s)@.push(c),
{
    s.push(c);
}

/// Whether `c` is white space in the sense of Unicode's `White_Space` property.
pub open spec fn is_white_space(c: char) -> bool {
    ||| c == '\t'
    ||| c == '\n'
    ||| c == '\u{0B}'
    ||| c == '\u{0C}'
    ||| c == '\r'
    ||| c == ' '
    ||| c == '\u{85}'
    ||| c == '\u{A0}'
    ||| c == '\u{1680}'
    ||| ('\u{2000}' <= c && c <= '\u{200A}')
    ||| c == '\u{2028}'
    ||| c == '\u{2029}'
    ||| c == '\u{202F}'
    ||| c == '\u{205F}'
    ||| c == '\u{3000}'
}

/// Whether `c` is white space, as `char::is_whitespace` decides it.
pub fn is_whitespace(c: char) -> (b: bool)
    ensures
        b == is_white_space(c),
{
    c == '\t' || c == '\n' || c == '\u{0B}' || c == '\u{0C}' || c == '\r' || c == ' ' || c
        == '\u{85}' || c == '\u{A0}' || c == '\u{1680}' || ('\u{2000}' <= c && c <= '\u{200A}')
        || c == '\u{2028}' || c == '\u{2029}' || c == '\u{202F}' || c == '\u{205F}' || c
        == '\u{3000}'
}

/// The position of the first line feed in `s`, or its length when there is none.
pub open spec fn newline_pos(s: Seq<char>) -> int
    decreases s.len(),
{
    if s.len() == 0 {
        0
    } else if s[0] == '\n' {
        0
    } else {
        1 + newline_pos(s.drop_first())
    }
}

/// A line without the carriage return that ended it.
pub open spec fn strip_cr(l: Seq<char>) -> Seq<char> {
    if l.len() > 0 && l.last() == '\r' {
        l.drop_last()
    } else {
        l
    }
}

/// The lines of `s`, as `str::lines` gives them: split at each line feed, with a
/// carriage return before the line feed removed and no empty line after a final line
/// feed.
pub open spec fn lines_of(s: Seq<char>) -> Seq<Seq<char>>
    decreases s.len(),
{
    if s.len() == 0 {
        seq![]
    } else {
        let i = newline_pos(s);
        proof {
            lemma_newline_pos(s);
        }
        if i >= s.len() {
            seq![s]
        } else {
            seq![strip_cr(s.take(i))] + lines_of(s.skip(i + 1))
        }
    }
}

/// Whether `s` begins with `p`.
pub open spec fn starts_with(s: Seq<char>, p: Seq<char>) -> bool {
    p.len() <= s.len() && s.take(p.len() as int) == p
}

/// Whether `n` occurs in `h` at position `i`.
pub open spec fn occurs_at(h: Seq<char>, n: Seq<char>, i: int) -> bool {
    h.subrange(i, i + n.len()) == n
}

/// The first position at or after `i` where `n` occurs in `h`.
pub open spec fn find_from(h: Seq<char>, n: Seq<char>, i: int) -> Option<int>
    decreases h.len() + 1 - i,
{
    if i < 0 || i > h.len() || i + n.len() > h.len() {
        None
    } else if occurs_at(h, n, i) {
        Some(i)
    } else {
        find_from(h, n, i + 1)
    }
}

/// `s` without leading white space.
pub open spec fn trim_start(s: Seq<char>) -> Seq<char>
    decreases s.len(),
{
    if s.len() > 0 && is_white_space(s[0]) {
        trim_start(s.drop_first())
    } else {
        s
    }
}

/// `s` without trailing white space.
pub open spec fn trim_end(s: Seq<char>) -> Seq<char>
    decreases s.len(),
{
    if s.len() > 0 && is_white_space(s.last()) {
        trim_end(s.drop_last())
    } else {
        s
    }
}

/// `s` without leading or trailing white space.
pub open spec fn trim(s: Seq<char>) -> Seq<char> {
    trim_end(trim_start(s))
}

pub open spec fn version_directive() -> Seq<char> {
    seq!['#', 'v', 'e', 'r', 's', 'i', 'o', 'n']
}

pub open spec fn extension_directive() -> Seq<char> {
    seq!['#', 'e', 'x', 't', 'e', 'n', 's', 'i', 'o', 'n']
}

pub open spec fn layout_word() -> Seq<char> {
    seq!['l', 'a', 'y', 'o', 'u', 't']
}

pub open spec fn in_word() -> Seq<char> {
    seq![' ', 'i', 'n', ' ']
}

pub open spec fn out_word() -> Seq<char> {
    seq![' ', 'o', 'u', 't', ' ']
}

/// Whether a shader line survives: `#version` and `#extension` directives do not.
pub open spec fn keeps_line(l: Seq<char>) -> bool {
    !starts_with(l, version_directive()) && !starts_with(l, extension_directive())
}

/// A surviving shader line: a `layout(...)` qualifier before an ` in ` or ` out `
/// declaration is dropped, along with surrounding white space.
pub open spec fn rewrite_line(l: Seq<char>) -> Seq<char> {
    if starts_with(l, layout_word()) {
        let rest = l.skip(5);
        let i = match find_from(rest, in_word(), 0) {
            Some(i) => i,
            None => match find_from(rest, out_word(), 0) {
                Some(i) => i,
                None => 0,
            },
        };
        trim(l.skip(i + 5))
    } else {
        l
    }
}

/// The surviving lines, rewritten.
pub open spec fn shader_lines(ls: Seq<Seq<char>>) -> Seq<Seq<char>>
    decreases ls.len(),
{
    if ls.len() == 0 {
        seq![]
    } else if keeps_line(ls.last()) {
        shader_lines(ls.drop_last()).push(rewrite_line(ls.last()))
    } else {
        shader_lines(ls.drop_last())
    }
}

/// The lines joined with line feeds between them.
pub open spec fn join_lines(ls: Seq<Seq<char>>) -> Seq<char>
    decreases ls.len(),
{
    if ls.len() == 0 {
        seq![]
    } else if ls.len() == 1 {
        ls[0]
    } else {
        join_lines(ls.drop_last()) + seq!['\n'] + ls.last()
    }
}

/// What `transform_shader` makes of `s`.
pub open spec fn transformed_shader(s: Seq<char>) -> Seq<char> {
    join_lines(shader_lines(lines_of(s)))
}

/// Whether `v[start..]` begins with `p`.
fn starts_with_at(v: &Vec<char>, start: usize, p: &[char]) -> (b: bool)
    requires
        start <= v@.len(),
    ensures
        b == starts_with(v@.skip(start as int), p@),
{
    let vl = v.len();
    if p.len() > vl - start {
        return false;
    }
    let mut k: usize = 0;
    while k < p.len()
        invariant
            vl == v@.len(),
            start <= v@.len(),
            p@.len() <= v@.len() - start,
            k <= p@.len(),
            forall|j: int| 0 <= j < k ==> v@[start + j] == p@[j],
        decreases p.len() - k,
    {
        assert(k < p@.len());
        assert(start + k < v@.len());
        if v[start + k] != p[k] {
            assert(v@.skip(start as int).take(p@.len() as int)[k as int] != p@[k as int]);
            return false;
        }
        k = k + 1;
    }
    assert(v@.skip(start as int).take(p@.len() as int) =~= p@);
    true
}

proof fn lemma_find_from_none(h: Seq<char>, n: Seq<char>, i: int, j: int)
    requires
        0 <= i <= j,
        forall|k: int| i <= k < j ==> !#[trigger] occurs_at(h, n, k),
    ensures
        find_from(h, n, j) is None ==> find_from(h, n, i) is None,
        j + n.len() <= h.len() ==> find_from(h, n, i) == find_from(h, n, j),
    decreases j - i,
{
    if i < j {
        lemma_find_from_none(h, n, i + 1, j);
    }
}

/// The first position where `n` occurs in `line[5..]`.
fn find_after_five(line: &Vec<char>, n: &[char]) -> (r: Option<usize>)
    requires
        5 <= line@.len(),
    ensures
        r matches Some(i) ==> find_from(line@.skip(5), n@, 0) == Some(i as int),
        r is None ==> find_from(line@.skip(5), n@, 0) is None,
{
    let ghost h = line@.skip(5);
    let len = line.len() - 5;
    if n.len() > len {
        return None;
    }
    let last = len - n.len();
    let mut i: usize = 0;
    while i <= last
        invariant
            h == line@.skip(5),
            len == h.len(),
            line@.len() == len + 5,
            line@.len() <= usize::MAX,
            last == len - n@.len(),
            n@.len() <= len,
            i <= last + 1,
            forall|k: int| 0 <= k < i ==> !#[trigger] occurs_at(h, n@, k),
        decreases last + 1 - i,
    {
        proof {
            assert(line@.skip(i + 5).take(n@.len() as int) =~= h.subrange(
                i as int,
                i + n@.len(),
            ));
        }
        assert(i <= last);
        assert(i + 5 <= line@.len());
        if starts_with_at(line, i + 5, n) {
            proof {
                lemma_find_from_none(h, n@, 0, i as int);
                assert(occurs_at(h, n@, i as int));
            }
            return Some(i);
        }
        i = i + 1;
    }
    proof {
        lemma_find_from_none(h, n@, 0, i as int);
    }
    None
}

/// `v[from..]` without leading or trailing white space.
fn trimmed_from(v: &Vec<char>, from: usize) -> (r: Vec<char>)
    requires
        from <= v@.len(),
    ensures
        r@ == trim(v@.skip(from as int)),
{
    let mut a = from;
    while a < v.len() && is_whitespace(v[a])
        invariant
            from <= a <= v@.len(),
            trim_start(v@.skip(from as int)) == trim_start(v@.skip(a as int)),
        decreases v.len() - a,
    {
        assert(v@.skip(a as int).drop_first() =~= v@.skip(a + 1));
        a = a + 1;
    }
    let mut b = v.len();
    assert(v@.skip(a as int) =~= v@.subrange(a as int, b as int));
    while b > a && is_whitespace(v[b - 1])
        invariant
            a <= b <= v@.len(),
            trim_end(v@.skip(a as int)) == trim_end(v@.subrange(a as int, b as int)),
        decreases b - a,
    {
        assert(v@.subrange(a as int, b as int).drop_last() =~= v@.subrange(a as int, b - 1));
        b = b - 1;
    }
    let mut r: Vec<char> = Vec::new();
    let mut k = a;
    while k < b
        invariant
            a <= k <= b <= v@.len(),
            r@ =~= v@.subrange(a as int, k as int),
        decreases b - k,
    {
        r.push(v[k]);
        k = k + 1;
    }
    r
}

/// Rewrites one surviving line.
fn rewrite(line: Vec<char>) -> (r: Vec<char>)
    ensures
        r@ == rewrite_line(line@),
{
    let layout = ['l', 'a', 'y', 'o', 'u', 't'];
    assert(layout@ == layout_word());
    assert(line@.skip(0) =~= line@);
    if starts_with_at(&line, 0, &layout) {
        let in_w = [' ', 'i', 'n', ' '];
        let out_w = [' ', 'o', 'u', 't', ' '];
        assert(in_w@ == in_word());
        assert(out_w@ == out_word());
        proof {
            lemma_find_from_bounds(line@.skip(5), in_word(), 0);
            lemma_find_from_bounds(line@.skip(5), out_word(), 0);
        }
        let i = match find_after_five(&line, &in_w) {
            Some(i) => i,
            None => match find_after_five(&line, &out_w) {
                Some(i) => i,
                None => 0,
            },
        };
        let ll = line.len();
        assert(i + 5 <= ll);
        trimmed_from(&line, i + 5)
    } else {
        line
    }
}

proof fn lemma_find_from_bounds(h: Seq<char>, n: Seq<char>, i: int)
    ensures
        find_from(h, n, i) matches Some(k) ==> i <= k && k + n.len() <= h.len(),
    decreases h.len() + 1 - i,
{
    if i >= 0 && i <= h.len() && i + n.len() <= h.len() && !occurs_at(h, n, i) {
        lemma_find_from_bounds(h, n, i + 1);
    }
}

pub proof fn lemma_newline_pos(s: Seq<char>)
    ensures
        0 <= newline_pos(s) <= s.len(),
        forall|k: int| 0 <= k < newline_pos(s) ==> s[k] != '\n',
        newline_pos(s) < s.len() ==> s[newline_pos(s)] == '\n',
    decreases s.len(),
{
    if s.len() > 0 && s[0] != '\n' {
        lemma_newline_pos(s.drop_first());
        assert forall|k: int| 0 <= k < newline_pos(s) implies s[k] != '\n' by {
            if k > 0 {
                assert(s[k] == s.drop_first()[k - 1]);
            }
        }
    }
}

proof fn lemma_newline_pos_exact(s: Seq<char>, i: int)
    requires
        0 <= i <= s.len(),
        forall|k: int| 0 <= k < i ==> s[k] != '\n',
        i < s.len() ==> s[i] == '\n',
    ensures
        newline_pos(s) == i,
    decreases s.len(),
{
    if s.len() > 0 && s[0] != '\n' {
        assert forall|k: int| 0 <= k < i - 1 implies s.drop_first()[k] != '\n' by {
            assert(s.drop_first()[k] == s[k + 1]);
        }
        lemma_newline_pos_exact(s.drop_first(), i - 1);
    }
}

proof fn lemma_join_push(xs: Seq<Seq<char>>, y: Seq<char>)
    ensures
        join_lines(xs.push(y)) == if xs.len() == 0 {
            y
        } else {
            join_lines(xs) + seq!['\n'] + y
        },
{
    assert(xs.push(y).drop_last() =~= xs);
}

proof fn lemma_shader_lines_push(xs: Seq<Seq<char>>, y: Seq<char>)
    ensures
        shader_lines(xs.push(y)) == if keeps_line(y) {
            shader_lines(xs).push(rewrite_line(y))
        } else {
            shader_lines(xs)
        },
{
    assert(xs.push(y).drop_last() =~= xs);
}

/// The line of `chars` that starts at `pos`, and where the next one starts.
fn next_line(chars: &Vec<char>, pos: usize) -> (r: (Vec<char>, usize))
    requires
        pos < chars@.len(),
    ensures
        pos < r.1 <= chars@.len(),
        lines_of(chars@.skip(pos as int)) == seq![r.0@] + lines_of(chars@.skip(r.1 as int)),
{
    let n = chars.len();
    let mut e = pos;
    while e < n && chars[e] != '\n'
        invariant
            pos <= e <= n,
            n == chars@.len(),
            forall|k: int| pos <= k < e ==> chars@[k] != '\n',
        decreases n - e,
    {
        e = e + 1;
    }
    let mut hi = e;
    if e < n && hi > pos && chars[hi - 1] == '\r' {
        hi = hi - 1;
    }
    let mut line: Vec<char> = Vec::new();
    let mut k = pos;
    while k < hi
        invariant
            pos <= k <= hi <= e <= n,
            n == chars@.len(),
            line@ =~= chars@.subrange(pos as int, k as int),
        decreases hi - k,
    {
        line.push(chars[k]);
        k = k + 1;
    }
    let ghost rest = chars@.skip(pos as int);
    proof {
        let i = (e - pos) as int;
        assert forall|k: int| 0 <= k < i implies rest[k] != '\n' by {
            assert(rest[k] == chars@[pos + k]);
        }
        if e < n {
            assert(rest[i] == chars@[e as int]);
        }
        lemma_newline_pos_exact(rest, i);
        if e < n {
            assert(rest.skip(i + 1) =~= chars@.skip(e + 1));
            assert(rest.take(i) =~= chars@.subrange(pos as int, e as int));
            assert(line@ =~= strip_cr(rest.take(i)));
            assert(lines_of(rest) == seq![line@] + lines_of(chars@.skip(e + 1)));
        } else {
            assert(rest =~= line@);
            assert(lines_of(rest) == seq![line@]);
            assert(chars@.skip(n as int) =~= Seq::<char>::empty());
        }
    }
    let next = if e < n {
        e + 1
    } else {
        n
    };
    (line, next)
}

/// Drops the `#version` and `#extension` directives of a shader and the `layout(...)`
/// qualifiers in front of its ` in ` and ` out ` declarations.
pub fn transform_shader(s: String) -> (r: String)
    ensures
        r@ == transformed_shader(s@),
{
    let mut chars: Vec<char> = Vec::new();
    broadcast use vstd::string::axiom_spec_iter;
    for c in it: s.as_str().chars()
        invariant
            chars@ == it.seq().take(it.index() as int),
            it.seq() == s@,
    {
        chars.push(c);
    }
    assert(chars@ == s@);
    let version = ['#', 'v', 'e', 'r', 's', 'i', 'o', 'n'];
    let extension = ['#', 'e', 'x', 't', 'e', 'n', 's', 'i', 'o', 'n'];
    assert(version@ == version_directive());
    assert(extension@ == extension_directive());
    let n = chars.len();
    let mut out = String::new();
    let mut pos: usize = 0;
    let ghost done: Seq<Seq<char>> = seq![];
    let mut any_kept = false;
    assert(s@.skip(0) =~= s@);
    while pos < n
        invariant
            chars@ == s@,
            n == chars@.len(),
            pos <= n,
            version@ == version_directive(),
            extension@ == extension_directive(),
            lines_of(s@) == done + lines_of(s@.skip(pos as int)),
            out@ == join_lines(shader_lines(done)),
            any_kept == (shader_lines(done).len() > 0),
        decreases n - pos,
    {
        let (line, next) = next_line(&chars, pos);
        proof {
            assert(s@.skip(pos as int) =~= chars@.skip(pos as int));
            assert(s@.skip(next as int) =~= chars@.skip(next as int));
        }
        let ghost line_view = line@;
        assert(line@.skip(0) =~= line@);
        let keep = !starts_with_at(&line, 0, &version) && !starts_with_at(&line, 0, &extension);
        proof {
            lemma_shader_lines_push(done, line_view);
        }
        if keep {
            let mapped = rewrite(line);
            proof {
                lemma_join_push(shader_lines(done), mapped@);
            }
            if any_kept {
                push_char(&mut out, '\n');
            }
            let ghost base = out@;
            let mut j: usize = 0;
            while j < mapped.len()
                invariant
                    j <= mapped@.len(),
                    out@ == base + mapped@.take(j as int),
                decreases mapped.len() - j,
            {
                push_char(&mut out, mapped[j]);
                assert(mapped@.take(j + 1) =~= mapped@.take(j as int).push(mapped@[j as int]));
                j = j + 1;
            }
            assert(mapped@.take(mapped@.len() as int) =~= mapped@);
            any_kept = true;
        }
        proof {
            done = done.push(line_view);
            assert(done.drop_last() + seq![line_view] =~= done);
        }
        pos = next;
    }
    assert(s@.skip(n as int) =~= Seq::<char>::empty());
    assert(done + Seq::<Seq<char>>::empty() =~= done);
    out
}

/// Lines that are neither directives nor layout declarations pass through unchanged.
pub proof fn law_plain_lines_unchanged(ls: Seq<Seq<char>>)
    requires
        forall|i: int|
            0 <= i < ls.len() ==> keeps_line(#[trigger] ls[i]) && !starts_with(
                ls[i],
                layout_word(),
            ),
    ensures
        shader_lines(ls) == ls,
    decreases ls.len(),
{
    if ls.len() > 0 {
        let init = ls.drop_last();
        assert forall|i: int| 0 <= i < init.len() implies keeps_line(#[trigger] init[i])
            && !starts_with(init[i], layout_word()) by {
            assert(init[i] == ls[i]);
        }
        law_plain_lines_unchanged(init);
        assert(keeps_line(ls[ls.len() - 1]));
        assert(init.push(ls.last()) =~= ls);
    }
}

proof fn lemma_find_from_found(h: Seq<char>, n: Seq<char>, i: int)
    ensures
        find_from(h, n, i) matches Some(k) ==> occurs_at(h, n, k) && i <= k && k + n.len()
            <= h.len(),
    decreases h.len() + 1 - i,
{
    if i >= 0 && i <= h.len() && i + n.len() <= h.len() && !occurs_at(h, n, i) {
        lemma_find_from_found(h, n, i + 1);
    }
}

proof fn lemma_trim_end_keeps_first(s: Seq<char>)
    requires
        s.len() > 0,
        !is_white_space(s[0]),
    ensures
        trim_end(s).len() > 0,
        trim_end(s)[0] == s[0],
    decreases s.len(),
{
    if is_white_space(s.last()) {
        assert(s.len() > 1);
        assert(s.drop_last()[0] == s[0]);
        lemma_trim_end_keeps_first(s.drop_last());
    }
}

/// A line that starts with `c` starts with `p` only if `p` is empty or starts with `c`.
proof fn lemma_first_char_excludes(l: Seq<char>, p: Seq<char>)
    requires
        l.len() > 0,
        p.len() > 0,
        p[0] != l[0],
    ensures
        !starts_with(l, p),
{
    if p.len() <= l.len() {
        assert(l.take(p.len() as int)[0] == l[0]);
    }
}

/// The rewritten form of a surviving line is neither a directive nor a `layout`
/// qualifier: a rewritten `layout` line begins with the `in`, `out` or `t` that
/// followed its qualifier.
proof fn lemma_rewrite_clean(l: Seq<char>)
    requires
        keeps_line(l),
    ensures
        !starts_with(rewrite_line(l), version_directive()),
        !starts_with(rewrite_line(l), extension_directive()),
        !starts_with(rewrite_line(l), layout_word()),
{
    let r = rewrite_line(l);
    if starts_with(l, layout_word()) {
        let rest = l.skip(5);
        assert(l.take(6)[5] == 't');
        lemma_find_from_found(rest, in_word(), 0);
        lemma_find_from_found(rest, out_word(), 0);
        let i = match find_from(rest, in_word(), 0) {
            Some(i) => i,
            None => match find_from(rest, out_word(), 0) {
                Some(i) => i,
                None => 0,
            },
        };
        let t = l.skip(i + 5);
        if find_from(rest, in_word(), 0) is Some || find_from(rest, out_word(), 0) is Some {
            let w = if find_from(rest, in_word(), 0) is Some { in_word() } else { out_word() };
            assert(rest.subrange(i, i + w.len()) == w);
            assert(rest.subrange(i, i + w.len())[0] == w[0]);
            assert(rest.subrange(i, i + w.len())[1] == w[1]);
            assert(t[0] == ' ');
            assert(t[1] == w[1]);
            assert(t.drop_first() =~= l.skip(i + 6));
            assert(trim_start(t) == trim_start(l.skip(i + 6)));
            assert(l.skip(i + 6)[0] == w[1]);
            assert(trim_start(l.skip(i + 6)) == l.skip(i + 6));
            lemma_trim_end_keeps_first(l.skip(i + 6));
            assert(r[0] == w[1]);
        } else {
            assert(t[0] == 't');
            assert(trim_start(t) == t);
            lemma_trim_end_keeps_first(t);
            assert(r[0] == 't');
        }
        lemma_first_char_excludes(r, version_directive());
        lemma_first_char_excludes(r, extension_directive());
        lemma_first_char_excludes(r, layout_word());
    }
}

/// No line the transformed shader is joined from is a `#version` or `#extension`
/// directive or begins with a `layout` qualifier; `transform_shader(s)` joins the lines
/// `shader_lines(lines_of(s))`.
pub proof fn law_no_directives_left(ls: Seq<Seq<char>>)
    ensures
        forall|i: int|
            0 <= i < shader_lines(ls).len() ==> !starts_with(
                #[trigger] shader_lines(ls)[i],
                version_directive(),
            ) && !starts_with(shader_lines(ls)[i], extension_directive()) && !starts_with(
                shader_lines(ls)[i],
                layout_word(),
            ),
    decreases ls.len(),
{
    if ls.len() > 0 {
        let init = ls.drop_last();
        law_no_directives_left(init);
        if keeps_line(ls.last()) {
            lemma_rewrite_clean(ls.last());
            let out = shader_lines(ls);
            assert(out == shader_lines(init).push(rewrite_line(ls.last())));
            assert forall|i: int| 0 <= i < out.len() implies !starts_with(
                #[trigger] out[i],
                version_directive(),
            ) && !starts_with(out[i], extension_directive()) && !starts_with(
                out[i],
                layout_word(),
            ) by {
                if i < out.len() - 1 {
                    assert(out[i] == shader_lines(init)[i]);
                }
            }
        }
    }
}

} // verus!
