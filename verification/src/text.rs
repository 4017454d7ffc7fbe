//! Line-ending and indentation styles, and the text primitives every backend builds on.
use vstd::prelude::*;
use vstd::utf8::encode_utf8;

verus! {

/// The character sequence that ends a line.
#[derive(Debug, Clone, Copy, PartialEq, Eq)]
pub enum NewLineStyle {
    /// `\n`
    LF,
    /// `\r\n`
    CRLF,
}

/// What one level of indentation is made of.
#[derive(Debug, Clone, Copy, PartialEq, Eq)]
pub enum IndentStyle {
    /// `indent_size` spaces per level.
    Spaces,
    /// One tab per level.
    Tabs,
}

impl NewLineStyle {
    /// The text of a line ending.
    pub open spec fn text(self) -> Seq<char> {
        match self {
            NewLineStyle::LF => seq!['\n'],
            NewLineStyle::CRLF => seq!['\r', '\n'],
        }
    }

    pub fn as_str(&self) -> (r: &'static str)
        ensures
            r@ == self.text(),
    {
        match self {
            NewLineStyle::LF => {
                let s = "\n";
                proof {
                    reveal_strlit("\n");
                }
                s
            },
            NewLineStyle::CRLF => {
                let s = "\r\n";
                proof {
                    reveal_strlit("\r\n");
                }
                s
            },
        }
    }
}

/// `n` copies of the character `c`.
pub open spec fn repeat_char(c: char, n: nat) -> Seq<char> {
    Seq::new(n, |i: int| c)
}

/// The indentation for `level` levels of `size` columns: `level * size` spaces, or `level` tabs;
/// nothing where that count is not positive.
#[verifier::opaque]
pub open spec fn indent_text(level: int, size: int, style: IndentStyle) -> Seq<char> {
    match style {
        IndentStyle::Spaces => repeat_char(' ', if level * size > 0 { (level * size) as nat } else { 0 }),
        IndentStyle::Tabs => repeat_char('\t', if level > 0 { level as nat } else { 0 }),
    }
}

/// Appends `s` to `out`.
pub fn push_str(out: &mut String, s: &str)
    ensures
        final(out)@ == old(out)@ + s@,
{
    out.append(s);
}

/// Appends `n` copies of `c` to `out`.
pub fn push_repeat(out: &mut String, c: char, n: u64)
    ensures
        final(out)@ == old(out)@ + repeat_char(c, n as nat),
{
    let ghost start = out@;
    let mut i: u64 = 0;
    while i < n
        invariant
            i <= n,
            out@ == start + repeat_char(c, i as nat),
        decreases n - i,
    {
        push_char(out, c);
        i = i + 1;
        assert(out@ =~= start + repeat_char(c, i as nat));
    }
}

/// Appends the character `c` to `out`.
///
/// Trusted: the body is one call of `String::push`, whose documentation says it appends the
/// given `char` to the end of the string; the contract claims exactly that of the text, and
/// nothing is proved of it here.
#[verifier::external_body]
pub fn push_char(out: &mut String, c: char)
    ensures
        final(out)@ == old(out)@.push(c),
{
    out.push(c);
}

/// The indentation string for `level` levels of `size` columns in the given style.
pub fn indent(level: i32, size: i32, style: IndentStyle) -> (r: String)
    ensures
        r@ == indent_text(level as int, size as int, style),
{
    let mut out = String::new();
    match style {
        IndentStyle::Spaces => {
            let l: i64 = level as i64;
            let z: i64 = size as i64;
            assert(-0x4000_0000_0000_0000 <= l * z <= 0x4000_0000_0000_0000) by (nonlinear_arith)
                requires
                    -0x8000_0000 <= l < 0x8000_0000,
                    -0x8000_0000 <= z < 0x8000_0000,
            ;
            let total: i64 = l * z;
            if total > 0 {
                push_repeat(&mut out, ' ', total as u64);
            }
        },
        IndentStyle::Tabs => {
            if level > 0 {
                push_repeat(&mut out, '\t', level as u64);
            }
        },
    }
    proof {
        reveal(indent_text);
    }
    assert(out@ =~= indent_text(level as int, size as int, style));
    out
}


/// The concatenation of all the pieces, in order.
pub open spec fn concat(parts: Seq<Seq<char>>) -> Seq<char>
    decreases parts.len(),
{
    if parts.len() == 0 {
        Seq::empty()
    } else {
        concat(parts.drop_last()) + parts.last()
    }
}

/// The pieces, in order, with `sep` between each two neighbours.
#[verifier::opaque]
pub open spec fn join(parts: Seq<Seq<char>>, sep: Seq<char>) -> Seq<char>
    decreases parts.len(),
{
    if parts.len() == 0 {
        Seq::empty()
    } else if parts.len() == 1 {
        parts[0]
    } else {
        join(parts.drop_last(), sep) + sep + parts.last()
    }
}

/// Whether `t` occurs in `s`, somewhere.
#[verifier::opaque]
pub open spec fn occurs_in(t: Seq<char>, s: Seq<char>) -> bool {
    exists|i: int| 0 <= i && i + t.len() <= s.len() && #[trigger] s.subrange(i, i + t.len()) == t
}

/// A text occurs in any text made of something, it, and something else.
pub proof fn lemma_occurs_between(a: Seq<char>, t: Seq<char>, b: Seq<char>)
    ensures
        occurs_in(t, a + t + b),
{
    reveal(occurs_in);
    let s = a + t + b;
    assert(s.subrange(a.len() as int, (a.len() + t.len()) as int) =~= t);
}

/// What occurs in a text occurs in any text around it.
pub proof fn lemma_occurs_widen(a: Seq<char>, s: Seq<char>, b: Seq<char>, t: Seq<char>)
    requires
        occurs_in(t, s),
    ensures
        occurs_in(t, a + s + b),
{
    reveal(occurs_in);
    let i = choose|i: int| 0 <= i && i + t.len() <= s.len() && #[trigger] s.subrange(i, i + t.len()) == t;
    let w = a + s + b;
    assert(w.subrange(a.len() + i, a.len() + i + t.len()) =~= s.subrange(i, i + t.len()));
}

/// What starts an occurrence occurs too, and an occurrence is no longer than the text.
pub proof fn lemma_occurs_shorten(t: Seq<char>, u: Seq<char>, s: Seq<char>)
    requires
        occurs_in(t + u, s),
    ensures
        occurs_in(t, s),
        t.len() + u.len() <= s.len(),
{
    reveal(occurs_in);
    let w = t + u;
    let i = choose|i: int| 0 <= i && i + w.len() <= s.len() && #[trigger] s.subrange(i, i + w.len()) == w;
    assert(s.subrange(i, i + t.len()) =~= w.subrange(0, t.len() as int));
    assert(w.subrange(0, t.len() as int) =~= t);
}

/// Trimming the line endings off a text that ends in one, and whose last character before it
/// differs from the line ending's last, removes exactly that one.
pub proof fn lemma_trim_end_once(s: Seq<char>, nl: Seq<char>)
    requires
        nl.len() > 0,
        s.len() > 0,
        s.last() != nl.last(),
    ensures
        trim_end(s + nl, nl) == s,
{
    let w = s + nl;
    assert(w.subrange(w.len() - nl.len(), w.len() as int) =~= nl);
    assert(w.subrange(0, w.len() - nl.len()) =~= s);
    if s.len() >= nl.len() {
        assert(s.subrange(s.len() - nl.len(), s.len() as int).last() == s.last());
    }
    assert(trim_end(s, nl) == s);
}

/// What occurs in a text that occurs in another occurs in that other text too.
pub proof fn lemma_occurs_in_part(t: Seq<char>, part: Seq<char>, s: Seq<char>)
    requires
        occurs_in(t, part),
        occurs_in(part, s),
    ensures
        occurs_in(t, s),
{
    reveal(occurs_in);
    let i = choose|i: int| 0 <= i && i + t.len() <= part.len() && #[trigger] part.subrange(i, i + t.len()) == t;
    let j = choose|j: int| 0 <= j && j + part.len() <= s.len() && #[trigger] s.subrange(j, j + part.len()) == part;
    assert(s.subrange(j + i, j + i + t.len()) =~= part.subrange(i, i + t.len()));
}

/// A concatenation is the pieces before the `i`-th, the `i`-th, and the pieces after it.
pub proof fn lemma_concat_split(parts: Seq<Seq<char>>, i: int)
    requires
        0 <= i < parts.len(),
    ensures
        concat(parts) == concat(parts.take(i)) + parts[i] + concat(parts.skip(i + 1)),
    decreases parts.len(),
{
    let dl = parts.drop_last();
    if i == parts.len() - 1 {
        assert(parts.take(i) =~= dl);
        assert(parts.skip(i + 1) =~= Seq::<Seq<char>>::empty());
        assert(concat(parts.skip(i + 1)) =~= Seq::<char>::empty());
    } else {
        lemma_concat_split(dl, i);
        assert(dl.take(i) =~= parts.take(i));
        assert(dl[i] == parts[i]);
        let rest = parts.skip(i + 1);
        assert(rest.drop_last() =~= dl.skip(i + 1));
        assert(rest.last() == parts.last());
        assert(concat(rest) == concat(dl.skip(i + 1)) + parts.last());
    }
}

/// The empty text occurs in every text.
pub proof fn lemma_occurs_empty(s: Seq<char>)
    ensures
        occurs_in(Seq::empty(), s),
{
    reveal(occurs_in);
    let t = Seq::<char>::empty();
    let z: int = 0;
    assert(s.subrange(z, z + t.len()) =~= t);
}

/// The concatenation of the first `i` pieces is that of the first `i - 1`, then the `i`-th.
pub proof fn lemma_concat_take_step(parts: Seq<Seq<char>>, i: int)
    requires
        0 < i <= parts.len(),
    ensures
        concat(parts.take(i)) == concat(parts.take(i - 1)) + parts[i - 1],
{
    assert(parts.take(i).drop_last() =~= parts.take(i - 1));
}

/// Each piece of a joined list, preceded by the separator (or by `start` for the first piece),
/// occurs in `start` followed by the joined text.
pub proof fn lemma_join_occurs_after(parts: Seq<Seq<char>>, sep: Seq<char>, start: Seq<char>, i: int)
    requires
        0 <= i < parts.len(),
    ensures
        occurs_in((if i == 0 { start } else { sep }) + parts[i], start + join(parts, sep)),
    decreases parts.len(),
{
    let j = start + join(parts, sep);
    if parts.len() == 1 {
        assert(join(parts, sep) == parts[0]) by {
            reveal(join);
        }
        lemma_occurs_between(Seq::empty(), start + parts[0], Seq::empty());
        assert(Seq::<char>::empty() + (start + parts[0]) + Seq::<char>::empty() =~= j);
    } else {
        let dl = parts.drop_last();
        let jl = join(dl, sep);
        assert(join(parts, sep) == jl + sep + parts.last()) by {
            reveal(join);
        }
        if i == parts.len() - 1 {
            lemma_occurs_between(start + jl, sep + parts[i], Seq::empty());
            assert((start + jl) + (sep + parts[i]) + Seq::<char>::empty() =~= j);
        } else {
            lemma_join_occurs_after(dl, sep, start, i);
            assert(dl[i] == parts[i]);
            lemma_occurs_widen(Seq::empty(), start + jl, sep + parts.last(), (if i == 0 { start } else { sep }) + parts[i]);
            assert(Seq::<char>::empty() + (start + jl) + (sep + parts.last()) =~= j);
        }
    }
}

/// A list of two or more pieces joins as its first piece, the separator, and the rest joined.
pub proof fn lemma_join_first(parts: Seq<Seq<char>>, sep: Seq<char>)
    requires
        parts.len() >= 2,
    ensures
        join(parts, sep) == parts[0] + sep + join(parts.drop_first(), sep),
    decreases parts.len(),
{
    reveal(join);
    if parts.len() == 2 {
        assert(parts.drop_last().len() == 1);
        assert(parts.drop_first().len() == 1);
        assert(join(parts.drop_last(), sep) == parts[0]);
        assert(join(parts.drop_first(), sep) == parts[1]);
    } else {
        let dl = parts.drop_last();
        lemma_join_first(dl, sep);
        assert(parts.drop_first().drop_last() =~= dl.drop_first());
        assert(parts.drop_first().last() == parts.last());
        assert(join(parts.drop_first(), sep) == join(dl.drop_first(), sep) + sep + parts.last());
        assert(dl[0] == parts[0]);
    }
}

/// Each piece of a joined list, followed by the separator (or by `end` for the last piece),
/// occurs in the joined text followed by `end`.
pub proof fn lemma_join_occurs(parts: Seq<Seq<char>>, sep: Seq<char>, end: Seq<char>, i: int)
    requires
        0 <= i < parts.len(),
    ensures
        occurs_in(parts[i] + (if i + 1 < parts.len() { sep } else { end }), join(parts, sep) + end),
    decreases parts.len(),
{
    let j = join(parts, sep) + end;
    if parts.len() == 1 {
        assert(join(parts, sep) == parts[0]) by {
            reveal(join);
        }
        lemma_occurs_between(Seq::empty(), parts[0] + end, Seq::empty());
        assert(Seq::<char>::empty() + (parts[0] + end) + Seq::<char>::empty() =~= j);
    } else {
        let dl = parts.drop_last();
        let jl = join(dl, sep);
        assert(join(parts, sep) == jl + sep + parts.last()) by {
            reveal(join);
        }
        if i == parts.len() - 1 {
            lemma_occurs_between(jl + sep, parts[i] + end, Seq::empty());
            assert((jl + sep) + (parts[i] + end) + Seq::<char>::empty() =~= j);
        } else {
            lemma_join_occurs(dl, sep, sep, i);
            assert(dl[i] == parts[i]);
            assert(i + 1 < parts.len());
            let t = parts[i] + sep;
            assert(occurs_in(t, jl + sep));
            lemma_occurs_widen(Seq::empty(), jl + sep, parts.last() + end, t);
            assert(Seq::<char>::empty() + (jl + sep) + (parts.last() + end) =~= j);
        }
    }
}

/// The texts of a list of strings.
pub open spec fn texts(v: Seq<String>) -> Seq<Seq<char>> {
    Seq::new(v.len(), |i: int| v[i]@)
}

/// Each line of `lines`, with `pre` before it and `post` after it.
#[verifier::opaque]
pub open spec fn wrap_each(pre: Seq<char>, lines: Seq<String>, post: Seq<char>) -> Seq<char>
    decreases lines.len(),
{
    if lines.len() == 0 {
        Seq::empty()
    } else {
        wrap_each(pre, lines.drop_last(), post) + pre + lines.last()@ + post
    }
}

proof fn lemma_wrap_each_step(pre: Seq<char>, lines: Seq<String>, post: Seq<char>, i: int)
    requires
        0 <= i < lines.len(),
    ensures
        wrap_each(pre, lines.take(i + 1), post) == wrap_each(pre, lines.take(i), post) + pre + lines[i]@ + post,
{
    reveal(wrap_each);
    assert(lines.take(i + 1).drop_last() =~= lines.take(i));
}

/// No lines give no text.
pub proof fn lemma_wrap_each_empty(pre: Seq<char>, lines: Seq<String>, post: Seq<char>)
    requires
        lines.len() == 0,
    ensures
        wrap_each(pre, lines, post) == Seq::<char>::empty(),
{
    reveal(wrap_each);
}

/// The join of the first `i + 1` pieces extends the join of the first `i`.
pub proof fn lemma_join_step(parts: Seq<Seq<char>>, sep: Seq<char>, i: int)
    requires
        0 <= i < parts.len(),
    ensures
        join(parts.take(i + 1), sep) == if i == 0 {
            parts[0]
        } else {
            join(parts.take(i), sep) + sep + parts[i]
        },
{
    reveal(join);
    assert(parts.take(i + 1).drop_last() =~= parts.take(i));
}

/// No pieces join to no text.
pub proof fn lemma_join_empty(parts: Seq<Seq<char>>, sep: Seq<char>)
    requires
        parts.len() == 0,
    ensures
        join(parts, sep) == Seq::<char>::empty(),
{
    reveal(join);
}

/// Appends every line of `lines` to `out`, each with `pre` before it and `post` after it.
pub fn push_lines(out: &mut String, pre: &str, lines: &Vec<String>, post: &str)
    ensures
        final(out)@ == old(out)@ + wrap_each(pre@, lines@, post@),
{
    let ghost start = out@;
    proof {
        lemma_wrap_each_empty(pre@, lines@.take(0), post@);
        assert(start =~= start + wrap_each(pre@, lines@.take(0), post@));
    }
    let mut i: usize = 0;
    while i < lines.len()
        invariant
            i <= lines@.len(),
            out@ == start + wrap_each(pre@, lines@.take(i as int), post@),
        decreases lines@.len() - i,
    {
        let ghost prev = wrap_each(pre@, lines@.take(i as int), post@);
        push_str(out, pre);
        push_str(out, lines[i].as_str());
        push_str(out, post);
        proof {
            lemma_wrap_each_step(pre@, lines@, post@, i as int);
            assert(out@ =~= start + (prev + pre@ + lines@[i as int]@ + post@));
        }
        i = i + 1;
    }
    assert(lines@.take(i as int) =~= lines@);
}

/// Appends the strings of `parts` to `out`, with `sep` between each two neighbours.
pub fn push_joined(out: &mut String, parts: &Vec<String>, sep: &str)
    ensures
        final(out)@ == old(out)@ + join(texts(parts@), sep@),
{
    let ghost start = out@;
    let ghost t = texts(parts@);
    proof {
        lemma_join_empty(t.take(0), sep@);
        assert(start =~= start + join(t.take(0), sep@));
    }
    let mut i: usize = 0;
    while i < parts.len()
        invariant
            i <= parts@.len(),
            t == texts(parts@),
            out@ == start + join(t.take(i as int), sep@),
        decreases parts@.len() - i,
    {
        let ghost prev = join(t.take(i as int), sep@);
        if i > 0 {
            push_str(out, sep);
        }
        push_str(out, parts[i].as_str());
        proof {
            lemma_join_step(t, sep@, i as int);
            if i == 0 {
                assert(prev =~= Seq::<char>::empty()) by {
                    lemma_join_empty(t.take(0), sep@);
                }
                assert(out@ =~= start + t[0]);
            } else {
                assert(out@ =~= start + (prev + sep@ + t[i as int]));
            }
        }
        i = i + 1;
    }
    assert(t.take(i as int) =~= t);
}


/// `s` without its leading copies of `c`.
pub open spec fn trim_start_char(s: Seq<char>, c: char) -> Seq<char>
    decreases s.len(),
{
    if s.len() > 0 && s[0] == c {
        trim_start_char(s.drop_first(), c)
    } else {
        s
    }
}

proof fn lemma_trim_start_char(s: Seq<char>, c: char, k: int)
    requires
        0 <= k <= s.len(),
        forall|j: int| 0 <= j < k ==> s[j] == c,
        k == s.len() || s[k] != c,
    ensures
        trim_start_char(s, c) == s.subrange(k, s.len() as int),
    decreases k,
{
    if k == 0 {
        assert(s.subrange(0, s.len() as int) =~= s);
    } else {
        lemma_trim_start_char(s.drop_first(), c, k - 1);
        assert(s.drop_first().subrange(k - 1, s.len() - 1) =~= s.subrange(k, s.len() as int));
    }
}

/// `s` without its leading copies of `c` (`str::trim_start_matches` with a `char` pattern).
pub fn strip_leading_char(s: &str, c: char) -> (r: String)
    ensures
        r@ == trim_start_char(s@, c),
{
    let n = s.unicode_len();
    let mut k: usize = 0;
    while k < n && s.get_char(k) == c
        invariant
            k <= n,
            n == s@.len(),
            forall|j: int| 0 <= j < k ==> s@[j] == c,
        decreases n - k,
    {
        k = k + 1;
    }
    proof {
        lemma_trim_start_char(s@, c, k as int);
    }
    let rest = s.substring_char(k, n);
    let mut out = String::new();
    push_str(&mut out, rest);
    assert(out@ =~= trim_start_char(s@, c));
    out
}


/// `s` when `cond` holds, nothing otherwise.
#[verifier::opaque]
pub open spec fn only_if(cond: bool, s: Seq<char>) -> Seq<char> {
    if cond {
        s
    } else {
        Seq::empty()
    }
}

/// `pre`, the optional text and `post` when there is a text, nothing otherwise.
#[verifier::opaque]
pub open spec fn opt_wrap(pre: Seq<char>, v: Option<String>, post: Seq<char>) -> Seq<char> {
    match v {
        Some(v) => pre + v@ + post,
        None => Seq::empty(),
    }
}

/// Appends `s` to `out` when `cond` holds.
pub fn push_when(out: &mut String, cond: bool, s: &str)
    ensures
        final(out)@ == old(out)@ + only_if(cond, s@),
{
    proof {
        reveal(only_if);
    }
    if cond {
        push_str(out, s);
    } else {
        assert(out@ =~= old(out)@ + only_if(cond, s@));
    }
}

/// Appends `pre`, the text and `post` to `out` when there is a text.
pub fn push_opt(out: &mut String, pre: &str, v: &Option<String>, post: &str)
    ensures
        final(out)@ == old(out)@ + opt_wrap(pre@, *v, post@),
{
    let ghost start = out@;
    match v {
        Some(v) => {
            push_str(out, pre);
            push_str(out, v.as_str());
            push_str(out, post);
        },
        None => {},
    }
    proof {
        reveal(opt_wrap);
    }
    assert(out@ =~= start + opt_wrap(pre@, *v, post@));
}


/// The text of an optional string slice, or nothing.
#[verifier::opaque]
pub open spec fn opt_str(s: Option<&str>) -> Seq<char> {
    match s {
        Some(v) => v@,
        None => Seq::empty(),
    }
}

/// Appends the optional string slice to `out`, if there is one.
pub fn push_opt_str(out: &mut String, s: Option<&str>)
    ensures
        final(out)@ == old(out)@ + opt_str(s),
{
    proof {
        reveal(opt_str);
    }
    match s {
        Some(v) => push_str(out, v),
        None => {
            assert(out@ =~= old(out)@ + opt_str(s));
        },
    }
}


/// Appending `c` after `a + b` is appending `b + c` after `a`.
pub proof fn lemma_assoc(a: Seq<char>, b: Seq<char>, c: Seq<char>)
    ensures
        (a + b) + c == a + (b + c),
{
    assert((a + b) + c =~= a + (b + c));
}


/// The text accumulated by a loop that has joined no piece yet is the starting text.
pub proof fn lemma_join_start(start: Seq<char>, parts: Seq<Seq<char>>, sep: Seq<char>)
    ensures
        start + join(parts.take(0), sep) == start,
{
    lemma_join_empty(parts.take(0), sep);
    assert(start + join(parts.take(0), sep) =~= start);
}

/// One step of a loop that appends `parts[i]`, after `sep` unless it is the first piece.
pub proof fn lemma_join_loop(start: Seq<char>, parts: Seq<Seq<char>>, sep: Seq<char>, i: int, prev: Seq<char>, cur: Seq<char>)
    requires
        0 <= i < parts.len(),
        prev == start + join(parts.take(i), sep),
        i == 0 ==> cur == prev + parts[i],
        i > 0 ==> cur == prev + sep + parts[i],
    ensures
        cur == start + join(parts.take(i + 1), sep),
{
    lemma_join_step(parts, sep, i);
    if i == 0 {
        lemma_join_empty(parts.take(0), sep);
        assert(cur =~= start + join(parts.take(i + 1), sep));
    } else {
        assert(cur =~= start + join(parts.take(i + 1), sep));
    }
}

/// The accumulated text after the last step of a loop over all of `parts`.
pub proof fn lemma_join_done(start: Seq<char>, parts: Seq<Seq<char>>, sep: Seq<char>, i: int)
    requires
        i == parts.len(),
    ensures
        start + join(parts.take(i), sep) == start + join(parts, sep),
{
    assert(parts.take(i) =~= parts);
}


/// `s` without its trailing copies of `pat` (`str::trim_end_matches` with a string pattern).
pub open spec fn trim_end(s: Seq<char>, pat: Seq<char>) -> Seq<char>
    decreases s.len(),
{
    if pat.len() > 0 && s.len() >= pat.len() && s.subrange(s.len() - pat.len(), s.len() as int) == pat {
        trim_end(s.subrange(0, s.len() - pat.len()), pat)
    } else {
        s
    }
}

/// Whether `pat` occurs in `s` at character position `at`.
fn matches_at(s: &str, n: usize, at: usize, pat: &str, m: usize) -> (r: bool)
    requires
        n == s@.len(),
        m == pat@.len(),
        at + m <= n,
    ensures
        r == (s@.subrange(at as int, at + m) == pat@),
{
    let mut j: usize = 0;
    while j < m
        invariant
            j <= m,
            n == s@.len(),
            m == pat@.len(),
            at + m <= n,
            forall|k: int| 0 <= k < j ==> s@[at + k] == pat@[k],
        decreases m - j,
    {
        if s.get_char(at + j) != pat.get_char(j) {
            assert(s@.subrange(at as int, at + m)[j as int] != pat@[j as int]);
            return false;
        }
        j = j + 1;
    }
    assert(s@.subrange(at as int, at + m) =~= pat@);
    true
}

/// `s` without its trailing copies of `pat` (`str::trim_end_matches` with a string pattern).
pub fn trim_end_matches(s: &str, pat: &str) -> (r: String)
    ensures
        r@ == trim_end(s@, pat@),
{
    let n = s.unicode_len();
    let m = pat.unicode_len();
    let mut end: usize = n;
    assert(s@.subrange(0, n as int) =~= s@);
    while m > 0 && end >= m && matches_at(s, n, end - m, pat, m)
        invariant
            end <= n,
            n == s@.len(),
            m == pat@.len(),
            trim_end(s@, pat@) == trim_end(s@.subrange(0, end as int), pat@),
        decreases end,
    {
        let ghost t = s@.subrange(0, end as int);
        assert(t.subrange(t.len() - m, t.len() as int) =~= s@.subrange(end - m, end as int));
        assert(t.subrange(0, t.len() - m) =~= s@.subrange(0, end - m));
        end = end - m;
    }
    let ghost t = s@.subrange(0, end as int);
    if m > 0 && end >= m {
        assert(t.subrange(t.len() - m, t.len() as int) =~= s@.subrange(end - m, end as int));
    }
    let rest = s.substring_char(0, end);
    let mut out = String::new();
    push_str(&mut out, rest);
    assert(out@ =~= trim_end(s@, pat@));
    out
}


/// Each block without its trailing copies of `nl`.
pub open spec fn trim_blocks(blocks: Seq<Seq<char>>, nl: Seq<char>) -> Seq<Seq<char>> {
    Seq::new(blocks.len(), |i: int| trim_end(blocks[i], nl))
}

/// Trimming a concatenation of blocks trims each part.
pub proof fn lemma_trim_blocks_add(a: Seq<Seq<char>>, b: Seq<Seq<char>>, nl: Seq<char>)
    ensures
        trim_blocks(a + b, nl) == trim_blocks(a, nl) + trim_blocks(b, nl),
{
    assert(trim_blocks(a + b, nl) =~= trim_blocks(a, nl) + trim_blocks(b, nl));
}

/// Trimming the blocks of six groups, one group after the other, trims each group.
pub proof fn lemma_trim_six_groups(
    b1: Seq<Seq<char>>,
    b2: Seq<Seq<char>>,
    b3: Seq<Seq<char>>,
    b4: Seq<Seq<char>>,
    b5: Seq<Seq<char>>,
    b6: Seq<Seq<char>>,
    nl: Seq<char>,
)
    ensures
        trim_blocks(b1 + b2 + b3 + b4 + b5 + b6, nl) == trim_blocks(b1, nl) + trim_blocks(b2, nl) + trim_blocks(b3, nl)
            + trim_blocks(b4, nl) + trim_blocks(b5, nl) + trim_blocks(b6, nl),
{
    lemma_trim_blocks_add(b1, b2, nl);
    lemma_trim_blocks_add(b1 + b2, b3, nl);
    lemma_trim_blocks_add(b1 + b2 + b3, b4, nl);
    lemma_trim_blocks_add(b1 + b2 + b3 + b4, b5, nl);
    lemma_trim_blocks_add(b1 + b2 + b3 + b4 + b5, b6, nl);
}

/// The pieces separated by blank lines (`nl` twice), then `nl`; nothing when that is empty.
#[verifier::opaque]
pub open spec fn joined_body(pieces: Seq<Seq<char>>, nl: Seq<char>) -> Seq<char> {
    let body = join(pieces, nl + nl);
    only_if(body.len() > 0, body + nl)
}

/// Appends `block`, without its trailing copies of `nl`, to `blocks`.
pub fn push_trimmed(blocks: &mut Vec<String>, block: String, nl: &str)
    ensures
        texts(final(blocks)@) == texts(old(blocks)@).push(trim_end(block@, nl@)),
{
    let t = trim_end_matches(block.as_str(), nl);
    blocks.push(t);
    assert(texts(blocks@) =~= texts(old(blocks)@).push(trim_end(block@, nl@)));
}

/// The blocks separated by blank lines, then `nl`; nothing when that is empty.
pub fn join_body(blocks: &Vec<String>, nl: &str) -> (r: String)
    ensures
        r@ == joined_body(texts(blocks@), nl@),
{
    let mut separator = String::new();
    push_str(&mut separator, nl);
    push_str(&mut separator, nl);
    let mut body = String::new();
    push_joined(&mut body, blocks, separator.as_str());
    let mut out = String::new();
    if !body.as_str().is_empty() {
        push_str(&mut out, body.as_str());
        push_str(&mut out, nl);
    }
    proof {
        reveal(only_if);
        reveal(joined_body);
        assert(separator@ =~= nl@ + nl@);
        assert(body@ =~= join(texts(blocks@), nl@ + nl@));
    }
    assert(out@ =~= joined_body(texts(blocks@), nl@));
    out
}


/// `s` with each occurrence of `c` replaced by `r`.
pub open spec fn replace_char(s: Seq<char>, c: char, r: Seq<char>) -> Seq<char>
    decreases s.len(),
{
    if s.len() == 0 {
        Seq::empty()
    } else {
        replace_char(s.drop_last(), c, r) + if s.last() == c {
            r
        } else {
            seq![s.last()]
        }
    }
}

/// Whether `t` ends with `suffix`.
pub open spec fn ends_with(t: Seq<char>, suffix: Seq<char>) -> bool {
    t.len() >= suffix.len() && t.subrange(t.len() - suffix.len(), t.len() as int) == suffix
}

/// A text ends with what was appended last.
pub proof fn lemma_ends_with_concat(a: Seq<char>, b: Seq<char>)
    ensures
        ends_with(a + b, b),
{
    assert((a + b).subrange(a.len() as int, (a + b).len() as int) =~= b);
}

/// The pieces of `s` between the occurrences of `c` (`str::split` with a character): one
/// piece more than there are occurrences.
pub open spec fn split_char(s: Seq<char>, c: char) -> Seq<Seq<char>>
    decreases s.len(),
{
    if s.len() == 0 {
        seq![Seq::empty()]
    } else {
        let p = split_char(s.drop_last(), c);
        if s.last() == c {
            p.push(Seq::empty())
        } else {
            p.update(p.len() - 1, p.last().push(s.last()))
        }
    }
}

/// Replacing each `c` by `r` joins the pieces between the occurrences of `c` with `r`, and
/// there is more than one piece exactly when `c` occurs.
pub proof fn lemma_replace_char_is_join(s: Seq<char>, c: char, r: Seq<char>)
    ensures
        split_char(s, c).len() >= 1,
        replace_char(s, c, r) == join(split_char(s, c), r),
        split_char(s, c).len() > 1 <==> s.contains(c),
    decreases s.len(),
{
    reveal(join);
    if s.len() > 0 {
        let t = s.drop_last();
        lemma_replace_char_is_join(t, c, r);
        let p = split_char(t, c);
        if s.last() == c {
            assert(p.push(Seq::empty()).drop_last() =~= p);
            assert(join(p.push(Seq::empty()), r) =~= join(p, r) + r);
            assert(s[s.len() - 1] == c);
        } else {
            let q = p.update(p.len() - 1, p.last().push(s.last()));
            if p.len() == 1 {
                assert(join(q, r) =~= join(p, r) + seq![s.last()]);
            } else {
                assert(q.drop_last() =~= p.drop_last());
                assert(join(q, r) =~= join(p, r) + seq![s.last()]);
            }
            if s.contains(c) {
                let i = choose|i: int| 0 <= i < s.len() && s[i] == c;
                assert(i < s.len() - 1);
                assert(t[i] == c);
            }
            if t.contains(c) {
                let i = choose|i: int| 0 <= i < t.len() && t[i] == c;
                assert(s[i] == c);
            }
        }
    } else {
        assert(!s.contains(c));
    }
}

/// Appends `s` to `out`, with each occurrence of `c` replaced by `r`.
pub fn push_replacing(out: &mut String, s: &str, c: char, r: &str)
    ensures
        final(out)@ == old(out)@ + replace_char(s@, c, r@),
{
    let ghost start = out@;
    let n = s.unicode_len();
    let mut i: usize = 0;
    assert(s@.take(0) =~= Seq::<char>::empty());
    assert(start =~= start + replace_char(s@.take(0), c, r@));
    while i < n
        invariant
            i <= n,
            n == s@.len(),
            out@ == start + replace_char(s@.take(i as int), c, r@),
        decreases n - i,
    {
        let d = s.get_char(i);
        if d == c {
            push_str(out, r);
        } else {
            push_char(out, d);
        }
        assert(s@.take(i + 1).drop_last() =~= s@.take(i as int));
        assert(out@ =~= start + replace_char(s@.take(i + 1), c, r@));
        i = i + 1;
    }
    assert(s@.take(n as int) =~= s@);
}

/// Whether `c` occurs in `s`.
pub fn str_contains_char(s: &str, c: char) -> (r: bool)
    ensures
        r == s@.contains(c),
{
    let n = s.unicode_len();
    let mut i: usize = 0;
    while i < n
        invariant
            i <= n,
            n == s@.len(),
            forall|j: int| 0 <= j < i ==> s@[j] != c,
        decreases n - i,
    {
        if s.get_char(i) == c {
            assert(s@[i as int] == c);
            return true;
        }
        i = i + 1;
    }
    false
}

/// The decimal digit character for `d`.
pub open spec fn digit_char(d: nat) -> char {
    (48 + d) as char
}

/// The decimal spelling of `n`, without leading zeros.
pub open spec fn decimal(n: nat) -> Seq<char>
    decreases n,
{
    if n < 10 {
        seq![digit_char(n)]
    } else {
        decimal(n / 10).push(digit_char(n % 10))
    }
}

/// Appends the decimal spelling of `n` to `out` (`u32`'s `Display`).
pub fn push_u32(out: &mut String, n: u32)
    ensures
        final(out)@ == old(out)@ + decimal(n as nat),
    decreases n,
{
    let ghost start = out@;
    if n >= 10 {
        push_u32(out, n / 10);
    }
    let d: u8 = (n % 10) as u8;
    let c: char = (48u8 + d) as char;
    push_char(out, c);
    assert(c == digit_char((n % 10) as nat));
    assert(out@ =~= start + decimal(n as nat));
}

/// Appends the decimal spelling of `n` to `out` (`u128`'s `Display`).
pub fn push_u128(out: &mut String, n: u128)
    ensures
        final(out)@ == old(out)@ + decimal(n as nat),
    decreases n,
{
    let ghost start = out@;
    if n >= 10 {
        push_u128(out, n / 10);
    }
    let d: u8 = (n % 10) as u8;
    let c: char = (48u8 + d) as char;
    push_char(out, c);
    assert(c == digit_char((n % 10) as nat));
    assert(out@ =~= start + decimal(n as nat));
}

/// The length of `s` in UTF-8 bytes, as `str::len` reports it (a `usize`).
pub open spec fn byte_len(s: Seq<char>) -> nat {
    (encode_utf8(s).len() as usize) as nat
}

/// Whether `c` is whitespace (`char::is_whitespace`: the Unicode `White_Space` property).
pub open spec fn is_whitespace(c: char) -> bool {
    let u = c as u32;
    (0x9 <= u <= 0xD) || u == 0x20 || u == 0x85 || u == 0xA0 || u == 0x1680 || (0x2000 <= u <= 0x200A)
        || u == 0x2028 || u == 0x2029 || u == 0x202F || u == 0x205F || u == 0x3000
}

/// Whether `s` is empty or made of whitespace only (`s.trim().is_empty()`).
pub open spec fn is_blank(s: Seq<char>) -> bool {
    forall|i: int| 0 <= i < s.len() ==> is_whitespace(#[trigger] s[i])
}

/// Whether `c` is whitespace (`char::is_whitespace`).
pub fn char_is_whitespace(c: char) -> (r: bool)
    ensures
        r == is_whitespace(c),
{
    let u = c as u32;
    (0x9 <= u && u <= 0xD) || u == 0x20 || u == 0x85 || u == 0xA0 || u == 0x1680 || (0x2000 <= u && u <= 0x200A)
        || u == 0x2028 || u == 0x2029 || u == 0x202F || u == 0x205F || u == 0x3000
}

/// Whether `s` is empty or made of whitespace only (`s.trim().is_empty()`).
pub fn str_is_blank(s: &str) -> (r: bool)
    ensures
        r == is_blank(s@),
{
    let n = s.unicode_len();
    let mut i: usize = 0;
    while i < n
        invariant
            i <= n,
            n == s@.len(),
            forall|j: int| 0 <= j < i ==> is_whitespace(#[trigger] s@[j]),
        decreases n - i,
    {
        if !char_is_whitespace(s.get_char(i)) {
            return false;
        }
        i = i + 1;
    }
    true
}

/// `s` followed by spaces up to `width` characters (`format!("{:<width$}", s)`).
pub open spec fn pad_right(s: Seq<char>, width: nat) -> Seq<char> {
    if width > s.len() {
        s + repeat_char(' ', (width - s.len()) as nat)
    } else {
        s
    }
}

/// Appends `s`, padded with spaces on the right to `width` characters, to `out`.
pub fn push_padded(out: &mut String, s: &str, width: usize)
    ensures
        final(out)@ == old(out)@ + pad_right(s@, width as nat),
{
    let ghost start = out@;
    push_str(out, s);
    let n = s.unicode_len();
    if width > n {
        push_repeat(out, ' ', (width - n) as u64);
    }
    assert(out@ =~= start + pad_right(s@, width as nat));
}

} // verus!
