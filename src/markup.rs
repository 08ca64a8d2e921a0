use vstd::prelude::*;

verus! {

/// The character sequences held by a vector of character vectors.
pub open spec fn views(v: Seq<Vec<char>>) -> Seq<Seq<char>> {
    v.map_values(|l: Vec<char>| l@)
}

/// No character of `s` is `c`.
pub open spec fn free_of(s: Seq<char>, c: char) -> bool {
    forall|i: int| 0 <= i < s.len() ==> s[i] != c
}

/// `needle` occurs in `hay` starting at index `i`.
pub open spec fn occurs_at(hay: Seq<char>, needle: Seq<char>, i: int) -> bool {
    &&& 0 <= i
    &&& i + needle.len() <= hay.len()
    &&& hay.subrange(i, i + needle.len()) == needle
}

/// `needle` occurs somewhere in `hay`.
pub open spec fn contains(hay: Seq<char>, needle: Seq<char>) -> bool {
    exists|i: int| occurs_at(hay, needle, i)
}

/// A line without the carriage return that ended it, if any.
pub open spec fn strip_cr(l: Seq<char>) -> Seq<char> {
    if l.len() > 0 && l.last() == '\r' {
        l.drop_last()
    } else {
        l
    }
}

/// Splits `s` at line feeds, from the left: the lines finished so far and
/// the line still open.
pub open spec fn scan_lines(s: Seq<char>) -> (Seq<Seq<char>>, Seq<char>)
    decreases s.len(),
{
    if s.len() == 0 {
        (Seq::empty(), Seq::empty())
    } else {
        let (done, cur) = scan_lines(s.drop_last());
        if s.last() == '\n' {
            (done.push(strip_cr(cur)), Seq::empty())
        } else {
            (done, cur.push(s.last()))
        }
    }
}

/// The lines of `ls` in which `needle` occurs, in their order.
pub open spec fn lines_containing(ls: Seq<Seq<char>>, needle: Seq<char>) -> Seq<Seq<char>>
    decreases ls.len(),
{
    if ls.len() == 0 {
        Seq::empty()
    } else {
        let kept = lines_containing(ls.drop_last(), needle);
        if contains(ls.last(), needle) {
            kept.push(ls.last())
        } else {
            kept
        }
    }
}

/// The lines of `s`: split at `\n` or `\r\n`, with no empty line after a
/// final line ending.
pub open spec fn lines_of(s: Seq<char>) -> Seq<Seq<char>> {
    let (done, cur) = scan_lines(s);
    if cur.len() == 0 {
        done
    } else {
        done.push(cur)
    }
}

/// Unicode's White_Space characters.
pub open spec fn is_white_space(c: char) -> bool {
    let n = c as u32;
    ||| 0x9 <= n <= 0xd
    ||| n == 0x20
    ||| n == 0x85
    ||| n == 0xa0
    ||| n == 0x1680
    ||| 0x2000 <= n <= 0x200a
    ||| n == 0x2028
    ||| n == 0x2029
    ||| n == 0x202f
    ||| n == 0x205f
    ||| n == 0x3000
}

/// Splits `s` at white space, from the left: the words finished so far and
/// the word still open.
pub open spec fn scan_words(s: Seq<char>) -> (Seq<Seq<char>>, Seq<char>)
    decreases s.len(),
{
    if s.len() == 0 {
        (Seq::empty(), Seq::empty())
    } else {
        let (done, cur) = scan_words(s.drop_last());
        if !is_white_space(s.last()) {
            (done, cur.push(s.last()))
        } else if cur.len() == 0 {
            (done, cur)
        } else {
            (done.push(cur), Seq::empty())
        }
    }
}

/// The maximal runs of characters other than white space in `s`.
pub open spec fn words_of(s: Seq<char>) -> Seq<Seq<char>> {
    let (done, cur) = scan_words(s);
    if cur.len() == 0 {
        done
    } else {
        done.push(cur)
    }
}

/// The characters of `s` before the first `c`, or all of them.
pub open spec fn take_until(s: Seq<char>, c: char) -> Seq<char>
    decreases s.len(),
{
    if s.len() == 0 || s[0] == c {
        Seq::empty()
    } else {
        seq![s[0]] + take_until(s.drop_first(), c)
    }
}

/// The characters of `s` after the first `c`; none if `c` does not occur.
pub open spec fn after_first(s: Seq<char>, c: char) -> Seq<char>
    decreases s.len(),
{
    if s.len() == 0 {
        Seq::empty()
    } else if s[0] == c {
        s.drop_first()
    } else {
        after_first(s.drop_first(), c)
    }
}

/// The first of `ts` in which `needle` occurs.
pub open spec fn first_containing(ts: Seq<Seq<char>>, needle: Seq<char>) -> Option<Seq<char>>
    decreases ts.len(),
{
    if ts.len() == 0 {
        None
    } else if contains(ts[0], needle) {
        Some(ts[0])
    } else {
        first_containing(ts.drop_first(), needle)
    }
}

/// The text content of an element on one line: what lies between the first
/// `>` and the `<` after it.
pub open spec fn inner_text(line: Seq<char>) -> Seq<char> {
    take_until(after_first(line, '>'), '<')
}

/// The quoted value of an attribute token of the form `ID="value"`: the
/// token's characters from the fifth on, up to the next `"`.
pub open spec fn quoted_value(token: Seq<char>) -> Seq<char> {
    if token.len() < 4 {
        Seq::empty()
    } else {
        take_until(token.skip(4), '"')
    }
}

/// The value of the `ID=` attribute on a line: taken from the first
/// white-space separated word that holds `ID=`, if there is one.
pub open spec fn id_attribute(line: Seq<char>) -> Option<Seq<char>> {
    match first_containing(words_of(line), "ID="@) {
        Some(t) => Some(quoted_value(t)),
        None => None,
    }
}

/// The characters of `s`, one by one.
pub fn chars_of(s: &str) -> (r: Vec<char>)
    ensures
        r@ == s@,
{
    let mut v: Vec<char> = Vec::new();
    for c in it: s.chars()
        invariant
            v@ == it.seq().take(it.index() as int),
            it.seq() == s@,
    {
        v.push(c);
    }
    v
}

/// Whether two character vectors hold the same characters.
pub fn same_chars(a: &Vec<char>, b: &Vec<char>) -> (r: bool)
    ensures
        r == (a@ == b@),
{
    if a.len() != b.len() {
        return false;
    }
    let mut i: usize = 0;
    while i < a.len()
        invariant
            a.len() == b.len(),
            i <= a.len(),
            forall|j: int| 0 <= j < i ==> a[j] == b[j],
        decreases a.len() - i,
    {
        if a[i] != b[i] {
            return false;
        }
        i += 1;
    }
    assert(a@ =~= b@);
    true
}

fn occurs_at_exec(hay: &Vec<char>, needle: &Vec<char>, i: usize) -> (r: bool)
    requires
        i + needle.len() <= hay.len(),
    ensures
        r == occurs_at(hay@, needle@, i as int),
{
    let mut j: usize = 0;
    while j < needle.len()
        invariant
            i + needle.len() <= hay.len(),
            j <= needle.len(),
            forall|k: int| 0 <= k < j ==> hay[i + k] == needle[k],
        decreases needle.len() - j,
    {
        if hay[i + j] != needle[j] {
            assert(hay@.subrange(i as int, i + needle.len())[j as int] != needle@[j as int]);
            return false;
        }
        j += 1;
    }
    assert(hay@.subrange(i as int, i + needle.len()) =~= needle@);
    true
}

/// Whether `needle` occurs in `hay`.
pub fn contains_chars(hay: &Vec<char>, needle: &Vec<char>) -> (r: bool)
    ensures
        r == contains(hay@, needle@),
{
    if needle.len() > hay.len() {
        return false;
    }
    let last: usize = hay.len() - needle.len();
    let mut i: usize = 0;
    loop
        invariant
            last == hay.len() - needle.len(),
            i <= last,
            forall|k: int| 0 <= k < i ==> !occurs_at(hay@, needle@, k),
        decreases last - i,
    {
        if occurs_at_exec(hay, needle, i) {
            return true;
        }
        if i == last {
            return false;
        }
        i += 1;
    }
}

/// The lines of `s`, as `str::lines` gives them.
pub fn split_lines(s: &str) -> (r: Vec<Vec<char>>)
    ensures
        views(r@) == lines_of(s@),
{
    let mut done: Vec<Vec<char>> = Vec::new();
    let mut cur: Vec<char> = Vec::new();
    for c in it: s.chars()
        invariant
            it.seq() == s@,
            (views(done@), cur@) == scan_lines(s@.take(it.index() as int)),
    {
        let ghost k = it.index() as int;
        proof {
            assert(s@.take(k + 1).drop_last() =~= s@.take(k));
        }
        if c == '\n' {
            if cur.len() > 0 && cur[cur.len() - 1] == '\r' {
                cur.pop();
            }
            let ghost before = done@;
            done.push(cur);
            proof {
                assert(views(done@) =~= views(before).push(cur@));
            }
            cur = Vec::new();
        } else {
            cur.push(c);
        }
    }
    proof {
        assert(s@.take(s@.len() as int) =~= s@);
    }
    if cur.len() > 0 {
        let ghost before = done@;
        let ghost last = cur@;
        done.push(cur);
        proof {
            assert(views(done@) =~= views(before).push(last));
        }
    }
    done
}

/// Whether `c` is white space, as `char::is_whitespace` decides it.
pub fn is_space(c: char) -> (r: bool)
    ensures
        r == is_white_space(c),
{
    let n = c as u32;
    (0x9 <= n && n <= 0xd) || n == 0x20 || n == 0x85 || n == 0xa0 || n == 0x1680 || (0x2000
        <= n && n <= 0x200a) || n == 0x2028 || n == 0x2029 || n == 0x202f || n == 0x205f || n
        == 0x3000
}

/// The words of a line, as `str::split_whitespace` gives them.
pub fn split_words(line: &Vec<char>) -> (r: Vec<Vec<char>>)
    ensures
        views(r@) == words_of(line@),
{
    let mut done: Vec<Vec<char>> = Vec::new();
    let mut cur: Vec<char> = Vec::new();
    let mut i: usize = 0;
    while i < line.len()
        invariant
            i <= line.len(),
            (views(done@), cur@) == scan_words(line@.take(i as int)),
        decreases line.len() - i,
    {
        proof {
            assert(line@.take(i + 1).drop_last() =~= line@.take(i as int));
        }
        let c = line[i];
        if !is_space(c) {
            cur.push(c);
        } else if cur.len() > 0 {
            let ghost before = done@;
            done.push(cur);
            proof {
                assert(views(done@) =~= views(before).push(cur@));
            }
            cur = Vec::new();
        }
        i += 1;
    }
    proof {
        assert(line@.take(line@.len() as int) =~= line@);
    }
    if cur.len() > 0 {
        let ghost before = done@;
        let ghost last = cur@;
        done.push(cur);
        proof {
            assert(views(done@) =~= views(before).push(last));
        }
    }
    done
}

/// The characters of `s` from index `start` on, up to the first `c`.
pub fn take_until_from(s: &Vec<char>, start: usize, c: char) -> (r: Vec<char>)
    requires
        start <= s.len(),
    ensures
        r@ == take_until(s@.skip(start as int), c),
{
    let mut r: Vec<char> = Vec::new();
    let mut j: usize = start;
    while j < s.len() && s[j] != c
        invariant
            start <= j <= s.len(),
            take_until(s@.skip(start as int), c) == r@ + take_until(s@.skip(j as int), c),
        decreases s.len() - j,
    {
        proof {
            assert(s@.skip(j as int).drop_first() =~= s@.skip(j + 1));
            assert(r@.push(s[j as int]) + take_until(s@.skip(j + 1), c) =~= r@ + (seq![s[j as int]]
                + take_until(s@.skip(j + 1), c)));
        }
        r.push(s[j]);
        j += 1;
    }
    assert(r@ + take_until(s@.skip(j as int), c) =~= r@);
    r
}

/// The index just after the first `c` in `s`, or the length of `s`.
pub fn index_after(s: &Vec<char>, c: char) -> (r: usize)
    ensures
        r <= s.len(),
        after_first(s@, c) == s@.skip(r as int),
{
    let mut i: usize = 0;
    assert(s@.skip(0) =~= s@);
    while i < s.len()
        invariant
            i <= s.len(),
            after_first(s@, c) == after_first(s@.skip(i as int), c),
        decreases s.len() - i,
    {
        proof {
            assert(s@.skip(i as int).drop_first() =~= s@.skip(i + 1));
        }
        if s[i] == c {
            return i + 1;
        }
        i += 1;
    }
    assert(s@.skip(i as int) =~= Seq::<char>::empty());
    i
}

/// The text content of an element on one line.
pub fn element_text(line: &Vec<char>) -> (r: Vec<char>)
    ensures
        r@ == inner_text(line@),
{
    let k = index_after(line, '>');
    take_until_from(line, k, '<')
}

/// The index of the first of `ts` in which `needle` occurs.
pub fn find_containing(ts: &Vec<Vec<char>>, needle: &Vec<char>) -> (r: Option<usize>)
    ensures
        match r {
            Some(i) => i < ts.len() && first_containing(views(ts@), needle@) == Some(ts@[i as int]@),
            None => first_containing(views(ts@), needle@) is None,
        },
{
    let mut i: usize = 0;
    assert(views(ts@).skip(0) =~= views(ts@));
    while i < ts.len()
        invariant
            i <= ts.len(),
            first_containing(views(ts@), needle@) == first_containing(
                views(ts@).skip(i as int),
                needle@,
            ),
        decreases ts.len() - i,
    {
        proof {
            assert(views(ts@).skip(i as int).drop_first() =~= views(ts@).skip(i + 1));
        }
        if contains_chars(&ts[i], needle) {
            return Some(i);
        }
        i += 1;
    }
    assert(views(ts@).skip(i as int) =~= Seq::<Seq<char>>::empty());
    None
}

/// The value of the `ID=` attribute on a line, if the line has one.
pub fn id_value(line: &Vec<char>) -> (r: Option<Vec<char>>)
    ensures
        match r {
            Some(v) => id_attribute(line@) == Some(v@),
            None => id_attribute(line@) is None,
        },
{
    let words = split_words(line);
    let marker = chars_of("ID=");
    match find_containing(&words, &marker) {
        Some(i) => {
            let t = &words[i];
            if t.len() < 4 {
                Some(Vec::new())
            } else {
                Some(take_until_from(t, 4, '"'))
            }
        },
        None => None,
    }
}

/// A copy of a character vector.
pub fn copy_chars(v: &Vec<char>) -> (r: Vec<char>)
    ensures
        r@ == v@,
{
    let mut r: Vec<char> = Vec::new();
    let mut i: usize = 0;
    while i < v.len()
        invariant
            i <= v.len(),
            r@ == v@.take(i as int),
        decreases v.len() - i,
    {
        proof {
            assert(v@.take(i + 1) =~= v@.take(i as int).push(v[i as int]));
        }
        r.push(v[i]);
        i += 1;
    }
    assert(v@.take(v@.len() as int) =~= v@);
    r
}

/// The lines in which `needle` occurs, in their order.
pub fn keep_containing(lines: &Vec<Vec<char>>, needle: &Vec<char>) -> (r: Vec<Vec<char>>)
    ensures
        views(r@) == lines_containing(views(lines@), needle@),
{
    let mut r: Vec<Vec<char>> = Vec::new();
    let mut i: usize = 0;
    while i < lines.len()
        invariant
            i <= lines.len(),
            views(r@) == lines_containing(views(lines@).take(i as int), needle@),
        decreases lines.len() - i,
    {
        proof {
            assert(views(lines@).take(i + 1).drop_last() =~= views(lines@).take(i as int));
        }
        if contains_chars(&lines[i], needle) {
            let ghost before = r@;
            let l = copy_chars(&lines[i]);
            r.push(l);
            proof {
                assert(views(r@) =~= views(before).push(lines@[i as int]@));
            }
        }
        i += 1;
    }
    assert(views(lines@).take(lines@.len() as int) =~= views(lines@));
    r
}

} // verus!
