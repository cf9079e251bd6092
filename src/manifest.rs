use vstd::prelude::*;

use crate::text::{contains, contains_str};

verus! {

/// Whitespace between the fields of a manifest line.
pub open spec fn is_space(ch: char) -> bool {
    ch == ' ' || ch == '\t' || ch == '\r' || ch == '\n'
}

/// End of the line that starts at or covers position `i`: the next newline, or the end.
pub open spec fn line_end(c: Seq<char>, i: int) -> int
    decreases c.len() - i,
{
    if i >= c.len() {
        c.len() as int
    } else if c[i] == '\n' {
        i
    } else {
        line_end(c, i + 1)
    }
}

/// First position at or after `i`, before `end`, that holds no whitespace.
pub open spec fn skip_space(c: Seq<char>, i: int, end: int) -> int
    decreases end - i,
{
    if i < end && is_space(c[i]) {
        skip_space(c, i + 1, end)
    } else {
        i
    }
}

/// First position at or after `i`, before `end`, that holds whitespace.
pub open spec fn token_end(c: Seq<char>, i: int, end: int) -> int
    decreases end - i,
{
    if i < end && !is_space(c[i]) {
        token_end(c, i + 1, end)
    } else {
        i
    }
}

/// The first whitespace-separated field of `c[start..end]`.
pub open spec fn first_field(c: Seq<char>, start: int, end: int) -> Seq<char> {
    let a = skip_space(c, start, end);
    c.subrange(a, token_end(c, a, end))
}

/// The first field of the last line, from position `start` on, that contains `name`.
pub open spec fn lookup_from(c: Seq<char>, start: int, name: Seq<char>) -> Option<Seq<char>>
    decreases c.len() - start,
{
    if start < 0 || start > c.len() {
        None
    } else {
        let e = line_end(c, start);
        let later = if e < start || e >= c.len() { None } else { lookup_from(c, e + 1, name) };
        if later is Some {
            later
        } else if contains(c.subrange(start, e), name) {
            Some(first_field(c, start, e))
        } else {
            None
        }
    }
}

/// The hash that a checksum manifest gives for `name`.
pub open spec fn manifest_lookup(c: Seq<char>, name: Seq<char>) -> Option<Seq<char>> {
    lookup_from(c, 0, name)
}

/// The part of an identifier after its last `:` (the whole identifier if it has none).
pub open spec fn local_name(id: Seq<char>) -> Seq<char>
    decreases id.len(),
{
    if id.len() == 0 {
        id
    } else if id.last() == ':' {
        Seq::empty()
    } else {
        local_name(id.drop_last()).push(id.last())
    }
}

/// The directory part of a path: everything up to and including its last
/// `/` (nothing when it has none).
pub open spec fn dir_prefix(path: Seq<char>) -> Seq<char>
    decreases path.len(),
{
    if path.len() == 0 || path.last() == '/' {
        path
    } else {
        dir_prefix(path.drop_last())
    }
}

fn scan_line_end(c: &str, i: usize, n: usize) -> (e: usize)
    requires
        n == c@.len(),
        i <= n,
    ensures
        e == line_end(c@, i as int),
        i <= e <= n,
{
    let mut j = i;
    while j < n && c.get_char(j) != '\n'
        invariant
            n == c@.len(),
            i <= j <= n,
            line_end(c@, i as int) == line_end(c@, j as int),
        decreases n - j,
    {
        j = j + 1;
    }
    j
}

fn scan_space(c: &str, i: usize, end: usize) -> (e: usize)
    requires
        end <= c@.len(),
        i <= end,
    ensures
        e == skip_space(c@, i as int, end as int),
        i <= e <= end,
{
    let mut j = i;
    while j < end && is_space_char(c.get_char(j))
        invariant
            end <= c@.len(),
            i <= j <= end,
            skip_space(c@, i as int, end as int) == skip_space(c@, j as int, end as int),
        decreases end - j,
    {
        j = j + 1;
    }
    j
}

fn scan_token(c: &str, i: usize, end: usize) -> (e: usize)
    requires
        end <= c@.len(),
        i <= end,
    ensures
        e == token_end(c@, i as int, end as int),
        i <= e <= end,
{
    let mut j = i;
    while j < end && !is_space_char(c.get_char(j))
        invariant
            end <= c@.len(),
            i <= j <= end,
            token_end(c@, i as int, end as int) == token_end(c@, j as int, end as int),
        decreases end - j,
    {
        j = j + 1;
    }
    j
}

fn is_space_char(ch: char) -> (r: bool)
    ensures
        r == is_space(ch),
{
    ch == ' ' || ch == '\t' || ch == '\r' || ch == '\n'
}

/// The hash that the manifest `contents` (lines of `<hash>  <file name>`)
/// gives on the last line that contains `name`.
pub fn manifest_hash(contents: &str, name: &str) -> (r: Option<String>)
    ensures
        match manifest_lookup(contents@, name@) {
            Some(h) => r is Some && r->0@ == h,
            None => r is None,
        },
{
    let n = contents.unicode_len();
    let mut start: usize = 0;
    let mut found: Option<(usize, usize)> = None;
    loop
        invariant
            n == contents@.len(),
            start <= n,
            match found {
                Some((a, t)) => a <= t <= n,
                None => true,
            },
            manifest_lookup(contents@, name@) == match lookup_from(contents@, start as int, name@) {
                Some(h) => Some(h),
                None => match found {
                    Some((a, t)) => Some(contents@.subrange(a as int, t as int)),
                    None => None,
                },
            },
        decreases n - start,
    {
        let e = scan_line_end(contents, start, n);
        let line = contents.substring_char(start, e);
        if contains_str(line, name) {
            let a = scan_space(contents, start, e);
            let t = scan_token(contents, a, e);
            found = Some((a, t));
        }
        if e >= n {
            return match found {
                Some((a, t)) => Some(contents.substring_char(a, t).to_owned()),
                None => None,
            };
        }
        start = e + 1;
    }
}

/// The part of `id` after its last `:`.
pub fn local_name_of(id: &str) -> (r: &str)
    ensures
        r@ == local_name(id@),
{
    let n = id.unicode_len();
    let mut j = n;
    assert(id@.subrange(0, n as int) =~= id@);
    assert(local_name(id@) + id@.subrange(n as int, n as int) =~= local_name(id@));
    while j > 0 && id.get_char(j - 1) != ':'
        invariant
            n == id@.len(),
            j <= n,
            local_name(id@) == local_name(id@.subrange(0, j as int)) + id@.subrange(j as int, n as int),
        decreases j,
    {
        proof {
            let s = id@.subrange(0, j as int);
            assert(s.drop_last() =~= id@.subrange(0, j - 1));
            assert(id@.subrange(j - 1, n as int) =~= seq![s.last()] + id@.subrange(j as int, n as int));
            assert(local_name(id@.subrange(0, j - 1)).push(s.last()) + id@.subrange(j as int, n as int)
                =~= local_name(id@.subrange(0, j - 1)) + id@.subrange(j - 1, n as int));
        }
        j = j - 1;
    }
    proof {
        if j == 0 {
            assert(id@.subrange(0, 0).len() == 0);
            assert(local_name(id@.subrange(0, 0)) + id@.subrange(0, n as int) =~= id@);
        } else {
            assert(id@.subrange(0, j as int).last() == ':');
            assert(local_name(id@.subrange(0, j as int)) =~= Seq::<char>::empty());
            assert(Seq::<char>::empty() + id@.subrange(j as int, n as int) =~= id@.subrange(j as int, n as int));
        }
    }
    id.substring_char(j, n)
}

/// The directory part of `path`, up to and including its last `/`.
pub fn dir_prefix_of(path: &str) -> (r: &str)
    ensures
        r@ == dir_prefix(path@),
{
    let n = path.unicode_len();
    let mut j = n;
    assert(path@.subrange(0, n as int) =~= path@);
    while j > 0 && path.get_char(j - 1) != '/'
        invariant
            n == path@.len(),
            j <= n,
            dir_prefix(path@) == dir_prefix(path@.subrange(0, j as int)),
        decreases j,
    {
        assert(path@.subrange(0, j as int).drop_last() =~= path@.subrange(0, j - 1));
        j = j - 1;
    }
    path.substring_char(0, j)
}

} // verus!
