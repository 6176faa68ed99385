//! Character-level pieces of the line grammar: the word tokenizer, joining words
//! back with spaces, and the quote-aware tag lexer.

use vstd::prelude::*;

verus! {

/// The characters with the Unicode `White_Space` property.
pub open spec fn is_space_char(c: char) -> bool {
    let u = c as u32;
    ||| 9 <= u <= 13
    ||| u == 32
    ||| u == 0x85
    ||| u == 0xA0
    ||| u == 0x1680
    ||| 0x2000 <= u <= 0x200A
    ||| u == 0x2028
    ||| u == 0x2029
    ||| u == 0x202F
    ||| u == 0x205F
    ||| u == 0x3000
}

pub fn is_space(c: char) -> (r: bool)
    ensures
        r == is_space_char(c),
{
    let u = c as u32;
    (9 <= u && u <= 13) || u == 32 || u == 0x85 || u == 0xA0 || u == 0x1680 || (0x2000 <= u && u
        <= 0x200A) || u == 0x2028 || u == 0x2029 || u == 0x202F || u == 0x205F || u == 0x3000
}

/// Reading `s` left to right: the words completed so far and the word in progress.
pub open spec fn scan_words(s: Seq<char>) -> (Seq<Seq<char>>, Seq<char>)
    decreases s.len(),
{
    if s.len() == 0 {
        (seq![], seq![])
    } else {
        let (done, cur) = scan_words(s.drop_last());
        let c = s.last();
        if !is_space_char(c) {
            (done, cur.push(c))
        } else if cur.len() > 0 {
            (done.push(cur), seq![])
        } else {
            (done, cur)
        }
    }
}

/// The maximal runs of non-space characters of `s`, in order.
pub open spec fn words(s: Seq<char>) -> Seq<Seq<char>> {
    let (done, cur) = scan_words(s);
    if cur.len() > 0 {
        done.push(cur)
    } else {
        done
    }
}

/// The words rejoined with one space between neighbours.
pub open spec fn join_words(ws: Seq<Seq<char>>) -> Seq<char>
    decreases ws.len(),
{
    if ws.len() == 0 {
        seq![]
    } else if ws.len() == 1 {
        ws[0]
    } else {
        join_words(ws.drop_last()) + seq![' '] + ws.last()
    }
}

/// Reading a tag section left to right: the tags completed so far, the tag in progress,
/// and whether a quote is open.
pub open spec fn scan_tags(s: Seq<char>) -> (Seq<Seq<char>>, Seq<char>, bool)
    decreases s.len(),
{
    if s.len() == 0 {
        (seq![], seq![], false)
    } else {
        let (done, cur, quoted) = scan_tags(s.drop_last());
        let c = s.last();
        if c == '"' {
            (done, cur, !quoted)
        } else if c == ' ' && !quoted {
            (done.push(cur), seq![], quoted)
        } else {
            (done, cur.push(c), quoted)
        }
    }
}

/// The tags of a tag section: quotes group words and are dropped, an unquoted space ends a
/// tag (empty tags included), and a non-empty tag in progress at the end is kept.
pub open spec fn tags_of(s: Seq<char>) -> Seq<Seq<char>> {
    let (done, cur, _) = scan_tags(s);
    if cur.len() > 0 {
        done.push(cur)
    } else {
        done
    }
}

pub open spec fn char_views(v: Seq<Vec<char>>) -> Seq<Seq<char>> {
    v.map_values(|w: Vec<char>| w@)
}

pub open spec fn string_views(v: Seq<String>) -> Seq<Seq<char>> {
    v.map_values(|w: String| w@)
}

/// Relies on std's `FromIterator<char>` for `String`: the characters are kept in order.
#[verifier::external_body]
pub(crate) fn string_of_chars(cs: &Vec<char>) -> (r: String)
    ensures
        r@ == cs@,
{
    cs.iter().collect()
}

/// Splits a line into its whitespace-separated words.
pub fn split_words(line: &str) -> (r: Vec<Vec<char>>)
    ensures
        char_views(r@) == words(line@),
{
    let n = line.unicode_len();
    let mut done: Vec<Vec<char>> = Vec::new();
    let mut cur: Vec<char> = Vec::new();
    let mut i: usize = 0;
    while i < n
        invariant
            n == line@.len(),
            i <= n,
            (char_views(done@), cur@) == scan_words(line@.subrange(0, i as int)),
        decreases n - i,
    {
        let c = line.get_char(i);
        proof {
            assert(line@.subrange(0, i + 1).drop_last() =~= line@.subrange(0, i as int));
        }
        if !is_space(c) {
            cur.push(c);
        } else if cur.len() > 0 {
            let ghost before = done@;
            done.push(cur);
            cur = Vec::new();
            proof {
                assert(char_views(done@) =~= char_views(before).push(done@.last()@));
            }
        }
        i = i + 1;
    }
    proof {
        assert(line@.subrange(0, n as int) =~= line@);
    }
    if cur.len() > 0 {
        let ghost before = done@;
        done.push(cur);
        proof {
            assert(char_views(done@) =~= char_views(before).push(done@.last()@));
        }
    }
    done
}

/// Joins `ws[from..]` with single spaces.
pub fn join_from(ws: &Vec<Vec<char>>, from: usize) -> (r: Vec<char>)
    requires
        from <= ws.len(),
    ensures
        r@ == join_words(char_views(ws@).subrange(from as int, ws.len() as int)),
{
    let mut out: Vec<char> = Vec::new();
    let mut j: usize = from;
    proof {
        assert(char_views(ws@).subrange(from as int, from as int) =~= seq![]);
    }
    while j < ws.len()
        invariant
            from <= j <= ws.len(),
            out@ == join_words(char_views(ws@).subrange(from as int, j as int)),
        decreases ws.len() - j,
    {
        let ghost head = out@;
        if j > from {
            out.push(' ');
        }
        let w = &ws[j];
        let mut q: usize = 0;
        let ghost sep = out@;
        while q < w.len()
            invariant
                q <= w.len(),
                out@ == sep + w@.subrange(0, q as int),
            decreases w.len() - q,
        {
            out.push(w[q]);
            q = q + 1;
            proof {
                assert(out@ =~= sep + w@.subrange(0, q as int));
            }
        }
        proof {
            let all = char_views(ws@).subrange(from as int, j + 1);
            assert(all.drop_last() =~= char_views(ws@).subrange(from as int, j as int));
            assert(w@.subrange(0, w.len() as int) =~= w@);
            if j > from {
                assert(out@ =~= head + seq![' '] + all.last());
            } else {
                assert(out@ =~= all[0]);
            }
        }
        j = j + 1;
    }
    out
}

/// Splits a tag section into its tags.
pub fn split_tags(s: &Vec<char>) -> (r: Vec<String>)
    ensures
        string_views(r@) == tags_of(s@),
{
    let mut done: Vec<String> = Vec::new();
    let mut cur: Vec<char> = Vec::new();
    let mut quoted = false;
    let mut i: usize = 0;
    while i < s.len()
        invariant
            i <= s.len(),
            (string_views(done@), cur@, quoted) == scan_tags(s@.subrange(0, i as int)),
        decreases s.len() - i,
    {
        let c = s[i];
        proof {
            assert(s@.subrange(0, i + 1).drop_last() =~= s@.subrange(0, i as int));
        }
        if c == '"' {
            quoted = !quoted;
        } else if c == ' ' && !quoted {
            let ghost before = done@;
            let t = string_of_chars(&cur);
            done.push(t);
            cur = Vec::new();
            proof {
                assert(string_views(done@) =~= string_views(before).push(done@.last()@));
            }
        } else {
            cur.push(c);
        }
        i = i + 1;
    }
    proof {
        assert(s@.subrange(0, s.len() as int) =~= s@);
    }
    if cur.len() > 0 {
        let ghost before = done@;
        let t = string_of_chars(&cur);
        done.push(t);
        proof {
            assert(string_views(done@) =~= string_views(before).push(done@.last()@));
        }
    }
    done
}

} // verus!
