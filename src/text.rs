use vstd::prelude::*;
use vstd::string::*;

verus! {

/// Characters with the Unicode `White_Space` property.
pub open spec fn white_space(c: char) -> bool {
    let u = c as u32;
    ||| 0x09 <= u <= 0x0D
    ||| u == 0x20
    ||| u == 0x85
    ||| u == 0xA0
    ||| u == 0x1680
    ||| 0x2000 <= u <= 0x200A
    ||| u == 0x2028
    ||| u == 0x2029
    ||| u == 0x202F
    ||| u == 0x205F
    ||| u == 0x3000
}

/// Relies on `char::is_whitespace`: true exactly for the characters with
/// the Unicode `White_Space` property.
#[verifier::external_body]
pub(crate) fn is_space(c: char) -> (r: bool)
    ensures
        r == white_space(c),
{
    c.is_whitespace()
}


/// The words of `s`: its maximal runs of non-white-space characters, in
/// order. Defined on prefixes: a character that is not white space either
/// extends the word that the previous character ends, or starts a new one.
pub open spec fn words(s: Seq<char>) -> Seq<Seq<char>>
    decreases s.len(),
{
    if s.len() == 0 {
        seq![]
    } else {
        let init = s.drop_last();
        let c = s.last();
        let ws = words(init);
        if white_space(c) {
            ws
        } else if init.len() > 0 && !white_space(init.last()) {
            ws.update(ws.len() - 1, ws.last().push(c))
        } else {
            ws.push(seq![c])
        }
    }
}

/// A prefix that ends inside a word has at least one word, and its last
/// word is the run of non-white-space characters from `start`.
proof fn lemma_words_open(s: Seq<char>, start: int)
    requires
        0 <= start < s.len(),
        start == 0 || white_space(s[start - 1]),
        forall|k: int| start <= k < s.len() ==> !white_space(#[trigger] s[k]),
    ensures
        words(s).len() == words(s.take(start)).len() + 1,
        words(s).take(words(s).len() - 1) == words(s.take(start)),
        words(s).last() == s.subrange(start, s.len() as int),
    decreases s.len(),
{
    let init = s.drop_last();
    if s.len() - 1 == start {
        assert(init == s.take(start));
        assert(seq![s.last()] == s.subrange(start, s.len() as int));
        assert(words(s).take(words(s).len() - 1) =~= words(init));
    } else {
        lemma_words_open(init, start);
        assert(init.take(start) == s.take(start));
        assert(init.subrange(start, init.len() as int).push(s.last()) =~= s.subrange(start, s.len() as int));
        assert(words(s).take(words(s).len() - 1) =~= words(init).take(words(init).len() - 1));
    }
}

/// Splits `line` at runs of white space, as `str::split_whitespace` does.
pub fn split_words(line: &str) -> (r: Vec<String>)
    ensures
        r.deep_view() == words(line@),
{
    let n = line.unicode_len();
    let mut out: Vec<String> = Vec::new();
    let mut start: usize = 0;
    let mut inside: bool = false;
    let mut i: usize = 0;
    while i < n
        invariant
            n == line@.len(),
            0 <= start <= i <= n,
            inside ==> (start == 0 || white_space(line@[start - 1])),
            inside ==> forall|k: int| start <= k < i ==> !white_space(#[trigger] line@[k]),
            inside ==> start < i,
            inside ==> out.deep_view() == words(line@.take(start as int)),
            !inside ==> out.deep_view() == words(line@.take(i as int)),
            !inside ==> (i == 0 || white_space(line@[i - 1])),
        decreases n - i,
    {
        let c = line.get_char(i);
        let ghost pre = line@.take(i as int);
        assert(line@.take(i + 1).drop_last() == pre);
        if is_space(c) {
            if inside {
                proof { lemma_words_open(pre, start as int); }
                let ghost before = out.deep_view();
                let w = String::from_str(line.substring_char(start, i));
                out.push(w);
                proof {
                    assert(out.deep_view() =~= before.push(w@));
                    assert(pre.subrange(start as int, i as int) =~= line@.subrange(start as int, i as int));
                    assert(pre.take(start as int) =~= line@.take(start as int));
                    assert(words(pre) =~= words(pre).take(words(pre).len() - 1).push(words(pre).last()));
                    assert(out.deep_view() =~= words(pre));
                }
                inside = false;
            }
        } else if !inside {
            start = i;
            inside = true;
            assert(pre == line@.take(start as int));
        }
        i = i + 1;
    }
    if inside {
        proof {
            assert(line@.take(n as int) == line@);
            lemma_words_open(line@, start as int);
        }
        let ghost before = out.deep_view();
        let w = String::from_str(line.substring_char(start, n));
        out.push(w);
        proof {
            let ws = words(line@);
            assert(out.deep_view() =~= before.push(w@));
            assert(ws =~= ws.take(ws.len() - 1).push(ws.last()));
        }
    } else {
        assert(line@.take(n as int) == line@);
    }
    out
}

} // verus!
