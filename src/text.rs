use vstd::prelude::*;
use vstd::string::*;

verus! {

/// Whether a character has the Unicode `White_Space` property: tab through
/// carriage return, space, next line, no-break space, ogham space mark, en
/// quad through hair space, line and paragraph separators, narrow no-break
/// space, medium mathematical space and ideographic space.
pub open spec fn white_space(c: char) -> bool {
    let u = c as u32;
    ||| 0x9 <= u <= 0xd
    ||| u == 0x20
    ||| u == 0x85
    ||| u == 0xa0
    ||| u == 0x1680
    ||| 0x2000 <= u <= 0x200a
    ||| u == 0x2028
    ||| u == 0x2029
    ||| u == 0x202f
    ||| u == 0x205f
    ||| u == 0x3000
}

/// Whether `c` has the Unicode `White_Space` property.
pub fn is_white_space(c: char) -> (r: bool)
    ensures
        r == white_space(c),
{
    let u = c as u32;
    (0x9 <= u && u <= 0xd) || u == 0x20 || u == 0x85 || u == 0xa0 || u == 0x1680 || (0x2000 <= u
        && u <= 0x200a) || u == 0x2028 || u == 0x2029 || u == 0x202f || u == 0x205f || u == 0x3000
}

/// Each segment followed by one space, in order.
pub open spec fn spaced(segments: Seq<Seq<char>>) -> Seq<char>
    decreases segments.len(),
{
    if segments.len() == 0 {
        Seq::empty()
    } else {
        spaced(segments.drop_last()) + segments.last() + seq![' ']
    }
}

/// `s` without its leading white space.
pub open spec fn trim_front(s: Seq<char>) -> Seq<char>
    decreases s.len(),
{
    if s.len() > 0 && white_space(s[0]) {
        trim_front(s.drop_first())
    } else {
        s
    }
}

/// `s` without its trailing white space.
pub open spec fn trim_back(s: Seq<char>) -> Seq<char>
    decreases s.len(),
{
    if s.len() > 0 && white_space(s.last()) {
        trim_back(s.drop_last())
    } else {
        s
    }
}

/// `s` without white space at either end.
pub open spec fn trimmed(s: Seq<char>) -> Seq<char> {
    trim_back(trim_front(s))
}

/// The text of each segment.
pub open spec fn texts(segments: Seq<String>) -> Seq<Seq<char>> {
    segments.map_values(|s: String| s@)
}

/// Copies `s` without white space at either end.
pub fn trim_white_space(s: &str) -> (r: String)
    ensures
        r@ == trimmed(s@),
{
    let n: usize = s.unicode_len();
    let mut i: usize = 0;
    assert(s@.subrange(0, n as int) =~= s@);
    while i < n
        invariant
            n == s@.len(),
            i <= n,
            trim_front(s@) == trim_front(s@.subrange(i as int, n as int)),
        ensures
            i <= n,
            trim_front(s@) == trim_front(s@.subrange(i as int, n as int)),
            i == n || !white_space(s@[i as int]),
        decreases n - i,
    {
        if !is_white_space(s.get_char(i)) {
            break;
        }
        assert(s@.subrange(i as int, n as int).drop_first() =~= s@.subrange(i + 1, n as int));
        i = i + 1;
    }
    let ghost front = s@.subrange(i as int, n as int);
    assert(i < n ==> front[0] == s@[i as int]);
    assert(trim_front(s@) == front);
    let mut j: usize = n;
    while j > i
        invariant
            n == s@.len(),
            i <= j <= n,
            front == s@.subrange(i as int, n as int),
            trim_back(front) == trim_back(s@.subrange(i as int, j as int)),
        ensures
            i <= j <= n,
            trim_back(front) == trim_back(s@.subrange(i as int, j as int)),
            j == i || !white_space(s@[j - 1]),
        decreases j - i,
    {
        if !is_white_space(s.get_char(j - 1)) {
            break;
        }
        assert(s@.subrange(i as int, j as int).drop_last() =~= s@.subrange(i as int, j - 1));
        j = j - 1;
    }
    proof {
        let kept = s@.subrange(i as int, j as int);
        if j > i {
            assert(kept.last() == s@[j - 1]);
        }
    }
    String::from_str(s.substring_char(i, j))
}

/// The recognised text of a run: the segments in order, each followed by one
/// space, with white space trimmed from both ends.
pub fn join_segments(segments: &Vec<String>) -> (r: String)
    ensures
        r@ == trimmed(spaced(texts(segments@))),
{
    let mut text = String::new();
    let mut k: usize = 0;
    while k < segments.len()
        invariant
            k <= segments@.len(),
            text@ == spaced(texts(segments@).subrange(0, k as int)),
        decreases segments@.len() - k,
    {
        proof {
            let done = texts(segments@).subrange(0, k + 1);
            assert(done.drop_last() =~= texts(segments@).subrange(0, k as int));
            assert(done.last() == segments@[k as int]@);
        }
        let ghost before = text@;
        text.append(segments[k].as_str());
        text.append(" ");
        proof {
            reveal_strlit(" ");
            assert(" "@ =~= seq![' ']);
            let done = texts(segments@).subrange(0, k + 1);
            assert(text@ == before + segments@[k as int]@ + seq![' ']);
            assert(spaced(done) == spaced(done.drop_last()) + done.last() + seq![' ']);
        }
        k = k + 1;
    }
    assert(texts(segments@).subrange(0, segments@.len() as int) =~= texts(segments@));
    trim_white_space(text.as_str())
}

/// The outcome of a transcription that ran to its end.
pub struct TranscriptionResult {
    pub text: String,
    pub success: bool,
}

impl TranscriptionResult {
    /// The result of a run that emitted `segments`: their text joined and
    /// trimmed, and success.
    pub fn from_segments(segments: &Vec<String>) -> (r: TranscriptionResult)
        ensures
            r.success,
            r.text@ == trimmed(spaced(texts(segments@))),
    {
        TranscriptionResult { text: join_segments(segments), success: true }
    }
}

} // verus!
