use vstd::prelude::*;
use vstd::std_specs::iter::IteratorSpec;

verus! {

broadcast use vstd::string::group_string_axioms;

/// Unicode `White_Space`, the characters that `str::trim` removes.
pub open spec fn is_ws(c: char) -> bool {
    let u = c as u32;
    (0x9 <= u && u <= 0xD) || u == 0x20 || u == 0x85 || u == 0xA0 || u == 0x1680 || (0x2000 <= u
        && u <= 0x200A) || u == 0x2028 || u == 0x2029 || u == 0x202F || u == 0x205F || u == 0x3000
}

/// `s` without its leading whitespace.
pub open spec fn trim_start(s: Seq<char>) -> Seq<char>
    decreases s.len(),
{
    if s.len() > 0 && is_ws(s[0]) {
        trim_start(s.drop_first())
    } else {
        s
    }
}

/// `s` without its trailing whitespace.
pub open spec fn trim_end(s: Seq<char>) -> Seq<char>
    decreases s.len(),
{
    if s.len() > 0 && is_ws(s.last()) {
        trim_end(s.drop_last())
    } else {
        s
    }
}

/// `s` without whitespace at either end.
pub open spec fn trim(s: Seq<char>) -> Seq<char> {
    trim_end(trim_start(s))
}

/// Three backticks, the marker that opens and closes a Markdown code fence.
pub open spec fn fence() -> Seq<char> {
    seq!['`', '`', '`']
}

/// A fence opened for JSON content.
pub open spec fn json_fence() -> Seq<char> {
    fence() + seq!['j', 's', 'o', 'n']
}

pub open spec fn starts_with(s: Seq<char>, p: Seq<char>) -> bool {
    p.len() <= s.len() && s.take(p.len() as int) == p
}

pub open spec fn ends_with(s: Seq<char>, p: Seq<char>) -> bool {
    p.len() <= s.len() && s.skip(s.len() - p.len()) == p
}

/// `s` without one opening fence marker: "```json" if it is there, else "```".
pub open spec fn strip_open_fence(s: Seq<char>) -> Seq<char> {
    if starts_with(s, json_fence()) {
        s.skip(7)
    } else if starts_with(s, fence()) {
        s.skip(3)
    } else {
        s
    }
}

/// `s` without one closing "```" marker.
pub open spec fn strip_close_fence(s: Seq<char>) -> Seq<char> {
    if ends_with(s, fence()) {
        s.take(s.len() - 3)
    } else {
        s
    }
}

/// What a model's answer holds once the whitespace and the code fence around it are gone.
pub open spec fn unfenced(s: Seq<char>) -> Seq<char> {
    trim(strip_close_fence(strip_open_fence(trim(s))))
}

/// Nothing is left of an empty text.
pub proof fn lemma_unfenced_empty()
    ensures
        unfenced(Seq::<char>::empty()).len() == 0,
{
    let e = Seq::<char>::empty();
    assert(trim_start(e) == e);
    assert(trim_end(e) == e);
    assert(!starts_with(e, json_fence()));
    assert(!starts_with(e, fence()));
    assert(!ends_with(e, fence()));
}

pub fn is_white_space(c: char) -> (r: bool)
    ensures
        r == is_ws(c),
{
    let u: u32 = c as u32;
    (0x9 <= u && u <= 0xD) || u == 0x20 || u == 0x85 || u == 0xA0 || u == 0x1680 || (0x2000 <= u
        && u <= 0x200A) || u == 0x2028 || u == 0x2029 || u == 0x202F || u == 0x205F || u == 0x3000
}

/// The characters of `s`, in order.
pub fn chars_of(s: &str) -> (r: Vec<char>)
    ensures
        r@ == s@,
{
    let mut out: Vec<char> = Vec::new();
    let mut it = s.chars();
    loop
        invariant
            s@ == out@ + it.remaining(),
            it.obeys_prophetic_iter_laws(),
            it.decrease() is Some,
        ensures
            out@ == s@,
        decreases it.decrease()->0,
    {
        match it.next() {
            Some(c) => {
                out.push(c);
                assert(s@ == out@ + it.remaining());
            },
            None => {
                assert(out@ + it.remaining() =~= out@);
                break;
            },
        }
    }
    out
}

/// Bounds of `trim(cs[lo..hi])` inside `cs`.
fn trim_bounds(cs: &Vec<char>, lo: usize, hi: usize) -> (r: (usize, usize))
    requires
        lo <= hi <= cs@.len(),
    ensures
        lo <= r.0 <= r.1 <= hi,
        cs@.subrange(r.0 as int, r.1 as int) == trim(cs@.subrange(lo as int, hi as int)),
{
    let mut a: usize = lo;
    while a < hi && is_white_space(cs[a])
        invariant
            lo <= a <= hi <= cs@.len(),
            trim_start(cs@.subrange(lo as int, hi as int)) == trim_start(
                cs@.subrange(a as int, hi as int),
            ),
        decreases hi - a,
    {
        assert(cs@.subrange(a as int, hi as int).drop_first() =~= cs@.subrange(
            a + 1,
            hi as int,
        ));
        a = a + 1;
    }
    let mut b: usize = hi;
    while a < b && is_white_space(cs[b - 1])
        invariant
            lo <= a <= b <= hi <= cs@.len(),
            trim(cs@.subrange(lo as int, hi as int)) == trim_end(cs@.subrange(a as int, b as int)),
        decreases b - a,
    {
        assert(cs@.subrange(a as int, b as int).drop_last() =~= cs@.subrange(
            a as int,
            b - 1,
        ));
        b = b - 1;
    }
    (a, b)
}

/// Whether `cs[lo..hi]` holds `pat` at its start.
fn has_prefix(cs: &Vec<char>, lo: usize, hi: usize, pat: &Vec<char>) -> (r: bool)
    requires
        lo <= hi <= cs@.len(),
    ensures
        r == starts_with(cs@.subrange(lo as int, hi as int), pat@),
{
    if pat.len() > hi - lo {
        return false;
    }
    let mut i: usize = 0;
    while i < pat.len()
        invariant
            pat@.len() <= hi - lo,
            lo <= hi <= cs@.len(),
            i <= pat@.len(),
            forall|j: int| 0 <= j < i ==> cs@[lo + j] == pat@[j],
        decreases pat@.len() - i,
    {
        if cs[lo + i] != pat[i] {
            assert(cs@.subrange(lo as int, hi as int).take(pat@.len() as int)[i as int] != pat@[i as int]);
            return false;
        }
        i = i + 1;
    }
    assert(cs@.subrange(lo as int, hi as int).take(pat@.len() as int) =~= pat@);
    true
}

/// Whether `cs[lo..hi]` holds `pat` at its end.
fn has_suffix(cs: &Vec<char>, lo: usize, hi: usize, pat: &Vec<char>) -> (r: bool)
    requires
        lo <= hi <= cs@.len(),
    ensures
        r == ends_with(cs@.subrange(lo as int, hi as int), pat@),
{
    if pat.len() > hi - lo {
        return false;
    }
    let start: usize = hi - pat.len();
    let r = has_prefix(cs, start, hi, pat);
    assert(cs@.subrange(start as int, hi as int).take(pat@.len() as int) =~= cs@.subrange(
        lo as int,
        hi as int,
    ).skip((hi - lo) - pat@.len()));
    r
}

/// `s` once the whitespace and the code fence around it are gone.
pub fn strip_fence(s: &str) -> (r: String)
    ensures
        r@ == unfenced(s@),
{
    let cs = chars_of(s);
    let ghost whole = cs@.subrange(0, cs@.len() as int);
    assert(whole =~= s@);
    let fence_chars: Vec<char> = vec!['`', '`', '`'];
    let json_chars: Vec<char> = vec!['`', '`', '`', 'j', 's', 'o', 'n'];
    assert(fence_chars@ =~= fence());
    assert(json_chars@ =~= json_fence());
    let (a1, b1) = trim_bounds(&cs, 0, cs.len());
    let ghost t1 = cs@.subrange(a1 as int, b1 as int);
    let a2: usize = if has_prefix(&cs, a1, b1, &json_chars) {
        a1 + 7
    } else if has_prefix(&cs, a1, b1, &fence_chars) {
        a1 + 3
    } else {
        a1
    };
    assert(cs@.subrange(a2 as int, b1 as int) =~= strip_open_fence(t1));
    let b2: usize = if has_suffix(&cs, a2, b1, &fence_chars) {
        b1 - 3
    } else {
        b1
    };
    assert(cs@.subrange(a2 as int, b2 as int) =~= strip_close_fence(cs@.subrange(a2 as int, b1 as int)));
    let (a3, b3) = trim_bounds(&cs, a2, b2);
    s.substring_char(a3, b3).to_owned()
}

} // verus!
