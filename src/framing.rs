use vstd::prelude::*;

verus! {

/// Whitespace as JSON text knows it: space, tab, line feed, carriage return.
pub open spec fn is_json_space(b: u8) -> bool {
    b == 32 || b == 9 || b == 10 || b == 13
}

fn json_space(b: u8) -> (r: bool)
    ensures
        r == is_json_space(b),
{
    b == 32 || b == 9 || b == 10 || b == 13
}

/// The bytes with leading whitespace removed.
pub open spec fn trim_start(s: Seq<u8>) -> Seq<u8>
    decreases s.len(),
{
    if s.len() > 0 && is_json_space(s[0]) {
        trim_start(s.drop_first())
    } else {
        s
    }
}

/// The bytes with trailing whitespace removed.
pub open spec fn trim_end(s: Seq<u8>) -> Seq<u8>
    decreases s.len(),
{
    if s.len() > 0 && is_json_space(s.last()) {
        trim_end(s.drop_last())
    } else {
        s
    }
}

/// The payload a received line carries: the line without surrounding whitespace.
pub open spec fn line_payload(line: Seq<u8>) -> Seq<u8> {
    trim_end(trim_start(line))
}

/// A payload that framing leaves as it is: no line feed in it, and no
/// whitespace at either end.
pub open spec fn is_frameable(p: Seq<u8>) -> bool {
    &&& forall|i: int| 0 <= i < p.len() ==> p[i] != 10
    &&& p.len() > 0 ==> !is_json_space(p[0]) && !is_json_space(p.last())
}

proof fn lemma_trim_start_skip(s: Seq<u8>, i: int)
    requires
        0 <= i <= s.len(),
        forall|j: int| 0 <= j < i ==> is_json_space(#[trigger] s[j]),
    ensures
        trim_start(s) == trim_start(s.subrange(i, s.len() as int)),
    decreases i,
{
    if i > 0 {
        assert(s.drop_first().subrange(i - 1, s.drop_first().len() as int) == s.subrange(
            i,
            s.len() as int,
        ));
        assert forall|j: int| 0 <= j < i - 1 implies is_json_space(
            #[trigger] s.drop_first()[j],
        ) by {
            assert(s.drop_first()[j] == s[j + 1]);
        }
        lemma_trim_start_skip(s.drop_first(), i - 1);
    } else {
        assert(s.subrange(0, s.len() as int) == s);
    }
}

proof fn lemma_trim_end_skip(s: Seq<u8>, k: int)
    requires
        0 <= k <= s.len(),
        forall|j: int| k <= j < s.len() ==> is_json_space(#[trigger] s[j]),
    ensures
        trim_end(s) == trim_end(s.subrange(0, k)),
    decreases s.len() - k,
{
    if k < s.len() {
        assert(s.drop_last().subrange(0, k) == s.subrange(0, k));
        assert forall|j: int| k <= j < s.drop_last().len() implies is_json_space(
            #[trigger] s.drop_last()[j],
        ) by {
            assert(s.drop_last()[j] == s[j]);
        }
        lemma_trim_end_skip(s.drop_last(), k);
    } else {
        assert(s.subrange(0, k) == s);
    }
}

/// A copy of the bytes.
pub fn copy_bytes(payload: &[u8]) -> (r: Vec<u8>)
    ensures
        r@ == payload@,
{
    let mut out: Vec<u8> = Vec::new();
    let mut i: usize = 0;
    while i < payload.len()
        invariant
            i <= payload@.len(),
            out@ == payload@.subrange(0, i as int),
        decreases payload@.len() - i,
    {
        out.push(payload[i]);
        assert(out@ == payload@.subrange(0, i + 1));
        i = i + 1;
    }
    assert(out@ == payload@);
    out
}

/// Frames a payload as one line: the payload followed by a line feed.
pub fn encode_line(payload: &[u8]) -> (r: Vec<u8>)
    ensures
        r@ == payload@.push(10u8),
{
    let mut out = copy_bytes(payload);
    out.push(10u8);
    out
}

/// The payload of a received line, without the whitespace around it.
pub fn decode_line(line: &[u8]) -> (r: Vec<u8>)
    ensures
        r@ == line_payload(line@),
{
    let n = line.len();
    let mut start: usize = 0;
    while start < n && json_space(line[start])
        invariant
            n == line@.len(),
            start <= n,
            forall|j: int| 0 <= j < start ==> is_json_space(#[trigger] line@[j]),
        decreases n - start,
    {
        start = start + 1;
    }
    let mut end: usize = n;
    while end > start && json_space(line[end - 1])
        invariant
            n == line@.len(),
            start <= end <= n,
            forall|j: int| end <= j < n ==> is_json_space(#[trigger] line@[j]),
        decreases end,
    {
        end = end - 1;
    }
    proof {
        lemma_trim_start_skip(line@, start as int);
        let rest = line@.subrange(start as int, n as int);
        if start < n {
            assert(rest[0] == line@[start as int]);
        }
        assert(trim_start(line@) == rest);
        let k = end - start;
        assert forall|j: int| k <= j < rest.len() implies is_json_space(#[trigger] rest[j]) by {
            assert(rest[j] == line@[j + start]);
        }
        lemma_trim_end_skip(rest, k as int);
        let kept = rest.subrange(0, k as int);
        if k > 0 {
            assert(kept.last() == line@[end - 1]);
        }
        assert(trim_end(kept) == kept);
        assert(kept == line@.subrange(start as int, end as int));
    }
    let mut out: Vec<u8> = Vec::new();
    let mut i: usize = start;
    while i < end
        invariant
            start <= i <= end <= n,
            n == line@.len(),
            out@ == line@.subrange(start as int, i as int),
        decreases end - i,
    {
        out.push(line[i]);
        assert(out@ == line@.subrange(start as int, i + 1));
        i = i + 1;
    }
    out
}

/// A frameable payload comes back unchanged from its line.
pub proof fn lemma_line_round_trip(p: Seq<u8>)
    requires
        is_frameable(p),
    ensures
        line_payload(p.push(10u8)) == p,
{
    let line = p.push(10u8);
    if p.len() > 0 {
        assert(line[0] == p[0]);
        assert(trim_start(line) == line);
    } else {
        assert(line[0] == 10u8);
        assert(line.drop_first() =~= Seq::<u8>::empty());
        assert(trim_start(line.drop_first()) == line.drop_first());
        assert(trim_start(line) == Seq::<u8>::empty());
    }
    assert(line.drop_last() == p);
    if p.len() > 0 {
        assert(trim_end(line) == trim_end(p));
        assert(trim_end(p) == p);
    }
}

} // verus!
