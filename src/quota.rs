use vstd::prelude::*;

verus! {

/// Byte that separates the segments of a quota header.
pub const SEGMENT_SEPARATOR: u8 = 44;

/// Byte that separates the count from the window inside a segment.
pub const FIELD_SEPARATOR: u8 = 58;

pub open spec fn is_digit(b: u8) -> bool {
    48 <= b <= 57
}

/// A non-empty run of decimal digits.
pub open spec fn is_number(s: Seq<u8>) -> bool {
    s.len() > 0 && forall|i: int| 0 <= i < s.len() ==> is_digit(#[trigger] s[i])
}

/// The value of a run of decimal digits.
pub open spec fn decimal_value(s: Seq<u8>) -> nat
    decreases s.len(),
{
    if s.len() == 0 {
        0
    } else {
        decimal_value(s.drop_last()) * 10 + (s.last() - 48) as nat
    }
}

/// The pieces of `s` between occurrences of `sep`: one more piece than
/// there are separators, empty pieces included.
pub open spec fn split(s: Seq<u8>, sep: u8) -> Seq<Seq<u8>>
    decreases s.len(),
{
    if s.len() == 0 {
        seq![Seq::empty()]
    } else {
        let parts = split(s.drop_last(), sep);
        if s.last() == sep {
            parts.push(Seq::empty())
        } else {
            parts.update(parts.len() - 1, parts.last().push(s.last()))
        }
    }
}

/// One `count:windowSeconds` component of a quota header.
#[derive(Clone, Copy, Debug, PartialEq, Eq, Structural)]
pub struct QuotaSegment {
    /// Requests allowed per window; at least one.
    pub count: u64,
    /// Length of the window in seconds.
    pub window_secs: u64,
}

impl QuotaSegment {
    /// The count divides the window and the window in milliseconds fits a `u64`.
    pub open spec fn wf(&self) -> bool {
        self.count >= 1 && self.window_secs * 1000 <= u64::MAX
    }
}

/// Milliseconds between two refills of the limiter a segment stands for.
pub open spec fn interval_of(q: QuotaSegment) -> nat
    recommends
        q.count >= 1,
{
    (q.window_secs * 1000) as nat / (q.count as nat)
}

/// The segment that one `count:windowSeconds` piece denotes, if it is well formed.
pub open spec fn segment_of(piece: Seq<u8>) -> Option<QuotaSegment> {
    let fields = split(piece, FIELD_SEPARATOR);
    if fields.len() == 2 && is_number(fields[0]) && is_number(fields[1]) && 1 <= decimal_value(
        fields[0],
    ) <= u64::MAX && decimal_value(fields[1]) * 1000 <= u64::MAX {
        Some(
            QuotaSegment {
                count: decimal_value(fields[0]) as u64,
                window_secs: decimal_value(fields[1]) as u64,
            },
        )
    } else {
        None
    }
}

/// The segments of a comma-separated quota header, or `None` when any piece is malformed.
pub open spec fn quota_of(header: Seq<u8>) -> Option<Seq<QuotaSegment>> {
    let pieces = split(header, SEGMENT_SEPARATOR);
    if forall|i: int| 0 <= i < pieces.len() ==> (#[trigger] segment_of(pieces[i])) is Some {
        Some(pieces.map_values(|p: Seq<u8>| segment_of(p)->Some_0))
    } else {
        None
    }
}

/// A quota header that does not parse.
#[derive(Clone, Copy, Debug, PartialEq, Eq, Structural)]
pub struct MalformedQuota;

proof fn lemma_prefix_step(s: Seq<u8>, i: int)
    requires
        0 <= i < s.len(),
    ensures
        s.subrange(0, i + 1).drop_last() == s.subrange(0, i),
        s.subrange(0, i + 1).last() == s[i],
        s.subrange(0, i + 1).len() == i + 1,
{
    assert(s.subrange(0, i + 1).drop_last() =~= s.subrange(0, i));
}

/// Splits `s` at every `sep`.
pub fn split_bytes(s: &[u8], sep: u8) -> (r: Vec<Vec<u8>>)
    ensures
        r@.len() == split(s@, sep).len(),
        forall|j: int| 0 <= j < r@.len() ==> (#[trigger] r@[j])@ == split(s@, sep)[j],
{
    let mut done: Vec<Vec<u8>> = Vec::new();
    let mut cur: Vec<u8> = Vec::new();
    let mut i: usize = 0;
    proof {
        assert(s@.subrange(0, 0) =~= Seq::<u8>::empty());
    }
    while i < s.len()
        invariant
            i <= s@.len(),
            split(s@.subrange(0, i as int), sep).len() == done@.len() + 1,
            forall|j: int|
                0 <= j < done@.len() ==> (#[trigger] done@[j])@ == split(
                    s@.subrange(0, i as int),
                    sep,
                )[j],
            cur@ == split(s@.subrange(0, i as int), sep).last(),
        decreases s@.len() - i,
    {
        let b = s[i];
        proof {
            lemma_prefix_step(s@, i as int);
        }
        if b == sep {
            done.push(cur);
            cur = Vec::new();
        } else {
            cur.push(b);
        }
        i = i + 1;
    }
    proof {
        assert(s@.subrange(0, s@.len() as int) =~= s@);
    }
    done.push(cur);
    done
}

/// Reads a run of decimal digits; `None` unless it is non-empty, all digits, and fits a `u64`.
pub fn parse_number(s: &[u8]) -> (r: Option<u64>)
    ensures
        r is Some <==> (is_number(s@) && decimal_value(s@) <= u64::MAX),
        r is Some ==> r->Some_0 as nat == decimal_value(s@),
{
    if s.len() == 0 {
        return None;
    }
    let mut value: u64 = 0;
    let mut overflow = false;
    let mut i: usize = 0;
    proof {
        assert(s@.subrange(0, 0) =~= Seq::<u8>::empty());
    }
    while i < s.len()
        invariant
            i <= s@.len(),
            forall|j: int| 0 <= j < i ==> is_digit(#[trigger] s@[j]),
            overflow ==> decimal_value(s@.subrange(0, i as int)) > u64::MAX,
            !overflow ==> value as nat == decimal_value(s@.subrange(0, i as int)),
        decreases s@.len() - i,
    {
        let b = s[i];
        if b < 48 || b > 57 {
            return None;
        }
        proof {
            lemma_prefix_step(s@, i as int);
        }
        let d = (b - 48) as u64;
        if !overflow {
            let next: u128 = (value as u128) * 10 + (d as u128);
            if next > u64::MAX as u128 {
                overflow = true;
            } else {
                value = next as u64;
            }
        }
        i = i + 1;
    }
    proof {
        assert(s@.subrange(0, s@.len() as int) =~= s@);
    }
    if overflow {
        None
    } else {
        Some(value)
    }
}

/// Reads one `count:windowSeconds` piece.
pub fn parse_segment(piece: &[u8]) -> (r: Option<QuotaSegment>)
    ensures
        r == segment_of(piece@),
        r is Some ==> r->Some_0.wf(),
{
    let fields = split_bytes(piece, FIELD_SEPARATOR);
    if fields.len() != 2 {
        return None;
    }
    let count = parse_number(fields[0].as_slice());
    let window = parse_number(fields[1].as_slice());
    match (count, window) {
        (Some(c), Some(w)) => {
            if c >= 1 && w <= u64::MAX / 1000 {
                Some(QuotaSegment { count: c, window_secs: w })
            } else {
                None
            }
        },
        _ => None,
    }
}

/// Reads a comma-separated quota header such as `20:1,100:120`.
pub fn parse_quota(header: &[u8]) -> (r: Result<Vec<QuotaSegment>, MalformedQuota>)
    ensures
        match r {
            Ok(v) => quota_of(header@) == Some(v@),
            Err(_) => quota_of(header@) is None,
        },
        r is Ok ==> forall|i: int| 0 <= i < r->Ok_0@.len() ==> (#[trigger] r->Ok_0@[i]).wf(),
{
    let pieces = split_bytes(header, SEGMENT_SEPARATOR);
    let ghost spieces = split(header@, SEGMENT_SEPARATOR);
    let mut out: Vec<QuotaSegment> = Vec::new();
    let mut i: usize = 0;
    while i < pieces.len()
        invariant
            i <= pieces@.len(),
            pieces@.len() == spieces.len(),
            spieces == split(header@, SEGMENT_SEPARATOR),
            forall|j: int| 0 <= j < pieces@.len() ==> (#[trigger] pieces@[j])@ == spieces[j],
            out@.len() == i,
            forall|j: int|
                0 <= j < i ==> segment_of(spieces[j]) == Some(#[trigger] out@[j]) && out@[j].wf(),
        decreases pieces@.len() - i,
    {
        match parse_segment(pieces[i].as_slice()) {
            Some(q) => {
                out.push(q);
            },
            None => {
                assert(segment_of(spieces[i as int]) is None);
                return Err(MalformedQuota);
            },
        }
        i = i + 1;
    }
    proof {
        assert forall|j: int| 0 <= j < spieces.len() implies (#[trigger] segment_of(
            spieces[j],
        )) is Some by {
            assert(segment_of(spieces[j]) == Some(out@[j]));
        }
        assert(out@ =~= spieces.map_values(|p: Seq<u8>| segment_of(p)->Some_0));
    }
    Ok(out)
}

impl QuotaSegment {
    /// Milliseconds between refills: the window in milliseconds divided by the count, rounded down.
    pub fn interval_ms(&self) -> (r: u64)
        requires
            self.wf(),
        ensures
            r as nat == interval_of(*self),
    {
        self.window_secs * 1000 / self.count
    }
}

} // verus!
