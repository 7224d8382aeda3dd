use vstd::prelude::*;

verus! {

/// The HTTP verb of a request.
#[derive(Clone, Copy, Debug, PartialEq, Eq, Hash, Structural)]
pub enum Method {
    Get,
    Head,
    Post,
    Put,
    Delete,
    Patch,
}

/// The name of a verb as it stands in a request line.
pub open spec fn method_name(m: Method) -> Seq<char> {
    match m {
        Method::Get => "GET"@,
        Method::Head => "HEAD"@,
        Method::Post => "POST"@,
        Method::Put => "PUT"@,
        Method::Delete => "DELETE"@,
        Method::Patch => "PATCH"@,
    }
}

impl Method {
    pub fn as_str(&self) -> (r: &'static str)
        ensures
            r@ == method_name(*self),
    {
        match self {
            Method::Get => "GET",
            Method::Head => "HEAD",
            Method::Post => "POST",
            Method::Put => "PUT",
            Method::Delete => "DELETE",
            Method::Patch => "PATCH",
        }
    }
}

/// Query parameters as text: name and value.
pub open spec fn pairs_view(q: Seq<(String, String)>) -> Seq<(Seq<char>, Seq<char>)> {
    q.map_values(|p: (String, String)| (p.0@, p.1@))
}

/// Position of the last parameter named `k`, or -1.
pub open spec fn key_position(q: Seq<(Seq<char>, Seq<char>)>, k: Seq<char>) -> int
    decreases q.len(),
{
    if q.len() == 0 {
        -1
    } else if q.last().0 == k {
        q.len() - 1
    } else {
        key_position(q.drop_last(), k)
    }
}

/// Sets parameter `k` to `v`: in place when it is present, else at the end.
pub open spec fn insert_pair(q: Seq<(Seq<char>, Seq<char>)>, k: Seq<char>, v: Seq<char>) -> Seq<
    (Seq<char>, Seq<char>),
> {
    let p = key_position(q, k);
    if p >= 0 {
        q.update(p, (k, v))
    } else {
        q.push((k, v))
    }
}

proof fn lemma_key_position_bounds(q: Seq<(Seq<char>, Seq<char>)>, k: Seq<char>)
    ensures
        -1 <= key_position(q, k) < q.len(),
        key_position(q, k) >= 0 ==> q[key_position(q, k)].0 == k,
        key_position(q, k) < 0 ==> forall|i: int| 0 <= i < q.len() ==> (#[trigger] q[i]).0 != k,
    decreases q.len(),
{
    if q.len() > 0 {
        lemma_key_position_bounds(q.drop_last(), k);
        if key_position(q, k) < 0 {
            assert forall|i: int| 0 <= i < q.len() implies (#[trigger] q[i]).0 != k by {
                if i < q.len() - 1 {
                    assert(q.drop_last()[i] == q[i]);
                }
            }
        }
    }
}

/// Adds the parameter `k` when `v` holds a value; a parameter without a
/// value is left out, never sent empty. Setting a name twice keeps one
/// parameter, with the later value.
pub fn insert_query(query: &mut Vec<(String, String)>, k: &str, v: &Option<String>)
    ensures
        match v {
            None => final(query)@ == old(query)@,
            Some(w) => pairs_view(final(query)@) == insert_pair(
                pairs_view(old(query)@),
                k@,
                w@,
            ),
        },
{
    match v {
        None => {},
        Some(w) => {
            let ghost q0 = pairs_view(query@);
            let key = k.to_owned();
            let mut pos: Option<usize> = None;
            let mut i: usize = 0;
            while i < query.len()
                invariant
                    i <= query@.len(),
                    q0 == pairs_view(query@),
                    key@ == k@,
                    match pos {
                        Some(p) => p < i && key_position(q0.subrange(0, i as int), k@) == p,
                        None => key_position(q0.subrange(0, i as int), k@) == -1,
                    },
                decreases query@.len() - i,
            {
                proof {
                    assert(q0.subrange(0, i + 1).drop_last() =~= q0.subrange(0, i as int));
                }
                if query[i].0 == key {
                    pos = Some(i);
                }
                i = i + 1;
            }
            proof {
                assert(q0.subrange(0, query@.len() as int) =~= q0);
            }
            match pos {
                Some(p) => {
                    query.set(p, (key, w.clone()));
                    proof {
                        assert(pairs_view(query@) =~= insert_pair(q0, k@, w@));
                    }
                },
                None => {
                    query.push((key, w.clone()));
                    proof {
                        assert(pairs_view(query@) =~= insert_pair(q0, k@, w@));
                    }
                },
            }
        },
    }
}

/// What identifies a request for caching: verb, absolute URL without the
/// query, and the query parameters in the order they were given. Requests
/// that differ in any parameter have different keys; the same parameters
/// given in another order make another key too, so callers build a query
/// in a fixed order.
pub struct RequestKey {
    pub method: Method,
    pub url: String,
    pub query: Vec<(String, String)>,
}

impl View for RequestKey {
    type V = (Method, Seq<char>, Seq<(Seq<char>, Seq<char>)>);

    open spec fn view(&self) -> Self::V {
        (self.method, self.url@, pairs_view(self.query@))
    }
}

impl RequestKey {
    /// Whether two keys name the same request.
    pub fn same_as(&self, other: &RequestKey) -> (r: bool)
        ensures
            r == (self@ == other@),
    {
        if self.method != other.method || self.url != other.url || self.query.len()
            != other.query.len() {
            proof {
                if self.query@.len() != other.query@.len() {
                    assert(pairs_view(self.query@).len() != pairs_view(other.query@).len());
                }
            }
            return false;
        }
        let mut i: usize = 0;
        while i < self.query.len()
            invariant
                i <= self.query@.len(),
                self.query@.len() == other.query@.len(),
                forall|j: int|
                    0 <= j < i ==> #[trigger] pairs_view(self.query@)[j] == pairs_view(
                        other.query@,
                    )[j],
            decreases self.query@.len() - i,
        {
            if self.query[i].0 != other.query[i].0 || self.query[i].1 != other.query[i].1 {
                assert(pairs_view(self.query@)[i as int] != pairs_view(other.query@)[i as int]);
                return false;
            }
            i = i + 1;
        }
        proof {
            assert(pairs_view(self.query@) =~= pairs_view(other.query@));
        }
        true
    }
}

} // verus!
