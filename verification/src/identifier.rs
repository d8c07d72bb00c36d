//! The resource identifier parser.
//!
//! A resource identifier is a hierarchical path. Trimmed of leading and
//! trailing separators and split on the separator, it must have at least
//! eight segments; positions 1, 3, 5, 6 and 7 name the subscription, the
//! resource group, the provider type, the resource type and the resource.
//! A path of any other shape is rejected with a typed error naming the
//! offending path, never by a crash.

use vstd::prelude::*;

verus! {

/// The structured fields of a resource identifier.
#[derive(Debug)]
pub struct ResourceDetails {
    pub subscription_id: String,
    pub resource_group_name: String,
    pub provider_type: String,
    pub resource_type: String,
    pub name: String,
}

/// A malformed resource identifier: too few segments once trimmed and
/// split. Carries the offending path.
#[derive(Debug)]
pub struct IdentifierParseError {
    pub path: String,
}

impl IdentifierParseError {
    /// A human-readable description of the failure.
    pub fn message(&self) -> (r: String)
        ensures
            r@ == "malformed resource identifier: "@ + self.path@,
    {
        let mut s = String::from_str("malformed resource identifier: ");
        s.append(self.path.as_str());
        s
    }
}

/// The sequence without its leading separators.
pub open spec fn trim_leading(s: Seq<char>) -> Seq<char>
    decreases s.len(),
{
    if s.len() > 0 && s[0] == '/' {
        trim_leading(s.drop_first())
    } else {
        s
    }
}

/// The sequence without its trailing separators.
pub open spec fn trim_trailing(s: Seq<char>) -> Seq<char>
    decreases s.len(),
{
    if s.len() > 0 && s.last() == '/' {
        trim_trailing(s.drop_last())
    } else {
        s
    }
}

/// The sequence without leading and trailing separators.
pub open spec fn trimmed(s: Seq<char>) -> Seq<char> {
    trim_trailing(trim_leading(s))
}

/// The segments of the sequence, split on the separator. Splitting the
/// empty sequence yields one empty segment, as string splitting does.
pub open spec fn split_slashes(s: Seq<char>) -> Seq<Seq<char>>
    decreases s.len(),
{
    if s.len() == 0 {
        seq![Seq::<char>::empty()]
    } else if s[0] == '/' {
        seq![Seq::<char>::empty()] + split_slashes(s.drop_first())
    } else {
        let rest = split_slashes(s.drop_first());
        seq![seq![s[0]] + rest[0]] + rest.drop_first()
    }
}

/// Splitting always yields at least one segment.
pub proof fn lemma_split_nonempty(s: Seq<char>)
    ensures
        split_slashes(s).len() >= 1,
    decreases s.len(),
{
    if s.len() == 0 {
    } else {
        lemma_split_nonempty(s.drop_first());
    }
}

/// Below the first non-separator, trimming is skipping.
proof fn lemma_trim_leading_skip(s: Seq<char>, lo: int)
    requires
        0 <= lo <= s.len(),
        forall|j: int| 0 <= j < lo ==> s[j] == '/',
        lo < s.len() ==> s[lo] != '/',
    ensures
        trim_leading(s) == s.skip(lo),
    decreases s.len(),
{
    if lo == 0 {
        assert(s.skip(0) =~= s);
    } else {
        assert(s[0] == '/');
        let d = s.drop_first();
        assert forall|j: int| 0 <= j < lo - 1 implies d[j] == '/' by {
            assert(d[j] == s[j + 1]);
        }
        assert(lo - 1 < d.len() ==> d[lo - 1] == s[lo]);
        lemma_trim_leading_skip(d, lo - 1);
        assert(d.skip(lo - 1) =~= s.skip(lo));
    }
}

/// Above the last non-separator, trimming is taking.
proof fn lemma_trim_trailing_take(s: Seq<char>, hi: int)
    requires
        0 <= hi <= s.len(),
        forall|j: int| hi <= j < s.len() ==> s[j] == '/',
        hi > 0 ==> s[hi - 1] != '/',
    ensures
        trim_trailing(s) == s.take(hi),
    decreases s.len(),
{
    if hi == s.len() {
        if s.len() > 0 {
            assert(s.last() == s[hi - 1]);
        }
        assert(s.take(hi) =~= s);
    } else {
        assert(s.last() == '/');
        let d = s.drop_last();
        assert forall|j: int| hi <= j < d.len() implies d[j] == '/' by {
            assert(d[j] == s[j]);
        }
        assert(hi > 0 ==> d[hi - 1] == s[hi - 1]);
        lemma_trim_trailing_take(d, hi);
        assert(d.take(hi) =~= s.take(hi));
    }
}

/// Parses a resource identifier: trims the separators, splits on them,
/// and reads the documented positions. Succeeds exactly on paths with at
/// least eight segments; any other shape is the typed error, carrying
/// the path itself.
#[verifier::loop_isolation(false)]
pub fn get_resource_details_from_resource_id(id: &str) -> (r: Result<
    ResourceDetails,
    IdentifierParseError,
>)
    ensures
        ({
            let parts = split_slashes(trimmed(id@));
            match r {
                Ok(d) => {
                    &&& parts.len() >= 8
                    &&& d.subscription_id@ == parts[1]
                    &&& d.resource_group_name@ == parts[3]
                    &&& d.provider_type@ == parts[5]
                    &&& d.resource_type@ == parts[6]
                    &&& d.name@ == parts[7]
                },
                Err(e) => parts.len() < 8 && e.path@ == id@,
            }
        }),
{
    let n = id.unicode_len();
    let mut lo: usize = 0;
    while lo < n && id.get_char(lo) == '/'
        invariant
            lo <= n,
            forall|j: int| 0 <= j < lo ==> id@[j] == '/',
        decreases n - lo,
    {
        lo = lo + 1;
    }
    proof {
        lemma_trim_leading_skip(id@, lo as int);
    }
    if lo == n {
        proof {
            assert(id@.skip(n as int) =~= Seq::<char>::empty());
            assert(trimmed(id@) =~= Seq::<char>::empty());
            assert(split_slashes(trimmed(id@)).len() == 1);
        }
        return Err(IdentifierParseError { path: id.to_owned() });
    }
    let mut hi: usize = n;
    while hi > lo && id.get_char(hi - 1) == '/'
        invariant
            lo <= hi <= n,
            forall|j: int| hi <= j < n ==> id@[j] == '/',
        decreases hi,
    {
        hi = hi - 1;
    }
    assert(id@[lo as int] != '/');
    assert(hi > lo);
    assert(id@[hi - 1] != '/');
    proof {
        let u = id@.skip(lo as int);
        assert forall|j: int| hi - lo <= j < u.len() implies u[j] == '/' by {
            assert(u[j] == id@[j + lo]);
        }
        assert(u[hi - lo - 1] == id@[hi - 1]);
        lemma_trim_trailing_take(u, hi - lo);
        assert(u.take(hi - lo) =~= id@.subrange(lo as int, hi as int));
    }
    let t = id.substring_char(lo, hi);
    assert(t@ == trimmed(id@));
    let m = t.unicode_len();
    let mut parts: Vec<String> = Vec::new();
    let mut seg_start: usize = 0;
    let mut i: usize = 0;
    proof {
        lemma_split_nonempty(t@.skip(0));
    }
    while i < m
        invariant
            seg_start <= i <= m,
            m == t@.len(),
            forall|j: int| seg_start <= j < i ==> t@[j] != '/',
            split_slashes(t@.skip(0)) =~= parts.deep_view() + seq![
                t@.subrange(seg_start as int, i as int) + split_slashes(t@.skip(i as int))[0],
            ] + split_slashes(t@.skip(i as int)).drop_first(),
            split_slashes(t@.skip(i as int)).len() >= 1,
        decreases m - i,
    {
        let ghost fi = split_slashes(t@.skip(i as int));
        proof {
            lemma_split_nonempty(t@.skip(i as int + 1));
            assert(t@.skip(i as int)[0] == t@[i as int]);
            assert(t@.skip(i as int).drop_first() =~= t@.skip(i as int + 1));
        }
        let ghost fi1 = split_slashes(t@.skip(i as int + 1));
        let c = t.get_char(i);
        if c == '/' {
            assert(fi =~= seq![Seq::<char>::empty()] + fi1);
            let seg = t.substring_char(seg_start, i);
            parts.push(seg.to_owned());
            proof {
                assert(t@.subrange(seg_start as int, i as int) + fi[0] =~= t@.subrange(
                    seg_start as int,
                    i as int,
                ));
                assert(fi.drop_first() =~= fi1);
                assert(t@.subrange(i as int + 1, i as int + 1) =~= Seq::<char>::empty());
                assert(t@.subrange(i as int + 1, i as int + 1) + fi1[0] =~= fi1[0]);
                assert(parts.deep_view() + seq![t@.subrange(i as int + 1, i as int + 1) + fi1[0]]
                    + fi1.drop_first() =~= split_slashes(t@.skip(0)));
            }
            seg_start = i + 1;
        } else {
            proof {
                assert(fi =~= seq![seq![t@[i as int]] + fi1[0]] + fi1.drop_first());
                assert(t@.subrange(seg_start as int, i as int) + fi[0] =~= t@.subrange(
                    seg_start as int,
                    i as int + 1,
                ) + fi1[0]);
                assert(fi.drop_first() =~= fi1.drop_first());
                assert(parts.deep_view() + seq![t@.subrange(seg_start as int, i as int + 1)
                    + fi1[0]] + fi1.drop_first() =~= split_slashes(t@.skip(0)));
            }
        }
        i = i + 1;
    }
    let seg = t.substring_char(seg_start, m);
    parts.push(seg.to_owned());
    proof {
        assert(t@.skip(m as int) =~= Seq::<char>::empty());
        assert(split_slashes(t@.skip(m as int)) =~= seq![Seq::<char>::empty()]);
        assert(t@.subrange(seg_start as int, m as int) + Seq::<char>::empty() =~= t@.subrange(
            seg_start as int,
            m as int,
        ));
        assert(t@.skip(0) =~= t@);
        assert(parts.deep_view() =~= split_slashes(t@));
    }
    if parts.len() < 8 {
        return Err(IdentifierParseError { path: id.to_owned() });
    }
    assert(parts.deep_view()[1] == parts@[1]@);
    Ok(
        ResourceDetails {
            subscription_id: parts[1].clone(),
            resource_group_name: parts[3].clone(),
            provider_type: parts[5].clone(),
            resource_type: parts[6].clone(),
            name: parts[7].clone(),
        },
    )
}

} // verus!
