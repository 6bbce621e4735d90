use vstd::prelude::*;
use vstd::string::{StrSliceExecFns, StringExecFns};

verus! {

/// The parts joined with the separator between consecutive parts.
pub open spec fn spec_join(parts: Seq<Seq<char>>, sep: Seq<char>) -> Seq<char>
    decreases parts.len(),
{
    if parts.len() == 0 {
        Seq::empty()
    } else if parts.len() == 1 {
        parts[0]
    } else {
        spec_join(parts.drop_last(), sep) + sep + parts.last()
    }
}

/// The needle occurs somewhere in the haystack as a contiguous run.
pub open spec fn spec_str_contains(h: Seq<char>, n: Seq<char>) -> bool {
    exists|k: int| 0 <= k <= h.len() - n.len() && #[trigger] h.subrange(k, k + n.len()) == n
}

/// Whether the needle stands in the haystack at offset `k`.
fn match_at(h: &str, n: &str, k: usize, hl: usize, nl: usize) -> (r: bool)
    requires
        hl == h@.len(),
        nl == n@.len(),
        k + nl <= hl,
    ensures
        r == (h@.subrange(k as int, k + n@.len()) == n@),
{
    let mut j: usize = 0;
    while j < nl
        invariant
            hl == h@.len(),
            nl == n@.len(),
            k + nl <= hl,
            j <= nl,
            forall|jj: int| 0 <= jj < j ==> h@[k + jj] == n@[jj],
        decreases nl - j,
    {
        if h.get_char(k + j) != n.get_char(j) {
            proof {
                assert(h@.subrange(k as int, k + n@.len())[j as int] != n@[j as int]);
            }
            return false;
        }
        j = j + 1;
    }
    proof {
        assert(h@.subrange(k as int, k + n@.len()) =~= n@);
    }
    true
}

/// The first offset at which the needle occurs in the haystack.
pub fn str_find(h: &str, n: &str) -> (r: Option<usize>)
    ensures
        match r {
            Some(k) => {
                &&& k + n@.len() <= h@.len()
                &&& h@.subrange(k as int, k + n@.len()) == n@
                &&& forall|kk: int| 0 <= kk < k ==> #[trigger] h@.subrange(kk, kk + n@.len()) != n@
            },
            None => !spec_str_contains(h@, n@),
        },
{
    let hl = h.unicode_len();
    let nl = n.unicode_len();
    if nl > hl {
        return None;
    }
    if nl == 0 {
        proof {
            assert(h@.subrange(0, 0 + n@.len() as int) =~= n@);
        }
        return Some(0);
    }
    let mut k: usize = 0;
    while k <= hl - nl
        invariant
            hl == h@.len(),
            nl == n@.len(),
            0 < nl <= hl,
            k <= hl - nl + 1,
            forall|kk: int| 0 <= kk < k ==> #[trigger] h@.subrange(kk, kk + n@.len()) != n@,
        decreases hl - k,
    {
        if match_at(h, n, k, hl, nl) {
            return Some(k);
        }
        k = k + 1;
    }
    None
}

/// Whether the needle occurs in the haystack.
pub fn str_contains(h: &str, n: &str) -> (r: bool)
    ensures
        r == spec_str_contains(h@, n@),
{
    match str_find(h, n) {
        Some(k) => {
            proof {
                assert(h@.subrange(k as int, k + n@.len()) == n@);
            }
            true
        },
        None => false,
    }
}

/// The token `t` is the space-free run that starts at `start`, cut at the
/// next space or at the end of the text.
pub open spec fn spec_token_at(msg: Seq<char>, start: int, t: Seq<char>) -> bool {
    exists|e: int|
        {
            &&& start <= e <= msg.len()
            &&& t == #[trigger] msg.subrange(start, e)
            &&& (forall|j: int| start <= j < e ==> msg[j] != ' ')
            &&& (e < msg.len() ==> msg[e] == ' ')
        }
}

/// The token `t` stands immediately after the first occurrence of the marker
/// in the message and runs to the next space.
pub open spec fn spec_token_after(msg: Seq<char>, marker: Seq<char>, t: Seq<char>) -> bool {
    exists|k: int|
        {
            &&& 0 <= k
            &&& k + marker.len() <= msg.len()
            &&& #[trigger] msg.subrange(k, k + marker.len()) == marker
            &&& (forall|kk: int|
                0 <= kk < k ==> #[trigger] msg.subrange(kk, kk + marker.len()) != marker)
            &&& spec_token_at(msg, k + marker.len(), t)
        }
}

fn find_space_from(msg: &str, start: usize, len: usize) -> (e: usize)
    requires
        len == msg@.len(),
        start <= len,
    ensures
        start <= e <= len,
        forall|j: int| start <= j < e ==> msg@[j] != ' ',
        e < len ==> msg@[e as int] == ' ',
{
    let mut e = start;
    while e < len
        invariant
            start <= e <= len,
            len == msg@.len(),
            forall|j: int| start <= j < e ==> msg@[j] != ' ',
        decreases len - e,
    {
        if msg.get_char(e) == ' ' {
            return e;
        }
        e = e + 1;
    }
    e
}

/// The text that follows the first occurrence of the marker, cut at the next
/// space; used to pull a raw column name out of a backend message.
pub fn token_after<'a>(msg: &'a str, marker: &str) -> (r: Option<&'a str>)
    ensures
        match r {
            Some(t) => spec_token_after(msg@, marker@, t@),
            None => !spec_str_contains(msg@, marker@),
        },
{
    match str_find(msg, marker) {
        Some(k) => {
            let ml = marker.unicode_len();
            let len = msg.unicode_len();
            let start = k + ml;
            let e = find_space_from(msg, start, len);
            let t = msg.substring_char(start, e);
            proof {
                assert(spec_token_at(msg@, start as int, t@));
            }
            Some(t)
        },
        None => None,
    }
}

/// Whether two pieces of text hold the same characters.
pub fn str_eq(a: &str, b: &str) -> (r: bool)
    ensures
        r == (a@ == b@),
{
    let al = a.unicode_len();
    let bl = b.unicode_len();
    if al != bl {
        return false;
    }
    let mut j: usize = 0;
    while j < al
        invariant
            al == a@.len(),
            al == b@.len(),
            j <= al,
            forall|jj: int| 0 <= jj < j ==> a@[jj] == b@[jj],
        decreases al - j,
    {
        if a.get_char(j) != b.get_char(j) {
            proof {
                assert(a@[j as int] != b@[j as int]);
            }
            return false;
        }
        j = j + 1;
    }
    proof {
        assert(a@ =~= b@);
    }
    true
}

/// The token after a marker is uniquely determined: the first occurrence is
/// one offset, and the space-free run from it has one end.
pub proof fn lemma_token_after_unique(
    msg: Seq<char>,
    marker: Seq<char>,
    t1: Seq<char>,
    t2: Seq<char>,
)
    requires
        spec_token_after(msg, marker, t1),
        spec_token_after(msg, marker, t2),
    ensures
        t1 == t2,
{
    let k1 = choose|k: int|
        {
            &&& 0 <= k
            &&& k + marker.len() <= msg.len()
            &&& #[trigger] msg.subrange(k, k + marker.len()) == marker
            &&& (forall|kk: int|
                0 <= kk < k ==> #[trigger] msg.subrange(kk, kk + marker.len()) != marker)
            &&& spec_token_at(msg, k + marker.len(), t1)
        };
    let k2 = choose|k: int|
        {
            &&& 0 <= k
            &&& k + marker.len() <= msg.len()
            &&& #[trigger] msg.subrange(k, k + marker.len()) == marker
            &&& (forall|kk: int|
                0 <= kk < k ==> #[trigger] msg.subrange(kk, kk + marker.len()) != marker)
            &&& spec_token_at(msg, k + marker.len(), t2)
        };
    assert(k1 == k2) by {
        if k1 < k2 {
            assert(msg.subrange(k1, k1 + marker.len()) != marker);
        } else if k2 < k1 {
            assert(msg.subrange(k2, k2 + marker.len()) != marker);
        }
    }
    let start = k1 + marker.len();
    let e1 = choose|e: int|
        {
            &&& start <= e <= msg.len()
            &&& t1 == #[trigger] msg.subrange(start, e)
            &&& (forall|j: int| start <= j < e ==> msg[j] != ' ')
            &&& (e < msg.len() ==> msg[e] == ' ')
        };
    let e2 = choose|e: int|
        {
            &&& start <= e <= msg.len()
            &&& t2 == #[trigger] msg.subrange(start, e)
            &&& (forall|j: int| start <= j < e ==> msg[j] != ' ')
            &&& (e < msg.len() ==> msg[e] == ' ')
        };
    assert(e1 == e2) by {
        if e1 < e2 {
            assert(msg[e1] == ' ');
            assert(msg[e1] != ' ');
        } else if e2 < e1 {
            assert(msg[e2] == ' ');
            assert(msg[e2] != ' ');
        }
    }
}

/// Appends every part in order, the separator between consecutive parts.
pub fn join_into(out: &mut String, parts: &Vec<&'static str>, sep: &str)
    ensures
        final(out)@ == old(out)@ + spec_join(parts.deep_view(), sep@),
{
    let ghost base = out@;
    let mut i: usize = 0;
    while i < parts.len()
        invariant
            i <= parts@.len(),
            out@ == base + spec_join(parts.deep_view().take(i as int), sep@),
        decreases parts@.len() - i,
    {
        if i > 0 {
            out.append(sep);
        }
        out.append(parts[i]);
        proof {
            let pv = parts.deep_view();
            assert(pv.take(i + 1).drop_last() =~= pv.take(i as int));
            assert(pv.take(i + 1).last() == pv[i as int]);
            if i == 0 {
                assert(spec_join(pv.take(1), sep@) == pv[0]);
            }
        }
        i = i + 1;
    }
    proof {
        assert(parts.deep_view().take(parts.deep_view().len() as int) =~= parts.deep_view());
    }
}

} // verus!
