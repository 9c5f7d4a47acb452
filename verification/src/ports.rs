//! The list of serial ports offered in the port popup, kept in the order of
//! their names (byte by byte, as strings compare).
use vstd::prelude::*;
use vstd::utf8::encode_utf8;
use crate::app::AppState;

verus! {

broadcast use vstd::seq_lib::group_to_multiset_ensures;

/// Byte-by-byte order: `a` comes no later than `b` (a prefix comes first).
pub open spec fn bytes_le(a: Seq<u8>, b: Seq<u8>) -> bool
    decreases a.len(),
{
    if a.len() == 0 {
        true
    } else if b.len() == 0 {
        false
    } else if a[0] != b[0] {
        a[0] < b[0]
    } else {
        bytes_le(a.drop_first(), b.drop_first())
    }
}

/// The order of two names: that of their UTF-8 bytes.
pub open spec fn name_le(a: Seq<char>, b: Seq<char>) -> bool {
    bytes_le(encode_utf8(a), encode_utf8(b))
}

/// The names are in order.
pub open spec fn names_sorted(s: Seq<Seq<char>>) -> bool {
    forall|i: int, j: int| 0 <= i < j < s.len() ==> name_le(#[trigger] s[i], #[trigger] s[j])
}

/// The contents of a list of strings.
pub open spec fn views(v: Seq<String>) -> Seq<Seq<char>> {
    v.map_values(|s: String| s@)
}

/// Of two byte strings, one comes no later than the other.
pub proof fn lemma_bytes_le_total(a: Seq<u8>, b: Seq<u8>)
    ensures
        bytes_le(a, b) || bytes_le(b, a),
    decreases a.len(),
{
    if a.len() > 0 && b.len() > 0 && a[0] == b[0] {
        lemma_bytes_le_total(a.drop_first(), b.drop_first());
    }
}

/// Byte order is transitive.
pub proof fn lemma_bytes_le_trans(a: Seq<u8>, b: Seq<u8>, c: Seq<u8>)
    requires
        bytes_le(a, b),
        bytes_le(b, c),
    ensures
        bytes_le(a, c),
    decreases a.len(),
{
    if a.len() > 0 && b.len() > 0 && c.len() > 0 && a[0] == b[0] && b[0] == c[0] {
        lemma_bytes_le_trans(a.drop_first(), b.drop_first(), c.drop_first());
    }
}

/// Whether `a` comes no later than `b` in byte order.
fn bytes_no_later(a: &[u8], b: &[u8]) -> (r: bool)
    ensures
        r == bytes_le(a@, b@),
{
    let mut i: usize = 0;
    assert(a@.skip(0) =~= a@);
    assert(b@.skip(0) =~= b@);
    while i < a.len() && i < b.len()
        invariant
            i <= a@.len(),
            i <= b@.len(),
            bytes_le(a@, b@) == bytes_le(a@.skip(i as int), b@.skip(i as int)),
        decreases a.len() - i,
    {
        if a[i] != b[i] {
            assert(a@.skip(i as int)[0] == a@[i as int]);
            assert(b@.skip(i as int)[0] == b@[i as int]);
            return a[i] < b[i];
        }
        assert(a@.skip(i as int).drop_first() =~= a@.skip(i + 1));
        assert(b@.skip(i as int).drop_first() =~= b@.skip(i + 1));
        i += 1;
    }
    assert(a@.skip(i as int).len() == a@.len() - i);
    assert(b@.skip(i as int).len() == b@.len() - i);
    i == a.len()
}

/// Where `x` goes in the sorted list `r`: after every name no later than
/// it, before the rest.
fn insertion_point(r: &Vec<String>, x: &String) -> (p: usize)
    requires
        names_sorted(views(r@)),
    ensures
        p <= r@.len(),
        forall|k: int| 0 <= k < p ==> name_le(#[trigger] r@[k]@, x@),
        forall|k: int| p <= k < r@.len() ==> name_le(x@, #[trigger] r@[k]@),
{
    let xb = x.as_str().as_bytes();
    let mut p: usize = 0;
    while p < r.len()
        invariant
            p <= r@.len(),
            xb@ == encode_utf8(x@),
            names_sorted(views(r@)),
            forall|k: int| 0 <= k < p ==> name_le(#[trigger] r@[k]@, x@),
        decreases r.len() - p,
    {
        if !bytes_no_later(r[p].as_str().as_bytes(), xb) {
            proof {
                lemma_bytes_le_total(encode_utf8(r@[p as int]@), encode_utf8(x@));
                assert forall|k: int| p <= k < r@.len() implies name_le(x@, #[trigger] r@[k]@) by {
                    if k > p {
                        assert(views(r@)[p as int] == r@[p as int]@);
                        assert(views(r@)[k] == r@[k]@);
                        lemma_bytes_le_trans(
                            encode_utf8(x@),
                            encode_utf8(r@[p as int]@),
                            encode_utf8(r@[k]@),
                        );
                    }
                }
            }
            return p;
        }
        p += 1;
    }
    p
}

/// `names` in byte order of their text: the same names, each as often.
pub fn sorted_names(names: &Vec<String>) -> (r: Vec<String>)
    ensures
        names_sorted(views(r@)),
        views(r@).to_multiset() == views(names@).to_multiset(),
{
    let mut r: Vec<String> = Vec::new();
    let mut i: usize = 0;
    while i < names.len()
        invariant
            i <= names@.len(),
            names_sorted(views(r@)),
            views(r@).to_multiset() == views(names@).take(i as int).to_multiset(),
        decreases names.len() - i,
    {
        let x = names[i].clone();
        let p = insertion_point(&r, &x);
        let ghost before = r@;
        r.insert(p, x);
        proof {
            assert(views(r@) =~= views(before).insert(p as int, x@));
            vstd::seq_lib::to_multiset_insert(views(before), p as int, x@);
            assert(views(names@).take(i + 1) =~= views(names@).take(i as int).push(x@));
            assert forall|a: int, b: int| 0 <= a < b < views(r@).len() implies name_le(
                #[trigger] views(r@)[a],
                #[trigger] views(r@)[b],
            ) by {
                let vb = views(before);
                if b < p {
                    assert(views(r@)[a] == vb[a] && views(r@)[b] == vb[b]);
                } else if b == p {
                    assert(views(r@)[a] == before[a]@);
                } else if a == p {
                    assert(views(r@)[b] == before[b - 1]@);
                } else if a < p {
                    assert(views(r@)[a] == vb[a] && views(r@)[b] == vb[b - 1]);
                } else {
                    assert(views(r@)[a] == vb[a - 1] && views(r@)[b] == vb[b - 1]);
                }
            }
        }
        i += 1;
    }
    assert(views(names@).take(names@.len() as int) =~= views(names@));
    r
}

impl AppState {
    /// Takes the names of the ports found, in byte order of their text.
    pub fn set_available_ports(&mut self, names: Vec<String>)
        ensures
            names_sorted(views(final(self).available_ports@)),
            views(final(self).available_ports@).to_multiset() == views(names@).to_multiset(),
            *final(self) == (AppState { available_ports: final(self).available_ports, ..*old(self) }),
    {
        self.available_ports = sorted_names(&names);
    }
}

} // verus!
