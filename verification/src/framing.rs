//! Cutting received bytes into lines according to the receive newline mode.
use vstd::prelude::*;
use crate::app::NewlineMode;

verus! {

/// The contents of a vector of byte vectors.
pub open spec fn lines_of(v: Seq<Vec<u8>>) -> Seq<Seq<u8>> {
    v.map_values(|l: Vec<u8>| l@)
}

/// Lines of `data[i..]` cut at every `sep` byte, `cur` being the part of the
/// current line already read.  A line is emitted at each separator; what
/// follows the last separator is emitted only if it is not empty.
pub open spec fn byte_lines_from(data: Seq<u8>, sep: u8, i: int, cur: Seq<u8>) -> Seq<Seq<u8>>
    decreases data.len() - i,
{
    if i < 0 || i >= data.len() {
        if cur.len() == 0 {
            Seq::empty()
        } else {
            seq![cur]
        }
    } else if data[i] == sep {
        seq![cur] + byte_lines_from(data, sep, i + 1, Seq::empty())
    } else {
        byte_lines_from(data, sep, i + 1, cur.push(data[i]))
    }
}

/// Lines of `data[i..]` cut at every occurrence of `sep`, scanning left to
/// right and skipping each occurrence found.
pub open spec fn seq_lines_from(data: Seq<u8>, sep: Seq<u8>, i: int, cur: Seq<u8>) -> Seq<Seq<u8>>
    decreases data.len() - i,
{
    if i < 0 || i >= data.len() || sep.len() == 0 {
        if cur.len() == 0 {
            Seq::empty()
        } else {
            seq![cur]
        }
    } else if i + sep.len() <= data.len() && data.subrange(i, i + sep.len()) == sep {
        seq![cur] + seq_lines_from(data, sep, i + sep.len(), Seq::empty())
    } else {
        seq_lines_from(data, sep, i + 1, cur.push(data[i]))
    }
}

/// Lines of `data[i..]` ended by CR LF, by a lone CR or by a lone LF.
pub open spec fn auto_lines_from(data: Seq<u8>, i: int, cur: Seq<u8>) -> Seq<Seq<u8>>
    decreases data.len() - i,
{
    if i < 0 || i >= data.len() {
        if cur.len() == 0 {
            Seq::empty()
        } else {
            seq![cur]
        }
    } else if data[i] == 0x0d {
        if i + 1 < data.len() && data[i + 1] == 0x0a {
            seq![cur] + auto_lines_from(data, i + 2, Seq::empty())
        } else {
            seq![cur] + auto_lines_from(data, i + 1, Seq::empty())
        }
    } else if data[i] == 0x0a {
        seq![cur] + auto_lines_from(data, i + 1, Seq::empty())
    } else {
        auto_lines_from(data, i + 1, cur.push(data[i]))
    }
}

/// The lines of `data` under each receive newline mode.
pub open spec fn rx_lines(data: Seq<u8>, mode: NewlineMode) -> Seq<Seq<u8>> {
    match mode {
        NewlineMode::Auto => auto_lines_from(data, 0, Seq::empty()),
        NewlineMode::CrLf => seq_lines_from(data, seq![0x0du8, 0x0au8], 0, Seq::empty()),
        NewlineMode::Lf => byte_lines_from(data, 0x0a, 0, Seq::empty()),
        NewlineMode::Cr => byte_lines_from(data, 0x0d, 0, Seq::empty()),
        NewlineMode::None_ => seq![data],
    }
}

proof fn lemma_lines_of_push(v: Seq<Vec<u8>>, l: Vec<u8>)
    ensures
        lines_of(v.push(l)) == lines_of(v) + seq![l@],
{
    assert(lines_of(v.push(l)) =~= lines_of(v) + seq![l@]);
}

/// Cuts `data` at every `sep` byte (see `byte_lines_from`).
pub fn split_by_byte(data: &[u8], sep: u8) -> (lines: Vec<Vec<u8>>)
    ensures
        lines_of(lines@) == byte_lines_from(data@, sep, 0, Seq::empty()),
{
    let mut lines: Vec<Vec<u8>> = Vec::new();
    let mut current: Vec<u8> = Vec::new();
    let mut i: usize = 0;
    while i < data.len()
        invariant
            i <= data@.len(),
            byte_lines_from(data@, sep, 0, Seq::empty()) == lines_of(lines@) + byte_lines_from(
                data@,
                sep,
                i as int,
                current@,
            ),
        decreases data.len() - i,
    {
        let b = data[i];
        if b == sep {
            proof {
                lemma_lines_of_push(lines@, current);
            }
            lines.push(current);
            current = Vec::new();
            proof {
                assert(current@ =~= Seq::<u8>::empty());
            }
        } else {
            current.push(b);
        }
        i += 1;
    }
    if current.len() > 0 {
        proof {
            lemma_lines_of_push(lines@, current);
        }
        lines.push(current);
    } else {
        assert(lines_of(lines@) + Seq::<Seq<u8>>::empty() =~= lines_of(lines@));
    }
    lines
}

/// Whether `sep` occurs in `data` at position `i`.
fn occurs_at(data: &[u8], i: usize, sep: &[u8]) -> (r: bool)
    requires
        i <= data@.len(),
    ensures
        r == (i + sep@.len() <= data@.len() && data@.subrange(i as int, i + sep@.len()) == sep@),
{
    if sep.len() > data.len() - i {
        return false;
    }
    let n = data.len();
    let mut k: usize = 0;
    while k < sep.len()
        invariant
            n == data@.len(),
            i + sep@.len() <= data@.len(),
            k <= sep@.len(),
            forall|j: int| 0 <= j < k ==> data@[i + j] == sep@[j],
        decreases sep.len() - k,
    {
        if data[i + k] != sep[k] {
            assert(data@.subrange(i as int, i + sep@.len())[k as int] != sep@[k as int]);
            return false;
        }
        k += 1;
    }
    assert(data@.subrange(i as int, i + sep@.len()) =~= sep@);
    true
}

/// Cuts `data` at every occurrence of the separator `sep` (see
/// `seq_lines_from`).  The separator must not be empty.
pub fn split_by(data: &[u8], sep: &[u8]) -> (lines: Vec<Vec<u8>>)
    requires
        sep@.len() > 0,
    ensures
        lines_of(lines@) == seq_lines_from(data@, sep@, 0, Seq::empty()),
{
    let mut lines: Vec<Vec<u8>> = Vec::new();
    let mut current: Vec<u8> = Vec::new();
    let mut i: usize = 0;
    while i < data.len()
        invariant
            i <= data@.len(),
            sep@.len() > 0,
            seq_lines_from(data@, sep@, 0, Seq::empty()) == lines_of(lines@) + seq_lines_from(
                data@,
                sep@,
                i as int,
                current@,
            ),
        decreases data.len() - i,
    {
        if occurs_at(data, i, sep) {
            proof {
                lemma_lines_of_push(lines@, current);
            }
            lines.push(current);
            current = Vec::new();
            proof {
                assert(current@ =~= Seq::<u8>::empty());
            }
            i += sep.len();
        } else {
            current.push(data[i]);
            i += 1;
        }
    }
    if current.len() > 0 {
        proof {
            lemma_lines_of_push(lines@, current);
        }
        lines.push(current);
    } else {
        assert(lines_of(lines@) + Seq::<Seq<u8>>::empty() =~= lines_of(lines@));
    }
    lines
}

/// Cuts `data` at CR LF, lone CR and lone LF (see `auto_lines_from`).
pub fn split_auto(data: &[u8]) -> (lines: Vec<Vec<u8>>)
    ensures
        lines_of(lines@) == auto_lines_from(data@, 0, Seq::empty()),
{
    let mut lines: Vec<Vec<u8>> = Vec::new();
    let mut current: Vec<u8> = Vec::new();
    let mut i: usize = 0;
    while i < data.len()
        invariant
            i <= data@.len(),
            auto_lines_from(data@, 0, Seq::empty()) == lines_of(lines@) + auto_lines_from(
                data@,
                i as int,
                current@,
            ),
        decreases data.len() - i,
    {
        if data[i] == 0x0d {
            proof {
                lemma_lines_of_push(lines@, current);
            }
            lines.push(current);
            current = Vec::new();
            proof {
                assert(current@ =~= Seq::<u8>::empty());
            }
            if i + 1 < data.len() && data[i + 1] == 0x0a {
                i += 2;
            } else {
                i += 1;
            }
        } else if data[i] == 0x0a {
            proof {
                lemma_lines_of_push(lines@, current);
            }
            lines.push(current);
            current = Vec::new();
            proof {
                assert(current@ =~= Seq::<u8>::empty());
            }
            i += 1;
        } else {
            current.push(data[i]);
            i += 1;
        }
    }
    if current.len() > 0 {
        proof {
            lemma_lines_of_push(lines@, current);
        }
        lines.push(current);
    } else {
        assert(lines_of(lines@) + Seq::<Seq<u8>>::empty() =~= lines_of(lines@));
    }
    lines
}

/// Cuts received bytes into lines as the receive newline mode says: `None_`
/// keeps the data as one line.
pub fn split_rx_data(data: &[u8], mode: &NewlineMode) -> (lines: Vec<Vec<u8>>)
    ensures
        lines_of(lines@) == rx_lines(data@, *mode),
{
    match mode {
        NewlineMode::Auto => split_auto(data),
        NewlineMode::CrLf => {
            let sep: [u8; 2] = [0x0d, 0x0a];
            let lines = split_by(data, &sep);
            assert(sep@ =~= seq![0x0du8, 0x0au8]);
            lines
        },
        NewlineMode::Lf => split_by_byte(data, 0x0a),
        NewlineMode::Cr => split_by_byte(data, 0x0d),
        NewlineMode::None_ => {
            let mut lines: Vec<Vec<u8>> = Vec::new();
            let mut all: Vec<u8> = Vec::new();
            let mut i: usize = 0;
            while i < data.len()
                invariant
                    i <= data@.len(),
                    all@ == data@.take(i as int),
                decreases data.len() - i,
            {
                all.push(data[i]);
                i += 1;
                proof {
                    assert(all@ =~= data@.take(i as int));
                }
            }
            assert(all@ =~= data@);
            lines.push(all);
            assert(lines_of(lines@) =~= seq![data@]);
            lines
        },
    }
}

/// Each line followed by the separator, all run together.
pub open spec fn terminated(lines: Seq<Seq<u8>>, sep: Seq<u8>) -> Seq<u8>
    decreases lines.len(),
{
    if lines.len() == 0 {
        Seq::empty()
    } else {
        terminated(lines.drop_last(), sep) + lines.last() + sep
    }
}

proof fn lemma_terminated_prepend(first: Seq<u8>, rest: Seq<Seq<u8>>, sep: Seq<u8>)
    ensures
        terminated(seq![first] + rest, sep) == first + sep + terminated(rest, sep),
    decreases rest.len(),
{
    if rest.len() == 0 {
        let whole = seq![first] + rest;
        assert(whole.drop_last() =~= Seq::<Seq<u8>>::empty());
        assert(whole.last() == first);
        assert(terminated(whole, sep) == terminated(whole.drop_last(), sep) + first + sep);
        assert(terminated(whole, sep) =~= first + sep + terminated(rest, sep));
    } else {
        lemma_terminated_prepend(first, rest.drop_last(), sep);
        let whole = seq![first] + rest;
        assert(whole.drop_last() =~= seq![first] + rest.drop_last());
        assert(whole.last() == rest.last());
        assert(terminated(whole, sep) == terminated(seq![first] + rest.drop_last(), sep) + rest.last()
            + sep);
        assert(terminated(rest, sep) == terminated(rest.drop_last(), sep) + rest.last() + sep);
        assert(terminated(whole, sep) =~= first + sep + terminated(rest, sep));
    }
}

proof fn lemma_byte_lines_from(data: Seq<u8>, sep: u8, i: int, cur: Seq<u8>)
    requires
        0 <= i <= data.len(),
        forall|j: int| 0 <= j < cur.len() ==> cur[j] != sep,
    ensures
        forall|k: int|
            0 <= k < byte_lines_from(data, sep, i, cur).len() ==> forall|j: int|
                0 <= j < #[trigger] byte_lines_from(data, sep, i, cur)[k].len() ==> byte_lines_from(
                    data,
                    sep,
                    i,
                    cur,
                )[k][j] != sep,
        ({
            let rest = data.subrange(i, data.len() as int);
            let whole = cur + rest;
            terminated(byte_lines_from(data, sep, i, cur), seq![sep]) == if whole.len() == 0
                || whole.last() == sep {
                whole
            } else {
                whole.push(sep)
            }
        }),
    decreases data.len() - i,
{
    let rest = data.subrange(i, data.len() as int);
    let lines = byte_lines_from(data, sep, i, cur);
    if i >= data.len() {
        assert(rest =~= Seq::<u8>::empty());
        assert(cur + rest =~= cur);
        if cur.len() > 0 {
            assert(seq![cur].drop_last() =~= Seq::<Seq<u8>>::empty());
            assert(terminated(seq![cur], seq![sep]) == terminated(Seq::<Seq<u8>>::empty(), seq![sep])
                + cur + seq![sep]);
            assert(terminated(seq![cur], seq![sep]) =~= cur.push(sep));
        }
    } else if data[i] == sep {
        lemma_byte_lines_from(data, sep, i + 1, Seq::empty());
        let tail = byte_lines_from(data, sep, i + 1, Seq::empty());
        lemma_terminated_prepend(cur, tail, seq![sep]);
        let rest2 = data.subrange(i + 1, data.len() as int);
        assert(rest =~= seq![sep] + rest2);
        assert(Seq::<u8>::empty() + rest2 =~= rest2);
        assert forall|k: int| 0 <= k < lines.len() implies forall|j: int|
            0 <= j < #[trigger] lines[k].len() ==> lines[k][j] != sep by {
            if k > 0 {
                assert(lines[k] == tail[k - 1]);
            }
        }
        if rest2.len() == 0 || rest2.last() == sep {
            assert(cur + rest =~= cur + seq![sep] + rest2);
            if rest2.len() > 0 {
                assert((cur + rest).last() == rest2.last());
            }
        } else {
            assert((cur + rest).push(sep) =~= cur + seq![sep] + rest2.push(sep));
            assert((cur + rest).last() == rest2.last());
        }
    } else {
        let cur2 = cur.push(data[i]);
        lemma_byte_lines_from(data, sep, i + 1, cur2);
        let rest2 = data.subrange(i + 1, data.len() as int);
        assert(cur + rest =~= cur2 + rest2);
    }
}

/// Cutting at a separator byte loses nothing and keeps it out of the lines:
/// no line holds the separator, and the lines, each followed by the
/// separator, give back the data exactly, with one separator added at the
/// end when the data did not end with one.
pub proof fn law_byte_lines_reassemble(data: Seq<u8>, sep: u8)
    ensures
        forall|k: int|
            0 <= k < byte_lines_from(data, sep, 0, Seq::empty()).len() ==> forall|j: int|
                0 <= j < #[trigger] byte_lines_from(data, sep, 0, Seq::empty())[k].len()
                    ==> byte_lines_from(data, sep, 0, Seq::empty())[k][j] != sep,
        terminated(byte_lines_from(data, sep, 0, Seq::empty()), seq![sep]) == if data.len() == 0
            || data.last() == sep {
            data
        } else {
            data.push(sep)
        },
{
    lemma_byte_lines_from(data, sep, 0, Seq::empty());
    assert(Seq::<u8>::empty() + data.subrange(0, data.len() as int) =~= data);
}

/// `t` is `whole`, or `whole` with `sep` after it.
spec fn reassembles(t: Seq<u8>, whole: Seq<u8>, sep: Seq<u8>) -> bool {
    t == whole || t == whole + sep
}

proof fn lemma_seq_lines_match_step(data: Seq<u8>, sep: Seq<u8>, i: int, cur: Seq<u8>)
    requires
        0 <= i,
        sep.len() > 0,
        i + sep.len() <= data.len(),
        data.subrange(i, i + sep.len()) == sep,
        reassembles(
            terminated(seq_lines_from(data, sep, i + sep.len(), Seq::empty()), sep),
            Seq::<u8>::empty() + data.subrange(i + sep.len(), data.len() as int),
            sep,
        ),
    ensures
        reassembles(
            terminated(seq_lines_from(data, sep, i, cur), sep),
            cur + data.subrange(i, data.len() as int),
            sep,
        ),
{
    let j = i + sep.len();
    let tail = seq_lines_from(data, sep, j, Seq::empty());
    assert(seq_lines_from(data, sep, i, cur) == seq![cur] + tail);
    lemma_terminated_prepend(cur, tail, sep);
    let rest = data.subrange(i, data.len() as int);
    let rest2 = data.subrange(j, data.len() as int);
    let tt = terminated(tail, sep);
    assert(terminated(seq_lines_from(data, sep, i, cur), sep) == cur + sep + tt);
    assert(Seq::<u8>::empty() + rest2 =~= rest2);
    assert(tt == rest2 || tt == rest2 + sep);
    lemma_concat_split(data, i, j);
    assert(rest == sep + rest2);
    if tt == rest2 {
        assert(cur + sep + tt =~= cur + rest);
    } else {
        assert(cur + sep + tt =~= cur + rest + sep);
    }
}

proof fn lemma_concat_split(data: Seq<u8>, i: int, j: int)
    requires
        0 <= i <= j <= data.len(),
    ensures
        data.subrange(i, data.len() as int) == data.subrange(i, j) + data.subrange(j, data.len() as int),
{
    assert(data.subrange(i, data.len() as int) =~= data.subrange(i, j) + data.subrange(j, data.len() as int));
}

proof fn lemma_seq_lines_from(data: Seq<u8>, sep: Seq<u8>, i: int, cur: Seq<u8>)
    requires
        0 <= i <= data.len(),
        sep.len() > 0,
    ensures
        reassembles(
            terminated(seq_lines_from(data, sep, i, cur), sep),
            cur + data.subrange(i, data.len() as int),
            sep,
        ),
    decreases data.len() - i,
{
    let rest = data.subrange(i, data.len() as int);
    if i >= data.len() {
        assert(rest =~= Seq::<u8>::empty());
        assert(cur + rest =~= cur);
        if cur.len() > 0 {
            assert(seq![cur].drop_last() =~= Seq::<Seq<u8>>::empty());
            assert(terminated(seq![cur], sep) == terminated(Seq::<Seq<u8>>::empty(), sep) + cur + sep);
            assert(terminated(seq![cur], sep) =~= cur + sep);
        }
    } else if i + sep.len() <= data.len() && data.subrange(i, i + sep.len()) == sep {
        lemma_seq_lines_from(data, sep, i + sep.len(), Seq::empty());
        lemma_seq_lines_match_step(data, sep, i, cur);
    } else {
        let cur2 = cur.push(data[i]);
        lemma_seq_lines_from(data, sep, i + 1, cur2);
        let rest2 = data.subrange(i + 1, data.len() as int);
        assert(cur + rest =~= cur2 + rest2);
    }
}

/// Cutting at a separator of several bytes (CR LF) loses nothing: the lines,
/// each followed by the separator, give back the data, with at most one
/// separator added at the end.
pub proof fn law_seq_lines_reassemble(data: Seq<u8>, sep: Seq<u8>)
    requires
        sep.len() > 0,
    ensures
        terminated(seq_lines_from(data, sep, 0, Seq::empty()), sep) == data || terminated(
            seq_lines_from(data, sep, 0, Seq::empty()),
            sep,
        ) == data + sep,
{
    lemma_seq_lines_from(data, sep, 0, Seq::empty());
    assert(Seq::<u8>::empty() + data.subrange(0, data.len() as int) =~= data);
    assert(reassembles(terminated(seq_lines_from(data, sep, 0, Seq::empty()), sep), data, sep));
}

/// No line holds a CR or an LF byte.
pub open spec fn no_line_breaks(xs: Seq<Seq<u8>>) -> bool {
    forall|k: int, j: int|
        0 <= k < xs.len() && 0 <= j < xs[k].len() ==> #[trigger] xs[k][j] != 0x0du8 && xs[k][j]
            != 0x0au8
}

/// The piece `data[i..i + k]` holds no CR or LF byte.
spec fn plain_piece(data: Seq<u8>, i: int, k: int) -> bool {
    forall|j: int| i <= j < i + k ==> #[trigger] data[j] != 0x0du8 && data[j] != 0x0au8
}

proof fn lemma_scan_byte(data: Seq<u8>, sep: u8, i: int, cur: Seq<u8>, k: int)
    requires
        0 <= i,
        0 <= k,
        i + k <= data.len(),
        sep == 0x0du8 || sep == 0x0au8,
        plain_piece(data, i, k),
    ensures
        byte_lines_from(data, sep, i, cur) == byte_lines_from(data, sep, i + k, cur + data.subrange(i, i + k)),
    decreases k,
{
    if k == 0 {
        assert(cur + data.subrange(i, i) =~= cur);
    } else {
        lemma_scan_byte(data, sep, i + 1, cur.push(data[i]), k - 1);
        assert(cur.push(data[i]) + data.subrange(i + 1, i + k) =~= cur + data.subrange(i, i + k));
    }
}

proof fn lemma_scan_crlf(data: Seq<u8>, i: int, cur: Seq<u8>, k: int)
    requires
        0 <= i,
        0 <= k,
        i + k <= data.len(),
        plain_piece(data, i, k),
    ensures
        seq_lines_from(data, seq![0x0du8, 0x0au8], i, cur) == seq_lines_from(
            data,
            seq![0x0du8, 0x0au8],
            i + k,
            cur + data.subrange(i, i + k),
        ),
    decreases k,
{
    if k == 0 {
        assert(cur + data.subrange(i, i) =~= cur);
    } else {
        let sep = seq![0x0du8, 0x0au8];
        if i + 2 <= data.len() {
            assert(data.subrange(i, i + 2)[0] == data[i]);
            assert(data.subrange(i, i + 2) != sep);
        }
        lemma_scan_crlf(data, i + 1, cur.push(data[i]), k - 1);
        assert(cur.push(data[i]) + data.subrange(i + 1, i + k) =~= cur + data.subrange(i, i + k));
    }
}

proof fn lemma_scan_auto(data: Seq<u8>, i: int, cur: Seq<u8>, k: int)
    requires
        0 <= i,
        0 <= k,
        i + k <= data.len(),
        plain_piece(data, i, k),
    ensures
        auto_lines_from(data, i, cur) == auto_lines_from(data, i + k, cur + data.subrange(i, i + k)),
    decreases k,
{
    if k == 0 {
        assert(cur + data.subrange(i, i) =~= cur);
    } else {
        lemma_scan_auto(data, i + 1, cur.push(data[i]), k - 1);
        assert(cur.push(data[i]) + data.subrange(i + 1, i + k) =~= cur + data.subrange(i, i + k));
    }
}

/// The first line and the rest of a terminated list.
proof fn lemma_first_line(xs: Seq<Seq<u8>>, sep: Seq<u8>)
    requires
        xs.len() > 0,
    ensures
        terminated(xs, sep) == xs[0] + sep + terminated(xs.drop_first(), sep),
        no_line_breaks(xs) ==> no_line_breaks(xs.drop_first()),
        xs == seq![xs[0]] + xs.drop_first(),
{
    assert(xs =~= seq![xs[0]] + xs.drop_first());
    lemma_terminated_prepend(xs[0], xs.drop_first(), sep);
    if no_line_breaks(xs) {
        assert forall|k: int, j: int|
            0 <= k < xs.drop_first().len() && 0 <= j < xs.drop_first()[k].len() implies #[trigger] xs.drop_first()[k][j]
            != 0x0du8 && xs.drop_first()[k][j] != 0x0au8 by {
            assert(xs.drop_first()[k] == xs[k + 1]);
        }
    }
}

/// Where the rest of `data` from `i` is `x + sep + tail`: the pieces.
proof fn lemma_pieces(data: Seq<u8>, i: int, x: Seq<u8>, sep: Seq<u8>, tail: Seq<u8>)
    requires
        0 <= i <= data.len(),
        data.subrange(i, data.len() as int) == x + sep + tail,
    ensures
        i + x.len() + sep.len() <= data.len(),
        data.subrange(i, i + x.len()) == x,
        data.subrange(i + x.len(), i + x.len() + sep.len()) == sep,
        data.subrange(i + x.len() + sep.len(), data.len() as int) == tail,
        forall|j: int| 0 <= j < x.len() ==> data[i + j] == #[trigger] x[j],
        forall|j: int| 0 <= j < sep.len() ==> data[i + x.len() + j] == #[trigger] sep[j],
{
    let r = data.subrange(i, data.len() as int);
    assert(r.len() == x.len() + sep.len() + tail.len());
    assert forall|j: int| 0 <= j < x.len() implies data[i + j] == #[trigger] x[j] by {
        assert(r[j] == data[i + j]);
        assert((x + sep + tail)[j] == x[j]);
    }
    assert forall|j: int| 0 <= j < sep.len() implies data[i + x.len() + j] == #[trigger] sep[j] by {
        assert(r[x.len() + j] == data[i + x.len() + j]);
        assert((x + sep + tail)[x.len() + j] == sep[j]);
    }
    assert(data.subrange(i, i + x.len()) =~= x);
    assert(data.subrange(i + x.len(), i + x.len() + sep.len()) =~= sep);
    assert forall|j: int| 0 <= j < tail.len() implies data.subrange(i + x.len() + sep.len(), data.len() as int)[j] == tail[j] by {
        assert(r[x.len() + sep.len() + j] == (x + sep + tail)[x.len() + sep.len() + j]);
    }
    assert(data.subrange(i + x.len() + sep.len(), data.len() as int) =~= tail);
}

proof fn lemma_join_byte(data: Seq<u8>, sep: u8, i: int, xs: Seq<Seq<u8>>)
    requires
        0 <= i <= data.len(),
        sep == 0x0du8 || sep == 0x0au8,
        no_line_breaks(xs),
        data.subrange(i, data.len() as int) == terminated(xs, seq![sep]),
    ensures
        byte_lines_from(data, sep, i, Seq::empty()) == xs,
    decreases xs.len(),
{
    if xs.len() == 0 {
        assert(data.subrange(i, data.len() as int).len() == 0);
    } else {
        lemma_first_line(xs, seq![sep]);
        let x = xs[0];
        let rest = xs.drop_first();
        lemma_pieces(data, i, x, seq![sep], terminated(rest, seq![sep]));
        assert(plain_piece(data, i, x.len() as int)) by {
            assert forall|j: int| i <= j < i + x.len() implies #[trigger] data[j] != 0x0du8 && data[j] != 0x0au8 by {
                assert(data[i + (j - i)] == x[j - i]);
                assert(xs[0][j - i] != 0x0du8 && xs[0][j - i] != 0x0au8);
            }
        }
        lemma_scan_byte(data, sep, i, Seq::empty(), x.len() as int);
        assert(Seq::<u8>::empty() + x =~= x);
        let j = i + x.len();
        assert(data[j] == sep) by {
            assert(data[i + x.len() + 0] == seq![sep][0]);
        }
        lemma_join_byte(data, sep, j + 1, rest);
    }
}

proof fn lemma_join_crlf(data: Seq<u8>, i: int, xs: Seq<Seq<u8>>)
    requires
        0 <= i <= data.len(),
        no_line_breaks(xs),
        data.subrange(i, data.len() as int) == terminated(xs, seq![0x0du8, 0x0au8]),
    ensures
        seq_lines_from(data, seq![0x0du8, 0x0au8], i, Seq::empty()) == xs,
    decreases xs.len(),
{
    let sep = seq![0x0du8, 0x0au8];
    if xs.len() == 0 {
        assert(data.subrange(i, data.len() as int).len() == 0);
    } else {
        lemma_first_line(xs, sep);
        let x = xs[0];
        let rest = xs.drop_first();
        lemma_pieces(data, i, x, sep, terminated(rest, sep));
        assert(plain_piece(data, i, x.len() as int)) by {
            assert forall|j: int| i <= j < i + x.len() implies #[trigger] data[j] != 0x0du8 && data[j] != 0x0au8 by {
                assert(data[i + (j - i)] == x[j - i]);
                assert(xs[0][j - i] != 0x0du8 && xs[0][j - i] != 0x0au8);
            }
        }
        lemma_scan_crlf(data, i, Seq::empty(), x.len() as int);
        assert(Seq::<u8>::empty() + x =~= x);
        lemma_join_crlf(data, i + x.len() + 2, rest);
    }
}

proof fn lemma_join_auto(data: Seq<u8>, i: int, xs: Seq<Seq<u8>>)
    requires
        0 <= i <= data.len(),
        no_line_breaks(xs),
        data.subrange(i, data.len() as int) == terminated(xs, seq![0x0du8, 0x0au8]),
    ensures
        auto_lines_from(data, i, Seq::empty()) == xs,
    decreases xs.len(),
{
    let sep = seq![0x0du8, 0x0au8];
    if xs.len() == 0 {
        assert(data.subrange(i, data.len() as int).len() == 0);
    } else {
        lemma_first_line(xs, sep);
        let x = xs[0];
        let rest = xs.drop_first();
        lemma_pieces(data, i, x, sep, terminated(rest, sep));
        assert(plain_piece(data, i, x.len() as int)) by {
            assert forall|j: int| i <= j < i + x.len() implies #[trigger] data[j] != 0x0du8 && data[j] != 0x0au8 by {
                assert(data[i + (j - i)] == x[j - i]);
                assert(xs[0][j - i] != 0x0du8 && xs[0][j - i] != 0x0au8);
            }
        }
        lemma_scan_auto(data, i, Seq::empty(), x.len() as int);
        assert(Seq::<u8>::empty() + x =~= x);
        let j = i + x.len();
        assert(data[j] == 0x0du8 && data[j + 1] == 0x0au8) by {
            assert(data[i + x.len() + 0] == sep[0]);
            assert(data[i + x.len() + 1] == sep[1]);
        }
        lemma_join_auto(data, j + 2, rest);
    }
}

/// Received lines come back as they were sent: lines without CR or LF,
/// each followed by a line ending, are cut back into exactly those lines
/// by the receiving mode of the same ending (empty lines included).  With no
/// line ending, everything received is one line.
pub proof fn law_split_inverts_join(xs: Seq<Seq<u8>>, m: NewlineMode, d: Seq<u8>)
    requires
        no_line_breaks(xs),
    ensures
        m != NewlineMode::None_ ==> rx_lines(terminated(xs, m.spec_suffix()), m) == xs,
        rx_lines(d, NewlineMode::None_) == seq![d],
{
    let data = terminated(xs, m.spec_suffix());
    assert(data.subrange(0, data.len() as int) =~= data);
    match m {
        NewlineMode::Lf => {
            assert(m.spec_suffix() == seq![0x0au8]);
            lemma_join_byte(data, 0x0au8, 0, xs);
        },
        NewlineMode::Cr => {
            assert(m.spec_suffix() == seq![0x0du8]);
            lemma_join_byte(data, 0x0du8, 0, xs);
        },
        NewlineMode::CrLf => {
            lemma_join_crlf(data, 0, xs);
        },
        NewlineMode::Auto => {
            lemma_join_auto(data, 0, xs);
        },
        NewlineMode::None_ => {},
    }
}

/// `pieces` joined with `sep` between each two of them.
pub open spec fn joined(pieces: Seq<Seq<u8>>, sep: Seq<u8>) -> Seq<u8>
    decreases pieces.len(),
{
    if pieces.len() == 0 {
        Seq::empty()
    } else if pieces.len() == 1 {
        pieces[0]
    } else {
        joined(pieces.drop_last(), sep) + sep + pieces.last()
    }
}

/// No piece holds the byte `sep`.
pub open spec fn free_of(pieces: Seq<Seq<u8>>, sep: u8) -> bool {
    forall|k: int, j: int| 0 <= k < pieces.len() && 0 <= j < pieces[k].len() ==> #[trigger] pieces[k][j] != sep
}

proof fn lemma_terminated_joined(xs: Seq<Seq<u8>>, sep: Seq<u8>)
    requires
        xs.len() > 0,
    ensures
        terminated(xs, sep) == joined(xs, sep) + sep,
    decreases xs.len(),
{
    if xs.len() == 1 {
        assert(xs.drop_last() =~= Seq::<Seq<u8>>::empty());
        assert(terminated(xs.drop_last(), sep) == Seq::<u8>::empty());
        assert(terminated(xs, sep) == terminated(xs.drop_last(), sep) + xs.last() + sep);
        assert(Seq::<u8>::empty() + xs.last() + sep =~= xs[0] + sep);
    } else {
        lemma_terminated_joined(xs.drop_last(), sep);
        assert(terminated(xs, sep) == terminated(xs.drop_last(), sep) + xs.last() + sep);
        assert(joined(xs, sep) == joined(xs.drop_last(), sep) + sep + xs.last());
        assert(joined(xs.drop_last(), sep) + sep + xs.last() + sep =~= joined(xs, sep) + sep);
    }
}

proof fn lemma_joined_push_empty(xs: Seq<Seq<u8>>, sep: Seq<u8>)
    ensures
        joined(xs.push(Seq::empty()), sep) == terminated(xs, sep),
{
    let w = xs.push(Seq::<u8>::empty());
    assert(w.drop_last() =~= xs);
    if xs.len() > 0 {
        lemma_terminated_joined(xs, sep);
        assert(joined(xs, sep) + sep + Seq::<u8>::empty() =~= joined(xs, sep) + sep);
    }
}

/// Pieces free of `sep` are fixed by what they join to.
proof fn lemma_joined_unique(p: Seq<Seq<u8>>, q: Seq<Seq<u8>>, sep: u8)
    requires
        p.len() > 0,
        q.len() > 0,
        free_of(p, sep),
        free_of(q, sep),
        joined(p, seq![sep]) == joined(q, seq![sep]),
    ensures
        p == q,
    decreases p.len() + q.len(),
{
    let s = seq![sep];
    let d = joined(p, s);
    if p.len() == 1 && q.len() == 1 {
        assert(p =~= q);
    } else if p.len() == 1 {
        let k = joined(q.drop_last(), s).len() as int;
        assert(d[k] == sep);
        assert(d[k] == p[0][k]);
    } else if q.len() == 1 {
        let k = joined(p.drop_last(), s).len() as int;
        assert(d[k] == sep);
        assert(d[k] == q[0][k]);
    } else {
        let a = p.last();
        let b = q.last();
        let pa = joined(p.drop_last(), s);
        let qb = joined(q.drop_last(), s);
        assert(d == pa + s + a);
        assert(d == qb + s + b);
        if a.len() < b.len() {
            let k = pa.len() as int;
            assert(d[k] == sep);
            assert(d[k] == b[k - qb.len() - 1]);
            assert(q[q.len() - 1][k - qb.len() - 1] != sep);
        } else if b.len() < a.len() {
            let k = qb.len() as int;
            assert(d[k] == sep);
            assert(d[k] == a[k - pa.len() - 1]);
            assert(p[p.len() - 1][k - pa.len() - 1] != sep);
        } else {
            assert(a =~= d.subrange(d.len() - a.len(), d.len() as int));
            assert(b =~= d.subrange(d.len() - b.len(), d.len() as int));
            assert(pa =~= d.subrange(0, pa.len() as int));
            assert(qb =~= d.subrange(0, qb.len() as int));
            assert(free_of(p.drop_last(), sep)) by {
                assert forall|k: int, j: int|
                    0 <= k < p.drop_last().len() && 0 <= j < p.drop_last()[k].len() implies #[trigger] p.drop_last()[k][j]
                    != sep by {
                    assert(p.drop_last()[k] == p[k]);
                }
            }
            assert(free_of(q.drop_last(), sep)) by {
                assert forall|k: int, j: int|
                    0 <= k < q.drop_last().len() && 0 <= j < q.drop_last()[k].len() implies #[trigger] q.drop_last()[k][j]
                    != sep by {
                    assert(q.drop_last()[k] == q[k]);
                }
            }
            lemma_joined_unique(p.drop_last(), q.drop_last(), sep);
            assert(p =~= p.drop_last().push(a));
            assert(q =~= q.drop_last().push(b));
        }
    }
}

/// Cutting at a separator byte gives the pieces that the standard slice
/// split gives (the pieces free of the separator that, joined with it,
/// make up the data), except that a last piece that is empty is left out.
pub proof fn law_byte_lines_are_split_pieces(data: Seq<u8>, sep: u8, p: Seq<Seq<u8>>)
    requires
        p.len() > 0,
        free_of(p, sep),
        joined(p, seq![sep]) == data,
    ensures
        byte_lines_from(data, sep, 0, Seq::empty()) == if p.last().len() == 0 {
            p.drop_last()
        } else {
            p
        },
{
    let s = seq![sep];
    let l = byte_lines_from(data, sep, 0, Seq::empty());
    law_byte_lines_reassemble(data, sep);
    assert(free_of(l, sep));
    if data.len() == 0 || data.last() == sep {
        let w = l.push(Seq::<u8>::empty());
        lemma_joined_push_empty(l, s);
        assert(free_of(w, sep)) by {
            assert forall|k: int, j: int| 0 <= k < w.len() && 0 <= j < w[k].len() implies #[trigger] w[k][j] != sep by {
                assert(w[k] == l[k]);
            }
        }
        lemma_joined_unique(p, w, sep);
        assert(w.drop_last() =~= l);
    } else {
        if l.len() == 0 {
            assert(terminated(l, s).len() == 0);
            assert(data.push(sep).len() > 0);
        }
        lemma_terminated_joined(l, s);
        assert(joined(l, s) =~= data) by {
            assert(joined(l, s) + s =~= data.push(sep));
            assert(joined(l, s) =~= (joined(l, s) + s).drop_last());
        }
        lemma_joined_unique(p, l, sep);
        if l.last().len() == 0 {
            if l.len() == 1 {
                assert(data =~= l[0]);
            } else {
                assert(data == joined(l.drop_last(), s) + s + l.last());
                assert(data.last() == sep);
            }
        }
    }
}

} // verus!
