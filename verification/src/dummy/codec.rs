//! The wire format of the plaintext EID implementation: length-prefixed,
//! tagged-union encoding of members, evolvements and exported states.
//!
//! Every serializer is pinned to a spec-level byte string and every parser to
//! a spec-level parsing function, so that the round trip is a theorem
//! (`lemma_evolvement_round_trip`, `lemma_state_round_trip`).

use vstd::prelude::*;

use crate::dummy::evolvement::{EidDummyEvolvement, EvolvementView};
use crate::dummy::member::{mview, EidDummyMember, MemberView, BOOLEAN};
use crate::dummy::state::{EidDummyState, StateView};

verus! {

// === Unsigned 64-bit integers: 8 bytes, little-endian ===

/// The little-endian encoding of a 64-bit integer.
pub open spec fn ser_u64(n: u64) -> Seq<u8> {
    seq![
        (n & 0xff) as u8,
        ((n >> 8) & 0xff) as u8,
        ((n >> 16) & 0xff) as u8,
        ((n >> 24) & 0xff) as u8,
        ((n >> 32) & 0xff) as u8,
        ((n >> 40) & 0xff) as u8,
        ((n >> 48) & 0xff) as u8,
        ((n >> 56) & 0xff) as u8,
    ]
}

/// The integer read back from 8 little-endian bytes.
pub open spec fn u64_of(b0: u8, b1: u8, b2: u8, b3: u8, b4: u8, b5: u8, b6: u8, b7: u8) -> u64 {
    (b0 as u64) | (b1 as u64) << 8 | (b2 as u64) << 16 | (b3 as u64) << 24 | (b4 as u64) << 32 | (
    b5 as u64) << 40 | (b6 as u64) << 48 | (b7 as u64) << 56
}

/// Reading back the encoding of `n` yields `n`.
pub proof fn lemma_u64_round_trip(n: u64)
    ensures
        u64_of(
            ser_u64(n)[0],
            ser_u64(n)[1],
            ser_u64(n)[2],
            ser_u64(n)[3],
            ser_u64(n)[4],
            ser_u64(n)[5],
            ser_u64(n)[6],
            ser_u64(n)[7],
        ) == n,
{
    assert((((n & 0xff) as u8) as u64) | ((((n >> 8) & 0xff) as u8) as u64) << 8 | ((((n >> 16)
        & 0xff) as u8) as u64) << 16 | ((((n >> 24) & 0xff) as u8) as u64) << 24 | ((((n >> 32)
        & 0xff) as u8) as u64) << 32 | ((((n >> 40) & 0xff) as u8) as u64) << 40 | ((((n >> 48)
        & 0xff) as u8) as u64) << 48 | ((((n >> 56) & 0xff) as u8) as u64) << 56 == n)
        by (bit_vector);
}

/// Append the encoding of `n` to `out`.
fn write_u64(out: &mut Vec<u8>, n: u64)
    ensures
        final(out)@ == old(out)@ + ser_u64(n),
{
    let b0: u8 = (n & 0xff) as u8;
    let b1: u8 = ((n >> 8) & 0xff) as u8;
    let b2: u8 = ((n >> 16) & 0xff) as u8;
    let b3: u8 = ((n >> 24) & 0xff) as u8;
    let b4: u8 = ((n >> 32) & 0xff) as u8;
    let b5: u8 = ((n >> 40) & 0xff) as u8;
    let b6: u8 = ((n >> 48) & 0xff) as u8;
    let b7: u8 = ((n >> 56) & 0xff) as u8;
    out.push(b0);
    out.push(b1);
    out.push(b2);
    out.push(b3);
    out.push(b4);
    out.push(b5);
    out.push(b6);
    out.push(b7);
    proof {
        assert(final(out)@ =~= old(out)@ + ser_u64(n));
    }
}

/// Parse 8 little-endian bytes at `pos`: the read integer and the position
/// after it, or nothing if the input is too short.
pub open spec fn parse_u64_spec(b: Seq<u8>, pos: int) -> Option<(u64, int)> {
    if 0 <= pos && pos + 8 <= b.len() {
        Some(
            (
                u64_of(
                    b[pos],
                    b[pos + 1],
                    b[pos + 2],
                    b[pos + 3],
                    b[pos + 4],
                    b[pos + 5],
                    b[pos + 6],
                    b[pos + 7],
                ),
                pos + 8,
            ),
        )
    } else {
        None
    }
}

/// Read a 64-bit integer at `pos`.
fn parse_u64(b: &[u8], pos: usize) -> (r: Option<(u64, usize)>)
    ensures
        match r {
            Some((n, end)) => parse_u64_spec(b@, pos as int) == Some((n, end as int)),
            None => parse_u64_spec(b@, pos as int) is None,
        },
{
    if b.len() < 8 || pos > b.len() - 8 {
        return None;
    }
    let n = (b[pos] as u64) | (b[pos + 1] as u64) << 8 | (b[pos + 2] as u64) << 16 | (b[pos
        + 3] as u64) << 24 | (b[pos + 4] as u64) << 32 | (b[pos + 5] as u64) << 40 | (b[pos
        + 6] as u64) << 48 | (b[pos + 7] as u64) << 56;
    Some((n, pos + 8))
}

/// Reading 8 bytes that hold the encoding of `n` yields `n`.
pub proof fn lemma_parse_u64_prefix(b: Seq<u8>, pos: int, n: u64)
    requires
        0 <= pos,
        pos + 8 <= b.len(),
        b.subrange(pos, pos + 8) == ser_u64(n),
    ensures
        parse_u64_spec(b, pos) == Some((n, pos + 8)),
{
    assert forall|i: int| 0 <= i < 8 implies b[pos + i] == ser_u64(n)[i] by {
        assert(b.subrange(pos, pos + 8)[i] == b[pos + i]);
    }
    lemma_u64_round_trip(n);
}

// === Byte strings: a 64-bit length, then the bytes ===

/// Whether a byte string's length fits the wire format's length field.
pub open spec fn bytes_wf(b: Seq<u8>) -> bool {
    b.len() <= u64::MAX
}

/// The encoding of a byte string: its length, then its bytes.
pub open spec fn ser_bytes(b: Seq<u8>) -> Seq<u8> {
    ser_u64(b.len() as u64) + b
}

/// Parse a length-prefixed byte string at `pos`.
pub open spec fn parse_bytes_spec(b: Seq<u8>, pos: int) -> Option<(Seq<u8>, int)> {
    match parse_u64_spec(b, pos) {
        Some((n, p)) => if p + n <= b.len() {
            Some((b.subrange(p, p + n), p + n))
        } else {
            None
        },
        None => None,
    }
}

/// Append the encoding of `v` to `out`.
pub(crate) fn write_bytes(out: &mut Vec<u8>, v: &Vec<u8>)
    ensures
        final(out)@ == old(out)@ + ser_bytes(v@),
{
    write_u64(out, v.len() as u64);
    let mut i: usize = 0;
    while i < v.len()
        invariant
            i <= v.len(),
            out@ == old(out)@ + ser_u64(v@.len() as u64) + v@.take(i as int),
        decreases v.len() - i,
    {
        out.push(v[i]);
        proof {
            assert(old(out)@ + ser_u64(v@.len() as u64) + v@.take(i as int) + seq![v@[i as int]]
                =~= old(out)@ + ser_u64(v@.len() as u64) + v@.take(i + 1));
        }
        i = i + 1;
    }
    proof {
        assert(v@.take(v@.len() as int) =~= v@);
        assert(old(out)@ + ser_u64(v@.len() as u64) + v@ =~= old(out)@ + ser_bytes(v@));
    }
}

/// Read a length-prefixed byte string at `pos`.
pub(crate) fn parse_bytes(b: &[u8], pos: usize) -> (r: Option<(Vec<u8>, usize)>)
    ensures
        match r {
            Some((v, end)) => parse_bytes_spec(b@, pos as int) == Some((v@, end as int)),
            None => parse_bytes_spec(b@, pos as int) is None,
        },
{
    match parse_u64(b, pos) {
        Some((n, p)) => {
            let rem = b.len() - p;
            if n <= rem as u64 {
                let len = n as usize;
                let v = vstd::slice::slice_to_vec(vstd::slice::slice_subrange(b, p, p + len));
                Some((v, p + len))
            } else {
                None
            }
        },
        None => None,
    }
}

/// Reading bytes that hold the encoding of `v` yields `v`.
pub proof fn lemma_parse_bytes_prefix(b: Seq<u8>, pos: int, v: Seq<u8>)
    requires
        bytes_wf(v),
        0 <= pos,
        pos + ser_bytes(v).len() <= b.len(),
        b.subrange(pos, pos + ser_bytes(v).len()) == ser_bytes(v),
    ensures
        parse_bytes_spec(b, pos) == Some((v, pos + ser_bytes(v).len())),
{
    let n = v.len() as u64;
    let enc = ser_bytes(v);
    assert forall|i: int| 0 <= i < enc.len() implies b[pos + i] == enc[i] by {
        assert(b.subrange(pos, pos + enc.len() as int)[i] == b[pos + i]);
    }
    assert(b.subrange(pos, pos + 8) =~= ser_u64(n));
    lemma_parse_u64_prefix(b, pos, n);
    assert forall|i: int| 0 <= i < v.len() implies b[pos + 8 + i] == v[i] by {
        assert(enc[8 + i] == v[i]);
    }
    assert(b.subrange(pos + 8, pos + 8 + v.len()) =~= v);
}

// === Members: identity, key, and a one-byte cross-sign tag ===

/// Whether a member record fits the wire format's length fields.
pub open spec fn member_wf(m: MemberView) -> bool {
    bytes_wf(m.id) && bytes_wf(m.pk)
}

/// The encoding of one member record.
pub open spec fn ser_member(m: MemberView) -> Seq<u8> {
    ser_bytes(m.id) + ser_bytes(m.pk) + seq![
        if m.cross_signed {
            1u8
        } else {
            0u8
        },
    ]
}

/// Parse one member record at `pos`.
pub open spec fn parse_member_spec(b: Seq<u8>, pos: int) -> Option<(MemberView, int)> {
    match parse_bytes_spec(b, pos) {
        Some((id, p1)) => match parse_bytes_spec(b, p1) {
            Some((pk, p2)) => if p2 < b.len() && (b[p2] == 0u8 || b[p2] == 1u8) {
                Some((MemberView { id, pk, cross_signed: b[p2] == 1u8 }, p2 + 1))
            } else {
                None
            },
            None => None,
        },
        None => None,
    }
}

/// Append the encoding of `m` to `out`.
fn write_member(out: &mut Vec<u8>, m: &EidDummyMember)
    ensures
        final(out)@ == old(out)@ + ser_member(m@),
{
    write_bytes(out, &m.id);
    write_bytes(out, &m.pk);
    let tag: u8 = match m.cross_signed {
        BOOLEAN::TRUE => 1,
        BOOLEAN::FALSE => 0,
    };
    out.push(tag);
    proof {
        assert(final(out)@ =~= old(out)@ + ser_member(m@));
    }
}

/// Read one member record at `pos`.
fn parse_member(b: &[u8], pos: usize) -> (r: Option<(EidDummyMember, usize)>)
    ensures
        match r {
            Some((m, end)) => parse_member_spec(b@, pos as int) == Some((m@, end as int)),
            None => parse_member_spec(b@, pos as int) is None,
        },
{
    match parse_bytes(b, pos) {
        Some((id, p1)) => match parse_bytes(b, p1) {
            Some((pk, p2)) => {
                if p2 < b.len() && (b[p2] == 0 || b[p2] == 1) {
                    let cross_signed = if b[p2] == 1 {
                        BOOLEAN::TRUE
                    } else {
                        BOOLEAN::FALSE
                    };
                    Some((EidDummyMember { id, pk, cross_signed }, p2 + 1))
                } else {
                    None
                }
            },
            None => None,
        },
        None => None,
    }
}

/// Reading bytes that hold the encoding of `m` yields `m`.
pub proof fn lemma_parse_member_prefix(b: Seq<u8>, pos: int, m: MemberView)
    requires
        member_wf(m),
        0 <= pos,
        pos + ser_member(m).len() <= b.len(),
        b.subrange(pos, pos + ser_member(m).len()) == ser_member(m),
    ensures
        parse_member_spec(b, pos) == Some((m, pos + ser_member(m).len())),
{
    let enc = ser_member(m);
    let id_len = ser_bytes(m.id).len() as int;
    let pk_len = ser_bytes(m.pk).len() as int;
    assert forall|i: int| 0 <= i < enc.len() implies b[pos + i] == enc[i] by {
        assert(b.subrange(pos, pos + enc.len() as int)[i] == b[pos + i]);
    }
    assert(b.subrange(pos, pos + id_len) =~= ser_bytes(m.id));
    lemma_parse_bytes_prefix(b, pos, m.id);
    assert forall|i: int| 0 <= i < pk_len implies b[pos + id_len + i] == ser_bytes(m.pk)[i] by {
        assert(enc[id_len + i] == ser_bytes(m.pk)[i]);
    }
    assert(b.subrange(pos + id_len, pos + id_len + pk_len) =~= ser_bytes(m.pk));
    lemma_parse_bytes_prefix(b, pos + id_len, m.pk);
    assert(enc[id_len + pk_len] == if m.cross_signed {
        1u8
    } else {
        0u8
    });
}

// === Member lists: a 64-bit count, then each member in order ===

/// Whether a member list fits the wire format.
pub open spec fn members_wf(ms: Seq<MemberView>) -> bool {
    ms.len() <= u64::MAX && forall|i: int| 0 <= i < ms.len() ==> member_wf(#[trigger] ms[i])
}

/// The concatenated encodings of the members of a list.
pub open spec fn ser_member_list(ms: Seq<MemberView>) -> Seq<u8>
    decreases ms.len(),
{
    if ms.len() == 0 {
        Seq::empty()
    } else {
        ser_member(ms[0]) + ser_member_list(ms.drop_first())
    }
}

/// The encoding of a member list: its length, then each member in order.
pub open spec fn ser_members(ms: Seq<MemberView>) -> Seq<u8> {
    ser_u64(ms.len() as u64) + ser_member_list(ms)
}

/// Parse `n` consecutive member records at `pos`.
pub open spec fn parse_member_list_spec(b: Seq<u8>, pos: int, n: nat) -> Option<
    (Seq<MemberView>, int),
>
    decreases n,
{
    if n == 0 {
        Some((Seq::empty(), pos))
    } else {
        match parse_member_spec(b, pos) {
            Some((m, p)) => match parse_member_list_spec(b, p, (n - 1) as nat) {
                Some((ms, end)) => Some((seq![m] + ms, end)),
                None => None,
            },
            None => None,
        }
    }
}

/// Parse a length-prefixed member list at `pos`.
pub open spec fn parse_members_spec(b: Seq<u8>, pos: int) -> Option<(Seq<MemberView>, int)> {
    match parse_u64_spec(b, pos) {
        Some((n, p)) => parse_member_list_spec(b, p, n as nat),
        None => None,
    }
}

/// Append the encoding of the member list `ms` to `out`.
fn write_members(out: &mut Vec<u8>, ms: &Vec<EidDummyMember>)
    ensures
        final(out)@ == old(out)@ + ser_members(mview(ms@)),
{
    write_u64(out, ms.len() as u64);
    let ghost views = mview(ms@);
    let mut i: usize = 0;
    while i < ms.len()
        invariant
            i <= ms.len(),
            views == mview(ms@),
            views.len() == ms@.len(),
            out@ == old(out)@ + ser_u64(ms@.len() as u64) + ser_member_list(views.take(i as int)),
        decreases ms.len() - i,
    {
        write_member(out, &ms[i]);
        proof {
            lemma_ser_member_list_push(views.take(i as int), views[i as int]);
            assert(views.take(i as int).push(views[i as int]) =~= views.take(i + 1));
        }
        i = i + 1;
    }
    proof {
        assert(views.take(views.len() as int) =~= views);
    }
}

/// The encoding of a list with one more member appends that member's encoding.
proof fn lemma_ser_member_list_push(ms: Seq<MemberView>, m: MemberView)
    ensures
        ser_member_list(ms.push(m)) == ser_member_list(ms) + ser_member(m),
    decreases ms.len(),
{
    if ms.len() == 0 {
        assert(ms.push(m).drop_first() =~= Seq::empty());
        assert(ser_member_list(Seq::<MemberView>::empty()) =~= Seq::<u8>::empty());
        assert(ms.push(m)[0] == m);
        assert(ser_member_list(ms.push(m)) =~= ser_member(m));
        assert(ser_member_list(ms) + ser_member(m) =~= ser_member(m));
    } else {
        assert(ms.push(m).drop_first() =~= ms.drop_first().push(m));
        lemma_ser_member_list_push(ms.drop_first(), m);
        assert(ser_member_list(ms.push(m)) =~= ser_member_list(ms) + ser_member(m));
    }
}

/// Read a length-prefixed member list at `pos`.
fn parse_members(b: &[u8], pos: usize) -> (r: Option<(Vec<EidDummyMember>, usize)>)
    ensures
        match r {
            Some((ms, end)) => parse_members_spec(b@, pos as int) == Some((mview(ms@), end as int)),
            None => parse_members_spec(b@, pos as int) is None,
        },
{
    match parse_u64(b, pos) {
        Some((n, p0)) => {
            let mut ms: Vec<EidDummyMember> = Vec::new();
            let mut p = p0;
            let mut i: u64 = 0;
            while i < n
                invariant
                    i <= n,
                    ms@.len() == i,
                    parse_u64_spec(b@, pos as int) == Some((n, p0 as int)),
                    parse_member_list_spec(b@, p0 as int, n as nat) == match parse_member_list_spec(
                        b@,
                        p as int,
                        (n - i) as nat,
                    ) {
                        Some((rest, end)) => Some((mview(ms@) + rest, end)),
                        None => None::<(Seq<MemberView>, int)>,
                    },
                decreases n - i,
            {
                match parse_member(b, p) {
                    Some((m, p2)) => {
                        proof {
                            let acc = mview(ms@);
                            let k = (n - i - 1) as nat;
                            assert(parse_member_list_spec(b@, p as int, (n - i) as nat) == (
                            match parse_member_list_spec(b@, p2 as int, k) {
                                Some((rest, end)) => Some((seq![m@] + rest, end)),
                                None => None::<(Seq<MemberView>, int)>,
                            }));
                            if parse_member_list_spec(b@, p2 as int, k) is Some {
                                let (rest, end) = parse_member_list_spec(b@, p2 as int, k)->Some_0;
                                assert((acc + seq![m@]) + rest =~= acc + (seq![m@] + rest));
                            }
                        }
                        ms.push(m);
                        proof {
                            assert(mview(ms@) =~= mview(ms@.drop_last()) + seq![m@]);
                        }
                        p = p2;
                        i = i + 1;
                    },
                    None => {
                        proof {
                            assert(parse_member_list_spec(b@, p as int, (n - i) as nat) is None);
                        }
                        return None;
                    },
                }
            }
            proof {
                assert(mview(ms@) + Seq::<MemberView>::empty() =~= mview(ms@));
            }
            Some((ms, p))
        },
        None => None,
    }
}

/// Reading bytes that hold the encodings of the members of `ms` yields `ms`.
proof fn lemma_parse_member_list_prefix(b: Seq<u8>, pos: int, ms: Seq<MemberView>)
    requires
        forall|i: int| 0 <= i < ms.len() ==> member_wf(#[trigger] ms[i]),
        0 <= pos,
        pos + ser_member_list(ms).len() <= b.len(),
        b.subrange(pos, pos + ser_member_list(ms).len()) == ser_member_list(ms),
    ensures
        parse_member_list_spec(b, pos, ms.len()) == Some((ms, pos + ser_member_list(ms).len())),
    decreases ms.len(),
{
    if ms.len() == 0 {
        assert(parse_member_list_spec(b, pos, 0) == Some((Seq::<MemberView>::empty(), pos)));
        assert(ms =~= Seq::<MemberView>::empty());
    } else {
        let enc = ser_member_list(ms);
        let head = ser_member(ms[0]);
        let tail = ser_member_list(ms.drop_first());
        assert(enc == head + tail);
        assert forall|i: int| 0 <= i < enc.len() implies b[pos + i] == enc[i] by {
            assert(b.subrange(pos, pos + enc.len() as int)[i] == b[pos + i]);
        }
        assert(b.subrange(pos, pos + head.len()) =~= head);
        lemma_parse_member_prefix(b, pos, ms[0]);
        assert forall|i: int| 0 <= i < tail.len() implies b[pos + head.len() + i] == tail[i] by {
            assert(enc[head.len() + i] == tail[i]);
        }
        assert(b.subrange(pos + head.len(), pos + head.len() + tail.len()) =~= tail);
        lemma_parse_member_list_prefix(b, pos + head.len(), ms.drop_first());
        assert(seq![ms[0]] + ms.drop_first() =~= ms);
        assert((ms.len() - 1) as nat == ms.drop_first().len());
    }
}

/// Reading bytes that hold the encoding of the member list `ms` yields `ms`.
pub proof fn lemma_parse_members_prefix(b: Seq<u8>, pos: int, ms: Seq<MemberView>)
    requires
        members_wf(ms),
        0 <= pos,
        pos + ser_members(ms).len() <= b.len(),
        b.subrange(pos, pos + ser_members(ms).len()) == ser_members(ms),
    ensures
        parse_members_spec(b, pos) == Some((ms, pos + ser_members(ms).len())),
{
    let enc = ser_members(ms);
    let n = ms.len() as u64;
    let tail = ser_member_list(ms);
    assert forall|i: int| 0 <= i < enc.len() implies b[pos + i] == enc[i] by {
        assert(b.subrange(pos, pos + enc.len() as int)[i] == b[pos + i]);
    }
    assert(b.subrange(pos, pos + 8) =~= ser_u64(n));
    lemma_parse_u64_prefix(b, pos, n);
    assert forall|i: int| 0 <= i < tail.len() implies b[pos + 8 + i] == tail[i] by {
        assert(enc[8 + i] == tail[i]);
    }
    assert(b.subrange(pos + 8, pos + 8 + tail.len()) =~= tail);
    lemma_parse_member_list_prefix(b, pos + 8, ms);
}

// === Evolvements: a one-byte discriminant, the history position, the
// === resulting member list, and, for an addition, the invited identity ===

/// The discriminant of an addition.
pub const TAG_ADD: u8 = 0;

/// The discriminant of a self-update.
pub const TAG_UPDATE: u8 = 1;

/// The discriminant of a removal.
pub const TAG_REMOVE: u8 = 2;

/// Whether an evolvement fits the wire format's length fields.
pub open spec fn evolvement_wf(e: EvolvementView) -> bool {
    &&& e.count() <= u64::MAX
    &&& members_wf(e.members())
    &&& match e {
        EvolvementView::Add { invited_id, .. } => bytes_wf(invited_id),
        _ => true,
    }
}

/// The encoding of one evolvement.
pub open spec fn ser_evolvement(e: EvolvementView) -> Seq<u8> {
    match e {
        EvolvementView::Add { count, members, invited_id } => seq![TAG_ADD] + ser_u64(
            count as u64,
        ) + ser_members(members) + ser_bytes(invited_id),
        EvolvementView::Update { count, members } => seq![TAG_UPDATE] + ser_u64(count as u64)
            + ser_members(members),
        EvolvementView::Remove { count, members } => seq![TAG_REMOVE] + ser_u64(count as u64)
            + ser_members(members),
    }
}

/// Parse one evolvement at `pos`.
pub open spec fn parse_evolvement_spec(b: Seq<u8>, pos: int) -> Option<(EvolvementView, int)> {
    if 0 <= pos < b.len() && (b[pos] == TAG_ADD || b[pos] == TAG_UPDATE || b[pos] == TAG_REMOVE) {
        match parse_u64_spec(b, pos + 1) {
            Some((count, p1)) => match parse_members_spec(b, p1) {
                Some((members, p2)) => if b[pos] == TAG_ADD {
                    match parse_bytes_spec(b, p2) {
                        Some((invited_id, p3)) => Some(
                            (
                                EvolvementView::Add {
                                    count: count as nat,
                                    members,
                                    invited_id,
                                },
                                p3,
                            ),
                        ),
                        None => None,
                    }
                } else if b[pos] == TAG_UPDATE {
                    Some((EvolvementView::Update { count: count as nat, members }, p2))
                } else {
                    Some((EvolvementView::Remove { count: count as nat, members }, p2))
                },
                None => None,
            },
            None => None,
        }
    } else {
        None
    }
}

/// Serialize one evolvement.
pub fn serialize_evolvement(e: &EidDummyEvolvement) -> (r: Vec<u8>)
    ensures
        r@ == ser_evolvement(e@),
{
    let mut out: Vec<u8> = Vec::new();
    match e {
        EidDummyEvolvement::Add { count, members, invited_id } => {
            out.push(TAG_ADD);
            write_u64(&mut out, *count);
            write_members(&mut out, members);
            write_bytes(&mut out, invited_id);
        },
        EidDummyEvolvement::Update { count, members } => {
            out.push(TAG_UPDATE);
            write_u64(&mut out, *count);
            write_members(&mut out, members);
        },
        EidDummyEvolvement::Remove { count, members } => {
            out.push(TAG_REMOVE);
            write_u64(&mut out, *count);
            write_members(&mut out, members);
        },
    }
    proof {
        assert(out@ =~= ser_evolvement(e@));
    }
    out
}

/// Read one evolvement at `pos`.
fn parse_evolvement(b: &[u8], pos: usize) -> (r: Option<(EidDummyEvolvement, usize)>)
    ensures
        match r {
            Some((e, end)) => parse_evolvement_spec(b@, pos as int) == Some((e@, end as int)),
            None => parse_evolvement_spec(b@, pos as int) is None,
        },
{
    if pos >= b.len() {
        return None;
    }
    let tag = b[pos];
    if tag != TAG_ADD && tag != TAG_UPDATE && tag != TAG_REMOVE {
        return None;
    }
    match parse_u64(b, pos + 1) {
        Some((count, p1)) => match parse_members(b, p1) {
            Some((members, p2)) => {
                if tag == TAG_ADD {
                    match parse_bytes(b, p2) {
                        Some((invited_id, p3)) => Some(
                            (EidDummyEvolvement::Add { count, members, invited_id }, p3),
                        ),
                        None => None,
                    }
                } else if tag == TAG_UPDATE {
                    Some((EidDummyEvolvement::Update { count, members }, p2))
                } else {
                    Some((EidDummyEvolvement::Remove { count, members }, p2))
                }
            },
            None => None,
        },
        None => None,
    }
}

/// Deserialize one evolvement from a whole buffer: succeeds exactly when the
/// buffer is the encoding of one evolvement, with nothing following it.
pub fn deserialize_evolvement(bytes: &[u8]) -> (r: Option<EidDummyEvolvement>)
    ensures
        match r {
            Some(e) => parse_evolvement_spec(bytes@, 0) == Some((e@, bytes@.len() as int)),
            None => match parse_evolvement_spec(bytes@, 0) {
                Some((v, end)) => end != bytes@.len(),
                None => true,
            },
        },
{
    match parse_evolvement(bytes, 0) {
        Some((e, end)) => {
            if end == bytes.len() {
                Some(e)
            } else {
                None
            }
        },
        None => None,
    }
}

/// Reading bytes that hold the encoding of `e` yields `e`.
pub proof fn lemma_parse_evolvement_prefix(b: Seq<u8>, pos: int, e: EvolvementView)
    requires
        evolvement_wf(e),
        0 <= pos,
        pos + ser_evolvement(e).len() <= b.len(),
        b.subrange(pos, pos + ser_evolvement(e).len()) == ser_evolvement(e),
    ensures
        parse_evolvement_spec(b, pos) == Some((e, pos + ser_evolvement(e).len())),
{
    let enc = ser_evolvement(e);
    let count = e.count() as u64;
    let ms = e.members();
    let tag = if e is Add {
        TAG_ADD
    } else if e is Update {
        TAG_UPDATE
    } else {
        TAG_REMOVE
    };
    let rest = if e is Add {
        ser_bytes(e->Add_invited_id)
    } else {
        Seq::<u8>::empty()
    };
    assert(enc =~= seq![tag] + ser_u64(count) + ser_members(ms) + rest);
    assert forall|i: int| 0 <= i < enc.len() implies b[pos + i] == enc[i] by {
        assert(b.subrange(pos, pos + enc.len() as int)[i] == b[pos + i]);
    }
    assert((seq![tag] + ser_u64(count) + ser_members(ms) + rest)[0] == tag);
    assert(b[pos + 0] == enc[0]);
    assert(b[pos] == tag);
    assert forall|i: int| 0 <= i < 8 implies b[pos + 1 + i] == ser_u64(count)[i] by {
        assert(enc[1 + i] == ser_u64(count)[i]);
    }
    assert(b.subrange(pos + 1, pos + 9) =~= ser_u64(count));
    lemma_parse_u64_prefix(b, pos + 1, count);
    let p1 = pos + 9;
    let mlen = ser_members(ms).len() as int;
    assert forall|i: int| 0 <= i < mlen implies b[p1 + i] == ser_members(ms)[i] by {
        assert(enc[9 + i] == (seq![tag] + ser_u64(count) + ser_members(ms) + rest)[9 + i]);
    }
    assert(b.subrange(p1, p1 + mlen) =~= ser_members(ms));
    lemma_parse_members_prefix(b, p1, ms);
    let p2 = p1 + mlen;
    match e {
        EvolvementView::Add { invited_id, .. } => {
            let blen = ser_bytes(invited_id).len() as int;
            assert(rest == ser_bytes(invited_id));
            assert forall|i: int| 0 <= i < blen implies b[p2 + i] == ser_bytes(invited_id)[i] by {
                assert(enc[9 + mlen + i] == (seq![tag] + ser_u64(count) + ser_members(ms)
                    + rest)[9 + mlen + i]);
            }
            assert(b.subrange(p2, p2 + blen) =~= ser_bytes(invited_id));
            lemma_parse_bytes_prefix(b, p2, invited_id);
        },
        _ => {},
    }
}

/// Round trip: parsing the encoding of an evolvement yields that evolvement.
pub proof fn lemma_evolvement_round_trip(e: EvolvementView)
    requires
        evolvement_wf(e),
    ensures
        parse_evolvement_spec(ser_evolvement(e), 0) == Some((e, ser_evolvement(e).len() as int)),
{
    let enc = ser_evolvement(e);
    assert(enc.subrange(0, enc.len() as int) =~= enc);
    lemma_parse_evolvement_prefix(enc, 0, e);
}

// === States: the history position, then the member list ===

/// Whether a state fits the wire format's length fields.
pub open spec fn state_wf(s: StateView) -> bool {
    s.count <= u64::MAX && members_wf(s.members)
}

/// The encoding of a state.
pub open spec fn ser_state(s: StateView) -> Seq<u8> {
    ser_u64(s.count as u64) + ser_members(s.members)
}

/// Parse one state at `pos`.
pub open spec fn parse_state_spec(b: Seq<u8>, pos: int) -> Option<(StateView, int)> {
    match parse_u64_spec(b, pos) {
        Some((count, p1)) => match parse_members_spec(b, p1) {
            Some((members, p2)) => Some((StateView { members, count: count as nat }, p2)),
            None => None,
        },
        None => None,
    }
}

/// Serialize one state.
pub fn serialize_state(s: &EidDummyState) -> (r: Vec<u8>)
    ensures
        r@ == ser_state(s@),
{
    let mut out: Vec<u8> = Vec::new();
    write_u64(&mut out, s.evolvement_count);
    write_members(&mut out, &s.members);
    proof {
        assert(out@ =~= ser_state(s@));
    }
    out
}

/// Deserialize one state from a whole buffer: succeeds exactly when the
/// buffer is the encoding of one state, with nothing following it.
pub fn deserialize_state(bytes: &[u8]) -> (r: Option<EidDummyState>)
    ensures
        match r {
            Some(s) => parse_state_spec(bytes@, 0) == Some((s@, bytes@.len() as int)),
            None => match parse_state_spec(bytes@, 0) {
                Some((v, end)) => end != bytes@.len(),
                None => true,
            },
        },
{
    match parse_u64(bytes, 0) {
        Some((count, p1)) => match parse_members(bytes, p1) {
            Some((members, p2)) => {
                if p2 == bytes.len() {
                    Some(EidDummyState { members, evolvement_count: count })
                } else {
                    None
                }
            },
            None => None,
        },
        None => None,
    }
}

/// Reading bytes that hold the encoding of `s` yields `s`.
pub proof fn lemma_parse_state_prefix(b: Seq<u8>, pos: int, s: StateView)
    requires
        state_wf(s),
        0 <= pos,
        pos + ser_state(s).len() <= b.len(),
        b.subrange(pos, pos + ser_state(s).len()) == ser_state(s),
    ensures
        parse_state_spec(b, pos) == Some((s, pos + ser_state(s).len())),
{
    let enc = ser_state(s);
    let count = s.count as u64;
    let ms = s.members;
    assert forall|i: int| 0 <= i < enc.len() implies b[pos + i] == enc[i] by {
        assert(b.subrange(pos, pos + enc.len() as int)[i] == b[pos + i]);
    }
    assert(b.subrange(pos, pos + 8) =~= ser_u64(count));
    lemma_parse_u64_prefix(b, pos, count);
    let p1 = pos + 8;
    let mlen = ser_members(ms).len() as int;
    assert forall|i: int| 0 <= i < mlen implies b[p1 + i] == ser_members(ms)[i] by {
        assert(enc[8 + i] == ser_members(ms)[i]);
    }
    assert(b.subrange(p1, p1 + mlen) =~= ser_members(ms));
    lemma_parse_members_prefix(b, p1, ms);
    assert(StateView { members: ms, count: (s.count as u64) as nat } =~= s);
}

/// Round trip: parsing the encoding of a state yields that state.
pub proof fn lemma_state_round_trip(s: StateView)
    requires
        state_wf(s),
    ensures
        parse_state_spec(ser_state(s), 0) == Some((s, ser_state(s).len() as int)),
{
    let enc = ser_state(s);
    assert(enc.subrange(0, enc.len() as int) =~= enc);
    lemma_parse_state_prefix(enc, 0, s);
}

} // verus!
