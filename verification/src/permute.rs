//! The permutation policy: which extensions a connection may shuffle, how a
//! shuffle follows from the random numbers drawn for it, and what no shuffle
//! changes.

use vstd::prelude::*;
use crate::hello::{extension_block, extension_slots, present, Extension, Slot};
use crate::tls::{TlsProfile, TlsProfileView};
use crate::wire::ExtensionId;

verus! {

/// Whether an extension may change its place. GREASE, padding and the
/// pre-shared key keep theirs.
pub open spec fn permutable(extension: Extension) -> bool {
    extension != Extension::Grease && extension != Extension::Known(ExtensionId::Padding)
        && extension != Extension::Known(ExtensionId::PreSharedKey)
}

/// Whether an extension may change its place.
pub fn is_permutable(extension: Extension) -> (yes: bool)
    ensures
        yes == permutable(extension),
{
    match extension {
        Extension::Grease => false,
        Extension::Known(ExtensionId::Padding) => false,
        Extension::Known(ExtensionId::PreSharedKey) => false,
        _ => true,
    }
}

/// The places of the extensions that may move, in rising order.
pub open spec fn movable(block: Seq<Extension>) -> Seq<int>
    decreases block.len(),
{
    if block.len() == 0 {
        Seq::empty()
    } else if permutable(block.last()) {
        movable(block.drop_last()).push(block.len() - 1)
    } else {
        movable(block.drop_last())
    }
}

/// A sequence with the values at two places exchanged.
pub open spec fn swapped<T>(s: Seq<T>, a: int, b: int) -> Seq<T> {
    s.update(a, s[b]).update(b, s[a])
}

/// With which of the movable extensions `0..=j` the `j`-th changes places:
/// the `j`-th random number decides; where none was drawn, with itself.
pub open spec fn partner(picks: Seq<u32>, j: int) -> int {
    if 0 <= j < picks.len() {
        (picks[j] as int) % (j + 1)
    } else {
        j
    }
}

/// The block after the movable extensions `j`, `j - 1`, down to `1` have
/// each changed places with their partner.
pub open spec fn shuffle_steps(
    block: Seq<Extension>,
    places: Seq<int>,
    picks: Seq<u32>,
    j: int,
) -> Seq<Extension>
    decreases j,
{
    if j <= 0 {
        block
    } else {
        shuffle_steps(
            swapped(block, places[j], places[partner(picks, j)]),
            places,
            picks,
            j - 1,
        )
    }
}

/// A block of extensions shuffled by the random numbers `picks`: among the
/// extensions that may move, the last changes places with one that the last
/// number picks, then the one before it, and so on down to the second.
pub open spec fn shuffled(block: Seq<Extension>, picks: Seq<u32>) -> Seq<Extension> {
    shuffle_steps(block, movable(block), picks, movable(block).len() - 1)
}

/// The extension block that a connection sends: the profile's block, shuffled
/// where the profile permits it.
pub open spec fn emitted_block(
    profile: TlsProfileView,
    session_cached: bool,
    padding: bool,
    picks: Seq<u32>,
) -> Seq<Extension> {
    let block = extension_block(profile, session_cached, padding);
    if profile.toggles.permute_extensions {
        shuffled(block, picks)
    } else {
        block
    }
}

/// The movable places are places of the block, and what stands there may
/// move.
pub proof fn lemma_movable(block: Seq<Extension>)
    ensures
        movable(block).len() <= block.len(),
        forall|k: int|
            0 <= k < movable(block).len() ==> 0 <= #[trigger] movable(block)[k] < block.len()
                && permutable(block[movable(block)[k]]),
    decreases block.len(),
{
    if block.len() > 0 {
        let shorter = block.drop_last();
        lemma_movable(shorter);
        assert forall|k: int| 0 <= k < movable(block).len() implies 0 <= #[trigger] movable(
            block,
        )[k] < block.len() && permutable(block[movable(block)[k]]) by {
            if k < movable(shorter).len() {
                assert(movable(block)[k] == movable(shorter)[k]);
                assert(block[movable(shorter)[k]] == shorter[movable(shorter)[k]]);
            }
        }
    }
}

/// Exchanging two values changes no count.
pub proof fn lemma_swapped_multiset<T>(s: Seq<T>, a: int, b: int)
    requires
        0 <= a < s.len(),
        0 <= b < s.len(),
    ensures
        swapped(s, a, b).to_multiset() == s.to_multiset(),
        swapped(s, a, b).len() == s.len(),
{
    broadcast use vstd::seq_lib::group_to_multiset_ensures;

    if a == b {
        assert(swapped(s, a, b) =~= s);
    } else {
        let u = s.update(a, s[b]);
        let w = swapped(s, a, b);
        vstd::seq_lib::to_multiset_remove(s, a);
        vstd::seq_lib::to_multiset_remove(u, a);
        assert(u.remove(a) =~= s.remove(a));
        vstd::seq_lib::to_multiset_remove(u, b);
        vstd::seq_lib::to_multiset_remove(w, b);
        assert(w.remove(b) =~= u.remove(b));
        assert(u.to_multiset().count(s[b]) > 0) by {
            assert(u.contains(u[a]));
        }
        assert(w.to_multiset().count(s[a]) > 0) by {
            assert(w.contains(w[b]));
        }
        assert(s.to_multiset().count(s[a]) > 0) by {
            assert(s.contains(s[a]));
        }
        assert(u.to_multiset().count(u[b]) > 0) by {
            assert(u.contains(u[b]));
        }
        assert(w.to_multiset() =~= s.to_multiset());
    }
}

/// What the steps of a shuffle keep: the length, the count of each
/// extension, every extension that may not move, and which places hold
/// extensions that may.
pub proof fn lemma_shuffle_steps(
    block: Seq<Extension>,
    places: Seq<int>,
    picks: Seq<u32>,
    j: int,
)
    requires
        j < places.len(),
        forall|k: int|
            0 <= k < places.len() ==> 0 <= #[trigger] places[k] < block.len() && permutable(
                block[places[k]],
            ),
    ensures
        shuffle_steps(block, places, picks, j).len() == block.len(),
        shuffle_steps(block, places, picks, j).to_multiset() == block.to_multiset(),
        forall|i: int|
            0 <= i < block.len() ==> permutable(#[trigger] shuffle_steps(block, places, picks, j)[i])
                == permutable(block[i]),
        forall|i: int|
            0 <= i < block.len() && !permutable(block[i]) ==> #[trigger] shuffle_steps(
                block,
                places,
                picks,
                j,
            )[i] == block[i],
    decreases j,
{
    if j > 0 {
        let p = partner(picks, j);
        assert(0 <= p <= j) by {
            if 0 <= j < picks.len() {
                assert(0 <= (picks[j] as int) % (j + 1) < j + 1);
            }
        }
        let a = places[j];
        let b = places[p];
        let next = swapped(block, a, b);
        lemma_swapped_multiset(block, a, b);
        assert forall|k: int| 0 <= k < places.len() implies 0 <= #[trigger] places[k] < next.len()
            && permutable(next[places[k]]) by {
            let i = places[k];
            if i == a {
                assert(next[i] == block[b] || next[i] == block[a]);
            } else if i == b {
                assert(next[i] == block[a]);
            } else {
                assert(next[i] == block[i]);
            }
        }
        lemma_shuffle_steps(next, places, picks, j - 1);
        let end = shuffle_steps(block, places, picks, j);
        assert forall|i: int| 0 <= i < block.len() implies permutable(#[trigger] end[i])
            == permutable(block[i]) by {
            if i == a {
                assert(next[i] == block[b] || next[i] == block[a]);
            } else if i == b {
                assert(next[i] == block[a]);
            } else {
                assert(next[i] == block[i]);
            }
        }
        assert forall|i: int| 0 <= i < block.len() && !permutable(block[i]) implies #[trigger] end[i]
            == block[i] by {
            assert(i != a && i != b);
            assert(next[i] == block[i]);
        }
    }
}

/// The permutation policy. Whatever numbers are drawn, a shuffle keeps the
/// number of extensions and how often each occurs, and every extension that
/// may not move stays where it was.
pub proof fn lemma_permutation_policy(block: Seq<Extension>, picks: Seq<u32>)
    ensures
        shuffled(block, picks).len() == block.len(),
        shuffled(block, picks).to_multiset() == block.to_multiset(),
        forall|i: int|
            0 <= i < block.len() && !permutable(block[i]) ==> #[trigger] shuffled(block, picks)[i]
                == block[i],
        forall|i: int|
            0 <= i < block.len() ==> permutable(#[trigger] shuffled(block, picks)[i])
                == permutable(block[i]),
{
    lemma_movable(block);
    lemma_shuffle_steps(block, movable(block), picks, movable(block).len() - 1);
}

/// A shuffle for which no numbers were drawn changes nothing.
pub proof fn lemma_no_picks_no_change(block: Seq<Extension>)
    ensures
        shuffled(block, Seq::empty()) == block,
{
    lemma_movable(block);
    lemma_steps_without_picks(block, movable(block), movable(block).len() - 1);
}

proof fn lemma_steps_without_picks(block: Seq<Extension>, places: Seq<int>, j: int)
    requires
        j < places.len(),
        forall|k: int| 0 <= k < places.len() ==> 0 <= #[trigger] places[k] < block.len(),
    ensures
        shuffle_steps(block, places, Seq::empty(), j) == block,
    decreases j,
{
    if j > 0 {
        assert(swapped(block, places[j], places[j]) =~= block);
        lemma_steps_without_picks(block, places, j - 1);
    }
}

/// Whether one of the slots sends `extension`.
pub open spec fn sends(slots: Seq<Slot>, extension: Extension) -> bool {
    exists|k: int| 0 <= k < slots.len() && #[trigger] slots[k] == (true, extension)
}

/// Every extension of a block stands in one of the slots that are sent.
pub proof fn lemma_present(slots: Seq<Slot>)
    ensures
        present(slots).len() <= slots.len(),
        forall|i: int| 0 <= i < present(slots).len() ==> sends(slots, #[trigger] present(slots)[i]),
    decreases slots.len(),
{
    if slots.len() > 0 {
        let shorter = slots.drop_last();
        lemma_present(shorter);
        assert forall|i: int| 0 <= i < present(slots).len() implies sends(
            slots,
            #[trigger] present(slots)[i],
        ) by {
            if i < present(shorter).len() {
                assert(present(slots)[i] == present(shorter)[i]);
                assert(sends(shorter, present(shorter)[i]));
                let k = choose|k: int|
                    0 <= k < shorter.len() && #[trigger] shorter[k] == (true, present(shorter)[i]);
                assert(slots[k] == shorter[k]);
            } else {
                assert(slots[slots.len() - 1] == (true, present(slots)[i]));
            }
        }
    }
}

/// The pre-shared key stays last. Where a connection offers a pre-shared
/// key, it is the last extension of the block sent, shuffled or not, and it
/// stands nowhere else; where the hello is padded, the padding stands right
/// before it, or last where no pre-shared key is offered.
pub proof fn lemma_pre_shared_key_last(
    profile: TlsProfileView,
    session_cached: bool,
    padding: bool,
    picks: Seq<u32>,
)
    ensures
        ({
            let sent = emitted_block(profile, session_cached, padding, picks);
            let psk = Extension::Known(ExtensionId::PreSharedKey);
            let pad = Extension::Known(ExtensionId::Padding);
            let offered = profile.toggles.pre_shared_key && session_cached;
            &&& offered ==> sent.len() > 0 && sent.last() == psk
            &&& forall|i: int| 0 <= i < sent.len() - 1 ==> #[trigger] sent[i] != psk
            &&& !offered ==> forall|i: int| 0 <= i < sent.len() ==> #[trigger] sent[i] != psk
            &&& padding && offered ==> sent.len() > 1 && sent[sent.len() - 2] == pad
            &&& padding && !offered ==> sent.len() > 0 && sent.last() == pad
        }),
{
    let slots = extension_slots(profile, session_cached, padding);
    let block = extension_block(profile, session_cached, padding);
    let sent = emitted_block(profile, session_cached, padding, picks);
    let psk = Extension::Known(ExtensionId::PreSharedKey);
    let pad = Extension::Known(ExtensionId::Padding);
    let offered = profile.toggles.pre_shared_key && session_cached;
    let upto_padding = slots.drop_last();
    let upto_ech = upto_padding.drop_last();
    assert(slots.len() == 19);
    assert(block == if offered {
        present(upto_padding).push(psk)
    } else {
        present(upto_padding)
    });
    assert(present(upto_padding) == if padding {
        present(upto_ech).push(pad)
    } else {
        present(upto_ech)
    });
    lemma_present(upto_padding);
    lemma_present(upto_ech);
    assert forall|i: int| 0 <= i < present(upto_padding).len() implies #[trigger] present(
        upto_padding,
    )[i] != psk by {
        assert(sends(upto_padding, present(upto_padding)[i]));
        let k = choose|k: int|
            0 <= k < upto_padding.len() && #[trigger] upto_padding[k] == (
                true,
                present(upto_padding)[i],
            );
        assert(upto_padding[k] == slots[k]);
    }
    lemma_permutation_policy(block, picks);
    assert forall|i: int| 0 <= i < sent.len() - 1 implies #[trigger] sent[i] != psk by {
        assert(block[i] != psk);
        if profile.toggles.permute_extensions {
            if !permutable(block[i]) {
                assert(sent[i] == block[i]);
            } else {
                assert(permutable(sent[i]));
            }
        }
    }
    if !offered {
        assert forall|i: int| 0 <= i < sent.len() implies #[trigger] sent[i] != psk by {
            assert(block[i] != psk);
            if profile.toggles.permute_extensions {
                if !permutable(block[i]) {
                    assert(sent[i] == block[i]);
                } else {
                    assert(permutable(sent[i]));
                }
            }
        }
    }
    if offered {
        assert(block[block.len() - 1] == psk);
        assert(sent[block.len() - 1] == psk);
    }
    if padding {
        let at = if offered {
            block.len() - 2
        } else {
            block.len() - 1
        };
        assert(block[at] == pad);
        assert(sent[at] == pad);
    }
}

/// Two connections of one profile. Whatever numbers each of them draws, both
/// send the same extensions as often; and where the profile forbids the
/// permutation, both send them in the same order.
pub proof fn lemma_two_connections(
    profile: TlsProfileView,
    session_cached: bool,
    padding: bool,
    first_picks: Seq<u32>,
    second_picks: Seq<u32>,
)
    ensures
        emitted_block(profile, session_cached, padding, first_picks).to_multiset()
            == emitted_block(profile, session_cached, padding, second_picks).to_multiset(),
        emitted_block(profile, session_cached, padding, first_picks).len() == emitted_block(
            profile,
            session_cached,
            padding,
            second_picks,
        ).len(),
        !profile.toggles.permute_extensions ==> emitted_block(
            profile,
            session_cached,
            padding,
            first_picks,
        ) == emitted_block(profile, session_cached, padding, second_picks),
{
    let block = extension_block(profile, session_cached, padding);
    lemma_permutation_policy(block, first_picks);
    lemma_permutation_policy(block, second_picks);
}

/// A block of extensions shuffled by the random numbers `picks`. The caller
/// draws the numbers, one for each extension, anew for every connection;
/// with the same numbers the same block comes out.
pub fn permute_extensions(block: Vec<Extension>, picks: &Vec<u32>) -> (out: Vec<Extension>)
    ensures
        out@ == shuffled(block@, picks@),
{
    let ghost start = block@;
    let mut places: Vec<usize> = Vec::new();
    let mut i: usize = 0;
    assert(start.take(0) =~= Seq::empty());
    while i < block.len()
        invariant
            i <= block@.len(),
            start == block@,
            places@.len() <= i,
            Seq::new(places@.len(), |k: int| places@[k] as int) == movable(start.take(i as int)),
        decreases block@.len() - i,
    {
        let ghost before = Seq::new(places@.len(), |k: int| places@[k] as int);
        proof {
            let next = start.take(i + 1);
            assert(next.drop_last() =~= start.take(i as int));
            assert(next.last() == start[i as int]);
        }
        if is_permutable(block[i]) {
            places.push(i);
            assert(Seq::new(places@.len(), |k: int| places@[k] as int) =~= before.push(i as int));
        }
        i += 1;
    }
    assert(start.take(i as int) =~= start);
    let ghost spots = movable(start);
    proof {
        lemma_movable(start);
    }
    let mut out = block;
    if places.len() < 2 {
        assert(shuffled(start, picks@) == start) by {
            if spots.len() == 1 {
                assert(shuffle_steps(start, spots, picks@, 0) == start);
            }
        }
        return out;
    }
    let mut j: usize = places.len() - 1;
    while j > 0
        invariant
            j < places@.len(),
            spots == Seq::new(places@.len(), |k: int| places@[k] as int),
            out@.len() == start.len(),
            forall|k: int| 0 <= k < spots.len() ==> 0 <= #[trigger] spots[k] < start.len(),
            shuffle_steps(out@, spots, picks@, j as int) == shuffled(start, picks@),
        decreases j,
    {
        let p: usize = if j < picks.len() {
            (picks[j] as usize) % (j + 1)
        } else {
            j
        };
        assert(p == partner(picks@, j as int));
        assert(p <= j);
        let a = places[j];
        let b = places[p];
        assert(a == spots[j as int] && b == spots[p as int]);
        let ghost before = out@;
        let first = out[a];
        let second = out[b];
        out.set(a, second);
        out.set(b, first);
        assert(out@ =~= swapped(before, a as int, b as int));
        j -= 1;
    }
    out
}

/// The extension block that a connection sends: the profile's block in its
/// fixed order, shuffled by `picks` where the profile permits it.
pub fn emit_extensions(
    profile: &TlsProfile,
    session_cached: bool,
    padding: bool,
    picks: &Vec<u32>,
) -> (sent: Vec<Extension>)
    ensures
        sent@ == emitted_block(profile@, session_cached, padding, picks@),
{
    let block = crate::hello::extensions(profile, session_cached, padding);
    if profile.toggles().permute_extensions {
        permute_extensions(block, picks)
    } else {
        block
    }
}

} // verus!
