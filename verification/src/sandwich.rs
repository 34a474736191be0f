//! The sandwich tracker: its header, its growth, and the identity and leader tables that
//! are written into it.
use vstd::prelude::*;
use crate::bytes::{
    le_u16, le_u64, lemma_le_u64_concat3, lemma_u64_le_roundtrip, read_u16_le, read_u64_le, u64_le_bytes,
    u64_to_le_bytes,
};
use crate::error::ErrorCode;

verus! {

/// The size, in bytes, to which a tracker account grows.
pub const TRACKER_MAX_SIZE: u64 = 285656;

/// The most that one extension adds to a tracker.
pub const TRACKER_GROWTH_STEP: u64 = 10240;

/// The magic number at the start of a tracker's header.
pub const TRACKER_MAGIC: u64 = 0x8373e4e400d333af;

/// The factor from a tracker's creation slot to the last slot it serves.
pub const TRACKER_SLOT_SPAN: u64 = 432000;

/// The offset, in leader entries, of the leader table inside the tracker's leader area.
pub const LEADER_TABLE_BASE: u64 = 65560;

/// One validator identity of the tracker: four words.
#[derive(Clone, Copy, Debug, PartialEq, Eq, Structural)]
pub struct TrackerIdentity {
    pub data1: u64,
    pub data2: u64,
    pub data3: u64,
    pub data4: u64,
}

/// The tracker's state: its grown size, its identities and its leader schedule.
pub struct SandwichTracker {
    pub count: u64,
    pub identities: Vec<TrackerIdentity>,
    pub leaders: Vec<u16>,
}

/// The size after one extension: at most 10240 more, and never past 285656; a size already
/// past 285655 is left alone.
pub open spec fn extend_step(size: u64) -> u64 {
    if size > TRACKER_MAX_SIZE - 1 {
        size
    } else if TRACKER_MAX_SIZE - size > TRACKER_GROWTH_STEP {
        (size + TRACKER_GROWTH_STEP) as u64
    } else {
        TRACKER_MAX_SIZE
    }
}

/// The size after `k` extensions.
pub open spec fn extend_steps(size: u64, k: nat) -> u64
    decreases k,
{
    if k == 0 {
        size
    } else {
        extend_step(extend_steps(size, (k - 1) as nat))
    }
}

/// The size of a tracker account after one extension (see `extend_step`).
pub fn extended_tracker_size(current_size: u64) -> (r: u64)
    ensures
        r == extend_step(current_size),
{
    if current_size > 285655 {
        return current_size;
    }
    let mut extension_size = TRACKER_MAX_SIZE.saturating_sub(current_size);
    if extension_size > TRACKER_GROWTH_STEP {
        extension_size = TRACKER_GROWTH_STEP;
    }
    current_size + extension_size
}

/// Grows the tracker's recorded size by one extension (see `extend_step`).
pub fn extend_sandwich_tracker(tracker: &mut SandwichTracker)
    ensures
        final(tracker).count == extend_step(old(tracker).count),
        final(tracker).identities@ == old(tracker).identities@,
        final(tracker).leaders@ == old(tracker).leaders@,
{
    let current_count = tracker.count;
    if current_count > 285655 {
        return;
    }
    let mut increment = 285656u64.saturating_sub(current_count);
    if increment > TRACKER_GROWTH_STEP {
        increment = TRACKER_GROWTH_STEP;
    }
    tracker.count = tracker.count.saturating_add(increment);
}

/// Extensions never take a size up to the maximum past it, grow it by at most one step each,
/// and leave the maximum where it is: after `k` of them a size `s` at most the maximum stands
/// at `min(s + 10240 k, 285656)`.
pub proof fn lemma_extend_steps(size: u64, k: nat)
    requires
        size <= TRACKER_MAX_SIZE,
    ensures
        extend_steps(size, k) == if size + TRACKER_GROWTH_STEP * k >= TRACKER_MAX_SIZE {
            TRACKER_MAX_SIZE as int
        } else {
            size + TRACKER_GROWTH_STEP * k
        },
    decreases k,
{
    if k > 0 {
        lemma_extend_steps(size, (k - 1) as nat);
    }
}

/// A size past the maximum is never changed by an extension, and an extension never shrinks a
/// size.
pub proof fn lemma_extend_monotone(size: u64)
    ensures
        extend_step(size) >= size,
        size >= TRACKER_MAX_SIZE ==> extend_step(size) == size,
        extend_step(size) - size <= TRACKER_GROWTH_STEP,
{
}

/// The 24-byte header of a new tracker created at `slot`: the magic number, the slot and the
/// last slot served (`slot * 432000`), each little-endian.
pub open spec fn tracker_header(slot: u64) -> Seq<u8> {
    u64_le_bytes(TRACKER_MAGIC) + u64_le_bytes(slot) + u64_le_bytes(
        (slot * TRACKER_SLOT_SPAN) as u64,
    )
}

/// A new tracker: its header for the creation `slot`, and the payer's balance after paying
/// `rent_exempt_lamports`; `Overflow` where the last slot served or the payment leaves `u64`.
pub fn create_sandwich_tracker(slot: u64, payer_lamports: u64, rent_exempt_lamports: u64) -> (r:
    Result<([u8; 24], u64), ErrorCode>)
    ensures
        slot * TRACKER_SLOT_SPAN > u64::MAX ==> r == Err::<([u8; 24], u64), ErrorCode>(
            ErrorCode::Overflow,
        ),
        slot * TRACKER_SLOT_SPAN <= u64::MAX && payer_lamports < rent_exempt_lamports ==> r
            == Err::<([u8; 24], u64), ErrorCode>(ErrorCode::Overflow),
        slot * TRACKER_SLOT_SPAN <= u64::MAX && payer_lamports >= rent_exempt_lamports ==> (r matches Ok(
            (header, payer),
        ) && header@ == tracker_header(slot) && payer == payer_lamports - rent_exempt_lamports),
{
    let max_slot = match slot.checked_mul(TRACKER_SLOT_SPAN) {
        Some(v) => v,
        None => return Err(ErrorCode::Overflow),
    };
    let magic = u64_to_le_bytes(TRACKER_MAGIC);
    let current = u64_to_le_bytes(slot);
    let last = u64_to_le_bytes(max_slot);
    let mut data = [0u8; 24];
    let mut i: usize = 0;
    while i < 8
        invariant
            0 <= i <= 8,
            forall|j: int| 0 <= j < i ==> data@[j] == magic@[j],
            forall|j: int| 0 <= j < i ==> data@[8 + j] == current@[j],
            forall|j: int| 0 <= j < i ==> data@[16 + j] == last@[j],
        decreases 8 - i,
    {
        data[i] = magic[i];
        data[8 + i] = current[i];
        data[16 + i] = last[i];
        i = i + 1;
    }
    assert(data@ =~= tracker_header(slot));
    let new_payer = match payer_lamports.checked_sub(rent_exempt_lamports) {
        Some(v) => v,
        None => return Err(ErrorCode::Overflow),
    };
    Ok((data, new_payer))
}

/// Reading the header of a new tracker gives back its magic number, its slot and its last
/// slot served.
pub proof fn lemma_tracker_header_reads_back(slot: u64)
    requires
        slot * TRACKER_SLOT_SPAN <= u64::MAX,
    ensures
        le_u64(tracker_header(slot), 0) == TRACKER_MAGIC,
        le_u64(tracker_header(slot), 8) == slot,
        le_u64(tracker_header(slot), 16) == slot * TRACKER_SLOT_SPAN,
{
    let last = (slot * TRACKER_SLOT_SPAN) as u64;
    assert(last == slot * TRACKER_SLOT_SPAN);
    lemma_u64_le_roundtrip(TRACKER_MAGIC);
    lemma_u64_le_roundtrip(slot);
    lemma_u64_le_roundtrip(last);
    lemma_le_u64_concat3(u64_le_bytes(TRACKER_MAGIC), u64_le_bytes(slot), u64_le_bytes(last));
}

/// The number of identities that a block of identity data carries in full: the count at
/// offset 8, limited by the 32-byte records that follow the 16-byte head; none where the block
/// is shorter than its head.
pub open spec fn identities_in_block(data: Seq<u8>) -> int {
    if data.len() < 16 {
        0
    } else {
        let fit = (data.len() - 16) / 32;
        if le_u64(data, 8) < fit {
            le_u64(data, 8)
        } else {
            fit
        }
    }
}

/// The `i`-th identity record of a block of identity data.
pub open spec fn identity_record(data: Seq<u8>, i: int) -> TrackerIdentity {
    TrackerIdentity {
        data1: le_u64(data, 16 + 32 * i) as u64,
        data2: le_u64(data, 16 + 32 * i + 8) as u64,
        data3: le_u64(data, 16 + 32 * i + 16) as u64,
        data4: le_u64(data, 16 + 32 * i + 24) as u64,
    }
}

/// An identity table after writing `x` at position `dest`: in place where the table reaches
/// that far, appended at its end otherwise.
pub open spec fn place_identity(ids: Seq<TrackerIdentity>, dest: int, x: TrackerIdentity) -> Seq<
    TrackerIdentity,
> {
    if dest >= ids.len() {
        ids.push(x)
    } else {
        ids.update(dest, x)
    }
}

/// An identity table after the first `n` records of `data` are written from position
/// `offset` on.
pub open spec fn written_identities(ids: Seq<TrackerIdentity>, data: Seq<u8>, offset: int, n: nat) -> Seq<
    TrackerIdentity,
>
    decreases n,
{
    if n == 0 {
        ids
    } else {
        place_identity(
            written_identities(ids, data, offset, (n - 1) as nat),
            offset + n - 1,
            identity_record(data, n - 1),
        )
    }
}

/// The inputs on which writing identities keeps its positions within `u64`.
pub open spec fn identities_fit(data: Seq<u8>) -> bool {
    identities_in_block(data) == 0 || le_u64(data, 0) + identities_in_block(data) - 1 <= u64::MAX
}

/// Reading back written identities gives what was written: where the first position lies within
/// the table, writing `n` records from it leaves record `i` at position `offset + i`, grows the
/// table only as far as the last record needs, and keeps every other identity.
pub proof fn lemma_identities_read_back(
    ids: Seq<TrackerIdentity>,
    data: Seq<u8>,
    offset: int,
    n: nat,
)
    requires
        0 <= offset <= ids.len(),
    ensures
        written_identities(ids, data, offset, n).len() == if ids.len() < offset + n {
            offset + n
        } else {
            ids.len() as int
        },
        forall|i: int|
            0 <= i < n ==> #[trigger] written_identities(ids, data, offset, n)[offset + i]
                == identity_record(data, i),
        forall|j: int|
            0 <= j < ids.len() && !(offset <= j < offset + n) ==> #[trigger] written_identities(
                ids,
                data,
                offset,
                n,
            )[j] == ids[j],
    decreases n,
{
    if n > 0 {
        let m = (n - 1) as nat;
        lemma_identities_read_back(ids, data, offset, m);
        let prev = written_identities(ids, data, offset, m);
        let cur = written_identities(ids, data, offset, n);
        assert(cur == place_identity(prev, offset + m, identity_record(data, m as int)));
        assert forall|i: int| 0 <= i < n implies #[trigger] cur[offset + i] == identity_record(
            data,
            i,
        ) by {
            if i < m {
                assert(prev[offset + i] == identity_record(data, i));
            }
        }
        assert forall|j: int|
            0 <= j < ids.len() && !(offset <= j < offset + n) implies #[trigger] cur[j] == ids[j] by {
            assert(prev[j] == ids[j]);
        }
    }
}

/// Whether writing the identities of `identity_data` keeps its positions within `u64` (see
/// `identities_fit`).
pub fn identities_in_range(identity_data: &[u8]) -> (r: bool)
    ensures
        r == identities_fit(identity_data@),
{
    if identity_data.len() < 16 {
        return true;
    }
    let count = read_u64_le(identity_data, 8);
    let fit = ((identity_data.len() - 16) / 32) as u64;
    let n = if count < fit {
        count
    } else {
        fit
    };
    if n == 0 {
        return true;
    }
    let offset = read_u64_le(identity_data, 0);
    offset.checked_add(n - 1).is_some()
}

/// Writes the identity records of `identity_data` into the tracker, from the position at
/// offset 0 of the block on (see `written_identities`).
pub fn write_sandwich_tracker_identities(tracker: &mut SandwichTracker, identity_data: &[u8])
    requires
        identities_fit(identity_data@),
    ensures
        final(tracker).identities@ == written_identities(
            old(tracker).identities@,
            identity_data@,
            le_u64(identity_data@, 0),
            identities_in_block(identity_data@) as nat,
        ),
        final(tracker).count == old(tracker).count,
        final(tracker).leaders@ == old(tracker).leaders@,
{
    if identity_data.len() < 16 {
        return;
    }
    let identity_count = read_u64_le(identity_data, 8);
    if identity_count == 0 {
        return;
    }
    let offset = read_u64_le(identity_data, 0);
    let len = identity_data.len();
    let ghost n = identities_in_block(identity_data@);
    let mut i: u64 = 0;
    while i < identity_count
        invariant
            identity_data@.len() >= 16,
            len == identity_data@.len(),
            identity_count == le_u64(identity_data@, 8),
            offset == le_u64(identity_data@, 0),
            n == identities_in_block(identity_data@),
            identities_fit(identity_data@),
            0 <= i <= n,
            tracker.identities@ == written_identities(
                old(tracker).identities@,
                identity_data@,
                offset as int,
                i as nat,
            ),
            tracker.count == old(tracker).count,
            tracker.leaders@ == old(tracker).leaders@,
        ensures
            i == n,
            tracker.identities@ == written_identities(
                old(tracker).identities@,
                identity_data@,
                offset as int,
                n as nat,
            ),
            tracker.count == old(tracker).count,
            tracker.leaders@ == old(tracker).leaders@,
        decreases identity_count - i,
    {
        assert(32 * i + 16 <= identity_data@.len()) by (nonlinear_arith)
            requires
                i <= n,
                n <= (identity_data@.len() - 16) / 32,
                identity_data@.len() >= 16,
        ;
        assert(i as int <= len);
        let src_pos = 16 + (i as usize) * 32;
        if len - src_pos < 32 {
            assert(i == n) by (nonlinear_arith)
                requires
                    i <= n,
                    n <= (identity_data@.len() - 16) / 32,
                    identity_data@.len() - (16 + 32 * i) < 32,
                    identity_data@.len() >= 16,
            ;
            break;
        }
        assert(i < n) by (nonlinear_arith)
            requires
                i <= n,
                i < identity_count,
                n == (if identity_count < (identity_data@.len() - 16) / 32 { identity_count as int } else { (identity_data@.len() - 16) / 32 }),
                identity_data@.len() - (16 + 32 * i) >= 32,
                identity_data@.len() >= 16,
        ;
        let identity = TrackerIdentity {
            data1: read_u64_le(identity_data, src_pos),
            data2: read_u64_le(identity_data, src_pos + 8),
            data3: read_u64_le(identity_data, src_pos + 16),
            data4: read_u64_le(identity_data, src_pos + 24),
        };
        let dest_idx = offset + i;
        if dest_idx >= tracker.identities.len() as u64 {
            tracker.identities.push(identity);
        } else {
            tracker.identities.set(dest_idx as usize, identity);
        }
        i = i + 1;
    }
}

/// The number of leader entries that a block of leader data carries in full: the count at
/// offset 8, limited by the 2-byte entries that follow the 16-byte head; none where the block
/// is shorter than its head.
pub open spec fn leaders_in_block(data: Seq<u8>) -> int {
    if data.len() < 16 {
        0
    } else {
        let fit = (data.len() - 16) / 2;
        if le_u64(data, 8) < fit {
            le_u64(data, 8)
        } else {
            fit
        }
    }
}

/// The first position of a block's leader entries in the leader area: twice the block's
/// offset (kept to 64 bits) past the start of the leader table.
pub open spec fn leader_target(data: Seq<u8>) -> int {
    (le_u64(data, 0) * 2) % 0x1_0000_0000_0000_0000 + LEADER_TABLE_BASE
}

/// The length that the leader area must reach before a block is written: past the target by
/// twice the block's count.
pub open spec fn leader_area_needed(data: Seq<u8>) -> int {
    leader_target(data) + 2 * le_u64(data, 8)
}

/// The inputs on which writing leaders keeps its positions within the machine's integers.
pub open spec fn leaders_fit(data: Seq<u8>) -> bool {
    data.len() < 16 || le_u64(data, 8) == 0 || leader_area_needed(data) <= usize::MAX
}

/// The leader area after a block is written: grown with zeros to the needed length, then the
/// block's entries at every other position from the target on.
pub open spec fn written_leaders(leaders: Seq<u16>, data: Seq<u8>) -> Seq<u16> {
    if data.len() < 16 || le_u64(data, 8) == 0 {
        leaders
    } else {
        let len = if leaders.len() < leader_area_needed(data) {
            leader_area_needed(data)
        } else {
            leaders.len() as int
        };
        Seq::new(
            len as nat,
            |j: int|
                {
                    let k = j - leader_target(data);
                    if 0 <= k < 2 * leaders_in_block(data) && k % 2 == 0 {
                        le_u16(data, 16 + k) as u16
                    } else if j < leaders.len() {
                        leaders[j]
                    } else {
                        0u16
                    }
                },
        )
    }
}

/// Reading back written leaders gives what was written: the area reaches the length a block
/// needs, entry `k` of the block stands at position `2 k` past the target, and the entries before
/// the target are kept.
pub proof fn lemma_leaders_read_back(leaders: Seq<u16>, data: Seq<u8>)
    requires
        data.len() >= 16,
        le_u64(data, 8) != 0,
    ensures
        written_leaders(leaders, data).len() >= leader_area_needed(data),
        written_leaders(leaders, data).len() >= leaders.len(),
        forall|k: int|
            0 <= k < leaders_in_block(data) ==> #[trigger] written_leaders(leaders, data)[leader_target(
                data,
            ) + 2 * k] == le_u16(data, 16 + 2 * k) as u16,
        forall|j: int|
            0 <= j < leaders.len() && j < leader_target(data) ==> #[trigger] written_leaders(
                leaders,
                data,
            )[j] == leaders[j],
{
    let w = written_leaders(leaders, data);
    assert forall|k: int| 0 <= k < leaders_in_block(data) implies #[trigger] w[leader_target(data) + 2
        * k] == le_u16(data, 16 + 2 * k) as u16 by {
        let j = leader_target(data) + 2 * k;
        assert((j - leader_target(data)) % 2 == 0);
        assert(j < leader_area_needed(data));
    }
}

/// Whether writing the leaders of `leader_data` keeps its positions within the machine's integers
/// (see `leaders_fit`).
pub fn leaders_in_range(leader_data: &[u8]) -> (r: bool)
    ensures
        r == leaders_fit(leader_data@),
{
    if leader_data.len() < 16 {
        return true;
    }
    let count = read_u64_le(leader_data, 8);
    if count == 0 {
        return true;
    }
    let offset = read_u64_le(leader_data, 0);
    let target = (offset << 1) as u128 + LEADER_TABLE_BASE as u128;
    assert((offset << 1) == (offset * 2) % 0x1_0000_0000_0000_0000) by (bit_vector);
    let needed = target + 2 * (count as u128);
    needed <= usize::MAX as u128
}

/// Writes the leader entries of `leader_data` into the tracker's leader area
/// (see `written_leaders`).
pub fn write_sandwich_tracker_leaders(tracker: &mut SandwichTracker, leader_data: &[u8])
    requires
        leaders_fit(leader_data@),
    ensures
        final(tracker).leaders@ == written_leaders(old(tracker).leaders@, leader_data@),
        final(tracker).count == old(tracker).count,
        final(tracker).identities@ == old(tracker).identities@,
{
    if leader_data.len() < 16 {
        return;
    }
    let leader_count = read_u64_le(leader_data, 8);
    if leader_count == 0 {
        return;
    }
    let offset = read_u64_le(leader_data, 0);
    let base_offset = offset << 1;
    assert(base_offset == (offset * 2) % 0x1_0000_0000_0000_0000) by (bit_vector)
        requires
            base_offset == offset << 1,
    ;
    let target_base_offset = base_offset + LEADER_TABLE_BASE;
    let required_size = (target_base_offset + leader_count * 2) as usize;
    let ghost old_leaders = tracker.leaders@;
    if tracker.leaders.len() < required_size {
        tracker.leaders.resize(required_size, 0);
    }
    let ghost grown = tracker.leaders@;
    let ghost n = leaders_in_block(leader_data@);
    let mut i: u64 = 0;
    while i < leader_count
        invariant
            leader_data@.len() >= 16,
            leader_count == le_u64(leader_data@, 8),
            leader_count > 0,
            target_base_offset == leader_target(leader_data@),
            required_size == leader_area_needed(leader_data@),
            n == leaders_in_block(leader_data@),
            0 <= i <= n,
            tracker.leaders@.len() == grown.len(),
            grown.len() >= required_size,
            forall|j: int|
                0 <= j < grown.len() ==> #[trigger] tracker.leaders@[j] == {
                    let k = j - target_base_offset;
                    if 0 <= k < 2 * i && k % 2 == 0 {
                        le_u16(leader_data@, 16 + k) as u16
                    } else {
                        grown[j]
                    }
                },
            tracker.count == old(tracker).count,
            tracker.identities@ == old(tracker).identities@,
        ensures
            i == n,
            tracker.leaders@.len() == grown.len(),
            forall|j: int|
                0 <= j < grown.len() ==> #[trigger] tracker.leaders@[j] == {
                    let k = j - target_base_offset;
                    if 0 <= k < 2 * n && k % 2 == 0 {
                        le_u16(leader_data@, 16 + k) as u16
                    } else {
                        grown[j]
                    }
                },
            tracker.count == old(tracker).count,
            tracker.identities@ == old(tracker).identities@,
        decreases leader_count - i,
    {
        let src_pos = 16 + (i as usize) * 2;
        if leader_data.len() - src_pos < 2 {
            break;
        }
        assert(i < n);
        let leader = read_u16_le(leader_data, src_pos);
        let dest_idx = (target_base_offset + i * 2) as usize;
        tracker.leaders.set(dest_idx, leader);
        i = i + 1;
    }
    assert forall|j: int| 0 <= j < grown.len() implies grown[j] == (if j < old_leaders.len() {
        old_leaders[j]
    } else {
        0u16
    }) by {
        if j < old_leaders.len() {
            assert(grown.subrange(0, old_leaders.len() as int)[j] == old_leaders[j]);
        }
    }
    let ghost expected = written_leaders(old_leaders, leader_data@);
    assert(expected.len() == grown.len());
    assert forall|j: int| 0 <= j < grown.len() implies tracker.leaders@[j] == expected[j] by {}
    assert(tracker.leaders@ =~= expected);
}

} // verus!
