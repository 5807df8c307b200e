use vstd::prelude::*;

use crate::protocol::{PollResult, ProtocolError};

verus! {

/// A position in the probe's capture buffer: the epoch (a count of buffer
/// wraps, modulo 256) and the offset within that wrap.
pub type Position = (u8, u16);

/// The outcome of feeding one poll result to the reconstructor.
#[derive(Debug, Clone, PartialEq, Eq)]
pub struct Step {
    /// The watermark after this poll: up to where bytes have been emitted.
    pub next: Option<Position>,
    /// The bytes that continue the trace stream.
    pub emit: Vec<u8>,
    /// Set when bytes were lost between the previous watermark and this poll.
    pub sync_lost: bool,
    /// Set when the poll found nothing new, so the caller may wait a little.
    pub idle: bool,
}

/// The epoch after `epoch`, wrapping from 255 to 0.
pub open spec fn next_epoch(epoch: u8) -> u8 {
    ((epoch + 1) % 256) as u8
}

/// Whether new bytes at `start` in `epoch` directly follow the watermark
/// `last`. Before anything was emitted, any bytes do.
pub open spec fn continuous(last: Option<Position>, epoch: u8, start: u16) -> bool {
    match last {
        None => true,
        Some((last_epoch, last_end)) => last_epoch == epoch && last_end == start,
    }
}

/// The bytes of `payload` from offset `from` on; none when `from` lies past its end.
pub open spec fn tail(payload: Seq<u8>, from: int) -> Seq<u8> {
    if from <= payload.len() {
        payload.subrange(from, payload.len() as int)
    } else {
        Seq::empty()
    }
}

/// The bytes that a full dump of `payload` at `epoch` adds to the stream,
/// given the watermark `last`.
pub open spec fn total_emission(last: Option<Position>, epoch: u8, payload: Seq<u8>) -> Seq<u8> {
    match last {
        None => payload,
        Some((last_epoch, last_end)) => if last_epoch == epoch {
            tail(payload, last_end as int)
        } else {
            Seq::empty()
        },
    }
}

/// Whether a full dump at `epoch` belongs to another epoch than the
/// watermark `last`, so that bytes of the watermark's epoch were lost.
pub open spec fn epoch_skipped(last: Option<Position>, epoch: u8) -> bool {
    match last {
        None => false,
        Some((last_epoch, _)) => last_epoch != epoch,
    }
}

/// One reconstruction step, as `(next watermark, emitted bytes, sync lost)`.
pub open spec fn step_spec(last: Option<Position>, epoch: u8, result: PollResult) -> Result<
    (Option<Position>, Seq<u8>, bool),
    ProtocolError,
> {
    match result {
        PollResult::Empty => Ok((last, Seq::empty(), false)),
        PollResult::Incremental { start, end, fragment } => if end < start {
            Err(ProtocolError::InvalidFillLevels { start, end })
        } else {
            Ok((Some((epoch, end)), fragment@, !continuous(last, epoch, start)))
        },
        PollResult::Total(payload) => Ok(
            (
                Some((next_epoch(epoch), 0u16)),
                total_emission(last, epoch, payload@),
                epoch_skipped(last, epoch),
            ),
        ),
    }
}

/// Feeds the result of one poll, taken at `epoch`, to the reconstructor whose
/// watermark is `last`.
///
/// An incremental result is emitted whole; it loses sync unless it starts at
/// the watermark. A full dump emits the part past the watermark when it is of
/// the watermark's epoch, all of it when nothing was emitted before, and
/// nothing (losing sync) otherwise; the watermark then moves to the start of
/// the next epoch. A watermark past the end of the dump leaves nothing of it
/// to emit. An incremental result whose end lies before its start is
/// refused, whatever the watermark.
pub fn step(last: Option<Position>, epoch: u8, result: &PollResult) -> (r: Result<
    Step,
    ProtocolError,
>)
    ensures
        match r {
            Ok(s) => step_spec(last, epoch, *result) == Ok::<
                (Option<Position>, Seq<u8>, bool),
                ProtocolError,
            >((s.next, s.emit@, s.sync_lost)) && s.idle == (*result is Empty),
            Err(e) => step_spec(last, epoch, *result) == Err::<
                (Option<Position>, Seq<u8>, bool),
                ProtocolError,
            >(e),
        },
{
    match result {
        PollResult::Empty => Ok(Step { next: last, emit: Vec::new(), sync_lost: false, idle: true }),
        PollResult::Incremental { start, end, fragment } => {
            if *end < *start {
                return Err(ProtocolError::InvalidFillLevels { start: *start, end: *end });
            }
            let continuous = match last {
                None => true,
                Some((last_epoch, last_end)) => last_epoch == epoch && last_end == *start,
            };
            Ok(
                Step {
                    next: Some((epoch, *end)),
                    emit: fragment.clone(),
                    sync_lost: !continuous,
                    idle: false,
                },
            )
        },
        PollResult::Total(payload) => {
            let next = Some((epoch.wrapping_add(1), 0u16));
            match last {
                None => Ok(Step { next, emit: payload.clone(), sync_lost: false, idle: false }),
                Some((last_epoch, last_end)) => {
                    if last_epoch == epoch {
                        let emit = tail_of(payload, last_end as usize);
                        Ok(Step { next, emit, sync_lost: false, idle: false })
                    } else {
                        Ok(Step { next, emit: Vec::new(), sync_lost: true, idle: false })
                    }
                },
            }
        },
    }
}

/// Copies the bytes of `payload` from offset `from` on.
fn tail_of(payload: &Vec<u8>, from: usize) -> (r: Vec<u8>)
    ensures
        r@ == tail(payload@, from as int),
{
    let mut r: Vec<u8> = Vec::new();
    let mut i: usize = from;
    while i < payload.len()
        invariant
            from <= i,
            i <= payload@.len() ==> r@ == payload@.subrange(from as int, i as int),
            i > payload@.len() ==> r@.len() == 0 && i == from,
        decreases payload@.len() - i,
    {
        r.push(payload[i]);
        assert(r@ =~= payload@.subrange(from as int, i + 1));
        i = i + 1;
    }
    proof {
        if from as int <= payload@.len() {
            assert(i == payload@.len());
        } else {
            assert(r@ =~= Seq::<u8>::empty());
        }
    }
    r
}

/// Continuity: an incremental result that starts where the previous one
/// ended, in the same epoch, loses no sync, and the two together emit the
/// two fragments one after the other, whatever the watermark before them.
pub proof fn lemma_continuity(
    last: Option<Position>,
    epoch: u8,
    start: u16,
    mid: u16,
    end: u16,
    first: Vec<u8>,
    second: Vec<u8>,
)
    requires
        start <= mid <= end,
    ensures
        ({
            let r1 = step_spec(last, epoch, PollResult::Incremental { start, end: mid, fragment: first });
            let (w1, out1, _) = r1->Ok_0;
            let r2 = step_spec(w1, epoch, PollResult::Incremental { start: mid, end, fragment: second });
            let (w2, out2, lost2) = r2->Ok_0;
            &&& r1 is Ok
            &&& r2 is Ok
            &&& w1 == Some((epoch, mid))
            &&& w2 == Some((epoch, end))
            &&& !lost2
            &&& out1 + out2 == first@ + second@
        }),
{
}

/// The first data ever seen is accepted whole and without loss of sync, and
/// sets the watermark to its end.
pub proof fn lemma_first_incremental(epoch: u8, start: u16, end: u16, fragment: Vec<u8>)
    requires
        start <= end,
    ensures
        step_spec(None, epoch, PollResult::Incremental { start, end, fragment }) == Ok::<
            (Option<Position>, Seq<u8>, bool),
            ProtocolError,
        >((Some((epoch, end)), fragment@, false)),
{
}

/// A full dump of the watermark's epoch emits exactly the bytes past the
/// watermark, so that what was emitted of that epoch before, followed by
/// what it emits, is the whole dump: nothing repeated and nothing dropped.
pub proof fn lemma_total_completes_epoch(epoch: u8, offset: u16, payload: Vec<u8>)
    requires
        offset <= payload@.len(),
    ensures
        ({
            let r = step_spec(Some((epoch, offset)), epoch, PollResult::Total(payload));
            let (w, out, lost) = r->Ok_0;
            &&& r is Ok
            &&& w == Some((next_epoch(epoch), 0u16))
            &&& !lost
            &&& out == payload@.subrange(offset as int, payload@.len() as int)
            &&& payload@.subrange(0, offset as int) + out == payload@
        }),
{
    let p = payload@;
    assert(p.subrange(0, offset as int) + p.subrange(offset as int, p.len() as int) =~= p);
}

/// A full dump of another epoch than the watermark's emits nothing and loses
/// sync.
pub proof fn lemma_total_epoch_skip(last_epoch: u8, offset: u16, epoch: u8, payload: Vec<u8>)
    requires
        last_epoch != epoch,
    ensures
        step_spec(Some((last_epoch, offset)), epoch, PollResult::Total(payload)) == Ok::<
            (Option<Position>, Seq<u8>, bool),
            ProtocolError,
        >((Some((next_epoch(epoch), 0u16)), Seq::empty(), true)),
{
}

/// After a full dump, whatever the watermark was, new bytes at the start of
/// the next epoch (wrapping from 255 to 0) are continuous.
pub proof fn lemma_total_then_resume(
    last: Option<Position>,
    epoch: u8,
    payload: Vec<u8>,
    end: u16,
    fragment: Vec<u8>,
)
    ensures
        ({
            let r1 = step_spec(last, epoch, PollResult::Total(payload));
            let (w1, _, _) = r1->Ok_0;
            let r2 = step_spec(
                w1,
                next_epoch(epoch),
                PollResult::Incremental { start: 0, end, fragment },
            );
            let (w2, out2, lost2) = r2->Ok_0;
            &&& r1 is Ok
            &&& w1 == Some((next_epoch(epoch), 0u16))
            &&& r2 is Ok
            &&& !lost2
            &&& out2 == fragment@
            &&& w2 == Some((next_epoch(epoch), end))
        }),
        next_epoch(255) == 0,
{
}

/// An incremental result whose end lies before its start is refused, whatever
/// the watermark.
pub proof fn lemma_malformed_rejected(
    last: Option<Position>,
    epoch: u8,
    start: u16,
    end: u16,
    fragment: Vec<u8>,
)
    requires
        end < start,
    ensures
        step_spec(last, epoch, PollResult::Incremental { start, end, fragment }) == Err::<
            (Option<Position>, Seq<u8>, bool),
            ProtocolError,
        >(ProtocolError::InvalidFillLevels { start, end }),
{
}

} // verus!
