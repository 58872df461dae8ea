//! Frame hand-off between a capture backend and the pacer that feeds
//! ffmpeg: a "latest frame" slot, a small pool of reusable buffers, the
//! row copy that packs captured pixels, and the sample-and-hold pacer.

use vstd::prelude::*;

verus! {

/// A single tightly-packed BGRA frame (stride removed at copy time).
pub struct Frame {
    pub width: u32,
    pub height: u32,
    pub data: Vec<u8>,
}

/// A frame as plain values: width, height and bytes.
pub type FrameView = (u32, u32, Seq<u8>);

impl Frame {
    pub open spec fn view_frame(&self) -> FrameView {
        (self.width, self.height, self.data@)
    }
}

/// The recycled frame buffers: a bounded crossbeam channel whose both ends
/// this value owns, so that only the functions below change what it holds.
#[verifier::external_body]
pub struct BufferPool {
    tx: crossbeam_channel::Sender<Vec<u8>>,
    rx: crossbeam_channel::Receiver<Vec<u8>>,
}

/// The buffers waiting in `pool`, oldest first.
pub uninterp spec fn pool_contents(pool: BufferPool) -> Seq<Seq<u8>>;

/// The number of buffers `pool` can hold.
pub uninterp spec fn pool_capacity(pool: BufferPool) -> nat;

/// An empty pool holding at most `cap` buffers
/// (`crossbeam_channel::bounded(cap)`, an array-backed channel).
/// Trusted: the channel starts empty with capacity `cap`. A zero capacity
/// would make a rendezvous channel instead, and an oversized one makes
/// `bounded` panic; `requires` leaves both out.
#[verifier::external_body]
fn pool_new(cap: usize) -> (p: BufferPool)
    requires
        0 < cap <= 0x1000,
    ensures
        pool_contents(p) == Seq::<Seq<u8>>::empty(),
        pool_capacity(p) == cap,
{
    let (tx, rx) = crossbeam_channel::bounded(cap);
    BufferPool { tx, rx }
}

/// Takes the oldest waiting buffer, if any (`Receiver::try_recv`).
/// Trusted: on the array channel `try_recv` removes and returns the oldest
/// message, or returns `Empty` when there is none; the pool also owns the
/// sender, so the channel cannot be disconnected.
#[verifier::external_body]
fn pool_take(pool: &mut BufferPool) -> (r: Option<Vec<u8>>)
    ensures
        pool_capacity(*final(pool)) == pool_capacity(*old(pool)),
        pool_contents(*old(pool)).len() == 0 ==> r is None && pool_contents(*final(pool))
            == pool_contents(*old(pool)),
        pool_contents(*old(pool)).len() > 0 ==> (r matches Some(b) && b@ == pool_contents(
            *old(pool),
        )[0]) && pool_contents(*final(pool)) == pool_contents(*old(pool)).drop_first(),
{
    pool.rx.try_recv().ok()
}

/// Offers `buf` to the pool (`Sender::try_send`); returns whether it was
/// kept. Trusted: on the array channel `try_send` appends the message when
/// fewer than `capacity` are waiting and otherwise returns `Full` with the
/// message, which is then dropped.
#[verifier::external_body]
fn pool_offer(pool: &mut BufferPool, buf: Vec<u8>) -> (kept: bool)
    ensures
        pool_capacity(*final(pool)) == pool_capacity(*old(pool)),
        pool_contents(*old(pool)).len() < pool_capacity(*old(pool)) ==> kept && pool_contents(
            *final(pool),
        ) == pool_contents(*old(pool)).push(buf@),
        pool_contents(*old(pool)).len() >= pool_capacity(*old(pool)) ==> !kept && pool_contents(
            *final(pool),
        ) == pool_contents(*old(pool)),
{
    pool.tx.try_send(buf).is_ok()
}

/// The pool after `buf` is offered: kept when there is room.
pub open spec fn offered(pool: Seq<Seq<u8>>, buf: Seq<u8>) -> Seq<Seq<u8>> {
    if pool.len() < 2 {
        pool.push(buf)
    } else {
        pool
    }
}

/// The pool after a buffer is taken from it, if it held one.
pub open spec fn taken(pool: Seq<Seq<u8>>) -> Seq<Seq<u8>> {
    if pool.len() > 0 {
        pool.drop_first()
    } else {
        pool
    }
}

/// The pool after a frame is published over `latest`: the oldest pooled
/// buffer, if any, carries the new frame, and the replaced frame's buffer
/// takes its place in the pool; with the pool empty, the replaced frame's
/// own buffer is overwritten in place.
pub open spec fn published_pool(latest: Option<FrameView>, pool: Seq<Seq<u8>>) -> Seq<Seq<u8>> {
    if pool.len() == 0 {
        pool
    } else {
        match latest {
            Some(f) => pool.drop_first().push(f.2),
            None => pool.drop_first(),
        }
    }
}

/// At most 2 raw frame buffers alive at once: a "latest frame" slot plus one
/// in-flight write, reused via a small pool. No unbounded queues.
pub struct FrameSlot {
    latest: Option<Frame>,
    pool: BufferPool,
    pool_len: usize,
    lent: usize,
}

impl FrameSlot {
    /// The latest published frame not yet taken.
    pub closed spec fn latest(&self) -> Option<FrameView> {
        match self.latest {
            Some(f) => Some(f.view_frame()),
            None => None,
        }
    }

    /// The buffers waiting for reuse, oldest first.
    pub closed spec fn pooled(&self) -> Seq<Seq<u8>> {
        pool_contents(self.pool)
    }

    /// The frames handed out by `take` and not yet given back by `recycle`.
    pub closed spec fn lent(&self) -> nat {
        self.lent as nat
    }

    /// The frame buffers alive: the latest frame, the pooled buffers and
    /// the frames lent to the consumer.
    pub open spec fn live(&self) -> nat {
        (if self.latest() is Some {
            1nat
        } else {
            0nat
        }) + self.pooled().len() + self.lent()
    }

    /// The slot's invariant: a pool of capacity two, and never more than
    /// two frame buffers alive.
    pub closed spec fn wf(&self) -> bool {
        &&& pool_capacity(self.pool) == 2
        &&& self.pool_len == pool_contents(self.pool).len()
        &&& self.live() <= 2
    }

    /// An empty slot with an empty pool and nothing lent.
    pub fn new() -> (s: FrameSlot)
        ensures
            s.wf(),
            s.latest() is None,
            s.pooled().len() == 0,
            s.lent() == 0,
            s.live() == 0,
    {
        FrameSlot { latest: None, pool: pool_new(2), pool_len: 0, lent: 0 }
    }

    /// The number of frames lent to the consumer.
    pub fn frames_lent(&self) -> (n: usize)
        ensures
            n == self.lent(),
    {
        self.lent
    }

    /// Producer side (capture callback). Copies `src` (already tightly
    /// packed BGRA) into a pooled buffer and publishes it as the latest
    /// frame. Never allocates after warmup: reuses a pooled buffer, or the
    /// buffer being replaced; only a slot with no latest frame and an empty
    /// pool takes a new buffer. The consumer holds at most one frame
    /// meanwhile, so no more than two buffers are ever alive.
    pub fn publish(&mut self, width: u32, height: u32, src: &[u8])
        requires
            old(self).wf(),
            old(self).lent() <= 1,
        ensures
            final(self).wf(),
            final(self).latest() == Some((width, height, src@)),
            final(self).pooled() == published_pool(old(self).latest(), old(self).pooled()),
            final(self).lent() == old(self).lent(),
            final(self).live() == if old(self).latest() is None && old(self).pooled().len() == 0 {
                old(self).live() + 1
            } else {
                old(self).live()
            },
            final(self).live() <= 2,
    {
        let old_latest = self.latest.take();
        match pool_take(&mut self.pool) {
            Some(b) => {
                self.pool_len = self.pool_len - 1;
                let mut buf = b;
                buf.clear();
                buf.extend_from_slice(src);
                assert(buf@ =~= src@);
                self.latest = Some(Frame { width, height, data: buf });
                match old_latest {
                    Some(old) => {
                        if pool_offer(&mut self.pool, old.data) {
                            self.pool_len = self.pool_len + 1;
                        }
                    },
                    None => {},
                }
            },
            None => {
                let mut buf = match old_latest {
                    Some(old) => old.data,
                    None => Vec::new(),
                };
                buf.clear();
                buf.extend_from_slice(src);
                assert(buf@ =~= src@);
                self.latest = Some(Frame { width, height, data: buf });
            },
        }
    }

    /// Consumer side (pacer). Takes the latest frame, leaving the slot
    /// empty; the caller returns the buffer via `recycle` after use.
    pub fn take(&mut self) -> (r: Option<Frame>)
        requires
            old(self).wf(),
        ensures
            final(self).wf(),
            match r {
                Some(f) => old(self).latest() == Some(f.view_frame()) && final(self).lent()
                    == old(self).lent() + 1,
                None => old(self).latest() is None && final(self).lent() == old(self).lent(),
            },
            final(self).latest() is None,
            final(self).pooled() == old(self).pooled(),
            final(self).live() == old(self).live(),
    {
        let r = self.latest.take();
        if r.is_some() {
            self.lent = self.lent + 1;
        }
        r
    }

    /// Gives a buffer back for reuse; it is kept when the pool has room and
    /// dropped otherwise. A buffer the slot had not lent out is kept only
    /// while fewer than two buffers are alive, so that the bound holds.
    pub fn recycle(&mut self, buf: Vec<u8>)
        requires
            old(self).wf(),
        ensures
            final(self).wf(),
            final(self).latest() == old(self).latest(),
            final(self).pooled() == if old(self).lent() > 0 || old(self).live() < 2 {
                offered(old(self).pooled(), buf@)
            } else {
                old(self).pooled()
            },
            final(self).lent() == if old(self).lent() > 0 {
                old(self).lent() - 1
            } else {
                0
            },
            final(self).live() <= 2,
    {
        let held: usize = if self.latest.is_some() {
            1
        } else {
            0
        };
        if self.lent > 0 || held + self.pool_len + self.lent < 2 {
            if pool_offer(&mut self.pool, buf) {
                self.pool_len = self.pool_len + 1;
            }
        }
        if self.lent > 0 {
            self.lent = self.lent - 1;
        }
    }
}

/// BGRx pixels made opaque: every fourth byte (alpha) set to 0xFF.
pub open spec fn opaque(px: Seq<u8>) -> Seq<u8> {
    Seq::new(px.len(), |i: int| if i % 4 == 3 { 0xFFu8 } else { px[i] })
}

/// Row `row` of a frame with `stride` bytes per source row, packed to
/// `width` pixels (and made opaque when `force_opaque`).
pub open spec fn packed_row(src: Seq<u8>, stride: nat, width: nat, row: nat, force_opaque: bool) -> Seq<u8> {
    let bytes = src.subrange((row * stride) as int, (row * stride + width * 4) as int);
    if force_opaque {
        opaque(bytes)
    } else {
        bytes
    }
}

/// The first `rows` rows, packed one after the other.
pub open spec fn packed_rows(src: Seq<u8>, stride: nat, width: nat, rows: nat, force_opaque: bool) -> Seq<u8>
    decreases rows,
{
    if rows == 0 {
        seq![]
    } else {
        packed_rows(src, stride, width, (rows - 1) as nat, force_opaque) + packed_row(
            src,
            stride,
            width,
            (rows - 1) as nat,
            force_opaque,
        )
    }
}

proof fn lemma_packed_len(src: Seq<u8>, stride: nat, width: nat, rows: nat, force_opaque: bool)
    requires
        rows > 0 ==> (rows - 1) * stride + width * 4 <= src.len(),
    ensures
        packed_rows(src, stride, width, rows, force_opaque).len() == rows * width * 4,
    decreases rows,
{
    if rows > 0 {
        let r = (rows - 1) as nat;
        if r > 0 {
            assert((r - 1) * stride <= r * stride) by (nonlinear_arith)
                requires
                    r > 0,
            ;
        }
        lemma_packed_len(src, stride, width, r, force_opaque);
        assert(r * stride + width * 4 <= src.len());
        assert(rows * width * 4 == r * width * 4 + width * 4) by (nonlinear_arith)
            requires
                rows == r + 1,
        ;
    }
}

/// Row-copy helper shared by capture backends that must convert a
/// possibly-strided, possibly-BGRx source buffer into tightly packed BGRA.
/// `force_opaque` sets alpha=0xFF during the copy (for BGRx sources).
/// Every row must lie within `src`, and the packed frame's size must fit
/// in a `usize`.
pub fn copy_rows(src: &[u8], stride: usize, width: u32, height: u32, force_opaque: bool, dst: &mut Vec<u8>)
    requires
        width as int * height as int * 4 <= usize::MAX,
        height > 0 ==> (height - 1) * stride + width * 4 <= src@.len(),
    ensures
        final(dst)@ == packed_rows(src@, stride as nat, width as nat, height as nat, force_opaque),
        final(dst)@.len() == width as int * height as int * 4,
{
    let w = width as usize;
    let h = height as usize;
    dst.clear();
    proof {
        assert(w * h * 4 == width as int * height as int * 4) by (nonlinear_arith)
            requires
                w == width,
                h == height,
        ;
    }
    dst.reserve(w * h * 4);
    assert(src@.len() == src.len());
    let mut row: usize = 0;
    while row < h
        invariant
            src@.len() <= usize::MAX,
            row <= h == height,
            w == width,
            h > 0 ==> (h - 1) * stride + w * 4 <= src@.len(),
            dst@ == packed_rows(src@, stride as nat, w as nat, row as nat, force_opaque),
        decreases h - row,
    {
        proof {
            assert(row * stride <= (h - 1) * stride) by (nonlinear_arith)
                requires
                    row <= h - 1,
            ;
        }
        let start = row * stride;
        let w4 = w * 4;
        let ghost bytes = src@.subrange(start as int, start + w4);
        let ghost before = dst@;
        if force_opaque {
            let mut j: usize = 0;
            while j < w
                invariant
                    src@.len() <= usize::MAX,
                    j <= w,
                    w4 == w * 4,
                    start + w4 <= src@.len(),
                    bytes == src@.subrange(start as int, start + w4),
                    dst@ == before + opaque(bytes).take(4 * j),
                decreases w - j,
            {
                let p = start + 4 * j;
                let b0 = src[p];
                let b1 = src[p + 1];
                let b2 = src[p + 2];
                dst.push(b0);
                dst.push(b1);
                dst.push(b2);
                dst.push(0xFFu8);
                proof {
                    let o = opaque(bytes);
                    assert((4 * j + 3) % 4 == 3);
                    assert((4 * j) % 4 == 0);
                    assert((4 * j + 1) % 4 == 1);
                    assert((4 * j + 2) % 4 == 2);
                    assert(o[4 * j] == b0);
                    assert(o[4 * j + 1] == b1);
                    assert(o[4 * j + 2] == b2);
                    assert(o[4 * j + 3] == 0xFFu8);
                    assert(o.take(4 * (j + 1)) =~= o.take(4 * j).push(b0).push(b1).push(b2).push(0xFFu8));
                    assert(dst@ =~= before + o.take(4 * (j + 1)));
                }
                j += 1;
            }
            assert(opaque(bytes).take(4 * w) =~= opaque(bytes));
        } else {
            let mut k: usize = 0;
            while k < w4
                invariant
                    src@.len() <= usize::MAX,
                    k <= w4,
                    start + w4 <= src@.len(),
                    bytes == src@.subrange(start as int, start + w4),
                    dst@ == before + bytes.take(k as int),
                decreases w4 - k,
            {
                dst.push(src[start + k]);
                assert(bytes.take(k + 1) =~= bytes.take(k as int).push(src@[start + k]));
                k += 1;
            }
            assert(bytes.take(w4 as int) =~= bytes);
        }
        assert(dst@ =~= packed_rows(src@, stride as nat, w as nat, (row + 1) as nat, force_opaque));
        row += 1;
    }
    proof {
        lemma_packed_len(src@, stride as nat, w as nat, h as nat, force_opaque);
        assert(h as nat * w as nat * 4 == width as int * height as int * 4) by (nonlinear_arith)
            requires
                h == height,
                w == width,
        ;
    }
}

/// Frame-send / stale-repeat counters, updated from the pacer.
#[derive(Debug, Default)]
pub struct Stats {
    pub frames_sent: u64,
    pub stale_repeats: u64,
}

/// Sample-and-hold pacer state: the frame written at the previous tick,
/// kept so that it can be written again when nothing new arrives.
pub struct Pacer {
    held: Option<Frame>,
    stats: Stats,
}

/// What a pacer tick does: nothing yet (no frame captured so far), or write
/// the held frame, which is fresh or a repeat of the previous one.
#[derive(Debug, Clone, Copy, PartialEq, Eq, Structural)]
pub enum Tick {
    Skip,
    Write { fresh: bool },
}

impl Pacer {
    /// The frame the pacer holds (the one to write at this tick).
    pub closed spec fn held(&self) -> Option<FrameView> {
        match self.held {
            Some(f) => Some(f.view_frame()),
            None => None,
        }
    }

    /// The number of frames the pacer holds: one once it has written a
    /// frame, none before.
    pub open spec fn holds(&self) -> nat {
        if self.held() is Some {
            1nat
        } else {
            0nat
        }
    }

    /// The counters: frames sent and stale repeats.
    pub closed spec fn counters(&self) -> (u64, u64) {
        (self.stats.frames_sent, self.stats.stale_repeats)
    }

    /// The counters: frames sent and stale repeats.
    pub fn stats(&self) -> (r: (u64, u64))
        ensures
            r == self.counters(),
    {
        (self.stats.frames_sent, self.stats.stale_repeats)
    }

    /// A pacer that has written nothing yet.
    pub fn new() -> (p: Pacer)
        ensures
            p.held() is None,
            p.counters() == (0u64, 0u64),
    {
        Pacer { held: None, stats: Stats { frames_sent: 0, stale_repeats: 0 } }
    }

    /// One tick: take the latest frame from `slot`; if there is one, the
    /// previously held frame's buffer goes back to the pool and the new
    /// frame is held and written; otherwise the held frame is written again;
    /// with neither, the tick writes nothing.
    pub fn tick(&mut self, slot: &mut FrameSlot) -> (t: Tick)
        requires
            old(slot).wf(),
            old(slot).lent() == old(self).holds(),
        ensures
            final(slot).wf(),
            final(slot).lent() == final(self).holds(),
            final(slot).pooled().len() + final(self).holds() <= 2,
            final(self).held() == next_held(old(self).held(), old(slot).latest()),
            t is Write <==> final(self).held() is Some,
            t == tick_of(old(self).held(), old(slot).latest()),
            final(slot).latest() is None,
            final(self).counters() == old(self).counters(),
            match old(slot).latest() {
                Some(f) => {
                    &&& t == Tick::Write { fresh: true }
                    &&& final(self).held() == Some(f)
                    &&& final(slot).pooled() == match old(self).held() {
                        Some(h) => offered(old(slot).pooled(), h.2),
                        None => old(slot).pooled(),
                    }
                },
                None => {
                    &&& final(self).held() == old(self).held()
                    &&& final(slot).pooled() == old(slot).pooled()
                    &&& t == if old(self).held() is Some {
                        Tick::Write { fresh: false }
                    } else {
                        Tick::Skip
                    }
                },
            },
    {
        match slot.take() {
            Some(f) => {
                match self.held.take() {
                    Some(prev) => slot.recycle(prev.data),
                    None => {},
                }
                self.held = Some(f);
                Tick::Write { fresh: true }
            },
            None => {
                if self.held.is_some() {
                    Tick::Write { fresh: false }
                } else {
                    Tick::Skip
                }
            },
        }
    }

    /// The bytes of the held frame (empty when there is none).
    pub fn frame_bytes(&self) -> (b: &[u8])
        ensures
            match self.held() {
                Some(f) => b@ == f.2,
                None => b@.len() == 0,
            },
    {
        match &self.held {
            Some(f) => f.data.as_slice(),
            None => &[],
        }
    }

    /// Counts a frame written to ffmpeg, and a stale repeat when it was not
    /// fresh (both counters wrap like atomic additions).
    pub fn record_sent(&mut self, fresh: bool)
        ensures
            final(self).held() == old(self).held(),
            final(self).counters() == counted(old(self).counters(), Tick::Write { fresh }),
            final(self).counters().0 == (old(self).counters().0 + 1) % 0x1_0000_0000_0000_0000,
            final(self).counters().1 == if fresh {
                old(self).counters().1 as int
            } else {
                (old(self).counters().1 + 1) % 0x1_0000_0000_0000_0000
            },
    {
        self.stats.frames_sent = self.stats.frames_sent.wrapping_add(1);
        if !fresh {
            self.stats.stale_repeats = self.stats.stale_repeats.wrapping_add(1);
        }
    }
}

/// The frame a pacer holds after a tick on which the slot offered `x`,
/// having held `held` before: the fresh frame when there is one, else the
/// same frame again. The frame held after a tick is the frame it writes.
pub open spec fn next_held(held: Option<FrameView>, x: Option<FrameView>) -> Option<FrameView> {
    match x {
        Some(f) => Some(f),
        None => held,
    }
}

/// The frames held (and written) after each tick of a run that starts
/// holding `held`, the slot offering `xs[k]` at tick `k`.
pub open spec fn run_held(held: Option<FrameView>, xs: Seq<Option<FrameView>>) -> Seq<Option<FrameView>>
    decreases xs.len(),
{
    if xs.len() == 0 {
        seq![]
    } else {
        let h = next_held(held, xs[0]);
        seq![h] + run_held(h, xs.drop_first())
    }
}

/// The last frame offered in `xs`, if any was.
pub open spec fn last_offered(xs: Seq<Option<FrameView>>) -> Option<FrameView>
    decreases xs.len(),
{
    if xs.len() == 0 {
        None
    } else {
        match last_offered(xs.drop_first()) {
            Some(f) => Some(f),
            None => xs[0],
        }
    }
}

proof fn lemma_run_held(held: Option<FrameView>, xs: Seq<Option<FrameView>>, k: int)
    requires
        0 <= k < xs.len(),
    ensures
        run_held(held, xs).len() == xs.len(),
        run_held(held, xs)[k] == match last_offered(xs.take(k + 1)) {
            Some(f) => Some(f),
            None => held,
        },
    decreases xs.len(),
{
    let h = next_held(held, xs[0]);
    let ys = xs.drop_first();
    assert(xs.take(k + 1).drop_first() =~= ys.take(k));
    if k == 0 {
        assert(xs.take(1).drop_first() =~= Seq::<Option<FrameView>>::empty());
        if ys.len() > 0 {
            lemma_run_held(h, ys, 0);
        } else {
            assert(run_held(h, ys) =~= Seq::<Option<FrameView>>::empty());
        }
    } else {
        lemma_run_held(h, ys, k - 1);
    }
}

/// Sample and hold over a run of ticks: starting from a pacer that holds
/// nothing, each tick writes the last frame the slot has offered so far (a
/// fresh frame when one arrived, else the previous one again), and writes
/// nothing before the first frame arrives.
pub proof fn law_sample_and_hold(xs: Seq<Option<FrameView>>)
    ensures
        run_held(None, xs).len() == xs.len(),
        forall|k: int|
            0 <= k < xs.len() ==> #[trigger] run_held(None, xs)[k] == last_offered(xs.take(k + 1)),
{
    if xs.len() == 0 {
        assert(run_held(None, xs) =~= Seq::<Option<FrameView>>::empty());
    }
    assert forall|k: int| 0 <= k < xs.len() implies #[trigger] run_held(None, xs)[k] == last_offered(
        xs.take(k + 1),
    ) by {
        lemma_run_held(None, xs, k);
    }
    if xs.len() > 0 {
        lemma_run_held(None, xs, 0);
    }
}

/// What a tick does when it starts holding `held` and the slot offers
/// `x`: write the fresh frame, write the held one again, or nothing.
pub open spec fn tick_of(held: Option<FrameView>, x: Option<FrameView>) -> Tick {
    match x {
        Some(_) => Tick::Write { fresh: true },
        None => if held is Some {
            Tick::Write { fresh: false }
        } else {
            Tick::Skip
        },
    }
}

/// The ticks of a run that starts holding `held`, the slot offering
/// `xs[k]` at tick `k`.
pub open spec fn run_ticks(held: Option<FrameView>, xs: Seq<Option<FrameView>>) -> Seq<Tick>
    decreases xs.len(),
{
    if xs.len() == 0 {
        seq![]
    } else {
        seq![tick_of(held, xs[0])] + run_ticks(next_held(held, xs[0]), xs.drop_first())
    }
}

/// The number of ticks in `ts` that write a frame.
pub open spec fn writes(ts: Seq<Tick>) -> nat
    decreases ts.len(),
{
    if ts.len() == 0 {
        0
    } else {
        (if ts[0] is Write {
            1nat
        } else {
            0nat
        }) + writes(ts.drop_first())
    }
}

/// The number of ticks in `ts` that write the held frame again.
pub open spec fn repeats(ts: Seq<Tick>) -> nat
    decreases ts.len(),
{
    if ts.len() == 0 {
        0
    } else {
        (if ts[0] == (Tick::Write { fresh: false }) {
            1nat
        } else {
            0nat
        }) + repeats(ts.drop_first())
    }
}

/// The counters (frames sent, stale repeats) after tick `t` is counted,
/// each wrapping like an atomic addition.
pub open spec fn counted(c: (u64, u64), t: Tick) -> (u64, u64) {
    match t {
        Tick::Skip => c,
        Tick::Write { fresh } => (
            ((c.0 + 1) % 0x1_0000_0000_0000_0000) as u64,
            if fresh {
                c.1
            } else {
                ((c.1 + 1) % 0x1_0000_0000_0000_0000) as u64
            },
        ),
    }
}

/// The counters after every tick of `ts` is counted, starting from `c`.
pub open spec fn count_run(c: (u64, u64), ts: Seq<Tick>) -> (u64, u64)
    decreases ts.len(),
{
    if ts.len() == 0 {
        c
    } else {
        count_run(counted(c, ts[0]), ts.drop_first())
    }
}

proof fn lemma_count_run(c: (u64, u64), ts: Seq<Tick>)
    ensures
        repeats(ts) <= writes(ts),
        count_run(c, ts) == (
            ((c.0 + writes(ts)) % 0x1_0000_0000_0000_0000) as u64,
            ((c.1 + repeats(ts)) % 0x1_0000_0000_0000_0000) as u64,
        ),
    decreases ts.len(),
{
    let m: int = 0x1_0000_0000_0000_0000;
    if ts.len() > 0 {
        let c2 = counted(c, ts[0]);
        let rest = ts.drop_first();
        lemma_count_run(c2, rest);
        let w0: int = if ts[0] is Write {
            1
        } else {
            0
        };
        let r0: int = if ts[0] == (Tick::Write { fresh: false }) {
            1
        } else {
            0
        };
        assert(c2.0 == (c.0 + w0) % m);
        assert(c2.1 == (c.1 + r0) % m);
        vstd::arithmetic::div_mod::lemma_add_mod_noop_right(writes(rest) as int, c.0 + w0, m);
        vstd::arithmetic::div_mod::lemma_add_mod_noop_right(repeats(rest) as int, c.1 + r0, m);
        assert((c2.0 + writes(rest)) % m == (c.0 + writes(ts)) % m);
        assert((c2.1 + repeats(rest)) % m == (c.1 + repeats(ts)) % m);
    } else {
        assert((c.0 as int) % m == c.0 as int);
        assert((c.1 as int) % m == c.1 as int);
    }
}

proof fn lemma_run_ticks(held: Option<FrameView>, xs: Seq<Option<FrameView>>, k: int)
    requires
        0 <= k < xs.len(),
    ensures
        run_ticks(held, xs).len() == xs.len(),
        run_ticks(held, xs)[k] is Write <==> run_held(held, xs)[k] is Some,
        run_ticks(held, xs)[k] == (Tick::Write { fresh: true }) <==> xs[k] is Some,
    decreases xs.len(),
{
    if k > 0 {
        lemma_run_ticks(next_held(held, xs[0]), xs.drop_first(), k - 1);
        lemma_run_held(next_held(held, xs[0]), xs.drop_first(), k - 1);
    } else if xs.len() > 1 {
        lemma_run_ticks(next_held(held, xs[0]), xs.drop_first(), 0);
        lemma_run_held(next_held(held, xs[0]), xs.drop_first(), 0);
    } else {
        assert(run_ticks(next_held(held, xs[0]), xs.drop_first()) =~= Seq::<Tick>::empty());
        assert(run_held(next_held(held, xs[0]), xs.drop_first()) =~= Seq::<Option<FrameView>>::empty());
    }
}

/// The pacer's counters over a run: starting from a pacer that holds
/// nothing and has counted nothing, a run whose written ticks are each
/// counted leaves frames-sent equal to the number of writes and
/// stale-repeats equal to the number of rewrites of the held frame (both
/// wrapping at 2^64), and there are never more rewrites than writes. A
/// tick writes exactly when a frame is held after it, and writes a fresh
/// frame exactly when the slot offered one.
pub proof fn law_run_counters(xs: Seq<Option<FrameView>>)
    ensures
        run_ticks(None, xs).len() == xs.len(),
        forall|k: int|
            0 <= k < xs.len() ==> (#[trigger] run_ticks(None, xs)[k] is Write <==> run_held(None, xs)[k] is Some),
        forall|k: int|
            0 <= k < xs.len() ==> (#[trigger] run_ticks(None, xs)[k] == (Tick::Write { fresh: true })
                <==> xs[k] is Some),
        repeats(run_ticks(None, xs)) <= writes(run_ticks(None, xs)),
        count_run((0u64, 0u64), run_ticks(None, xs)) == (
            (writes(run_ticks(None, xs)) % 0x1_0000_0000_0000_0000) as u64,
            (repeats(run_ticks(None, xs)) % 0x1_0000_0000_0000_0000) as u64,
        ),
{
    let ts = run_ticks(None, xs);
    lemma_count_run((0u64, 0u64), ts);
    if xs.len() == 0 {
        assert(ts =~= Seq::<Tick>::empty());
    } else {
        lemma_run_ticks(None, xs, 0);
    }
    assert forall|k: int| 0 <= k < xs.len() implies (#[trigger] run_ticks(None, xs)[k] is Write
        <==> run_held(None, xs)[k] is Some) && (run_ticks(None, xs)[k] == (Tick::Write { fresh: true })
        <==> xs[k] is Some) by {
        lemma_run_ticks(None, xs, k);
    }
}

/// At most two frame buffers alive: a slot whose lent frame is the one a
/// pacer holds has, counting its latest frame, its pooled buffers and the
/// pacer's held frame, no more than two.
pub proof fn law_two_frame_buffers(slot: FrameSlot, pacer: Pacer)
    requires
        slot.wf(),
        slot.lent() == pacer.holds(),
    ensures
        (if slot.latest() is Some {
            1nat
        } else {
            0nat
        }) + slot.pooled().len() + pacer.holds() <= 2,
{
}

/// The pacer's tick period for `fps` frames per second, in nanoseconds
/// (`1_000_000_000 / fps`, rounded down).
pub fn frame_period_nanos(fps: u32) -> (r: u64)
    requires
        fps > 0,
    ensures
        r == 1_000_000_000int / (fps as int),
{
    1_000_000_000u64 / (fps as u64)
}

/// The name shown for the monitor at `index`: its own name when the
/// system reports one, otherwise `Monitor <index + 1>`.
pub fn monitor_display_name(index: usize, name: Option<String>) -> (r: String)
    requires
        index < usize::MAX,
    ensures
        match name {
            Some(n) => r == n,
            None => r@ == "Monitor "@ + crate::text::dec(index as nat + 1),
        },
{
    match name {
        Some(n) => n,
        None => {
            let mut s = crate::text::string_of("Monitor ");
            crate::text::push_dec(&mut s, (index as u64) + 1);
            s
        },
    }
}

/// Dispatches to the platform-specific video source. X11 has no in-process
/// variant (ffmpeg's x11grab reads the screen itself).
pub enum VideoSource<W, L> {
    /// Windows Graphics Capture.
    Windows(W),
    /// The desktop portal and PipeWire.
    Wayland(L),
    /// No in-process capture; ffmpeg reads the screen directly.
    External,
}

} // verus!
