//! The random choices: which listing page to open and which picture on it,
//! each task drawing from its own ChaCha8 stream of a common seed.

use vstd::prelude::*;
use rand::Rng;
use rand_chacha::ChaCha8Rng;
use rand_chacha::rand_core::SeedableRng;

verus! {

#[verifier::external_type_specification]
#[verifier::external_body]
pub struct ExChaCha8Rng(ChaCha8Rng);

/// A ChaCha8 generator together with what determines its output: the
/// number it was seeded from with `seed_from_u64`, its stream
/// (`get_stream`), and how many 32-bit words of that stream it has used
/// (`get_word_pos`).
pub struct SeededRng {
    rng: ChaCha8Rng,
    seed: Ghost<u64>,
    stream: Ghost<u64>,
    pos: Ghost<nat>,
}

impl SeededRng {
    /// The number the generator was seeded from.
    pub closed spec fn seed(&self) -> u64 {
        self.seed@
    }

    /// The generator's stream.
    pub closed spec fn stream(&self) -> u64 {
        self.stream@
    }

    /// How many 32-bit words of its stream the generator has used.
    pub closed spec fn pos(&self) -> nat {
        self.pos@
    }
}

/// The value that `Rng::gen_range(low..=high)` on `u32` gives from a ChaCha8
/// generator seeded from `seed` with `seed_from_u64`, on stream `stream`,
/// that has used `pos` words of its stream. rand promises portably
/// reproducible output and `seed_from_u64`'s output is fixed, so this is a
/// function of these values on every machine.
pub uninterp spec fn chacha8_u32_draw(seed: u64, stream: u64, pos: nat, low: u32, high: u32) -> u32;

/// How many words of its stream that generator has used after the draw.
pub uninterp spec fn chacha8_u32_pos_after(seed: u64, stream: u64, pos: nat, low: u32, high: u32) -> nat;

/// `ChaCha8Rng::seed_from_u64` (from `rand_core::SeedableRng`): a generator
/// seeded from `seed`. `from_seed` starts it with a zero nonce, so it is on
/// stream 0, and its buffer starts empty, so it has used no word yet.
#[verifier::external_body]
fn chacha_seeded(seed: u64) -> (r: SeededRng)
    ensures
        r.seed() == seed,
        r.stream() == 0,
        r.pos() == 0,
{
    SeededRng { rng: ChaCha8Rng::seed_from_u64(seed), seed: Ghost(seed), stream: Ghost(0), pos: Ghost(0) }
}

/// `ChaCha8Rng::set_stream`: switches the generator to stream `stream` (the
/// nonce that `get_stream` returns), keeping its seed and its word position
/// (it re-reads the buffer at the same `get_word_pos`).
#[verifier::external_body]
fn chacha_set_stream(rng: &mut SeededRng, stream: u64)
    ensures
        final(rng).seed() == old(rng).seed(),
        final(rng).stream() == stream,
        final(rng).pos() == old(rng).pos(),
{
    rng.rng.set_stream(stream);
    rng.stream = Ghost(stream);
}

/// `Rng::gen_range` on `low..=high` for `u32`: a value between `low` and
/// `high`, both included. rand panics on an empty range, which `requires`
/// leaves out. The value and the words it uses are those of the named draw
/// for the generator's seed, stream and position; seed and stream stay.
#[verifier::external_body]
fn chacha_u32_inclusive(rng: &mut SeededRng, low: u32, high: u32) -> (r: u32)
    requires
        low <= high,
    ensures
        low <= r <= high,
        r == chacha8_u32_draw(old(rng).seed(), old(rng).stream(), old(rng).pos(), low, high),
        final(rng).seed() == old(rng).seed(),
        final(rng).stream() == old(rng).stream(),
        final(rng).pos() == chacha8_u32_pos_after(old(rng).seed(), old(rng).stream(), old(rng).pos(), low, high),
{
    rng.rng.gen_range(low..=high)
}

/// `Rng::gen_range` on `low..high` for `usize`: a value from `low` up to but
/// not including `high`. rand panics on an empty range, which `requires`
/// leaves out. Which value comes, and how many words it uses, is left
/// unsaid: rand samples `usize` at the machine's pointer width, so it differs
/// between machines. Seed and stream stay.
#[verifier::external_body]
fn chacha_usize_below(rng: &mut SeededRng, low: usize, high: usize) -> (r: usize)
    requires
        low < high,
    ensures
        low <= r < high,
        final(rng).seed() == old(rng).seed(),
        final(rng).stream() == old(rng).stream(),
{
    rng.rng.gen_range(low..high)
}

/// `rand::thread_rng` then `Rng::gen_range` on `0..bound`: a value below
/// `bound` from the thread's generator. The empty range, on which rand
/// panics, is left out; which value comes is left unsaid.
#[verifier::external_body]
fn thread_usize_below(bound: usize) -> (r: usize)
    requires
        0 < bound,
    ensures
        r < bound,
{
    rand::thread_rng().gen_range(0..bound)
}

/// The generator of one task: seeded from `seed`, on stream `stream`, with
/// no word used yet.
pub fn task_rng(seed: u64, stream: u64) -> (r: SeededRng)
    ensures
        r.seed() == seed,
        r.stream() == stream,
        r.pos() == 0,
{
    let mut rng = chacha_seeded(seed);
    chacha_set_stream(&mut rng, stream);
    rng
}

/// One generator per task: task `i` (from 0) gets stream `i` of `seed`.
/// A count below one gives no task.
pub fn task_rngs(seed: u64, count: i32) -> (r: Vec<SeededRng>)
    ensures
        r.len() == if count > 0 { count as int } else { 0 },
        forall|i: int|
            0 <= i < r.len() ==> (#[trigger] r[i]).seed() == seed && r[i].stream() == i && r[i].pos() == 0,
{
    let mut out: Vec<SeededRng> = Vec::new();
    let mut i: i32 = 0;
    while i < count
        invariant
            0 <= i,
            count > 0 ==> i <= count,
            count <= 0 ==> i == 0,
            out.len() == i,
            forall|k: int|
                0 <= k < out.len() ==> (#[trigger] out[k]).seed() == seed && out[k].stream() == k && out[k].pos()
                    == 0,
        decreases count - i,
    {
        out.push(task_rng(seed, i as u64));
        i = i + 1;
    }
    out
}

/// A listing page number between 0 and `pages`, both included: the draw
/// of the generator's seed, stream and position.
pub fn pick_page(rng: &mut SeededRng, pages: u32) -> (r: u32)
    ensures
        r <= pages,
        r == chacha8_u32_draw(old(rng).seed(), old(rng).stream(), old(rng).pos(), 0, pages),
        final(rng).seed() == old(rng).seed(),
        final(rng).stream() == old(rng).stream(),
        final(rng).pos() == chacha8_u32_pos_after(old(rng).seed(), old(rng).stream(), old(rng).pos(), 0, pages),
{
    chacha_u32_inclusive(rng, 0, pages)
}

/// A picture position on a listing page holding `count` pictures: from 2 up
/// to but not including `count + 2` (the first picture sits in the second
/// child of its container). For any count whose last offset fits in a `u32`
/// the position is 2 plus the generator's `u32` draw between 0 and
/// `count - 1`, so it follows from seed, stream and position on every
/// machine; a larger count is drawn at the machine's pointer width.
pub fn pick_position(rng: &mut SeededRng, count: usize) -> (r: usize)
    requires
        0 < count <= usize::MAX - 2,
    ensures
        2 <= r < count + 2,
        final(rng).seed() == old(rng).seed(),
        final(rng).stream() == old(rng).stream(),
        count - 1 <= u32::MAX ==> r == 2 + chacha8_u32_draw(
            old(rng).seed(),
            old(rng).stream(),
            old(rng).pos(),
            0,
            (count - 1) as u32,
        ) && final(rng).pos() == chacha8_u32_pos_after(
            old(rng).seed(),
            old(rng).stream(),
            old(rng).pos(),
            0,
            (count - 1) as u32,
        ),
{
    if ((count - 1) as u64) <= (u32::MAX as u64) {
        let offset: u32 = chacha_u32_inclusive(rng, 0, (count - 1) as u32);
        2 + offset as usize
    } else {
        chacha_usize_below(rng, 2, count + 2)
    }
}

/// Two generators with the same seed, stream and position draw the same
/// page and then stand at the same position: a freshly made task generator
/// (position 0) picks its first page from the day's seed and its stream alone.
pub proof fn lemma_equal_generators_draw_alike(a: SeededRng, b: SeededRng, pages: u32)
    requires
        a.seed() == b.seed(),
        a.stream() == b.stream(),
        a.pos() == b.pos(),
    ensures
        chacha8_u32_draw(a.seed(), a.stream(), a.pos(), 0, pages) == chacha8_u32_draw(
            b.seed(),
            b.stream(),
            b.pos(),
            0,
            pages,
        ),
        chacha8_u32_pos_after(a.seed(), a.stream(), a.pos(), 0, pages) == chacha8_u32_pos_after(
            b.seed(),
            b.stream(),
            b.pos(),
            0,
            pages,
        ),
{
}

/// A picture number below `total`, from the thread's generator.
pub fn pick_picture_number(total: usize) -> (r: usize)
    requires
        0 < total,
    ensures
        r < total,
{
    thread_usize_below(total)
}

} // verus!
