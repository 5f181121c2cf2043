//! The progress figures reported while pictures are found and saved: the
//! first half of the bar fills as links are found, the second as files are
//! written.

use vstd::prelude::*;

verus! {

/// The share of one picture, `50 / count` rounded toward zero and then
/// read as a `u8` (two's complement for a negative count).
pub open spec fn part_of_percentage_spec(count: int) -> u8 {
    if count > 0 {
        (50int / count) as u8
    } else {
        let q: int = 50int / (-count);
        if q == 0 { 0 } else { (256 - q) as u8 }
    }
}

/// The share of one picture in half of the progress bar.
pub fn part_of_percentage(count: i32) -> (r: u8)
    requires
        count != 0,
    ensures
        r == part_of_percentage_spec(count as int),
{
    if count > 0 {
        (50 / count) as u8
    } else {
        let m: i64 = -(count as i64);
        let q: i64 = 50 / m;
        if q == 0 { 0 } else { (256 - q) as u8 }
    }
}

/// The progress state: the number of the next completion (counting from
/// one and wrapping as a `u8` does) and the share of each.
pub struct ProgressTracker {
    ticks: u8,
    part: u8,
}

impl ProgressTracker {
    /// The number that the next completion gets.
    pub closed spec fn ticks_view(&self) -> u8 {
        self.ticks
    }

    /// The share of one completion.
    pub closed spec fn part_view(&self) -> u8 {
        self.part
    }

    /// The progress for `count` pictures, before any completion.
    pub fn new(count: i32) -> (r: Self)
        requires
            count != 0,
        ensures
            r.ticks_view() == 1,
            r.part_view() == part_of_percentage_spec(count as int),
    {
        ProgressTracker { ticks: 1, part: part_of_percentage(count) }
    }

    /// Takes the number of the next completion.
    fn take_tick(&mut self) -> (r: u8)
        ensures
            r == old(self).ticks,
            final(self).ticks == (old(self).ticks + 1) % 256,
            final(self).part == old(self).part,
    {
        let t: u8 = self.ticks;
        self.ticks = if t == 255 { 0 } else { t + 1 };
        t
    }

    /// A link was found: the progress to report, the completion's number
    /// times the share, or `None` when that product does not fit in a `u8`.
    pub fn link_found(&mut self) -> (r: Option<u8>)
        ensures
            final(self).ticks_view() == (old(self).ticks_view() + 1) % 256,
            final(self).part_view() == old(self).part_view(),
            r == if old(self).ticks_view() * old(self).part_view() <= 255 {
                Some((old(self).ticks_view() * old(self).part_view()) as u8)
            } else {
                None::<u8>
            },
    {
        let t: u8 = self.take_tick();
        proof {
            lemma_u8_product(t, self.part);
        }
        let product: u16 = (t as u16) * (self.part as u16);
        if product <= 255 { Some(product as u8) } else { None }
    }

    /// The second phase starts: completions count from one again.
    pub fn restart(&mut self)
        ensures
            final(self).ticks_view() == 1,
            final(self).part_view() == old(self).part_view(),
    {
        self.ticks = 1;
    }

    /// A picture was saved: the figure sent to the window (the completion's
    /// number times five) and the percentage reported (fifty plus the
    /// number times the share), or `None` when either does not fit in a `u8`.
    pub fn image_saved(&mut self) -> (r: Option<(u8, u8)>)
        ensures
            final(self).ticks_view() == (old(self).ticks_view() + 1) % 256,
            final(self).part_view() == old(self).part_view(),
            r == if 50 + old(self).ticks_view() * old(self).part_view() <= 255 && old(self).ticks_view() * 5
                <= 255 {
                Some(
                    (
                        (old(self).ticks_view() * 5) as u8,
                        (50 + old(self).ticks_view() * old(self).part_view()) as u8,
                    ),
                )
            } else {
                None::<(u8, u8)>
            },
    {
        let t: u8 = self.take_tick();
        proof {
            lemma_u8_product(t, self.part);
        }
        let reported: u16 = 50 + (t as u16) * (self.part as u16);
        let sent: u16 = (t as u16) * 5;
        if reported <= 255 && sent <= 255 {
            Some((sent as u8, reported as u8))
        } else {
            None
        }
    }
}

/// The product of two bytes fits in sixteen bits with room to spare.
proof fn lemma_u8_product(a: u8, b: u8)
    ensures
        a * b <= 65025,
{
    assert(a * b <= 255 * 255) by (nonlinear_arith)
        requires
            a <= 255,
            b <= 255,
    ;
}

/// While at most `count` links have been found, the first phase reports at
/// most half of the bar.
pub proof fn lemma_first_phase_at_most_half(count: int, found: int)
    requires
        1 <= found <= count,
    ensures
        found * (50int / count) <= 50,
        50int / count <= 50,
{
    assert(found * (50int / count) <= count * (50int / count)) by (nonlinear_arith)
        requires
            1 <= found <= count,
            0 <= 50int / count,
    ;
    assert(count * (50int / count) <= 50) by (nonlinear_arith)
        requires
            1 <= count,
    ;
}

/// While at most `count` pictures have been saved, the second phase reports
/// at most the whole bar.
pub proof fn lemma_second_phase_at_most_whole(count: int, saved: int)
    requires
        1 <= saved <= count,
    ensures
        50 + saved * (50int / count) <= 100,
{
    lemma_first_phase_at_most_half(count, saved);
}

} // verus!
