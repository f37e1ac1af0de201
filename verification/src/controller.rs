//! The edge-triggered controller: it remembers the last observed pin level,
//! detects transitions, and decides which write, if any, the LED driver gets.

use vstd::prelude::*;
use crate::color::MyColor;
use crate::select::{select_color, select_spec};

verus! {

/// A level transition seen by one poll of the input pin.
#[derive(Clone, Copy, PartialEq, Eq, Structural, Debug)]
pub enum Edge {
    /// The level equals the last observed one.
    NoChange,
    /// High to low: the button was pressed (the input is pulled up).
    Falling,
    /// Low to high: the button was released.
    Rising,
}

/// A write decided for the LED driver.
#[derive(Clone, Copy, PartialEq, Eq, Structural, Debug)]
pub enum LedWrite {
    /// Show the given palette color.
    Color(MyColor),
    /// Turn the LED off.
    Off,
}

/// One poll's inputs: the pin level read and the two random draws that a
/// falling edge would consume.
#[derive(Clone, Copy, PartialEq, Eq, Structural, Debug)]
pub struct PollSample {
    /// The level the pin read: `true` is high.
    pub level: bool,
    /// The draw that picks the palette index.
    pub draw_index: u32,
    /// The draw whose evenness halves the brightness.
    pub draw_half: u32,
}

/// The controller's whole state: the pin level seen by the previous poll.
pub struct Controller {
    last_level: bool,
}

impl Controller {
    /// The last observed pin level.
    pub closed spec fn last(self) -> bool {
        self.last_level
    }

    /// Start from the level the pin shows at boot.
    pub fn new(initial_level: bool) -> (c: Controller)
        ensures
            c.last() == initial_level,
    {
        Controller { last_level: initial_level }
    }

    /// The last observed pin level, for the caller that reads the pin.
    pub fn last_level(&self) -> (b: bool)
        ensures
            b == self.last(),
    {
        self.last_level
    }

    /// Record one polled level and report the transition it makes against
    /// the last observed one. The state always ends at the polled level.
    pub fn observe(&mut self, level: bool) -> (e: Edge)
        ensures
            final(self).last() == level,
            level == old(self).last() ==> *final(self) == *old(self),
            (e == Edge::Falling) <==> (old(self).last() && !level),
            (e == Edge::Rising) <==> (!old(self).last() && level),
            (e == Edge::NoChange) <==> (level == old(self).last()),
    {
        if level != self.last_level {
            self.last_level = level;
            if !level {
                Edge::Falling
            } else {
                Edge::Rising
            }
        } else {
            Edge::NoChange
        }
    }

    /// One full loop iteration's decision: poll a level and decide the write.
    /// A falling edge selects a palette color from the two draws, a rising
    /// edge writes the off color, and an unchanged level writes nothing and
    /// leaves the state as it was.
    pub fn poll(
        &mut self,
        level: bool,
        draw_index: u32,
        draw_half: u32,
        palette: &Vec<MyColor>,
    ) -> (w: Option<LedWrite>)
        requires
            palette@.len() > 0,
        ensures
            final(self).last() == level,
            level == old(self).last() ==> *final(self) == *old(self),
            (w is None) <==> (level == old(self).last()),
            (old(self).last() && !level) ==> w == Some(
                LedWrite::Color(select_spec(palette@, draw_index, draw_half)),
            ),
            (w == Some(LedWrite::Off)) <==> (!old(self).last() && level),
            (w matches Some(LedWrite::Color(_))) <==> (old(self).last() && !level),
    {
        let e = self.observe(level);
        match e {
            Edge::Falling => Some(LedWrite::Color(select_color(palette, draw_index, draw_half))),
            Edge::Rising => Some(LedWrite::Off),
            Edge::NoChange => None,
        }
    }
}

/// The level the controller holds just before poll `i` of `samples`: the
/// boot-time level for the first poll, afterwards the level of the previous
/// sample.
pub open spec fn prior_level(initial_level: bool, samples: Seq<PollSample>, i: int) -> bool
    recommends
        0 <= i <= samples.len(),
{
    if i == 0 {
        initial_level
    } else {
        samples[i - 1].level
    }
}

/// The write that poll `i` of `samples` decides: nothing without a
/// transition, a selected palette color on a falling edge, the off color on
/// a rising edge.
pub open spec fn write_at(
    initial_level: bool,
    samples: Seq<PollSample>,
    palette: Seq<MyColor>,
    i: int,
) -> Option<LedWrite>
    recommends
        0 <= i < samples.len(),
        palette.len() > 0,
{
    let prev = prior_level(initial_level, samples, i);
    let s = samples[i];
    if s.level == prev {
        None
    } else if !s.level {
        Some(LedWrite::Color(select_spec(palette, s.draw_index, s.draw_half)))
    } else {
        Some(LedWrite::Off)
    }
}

/// Drive one controller through a whole sequence of polls and collect, for
/// each poll, the write it decided.
pub fn run_polls(
    initial_level: bool,
    samples: &Vec<PollSample>,
    palette: &Vec<MyColor>,
) -> (ws: Vec<Option<LedWrite>>)
    requires
        palette@.len() > 0,
    ensures
        ws@.len() == samples@.len(),
        forall|i: int|
            0 <= i < samples@.len() ==> ws@[i] == write_at(
                initial_level,
                samples@,
                palette@,
                i,
            ),
{
    let mut ctl = Controller::new(initial_level);
    let mut ws: Vec<Option<LedWrite>> = Vec::new();
    let n = samples.len();
    for k in 0..n
        invariant
            n == samples@.len(),
            palette@.len() > 0,
            ws@.len() == k,
            ctl.last() == prior_level(initial_level, samples@, k as int),
            forall|i: int|
                0 <= i < k ==> ws@[i] == write_at(initial_level, samples@, palette@, i),
    {
        let s = samples[k];
        let w = ctl.poll(s.level, s.draw_index, s.draw_half, palette);
        ws.push(w);
    }
    ws
}

/// A write of the off color is decided exactly by a low-to-high transition,
/// a palette-color write exactly by a high-to-low transition, and a poll
/// whose level did not change decides no write at all.
pub proof fn lemma_writes_match_edges(
    initial_level: bool,
    samples: Seq<PollSample>,
    palette: Seq<MyColor>,
    i: int,
)
    requires
        0 <= i < samples.len(),
        palette.len() > 0,
    ensures
        (write_at(initial_level, samples, palette, i) == Some(LedWrite::Off)) <==> (!prior_level(
            initial_level,
            samples,
            i,
        ) && samples[i].level),
        (write_at(initial_level, samples, palette, i) matches Some(LedWrite::Color(_))) <==> (
        prior_level(initial_level, samples, i) && !samples[i].level),
        (write_at(initial_level, samples, palette, i) is None) <==> (samples[i].level
            == prior_level(initial_level, samples, i)),
{
}

} // verus!
