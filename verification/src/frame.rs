//! The per-frame pipeline for one word-revealing widget, with its stages
//! sequenced under an explicit stage token.
//!
//! The host scheduler invokes the stages in a fixed order once per frame:
//! content driver and change gate first, then the measurement boundary, then
//! the geometry synchronizer.  Content committed in the content stage is
//! measured no earlier than the measurement stage, and the synchronizer reads
//! sizes only after that stage: the stage token in `requires` clauses makes
//! this ordering a checked contract rather than an incidental scheduler
//! property.  Each stage runs to completion; nothing spans frames except the
//! timer's accumulation and the commit-to-measurement latency itself.

use vstd::prelude::*;

use crate::content::ConfigError;
use crate::content::SplitWord;
use crate::content::is_split_of;
use crate::content::next_index;
use crate::content::parse_error;
use crate::content::parse_ok;
use crate::gate::ChangeGate;
use crate::gate::gate_spec;
use crate::sync::CompositeWidget;
use crate::sync::GeometrySynchronizer;
use crate::sync::sync_spec;
use crate::text::MeasuredSize;
use crate::text::TextElement;
use crate::timer::Timer;
use vstd::string::StringExecFns;

verus! {

/// The stages of one frame, in their fixed execution order.
#[derive(Clone, Copy, PartialEq, Eq, Structural, Debug)]
pub enum Stage {
    /// Advance timers and commit proposed content through the change gate.
    Content,
    /// The host measurement boundary: sizes measured for committed content
    /// become visible here, one stage after the commit.
    Measure,
    /// Derive background extents and child offsets from measured sizes.
    Sync,
}

/// Parse every delimiter-separated source into a split word, failing fast on
/// the first configuration error.
pub fn load_words(sources: &Vec<String>, delimiter: char) -> (r: Result<Vec<SplitWord>, ConfigError>)
    ensures
        r is Ok <==> (forall|i: int|
            0 <= i < sources@.len() ==> parse_ok(sources@[i]@, delimiter)),
        r matches Ok(ws) ==> ws@.len() == sources@.len() && (forall|i: int|
            0 <= i < sources@.len() ==> is_split_of(ws@[i], sources@[i]@, delimiter)),
        r matches Err(e) ==> (exists|i: int|
            0 <= i < sources@.len() && !parse_ok(sources@[i]@, delimiter) && e == parse_error(
                sources@[i]@,
                delimiter,
            ) && (forall|j: int| 0 <= j < i ==> parse_ok(sources@[j]@, delimiter))),
{
    let mut out: Vec<SplitWord> = Vec::new();
    let mut i: usize = 0;
    let n = sources.len();
    while i < n
        invariant
            n == sources@.len(),
            i <= n,
            out@.len() == i,
            forall|j: int| 0 <= j < i ==> is_split_of(out@[j], sources@[j]@, delimiter),
            forall|j: int| 0 <= j < i ==> parse_ok(sources@[j]@, delimiter),
        decreases n - i,
    {
        let sw = match SplitWord::parse(sources[i].as_str(), delimiter) {
            Ok(sw) => sw,
            Err(e) => {
                return Err(e);
            },
        };
        out.push(sw);
        i = i + 1;
    }
    Ok(out)
}

/// One widget's slice of the frame pipeline: a repeating timer drives word
/// cycling, the change gate guards the widget's text elements, and the
/// synchronizer derives the geometry.
pub struct FramePipeline {
    pub timer: Timer,
    /// The word list, already parsed: configuration errors fail at load time.
    pub words: Vec<SplitWord>,
    pub next_word: usize,
    pub widget: CompositeWidget,
    pub stage: Stage,
}

/// The element `after` equals `before` with its measured size overwritten by
/// `m`, when the host produced a measurement; with none, it is untouched.
pub open spec fn measured_update(
    before: TextElement,
    m: Option<MeasuredSize>,
    after: TextElement,
) -> bool {
    match m {
        Some(s) => after == (TextElement { measured_size: Some(s), ..before }),
        None => after == before,
    }
}

/// The widget after a measurement pass that produced sizes for all three
/// children.
pub open spec fn widget_measured(
    w: CompositeWidget,
    left: MeasuredSize,
    right: MeasuredSize,
    probe: MeasuredSize,
) -> CompositeWidget {
    CompositeWidget {
        left: TextElement { measured_size: Some(left), ..w.left },
        right: TextElement { measured_size: Some(right), ..w.right },
        probe: TextElement { measured_size: Some(probe), ..w.probe },
        ..w
    }
}

/// Law: convergence across frames.  After a content change, the first
/// synchronization pass following a successful measurement fixes the derived
/// geometry: measuring the unchanged committed content again — measurement is
/// deterministic for identical content, so the same sizes come back — and
/// running another pass changes nothing.
pub proof fn lemma_frame_convergence(
    w: CompositeWidget,
    left: MeasuredSize,
    right: MeasuredSize,
    probe: MeasuredSize,
)
    ensures
        sync_spec(widget_measured(sync_spec(widget_measured(w, left, right, probe)), left, right, probe))
            == sync_spec(widget_measured(w, left, right, probe)),
{
    let settled = sync_spec(widget_measured(w, left, right, probe));
    assert(widget_measured(settled, left, right, probe) == settled);
}

impl FramePipeline {
    pub open spec fn wf(self) -> bool {
        &&& self.timer.wf()
        &&& self.widget.wf()
        &&& self.words@.len() > 0
        &&& (self.next_word as nat) < self.words@.len()
    }

    /// Assemble a pipeline from authored sources, parsing the word list up
    /// front: a malformed source aborts construction and nothing else is
    /// built.
    pub fn new(
        timer: Timer,
        sources: &Vec<String>,
        delimiter: char,
        widget: CompositeWidget,
    ) -> (r: Result<FramePipeline, ConfigError>)
        requires
            timer.wf(),
            widget.wf(),
            sources@.len() > 0,
        ensures
            r is Ok <==> (forall|i: int|
                0 <= i < sources@.len() ==> parse_ok(sources@[i]@, delimiter)),
            r matches Ok(p) ==> {
                &&& p.wf()
                &&& p.stage == Stage::Content
                &&& p.timer == timer
                &&& p.widget == widget
                &&& p.next_word == 0
                &&& p.words@.len() == sources@.len()
                &&& (forall|i: int|
                    0 <= i < sources@.len() ==> is_split_of(p.words@[i], sources@[i]@, delimiter))
            },
            r matches Err(e) ==> (exists|i: int|
                0 <= i < sources@.len() && !parse_ok(sources@[i]@, delimiter) && e == parse_error(
                    sources@[i]@,
                    delimiter,
                )),
    {
        let words = match load_words(sources, delimiter) {
            Ok(ws) => ws,
            Err(e) => {
                return Err(e);
            },
        };
        Ok(FramePipeline { timer, words, next_word: 0, widget, stage: Stage::Content })
    }

    /// Content stage: advance the timer; on a fire, commit the next word's
    /// halves to the two visible parts and their concatenation to the probe,
    /// all through the change gate, and step the word index with wrap-around.
    /// Derived geometry is not touched here.
    pub fn content_stage(&mut self, delta: u64) -> (fired: bool)
        requires
            old(self).wf(),
            old(self).stage == Stage::Content,
        ensures
            final(self).wf(),
            final(self).stage == Stage::Measure,
            final(self).timer == old(self).timer.tick_spec(delta),
            final(self).words == old(self).words,
            fired == old(self).timer.fires(delta),
            !fired ==> final(self).widget == old(self).widget && final(self).next_word == old(
                self,
            ).next_word,
            fired ==> {
                &&& final(self).next_word as nat == next_index(
                    old(self).next_word as nat,
                    old(self).words@.len(),
                )
                &&& gate_spec(
                    old(self).widget.left,
                    old(self).words@[old(self).next_word as int].left@,
                    final(self).widget.left,
                )
                &&& gate_spec(
                    old(self).widget.right,
                    old(self).words@[old(self).next_word as int].right@,
                    final(self).widget.right,
                )
                &&& gate_spec(
                    old(self).widget.probe,
                    old(self).words@[old(self).next_word as int].left@ + old(self).words@[old(
                        self,
                    ).next_word as int].right@,
                    final(self).widget.probe,
                )
                &&& final(self).widget.global_x == old(self).widget.global_x
                &&& final(self).widget.background_width == old(self).widget.background_width
                &&& final(self).widget.background_height == old(self).widget.background_height
                &&& final(self).widget.left_offset_x == old(self).widget.left_offset_x
                &&& final(self).widget.right_offset_x == old(self).widget.right_offset_x
                &&& final(self).widget.left_global_x == old(self).widget.left_global_x
                &&& final(self).widget.right_global_x == old(self).widget.right_global_x
            },
    {
        let fired = self.timer.tick(delta);
        if fired {
            let left_prop = self.words[self.next_word].left.clone();
            let right_prop = self.words[self.next_word].right.clone();
            let probe_prop = left_prop.clone().concat(right_prop.as_str());
            ChangeGate::apply(&mut self.widget.left, left_prop);
            ChangeGate::apply(&mut self.widget.right, right_prop);
            ChangeGate::apply(&mut self.widget.probe, probe_prop);
            let len = self.words.len();
            self.next_word = if self.next_word + 1 == len {
                0
            } else {
                self.next_word + 1
            };
        }
        self.stage = Stage::Measure;
        fired
    }

    /// Measurement boundary: record the sizes the host measured for the
    /// committed contents.  A size the host did not produce this frame leaves
    /// its element untouched — possibly still stale — for the synchronizer to
    /// skip.  Only measured sizes change here; the measurer owns that field
    /// and nothing else.
    pub fn measure_stage(
        &mut self,
        left: Option<MeasuredSize>,
        right: Option<MeasuredSize>,
        probe: Option<MeasuredSize>,
    )
        requires
            old(self).wf(),
            old(self).stage == Stage::Measure,
            left matches Some(s) ==> s.wf(),
            right matches Some(s) ==> s.wf(),
            probe matches Some(s) ==> s.wf(),
        ensures
            final(self).wf(),
            final(self).stage == Stage::Sync,
            final(self).timer == old(self).timer,
            final(self).words == old(self).words,
            final(self).next_word == old(self).next_word,
            measured_update(old(self).widget.left, left, final(self).widget.left),
            measured_update(old(self).widget.right, right, final(self).widget.right),
            measured_update(old(self).widget.probe, probe, final(self).widget.probe),
            final(self).widget.global_x == old(self).widget.global_x,
            final(self).widget.background_width == old(self).widget.background_width,
            final(self).widget.background_height == old(self).widget.background_height,
            final(self).widget.left_offset_x == old(self).widget.left_offset_x,
            final(self).widget.right_offset_x == old(self).widget.right_offset_x,
            final(self).widget.left_global_x == old(self).widget.left_global_x,
            final(self).widget.right_global_x == old(self).widget.right_global_x,
    {
        match left {
            Some(s) => self.widget.left.record_measurement(s),
            None => {},
        }
        match right {
            Some(s) => self.widget.right.record_measurement(s),
            None => {},
        }
        match probe {
            Some(s) => self.widget.probe.record_measurement(s),
            None => {},
        }
        self.stage = Stage::Sync;
    }

    /// Synchronization stage: one pass of the geometry synchronizer over the
    /// widget, then back to the content stage for the next frame.
    pub fn sync_stage(&mut self) -> (wrote: bool)
        requires
            old(self).wf(),
            old(self).stage == Stage::Sync,
        ensures
            final(self).wf(),
            final(self).stage == Stage::Content,
            final(self).widget == sync_spec(old(self).widget),
            wrote == old(self).widget.ready(),
            final(self).timer == old(self).timer,
            final(self).words == old(self).words,
            final(self).next_word == old(self).next_word,
    {
        let wrote = GeometrySynchronizer::synchronize(&mut self.widget);
        self.stage = Stage::Content;
        wrote
    }
}

} // verus!
