use geosync::content::cycle_driver_tick;
use geosync::content::resplit_driver_tick;
use geosync::content::score_driver_tick;
use geosync::content::ConfigError;
use geosync::content::pick_split_index;
use geosync::content::resplit;
use geosync::content::ScoreCounter;
use geosync::content::SplitWord;
use geosync::content::WordCycler;
use geosync::frame::load_words;
use geosync::frame::FramePipeline;
use geosync::frame::Stage;
use geosync::gate::ChangeGate;
use geosync::sync::CompositeWidget;
use geosync::sync::GeometrySynchronizer;
use geosync::text::MeasuredSize;
use geosync::text::Role;
use geosync::text::TextElement;
use geosync::timer::Timer;

fn size(width: u64, height: u64) -> MeasuredSize {
    MeasuredSize { width, height }
}

fn widget() -> CompositeWidget {
    CompositeWidget::new(
        0,
        TextElement::new(Role::LeftPart, String::new()),
        TextElement::new(Role::RightPart, String::new()),
        TextElement::new(Role::InvisibleProbe, String::new()),
    )
}

#[test]
fn gate_invalidates_once_for_repeated_content() {
    let mut el = TextElement::new(Role::Primary, String::from("old"));
    el.record_measurement(size(30, 16));

    let changed = ChangeGate::apply(&mut el, String::from("new"));
    assert!(changed);
    assert_eq!(el.content, "new");
    assert_eq!(el.committed_content, "new");
    assert!(el.measured_size.is_none());

    el.record_measurement(size(33, 16));
    let changed_again = ChangeGate::apply(&mut el, String::from("new"));
    assert!(!changed_again);
    assert_eq!(el.measured_size, Some(size(33, 16)));
}

#[test]
fn gate_passes_equal_content_through_untouched() {
    let mut el = TextElement::new(Role::Primary, String::from("same"));
    el.record_measurement(size(40, 16));
    let changed = ChangeGate::apply(&mut el, String::from("same"));
    assert!(!changed);
    assert_eq!(el.measured_size, Some(size(40, 16)));
}

#[test]
fn timer_repeating_fires_and_resets() {
    let mut t = Timer::new(10, true);
    assert!(!t.tick(4));
    assert_eq!(t.elapsed, 4);
    assert!(!t.tick(5));
    assert_eq!(t.elapsed, 9);
    assert!(t.tick(1));
    assert_eq!(t.elapsed, 0);
    assert!(t.tick(10));
    assert!(!t.finished);
}

#[test]
fn timer_one_shot_freezes_after_fire() {
    let mut t = Timer::new(5, false);
    assert!(t.tick(7));
    assert!(t.finished);
    assert_eq!(t.elapsed, 5);
    assert!(!t.tick(100));
    assert_eq!(t.elapsed, 5);
}

#[test]
fn timer_zero_duration_fires_every_tick() {
    let mut t = Timer::new(0, true);
    assert!(t.tick(0));
    assert!(t.tick(3));
}

#[test]
fn cycler_wraps_after_full_round() {
    let words = vec![
        String::from("alpha"),
        String::from("beta"),
        String::from("gamma"),
    ];
    let mut c = WordCycler::new(words);
    assert_eq!(c.fire(), "alpha");
    assert_eq!(c.fire(), "beta");
    assert_eq!(c.fire(), "gamma");
    assert_eq!(c.index, 0);
    assert_eq!(c.fire(), "alpha");
}

#[test]
fn parse_splits_at_the_delimiter() {
    let sw = SplitWord::parse("left|right", '|').unwrap();
    assert_eq!(sw.left, "left");
    assert_eq!(sw.right, "right");
}

#[test]
fn parse_rejects_missing_delimiter() {
    assert_eq!(
        SplitWord::parse("nodelimiter", '|').unwrap_err(),
        ConfigError::DelimiterMissing
    );
    assert_eq!(
        SplitWord::parse("", '|').unwrap_err(),
        ConfigError::DelimiterMissing
    );
}

#[test]
fn parse_rejects_repeated_delimiter() {
    assert_eq!(
        SplitWord::parse("a|b|c", '|').unwrap_err(),
        ConfigError::DelimiterRepeated
    );
}

#[test]
fn parse_rejects_empty_half() {
    assert_eq!(
        SplitWord::parse("|right", '|').unwrap_err(),
        ConfigError::EmptyHalf
    );
    assert_eq!(
        SplitWord::parse("left|", '|').unwrap_err(),
        ConfigError::EmptyHalf
    );
    assert_eq!(
        SplitWord::parse("|", '|').unwrap_err(),
        ConfigError::EmptyHalf
    );
}

#[test]
fn resplit_halves_rejoin_to_the_original() {
    let word = "word";
    for idx in 1..4 {
        let sw = resplit(word, idx);
        assert!(!sw.left.is_empty());
        assert!(!sw.right.is_empty());
        let mut joined = sw.left.clone();
        joined.push_str(&sw.right);
        assert_eq!(joined, word);
    }
    let sw = resplit("hidden", 2);
    assert_eq!(sw.left, "hi");
    assert_eq!(sw.right, "dden");
}

#[test]
fn pick_split_index_stays_interior() {
    for sample in [0u64, 1, 5, 17, u64::MAX] {
        let idx = pick_split_index(sample, 5);
        assert!((1..5).contains(&idx));
        assert_eq!(idx as u64, 1 + sample % 4);
    }
    assert_eq!(pick_split_index(7, 2), 1);
}

#[test]
fn score_renders_as_text() {
    let mut counter = ScoreCounter::new();
    assert_eq!(counter.render(), "Score: 0");
    counter.fire();
    counter.fire();
    counter.fire();
    assert_eq!(counter.render(), "Score: 3");
    counter.score = 1234;
    assert_eq!(counter.render(), "Score: 1234");
}

#[test]
fn cycle_driver_commits_on_fire_only() {
    let mut timer = Timer::new(10, true);
    let mut cycler = WordCycler::new(vec![String::from("one"), String::from("two")]);
    let mut el = TextElement::new(Role::Primary, String::new());
    el.record_measurement(size(5, 16));

    assert!(!cycle_driver_tick(&mut timer, &mut cycler, &mut el, 4));
    assert_eq!(el.content, "");
    assert_eq!(el.measured_size, Some(size(5, 16)));

    assert!(cycle_driver_tick(&mut timer, &mut cycler, &mut el, 6));
    assert_eq!(el.content, "one");
    assert_eq!(el.committed_content, "one");
    assert!(el.measured_size.is_none());
    assert_eq!(cycler.index, 1);
}

#[test]
fn resplit_driver_commits_both_halves() {
    let mut timer = Timer::new(1, true);
    let mut matched = TextElement::new(Role::Matched, String::new());
    let mut unmatched = TextElement::new(Role::Unmatched, String::new());

    // Sample 6 over "hidden" (length 6) picks index 1 + 6 % 5 = 2.
    assert!(resplit_driver_tick(&mut timer, "hidden", 6, &mut matched, &mut unmatched, 1));
    assert_eq!(matched.content, "hi");
    assert_eq!(unmatched.content, "dden");
    assert!(matched.measured_size.is_none());
    assert!(unmatched.measured_size.is_none());
}

#[test]
fn score_driver_counts_and_renders() {
    let mut timer = Timer::new(2, true);
    let mut counter = ScoreCounter::new();
    let mut el = TextElement::new(Role::Primary, String::new());

    assert!(!score_driver_tick(&mut timer, &mut counter, &mut el, 1));
    assert_eq!(counter.score, 0);
    assert_eq!(el.content, "");

    assert!(score_driver_tick(&mut timer, &mut counter, &mut el, 1));
    assert_eq!(counter.score, 1);
    assert_eq!(el.content, "Score: 1");

    assert!(score_driver_tick(&mut timer, &mut counter, &mut el, 2));
    assert_eq!(counter.score, 2);
    assert_eq!(el.content, "Score: 2");
}

#[test]
fn synchronize_derives_background_and_offsets() {
    // Probe width 100 plus padding 8 gives a background width of 108; the
    // left part (width 40) from parent global x 0 lands at 0 + 54 - 20 = 34.
    let mut w = widget();
    w.left.record_measurement(size(40, 20));
    w.right.record_measurement(size(60, 20));
    w.probe.record_measurement(size(100, 20));
    let wrote = GeometrySynchronizer::synchronize(&mut w);
    assert!(wrote);
    assert_eq!(w.background_width, 108);
    assert_eq!(w.background_height, 28);
    assert_eq!(w.left_offset_x, 34);
    assert_eq!(w.right_offset_x, -24);
    assert_eq!(w.left_global_x, 34);
    assert_eq!(w.right_global_x, -24);
}

#[test]
fn synchronize_skips_while_unmeasured() {
    let mut w = widget();
    w.left.record_measurement(size(40, 20));
    w.right.record_measurement(size(60, 20));
    // No probe measurement yet: nothing may be written.
    let wrote = GeometrySynchronizer::synchronize(&mut w);
    assert!(!wrote);
    assert_eq!(w.background_width, 0);
    assert_eq!(w.left_offset_x, 0);
    assert_eq!(w.right_offset_x, 0);
}

#[test]
fn synchronize_converges_after_one_success() {
    let mut w = widget();
    w.left.record_measurement(size(40, 20));
    w.right.record_measurement(size(60, 20));
    w.probe.record_measurement(size(100, 20));
    assert!(GeometrySynchronizer::synchronize(&mut w));
    let background = (w.background_width, w.background_height);
    let offsets = (w.left_offset_x, w.right_offset_x, w.left_global_x, w.right_global_x);
    // A second pass over unchanged measurements changes nothing.
    assert!(GeometrySynchronizer::synchronize(&mut w));
    assert_eq!((w.background_width, w.background_height), background);
    assert_eq!(
        (w.left_offset_x, w.right_offset_x, w.left_global_x, w.right_global_x),
        offsets
    );
}

#[test]
fn load_words_parses_every_source() {
    let sources = vec![String::from("ab|cd"), String::from("x|y")];
    let words = load_words(&sources, '|').unwrap();
    assert_eq!(words.len(), 2);
    assert_eq!(words[0].left, "ab");
    assert_eq!(words[0].right, "cd");
    assert_eq!(words[1].left, "x");
    assert_eq!(words[1].right, "y");
}

#[test]
fn load_words_fails_fast_on_bad_source() {
    let sources = vec![String::from("ok|fine"), String::from("broken")];
    assert_eq!(load_words(&sources, '|').unwrap_err(), ConfigError::DelimiterMissing);
}

#[test]
fn pipeline_runs_one_frame_in_stage_order() {
    let sources = vec![String::from("ab|cd"), String::from("x|y")];
    let timer = Timer::new(10, true);
    let mut p = FramePipeline::new(timer, &sources, '|', widget()).unwrap();
    assert_eq!(p.stage, Stage::Content);

    let fired = p.content_stage(10);
    assert!(fired);
    assert_eq!(p.stage, Stage::Measure);
    assert_eq!(p.widget.left.content, "ab");
    assert_eq!(p.widget.right.content, "cd");
    assert_eq!(p.widget.probe.content, "abcd");
    assert!(p.widget.probe.measured_size.is_none());
    assert_eq!(p.next_word, 1);

    p.measure_stage(Some(size(18, 16)), Some(size(18, 16)), Some(size(36, 16)));
    assert_eq!(p.stage, Stage::Sync);

    let wrote = p.sync_stage();
    assert!(wrote);
    assert_eq!(p.stage, Stage::Content);
    assert_eq!(p.widget.background_width, 44);
    assert_eq!(p.widget.left_offset_x, 22 - 9);
}

#[test]
fn pipeline_quiet_frame_changes_no_content() {
    let sources = vec![String::from("ab|cd")];
    let timer = Timer::new(10, true);
    let mut p = FramePipeline::new(timer, &sources, '|', widget()).unwrap();

    let fired = p.content_stage(4);
    assert!(!fired);
    assert_eq!(p.widget.left.content, "");
    assert_eq!(p.next_word, 0);
    p.measure_stage(None, None, None);
    // Nothing was ever measured: the synchronizer skips.
    assert!(!p.sync_stage());
}

#[test]
fn pipeline_word_index_wraps() {
    let sources = vec![String::from("a|b"), String::from("c|d")];
    let timer = Timer::new(1, true);
    let mut p = FramePipeline::new(timer, &sources, '|', widget()).unwrap();
    for expected in ["a", "c", "a", "c"] {
        assert!(p.content_stage(1));
        assert_eq!(p.widget.left.content, expected);
        p.measure_stage(None, None, None);
        p.sync_stage();
    }
}

#[test]
fn pipeline_rejects_bad_configuration() {
    let sources = vec![String::from("a|b|c")];
    let timer = Timer::new(1, true);
    let err = match FramePipeline::new(timer, &sources, '|', widget()) {
        Ok(_) => panic!("malformed configuration must not build a pipeline"),
        Err(e) => e,
    };
    assert_eq!(err, ConfigError::DelimiterRepeated);
}
