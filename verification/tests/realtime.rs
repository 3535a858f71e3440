//! Realtime transcription.

use dl_voice_typing::realtime::{
    accumulate, content_char_offset, find_overlap_end, is_punct, pause_polls, EngineReply,
    LoopAction, LoopEvent, RealtimeTranscriber, StateMachineAudioSource, SHORT_STEP_MS, STEP_MS,
};

#[test]
fn test_accumulate_first_partial() {
    let result = accumulate("", "", "Hello world");
    assert_eq!(result, "Hello world");
}

#[test]
fn test_accumulate_overlapping() {
    let result = accumulate(
        "Hello, my name is",
        "Hello, my name is",
        "Hello, my name is John",
    );
    assert_eq!(result, "Hello, my name is John");
}

#[test]
fn test_accumulate_chinese_overlapping() {
    let result = accumulate("你好，我是", "你好，我是", "你好，我是小明");
    assert_eq!(result, "你好，我是小明");
}

#[test]
fn test_accumulate_no_overlap() {
    let result = accumulate("Hello world", "Hello world", "Nice to meet you");
    assert_eq!(result, "Hello world");
}

#[test]
fn test_accumulate_punctuation_variation() {
    let result = accumulate("你好我是小明", "你好我是小明", "你好，我是小明今年二十岁");
    assert_eq!(result, "你好我是小明今年二十岁");
}

#[test]
fn test_accumulate_punctuation_variation_english() {
    let result = accumulate(
        "Hello my name is John",
        "Hello my name is John",
        "Hello, my name is John, and I live in NYC",
    );
    assert_eq!(result, "Hello my name is John, and I live in NYC");
}

#[test]
fn test_accumulate_chinese_multi_sentence() {
    let mut acc = String::new();
    let mut prev = String::new();

    acc = accumulate(&acc, &prev, "你好，我是小明");
    prev = "你好，我是小明".to_string();

    acc = accumulate(&acc, &prev, "你好，我是小明，今年二十岁");
    prev = "你好，我是小明，今年二十岁".to_string();

    acc = accumulate(&acc, &prev, "我是小明，今年二十岁，住在上海");

    assert_eq!(acc, "你好，我是小明，今年二十岁，住在上海");
}

#[test]
fn test_extract_last_5s_from_buffer() {
    let source = StateMachineAudioSource::new(Some(vec![1.0f32; 48_000 * 10]));
    let samples_needed = 48_000 * 5;
    let actual = source.get_recent_samples(samples_needed).unwrap();
    assert_eq!(actual.len(), samples_needed);
}

#[test]
fn test_extract_short_buffer_returns_all() {
    let source = StateMachineAudioSource::new(Some(vec![0.5f32; 1000]));
    let samples_needed = 48_000 * 5;
    let actual = source.get_recent_samples(samples_needed).unwrap();
    assert_eq!(actual.len(), 1000);
}

#[test]
fn no_recording_gives_no_samples() {
    let source: StateMachineAudioSource<f32> = StateMachineAudioSource::new(None);
    assert!(source.get_recent_samples(10).is_none());
}

#[test]
fn test_stop_clears_running_flag() {
    let mut rt = RealtimeTranscriber::start(16_000);
    assert!(rt.running);
    rt.stop();
    assert!(!rt.running);
}

#[test]
fn test_take_accumulated() {
    let mut rt = RealtimeTranscriber {
        running: false,
        sample_rate: 16_000,
        prev_partial: String::new(),
        accumulated: "test text".to_string(),
    };
    assert_eq!(rt.take_accumulated(), "test text");
    assert_eq!(rt.take_accumulated(), "");
}

#[test]
fn punctuation_and_space_are_no_content() {
    assert!(is_punct('，'));
    assert!(is_punct(','));
    assert!(!is_punct('a'));
    assert_eq!(content_char_offset("你好，我是", 3), 12);
    assert_eq!(content_char_offset("你好，我是", 5), 15);
    assert_eq!(content_char_offset("你好，我是", 0), 15);
    assert_eq!(content_char_offset("é😀a", 2), 6);
}

#[test]
fn the_overlap_ends_behind_what_is_known() {
    assert_eq!(find_overlap_end("你好我是小明", "你好，我是小明今年"), "你好，我是小明".len());
    assert_eq!(find_overlap_end("你", "你"), 3);
    assert_eq!(find_overlap_end("", "你"), 0);
    assert_eq!(find_overlap_end("Hello world", "Nice to meet you"), 0);
}

#[test]
fn pauses_are_made_of_polls() {
    assert_eq!(pause_polls(0), 0);
    assert!(pause_polls(500) >= 1);
}

#[test]
fn the_loop_listens_before_it_transcribes() {
    let mut rt = RealtimeTranscriber::start(48_000);
    assert!(matches!(rt.next_step(LoopEvent::Tick), LoopAction::FetchWindow(240_000)));
    assert!(matches!(rt.next_step(LoopEvent::Window(Some(0))), LoopAction::Pause(SHORT_STEP_MS)));
    assert!(matches!(rt.next_step(LoopEvent::Window(Some(1))), LoopAction::Listen));
    let quiet = LoopEvent::Level { quiet: true, energetic: true };
    assert!(matches!(rt.next_step(quiet), LoopAction::Pause(STEP_MS)));
    let dull = LoopEvent::Level { quiet: false, energetic: false };
    assert!(matches!(rt.next_step(dull), LoopAction::Pause(STEP_MS)));
    let speech = LoopEvent::Level { quiet: false, energetic: true };
    assert!(matches!(rt.next_step(speech), LoopAction::Transcribe));
}

#[test]
fn the_running_text_is_shown() {
    let mut rt = RealtimeTranscriber::start(16_000);
    let heard = |t: &str| LoopEvent::Engine(EngineReply::Text(t.to_string()));
    assert!(matches!(rt.next_step(heard("今天天气")), LoopAction::EmitThenPause(s, STEP_MS) if s == "今天天气"));
    assert!(matches!(rt.next_step(heard("天气很好")), LoopAction::EmitThenPause(s, _) if s == "今天天气很好"));
    assert!(matches!(rt.next_step(heard("")), LoopAction::Pause(STEP_MS)));
    assert_eq!(rt.accumulated, "今天天气很好");
}

#[test]
fn the_loop_ends_with_the_recording_or_the_engine() {
    let mut rt = RealtimeTranscriber::start(16_000);
    assert!(matches!(rt.next_step(LoopEvent::Window(None)), LoopAction::Exit));
    assert!(matches!(rt.next_step(LoopEvent::Engine(EngineReply::Broken)), LoopAction::Exit));
    assert!(matches!(rt.next_step(LoopEvent::Engine(EngineReply::Busy)), LoopAction::Pause(STEP_MS)));
    assert!(matches!(rt.next_step(LoopEvent::Engine(EngineReply::Failed)), LoopAction::Pause(STEP_MS)));
    rt.stop();
    assert!(matches!(rt.next_step(LoopEvent::Tick), LoopAction::Exit));
}

#[test]
fn an_unchanged_window_adds_nothing() {
    assert_eq!(accumulate("你好。", "你好。", "你好。"), "你好。");
    assert_eq!(accumulate("a", "。", "。"), "a");
    assert_eq!(accumulate("Hello.", "Hello. ", "Hello. "), "Hello.");
}

#[test]
fn punctuation_that_arrives_late_is_kept() {
    assert_eq!(accumulate("你好", "你好", "你好。"), "你好。");
    assert_eq!(accumulate("你好。", "你好。", "你好！"), "你好。！");
    assert_eq!(accumulate("你好", "你好", "你好。世界"), "你好。世界");
    assert_eq!(accumulate("你好", "你好。", "你好。世界"), "你好。世界");
}

/// Run the loop for so many rounds on audio of one level; hands out the texts that were shown.
fn shown(loud: bool, response: &str, rounds: usize) -> Vec<String> {
    let source = StateMachineAudioSource::new(Some(vec![if loud { 0.3f32 } else { 0.0 }; 16_000 * 5]));
    let mut rt = RealtimeTranscriber::start(16_000);
    let mut events = Vec::new();
    let mut event = LoopEvent::Tick;
    let mut paused = 0;
    while paused < rounds {
        event = match rt.next_step(event) {
            LoopAction::FetchWindow(n) => {
                LoopEvent::Window(source.get_recent_samples(n).map(|w| w.len()))
            }
            LoopAction::Listen => LoopEvent::Level { quiet: !loud, energetic: loud },
            LoopAction::Transcribe => LoopEvent::Engine(EngineReply::Text(response.to_string())),
            LoopAction::Pause(_) => {
                paused += 1;
                LoopEvent::Tick
            }
            LoopAction::EmitThenPause(text, _) => {
                events.push(text);
                paused += 1;
                LoopEvent::Tick
            }
            LoopAction::Exit => panic!("the loop goes on"),
        };
    }
    rt.stop();
    assert!(matches!(rt.next_step(LoopEvent::Tick), LoopAction::Exit));
    events
}

#[test]
fn test_realtime_loop_emits_partial_events() {
    let events = shown(true, "Hello world", 1);
    assert!(!events.is_empty(), "expected at least one partial event");
    assert_eq!(events.last().unwrap(), "Hello world");
}

#[test]
fn test_realtime_loop_silent_audio_no_events() {
    let events = shown(false, "should not emit", 2);
    assert!(events.is_empty(), "silent audio should not produce events");
}

#[test]
fn test_realtime_loop_accumulates_multiple_partials() {
    let events = shown(true, "First", 2);
    assert!(!events.is_empty());
    assert!(events.iter().all(|e| e == "First"));
}
