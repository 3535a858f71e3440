//! Watching over the state machine.

use dl_voice_typing::state::StateTag;
use dl_voice_typing::watchdog::{Watchdog, WatchdogStep};

#[test]
fn a_busy_machine_is_reset_after_thirty_seconds() {
    let mut w = Watchdog::new();
    assert_eq!(w.check(StateTag::Idle, 0), WatchdogStep::Leave);
    assert_eq!(w.check(StateTag::Recording, 10_000), WatchdogStep::Leave);
    assert_eq!(w.check(StateTag::Transcribing, 20_000), WatchdogStep::Leave);
    assert_eq!(w.check(StateTag::Transcribing, 40_000), WatchdogStep::Leave);
    assert_eq!(w.check(StateTag::Transcribing, 40_001), WatchdogStep::Reset);
    assert_eq!(w.check(StateTag::Transcribing, 50_000), WatchdogStep::Leave);
}

#[test]
fn an_idle_machine_is_left_alone() {
    let mut w = Watchdog::default();
    for t in 0..100 {
        assert_eq!(w.check(StateTag::Idle, t * 10_000), WatchdogStep::Leave);
    }
    assert_eq!(w.check(StateTag::Reviewing, 1_000_000), WatchdogStep::Leave);
    assert_eq!(w.check(StateTag::Idle, 1_010_000), WatchdogStep::Leave);
    assert_eq!(w.check(StateTag::Reviewing, 1_050_000), WatchdogStep::Leave);
}

#[test]
fn a_recording_is_brought_to_an_end() {
    let mut w = Watchdog::new();
    assert_eq!(w.check(StateTag::RecordOnly, 0), WatchdogStep::Leave);
    assert_eq!(w.check(StateTag::RecordOnly, 30_001), WatchdogStep::RecoverRecordOnly);
}
