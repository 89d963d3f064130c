use burrboard::gatt::{pattern_of, BurrBoardService, BurrBoardServiceEvent, MonitorCommand};
use burrboard::pattern::ModeDiscriminants;
use burrboard::runner::Msg;

#[test]
fn direction_selects_pattern() {
    assert_eq!(pattern_of(2), ModeDiscriminants::Rainbow);
    assert_eq!(pattern_of(3), ModeDiscriminants::RainbowPart);
    for v in [0u8, 1, 4, 255] {
        assert_eq!(pattern_of(v), ModeDiscriminants::Off);
    }
    assert_eq!(
        BurrBoardServiceEvent::DirectionWrite(2).command(),
        MonitorCommand::Send(Msg::SetMode(ModeDiscriminants::Rainbow))
    );
}

#[test]
fn sleep_write_starts_or_cancels() {
    assert_eq!(
        BurrBoardServiceEvent::SleepWrite(0).command(),
        MonitorCommand::Send(Msg::StopSleep)
    );
    assert_eq!(
        BurrBoardServiceEvent::SleepWrite(30).command(),
        MonitorCommand::Send(Msg::StartSleep(30_000))
    );
    assert_eq!(
        BurrBoardServiceEvent::SleepWrite(u16::MAX).command(),
        MonitorCommand::Send(Msg::StartSleep(65_535_000))
    );
}

#[test]
fn report_interval_write_sets_cadence() {
    assert_eq!(
        BurrBoardServiceEvent::ReportIntervalWrite(500).command(),
        MonitorCommand::SetReportInterval(500)
    );
    let s = BurrBoardService { direction: 2, sleep: 0, report_interval: 1000 };
    assert_eq!(s.report_interval, 1000);
}
