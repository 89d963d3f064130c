use vstd::prelude::*;

use crate::pattern::ModeDiscriminants;
use crate::runner::Msg;

verus! {

/// The writable values of the board's wireless service.
#[derive(Clone, Copy, Debug, PartialEq, Eq, Structural)]
pub struct BurrBoardService {
    /// Pattern number.
    pub direction: u8,
    /// Sleep in seconds; zero for none.
    pub sleep: u16,
    /// Milliseconds between telemetry reports.
    pub report_interval: u16,
}

/// A write to one of the service's values.
#[derive(Clone, Copy, Debug, PartialEq, Eq, Structural)]
pub enum BurrBoardServiceEvent {
    DirectionWrite(u8),
    SleepWrite(u16),
    ReportIntervalWrite(u16),
}

/// What the monitor does about a write.
#[derive(Clone, Copy, Debug, PartialEq, Eq, Structural)]
pub enum MonitorCommand {
    /// Hand the message to the runner.
    Send(Msg),
    /// Report telemetry every so many milliseconds from now on.
    SetReportInterval(u64),
}

/// The pattern a pattern number selects: 2 and 3 the two sweeps, any other
/// number `Off`.
pub open spec fn spec_pattern_of(val: u8) -> ModeDiscriminants {
    if val == 2 {
        ModeDiscriminants::Rainbow
    } else if val == 3 {
        ModeDiscriminants::RainbowPart
    } else {
        ModeDiscriminants::Off
    }
}

pub fn pattern_of(val: u8) -> (m: ModeDiscriminants)
    ensures
        m == spec_pattern_of(val),
{
    match val {
        2 => ModeDiscriminants::Rainbow,
        3 => ModeDiscriminants::RainbowPart,
        _ => ModeDiscriminants::Off,
    }
}

impl BurrBoardServiceEvent {
    /// A pattern number selects that pattern; a sleep of zero seconds cancels
    /// the sleep, any other starts one of that many seconds; a report interval
    /// changes the telemetry cadence.
    pub open spec fn spec_command(self) -> MonitorCommand {
        match self {
            BurrBoardServiceEvent::DirectionWrite(val) => MonitorCommand::Send(
                Msg::SetMode(spec_pattern_of(val)),
            ),
            BurrBoardServiceEvent::SleepWrite(secs) => if secs == 0 {
                MonitorCommand::Send(Msg::StopSleep)
            } else {
                MonitorCommand::Send(Msg::StartSleep((secs * 1000) as u64))
            },
            BurrBoardServiceEvent::ReportIntervalWrite(ms) => MonitorCommand::SetReportInterval(
                ms as u64,
            ),
        }
    }

    pub fn command(&self) -> (c: MonitorCommand)
        ensures
            c == self.spec_command(),
    {
        match self {
            BurrBoardServiceEvent::DirectionWrite(val) => MonitorCommand::Send(
                Msg::SetMode(pattern_of(*val)),
            ),
            BurrBoardServiceEvent::SleepWrite(secs) => {
                if *secs == 0 {
                    MonitorCommand::Send(Msg::StopSleep)
                } else {
                    MonitorCommand::Send(Msg::StartSleep((*secs as u64) * 1000))
                }
            },
            BurrBoardServiceEvent::ReportIntervalWrite(ms) => MonitorCommand::SetReportInterval(
                *ms as u64,
            ),
        }
    }
}

} // verus!
