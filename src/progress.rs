//! How a front end renders the progress events of a flashing run: stage
//! transitions, not raw numbers, start a new progress bar.
use vstd::prelude::*;

use crate::flashing::DownloadFlashingStatus;

verus! {

/// A share in percent, at most 100; 0 for an empty whole.
pub open spec fn spec_percent(done: u64, total: u64) -> u64 {
    if total == 0 {
        0
    } else if done >= total {
        100
    } else {
        ((done as int) * 100 / (total as int)) as u64
    }
}

/// A share in percent, at most 100.
pub fn percent(done: u64, total: u64) -> (r: u64)
    ensures
        r == spec_percent(done, total),
        r <= 100,
{
    if total == 0 {
        0
    } else if done >= total {
        100
    } else {
        let r = (done as u128 * 100 / total as u128) as u64;
        assert((done as int) * 100 / (total as int) <= 100) by (nonlinear_arith)
            requires
                done < total,
                total > 0,
        ;
        r
    }
}

/// What the front end does with one progress event.
#[derive(Clone, Copy, Debug, PartialEq, Eq, Structural)]
pub enum ViewAction {
    /// Nothing changed.
    Skip,
    /// Same stage: move the current bar.
    SetPosition(u64),
    /// A new stage with progress: finish the current bar, if any, and start
    /// a new one for stage `stage`.
    NewBar { finish_previous: bool, stage: u64, percent: u64 },
    /// A new stage without progress: finish the current bar, if any, and print
    /// stage `stage`.
    NewStage { finish_previous: bool, stage: u64 },
}

/// The state of a progress rendering: the last event shown, the number of
/// the current stage, and whether a bar is showing.
#[derive(Clone, Copy, Debug, PartialEq, Eq, Structural)]
pub struct ProgressView {
    pub last: DownloadFlashingStatus,
    pub stage: u64,
    pub has_bar: bool,
}

/// An event that carries a progress share.
pub open spec fn has_progress(s: DownloadFlashingStatus) -> bool {
    s is DownloadingProgress || s is FlashingProgress
}

/// Two events of the same stage with progress.
pub open spec fn same_progress_stage(a: DownloadFlashingStatus, b: DownloadFlashingStatus) -> bool {
    (a is DownloadingProgress && b is DownloadingProgress) || (a is FlashingProgress
        && b is FlashingProgress)
}

/// The share an event with progress carries, in percent.
pub open spec fn spec_status_percent(s: DownloadFlashingStatus) -> u64 {
    match s {
        DownloadFlashingStatus::DownloadingProgress { done, total } => spec_percent(done, total),
        DownloadFlashingStatus::FlashingProgress { done, total } => spec_percent(done, total),
        _ => 0,
    }
}

impl ProgressView {
    /// A bar is showing exactly while the last event carried progress.
    pub open spec fn inv(&self) -> bool {
        self.has_bar == has_progress(self.last)
    }

    /// The view at the start of a run: stage 1, preparing.
    pub fn new() -> (r: Self)
        ensures
            r.inv(),
            r.stage == 1,
            r.last == DownloadFlashingStatus::Preparing,
    {
        ProgressView { last: DownloadFlashingStatus::Preparing, stage: 1, has_bar: false }
    }

    /// Takes in one progress event. A repeated event is skipped; progress
    /// within the same stage moves the bar; any other event starts the next
    /// stage.
    pub fn update(&mut self, s: DownloadFlashingStatus) -> (r: ViewAction)
        requires
            old(self).inv(),
        ensures
            final(self).inv(),
            s == old(self).last ==> r == ViewAction::Skip && *final(self) == *old(self),
            s != old(self).last ==> final(self).last == s,
            (s != old(self).last && same_progress_stage(s, old(self).last)) ==> r
                == ViewAction::SetPosition(spec_status_percent(s)) && final(self).stage == old(
                self,
            ).stage,
            (s != old(self).last && !same_progress_stage(s, old(self).last)) ==> {
                &&& final(self).stage == if old(self).stage < u64::MAX {
                    (old(self).stage + 1) as u64
                } else {
                    u64::MAX
                }
                &&& has_progress(s) ==> r == ViewAction::NewBar {
                    finish_previous: old(self).has_bar,
                    stage: final(self).stage,
                    percent: spec_status_percent(s),
                }
                &&& !has_progress(s) ==> r == ViewAction::NewStage {
                    finish_previous: old(self).has_bar,
                    stage: final(self).stage,
                }
            },
    {
        if s == self.last {
            return ViewAction::Skip;
        }
        let pct = match s {
            DownloadFlashingStatus::DownloadingProgress { done, total } => percent(done, total),
            DownloadFlashingStatus::FlashingProgress { done, total } => percent(done, total),
            _ => 0,
        };
        let same = match (s, self.last) {
            (
                DownloadFlashingStatus::DownloadingProgress { .. },
                DownloadFlashingStatus::DownloadingProgress { .. },
            ) => true,
            (
                DownloadFlashingStatus::FlashingProgress { .. },
                DownloadFlashingStatus::FlashingProgress { .. },
            ) => true,
            _ => false,
        };
        self.last = s;
        if same {
            return ViewAction::SetPosition(pct);
        }
        let finish_previous = self.has_bar;
        self.stage = self.stage.saturating_add(1);
        match s {
            DownloadFlashingStatus::DownloadingProgress { .. }
            | DownloadFlashingStatus::FlashingProgress { .. } => {
                self.has_bar = true;
                ViewAction::NewBar { finish_previous, stage: self.stage, percent: pct }
            },
            _ => {
                self.has_bar = false;
                ViewAction::NewStage { finish_previous, stage: self.stage }
            },
        }
    }
}

} // verus!
