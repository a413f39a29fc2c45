use vstd::prelude::*;

verus! {

/// Signal strength, in ten-thousandths, at or above which a link is usable.
pub const CONNECTED_THRESHOLD: u32 = 8000;

/// Connected time, in milliseconds, that a whole download takes (a tenth of it per second).
pub const DOWNLOAD_MILLIS: u64 = 10_000;

/// Length of the grace window, in milliseconds, after the link drops.
pub const GRACE_MILLIS: u64 = 5_000;

/// Whether a signal strength (in ten-thousandths) counts as connected.
pub fn is_connected(signal_strength: u32) -> (r: bool)
    ensures
        r == (signal_strength >= CONNECTED_THRESHOLD),
{
    CONNECTED_THRESHOLD <= signal_strength
}

/// Where a client stands with its download.
///
/// Progress is the connected time already spent downloading, in milliseconds;
/// the fraction done is `progress / DOWNLOAD_MILLIS`.
#[derive(Clone, Copy, Debug, PartialEq, Eq, Structural)]
pub enum DownloadProgress {
    Disconnected,
    Downloading { progress: u64 },
    LosingConnection { time_before_disconnection: u64, progress: u64 },
    Completed,
}

impl DownloadProgress {
    /// A progress below a whole download, and a grace timer that has not run out.
    pub open spec fn wf(self) -> bool {
        match self {
            DownloadProgress::Downloading { progress } => progress < DOWNLOAD_MILLIS,
            DownloadProgress::LosingConnection { time_before_disconnection, progress } => {
                &&& 0 < time_before_disconnection
                &&& progress < DOWNLOAD_MILLIS
            },
            _ => true,
        }
    }

    /// The state after `dt` milliseconds with the link `connected` or not.
    pub open spec fn next(self, connected: bool, dt: int) -> DownloadProgress {
        match self {
            DownloadProgress::Disconnected => if connected {
                DownloadProgress::Downloading { progress: 0 }
            } else {
                DownloadProgress::Disconnected
            },
            DownloadProgress::LosingConnection { time_before_disconnection, progress } => {
                if connected {
                    DownloadProgress::Downloading { progress }
                } else if time_before_disconnection - dt <= 0 {
                    DownloadProgress::Disconnected
                } else {
                    DownloadProgress::LosingConnection {
                        time_before_disconnection: (time_before_disconnection - dt) as u64,
                        progress,
                    }
                }
            },
            DownloadProgress::Downloading { progress } => {
                if !connected {
                    DownloadProgress::LosingConnection {
                        time_before_disconnection: GRACE_MILLIS,
                        progress,
                    }
                } else if progress + dt >= DOWNLOAD_MILLIS {
                    DownloadProgress::Completed
                } else {
                    DownloadProgress::Downloading { progress: (progress + dt) as u64 }
                }
            },
            DownloadProgress::Completed => DownloadProgress::Completed,
        }
    }

    /// Whether `connected` is what the state already assumes of the link.
    pub open spec fn agrees_with(self, connected: bool) -> bool {
        match self {
            DownloadProgress::Disconnected => !connected,
            DownloadProgress::LosingConnection { .. } => !connected,
            DownloadProgress::Downloading { .. } => connected,
            DownloadProgress::Completed => true,
        }
    }

    /// Advances the state by `dt` milliseconds, with the link `connected` or not.
    pub fn advance(&self, connected: bool, dt: u64) -> (r: DownloadProgress)
        ensures
            r == self.next(connected, dt as int),
            self.wf() ==> r.wf(),
    {
        match *self {
            DownloadProgress::Disconnected => {
                if connected {
                    DownloadProgress::Downloading { progress: 0 }
                } else {
                    DownloadProgress::Disconnected
                }
            },
            DownloadProgress::LosingConnection { time_before_disconnection, progress } => {
                if connected {
                    DownloadProgress::Downloading { progress }
                } else if dt >= time_before_disconnection {
                    DownloadProgress::Disconnected
                } else {
                    DownloadProgress::LosingConnection {
                        time_before_disconnection: time_before_disconnection - dt,
                        progress,
                    }
                }
            },
            DownloadProgress::Downloading { progress } => {
                if !connected {
                    DownloadProgress::LosingConnection {
                        time_before_disconnection: GRACE_MILLIS,
                        progress,
                    }
                } else if progress >= DOWNLOAD_MILLIS || dt >= DOWNLOAD_MILLIS - progress {
                    DownloadProgress::Completed
                } else {
                    DownloadProgress::Downloading { progress: progress + dt }
                }
            },
            DownloadProgress::Completed => DownloadProgress::Completed,
        }
    }
}

/// Advances every client's download by `dt` milliseconds, each by its own signal
/// strength (in ten-thousandths): `downloads[i]` goes with `signal_strengths[i]`.
pub fn update_download_progress(
    downloads: &mut Vec<DownloadProgress>,
    signal_strengths: &Vec<u32>,
    dt: u64,
)
    requires
        old(downloads)@.len() == signal_strengths@.len(),
    ensures
        final(downloads)@.len() == old(downloads)@.len(),
        forall|i: int|
            0 <= i < final(downloads)@.len() ==> #[trigger] final(downloads)@[i] == old(
                downloads,
            )@[i].next(signal_strengths@[i] >= CONNECTED_THRESHOLD, dt as int),
{
    let n = downloads.len();
    let mut i: usize = 0;
    while i < n
        invariant
            n == downloads@.len(),
            n == signal_strengths@.len(),
            0 <= i <= n,
            forall|j: int|
                0 <= j < i ==> #[trigger] downloads@[j] == old(downloads)@[j].next(
                    signal_strengths@[j] >= CONNECTED_THRESHOLD,
                    dt as int,
                ),
            forall|j: int| i <= j < n ==> #[trigger] downloads@[j] == old(downloads)@[j],
        decreases n - i,
    {
        let connected = is_connected(signal_strengths[i]);
        let next = downloads[i].advance(connected, dt);
        downloads.set(i, next);
        i = i + 1;
    }
}

/// With no time passing, a state whose link status is unchanged stays as it is.
pub proof fn lemma_zero_time_keeps_state(s: DownloadProgress, connected: bool)
    requires
        s.wf(),
        s.agrees_with(connected),
    ensures
        s.next(connected, 0) == s,
{
}

/// A fresh connection starts the download at zero, and a whole download time of
/// connection from there completes it.
pub proof fn lemma_connect_then_complete(dt: u64)
    requires
        dt > 0,
    ensures
        DownloadProgress::Disconnected.next(true, dt as int) == (DownloadProgress::Downloading {
            progress: 0,
        }),
        (DownloadProgress::Downloading { progress: 0 }).next(true, DOWNLOAD_MILLIS as int)
            == DownloadProgress::Completed,
{
}

/// Losing the link opens a full grace window that keeps the progress; staying
/// disconnected for the whole window then resets the client, and for less keeps
/// the progress with the rest of the window.
pub proof fn lemma_grace_window(progress: u64, dt1: u64, dt2: u64)
    requires
        progress < DOWNLOAD_MILLIS,
    ensures
        (DownloadProgress::Downloading { progress }).next(false, dt1 as int) == (
        DownloadProgress::LosingConnection { time_before_disconnection: GRACE_MILLIS, progress }),
        dt2 >= GRACE_MILLIS ==> (DownloadProgress::LosingConnection {
            time_before_disconnection: GRACE_MILLIS,
            progress,
        }).next(false, dt2 as int) == DownloadProgress::Disconnected,
        dt2 < GRACE_MILLIS ==> (DownloadProgress::LosingConnection {
            time_before_disconnection: GRACE_MILLIS,
            progress,
        }).next(false, dt2 as int) == (DownloadProgress::LosingConnection {
            time_before_disconnection: (GRACE_MILLIS - dt2) as u64,
            progress,
        }),
{
}

/// Reconnecting during the grace window resumes the download where it stopped.
pub proof fn lemma_resume_keeps_progress(
    time_before_disconnection: u64,
    progress: u64,
    dt: u64,
)
    ensures
        (DownloadProgress::LosingConnection { time_before_disconnection, progress }).next(
            true,
            dt as int,
        ) == (DownloadProgress::Downloading { progress }),
{
}

/// A completed download stays completed, whatever the link and the time.
pub proof fn lemma_completed_absorbing(connected: bool, dt: u64)
    ensures
        DownloadProgress::Completed.next(connected, dt as int) == DownloadProgress::Completed,
{
}

/// Progress never goes back while the download continues or waits for the link,
/// and the grace timer runs down while the link stays lost.
pub proof fn lemma_progress_kept(s: DownloadProgress, connected: bool, dt: u64)
    ensures
        s matches DownloadProgress::LosingConnection { time_before_disconnection: t, .. } ==> (
        s.next(connected, dt as int) matches DownloadProgress::LosingConnection {
            time_before_disconnection: t2,
            ..
        } ==> (!connected && t2 == t - dt)),
        s matches DownloadProgress::Downloading { progress } ==> (s.next(connected, dt as int) matches DownloadProgress::Downloading { progress: p2 } ==> progress <= p2),
        s matches DownloadProgress::LosingConnection { progress, .. } ==> (s.next(connected, dt as int) matches DownloadProgress::Downloading { progress: p2 } ==> progress == p2),
        s matches DownloadProgress::LosingConnection { progress, .. } ==> (s.next(connected, dt as int) matches DownloadProgress::LosingConnection { progress: p2, .. } ==> progress == p2),
{
}

} // verus!
