//! Download progress bookkeeping: the running count of downloaded bytes, the
//! optional total transfer size, and the percent-complete figure shown while
//! an update downloads. When the total size is unknown the percentage is the
//! indeterminate sentinel `-1`.

use vstd::prelude::*;
use vstd::arithmetic::div_mod::lemma_div_is_ordered;
use vstd::arithmetic::mul::lemma_mul_inequality;

verus! {

/// Percent reported while the download is indeterminate: the total size is
/// unknown, so no meaningful percentage exists.
pub const INDETERMINATE_PERCENT: i32 = -1;

/// Percent complete for a known, positive total: `downloaded / total * 100`,
/// rounded down, and saturated at `i32::MAX` should the downloaded count ever
/// exceed the announced total by that much.
pub open spec fn known_percent(downloaded: u64, total: u64) -> int
    recommends
        total > 0,
{
    let raw = (downloaded as int * 100) / (total as int);
    if raw > i32::MAX as int {
        i32::MAX as int
    } else {
        raw
    }
}

/// Percent complete reported for a progress update: the floor of
/// `downloaded / total * 100` when the total size is known, and the
/// indeterminate sentinel `-1` when it is not.
pub open spec fn spec_progress_percent(downloaded: u64, total: Option<u64>) -> int {
    match total {
        Option::Some(t) => known_percent(downloaded, t),
        Option::None => INDETERMINATE_PERCENT as int,
    }
}

/// Running state of one download: bytes received so far and the total size
/// announced by the transfer, if any. Held only for the duration of one
/// download.
pub struct DownloadProgress {
    pub bytes_downloaded: u64,
    pub total_bytes: Option<u64>,
}

impl DownloadProgress {
    /// A fresh download: nothing received, total size not yet announced.
    pub fn new() -> (r: DownloadProgress)
        ensures
            r.bytes_downloaded == 0,
            r.total_bytes is None,
    {
        DownloadProgress { bytes_downloaded: 0, total_bytes: Option::None }
    }

    /// Accumulate one received chunk and record the total size announced
    /// alongside it.
    pub fn record_chunk(&mut self, chunk_length: u64, content_length: Option<u64>)
        requires
            old(self).bytes_downloaded + chunk_length <= u64::MAX,
        ensures
            final(self).bytes_downloaded == old(self).bytes_downloaded + chunk_length,
            final(self).total_bytes == content_length,
    {
        self.bytes_downloaded = self.bytes_downloaded + chunk_length;
        self.total_bytes = content_length;
    }

    /// The percent-complete figure for the current state: floor of
    /// `downloaded / total * 100` when the total is known, `-1` otherwise.
    pub fn percent(&self) -> (p: i32)
        requires
            self.total_bytes matches Some(t) ==> t > 0,
        ensures
            p as int == spec_progress_percent(self.bytes_downloaded, self.total_bytes),
    {
        match self.total_bytes {
            Option::Some(total) => {
                assert((self.bytes_downloaded as int) * 100 <= (u64::MAX as int) * 100) by {
                    lemma_mul_inequality(self.bytes_downloaded as int, u64::MAX as int, 100);
                }
                let wide: u128 = (self.bytes_downloaded as u128) * 100 / (total as u128);
                if wide > i32::MAX as u128 {
                    i32::MAX
                } else {
                    wide as i32
                }
            },
            Option::None => INDETERMINATE_PERCENT,
        }
    }
}

/// With a known positive total, the reported percentage never decreases as
/// the downloaded byte count grows: progress shown to the user is
/// monotonically non-decreasing across successive chunks.
pub proof fn lemma_percent_monotonic(d1: u64, d2: u64, total: u64)
    requires
        d1 <= d2,
        total > 0,
    ensures
        spec_progress_percent(d1, Option::Some(total))
            <= spec_progress_percent(d2, Option::Some(total)),
{
    lemma_mul_inequality(d1 as int, d2 as int, 100);
    lemma_div_is_ordered(d1 as int * 100, d2 as int * 100, total as int);
}

/// With an unknown total, every progress report carries the indeterminate
/// sentinel `-1`, whatever the downloaded byte count.
pub proof fn lemma_indeterminate_percent(downloaded: u64)
    ensures
        spec_progress_percent(downloaded, Option::None) == -1,
{
}

} // verus!
