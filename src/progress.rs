use vstd::prelude::*;

verus! {

#[verifier::external_type_specification]
#[verifier::external_body]
pub struct ExProgressBar(indicatif::ProgressBar);

/// Relies on indicatif::ProgressBar::new: a bar that counts up to `len`.
#[verifier::external_body]
fn new_bar(len: u64) -> (r: indicatif::ProgressBar) {
    indicatif::ProgressBar::new(len)
}

/// Relies on indicatif::ProgressBar::new_spinner: an indicator with no length.
#[verifier::external_body]
fn new_spinner() -> (r: indicatif::ProgressBar) {
    indicatif::ProgressBar::new_spinner()
}

#[verifier::external_type_specification]
#[verifier::external_body]
pub struct ExProgressStyle(indicatif::ProgressStyle);

/// Relies on indicatif::ProgressStyle::template: a style drawn from the
/// template, or `None` when the template does not parse.
#[verifier::external_body]
fn style_from_template(template: &str) -> (r: Option<indicatif::ProgressStyle>) {
    indicatif::ProgressStyle::default_bar().template(template).ok()
}

/// Each character is printable ASCII, so each is one grapheme of width one.
pub open spec fn printable_ascii(s: Seq<char>) -> bool {
    forall|i: int| 0 <= i < s.len() ==> ' ' <= #[trigger] s[i] <= '~'
}

/// Relies on indicatif::ProgressStyle::progress_chars: the style with the
/// filled, current and remaining bar characters; it panics on fewer than two
/// graphemes, which `requires` rules out.
#[verifier::external_body]
fn with_progress_chars(style: indicatif::ProgressStyle, chars: &str) -> (r:
    indicatif::ProgressStyle)
    requires
        chars@.len() >= 2,
        printable_ascii(chars@),
{
    style.progress_chars(chars)
}

/// Relies on indicatif::ProgressBar::with_style: the bar drawn in the style.
#[verifier::external_body]
fn with_style(bar: indicatif::ProgressBar, style: indicatif::ProgressStyle) -> (r:
    indicatif::ProgressBar) {
    bar.with_style(style)
}

/// The progress template was refused by the progress renderer.
#[derive(Debug, Clone, Copy, PartialEq, Eq)]
pub struct InvalidTemplate;

/// How a download with a known length is drawn.
pub const BAR_TEMPLATE: &'static str =
    "{spinner:.green} [{elapsed_precise}] [{bar:40.cyan/blue}] {bytes}/{total_bytes} ({eta})";

/// How a download of unknown length is drawn: bytes only, no percentage.
pub const SPINNER_TEMPLATE: &'static str = "{spinner:.green} [{elapsed_precise}] {bytes}";

/// Filled, current and remaining characters of a bar.
pub const BAR_CHARS: &'static str = "#>-";

/// The template for a download: a bar with a percentage when the total is
/// known, a byte count only otherwise.
pub fn progress_template(total: Option<u64>) -> (r: &'static str)
    ensures
        total is Some ==> r@ == BAR_TEMPLATE@,
        total is None ==> r@ == SPINNER_TEMPLATE@,
{
    match total {
        Some(_) => BAR_TEMPLATE,
        None => SPINNER_TEMPLATE,
    }
}

/// A progress indicator for a download: a bar of length `total` drawn with
/// `BAR_TEMPLATE` and `BAR_CHARS` when the total is known, a spinner drawn
/// with `SPINNER_TEMPLATE` otherwise.
pub fn progress_indicator(total: Option<u64>) -> (r: Result<indicatif::ProgressBar, InvalidTemplate>) {
    let template = progress_template(total);
    let style = match style_from_template(template) {
        Some(style) => style,
        None => {
            return Err(InvalidTemplate);
        },
    };
    match total {
        Some(n) => {
            proof {
                reveal_strlit("#>-");
            }
            Ok(with_style(new_bar(n), with_progress_chars(style, BAR_CHARS)))
        },
        None => Ok(with_style(new_spinner(), style)),
    }
}

/// A progress indicator for a download of unknown length.
pub fn spinner() -> (r: Result<indicatif::ProgressBar, InvalidTemplate>) {
    progress_indicator(None)
}

/// The state of one download: bytes written so far, and the total to expect.
#[derive(Debug, Clone, Copy, PartialEq, Eq, Structural)]
pub struct DownloadProgress {
    pub written: u64,
    pub total: Option<u64>,
}

/// The total of a download: the server's content length when it gave one,
/// else the asset's declared size, else unknown.
pub open spec fn total_spec(content_length: Option<u64>, declared: Option<u64>) -> Option<u64> {
    match content_length {
        Some(n) => Some(n),
        None => declared,
    }
}

/// Percentage done, at most 100, when the total is known and not zero.
pub open spec fn percent_spec(written: u64, total: Option<u64>) -> Option<u64> {
    match total {
        Some(t) => if t == 0 {
            None
        } else if written >= t {
            Some(100)
        } else {
            Some((written as int * 100 / t as int) as u64)
        },
        None => None,
    }
}

impl DownloadProgress {
    pub fn new(content_length: Option<u64>, declared: Option<u64>) -> (r: DownloadProgress)
        ensures
            r.written == 0,
            r.total == total_spec(content_length, declared),
    {
        let total = match content_length {
            Some(n) => Some(n),
            None => declared,
        };
        DownloadProgress { written: 0, total }
    }

    /// Counts a received chunk; the count never decreases and saturates at
    /// the largest `u64`.
    pub fn record(&mut self, chunk_len: u64)
        ensures
            final(self).written == if old(self).written + chunk_len > u64::MAX {
                u64::MAX as int
            } else {
                old(self).written + chunk_len
            },
            final(self).written >= old(self).written,
            final(self).total == old(self).total,
    {
        self.written = self.written.saturating_add(chunk_len);
    }

    /// How much of the download is done, in percent, when that can be said.
    pub fn percent(&self) -> (r: Option<u64>)
        ensures
            r == percent_spec(self.written, self.total),
    {
        match self.total {
            Some(t) => if t == 0 {
                None
            } else if self.written >= t {
                Some(100)
            } else {
                let p = (self.written as u128) * 100 / (t as u128);
                Some(p as u64)
            },
            None => None,
        }
    }
}

} // verus!
