//! The capture side: which displays there are, how a grabbed bitmap
//! becomes a frame, how changes between frames are measured, and how
//! frames are encoded and published.

pub mod detector;
pub mod encoder;
pub mod stream;

use crate::config::CaptureConfig;
use crate::error::AppError;
use crate::frame::{rows_of, valid_layout, RawFrame};
use crate::utils::{decimal, push_decimal};
use vstd::prelude::*;
use vstd::string::StringExecFns;

verus! {

/// How often the displays are listed at start-up before giving up.
pub const STARTUP_ATTEMPTS: u32 = 3;

/// How long to wait between two listings at start-up, in seconds.
pub const RETRY_DELAY_SECS: u64 = 1;

/// What to do after a listing of the displays at start-up.
#[derive(Debug)]
pub enum ProbeStep {
    /// Displays were found: go on with them.
    Found(Vec<u32>),
    /// None yet: wait `RETRY_DELAY_SECS`, then list again.
    Retry,
    /// None after the last attempt: start-up has failed.
    GiveUp,
}

/// The start-up search for displays: a bounded number of listings, with a
/// pause between them. Whoever can list displays runs the loop; this type
/// decides each step.
#[derive(Debug)]
pub struct DisplayProbe {
    attempts_left: u32,
}

impl DisplayProbe {
    /// The listings that may still be made.
    pub closed spec fn attempts_left(&self) -> nat {
        self.attempts_left as nat
    }

    /// A search with all of its `STARTUP_ATTEMPTS` listings ahead.
    pub fn new() -> (probe: DisplayProbe)
        ensures
            probe.attempts_left() == STARTUP_ATTEMPTS,
    {
        DisplayProbe { attempts_left: STARTUP_ATTEMPTS }
    }

    /// Whether no listing may be made any more.
    pub fn is_exhausted(&self) -> (done: bool)
        ensures
            done == (self.attempts_left() == 0),
    {
        self.attempts_left == 0
    }

    /// Takes the result of one listing, `None` if listing itself failed,
    /// and decides how to go on. A listing with at least one display ends
    /// the search. Any other uses up one attempt: with attempts left the
    /// answer is `Retry`, without it `GiveUp`.
    pub fn on_listing(&mut self, listing: Option<Vec<u32>>) -> (step: ProbeStep)
        ensures
            match listing {
                Some(ids) if ids@.len() > 0 => {
                    &&& step matches ProbeStep::Found(found)
                    &&& found@ == ids@
                    &&& final(self).attempts_left() == old(self).attempts_left()
                },
                _ => {
                    &&& final(self).attempts_left() == if old(self).attempts_left() > 0 {
                        (old(self).attempts_left() - 1) as nat
                    } else {
                        0
                    }
                    &&& final(self).attempts_left() > 0 ==> step is Retry
                    &&& final(self).attempts_left() == 0 ==> step is GiveUp
                },
            },
    {
        match listing {
            Some(ids) => {
                if ids.len() > 0 {
                    return ProbeStep::Found(ids);
                }
            },
            None => {},
        }
        if self.attempts_left > 0 {
            self.attempts_left = self.attempts_left - 1;
        }
        if self.attempts_left > 0 {
            ProbeStep::Retry
        } else {
            ProbeStep::GiveUp
        }
    }
}

/// A grabbed picture as the platform hands it over: rows of
/// `bytes_per_row` bytes, each starting with `width` RGBA pixels.
#[derive(Debug)]
pub struct Bitmap {
    pub width: usize,
    pub height: usize,
    pub bytes_per_row: usize,
    pub data: Vec<u8>,
}

impl Bitmap {
    /// The bitmap can be taken as a frame: its sides fit 32 bits and its
    /// buffer has the layout it claims.
    pub open spec fn usable(&self) -> bool {
        &&& self.width <= u32::MAX
        &&& self.height <= u32::MAX
        &&& valid_layout(
            self.width as nat,
            self.height as nat,
            self.bytes_per_row as nat,
            self.data@.len(),
        )
    }
}

/// The displays that can be captured, and the one that is.
#[derive(Debug)]
pub struct ScreenCapture {
    config: CaptureConfig,
    displays: Vec<u32>,
    current_display: usize,
}

/// The text that refuses display `index`.
pub open spec fn invalid_display_text(index: nat) -> Seq<char> {
    "Invalid display index: "@ + decimal(index)
}

impl ScreenCapture {
    /// There is a display, and the selected one is among them.
    pub closed spec fn wf(&self) -> bool {
        self.current_display < self.displays@.len()
    }

    /// The ids of the displays, in the order listed.
    pub closed spec fn displays(&self) -> Seq<u32> {
        self.displays@
    }

    /// The place of the selected display in the list.
    pub closed spec fn selected(&self) -> nat {
        self.current_display as nat
    }

    /// The settings given at start-up.
    pub closed spec fn spec_config(&self) -> CaptureConfig {
        self.config
    }

    /// Sets up capture of the first of `displays`. `can_capture` says
    /// whether a trial grab of that display gave a picture.
    ///
    /// Fails without a display, and fails when the trial grab gave nothing
    /// (the permission to record the screen is missing).
    pub fn new(config: CaptureConfig, displays: Vec<u32>, can_capture: bool) -> (capture: Result<
        ScreenCapture,
        AppError,
    >)
        ensures
            capture is Ok <==> displays@.len() > 0 && can_capture,
            capture matches Ok(c) ==> {
                &&& c.wf()
                &&& c.displays() == displays@
                &&& c.selected() == 0
                &&& c.spec_config() == config
            },
            displays@.len() == 0 ==> (capture matches Err(AppError::CaptureError(m)) && m@
                == "No displays found. Please make sure screen recording permission is granted in System Settings > Privacy & Security > Screen Recording and restart the application."@),
            displays@.len() > 0 && !can_capture ==> (capture matches Err(
                AppError::CaptureError(m),
            ) && m@
                == "Screen recording permission not granted. Please grant permission in System Settings > Privacy & Security > Screen Recording and restart the application."@),
    {
        if displays.len() == 0 {
            return Err(
                AppError::CaptureError(
                    String::from_str(
                        "No displays found. Please make sure screen recording permission is granted in System Settings > Privacy & Security > Screen Recording and restart the application.",
                    ),
                ),
            );
        }
        if !can_capture {
            return Err(
                AppError::CaptureError(
                    String::from_str(
                        "Screen recording permission not granted. Please grant permission in System Settings > Privacy & Security > Screen Recording and restart the application.",
                    ),
                ),
            );
        }
        Ok(ScreenCapture { config, displays, current_display: 0 })
    }

    /// The number of displays.
    pub fn get_display_count(&self) -> (count: usize)
        ensures
            count == self.displays().len(),
    {
        self.displays.len()
    }

    /// The id of the selected display.
    pub fn display_id(&self) -> (id: u32)
        requires
            self.wf(),
        ensures
            id == self.displays()[self.selected() as int],
    {
        self.displays[self.current_display]
    }

    /// The settings given at start-up.
    pub fn config(&self) -> (config: CaptureConfig)
        ensures
            config == self.spec_config(),
    {
        self.config
    }

    /// Selects the display at `index`; refuses an index that names none,
    /// and then leaves the selection as it was.
    pub fn set_display(&mut self, index: usize) -> (done: Result<(), AppError>)
        requires
            old(self).wf(),
        ensures
            final(self).wf(),
            final(self).displays() == old(self).displays(),
            final(self).spec_config() == old(self).spec_config(),
            done is Ok <==> index < old(self).displays().len(),
            done is Ok ==> final(self).selected() == index,
            done matches Err(e) ==> {
                &&& final(self).selected() == old(self).selected()
                &&& e matches AppError::CaptureError(m)
                &&& m@ == invalid_display_text(index as nat)
            },
    {
        if index >= self.displays.len() {
            let mut text = String::from_str("Invalid display index: ");
            push_decimal(&mut text, index as u64);
            return Err(AppError::CaptureError(text));
        }
        self.current_display = index;
        Ok(())
    }

    /// Takes what a grab of the selected display gave, `None` if it gave
    /// nothing, as a frame. The frame shows the bitmap's pixels, row by
    /// row; nothing is copied.
    ///
    /// Fails when the grab gave nothing, and when the bitmap's sides do
    /// not fit 32 bits or its buffer is not laid out as it claims.
    pub fn capture_frame(&self, grabbed: Option<Bitmap>) -> (frame: Result<RawFrame, AppError>)
        ensures
            frame is Ok <==> (grabbed matches Some(bitmap) && bitmap.usable()),
            frame matches Ok(f) ==> (grabbed matches Some(bitmap) && {
                &&& f.wf()
                &&& f@.width == bitmap.width
                &&& f@.height == bitmap.height
                &&& f@.rows == rows_of(
                    bitmap.data@,
                    bitmap.width as nat,
                    bitmap.height as nat,
                    bitmap.bytes_per_row as nat,
                )
            }),
            grabbed is None ==> (frame matches Err(AppError::CaptureError(m)) && m@
                == "Failed to capture screen. Please check screen recording permissions and restart the application."@),
            grabbed matches Some(bitmap) ==> (!bitmap.usable() ==> (frame matches Err(
                AppError::CaptureError(m),
            ) && m@ == if bitmap.width > u32::MAX || bitmap.height > u32::MAX {
                "Captured bitmap is too large."@
            } else {
                "Captured bitmap has an inconsistent layout."@
            })),
    {
        match grabbed {
            None => Err(
                AppError::CaptureError(
                    String::from_str(
                        "Failed to capture screen. Please check screen recording permissions and restart the application.",
                    ),
                ),
            ),
            Some(bitmap) => {
                if bitmap.width > u32::MAX as usize || bitmap.height > u32::MAX as usize {
                    return Err(
                        AppError::CaptureError(String::from_str("Captured bitmap is too large.")),
                    );
                }
                match RawFrame::new(
                    bitmap.width as u32,
                    bitmap.height as u32,
                    bitmap.bytes_per_row,
                    bitmap.data,
                ) {
                    Some(frame) => Ok(frame),
                    None => Err(
                        AppError::CaptureError(
                            String::from_str("Captured bitmap has an inconsistent layout."),
                        ),
                    ),
                }
            },
        }
    }
}

} // verus!
