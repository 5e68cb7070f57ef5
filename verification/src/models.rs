//! Request and response shapes exchanged with the backend, each with the
//! mathematical view that the contracts of the other modules speak of.

use vstd::prelude::*;
use crate::text::opt_text;

verus! {

/// What a processing run is asked to do.
#[derive(Debug, PartialEq, Eq)]
pub struct ProcessRequest {
    pub input: String,
    pub output: Option<String>,
    pub resolution: Option<String>,
    pub bitrate: Option<String>,
    pub format: Option<String>,
    pub dry_run: bool,
}

/// View of a [`ProcessRequest`].
pub struct ProcessRequestView {
    pub input: Seq<char>,
    pub output: Option<Seq<char>>,
    pub resolution: Option<Seq<char>>,
    pub bitrate: Option<Seq<char>>,
    pub format: Option<Seq<char>>,
    pub dry_run: bool,
}

impl View for ProcessRequest {
    type V = ProcessRequestView;

    open spec fn view(&self) -> ProcessRequestView {
        ProcessRequestView {
            input: self.input@,
            output: opt_text(self.output),
            resolution: opt_text(self.resolution),
            bitrate: opt_text(self.bitrate),
            format: opt_text(self.format),
            dry_run: self.dry_run,
        }
    }
}

impl Clone for ProcessRequest {
    fn clone(&self) -> (r: Self)
        ensures
            r@ == self@,
    {
        ProcessRequest {
            input: self.input.clone(),
            output: clone_opt(&self.output),
            resolution: clone_opt(&self.resolution),
            bitrate: clone_opt(&self.bitrate),
            format: clone_opt(&self.format),
            dry_run: self.dry_run,
        }
    }
}

/// Copies an optional string.
pub fn clone_opt(o: &Option<String>) -> (r: Option<String>)
    ensures
        opt_text(r) == opt_text(*o),
{
    match o {
        Some(s) => Some(s.clone()),
        None => None,
    }
}

/// Tells whether a flag is unset; a request leaves an unset flag out when it
/// is written to the wire.
pub fn is_false(b: &bool) -> (r: bool)
    ensures
        r == !*b,
{
    !*b
}

/// What the backend answers to a processing request.
#[derive(Debug, PartialEq, Eq)]
pub struct ProcessResponse {
    pub output: String,
}

/// View of a [`ProcessResponse`].
pub struct ProcessResponseView {
    pub output: Seq<char>,
}

impl View for ProcessResponse {
    type V = ProcessResponseView;

    open spec fn view(&self) -> ProcessResponseView {
        ProcessResponseView { output: self.output@ }
    }
}

/// The two files that a comparison is asked about.
#[derive(Debug, PartialEq, Eq)]
pub struct CompareRequest {
    pub original: String,
    pub processed: String,
}

/// View of a [`CompareRequest`].
pub struct CompareRequestView {
    pub original: Seq<char>,
    pub processed: Seq<char>,
}

impl View for CompareRequest {
    type V = CompareRequestView;

    open spec fn view(&self) -> CompareRequestView {
        CompareRequestView { original: self.original@, processed: self.processed@ }
    }
}

/// What the backend reports about one media file.
#[derive(Debug, PartialEq, Eq)]
pub struct MediaInfo {
    pub filename: String,
    pub format: String,
    pub duration: String,
    pub resolution: String,
    pub bitrate: String,
    pub size: u64,
}

/// View of a [`MediaInfo`].
pub struct MediaInfoView {
    pub filename: Seq<char>,
    pub format: Seq<char>,
    pub duration: Seq<char>,
    pub resolution: Seq<char>,
    pub bitrate: Seq<char>,
    pub size: nat,
}

impl View for MediaInfo {
    type V = MediaInfoView;

    open spec fn view(&self) -> MediaInfoView {
        MediaInfoView {
            filename: self.filename@,
            format: self.format@,
            duration: self.duration@,
            resolution: self.resolution@,
            bitrate: self.bitrate@,
            size: self.size as nat,
        }
    }
}

/// Which way the size went between the original and the processed file.
#[derive(Debug, Clone, Copy, PartialEq, Eq)]
pub enum Trend {
    /// The difference is above zero: the processed file is smaller.
    Reduced,
    /// The difference is below zero: the processed file is larger.
    Grown,
    /// The difference is neither above nor below zero.
    Unchanged,
}

/// A percentage as the presenter reads it: on which side of zero it lies,
/// and its absolute value written with two decimals.
#[derive(Debug, PartialEq, Eq)]
pub struct Percent {
    pub trend: Trend,
    pub magnitude: String,
}

/// View of a [`Percent`].
pub struct PercentView {
    pub trend: Trend,
    pub magnitude: Seq<char>,
}

impl View for Percent {
    type V = PercentView;

    open spec fn view(&self) -> PercentView {
        PercentView { trend: self.trend, magnitude: self.magnitude@ }
    }
}

/// What the backend answers to a comparison.
#[derive(Debug, PartialEq, Eq)]
pub struct CompareResult {
    pub original: MediaInfo,
    pub processed: MediaInfo,
    pub size_diff_percent: Percent,
}

/// View of a [`CompareResult`].
pub struct CompareResultView {
    pub original: MediaInfoView,
    pub processed: MediaInfoView,
    pub size_diff_percent: PercentView,
}

impl View for CompareResult {
    type V = CompareResultView;

    open spec fn view(&self) -> CompareResultView {
        CompareResultView {
            original: self.original@,
            processed: self.processed@,
            size_diff_percent: self.size_diff_percent@,
        }
    }
}

/// What a compression run is asked to do.
#[derive(Debug, PartialEq, Eq)]
pub struct CompressOptions {
    pub input: String,
    pub output: Option<String>,
    pub bitrate: String,
}

/// View of a [`CompressOptions`].
pub struct CompressOptionsView {
    pub input: Seq<char>,
    pub output: Option<Seq<char>>,
    pub bitrate: Seq<char>,
}

impl View for CompressOptions {
    type V = CompressOptionsView;

    open spec fn view(&self) -> CompressOptionsView {
        CompressOptionsView {
            input: self.input@,
            output: opt_text(self.output),
            bitrate: self.bitrate@,
        }
    }
}

} // verus!
