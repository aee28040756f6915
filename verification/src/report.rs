//! The answer to a successful upload.

use vstd::prelude::*;
use vstd::string::StringExecFns;
use crate::artifact::download_url;
use crate::artifact::download_url_of;

verus! {

/// How `std::time::Duration` writes a span of so many nanoseconds in its
/// `Debug` form, such as `1.5ms`.
pub uninterp spec fn duration_text(nanos: u64) -> Seq<char>;

/// `std::time::Duration::from_nanos`, written out with the `Debug` form of
/// `Duration`.
#[verifier::external_body]
pub(crate) fn format_duration(nanos: u64) -> (text: String)
    ensures
        text@ == duration_text(nanos),
{
    format!("{:?}", std::time::Duration::from_nanos(nanos))
}

/// The payload of the response to a successful upload.
#[derive(Debug, PartialEq, Eq)]
pub struct CompressionResult {
    status: String,
    download_url: String,
    elapsed_time: String,
}

/// What a [`CompressionResult`] holds.
pub struct ResultView {
    pub status: Seq<char>,
    pub download_url: Seq<char>,
    pub elapsed_time: Seq<char>,
}

impl View for CompressionResult {
    type V = ResultView;

    closed spec fn view(&self) -> ResultView {
        ResultView {
            status: self.status@,
            download_url: self.download_url@,
            elapsed_time: self.elapsed_time@,
        }
    }
}

/// The payload that reports an artifact of the given name, made in a time
/// that is written as `elapsed`.
pub open spec fn success_of(artifact: Seq<char>, elapsed: Seq<char>) -> ResultView {
    ResultView {
        status: "success"@,
        download_url: download_url_of(artifact),
        elapsed_time: elapsed,
    }
}

impl CompressionResult {
    /// The payload that reports an artifact of the given name, made in a
    /// time that is written as `elapsed`.
    pub fn success(artifact: &str, elapsed: String) -> (r: Self)
        ensures
            r@ == success_of(artifact@, elapsed@),
    {
        CompressionResult {
            status: String::from_str("success"),
            download_url: download_url(artifact),
            elapsed_time: elapsed,
        }
    }

    /// The payload that reports an artifact of the given name, made in so
    /// many nanoseconds.
    pub fn timed(artifact: &str, elapsed_nanos: u64) -> (r: Self)
        ensures
            r@ == success_of(artifact@, duration_text(elapsed_nanos)),
    {
        CompressionResult::success(artifact, format_duration(elapsed_nanos))
    }

    /// Always `success`.
    pub fn status(&self) -> (text: &str)
        ensures
            text@ == self@.status,
    {
        self.status.as_str()
    }

    /// Where the artifact can be fetched.
    pub fn download_url(&self) -> (text: &str)
        ensures
            text@ == self@.download_url,
    {
        self.download_url.as_str()
    }

    /// How long the compression took.
    pub fn elapsed_time(&self) -> (text: &str)
        ensures
            text@ == self@.elapsed_time,
    {
        self.elapsed_time.as_str()
    }
}

} // verus!
