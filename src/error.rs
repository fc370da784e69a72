use vstd::prelude::*;

verus! {

/// Every failure kind that the update pipeline reports.
#[derive(Debug, PartialEq, Eq, Structural, Clone, Copy)]
pub enum OtaErr {
    DownloadErr,
    NotEnoughMemoryErr,
    ServerNoReturnErr,
    LinkErr,
    NoSignalErr,
    UserCalendarErr,
    VersionErr,
    NoLinkResErr,
    VerifyErr,
    VerifyNotEqualErr,
    CheckVersionErr,
    HttpErr,
    MqttErr,
    TimoutErr,
}

} // verus!
