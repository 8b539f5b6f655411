//! Checking proxy servers: whether they answer, and what can be reached
//! through them.
pub mod error;

pub use self::error::{Error, ReportError};
pub mod prober;
pub mod report;
pub mod simple;

pub use self::prober::{
    BasicProber, BasicProberReport, HttpMethod, HttpProber, HttpProberReport, LivenessProber,
    LivenessProberReport, Prober, ProberReport,
};
pub use self::report::TaskReport;
pub use self::simple::SimpleProxyChecker;
