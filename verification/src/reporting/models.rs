//! The statistics that the reporting service answers with.
use crate::reporting::datetime::UtcDateTime;
use crate::reporting::errors::AppError;
use vstd::prelude::*;
use vstd::string::*;

verus! {

/// How many stored flow records were classified as malicious, and how many
/// not.
#[derive(PartialEq, Eq, Structural, Debug, Clone, Copy)]
pub struct MaliciousVsNonMalicious {
    pub malicious: u64,
    pub non_malicious: u64,
}

impl MaliciousVsNonMalicious {
    pub fn new(malicious: u64, non_malicious: u64) -> (r: Self)
        ensures
            r.malicious == malicious,
            r.non_malicious == non_malicious,
    {
        Self { malicious, non_malicious }
    }
}

/// What the counting query returned: the shape of the result and the two
/// counts of its first row, where they could be read.
#[derive(Debug, Clone, Copy)]
pub struct CountsBlock {
    pub row_count: usize,
    pub column_count: usize,
    pub n_malicious: Option<u64>,
    pub n_non_malicious: Option<u64>,
}

/// The error text for a counting result that is not one row of two columns.
pub open spec fn counts_shape_error() -> Seq<char> {
    "Fetching malicious and non malicious quantities failed"@
}

impl MaliciousVsNonMalicious {
    /// Reads the counts from the result of the counting query: it must be one
    /// row of two columns, `n_malicious` and `n_non_malicious`.
    pub fn try_from_block(b: CountsBlock) -> (r: Result<Self, AppError>)
        ensures
            !(b.row_count == 1 && b.column_count == 2) ==> (r matches Err(
                AppError::DBAccessorError(m),
            ) && m@ == counts_shape_error()),
            b.row_count == 1 && b.column_count == 2 ==> match (b.n_malicious, b.n_non_malicious) {
                (Some(m), Some(n)) => r == Ok::<Self, AppError>(
                    MaliciousVsNonMalicious { malicious: m, non_malicious: n },
                ),
                (None, _) => r matches Err(AppError::DBAccessorError(t)) && t@
                    == "Missing n_malicious"@,
                (Some(_), None) => r matches Err(AppError::DBAccessorError(t)) && t@
                    == "Missing n_non_malicious"@,
            },
    {
        if b.row_count == 1 && b.column_count == 2 {
            let malicious = match b.n_malicious {
                Some(m) => m,
                None => {
                    return Err(AppError::DBAccessorError(String::from_str("Missing n_malicious")));
                },
            };
            let non_malicious = match b.n_non_malicious {
                Some(n) => n,
                None => {
                    return Err(
                        AppError::DBAccessorError(String::from_str("Missing n_non_malicious")),
                    );
                },
            };
            Ok(Self { malicious, non_malicious })
        } else {
            Err(
                AppError::DBAccessorError(
                    String::from_str("Fetching malicious and non malicious quantities failed"),
                ),
            )
        }
    }
}

/// The throughput at one point in time.
#[derive(Debug)]
pub struct ThroughputStats {
    time: UtcDateTime,
    packets_per_second: u64,
}

impl ThroughputStats {
    pub fn new(time: UtcDateTime, packets_per_second: u64) -> (r: Self)
        ensures
            r.time() == time,
            r.packets_per_second() == packets_per_second,
    {
        Self { time, packets_per_second }
    }

    pub closed spec fn time(&self) -> UtcDateTime {
        self.time
    }

    pub closed spec fn packets_per_second(&self) -> u64 {
        self.packets_per_second
    }

    /// The point in time.
    pub fn get_time(&self) -> (r: &UtcDateTime)
        ensures
            *r == self.time(),
    {
        &self.time
    }

    /// The throughput.
    pub fn get_packets_per_second(&self) -> (r: u64)
        ensures
            r == self.packets_per_second(),
    {
        self.packets_per_second
    }
}

/// The throughput series of a query.
pub struct ThroughputStatusVec(pub Vec<ThroughputStats>);

} // verus!
