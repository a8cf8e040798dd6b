//! Configuration types for research mode.

use vstd::prelude::*;
use vstd::string::{StrSliceExecFns, StringExecFns};

verus! {

/// Configuration for research mode execution.
///
/// Refund and stipend multipliers are fractional quantities; they are held in
/// fixed point, in thousandths, so a value of `1000` stands for a factor of
/// one and a negative value is invalid.
#[derive(Clone, Debug)]
pub struct ResearchConfig {
    /// Multiply all gas costs by this factor (default: 128)
    pub gas_multiplier: u64,
    /// Block number to start research mode (default: 0)
    pub start_block: u64,
    /// Multiply gas refunds by this factor, in thousandths (default: 1000)
    pub refund_multiplier: i64,
    /// Multiply the 2300 gas stipend by this factor, in thousandths
    /// (default: 1000, which keeps it unchanged — the interesting case)
    pub stipend_multiplier: i64,
    /// Path to the divergence database
    pub divergence_db_path: String,
    /// Path to the gas loop detection database
    pub loop_detection_db_path: Option<String>,
    /// Level of detail for divergence traces
    pub trace_detail: TraceDetail,
    /// Inflate transaction gas limits by this factor (default: same as
    /// `gas_multiplier`); this prevents trivial OOG failures
    pub gas_limit_multiplier: Option<u64>,
    /// Maximum number of divergences to record per block (default: unlimited)
    pub max_divergences_per_block: Option<usize>,
    /// Enable gas-dependent loop detection
    pub detect_gas_loops: bool,
}

impl Default for ResearchConfig {
    /// The default research configuration.
    fn default() -> (r: Self)
        ensures
            r.gas_multiplier == 128,
            r.start_block == 0,
            r.refund_multiplier == 1000,
            r.stipend_multiplier == 1000,
            r.divergence_db_path@ == "divergence.db"@,
            r.loop_detection_db_path is None,
            r.trace_detail == TraceDetail::Standard,
            r.gas_limit_multiplier is None,
            r.max_divergences_per_block is None,
            r.detect_gas_loops == true,
    {
        ResearchConfig {
            gas_multiplier: 128,
            start_block: 0,
            refund_multiplier: 1000,
            stipend_multiplier: 1000,
            divergence_db_path: String::from_str("divergence.db"),
            loop_detection_db_path: None,
            trace_detail: TraceDetail::Standard,
            gas_limit_multiplier: None,
            max_divergences_per_block: None,
            detect_gas_loops: true,
        }
    }
}

impl ResearchConfig {
    /// A configuration is valid when the gas multiplier is positive and the
    /// fractional multipliers are not negative.
    pub open spec fn spec_valid(self) -> bool {
        self.gas_multiplier > 0 && self.refund_multiplier >= 0 && self.stipend_multiplier >= 0
    }

    /// The effective gas limit multiplier: the explicit one when set, else
    /// the gas multiplier.
    pub open spec fn spec_effective_gas_limit_multiplier(self) -> u64 {
        match self.gas_limit_multiplier {
            Some(m) => m,
            None => self.gas_multiplier,
        }
    }

    /// Get the effective gas limit multiplier.
    /// Defaults to the gas multiplier if not explicitly set.
    pub fn effective_gas_limit_multiplier(&self) -> (r: u64)
        ensures
            r == self.spec_effective_gas_limit_multiplier(),
    {
        match self.gas_limit_multiplier {
            Some(m) => m,
            None => self.gas_multiplier,
        }
    }

    /// Validate the configuration: `Ok` exactly when the gas multiplier is
    /// positive and the refund and stipend multipliers are not negative.
    pub fn validate(&self) -> (r: Result<(), ConfigError>)
        ensures
            r is Ok <==> self.spec_valid(),
            self.gas_multiplier == 0 ==> (r matches Err(ConfigError::InvalidMultiplier(m))
                && m@ == "gas_multiplier must be > 0"@),
            self.gas_multiplier > 0 && self.refund_multiplier < 0 ==> (r matches Err(
                ConfigError::InvalidMultiplier(m),
            ) && m@ == "refund_multiplier must be >= 0"@),
            self.gas_multiplier > 0 && self.refund_multiplier >= 0 && self.stipend_multiplier < 0
                ==> (r matches Err(ConfigError::InvalidMultiplier(m)) && m@
                == "stipend_multiplier must be >= 0"@),
    {
        if self.gas_multiplier == 0 {
            return Err(ConfigError::InvalidMultiplier("gas_multiplier must be > 0"));
        }
        if self.refund_multiplier < 0 {
            return Err(ConfigError::InvalidMultiplier("refund_multiplier must be >= 0"));
        }
        if self.stipend_multiplier < 0 {
            return Err(ConfigError::InvalidMultiplier("stipend_multiplier must be >= 0"));
        }
        Ok(())
    }
}

/// Level of detail for divergence traces.
#[derive(Clone, Copy, Debug, PartialEq, Eq, Structural)]
pub enum TraceDetail {
    /// Minimal: Only record divergence type and gas metrics
    Minimal,
    /// Standard: Include operation counts and divergence location
    Standard,
    /// Detailed: Include full call trees and event logs
    Detailed,
}

/// The character code after ASCII lowercasing: upper-case ASCII letters move
/// down by 32, every other character keeps its code.
pub open spec fn lower_code(c: char) -> int {
    if 65 <= c as int && c as int <= 90 {
        c as int + 32
    } else {
        c as int
    }
}

/// Two character sequences are equal ignoring ASCII case.
pub open spec fn eq_ignore_ascii_case(a: Seq<char>, b: Seq<char>) -> bool {
    a.len() == b.len() && (forall|i: int| 0 <= i < a.len() ==> lower_code(a[i]) == lower_code(b[i]))
}

/// What parsing a trace detail level yields: the level whose name the input
/// matches ignoring ASCII case, if any.
pub open spec fn spec_parse_trace_detail(s: Seq<char>) -> Option<TraceDetail> {
    if eq_ignore_ascii_case(s, "minimal"@) {
        Some(TraceDetail::Minimal)
    } else if eq_ignore_ascii_case(s, "standard"@) {
        Some(TraceDetail::Standard)
    } else if eq_ignore_ascii_case(s, "detailed"@) {
        Some(TraceDetail::Detailed)
    } else {
        None
    }
}

/// The lowercased code of a character.
fn lower_code_exec(c: char) -> (r: u32)
    ensures
        r as int == lower_code(c),
{
    let u = c as u32;
    if 65 <= u && u <= 90 {
        u + 32
    } else {
        u
    }
}

/// Whether two strings are equal ignoring ASCII case.
fn str_eq_ignore_ascii_case(a: &str, b: &str) -> (r: bool)
    ensures
        r == eq_ignore_ascii_case(a@, b@),
{
    let alen = a.unicode_len();
    if alen != b.unicode_len() {
        return false;
    }
    let mut i: usize = 0;
    while i < alen
        invariant
            i <= alen,
            alen == a@.len(),
            a@.len() == b@.len(),
            forall|j: int| 0 <= j < i ==> lower_code(a@[j]) == lower_code(b@[j]),
        decreases alen - i,
    {
        let ca = a.get_char(i);
        let cb = b.get_char(i);
        if lower_code_exec(ca) != lower_code_exec(cb) {
            return false;
        }
        i += 1;
    }
    true
}

impl TraceDetail {
    /// Check if call trees should be included.
    pub fn include_call_trees(self) -> (r: bool)
        ensures
            r == (self == TraceDetail::Detailed),
    {
        matches!(self, TraceDetail::Detailed)
    }

    /// Check if event logs should be included.
    pub fn include_event_logs(self) -> (r: bool)
        ensures
            r == (self == TraceDetail::Detailed),
    {
        matches!(self, TraceDetail::Detailed)
    }

    /// Parse a trace detail level from its name, ignoring ASCII case.
    pub fn parse(s: &str) -> (r: Result<TraceDetail, String>)
        ensures
            match spec_parse_trace_detail(s@) {
                Some(t) => r == Ok::<TraceDetail, String>(t),
                None => r matches Err(m) && m@ == "Invalid trace detail level: "@ + s@,
            },
    {
        if str_eq_ignore_ascii_case(s, "minimal") {
            Ok(TraceDetail::Minimal)
        } else if str_eq_ignore_ascii_case(s, "standard") {
            Ok(TraceDetail::Standard)
        } else if str_eq_ignore_ascii_case(s, "detailed") {
            Ok(TraceDetail::Detailed)
        } else {
            Err(String::from_str("Invalid trace detail level: ").concat(s))
        }
    }
}

impl core::str::FromStr for TraceDetail {
    type Err = String;

    fn from_str(s: &str) -> Result<TraceDetail, String> {
        TraceDetail::parse(s)
    }
}

/// Configuration errors.
#[derive(Clone, Debug)]
pub enum ConfigError {
    /// A multiplier is out of its allowed range.
    InvalidMultiplier(&'static str),
    /// A path is unusable.
    InvalidPath(String),
}

impl ConfigError {
    /// A human-readable description of the error.
    pub fn message(&self) -> (r: String)
        ensures
            self matches ConfigError::InvalidMultiplier(m) ==> r@ == "Invalid multiplier: "@ + m@,
            self matches ConfigError::InvalidPath(p) ==> r@ == "Invalid path: "@ + p@,
    {
        match self {
            ConfigError::InvalidMultiplier(m) => String::from_str("Invalid multiplier: ").concat(m),
            ConfigError::InvalidPath(p) => String::from_str("Invalid path: ").concat(p.as_str()),
        }
    }
}

} // verus!
