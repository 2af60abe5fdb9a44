use vstd::prelude::*;

verus! {

pub open spec fn is_digit(c: char) -> bool {
    '0' <= c && c <= '9'
}

/// The number that a string of decimal digits denotes.
pub open spec fn digits_value(s: Seq<char>) -> nat
    decreases s.len(),
{
    if s.len() == 0 {
        0
    } else {
        digits_value(s.drop_last()) * 10 + (s.last() as nat - '0' as nat) as nat
    }
}

/// The `u64` that `s` writes in decimal: one or more digits, nothing else,
/// and a value that fits.
pub open spec fn decimal_u64(s: Seq<char>) -> Option<u64> {
    if s.len() > 0 && (forall|i: int| 0 <= i < s.len() ==> is_digit(#[trigger] s[i]))
        && digits_value(s) <= u64::MAX {
        Some(digits_value(s) as u64)
    } else {
        None
    }
}

proof fn lemma_prefix_value_le(s: Seq<char>, j: int)
    requires
        0 <= j <= s.len(),
        forall|i: int| 0 <= i < s.len() ==> is_digit(#[trigger] s[i]),
    ensures
        digits_value(s.subrange(0, j)) <= digits_value(s),
    decreases s.len(),
{
    if j < s.len() {
        let t = s.drop_last();
        assert(t.subrange(0, j) =~= s.subrange(0, j));
        assert forall|i: int| 0 <= i < t.len() implies is_digit(#[trigger] t[i]) by {
            assert(t[i] == s[i]);
        }
        lemma_prefix_value_le(t, j);
    } else {
        assert(s.subrange(0, j) =~= s);
    }
}

/// Reads a `u64` written in decimal; `None` for anything else, an empty
/// string and a value that does not fit included.
pub fn parse_decimal(s: &str) -> (r: Option<u64>)
    ensures
        r == decimal_u64(s@),
{
    let n = s.unicode_len();
    if n == 0 {
        return None;
    }
    let mut acc: u64 = 0;
    let mut i: usize = 0;
    while i < n
        invariant
            n == s@.len(),
            0 <= i <= n,
            forall|k: int| 0 <= k < i ==> is_digit(#[trigger] s@[k]),
            acc as nat == digits_value(s@.subrange(0, i as int)),
        decreases n - i,
    {
        let c = s.get_char(i);
        if !('0' <= c && c <= '9') {
            return None;
        }
        let d: u64 = (c as u32 - '0' as u32) as u64;
        let ghost next = s@.subrange(0, i + 1);
        proof {
            assert(next.drop_last() =~= s@.subrange(0, i as int));
            assert(next.last() == c);
        }
        if acc > (u64::MAX - d) / 10 {
            proof {
                assert(digits_value(next) > u64::MAX) by (nonlinear_arith)
                    requires
                        acc > (u64::MAX - d) / 10,
                        digits_value(next) == acc * 10 + d,
                        d <= 9,
                ;
                if forall|k: int| 0 <= k < s@.len() ==> is_digit(#[trigger] s@[k]) {
                    lemma_prefix_value_le(s@, i + 1);
                }
            }
            return None;
        }
        acc = acc * 10 + d;
        i = i + 1;
    }
    proof {
        assert(s@.subrange(0, n as int) =~= s@);
    }
    Some(acc)
}


/// A call description as it arrives from a caller, every field still text.
pub struct CallConfigRequest {
    pub wasm_name: String,
    pub task_unique_name: String,
    pub export_func: String,
    pub param_type: String,
    pub params: Vec<String>,
    pub results_length: String,
    pub expected_execution_time: String,
    pub expected_deadline: String,
}

/// Why a call description was refused.
#[derive(Clone, Copy, Debug, PartialEq, Eq, Structural)]
pub enum ConfigError {
    /// No exported function is named.
    EmptyExport,
    /// The result arity is not a decimal `u64`.
    ResultsLength,
    /// The expected execution time is not a decimal `u64`.
    ExecutionTime,
    /// The relative deadline is not a decimal `u64`.
    Deadline,
}

impl ConfigError {
    /// A short tag naming the error.
    pub fn to_string(&self) -> (r: String)
        ensures
            r@ == self.tag(),
    {
        match self {
            ConfigError::EmptyExport => String::from_str("Invalid_export_func"),
            ConfigError::ResultsLength => String::from_str("Invalid_results_length"),
            ConfigError::ExecutionTime => String::from_str("Invalid_expected_execution_time"),
            ConfigError::Deadline => String::from_str("Invalid_expected_deadline"),
        }
    }

    pub open spec fn tag(&self) -> Seq<char> {
        match self {
            ConfigError::EmptyExport => "Invalid_export_func"@,
            ConfigError::ResultsLength => "Invalid_results_length"@,
            ConfigError::ExecutionTime => "Invalid_expected_execution_time"@,
            ConfigError::Deadline => "Invalid_expected_deadline"@,
        }
    }
}

/// Validated call parameters.
pub struct FuncConfig {
    pub task_unique_name: String,
    pub export_func: String,
    pub param_type: String,
    pub params: Vec<String>,
    pub results_length: u64,
    pub expected_execution_time: u64,
    pub relative_deadline: u64,
}

/// The error, if any, that validation finds in `req`, first failing field first.
pub open spec fn config_error(req: CallConfigRequest) -> Option<ConfigError> {
    if req.export_func@.len() == 0 {
        Some(ConfigError::EmptyExport)
    } else if decimal_u64(req.results_length@) is None {
        Some(ConfigError::ResultsLength)
    } else if decimal_u64(req.expected_execution_time@) is None {
        Some(ConfigError::ExecutionTime)
    } else if decimal_u64(req.expected_deadline@) is None {
        Some(ConfigError::Deadline)
    } else {
        None
    }
}

/// The error, if any, that validation of a calibration request finds in
/// `req`: as for a call, but a calibration carries no deadline, so that
/// field is not looked at.
pub open spec fn test_config_error(req: CallConfigRequest) -> Option<ConfigError> {
    if req.export_func@.len() == 0 {
        Some(ConfigError::EmptyExport)
    } else if decimal_u64(req.results_length@) is None {
        Some(ConfigError::ResultsLength)
    } else if decimal_u64(req.expected_execution_time@) is None {
        Some(ConfigError::ExecutionTime)
    } else {
        None
    }
}

/// The deadline that a calibration request's deadline field sets for the
/// configured call: the value it holds, or no bound.
pub open spec fn test_deadline(s: Seq<char>) -> u64 {
    match decimal_u64(s) {
        Some(d) => d,
        None => u64::MAX,
    }
}

impl FuncConfig {
    /// Every field but the deadline is the one that `req` gives, the numeric
    /// ones read in decimal.
    pub open spec fn from_request(&self, req: CallConfigRequest) -> bool {
        &&& self.task_unique_name@ == req.task_unique_name@
        &&& self.export_func@ == req.export_func@
        &&& self.param_type@ == req.param_type@
        &&& self.params@ == req.params@
        &&& Some(self.results_length) == decimal_u64(req.results_length@)
        &&& Some(self.expected_execution_time) == decimal_u64(req.expected_execution_time@)
    }

    /// Validates a call description: the export is named and the three
    /// numeric fields are decimal `u64`s; nothing is coerced.
    pub fn new(req: CallConfigRequest) -> (r: Result<FuncConfig, ConfigError>)
        ensures
            config_error(req) matches Some(e) ==> r == Err::<FuncConfig, ConfigError>(e),
            config_error(req) is None ==> (r matches Ok(c) && c.from_request(req)
                && Some(c.relative_deadline) == decimal_u64(req.expected_deadline@)),
    {
        if req.export_func.unicode_len() == 0 {
            return Err(ConfigError::EmptyExport);
        }
        let results_length = match parse_decimal(req.results_length.as_str()) {
            Some(v) => v,
            None => return Err(ConfigError::ResultsLength),
        };
        let expected_execution_time = match parse_decimal(req.expected_execution_time.as_str()) {
            Some(v) => v,
            None => return Err(ConfigError::ExecutionTime),
        };
        let relative_deadline = match parse_decimal(req.expected_deadline.as_str()) {
            Some(v) => v,
            None => return Err(ConfigError::Deadline),
        };
        Ok(FuncConfig {
            task_unique_name: req.task_unique_name,
            export_func: req.export_func,
            param_type: req.param_type,
            params: req.params,
            results_length,
            expected_execution_time,
            relative_deadline,
        })
    }

    /// Validates a calibration request. Its deadline field is optional: the
    /// configured call it leaves behind takes the deadline when the field
    /// holds one, and no bound (`u64::MAX`) otherwise.
    pub fn for_test(req: CallConfigRequest) -> (r: Result<FuncConfig, ConfigError>)
        ensures
            test_config_error(req) matches Some(e) ==> r == Err::<FuncConfig, ConfigError>(e),
            test_config_error(req) is None ==> (r matches Ok(c) && c.from_request(req)
                && c.relative_deadline == test_deadline(req.expected_deadline@)),
    {
        if req.export_func.unicode_len() == 0 {
            return Err(ConfigError::EmptyExport);
        }
        let results_length = match parse_decimal(req.results_length.as_str()) {
            Some(v) => v,
            None => return Err(ConfigError::ResultsLength),
        };
        let expected_execution_time = match parse_decimal(req.expected_execution_time.as_str()) {
            Some(v) => v,
            None => return Err(ConfigError::ExecutionTime),
        };
        let relative_deadline = match parse_decimal(req.expected_deadline.as_str()) {
            Some(v) => v,
            None => u64::MAX,
        };
        Ok(FuncConfig {
            task_unique_name: req.task_unique_name,
            export_func: req.export_func,
            param_type: req.param_type,
            params: req.params,
            results_length,
            expected_execution_time,
            relative_deadline,
        })
    }

    pub fn get_relative_deadline(&self) -> (r: u64)
        ensures
            r == self.relative_deadline,
    {
        self.relative_deadline
    }
}

/// The admission rule. A module never calibrated is admitted: admission is
/// optimistic until a measured time exists.
pub open spec fn admits(test_time: Option<u64>, relative_deadline: u64) -> bool {
    match test_time {
        Some(t) => t <= relative_deadline,
        None => true,
    }
}

/// Deadline feasibility gate: admits a call when the calibrated time is
/// within the relative deadline, or when no calibration exists yet.
pub fn check_deadline(test_time: Option<u64>, relative_deadline: u64) -> (r: bool)
    ensures
        r == admits(test_time, relative_deadline),
{
    match test_time {
        Some(t) => t <= relative_deadline,
        None => true,
    }
}

} // verus!
