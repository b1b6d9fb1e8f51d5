//! Run configuration: which initialization steps to perform, the
//! benchmark mode, scaling of the seeded reference data, and the
//! endpoints the connection pool is built from.
use vstd::prelude::*;
use vstd::string::StrSliceExecFns;

verus! {

/// A configuration fault, found before any phase starts and fatal to
/// the whole run.
#[derive(Debug, Clone, PartialEq, Eq)]
pub enum ConfigError {
    /// An initialization-step letter that names no step.
    UnknownInitStep(char),
    /// The scaling factor was zero.
    ZeroScale,
    /// The connection list handed to the pool was empty.
    EmptyInstanceList,
}

/// One stage of schema preparation that a run may be asked to perform.
#[derive(Debug, PartialEq, Eq, Hash, Clone, Copy, Structural)]
pub enum InitStep {
    Drop,
    Create,
    Primary,
    Foreign,
    GenerateData,
    Vacuum,
}

/// The step named by one letter of the init-steps string, or the error
/// reported for a letter that names none.
pub open spec fn init_step_of_char(ch: char) -> Result<InitStep, ConfigError> {
    if ch == 'd' {
        Ok(InitStep::Drop)
    } else if ch == 't' {
        Ok(InitStep::Create)
    } else if ch == 'p' {
        Ok(InitStep::Primary)
    } else if ch == 'f' {
        Ok(InitStep::Foreign)
    } else if ch == 'v' {
        Ok(InitStep::Vacuum)
    } else if ch == 'G' || ch == 'g' {
        Ok(InitStep::GenerateData)
    } else {
        Err(ConfigError::UnknownInitStep(ch))
    }
}

/// The error for the leftmost letter at or after position `i` that
/// names no step, or `None` when every such letter is valid.
pub open spec fn first_step_error_from(chars: Seq<char>, i: int) -> Option<ConfigError>
    decreases chars.len() - i,
{
    if i < 0 || i >= chars.len() {
        None
    } else {
        match init_step_of_char(chars[i]) {
            Err(e) => Some(e),
            Ok(_) => first_step_error_from(chars, i + 1),
        }
    }
}

/// The error for the leftmost letter that names no step, or `None`
/// when the whole string is valid.
pub open spec fn first_step_error(chars: Seq<char>) -> Option<ConfigError> {
    first_step_error_from(chars, 0)
}

/// The set of steps named by the letters of a valid init-steps string.
pub open spec fn parsed_steps(chars: Seq<char>) -> Set<InitStep> {
    Set::new(
        |s: InitStep|
            exists|j: int|
                0 <= j < chars.len() && init_step_of_char(chars[j]) == Ok::<
                    InitStep,
                    ConfigError,
                >(s),
    )
}

impl InitStep {
    /// Parses one letter of the init-steps string.
    pub fn try_from(ch: char) -> (r: Result<InitStep, ConfigError>)
        ensures
            r == init_step_of_char(ch),
    {
        match ch {
            'd' => Ok(InitStep::Drop),
            't' => Ok(InitStep::Create),
            'p' => Ok(InitStep::Primary),
            'f' => Ok(InitStep::Foreign),
            'v' => Ok(InitStep::Vacuum),
            'G' | 'g' => Ok(InitStep::GenerateData),
            symbol => Err(ConfigError::UnknownInitStep(symbol)),
        }
    }
}

fn steps_contain(v: &Vec<InitStep>, step: InitStep) -> (r: bool)
    ensures
        r == v@.contains(step),
{
    let mut i: usize = 0;
    while i < v.len()
        invariant
            0 <= i <= v@.len(),
            forall|j: int| 0 <= j < i ==> v@[j] != step,
        decreases v@.len() - i,
    {
        if v[i] == step {
            return true;
        }
        i += 1;
    }
    false
}

/// The set of initialization steps a run performs, parsed from a
/// string of one-letter step names; duplicate letters collapse.
#[derive(Debug, Clone)]
pub struct InitSteps(Vec<InitStep>);

impl View for InitSteps {
    type V = Set<InitStep>;

    closed spec fn view(&self) -> Set<InitStep> {
        self.0@.to_set()
    }
}

impl InitSteps {
    /// Each step is recorded once, however often its letter occurred.
    pub closed spec fn wf(&self) -> bool {
        self.0@.no_duplicates()
    }

    /// Whether the run was asked to perform the given step.
    pub fn contains(&self, step: &InitStep) -> (r: bool)
        ensures
            r == self@.contains(*step),
    {
        let r = steps_contain(&self.0, *step);
        proof {
            assert(self.0@.to_set().contains(*step) == self.0@.contains(*step));
        }
        r
    }

    /// Parses an init-steps string: the set of steps its letters name,
    /// or the error for the leftmost letter that names none.
    pub fn try_from(steps: &str) -> (r: Result<InitSteps, ConfigError>)
        ensures
            match first_step_error(steps@) {
                Some(e) => r == Err::<InitSteps, ConfigError>(e),
                None => r is Ok && r->Ok_0.wf() && r->Ok_0@ == parsed_steps(steps@),
            },
    {
        let ghost chars = steps@;
        let n = steps.unicode_len();
        let mut acc: Vec<InitStep> = Vec::new();
        let mut i: usize = 0;
        while i < n
            invariant
                n == chars.len(),
                chars == steps@,
                0 <= i <= n,
                first_step_error(chars) == first_step_error_from(chars, i as int),
                acc@.no_duplicates(),
                forall|s: InitStep|
                    acc@.contains(s) <==> exists|j: int|
                        0 <= j < i && init_step_of_char(chars[j]) == Ok::<InitStep, ConfigError>(s),
            decreases n - i,
        {
            let ch = steps.get_char(i);
            match InitStep::try_from(ch) {
                Ok(step) => {
                    let ghost prev = acc@;
                    let contained = steps_contain(&acc, step);
                    if !contained {
                        acc.push(step);
                    }
                    proof {
                        broadcast use vstd::seq_lib::lemma_seq_contains_after_push;

                        if !contained {
                            assert(acc@ == prev.push(step));
                            assert forall|p: int, q: int|
                                0 <= p < q < acc@.len() implies acc@[p] != acc@[q] by {
                                if q == acc@.len() - 1 {
                                    assert(acc@[p] == prev[p]);
                                    if prev[p] == step {
                                        assert(prev.contains(step));
                                    }
                                }
                            }
                        }
                        assert forall|s: InitStep| acc@.contains(s) implies exists|j: int|
                            0 <= j < i + 1 && init_step_of_char(chars[j]) == Ok::<
                                InitStep,
                                ConfigError,
                            >(s) by {
                            if !contained {
                                assert(prev.push(step).contains(s));
                            }
                            if s == step {
                                assert(0 <= i < i + 1 && init_step_of_char(chars[i as int]) == Ok::<
                                    InitStep,
                                    ConfigError,
                                >(s));
                            } else {
                                assert(prev.contains(s));
                            }
                        }
                        assert forall|s: InitStep|
                            (exists|j: int|
                                0 <= j < i + 1 && init_step_of_char(chars[j]) == Ok::<
                                    InitStep,
                                    ConfigError,
                                >(s)) implies acc@.contains(s) by {
                            let j = choose|j: int|
                                0 <= j < i + 1 && init_step_of_char(chars[j]) == Ok::<
                                    InitStep,
                                    ConfigError,
                                >(s);
                            if j == i {
                                assert(s == step);
                                if contained {
                                    assert(prev.contains(s));
                                    let p = choose|p: int| 0 <= p < prev.len() && prev[p] == s;
                                    assert(acc@[p] == s);
                                } else {
                                    assert(prev.push(step).contains(s));
                                }
                            } else {
                                assert(prev.contains(s));
                                let p = choose|p: int| 0 <= p < prev.len() && prev[p] == s;
                                assert(acc@[p] == s);
                            }
                        }
                    }
                },
                Err(e) => {
                    return Err(e);
                },
            }
            i += 1;
        }
        proof {
            assert forall|s: InitStep| #[trigger]
                acc@.to_set().contains(s) implies parsed_steps(chars).contains(s) by {
                assert(acc@.contains(s));
            }
            assert forall|s: InitStep| #[trigger]
                parsed_steps(chars).contains(s) implies acc@.to_set().contains(s) by {
                assert(acc@.contains(s));
            }
            assert(acc@.to_set() =~= parsed_steps(chars));
        }
        Ok(InitSteps(acc))
    }
}

/// One backend endpoint: address, authentication, per-endpoint timeout
/// in milliseconds, and how many connections the pool opens to it.
#[derive(Debug, Clone)]
pub struct ConnectionConfig {
    pub addr: String,
    pub timeout_ms: Option<u64>,
    pub user: String,
    pub password: Option<String>,
    pub connections: usize,
}

/// Row counts of the seeded reference data, scaled from one factor.
#[derive(Debug, Clone, PartialEq, Eq, Structural)]
pub struct TestConfig {
    pub ttbench_branches: u64,
    pub ttbench_tellers: u64,
    pub ttbench_accounts: u64,
}

impl Default for TestConfig {
    /// The counts at scaling factor one.
    fn default() -> (r: Self)
        ensures
            r.ttbench_branches == 1,
            r.ttbench_tellers == 10,
            r.ttbench_accounts == 100_000,
    {
        TestConfig { ttbench_branches: 1, ttbench_tellers: 10, ttbench_accounts: 100_000 }
    }
}

impl TestConfig {
    /// Scales the reference-data counts; a zero factor is rejected.
    pub fn try_from(scale: u64) -> (r: Result<TestConfig, ConfigError>)
        requires
            scale <= u64::MAX / 100_000,
        ensures
            scale == 0 ==> r == Err::<TestConfig, ConfigError>(ConfigError::ZeroScale),
            scale >= 1 ==> r == Ok::<TestConfig, ConfigError>(
                (TestConfig {
                    ttbench_branches: scale,
                    ttbench_tellers: (10 * scale) as u64,
                    ttbench_accounts: (100_000 * scale) as u64,
                }),
            ),
    {
        if scale == 0 {
            return Err(ConfigError::ZeroScale);
        }
        Ok(
            TestConfig {
                ttbench_branches: scale,
                ttbench_tellers: 10 * scale,
                ttbench_accounts: 100_000 * scale,
            },
        )
    }
}

/// How a run is bounded: by a fixed number of transactions, or by a
/// wall-clock duration (declared, with no defined semantics yet).
#[derive(Debug, Clone, PartialEq, Eq, Structural)]
pub enum BenchMod {
    Iterations,
    Time,
}

impl BenchMod {
    /// The mode's name as printed in the run banner.
    pub fn text(&self) -> (s: String)
        ensures
            *self is Iterations ==> s@ == "iterations"@,
            *self is Time ==> s@ == "time"@,
    {
        match self {
            BenchMod::Iterations => "iterations".to_owned(),
            BenchMod::Time => "time".to_owned(),
        }
    }
}

/// Everything a run needs to know: steps, mode, concurrency, quotas,
/// endpoints, retry ceiling and the cluster's bucket count.
#[derive(Debug, Clone)]
pub struct Config {
    pub init_steps: InitSteps,
    pub mode: BenchMod,
    pub fillfactor: u64,
    pub jobs: u64,
    /// wall-clock bound of the time mode, in seconds
    pub time: u64,
    pub vebose_errors: bool,
    /// transactions per connection
    pub transactions: u64,
    /// transactions summary for all connections
    pub transactions_total: u64,
    pub instances: Vec<ConnectionConfig>,
    pub test_config: TestConfig,
    pub max_retries: u64,
    pub bucket_count: u32,
    pub keep_history: bool,
}

impl Config {
    /// Whether the run was asked to perform the given step.
    pub fn contains_step(&self, step: &InitStep) -> (r: bool)
        ensures
            r == self.init_steps@.contains(*step),
    {
        self.init_steps.contains(step)
    }

    /// Builds the run configuration from the command-line values: the
    /// mode follows from whether a transaction count was given, the
    /// init steps default to every step, and the endpoint list, retry
    /// ceiling and bucket count take their fixed defaults. A zero
    /// scaling factor is rejected first, then the leftmost unknown
    /// step letter.
    pub fn from_options(
        jobs: u64,
        transactions: Option<u64>,
        time_secs: u64,
        scale: u64,
        init_steps: Option<&str>,
        keep_history: bool,
    ) -> (r: Result<Config, ConfigError>)
        requires
            scale <= u64::MAX / 100_000,
        ensures
            ({
                let chars = if init_steps is Some {
                    init_steps->Some_0@
                } else {
                    "dtpfvg"@
                };
                &&& (scale == 0 ==> r == Err::<Config, ConfigError>(ConfigError::ZeroScale))
                &&& (scale >= 1 && first_step_error(chars) is Some ==> r == Err::<
                    Config,
                    ConfigError,
                >(first_step_error(chars)->Some_0))
                &&& (scale >= 1 && first_step_error(chars) is None ==> {
                    &&& r is Ok
                    &&& r->Ok_0.init_steps@ == parsed_steps(chars)
                    &&& r->Ok_0.init_steps.wf()
                    &&& r->Ok_0.mode == (if transactions is Some {
                        BenchMod::Iterations
                    } else {
                        BenchMod::Time
                    })
                    &&& r->Ok_0.fillfactor == 100
                    &&& r->Ok_0.jobs == jobs
                    &&& r->Ok_0.time == time_secs
                    &&& r->Ok_0.vebose_errors == false
                    &&& r->Ok_0.transactions == (if transactions is Some {
                        transactions->Some_0
                    } else {
                        0
                    })
                    &&& r->Ok_0.transactions_total == 1000
                    &&& r->Ok_0.test_config.ttbench_branches == scale
                    &&& r->Ok_0.test_config.ttbench_tellers == 10 * scale
                    &&& r->Ok_0.test_config.ttbench_accounts == 100_000 * scale
                    &&& r->Ok_0.max_retries == u64::MAX
                    &&& r->Ok_0.bucket_count == 30000
                    &&& r->Ok_0.keep_history == keep_history
                    &&& r->Ok_0.instances@.len() == 1
                })
            }),
    {
        let test_config = match TestConfig::try_from(scale) {
            Ok(t) => t,
            Err(e) => {
                return Err(e);
            },
        };
        let mode = if transactions.is_some() {
            BenchMod::Iterations
        } else {
            BenchMod::Time
        };
        let steps_str = match init_steps {
            Some(s) => s,
            None => "dtpfvg",
        };
        let parsed = match InitSteps::try_from(steps_str) {
            Ok(p) => p,
            Err(e) => {
                return Err(e);
            },
        };
        let transactions_v = match transactions {
            Some(t) => t,
            None => 0,
        };
        let mut instances: Vec<ConnectionConfig> = Vec::new();
        instances.push(
            ConnectionConfig {
                addr: "localhost:3031".to_owned(),
                timeout_ms: Some(500),
                user: "admin".to_owned(),
                password: Some("admin".to_owned()),
                connections: 3,
            },
        );
        Ok(
            Config {
                mode,
                test_config,
                init_steps: parsed,
                fillfactor: 100,
                jobs,
                transactions: transactions_v,
                time: time_secs,
                vebose_errors: false,
                instances,
                transactions_total: 1000,
                max_retries: u64::MAX,
                bucket_count: 30000,
                keep_history,
            },
        )
    }
}

} // verus!
