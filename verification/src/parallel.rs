use vstd::prelude::*;

use crate::error::{CoreError, CoreResult};

verus! {

#[verifier::external_type_specification]
#[verifier::external_body]
pub struct ExThreadPool(rayon::ThreadPool);

#[verifier::external_type_specification]
#[verifier::external_body]
pub struct ExThreadPoolBuildError(rayon::ThreadPoolBuildError);

/// Decimal digits of a natural number, most significant first.
pub open spec fn decimal(n: nat) -> Seq<char>
    decreases n,
{
    if n < 10 {
        seq![digit_char(n)]
    } else {
        decimal(n / 10).push(digit_char(n % 10))
    }
}

/// The decimal digit character of a value below ten.
pub open spec fn digit_char(d: nat) -> char {
    if d == 0 { '0' } else if d == 1 { '1' } else if d == 2 { '2' } else if d == 3 { '3' }
    else if d == 4 { '4' } else if d == 5 { '5' } else if d == 6 { '6' } else if d == 7 { '7' }
    else if d == 8 { '8' } else { '9' }
}

fn digit_str(d: usize) -> (digit: &'static str)
    requires
        d < 10,
    ensures
        digit@ == seq![digit_char(d as nat)],
{
    match d {
        0 => {
            proof {
                reveal_strlit("0");
            }
            "0"
        },
        1 => {
            proof {
                reveal_strlit("1");
            }
            "1"
        },
        2 => {
            proof {
                reveal_strlit("2");
            }
            "2"
        },
        3 => {
            proof {
                reveal_strlit("3");
            }
            "3"
        },
        4 => {
            proof {
                reveal_strlit("4");
            }
            "4"
        },
        5 => {
            proof {
                reveal_strlit("5");
            }
            "5"
        },
        6 => {
            proof {
                reveal_strlit("6");
            }
            "6"
        },
        7 => {
            proof {
                reveal_strlit("7");
            }
            "7"
        },
        8 => {
            proof {
                reveal_strlit("8");
            }
            "8"
        },
        _ => {
            proof {
                reveal_strlit("9");
            }
            "9"
        },
    }
}

fn append_decimal(text: &mut String, n: usize)
    ensures
        final(text)@ == old(text)@ + decimal(n as nat),
    decreases n,
{
    if n >= 10 {
        append_decimal(text, n / 10);
    }
    text.append(digit_str(n % 10));
}

/// Prefix of the worker-thread names of a local pool.
pub open spec fn thread_name_prefix() -> Seq<char> {
    "rodas5p-rayon-"@
}

/// Name of the worker thread with the given index: the prefix followed by
/// the index in decimal.
pub fn rayon_thread_name(index: usize) -> (name: String)
    ensures
        name@ == thread_name_prefix() + decimal(index as nat),
{
    let mut name = "rodas5p-rayon-".to_owned();
    append_decimal(&mut name, index);
    name
}

/// Calls `rayon::ThreadPoolBuilder::new()`, `.num_threads(threads)`,
/// `.thread_name(rayon_thread_name)` and `.build()`. Whether building
/// succeeds depends on the operating system, so nothing is claimed of the
/// result.
#[verifier::external_body]
fn build_local_pool(threads: usize) -> (pool: Result<
    rayon::ThreadPool,
    rayon::ThreadPoolBuildError,
>) {
    rayon::ThreadPoolBuilder::new().num_threads(threads).thread_name(rayon_thread_name).build()
}

/// Calls the `Display` implementation of `rayon::ThreadPoolBuildError`. The
/// text comes from rayon or the operating system, so nothing is claimed of it.
#[verifier::external_body]
fn pool_error_text(error: &rayon::ThreadPoolBuildError) -> String {
    format!("{error}")
}

/// Prefix of the error reported when a local pool cannot be built.
pub open spec fn pool_failure_prefix() -> Seq<char> {
    "failed to create local Rayon pool: "@
}

/// Bounded execution context for independent scientific jobs: sequential,
/// or a local Rayon pool with an explicit thread count.
pub struct ParallelExecution {
    threads: usize,
    pool: Option<rayon::ThreadPool>,
}

impl ParallelExecution {
    /// The declared number of threads.
    pub closed spec fn spec_threads(&self) -> usize {
        self.threads
    }

    /// Whether jobs run on a local pool.
    pub closed spec fn has_pool(&self) -> bool {
        self.pool is Some
    }

    pub fn sequential() -> (execution: Self)
        ensures
            execution.spec_threads() == 1,
            !execution.has_pool(),
    {
        ParallelExecution { threads: 1, pool: None }
    }

    /// A zero thread count is refused, one thread runs sequentially, and more
    /// threads build a local pool, which may fail in the operating system.
    pub fn rayon(threads: usize) -> (result: CoreResult<Self>)
        ensures
            threads == 0 ==> (result matches Err(CoreError::InvalidInput(message))
                && message@ == "Rayon thread count must be positive"@),
            threads == 1 ==> (result matches Ok(execution) && execution.spec_threads() == 1
                && !execution.has_pool()),
            threads >= 2 ==> (result matches Ok(execution) ==> execution.spec_threads() == threads
                && execution.has_pool()),
            threads >= 2 ==> (result matches Err(error) ==> (error matches CoreError::InvalidInput(
                message,
            ) && message@.len() >= pool_failure_prefix().len() && message@.subrange(
                0,
                pool_failure_prefix().len() as int,
            ) == pool_failure_prefix())),
    {
        if threads == 0 {
            return Err(CoreError::InvalidInput("Rayon thread count must be positive".to_owned()));
        }
        if threads == 1 {
            return Ok(Self::sequential());
        }
        match build_local_pool(threads) {
            Ok(pool) => Ok(ParallelExecution { threads, pool: Some(pool) }),
            Err(error) => {
                let mut message = "failed to create local Rayon pool: ".to_owned();
                let text = pool_error_text(&error);
                message.append(text.as_str());
                proof {
                    reveal_strlit("failed to create local Rayon pool: ");
                    assert(message@.subrange(0, pool_failure_prefix().len() as int)
                        =~= pool_failure_prefix());
                }
                Err(CoreError::InvalidInput(message))
            },
        }
    }

    pub fn threads(&self) -> (threads: usize)
        ensures
            threads == self.spec_threads(),
    {
        self.threads
    }

    pub fn backend(&self) -> (backend: &'static str)
        ensures
            self.has_pool() ==> backend@ == "rayon-local"@,
            !self.has_pool() ==> backend@ == "sequential"@,
    {
        if self.pool.is_some() {
            "rayon-local"
        } else {
            "sequential"
        }
    }

    /// An ordered in-place batch pairs each input with one output slot, so
    /// the two batches must have the same length.
    pub fn validate_ordered_batch(inputs: usize, outputs: usize) -> (result: CoreResult<()>)
        ensures
            result is Ok <==> inputs == outputs,
            result matches Err(error) ==> (error matches CoreError::Dimension(message)
                && message@ == "parallel input/output batch length mismatch"@),
    {
        if inputs != outputs {
            return Err(
                CoreError::Dimension("parallel input/output batch length mismatch".to_owned()),
            );
        }
        Ok(())
    }

    /// The local pool that runs jobs, if any.
    pub fn pool(&self) -> (pool: Option<&rayon::ThreadPool>)
        ensures
            pool is Some <==> self.has_pool(),
    {
        match &self.pool {
            Some(pool) => Some(pool),
            None => None,
        }
    }
}

} // verus!
