//! A static snapshot of guest arguments and environment, bounded in count and bytes.
use vstd::prelude::*;

verus! {

pub const WASIP1_STATIC_ARGS_CAPACITY: usize = 4;
pub const WASIP1_STATIC_ENV_CAPACITY: usize = 4;
pub const WASIP1_STATIC_ARG_BYTES_CAPACITY: usize = 64;
pub const WASIP1_STATIC_ENV_BYTES_CAPACITY: usize = 128;

/// Why a static argument/environment snapshot is refused.
#[derive(Clone, Copy, Debug, PartialEq, Eq, Structural)]
pub enum StaticArgEnvError {
    TooManyArgs,
    ArgsTooLarge,
    TooManyEnvironmentPairs,
    EnvironmentTooLarge,
}

/// The bytes of the first `n` arguments.
pub open spec fn arg_bytes(args: Seq<&[u8]>, n: int) -> int
    decreases n,
{
    if n <= 0 || n > args.len() { 0 } else { arg_bytes(args, n - 1) + args[n - 1]@.len() }
}

/// The bytes of the first `n` environment pairs, each counted as `key=value`.
pub open spec fn env_bytes(env: Seq<(&[u8], &[u8])>, n: int) -> int
    decreases n,
{
    if n <= 0 || n > env.len() { 0 } else { env_bytes(env, n - 1) + env[n - 1].0@.len() + env[n - 1].1@.len() + 1 }
}

proof fn lemma_arg_bytes_monotone(args: Seq<&[u8]>, m: int, n: int)
    requires
        0 <= m <= n <= args.len(),
    ensures
        arg_bytes(args, m) <= arg_bytes(args, n),
    decreases n - m,
{
    if m < n {
        lemma_arg_bytes_monotone(args, m, n - 1);
    }
}

proof fn lemma_env_bytes_monotone(env: Seq<(&[u8], &[u8])>, m: int, n: int)
    requires
        0 <= m <= n <= env.len(),
    ensures
        env_bytes(env, m) <= env_bytes(env, n),
    decreases n - m,
{
    if m < n {
        lemma_env_bytes_monotone(env, m, n - 1);
    }
}

/// The answer of building a snapshot from `args` and `environment`.
pub open spec fn spec_static_arg_env(
    args: Seq<&[u8]>,
    environment: Seq<(&[u8], &[u8])>,
    arg_capacity: int,
    env_capacity: int,
) -> Result<(), StaticArgEnvError> {
    if args.len() > arg_capacity {
        Err(StaticArgEnvError::TooManyArgs)
    } else if environment.len() > env_capacity {
        Err(StaticArgEnvError::TooManyEnvironmentPairs)
    } else if arg_bytes(args, args.len() as int) > WASIP1_STATIC_ARG_BYTES_CAPACITY {
        Err(StaticArgEnvError::ArgsTooLarge)
    } else if env_bytes(environment, environment.len() as int) > WASIP1_STATIC_ENV_BYTES_CAPACITY {
        Err(StaticArgEnvError::EnvironmentTooLarge)
    } else {
        Ok(())
    }
}

/// Up to `ARGS` arguments and `ENV` environment pairs a guest sees at start.
#[derive(Clone, Debug, PartialEq, Eq)]
pub struct StaticArgEnvSnapshot<'a, const ARGS: usize, const ENV: usize> {
    pub args: Vec<&'a [u8]>,
    pub environment: Vec<(&'a [u8], &'a [u8])>,
}

pub type Wasip1StaticArgEnv<'a> = StaticArgEnvSnapshot<'a, WASIP1_STATIC_ARGS_CAPACITY, WASIP1_STATIC_ENV_CAPACITY>;

impl<'a, const ARGS: usize, const ENV: usize> StaticArgEnvSnapshot<'a, ARGS, ENV> {
    pub fn empty() -> (out: Self)
        ensures
            out.args@.len() == 0,
            out.environment@.len() == 0,
    {
        Self { args: Vec::new(), environment: Vec::new() }
    }

    /// A snapshot of `args` and `environment`, refused when a count or byte bound is exceeded.
    pub fn new(args: &[&'a [u8]], environment: &[(&'a [u8], &'a [u8])]) -> (out: Result<Self, StaticArgEnvError>)
        ensures
            ({
                let r = spec_static_arg_env(args@, environment@, ARGS as int, ENV as int);
                &&& (out is Ok <==> r is Ok)
                &&& (out is Err ==> r == Err::<(), StaticArgEnvError>(out->Err_0))
                &&& (out is Ok ==> out->Ok_0.args@ == args@ && out->Ok_0.environment@ == environment@)
            }),
    {
        if args.len() > ARGS {
            return Err(StaticArgEnvError::TooManyArgs);
        }
        if environment.len() > ENV {
            return Err(StaticArgEnvError::TooManyEnvironmentPairs);
        }
        let mut out = Self::empty();
        let mut arg_total: usize = 0;
        let mut index: usize = 0;
        while index < args.len()
            invariant
                index <= args@.len(),
                args@.len() <= ARGS,
                environment@.len() <= ENV,
                arg_total == arg_bytes(args@, index as int),
                arg_total <= WASIP1_STATIC_ARG_BYTES_CAPACITY,
                out.args@ == args@.subrange(0, index as int),
                out.environment@.len() == 0,
            decreases args@.len() - index,
        {
            let arg = args[index];
            if arg.len() > WASIP1_STATIC_ARG_BYTES_CAPACITY - arg_total {
                proof {
                    assert(arg_bytes(args@, index as int + 1) == arg_bytes(args@, index as int) + args@[index as int]@.len());
                    lemma_arg_bytes_monotone(args@, index as int + 1, args@.len() as int);
                }
                return Err(StaticArgEnvError::ArgsTooLarge);
            }
            arg_total = arg_total + arg.len();
            out.args.push(arg);
            index = index + 1;
            proof { assert(out.args@ =~= args@.subrange(0, index as int)); }
        }
        proof { assert(args@.subrange(0, args@.len() as int) =~= args@); }
        let mut env_total: usize = 0;
        let mut index: usize = 0;
        while index < environment.len()
            invariant
                index <= environment@.len(),
                args@.len() <= ARGS,
                environment@.len() <= ENV,
                env_total == env_bytes(environment@, index as int),
                env_total <= WASIP1_STATIC_ENV_BYTES_CAPACITY,
                out.environment@ == environment@.subrange(0, index as int),
                out.args@ == args@,
                arg_bytes(args@, args@.len() as int) <= WASIP1_STATIC_ARG_BYTES_CAPACITY,
            decreases environment@.len() - index,
        {
            let pair = environment[index];
            let room = WASIP1_STATIC_ENV_BYTES_CAPACITY - env_total;
            if pair.0.len() > room || pair.1.len() > room - pair.0.len() || room - pair.0.len() - pair.1.len() < 1 {
                proof {
                    assert(env_bytes(environment@, index as int + 1) == env_bytes(environment@, index as int)
                        + environment@[index as int].0@.len() + environment@[index as int].1@.len() + 1);
                    lemma_env_bytes_monotone(environment@, index as int + 1, environment@.len() as int);
                }
                return Err(StaticArgEnvError::EnvironmentTooLarge);
            }
            env_total = env_total + pair.0.len() + pair.1.len() + 1;
            out.environment.push(pair);
            index = index + 1;
            proof { assert(out.environment@ =~= environment@.subrange(0, index as int)); }
        }
        proof { assert(environment@.subrange(0, environment@.len() as int) =~= environment@); }
        Ok(out)
    }

    pub fn arg_count(&self) -> (out: usize)
        ensures
            out == self.args@.len(),
    {
        self.args.len()
    }

    pub fn environment_count(&self) -> (out: usize)
        ensures
            out == self.environment@.len(),
    {
        self.environment.len()
    }

    pub fn args(&self) -> (out: &[&'a [u8]])
        ensures
            out@ == self.args@,
    {
        self.args.as_slice()
    }

    pub fn environment(&self) -> (out: &[(&'a [u8], &'a [u8])])
        ensures
            out@ == self.environment@,
    {
        self.environment.as_slice()
    }
}

} // verus!
