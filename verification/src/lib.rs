//! Command dispatch for the `eth` query subcommands of a blockchain
//! orchestrator CLI.
//!
//! The library resolves a raw command line (a sequence of string tokens) to
//! one of the `eth` subcommands and validates its arguments. The subcommand
//! handlers themselves are deliberate stubs: `balance` captures its single
//! positional token as a key name and does nothing further, and no other
//! handler performs any work.

use vstd::prelude::*;

verus! {

/// A usage error: the command line could not be resolved to a subcommand, or
/// a subcommand received the wrong number of positional arguments.
#[derive(Debug, Clone, Copy, PartialEq, Eq)]
pub enum UsageError {
    /// The command line held no subcommand name at all.
    MissingSubcommand,
    /// The first token names no subcommand that the dispatcher knows.
    UnknownSubcommand,
    /// A subcommand received the wrong number of positional arguments.
    InvalidArgumentCount,
}

/// The views of a sequence of strings, one character sequence per token.
pub open spec fn arg_views(args: Seq<String>) -> Seq<Seq<char>> {
    args.map_values(|s: String| s@)
}

/// The positional (free) tokens of an argument list: every token except the
/// help flag `--help`.
pub open spec fn free_tokens(args: Seq<Seq<char>>) -> Seq<Seq<char>>
    decreases args.len(),
{
    if args.len() == 0 {
        Seq::empty()
    } else if args.last() == "--help"@ {
        free_tokens(args.drop_last())
    } else {
        free_tokens(args.drop_last()).push(args.last())
    }
}

/// Whether an argument list carries the help flag `--help`.
pub open spec fn wants_help(args: Seq<Seq<char>>) -> bool
    decreases args.len(),
{
    args.len() != 0 && (args.last() == "--help"@ || wants_help(args.drop_last()))
}

/// The `balance` subcommand: `eth balance <key-name>`.
///
/// It requires exactly one positional token, the key name. The handler is a
/// stub: it captures the key name and performs no lookup.
#[derive(Debug)]
pub struct Balance {
    free: Vec<String>,
    help: bool,
}

impl Balance {
    /// The positional tokens this command was built with.
    pub closed spec fn free_args(&self) -> Seq<Seq<char>> {
        arg_views(self.free@)
    }

    /// Whether the help flag was given.
    pub closed spec fn help_flag(&self) -> bool {
        self.help
    }

    /// Builds a `balance` command from already separated positional tokens
    /// and help flag.
    pub fn new(free: Vec<String>, help: bool) -> (cmd: Balance)
        ensures
            cmd.free_args() == arg_views(free@),
            cmd.help_flag() == help,
    {
        Balance { free, help }
    }

    /// Whether the help flag was given, as an executable query.
    pub fn help_requested(&self) -> (h: bool)
        ensures
            h == self.help_flag(),
    {
        self.help
    }

    /// Validates the argument count: `balance` takes exactly one positional
    /// token. Returns `Ok` exactly on the argument lists that `run` accepts;
    /// on any other count the usage is invalid and the caller must not run
    /// the command.
    pub fn check_usage(&self) -> (r: Result<(), UsageError>)
        ensures
            r is Ok <==> self.free_args().len() == 1,
            r is Err ==> r == Err::<(), UsageError>(UsageError::InvalidArgumentCount),
    {
        if self.free.len() == 1 {
            Ok(())
        } else {
            Err(UsageError::InvalidArgumentCount)
        }
    }

    /// Runs the `balance` command. Accepts every command with exactly one
    /// positional token and captures that token as the key name, which it
    /// returns; no balance lookup follows, as the handler is a stub. A
    /// command with any other number of positional tokens is outside this
    /// function's contract: callers reject it first (see `check_usage`), and
    /// the command-line front end treats such usage as a fatal error.
    pub fn run(&self) -> (key_name: String)
        requires
            self.free_args().len() == 1,
        ensures
            key_name@ == self.free_args()[0],
    {
        let key_name = self.free[0].clone();
        key_name
    }
}

/// The `eth` query subcommands. `balance` is the only subcommand wired into
/// the dispatcher.
#[derive(Debug)]
pub enum Eth {
    /// `eth balance <key-name>`: query the balance held under a key name.
    Balance(Balance),
}

impl Eth {
    /// Resolves a raw command line to an `eth` subcommand.
    ///
    /// The first token names the subcommand; of the remaining tokens,
    /// `--help` sets the help flag and every other token is collected, in
    /// order, as a positional argument. An empty command line is missing its
    /// subcommand, and a first token other than `balance` names no known
    /// subcommand: `contract` in particular has no dispatch path (see
    /// [`Contract`]) and is rejected as unknown.
    pub fn dispatch(args: &Vec<String>) -> (result: Result<Eth, UsageError>)
        ensures
            result is Ok <==> (args@.len() >= 1 && args@[0]@ == "balance"@),
            (result matches Ok(cmd) ==> (cmd matches Eth::Balance(b)
                && b.free_args() == free_tokens(arg_views(args@).skip(1))
                && b.help_flag() == wants_help(arg_views(args@).skip(1)))),
            args@.len() == 0 ==> result == Err::<Eth, UsageError>(
                UsageError::MissingSubcommand,
            ),
            (args@.len() >= 1 && args@[0]@ != "balance"@) ==> result == Err::<Eth, UsageError>(
                UsageError::UnknownSubcommand,
            ),
    {
        if args.len() == 0 {
            return Err(UsageError::MissingSubcommand);
        }
        let balance_name: String = "balance".to_owned();
        if args[0] == balance_name {
            let n: usize = args.len();
            let mut free: Vec<String> = Vec::new();
            let mut help: bool = false;
            let help_name: String = "--help".to_owned();
            let ghost rest: Seq<Seq<char>> = arg_views(args@).skip(1);
            proof {
                assert(rest.take(0) =~= Seq::<Seq<char>>::empty());
                assert(arg_views(free@) =~= free_tokens(rest.take(0)));
            }
            let mut i: usize = 1;
            while i < n
                invariant
                    1 <= i <= n,
                    n == args@.len(),
                    help_name@ == "--help"@,
                    rest == arg_views(args@).skip(1),
                    arg_views(free@) == free_tokens(rest.take(i as int - 1)),
                    help == wants_help(rest.take(i as int - 1)),
                decreases n - i,
            {
                proof {
                    assert(rest.len() == n - 1);
                    assert(rest[i as int - 1] == arg_views(args@)[i as int]);
                    assert(rest[i as int - 1] == args@[i as int]@);
                    assert(rest.take(i as int).drop_last() =~= rest.take(i as int - 1));
                    assert(rest.take(i as int).last() == rest[i as int - 1]);
                }
                let ghost prev_free = arg_views(free@);
                if args[i] == help_name {
                    help = true;
                    proof {
                        assert(free_tokens(rest.take(i as int)) == free_tokens(
                            rest.take(i as int - 1),
                        ));
                        assert(wants_help(rest.take(i as int)));
                    }
                } else {
                    free.push(args[i].clone());
                    proof {
                        assert(arg_views(free@) =~= prev_free.push(args@[i as int]@));
                        assert(free_tokens(rest.take(i as int)) == free_tokens(
                            rest.take(i as int - 1),
                        ).push(rest[i as int - 1]));
                        assert(wants_help(rest.take(i as int)) == wants_help(
                            rest.take(i as int - 1),
                        ));
                    }
                }
                i = i + 1;
            }
            proof {
                assert(rest.take(n as int - 1) =~= rest);
            }
            Ok(Eth::Balance(Balance::new(free, help)))
        } else {
            Err(UsageError::UnknownSubcommand)
        }
    }

    /// Runs the selected subcommand. Intentionally inert: in the current
    /// stub no subcommand's work is performed here, so this call has no
    /// observable effect for any value of `self`.
    pub fn run(&self) {
    }
}

/// The `contract` subcommand's argument set, declared with the same shape as
/// [`Balance`] but not wired into [`Eth`]: no variant of the dispatch enum
/// carries it, so `eth contract ...` is rejected by [`Eth::dispatch`] as an
/// unknown subcommand. Whether it should become a second variant is an open
/// design question; until it is settled the type stays declared and inert.
#[derive(Debug)]
pub struct Contract {
    free: Vec<String>,
    help: bool,
}

impl Contract {
    /// The positional tokens this command was built with.
    pub closed spec fn free_args(&self) -> Seq<Seq<char>> {
        arg_views(self.free@)
    }

    /// Whether the help flag was given.
    pub closed spec fn help_flag(&self) -> bool {
        self.help
    }

    /// Builds a `contract` command from already separated positional tokens
    /// and help flag.
    pub fn new(free: Vec<String>, help: bool) -> (cmd: Contract)
        ensures
            cmd.free_args() == arg_views(free@),
            cmd.help_flag() == help,
    {
        Contract { free, help }
    }

    /// Runs the `contract` command. Intentionally inert: the handler is an
    /// empty stub, so this call has no observable effect for any value of
    /// `self`.
    pub fn run(&self) {
    }
}

} // verus!
