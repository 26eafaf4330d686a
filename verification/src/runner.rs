//! The command line: which arguments are flags, which one names the
//! module, and what the flags ask for.

use crate::errors::{Error, Result};
use crate::module::{options_of, too_many, ModuleOptions};
use crate::text::{bytes_of, has_prefix, lemma_boundary_after_ascii, listed, starts_with};
use vstd::prelude::*;
use vstd::string::{StringExecFns, StringSliceAdditionalSpecFns};
use vstd::utf8::{encode_utf8, encode_utf8_valid_utf8};

verus! {

/// What a command line asks for.
#[derive(Debug)]
pub enum Invocation {
    /// Print the help text and do nothing else.
    Help,
    /// Create the module at the path `module`.
    Create { module: String, options: ModuleOptions },
}

/// What can be wrong with a command line.
#[derive(Debug, Clone, Copy, PartialEq, Eq, Structural)]
pub enum ArgsProblem {
    /// There are no arguments at all.
    NoArguments,
    /// A flag is given twice.
    DuplicateOption,
    /// More than one argument is not a flag.
    SecondModule,
    /// There are more flags than there are recognized ones.
    UnknownFlags,
    /// Only flags are given, and help is not among them.
    NoModule,
}

impl ArgsProblem {
    /// The message shown to the user.
    pub open spec fn spec_message(self) -> Seq<char> {
        match self {
            ArgsProblem::NoArguments => "Incorrect number of arguments. Run `--help` for usage"@,
            ArgsProblem::DuplicateOption => "duplicate options specified"@,
            ArgsProblem::SecondModule => "expected one module name"@,
            ArgsProblem::UnknownFlags => "Unknown flags"@,
            ArgsProblem::NoModule =>
                "Expected module name. Only found options. Run `--help` for usage"@,
        }
    }

    /// The message shown to the user.
    pub fn message(self) -> (text: &'static str)
        ensures
            text@ == self.spec_message(),
    {
        match self {
            ArgsProblem::NoArguments => "Incorrect number of arguments. Run `--help` for usage",
            ArgsProblem::DuplicateOption => "duplicate options specified",
            ArgsProblem::SecondModule => "expected one module name",
            ArgsProblem::UnknownFlags => "Unknown flags",
            ArgsProblem::NoModule =>
                "Expected module name. Only found options. Run `--help` for usage",
        }
    }

    /// The error that reports the problem.
    pub fn into_error(self) -> (e: Error)
        ensures
            e matches Error::Other(text) && text@ == self.spec_message(),
    {
        Error::Other(String::from_str(self.message()))
    }
}

/// An argument is a flag when it starts with a dash.
pub open spec fn is_flag(arg: Seq<u8>) -> bool {
    starts_with(arg, "-".spec_bytes())
}

/// The token of a flag: what follows its two leading dashes, or its one.
pub open spec fn flag_token(arg: Seq<u8>) -> Seq<u8> {
    if starts_with(arg, "--".spec_bytes()) {
        arg.skip("--".spec_bytes().len() as int)
    } else {
        arg.skip("-".spec_bytes().len() as int)
    }
}

/// The tokens of the flags among `args`, in their order.
pub open spec fn flags_in(args: Seq<Seq<u8>>) -> Seq<Seq<u8>>
    decreases args.len(),
{
    if args.len() == 0 {
        seq![]
    } else if is_flag(args.last()) {
        flags_in(args.drop_last()).push(flag_token(args.last()))
    } else {
        flags_in(args.drop_last())
    }
}

/// The first of `args` that is not a flag.
pub open spec fn module_in(args: Seq<Seq<u8>>) -> Option<Seq<u8>>
    decreases args.len(),
{
    if args.len() == 0 {
        None
    } else if module_in(args.drop_last()) is Some {
        module_in(args.drop_last())
    } else if is_flag(args.last()) {
        None
    } else {
        Some(args.last())
    }
}

/// The argument at `k` clashes with one before it: it is a flag whose token
/// an earlier flag has, or a second argument that is not a flag.
pub open spec fn conflict_at(args: Seq<Seq<u8>>, k: int) -> bool {
    &&& 0 <= k < args.len()
    &&& if is_flag(args[k]) {
        flags_in(args.take(k)).contains(flag_token(args[k]))
    } else {
        module_in(args.take(k)) is Some
    }
}

/// `k` is the first argument that clashes with one before it.
pub open spec fn is_first_conflict(args: Seq<Seq<u8>>, k: int) -> bool {
    conflict_at(args, k) && forall|j: int| 0 <= j < k ==> !conflict_at(args, j)
}

/// What is wrong with the command line, if anything. The arguments are
/// read from the left, and the first clash is reported; only then are the
/// flags counted. With the help flag no module is needed.
pub open spec fn args_problem(args: Seq<Seq<u8>>) -> Option<ArgsProblem> {
    if args.len() == 0 {
        Some(ArgsProblem::NoArguments)
    } else if exists|k: int| conflict_at(args, k) {
        if is_flag(args[choose|k: int| is_first_conflict(args, k)]) {
            Some(ArgsProblem::DuplicateOption)
        } else {
            Some(ArgsProblem::SecondModule)
        }
    } else if too_many(flags_in(args)) {
        Some(ArgsProblem::UnknownFlags)
    } else if !options_of(flags_in(args)).is_help && module_in(args) is None {
        Some(ArgsProblem::NoModule)
    } else {
        None
    }
}

/// The byte sequences of a list of owned strings.
pub open spec fn args_bytes(args: Seq<String>) -> Seq<Seq<u8>> {
    Seq::new(args.len(), |i: int| encode_utf8(args[i]@))
}

/// A dash is one byte, two dashes are two.
proof fn lemma_dashes()
    ensures
        "-".spec_bytes() == seq!['-' as u8],
        "--".spec_bytes() == seq!['-' as u8, '-' as u8],
{
    reveal_strlit("-");
    reveal_strlit("--");
    vstd::string::is_ascii_spec_bytes("-");
    vstd::string::is_ascii_spec_bytes("--");
}

/// The token of the flag `arg`.
fn strip_dashes<'a>(arg: &'a str) -> (token: &'a str)
    requires
        is_flag(arg.spec_bytes()),
    ensures
        token.spec_bytes() == flag_token(arg.spec_bytes()),
{
    let bytes = arg.as_bytes();
    proof {
        lemma_dashes();
        encode_utf8_valid_utf8(arg@);
        assert(bytes@[0] == "-".spec_bytes()[0]);
        lemma_boundary_after_ascii(bytes@, 0);
    }
    if has_prefix(bytes, "--".as_bytes()) {
        proof {
            lemma_boundary_after_ascii(bytes@, 1);
        }
        let (_, token) = arg.split_at(2);
        token
    } else {
        let (_, token) = arg.split_at(1);
        token
    }
}

/// Reads the command line: the flags, by their tokens, and the one
/// argument that names the module.
pub fn parse_args(args: &[String]) -> (r: Result<Invocation>)
    ensures
        match args_problem(args_bytes(args@)) {
            Some(problem) => r matches Err(Error::Other(text)) && text@
                == problem.spec_message(),
            None => if options_of(flags_in(args_bytes(args@))).is_help {
                r matches Ok(Invocation::Help)
            } else {
                r matches Ok(Invocation::Create { module, options }) && options == options_of(
                    flags_in(args_bytes(args@)),
                ) && Some(encode_utf8(module@)) == module_in(args_bytes(args@))
            },
        },
{
    if args.len() == 0 {
        return Err(ArgsProblem::NoArguments.into_error());
    }
    let ghost all = args_bytes(args@);
    // process module options
    let mut flags: Vec<&str> = Vec::new();
    let mut module: Option<&str> = None;
    let mut i: usize = 0;
    while i < args.len()
        invariant
            i <= args.len(),
            all == args_bytes(args@),
            bytes_of(flags@) == flags_in(all.take(i as int)),
            match module {
                Some(name) => module_in(all.take(i as int)) == Some(name.spec_bytes()),
                None => module_in(all.take(i as int)) is None,
            },
            forall|j: int| 0 <= j < i ==> !conflict_at(all, j),
        decreases args.len() - i,
    {
        let arg = args[i].as_str();
        proof {
            assert(all.take(i + 1).drop_last() =~= all.take(i as int));
        }
        if has_prefix(arg.as_bytes(), "-".as_bytes()) {
            let token = strip_dashes(arg);
            if listed(flags.as_slice(), token) {
                proof {
                    lemma_first_conflict(all, i as int);
                }
                return Err(ArgsProblem::DuplicateOption.into_error());
            }
            flags.push(token);
        } else if module.is_none() {
            module = Some(arg);
        } else {
            proof {
                lemma_first_conflict(all, i as int);
            }
            return Err(ArgsProblem::SecondModule.into_error());
        }
        i += 1;
    }
    assert(all.take(i as int) =~= all);
    let mut modoption = ModuleOptions::default();
    match modoption.process_options(flags.as_slice()) {
        Ok(()) => {},
        Err(e) => {
            return Err(e);
        },
    }
    // handle help message case
    if modoption.is_help {
        return Ok(Invocation::Help);
    }
    match module {
        // all options; no module? that's broken
        None => Err(ArgsProblem::NoModule.into_error()),
        Some(name) => Ok(Invocation::Create { module: String::from_str(name), options: modoption }),
    }
}

/// A clash that no clash precedes is the one that is reported.
proof fn lemma_first_conflict(args: Seq<Seq<u8>>, k: int)
    requires
        is_first_conflict(args, k),
    ensures
        exists|j: int| conflict_at(args, j),
        (choose|j: int| is_first_conflict(args, j)) == k,
{
}

} // verus!
