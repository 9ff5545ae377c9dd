//! Configuration and the command-line grammar.
//!
//! The grammar over raw argument tokens (the program name already removed):
//! `-n` or `--number` sets `number`, `-b` or `--number-nonblank` sets
//! `number_nonblank`; the bare token `-` and any token not starting with `-`
//! name an input, `-` standing for standard input; any other token starting
//! with `-` is rejected.  When no input is named, the input list defaults to
//! standard input alone.

use vstd::prelude::*;
use vstd::string::StrSliceExecFns;
use vstd::string::StringExecFns;

verus! {

/// The run's configuration: the inputs to concatenate, in order, and the
/// two numbering flags.
#[derive(Debug)]
pub struct Config {
    /// The inputs, each a file path or `-` for standard input.
    pub files: Vec<String>,
    /// Number every line.
    pub number: bool,
    /// Number only nonblank lines; blank lines leave the counter untouched.
    pub number_nonblank: bool,
}

/// An argument token that the grammar rejects.
#[derive(Debug)]
pub struct ConfigError {
    /// The offending token.
    pub arg: String,
}

/// A token that sets the `number` flag.
pub open spec fn is_number_flag(a: Seq<char>) -> bool {
    a == "-n"@ || a == "--number"@
}

/// A token that sets the `number_nonblank` flag.
pub open spec fn is_nonblank_flag(a: Seq<char>) -> bool {
    a == "-b"@ || a == "--number-nonblank"@
}

/// A token naming an input: empty, not starting with `-`, or the bare `-`.
pub open spec fn is_file_arg(a: Seq<char>) -> bool {
    a.len() == 0 || a[0] != '-' || a == "-"@
}

/// A token the grammar rejects: it looks like a flag but is none.
pub open spec fn is_unknown_arg(a: Seq<char>) -> bool {
    !is_number_flag(a) && !is_nonblank_flag(a) && !is_file_arg(a)
}

/// The input-naming tokens of `args`, in order.
pub open spec fn file_args(args: Seq<Seq<char>>) -> Seq<Seq<char>>
    decreases args.len(),
{
    if args.len() == 0 {
        Seq::empty()
    } else {
        let rest = file_args(args.drop_last());
        if is_file_arg(args.last()) {
            rest.push(args.last())
        } else {
            rest
        }
    }
}

/// The input list a well-formed argument sequence yields: its file tokens,
/// or standard input alone when it names none.
pub open spec fn files_of(args: Seq<Seq<char>>) -> Seq<Seq<char>> {
    if file_args(args).len() == 0 {
        seq!["-"@]
    } else {
        file_args(args)
    }
}

proof fn lemma_flag_tokens_distinct()
    ensures
        "-n"@ != "-b"@,
        "-n"@ != "--number-nonblank"@,
        "--number"@ != "-b"@,
        "--number"@ != "--number-nonblank"@,
        !is_file_arg("-n"@),
        !is_file_arg("--number"@),
        !is_file_arg("-b"@),
        !is_file_arg("--number-nonblank"@),
{
    reveal_strlit("-n");
    reveal_strlit("--number");
    reveal_strlit("-b");
    reveal_strlit("--number-nonblank");
    reveal_strlit("-");
    assert("-n"@[0] == '-' && "-n"@[1] == 'n');
    assert("-b"@[0] == '-' && "-b"@[1] == 'b');
    assert("--number"@[0] == '-' && "--number-nonblank"@[0] == '-');
    assert("-"@.len() == 1);
    assert("-n"@.len() == 2 && "-b"@.len() == 2);
    assert("--number"@.len() == 8 && "--number-nonblank"@.len() == 17);
}

impl ConfigError {
    /// The diagnostic text for this error.
    pub fn message(&self) -> (r: String)
        ensures
            r@ == "invalid argument '"@ + self.arg@ + "'"@,
    {
        let mut s = String::from_str("invalid argument '");
        s.append(self.arg.as_str());
        s.append("'");
        s
    }
}

/// Builds the configuration from the raw argument tokens.  Fails exactly
/// when some token is neither a flag of the grammar nor an input name, and
/// then reports the first such token.
pub fn get_args(args: Vec<String>) -> (r: Result<Config, ConfigError>)
    ensures
        match r {
            Ok(config) => {
                &&& forall|i: int|
                    0 <= i < args.deep_view().len() ==> !is_unknown_arg(args.deep_view()[i])
                &&& config.number == exists|i: int|
                    0 <= i < args.deep_view().len() && is_number_flag(args.deep_view()[i])
                &&& config.number_nonblank == exists|i: int|
                    0 <= i < args.deep_view().len() && is_nonblank_flag(args.deep_view()[i])
                &&& config.files.deep_view() == files_of(args.deep_view())
            },
            Err(e) => exists|i: int|
                {
                    &&& 0 <= i < args.deep_view().len()
                    &&& is_unknown_arg(args.deep_view()[i])
                    &&& e.arg@ == args.deep_view()[i]
                    &&& forall|j: int| 0 <= j < i ==> !is_unknown_arg(args.deep_view()[j])
                },
        },
{
    let ghost adv = args.deep_view();
    let short_number = String::from_str("-n");
    let long_number = String::from_str("--number");
    let short_nonblank = String::from_str("-b");
    let long_nonblank = String::from_str("--number-nonblank");
    let mut files: Vec<String> = Vec::new();
    let mut number: bool = false;
    let mut number_nonblank: bool = false;
    let mut i: usize = 0;
    while i < args.len()
        invariant
            adv == args.deep_view(),
            adv.len() == args.len(),
            i <= args.len(),
            short_number@ == "-n"@,
            long_number@ == "--number"@,
            short_nonblank@ == "-b"@,
            long_nonblank@ == "--number-nonblank"@,
            forall|j: int| 0 <= j < i ==> !is_unknown_arg(adv[j]),
            number == exists|j: int| 0 <= j < i && is_number_flag(adv[j]),
            number_nonblank == exists|j: int| 0 <= j < i && is_nonblank_flag(adv[j]),
            files.deep_view() == file_args(adv.take(i as int)),
        decreases args.len() - i,
    {
        let arg = &args[i];
        proof {
            lemma_flag_tokens_distinct();
            assert(adv[i as int] == args@[i as int]@);
            assert(adv.take(i + 1).drop_last() =~= adv.take(i as int));
            assert(adv.take(i + 1).last() == adv[i as int]);
        }
        if *arg == short_number || *arg == long_number {
            number = true;
            proof {
                assert(is_number_flag(adv[i as int]));
                assert(!is_file_arg(adv[i as int]));
                assert(!is_nonblank_flag(adv[i as int]));
                assert(files.deep_view() == file_args(adv.take(i + 1)));
            }
        } else if *arg == short_nonblank || *arg == long_nonblank {
            number_nonblank = true;
            proof {
                assert(is_nonblank_flag(adv[i as int]));
                assert(!is_file_arg(adv[i as int]));
                assert(!is_number_flag(adv[i as int]));
                assert(files.deep_view() == file_args(adv.take(i + 1)));
            }
        } else {
            let len = arg.as_str().unicode_len();
            let named_input: bool = if len == 0 {
                true
            } else if arg.as_str().get_char(0) != '-' {
                true
            } else {
                len == 1
            };
            proof {
                reveal_strlit("-");
                if len == 1 && adv[i as int][0] == '-' {
                    assert(adv[i as int] =~= "-"@);
                }
                assert(named_input == is_file_arg(adv[i as int]));
            }
            if named_input {
                let ghost files_before = files.deep_view();
                files.push(arg.clone());
                proof {
                    assert(files.deep_view() =~= files_before.push(adv[i as int]));
                    assert(files.deep_view() == file_args(adv.take(i + 1)));
                }
            } else {
                proof {
                    assert(is_unknown_arg(adv[i as int]));
                }
                return Err(ConfigError { arg: arg.clone() });
            }
        }
        i = i + 1;
    }
    proof {
        assert(adv.take(args.len() as int) =~= adv);
    }
    if files.len() == 0 {
        files.push(String::from_str("-"));
        proof {
            assert(files.deep_view() =~= seq!["-"@]);
        }
    }
    Ok(Config { files, number, number_nonblank })
}

} // verus!
