//! Command-line parsing: `--full`/`-f`, `--backend auto|portal`,
//! `--help`/`-h`; an unknown argument is collected as a warning and
//! ignored, a missing or invalid backend value stops the run.
use vstd::prelude::*;

use crate::backend::{backend_of_str, views_of, Backend};
use crate::text::str_eq;

verus! {

/// How a run starts, as decided by the command line alone.
#[derive(Debug, PartialEq, Eq)]
pub enum CliOutcome {
    Run { fullscreen: bool, backend_override: Option<Backend> },
    Help,
    MissingBackendValue,
    InvalidBackend { value: String },
}

/// The parsed command line: the outcome, and the unknown arguments seen
/// before it was decided, in order, for warning messages.
#[derive(Debug)]
pub struct ParsedArgs {
    pub outcome: CliOutcome,
    pub unknown: Vec<String>,
}

/// The mathematical form of a `CliOutcome`.
#[verifier::ext_equal]
pub enum SpecCliOutcome {
    Run { fullscreen: bool, backend_override: Option<Backend> },
    Help,
    MissingBackendValue,
    InvalidBackend { value: Seq<char> },
}

/// The mathematical form of a `ParsedArgs`.
#[verifier::ext_equal]
pub struct SpecParsedArgs {
    pub outcome: SpecCliOutcome,
    pub unknown: Seq<Seq<char>>,
}

pub open spec fn outcome_view(o: CliOutcome) -> SpecCliOutcome {
    match o {
        CliOutcome::Run { fullscreen, backend_override } => SpecCliOutcome::Run {
            fullscreen,
            backend_override,
        },
        CliOutcome::Help => SpecCliOutcome::Help,
        CliOutcome::MissingBackendValue => SpecCliOutcome::MissingBackendValue,
        CliOutcome::InvalidBackend { value } => SpecCliOutcome::InvalidBackend { value: value@ },
    }
}

pub open spec fn parsed_view(p: ParsedArgs) -> SpecParsedArgs {
    SpecParsedArgs { outcome: outcome_view(p.outcome), unknown: views_of(p.unknown@) }
}

/// Parsing from position `i` on, with the flags gathered so far. The first
/// terminal argument (`--help`, a missing or invalid `--backend` value)
/// decides the outcome; otherwise every argument is consumed and the run
/// proceeds with the gathered flags.
pub open spec fn parse_from(
    args: Seq<Seq<char>>,
    i: int,
    fullscreen: bool,
    ovr: Option<Backend>,
) -> SpecParsedArgs
    decreases args.len() - i,
{
    if i < 0 || i >= args.len() {
        SpecParsedArgs {
            outcome: SpecCliOutcome::Run { fullscreen, backend_override: ovr },
            unknown: Seq::empty(),
        }
    } else {
        let a = args[i];
        if a == "--full"@ || a == "-f"@ {
            parse_from(args, i + 1, true, ovr)
        } else if a == "--backend"@ {
            if i + 1 >= args.len() {
                SpecParsedArgs {
                    outcome: SpecCliOutcome::MissingBackendValue,
                    unknown: Seq::empty(),
                }
            } else {
                match backend_of_str(args[i + 1]) {
                    Option::Some(b) => parse_from(args, i + 2, fullscreen, Option::Some(b)),
                    Option::None => SpecParsedArgs {
                        outcome: SpecCliOutcome::InvalidBackend { value: args[i + 1] },
                        unknown: Seq::empty(),
                    },
                }
            }
        } else if a == "--help"@ || a == "-h"@ {
            SpecParsedArgs { outcome: SpecCliOutcome::Help, unknown: Seq::empty() }
        } else {
            let rest = parse_from(args, i + 1, fullscreen, ovr);
            SpecParsedArgs { outcome: rest.outcome, unknown: seq![a] + rest.unknown }
        }
    }
}

/// What the whole command line (argument 0 being the program name) parses
/// to.
pub open spec fn parse_spec(args: Seq<Seq<char>>) -> SpecParsedArgs {
    parse_from(args, 1, false, Option::None)
}

pub open spec fn prepend_unknown(u: Seq<Seq<char>>, p: SpecParsedArgs) -> SpecParsedArgs {
    SpecParsedArgs { outcome: p.outcome, unknown: u + p.unknown }
}

pub fn parse_args(args: &Vec<String>) -> (r: ParsedArgs)
    ensures
        parsed_view(r) == parse_spec(views_of(args@)),
{
    let ghost av = views_of(args@);
    let n = args.len();
    let mut fullscreen = false;
    let mut ovr: Option<Backend> = Option::None;
    let mut unknown: Vec<String> = Vec::new();
    let mut i: usize = 1;
    proof {
        assert(Seq::<Seq<char>>::empty() + parse_from(av, 1, false, Option::None).unknown
            =~= parse_from(av, 1, false, Option::None).unknown);
        assert(views_of(unknown@) =~~= Seq::<Seq<char>>::empty());
        assert(parse_spec(av) =~~= prepend_unknown(
            views_of(unknown@),
            parse_from(av, 1, false, Option::None),
        ));
    }
    while i < n
        invariant
            n == args@.len(),
            av == views_of(args@),
            1 <= i,
            parse_spec(av) == prepend_unknown(
                views_of(unknown@),
                parse_from(av, i as int, fullscreen, ovr),
            ),
        decreases n - i,
    {
        proof {
            assert(av[i as int] == args@[i as int]@);
        }
        let a = &args[i];
        if str_eq(a.as_str(), "--full") || str_eq(a.as_str(), "-f") {
            fullscreen = true;
            i += 1;
        } else if str_eq(a.as_str(), "--backend") {
            if i + 1 >= n {
                proof {
                    assert(views_of(unknown@) + Seq::<Seq<char>>::empty() =~= views_of(unknown@));
                }
                return ParsedArgs { outcome: CliOutcome::MissingBackendValue, unknown };
            }
            proof {
                assert(av[i + 1] == args@[i + 1]@);
            }
            let value = &args[i + 1];
            match Backend::from_str(value.as_str()) {
                Option::Some(parsed) => {
                    ovr = Option::Some(parsed);
                    i += 2;
                },
                Option::None => {
                    proof {
                        assert(views_of(unknown@) + Seq::<Seq<char>>::empty() =~= views_of(
                            unknown@,
                        ));
                    }
                    return ParsedArgs {
                        outcome: CliOutcome::InvalidBackend { value: value.clone() },
                        unknown,
                    };
                },
            }
        } else if str_eq(a.as_str(), "--help") || str_eq(a.as_str(), "-h") {
            proof {
                assert(views_of(unknown@) + Seq::<Seq<char>>::empty() =~= views_of(unknown@));
            }
            return ParsedArgs { outcome: CliOutcome::Help, unknown };
        } else {
            let ghost rest = parse_from(av, i + 1, fullscreen, ovr);
            proof {
                assert(views_of(unknown@.push(*a)) =~~= views_of(unknown@).push(a@));
                assert(views_of(unknown@) + (seq![a@] + rest.unknown) =~= views_of(
                    unknown@,
                ).push(a@) + rest.unknown);
            }
            unknown.push(a.clone());
            i += 1;
        }
    }
    proof {
        assert(views_of(unknown@) + Seq::<Seq<char>>::empty() =~= views_of(unknown@));
    }
    ParsedArgs { outcome: CliOutcome::Run { fullscreen, backend_override: ovr }, unknown }
}

} // verus!
