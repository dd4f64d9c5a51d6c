//! Global option handling: what the external argument tokenizer hands
//! over, and the verified rules that turn it into a chosen platform and
//! its trailing arguments, or into one of the reportable outcomes.

use crate::platform::MachineError;
use crate::registry::{find_platform_by_name, PlatformKind};
use crate::strutil::str_eq;
use vstd::prelude::*;

verus! {

/// What the argument tokenizer hands over: the free (non-option)
/// arguments in order of occurrence, and whether each global flag was
/// present.
pub struct GlobalArgs {
    pub free: Vec<String>,
    pub help: bool,
    pub version: bool,
}

/// Outcomes of global option handling that end the run before any machine
/// is constructed. The informational ones exit with code 0, the
/// user-input errors with code 1.
#[derive(Debug)]
pub enum ParseError {
    /// Help was requested; print the usage line.
    Help,
    /// The version number was requested.
    Ver,
    /// No platform name was given.
    NoPlatform,
    /// The catalog sentinel `?` was given; list the registered platforms.
    PrintPlatforms,
    /// The tokenizer rejected the options; the payload is its rendered
    /// message.
    OptsErr(String),
    /// The named option's value matches nothing known; the payload is the
    /// option's name and the value given for it.
    UnknownArgument(&'static str, String),
}

impl ParseError {
    /// The process exit code this outcome calls for: 0 for the
    /// informational outcomes (help, version, catalog), 1 for the
    /// user-input errors.
    pub open spec fn spec_exit_code(&self) -> i32 {
        match self {
            ParseError::Help => 0,
            ParseError::Ver => 0,
            ParseError::PrintPlatforms => 0,
            ParseError::NoPlatform => 1,
            ParseError::OptsErr(_) => 1,
            ParseError::UnknownArgument(_, _) => 1,
        }
    }

    /// The process exit code this outcome calls for.
    pub fn exit_code(&self) -> (r: i32)
        ensures
            r == self.spec_exit_code(),
    {
        match self {
            ParseError::Help => 0,
            ParseError::Ver => 0,
            ParseError::PrintPlatforms => 0,
            ParseError::NoPlatform => 1,
            ParseError::OptsErr(_) => 1,
            ParseError::UnknownArgument(_, _) => 1,
        }
    }
}

/// Every machine-level error ends the run with exit code 1.
pub fn machine_error_exit_code(err: &MachineError) -> (r: i32)
    ensures
        r == 1i32,
{
    match err {
        MachineError::Io => 1,
        MachineError::InvalidArgs => 1,
        MachineError::System(_) => 1,
    }
}

/// The options chosen on the command line: the platform to construct.
pub struct AniOptions {
    pub platform: Option<PlatformKind>,
}

impl Default for AniOptions {
    /// No platform chosen yet.
    fn default() -> (r: AniOptions)
        ensures
            r.platform is None,
    {
        AniOptions { platform: None }
    }
}

/// A platform must have been chosen; fails with `NoPlatform` otherwise.
pub fn validate_options(ani_options: &AniOptions) -> (r: Result<(), ParseError>)
    ensures
        ani_options.platform is Some ==> r == Ok::<(), ParseError>(()),
        ani_options.platform is None ==> r == Err::<(), ParseError>(ParseError::NoPlatform),
{
    match ani_options.platform {
        Some(_) => Ok(()),
        None => Err(ParseError::NoPlatform),
    }
}

/// The split the argument tokenizer computes for a given argument vector:
/// either the free (non-option) arguments with the two global flags, or
/// the rendered message of the rejection. The split is a function of the
/// argument characters alone.
pub uninterp spec fn tokenized_of(args: Seq<Seq<char>>) -> Result<
    (Seq<Seq<char>>, bool, bool),
    Seq<char>,
>;

/// Relies on getopts: `Options::optflag` to declare the `-H`/`--help` and
/// `-v`/`--version` global flags, `Options::parse` to split the arguments
/// after the program name into matched flags and free arguments,
/// `Matches::opt_present` for each flag, and `Matches::free`; a rejected
/// option comes back as getopts' rendered message. The split's content is
/// getopts' own rule, named `tokenized_of`; nothing more is assumed of it.
#[verifier::external_body]
fn tokenize_global_options(args: &Vec<String>) -> (r: Result<GlobalArgs, String>)
    requires
        args@.len() >= 1,
    ensures
        (match r {
            Ok(g) => tokenized_of(args.deep_view()) == Ok::<
                (Seq<Seq<char>>, bool, bool),
                Seq<char>,
            >((g.free.deep_view(), g.help, g.version)),
            Err(m) => tokenized_of(args.deep_view()) == Err::<
                (Seq<Seq<char>>, bool, bool),
                Seq<char>,
            >(m@),
        }),
{
    let mut opts = getopts::Options::new();
    opts.optflag("H", "help", "Display this information");
    opts.optflag("v", "version", "Display the version number of ani");
    match opts.parse(&args[1..]) {
        Ok(m) => {
            let help = m.opt_present("help");
            let version = m.opt_present("version");
            Ok(GlobalArgs { free: m.free, help, version })
        },
        Err(fail) => Err(format!("{}", fail)),
    }
}

/// The verified rules on the tokenizer's output: the first free argument
/// names the platform (with `?` requesting the catalog), the global flags
/// come next in precedence, and the remaining free arguments are handed
/// on to the platform's factory.
pub fn interpret_matches(free: &Vec<String>, help: bool, version: bool) -> (r: Result<
    (Vec<String>, AniOptions),
    ParseError,
>)
    ensures
        free@.len() == 0 ==> r == Err::<(Vec<String>, AniOptions), ParseError>(
            ParseError::NoPlatform,
        ),
        free@.len() > 0 && free@[0]@ == "?"@ ==> r == Err::<(Vec<String>, AniOptions), ParseError>(
            ParseError::PrintPlatforms,
        ),
        free@.len() > 0 && free@[0]@ != "?"@ && (forall|p: PlatformKind|
            free@[0]@ != #[trigger] p.spec_short_name()) ==> (r matches Err(
            ParseError::UnknownArgument(opt, value),
        ) && opt@ == "PLATFORM"@ && value@ == free@[0]@),
        free@.len() > 0 && (exists|p: PlatformKind|
            free@[0]@ == #[trigger] p.spec_short_name()) && help ==> r == Err::<
            (Vec<String>, AniOptions),
            ParseError,
        >(ParseError::Help),
        free@.len() > 0 && (exists|p: PlatformKind|
            free@[0]@ == #[trigger] p.spec_short_name()) && !help && version ==> r == Err::<
            (Vec<String>, AniOptions),
            ParseError,
        >(ParseError::Ver),
        free@.len() > 0 && (exists|p: PlatformKind|
            free@[0]@ == #[trigger] p.spec_short_name()) && !help && !version ==> r is Ok,
        r matches Ok((rest, opts)) ==> {
            &&& free@.len() > 0
            &&& opts.platform matches Some(p) && free@[0]@ == p.spec_short_name()
            &&& rest@ == free@.skip(1)
            &&& !help
            &&& !version
        },
{
    proof {
        reveal_strlit("?");
        reveal_strlit("malta");
        reveal_strlit("sys161");
    }
    if free.len() == 0 {
        return Err(ParseError::NoPlatform);
    }
    let first: &String = &free[0];
    if str_eq(first.as_str(), "?") {
        proof {
            assert forall|p: PlatformKind| "?"@ != #[trigger] p.spec_short_name() by {
                match p {
                    PlatformKind::Malta => {
                        assert(p.spec_short_name() == "malta"@);
                        assert("?"@.len() == 1 && "malta"@.len() == 5);
                    },
                    PlatformKind::Sys161 => {
                        assert(p.spec_short_name() == "sys161"@);
                        assert("?"@.len() == 1 && "sys161"@.len() == 6);
                    },
                }
            }
        }
        return Err(ParseError::PrintPlatforms);
    }
    let platform = match find_platform_by_name(first.as_str()) {
        Some(p) => p,
        None => {
            return Err(ParseError::UnknownArgument("PLATFORM", first.clone()));
        },
    };
    if help {
        return Err(ParseError::Help);
    }
    if version {
        return Err(ParseError::Ver);
    }
    let ani_opts = AniOptions { platform: Some(platform) };
    match validate_options(&ani_opts) {
        Ok(()) => {},
        Err(e) => {
            return Err(e);
        },
    }
    let mut rest: Vec<String> = Vec::new();
    proof {
        assert(rest@ =~= free@.subrange(1, 1));
    }
    let mut i: usize = 1;
    while i < free.len()
        invariant
            1 <= i <= free@.len(),
            rest@ == free@.subrange(1, i as int),
        decreases free@.len() - i,
    {
        rest.push(free[i].clone());
        proof {
            assert(free@.subrange(1, i as int).push(free@[i as int]) =~= free@.subrange(
                1,
                i as int + 1,
            ));
        }
        i += 1;
    }
    proof {
        assert(rest@ =~= free@.skip(1));
    }
    Ok((rest, ani_opts))
}

/// What global option handling owes once the tokenizer has produced the
/// split `(free, help, version)`: the rules of `interpret_matches`,
/// stated over the argument characters.
pub open spec fn interpretation_of(
    free: Seq<Seq<char>>,
    help: bool,
    version: bool,
    r: Result<(Vec<String>, AniOptions), ParseError>,
) -> bool {
    &&& free.len() == 0 ==> r == Err::<(Vec<String>, AniOptions), ParseError>(
        ParseError::NoPlatform,
    )
    &&& free.len() > 0 && free[0] == "?"@ ==> r == Err::<(Vec<String>, AniOptions), ParseError>(
        ParseError::PrintPlatforms,
    )
    &&& free.len() > 0 && free[0] != "?"@ && (forall|p: PlatformKind|
        free[0] != #[trigger] p.spec_short_name()) ==> (r matches Err(
        ParseError::UnknownArgument(opt, value),
    ) && opt@ == "PLATFORM"@ && value@ == free[0])
    &&& free.len() > 0 && (exists|p: PlatformKind| free[0] == #[trigger] p.spec_short_name())
        && help ==> r == Err::<(Vec<String>, AniOptions), ParseError>(ParseError::Help)
    &&& free.len() > 0 && (exists|p: PlatformKind| free[0] == #[trigger] p.spec_short_name())
        && !help && version ==> r == Err::<(Vec<String>, AniOptions), ParseError>(ParseError::Ver)
    &&& free.len() > 0 && (exists|p: PlatformKind| free[0] == #[trigger] p.spec_short_name())
        && !help && !version ==> (r matches Ok(split) && split.1.platform matches Some(p)
        && free[0] == p.spec_short_name() && split.0.deep_view() == free.skip(1))
}

/// Global option parsing: hands the raw arguments (program name first) to
/// the external tokenizer and applies the verified interpretation rules
/// to whatever it returns: a rejection becomes `OptsErr` of the rendered
/// message, and a split is interpreted by the rules of
/// `interpret_matches`. On success the chosen platform and the trailing
/// arguments for its factory come back.
pub fn parse_options(args: &Vec<String>) -> (r: Result<(Vec<String>, AniOptions), ParseError>)
    requires
        args@.len() >= 1,
    ensures
        (tokenized_of(args.deep_view()) matches Err(message) ==> (r matches Err(
            ParseError::OptsErr(m),
        ) && m@ == message)),
        (tokenized_of(args.deep_view()) matches Ok(split) ==> interpretation_of(
            split.0,
            split.1,
            split.2,
            r,
        )),
        r matches Ok(rest_opts) ==> rest_opts.1.platform is Some,
{
    match tokenize_global_options(args) {
        Err(message) => Err(ParseError::OptsErr(message)),
        Ok(global) => {
            let result = interpret_matches(&global.free, global.help, global.version);
            proof {
                let fdv = global.free.deep_view();
                assert(fdv.len() == global.free@.len());
                assert forall|i: int| 0 <= i < fdv.len() implies fdv[i] == global.free@[i]@ by {}
                if result is Ok {
                    let rest = result->Ok_0.0;
                    assert(rest@ == global.free@.skip(1));
                    assert forall|i: int|
                        0 <= i < rest.deep_view().len() implies rest.deep_view()[i] == fdv.skip(
                        1,
                    )[i] by {
                        assert(rest.deep_view()[i] == rest@[i]@);
                        assert(rest@[i] == global.free@.skip(1)[i]);
                        assert(global.free@.skip(1)[i] == global.free@[i + 1]);
                        assert(fdv.skip(1)[i] == fdv[i + 1]);
                    }
                    assert(rest.deep_view() =~= fdv.skip(1));
                }
            }
            result
        },
    }
}

} // verus!
