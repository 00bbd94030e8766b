//! Selection of the run mode from the command-line arguments.

use vstd::prelude::*;

verus! {

/// The two ways the monitor can run.
#[derive(Debug, Clone, Copy, PartialEq, Eq, Structural)]
pub enum RunMode {
    /// Local terminal dashboard, no streaming.
    Ui,
    /// Websocket streaming server, no dashboard.
    Stream,
}

/// What `parse_mode` answers for the arguments that follow the program name.
pub open spec fn mode_for(args: Seq<Seq<char>>) -> Result<RunMode, Seq<char>> {
    if args.len() == 0 {
        Err("missing required mode argument"@)
    } else if args.len() > 1 {
        Err("only one argument is supported"@)
    } else if args[0] == "-u"@ {
        Ok(RunMode::Ui)
    } else if args[0] == "-s"@ {
        Ok(RunMode::Stream)
    } else if args[0] == "-h"@ || args[0] == "--help"@ {
        Err(Seq::empty())
    } else {
        Err("unknown argument: "@ + args[0])
    }
}

/// The view of a mode-or-message result.
pub open spec fn mode_result_view(r: Result<RunMode, String>) -> Result<RunMode, Seq<char>> {
    match r {
        Ok(m) => Ok(m),
        Err(e) => Err(e@),
    }
}

/// Picks the run mode from the arguments that follow the program name.
/// Exactly one argument is accepted: `-u` or `-s`. `-h`/`--help` gives an
/// empty message, so that the caller prints only the usage text.
pub fn parse_mode(args: &Vec<String>) -> (r: Result<RunMode, String>)
    ensures
        mode_result_view(r) == mode_for(args.deep_view()),
{
    proof {
        assert(args.deep_view().len() == args@.len());
    }
    if args.len() == 0 {
        return Err(String::from_str("missing required mode argument"));
    }
    if args.len() > 1 {
        return Err(String::from_str("only one argument is supported"));
    }
    let flag = &args[0];
    assert(flag@ == args.deep_view()[0]);
    if *flag == String::from_str("-u") {
        Ok(RunMode::Ui)
    } else if *flag == String::from_str("-s") {
        Ok(RunMode::Stream)
    } else if *flag == String::from_str("-h") || *flag == String::from_str("--help") {
        Err(String::new())
    } else {
        Err(String::from_str("unknown argument: ").concat(flag.as_str()))
    }
}

/// A mode is selected exactly when a single argument is given and it is
/// `-u` (the dashboard) or `-s` (the stream); every other argument list is
/// refused with a message.
pub proof fn law_single_flag_selects_mode(args: Seq<Seq<char>>)
    ensures
        mode_for(args) == Ok::<RunMode, Seq<char>>(RunMode::Ui) <==> args =~= seq!["-u"@],
        mode_for(args) == Ok::<RunMode, Seq<char>>(RunMode::Stream) <==> args =~= seq!["-s"@],
        mode_for(args) is Ok <==> (args.len() == 1 && (args[0] == "-u"@ || args[0] == "-s"@)),
{
    reveal_strlit("-s");
    reveal_strlit("-u");
    if args =~= seq!["-u"@] {
        assert(args[0] == "-u"@);
    }
    if args =~= seq!["-s"@] {
        assert(args[0] == "-s"@);
    }
    assert("-s"@[1] != "-u"@[1]);
}

/// Every refusal says why: no argument and more than one argument each
/// have their message, help asks for the usage text alone (an empty
/// message), and any other single argument is named after
/// `unknown argument: `.
pub proof fn law_refusals_explain_themselves(args: Seq<Seq<char>>)
    ensures
        args.len() == 0 ==> mode_for(args) == Err::<RunMode, Seq<char>>(
            "missing required mode argument"@,
        ),
        args.len() > 1 ==> mode_for(args) == Err::<RunMode, Seq<char>>(
            "only one argument is supported"@,
        ),
        args.len() == 1 && (args[0] == "-h"@ || args[0] == "--help"@) ==> mode_for(args) == Err::<
            RunMode,
            Seq<char>,
        >(Seq::empty()),
        args.len() == 1 && args[0] != "-u"@ && args[0] != "-s"@ && args[0] != "-h"@ && args[0]
            != "--help"@ ==> mode_for(args) == Err::<RunMode, Seq<char>>(
            "unknown argument: "@ + args[0],
        ),
{
    reveal_strlit("-s");
    reveal_strlit("-u");
    reveal_strlit("-h");
    reveal_strlit("--help");
    assert("-h"@[1] != "-u"@[1] && "-h"@[1] != "-s"@[1]);
    assert("--help"@.len() != "-u"@.len() && "--help"@.len() != "-s"@.len());
}

} // verus!
