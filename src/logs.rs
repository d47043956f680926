//! Where each scheme's build output is kept: a fixed log directory holding,
//! per scheme, an output log, an error log and (in chained mode) a
//! compile-command database written by the formatter.

use vstd::prelude::*;

verus! {

/// The log directory, relative to the working directory.
pub const LOG_DIR: &'static str = "buildlogs";

/// Suffix of a scheme's output log.
pub const LOG_SUFFIX: &'static str = ".log";

/// Suffix of a scheme's error log.
pub const ERR_LOG_SUFFIX: &'static str = ".err.log";

/// Suffix of a scheme's compile-command database.
pub const COMPILE_COMMANDS_SUFFIX: &'static str = "_compile_commands.json";

/// The name of a scheme's output log file: `{scheme}.log`.
pub open spec fn log_name(scheme: Seq<char>) -> Seq<char> {
    scheme + LOG_SUFFIX@
}

/// The name of a scheme's error log file: `{scheme}.err.log`.
pub open spec fn err_log_name(scheme: Seq<char>) -> Seq<char> {
    scheme + ERR_LOG_SUFFIX@
}

/// The path of a scheme's compile-command database: `{dir}/{scheme}_compile_commands.json`.
pub open spec fn compile_commands_name(dir: Seq<char>, scheme: Seq<char>) -> Seq<char> {
    dir + seq!['/'] + scheme + COMPILE_COMMANDS_SUFFIX@
}

/// The file name of the scheme's output log inside the log directory.
pub fn log_file_name(scheme: &str) -> (r: String)
    ensures
        r@ == log_name(scheme@),
{
    scheme.to_string().concat(LOG_SUFFIX)
}

/// The file name of the scheme's error log inside the log directory.
pub fn err_log_file_name(scheme: &str) -> (r: String)
    ensures
        r@ == err_log_name(scheme@),
{
    scheme.to_string().concat(ERR_LOG_SUFFIX)
}

/// The path, below `dir`, that the formatter writes the scheme's
/// compile-command database to.
pub fn compile_commands_path(dir: &str, scheme: &str) -> (r: String)
    ensures
        r@ == compile_commands_name(dir@, scheme@),
{
    proof {
        reveal_strlit("/");
    }
    let r = dir.to_string().concat("/").concat(scheme).concat(COMPILE_COMMANDS_SUFFIX);
    assert(r@ =~= compile_commands_name(dir@, scheme@));
    r
}

/// Each scheme gets log files of its own: different schemes never share an
/// output log name or an error log name, and a scheme's output log and error
/// log are two different files.
pub proof fn lemma_log_names_distinct(a: Seq<char>, b: Seq<char>)
    ensures
        log_name(a) == log_name(b) ==> a == b,
        err_log_name(a) == err_log_name(b) ==> a == b,
        log_name(a) != err_log_name(a),
{
    reveal_strlit(".log");
    reveal_strlit(".err.log");
    if log_name(a) == log_name(b) {
        assert(a =~= log_name(a).subrange(0, a.len() as int));
        assert(b =~= log_name(b).subrange(0, b.len() as int));
    }
    if err_log_name(a) == err_log_name(b) {
        assert(a =~= err_log_name(a).subrange(0, a.len() as int));
        assert(b =~= err_log_name(b).subrange(0, b.len() as int));
    }
    assert(log_name(a).len() != err_log_name(a).len());
}

} // verus!
